//! The remote-servers modal workflow: one mode at a time, events in, actions
//! out.
//!
//! The modal is a state machine. Its mode says which sub-task is active:
//! browsing the registered servers, creating a server, viewing one server's
//! options, editing a nickname, or picking a project directory. Events carry
//! what the user did and what the outside world answered; the machine moves
//! to its next mode and hands back the actions its caller must perform:
//! registry transforms for the persistence collaborator, connection attempts
//! for the remote session client, and so on. The machine itself performs
//! nothing.
//!
//! At most one connection attempt is outstanding at a time, tracked by the
//! active mode; while one runs, the address input is read-only. Established
//! sessions are retained for the life of the process: the pool only grows.

use vstd::prelude::*;

use crate::connection::{
    spec_failure_message, spec_parse, spec_parse_error_message, ConnectFailure, ConnectionOptions,
    FailureView, OptionsView, ParseError,
};
use crate::registry::{
    servers_view, ProjectRecord, RegistryTransform, ServerRecord, ServerRecordView,
    ServerRegistry, TransformView,
};
use crate::strs::{opt_str_clone, str_vec_clone, strs_view};

verus! {

// ---------------------------------------------------------------------------
// Sessions
// ---------------------------------------------------------------------------

/// An authenticated session with a remote host. The remote session client
/// mints the handle; the modal only retains it so the connection survives
/// the modal's dismissal. Sessions are never cloned, only kept.
#[derive(PartialEq, Eq, Structural, Debug)]
pub struct ConnectionSession {
    pub id: u64,
}

// ---------------------------------------------------------------------------
// Modes
// ---------------------------------------------------------------------------

/// The modal's mode: exactly one sub-task is active at a time.
pub enum Mode {
    /// Browsing the registered servers, rendered from a cached listing.
    Default { snapshot: Vec<ServerRecord> },
    /// Typing a connection command; possibly with an error shown, possibly
    /// with an attempt running. While an attempt runs the input is
    /// read-only.
    CreatingServer {
        address_text: String,
        address_error: Option<String>,
        attempt: Option<ConnectionOptions>,
        read_only: bool,
    },
    /// Viewing one server's options, addressed by index into the registry,
    /// with the record as it looked when selected.
    ViewingOptions { server_index: usize, snapshot: ServerRecord },
    /// Editing the nickname of the server at `server_index`.
    EditingNickname { server_index: usize, buffer: String },
    /// Waiting for the user to pick a directory on the connected server.
    PickingProject { server_index: usize, options: ConnectionOptions },
}

/// The mathematical content of a mode.
#[verifier::ext_equal]
pub enum ModeView {
    Default { snapshot: Seq<ServerRecordView> },
    CreatingServer {
        address_text: Seq<char>,
        address_error: Option<Seq<char>>,
        attempt: Option<OptionsView>,
        read_only: bool,
    },
    ViewingOptions { server_index: int, snapshot: ServerRecordView },
    EditingNickname { server_index: int, buffer: Seq<char> },
    PickingProject { server_index: int, options: OptionsView },
}

impl View for Mode {
    type V = ModeView;

    open spec fn view(&self) -> ModeView {
        match self {
            Mode::Default { snapshot } => ModeView::Default { snapshot: servers_view(snapshot@) },
            Mode::CreatingServer { address_text, address_error, attempt, read_only } => {
                ModeView::CreatingServer {
                    address_text: address_text@,
                    address_error: crate::strs::opt_str_view(*address_error),
                    attempt: match attempt {
                        Some(o) => Some(o@),
                        None => None,
                    },
                    read_only: *read_only,
                }
            },
            Mode::ViewingOptions { server_index, snapshot } => ModeView::ViewingOptions {
                server_index: *server_index as int,
                snapshot: snapshot@,
            },
            Mode::EditingNickname { server_index, buffer } => ModeView::EditingNickname {
                server_index: *server_index as int,
                buffer: buffer@,
            },
            Mode::PickingProject { server_index, options } => ModeView::PickingProject {
                server_index: *server_index as int,
                options: options@,
            },
        }
    }
}

/// How many connection attempts the mode is tracking: one while creating a
/// server with an attempt in flight, none otherwise.
pub open spec fn attempts_outstanding(m: ModeView) -> nat {
    match m {
        ModeView::CreatingServer { attempt, .. } => if attempt is Some {
            1
        } else {
            0
        },
        _ => 0,
    }
}

/// Whether the address input refuses edits.
pub open spec fn input_read_only(m: ModeView) -> bool {
    match m {
        ModeView::CreatingServer { read_only, .. } => read_only,
        _ => false,
    }
}

/// What every reachable mode satisfies: the input is read-only exactly while
/// an attempt runs, and an error is never shown while one runs.
pub open spec fn mode_wf(m: ModeView) -> bool {
    match m {
        ModeView::CreatingServer { address_error, attempt, read_only, .. } => {
            &&& read_only == (attempt is Some)
            &&& !(attempt is Some && address_error is Some)
        },
        _ => true,
    }
}

/// A mode never tracks more than one attempt: the tag has one slot for it.
pub proof fn lemma_attempts_bounded(m: ModeView)
    ensures
        attempts_outstanding(m) <= 1,
{
}

/// Takes the mode out, leaving an empty listing behind.
fn take_mode(m: &mut Mode) -> (r: Mode)
    ensures
        r == *old(m),
{
    let mut tmp = Mode::Default { snapshot: Vec::new() };
    core::mem::swap(m, &mut tmp);
    tmp
}

// ---------------------------------------------------------------------------
// Events and actions
// ---------------------------------------------------------------------------

/// What happened: a user gesture, or an answer from the outside world.
pub enum Event {
    /// The user asked to connect a new server.
    StartCreate,
    /// The user edited the connection command.
    EditAddress { text: String },
    /// The user confirmed the active sub-task.
    Confirm,
    /// The user cancelled the active sub-task.
    Cancel,
    /// The connection attempt finished.
    AttemptFinished { outcome: Result<ConnectionSession, ConnectFailure> },
    /// The user opened the options of the server at `index`.
    SelectServer { index: usize },
    /// The user asked to edit the viewed server's nickname.
    StartEditNickname,
    /// The user edited the nickname being typed.
    EditNicknameBuffer { text: String },
    /// The user asked to remove the viewed server.
    RequestRemoveServer,
    /// The confirmation prompt for removing the server was answered.
    RemoveServerAnswer { accepted: bool },
    /// The user asked to open a new folder on the server at `index`.
    OpenFolder { index: usize },
    /// The user opened a saved project of the listed server.
    OpenProject { server_index: usize, project_index: usize },
    /// The user deleted a saved project of the listed server.
    RemoveProject { server_index: usize, project_index: usize },
    /// The directory picker yielded the chosen paths.
    PathsSelected { paths: Vec<String> },
    /// The directory picker was abandoned.
    SelectionCancelled,
    /// The user clicked outside the modal.
    ClickOutside,
}

/// The mathematical content of an event.
pub enum EventView {
    StartCreate,
    EditAddress { text: Seq<char> },
    Confirm,
    Cancel,
    AttemptFinished { outcome: Result<ConnectionSession, FailureView> },
    SelectServer { index: int },
    StartEditNickname,
    EditNicknameBuffer { text: Seq<char> },
    RequestRemoveServer,
    RemoveServerAnswer { accepted: bool },
    OpenFolder { index: int },
    OpenProject { server_index: int, project_index: int },
    RemoveProject { server_index: int, project_index: int },
    PathsSelected { paths: Seq<Seq<char>> },
    SelectionCancelled,
    ClickOutside,
}

impl View for Event {
    type V = EventView;

    open spec fn view(&self) -> EventView {
        match self {
            Event::StartCreate => EventView::StartCreate,
            Event::EditAddress { text } => EventView::EditAddress { text: text@ },
            Event::Confirm => EventView::Confirm,
            Event::Cancel => EventView::Cancel,
            Event::AttemptFinished { outcome } => EventView::AttemptFinished {
                outcome: match outcome {
                    Ok(s) => Ok(*s),
                    Err(f) => Err(f@),
                },
            },
            Event::SelectServer { index } => EventView::SelectServer { index: *index as int },
            Event::StartEditNickname => EventView::StartEditNickname,
            Event::EditNicknameBuffer { text } => EventView::EditNicknameBuffer { text: text@ },
            Event::RequestRemoveServer => EventView::RequestRemoveServer,
            Event::RemoveServerAnswer { accepted } => EventView::RemoveServerAnswer {
                accepted: *accepted,
            },
            Event::OpenFolder { index } => EventView::OpenFolder { index: *index as int },
            Event::OpenProject { server_index, project_index } => EventView::OpenProject {
                server_index: *server_index as int,
                project_index: *project_index as int,
            },
            Event::RemoveProject { server_index, project_index } => EventView::RemoveProject {
                server_index: *server_index as int,
                project_index: *project_index as int,
            },
            Event::PathsSelected { paths } => EventView::PathsSelected {
                paths: strs_view(paths@),
            },
            Event::SelectionCancelled => EventView::SelectionCancelled,
            Event::ClickOutside => EventView::ClickOutside,
        }
    }
}

/// What the caller must perform on the machine's behalf.
pub enum Action {
    /// Start a connection attempt with these options, relaying its prompts
    /// to the modal.
    BeginAttempt { options: ConnectionOptions },
    /// Hand the confirmation to the attempt's active prompt.
    ForwardConfirmToPrompt,
    /// Apply this transform to the durable registry.
    UpdateRegistry { transform: RegistryTransform },
    /// Connect to the server at `server_index` and, on success, open a
    /// directory picker for it in a fresh modal.
    BeginProjectConnect { server_index: usize, options: ConnectionOptions },
    /// Connect to the server and open the saved project's paths as a
    /// workspace.
    OpenSshProject { server_index: usize, options: ConnectionOptions, paths: Vec<String> },
    /// Open the chosen paths as a workspace over the session already in
    /// hand.
    OpenWorkspace { server_index: usize, paths: Vec<String> },
    /// Ask the user to confirm removing the server at `server_index`.
    AskRemoveConfirmation { server_index: usize },
    /// Close the modal.
    Dismiss,
}

/// The mathematical content of an action.
pub enum ActionView {
    BeginAttempt { options: OptionsView },
    ForwardConfirmToPrompt,
    UpdateRegistry { transform: TransformView },
    BeginProjectConnect { server_index: int, options: OptionsView },
    OpenSshProject { server_index: int, options: OptionsView, paths: Seq<Seq<char>> },
    OpenWorkspace { server_index: int, paths: Seq<Seq<char>> },
    AskRemoveConfirmation { server_index: int },
    Dismiss,
}

impl View for Action {
    type V = ActionView;

    open spec fn view(&self) -> ActionView {
        match self {
            Action::BeginAttempt { options } => ActionView::BeginAttempt { options: options@ },
            Action::ForwardConfirmToPrompt => ActionView::ForwardConfirmToPrompt,
            Action::UpdateRegistry { transform } => ActionView::UpdateRegistry {
                transform: transform@,
            },
            Action::BeginProjectConnect { server_index, options } => {
                ActionView::BeginProjectConnect {
                    server_index: *server_index as int,
                    options: options@,
                }
            },
            Action::OpenSshProject { server_index, options, paths } => ActionView::OpenSshProject {
                server_index: *server_index as int,
                options: options@,
                paths: strs_view(paths@),
            },
            Action::OpenWorkspace { server_index, paths } => ActionView::OpenWorkspace {
                server_index: *server_index as int,
                paths: strs_view(paths@),
            },
            Action::AskRemoveConfirmation { server_index } => ActionView::AskRemoveConfirmation {
                server_index: *server_index as int,
            },
            Action::Dismiss => ActionView::Dismiss,
        }
    }
}

/// The views of a sequence of actions.
pub open spec fn acts_view(a: Seq<Action>) -> Seq<ActionView> {
    a.map_values(|x: Action| x@)
}

/// An action sequence holds a `BeginAttempt`.
pub open spec fn has_begin_attempt(a: Seq<ActionView>) -> bool {
    exists|i: int| 0 <= i < a.len() && a[i] is BeginAttempt
}

// ---------------------------------------------------------------------------
// The modal
// ---------------------------------------------------------------------------

/// The remote-servers modal: its active mode and the sessions it keeps
/// alive. One instance drives one workflow; it spawns at most one connection
/// attempt at a time, tracked by the mode.
pub struct RemoteServerProjects {
    pub mode: Mode,
    pub retained_connections: Vec<ConnectionSession>,
}

impl RemoteServerProjects {
    /// Every reachable state satisfies this.
    pub open spec fn wf(&self) -> bool {
        mode_wf(self.mode@)
    }

    /// A fresh modal, listing the live registry.
    pub fn new(live: &ServerRegistry) -> (r: Self)
        ensures
            r.mode@ == (ModeView::Default { snapshot: live@ }),
            r.retained_connections@ == Seq::<ConnectionSession>::empty(),
            r.wf(),
    {
        let r = RemoteServerProjects {
            mode: Mode::Default { snapshot: live.snapshot() },
            retained_connections: Vec::new(),
        };
        proof {
            assert(r.mode@ =~= (ModeView::Default { snapshot: live@ }));
        }
        r
    }

    /// A modal that starts out picking a project on the server at
    /// `server_index`, connected with `options`.
    pub fn project_picker(server_index: usize, options: ConnectionOptions) -> (r: Self)
        ensures
            r.mode@ == (ModeView::PickingProject {
                server_index: server_index as int,
                options: options@,
            }),
            r.retained_connections@ == Seq::<ConnectionSession>::empty(),
            r.wf(),
    {
        RemoteServerProjects {
            mode: Mode::PickingProject { server_index, options },
            retained_connections: Vec::new(),
        }
    }
}

/// What confirming does while the user is typing a connection command and no
/// attempt runs yet: an input without tokens is ignored, a malformed command
/// surfaces its error and keeps the text, a well-formed one starts the
/// attempt, sets the input read-only and asks the caller to connect.
pub open spec fn confirm_creating_post(
    pre: ModeView,
    post: ModeView,
    acts: Seq<ActionView>,
) -> bool
    recommends
        pre is CreatingServer,
{
    let text = pre->CreatingServer_address_text;
    match spec_parse(text) {
        Err(e) => acts.len() == 0 && (if e == ParseError::MissingCommand {
            post == pre
        } else {
            post == (ModeView::CreatingServer {
                address_text: text,
                address_error: Some(spec_parse_error_message(e)),
                attempt: None,
                read_only: false,
            })
        }),
        Ok(o) => {
            &&& post == (ModeView::CreatingServer {
                address_text: text,
                address_error: None,
                attempt: Some(o),
                read_only: true,
            })
            &&& acts == seq![ActionView::BeginAttempt { options: o }]
        },
    }
}

impl RemoteServerProjects {
    /// Parses the typed connection command and starts the attempt. An input
    /// without tokens is ignored; a malformed one surfaces its error and
    /// keeps the text editable; a well-formed one marks the attempt as
    /// running, sets the input read-only and asks the caller to connect.
    /// Outside the command editor, or while an attempt already runs, this
    /// does nothing.
    pub fn create_ssh_server(&mut self) -> (r: Vec<Action>)
        ensures
            final(self).retained_connections@ == old(self).retained_connections@,
            match old(self).mode@ {
                ModeView::CreatingServer { attempt, .. } => {
                    if attempt is Some {
                        final(self).mode@ == old(self).mode@ && r@.len() == 0
                    } else {
                        confirm_creating_post(old(self).mode@, final(self).mode@, acts_view(r@))
                    }
                },
                _ => final(self).mode@ == old(self).mode@ && r@.len() == 0,
            },
    {
        let mut acts: Vec<Action> = Vec::new();
        let m = take_mode(&mut self.mode);
        match m {
            Mode::CreatingServer { address_text, address_error, attempt, read_only } => {
                if attempt.is_some() {
                    self.mode = Mode::CreatingServer {
                        address_text,
                        address_error,
                        attempt,
                        read_only,
                    };
                } else {
                    match crate::connection::parse_command_line(address_text.as_str()) {
                        Err(e) => {
                            if e == ParseError::MissingCommand {
                                self.mode = Mode::CreatingServer {
                                    address_text,
                                    address_error,
                                    attempt,
                                    read_only,
                                };
                            } else {
                                let msg = crate::connection::parse_error_message(&e);
                                self.mode = Mode::CreatingServer {
                                    address_text,
                                    address_error: Some(msg),
                                    attempt: None,
                                    read_only: false,
                                };
                            }
                        },
                        Ok(o) => {
                            let ghost ov = o@;
                            let to_begin = o.duplicate();
                            self.mode = Mode::CreatingServer {
                                address_text,
                                address_error: None,
                                attempt: Some(o),
                                read_only: true,
                            };
                            acts.push(Action::BeginAttempt { options: to_begin });
                            proof {
                                assert(acts_view(acts@) =~= seq![
                                    ActionView::BeginAttempt { options: ov },
                                ]);
                            }
                        },
                    }
                }
            },
            other => {
                self.mode = other;
            },
        }
        acts
    }

    /// The user confirmed the active sub-task. While typing a connection
    /// command this parses it and starts the attempt; while an attempt runs
    /// it answers the attempt's prompt; while editing a nickname it persists
    /// the nickname and returns to the listing. Elsewhere it does nothing.
    pub fn confirm(&mut self, live: &ServerRegistry) -> (r: Vec<Action>)
        ensures
            final(self).retained_connections@ == old(self).retained_connections@,
            match old(self).mode@ {
                ModeView::CreatingServer { attempt, .. } => {
                    if attempt is Some {
                        &&& final(self).mode@ == old(self).mode@
                        &&& acts_view(r@) == seq![ActionView::ForwardConfirmToPrompt]
                    } else {
                        confirm_creating_post(old(self).mode@, final(self).mode@, acts_view(r@))
                    }
                },
                ModeView::EditingNickname { server_index, buffer } => {
                    &&& final(self).mode@ == (ModeView::Default { snapshot: live@ })
                    &&& (if server_index < live@.len() {
                        acts_view(r@) == seq![
                            ActionView::UpdateRegistry {
                                transform: TransformView::SetNickname {
                                    index: server_index,
                                    nickname: Some(buffer),
                                },
                            },
                        ]
                    } else {
                        r@.len() == 0
                    })
                },
                _ => final(self).mode@ == old(self).mode@ && r@.len() == 0,
            },
    {
        let mut acts: Vec<Action> = Vec::new();
        let m = take_mode(&mut self.mode);
        match m {
            Mode::CreatingServer { address_text, address_error, attempt, read_only } => {
                if attempt.is_some() {
                    self.mode = Mode::CreatingServer {
                        address_text,
                        address_error,
                        attempt,
                        read_only,
                    };
                    acts.push(Action::ForwardConfirmToPrompt);
                    proof {
                        assert(acts_view(acts@) =~= seq![ActionView::ForwardConfirmToPrompt]);
                    }
                } else {
                    self.mode = Mode::CreatingServer {
                        address_text,
                        address_error,
                        attempt,
                        read_only,
                    };
                    return self.create_ssh_server();
                }
            },
            Mode::EditingNickname { server_index, buffer } => {
                let ghost bufferv = buffer@;
                self.mode = Mode::Default { snapshot: live.snapshot() };
                // The index is re-validated against the live registry before
                // the mutation; a stale one is silently absorbed.
                if server_index < live.server_count() {
                    acts.push(
                        Action::UpdateRegistry {
                            transform: RegistryTransform::SetNickname {
                                index: server_index,
                                nickname: Some(buffer),
                            },
                        },
                    );
                    proof {
                        assert(acts_view(acts@) =~= seq![
                            ActionView::UpdateRegistry {
                                transform: TransformView::SetNickname {
                                    index: server_index as int,
                                    nickname: Some(bufferv),
                                },
                            },
                        ]);
                    }
                }
                proof {
                    assert(self.mode@ =~= (ModeView::Default { snapshot: live@ }));
                }
            },
            other => {
                self.mode = other;
            },
        }
        acts
    }

    /// The user cancelled the active sub-task. From the listing this closes
    /// the modal; while an attempt runs it abandons the attempt and keeps
    /// the typed text, writable again; everywhere else it returns to the
    /// listing.
    pub fn cancel(&mut self, live: &ServerRegistry) -> (r: Vec<Action>)
        ensures
            final(self).retained_connections@ == old(self).retained_connections@,
            match old(self).mode@ {
                ModeView::Default { .. } => {
                    &&& final(self).mode@ == old(self).mode@
                    &&& acts_view(r@) == seq![ActionView::Dismiss]
                },
                ModeView::CreatingServer { address_text, attempt, .. } => {
                    if attempt is Some {
                        &&& final(self).mode@ == (ModeView::CreatingServer {
                            address_text,
                            address_error: None,
                            attempt: None,
                            read_only: false,
                        })
                        &&& r@.len() == 0
                    } else {
                        &&& final(self).mode@ == (ModeView::Default { snapshot: live@ })
                        &&& r@.len() == 0
                    }
                },
                _ => {
                    &&& final(self).mode@ == (ModeView::Default { snapshot: live@ })
                    &&& r@.len() == 0
                },
            },
    {
        let mut acts: Vec<Action> = Vec::new();
        let m = take_mode(&mut self.mode);
        match m {
            Mode::Default { snapshot } => {
                self.mode = Mode::Default { snapshot };
                acts.push(Action::Dismiss);
            },
            Mode::CreatingServer { address_text, address_error, attempt, read_only } => {
                if attempt.is_some() {
                    self.mode = Mode::CreatingServer {
                        address_text,
                        address_error: None,
                        attempt: None,
                        read_only: false,
                    };
                } else {
                    self.mode = Mode::Default { snapshot: live.snapshot() };
                    proof {
                        assert(self.mode@ =~= (ModeView::Default { snapshot: live@ }));
                    }
                }
            },
            _ => {
                self.mode = Mode::Default { snapshot: live.snapshot() };
                proof {
                    assert(self.mode@ =~= (ModeView::Default { snapshot: live@ }));
                }
            },
        }
        acts
    }

    /// The connection attempt finished. On success the session is retained,
    /// the server the attempt was started for is appended to the registry,
    /// and the modal returns to the listing. On failure the typed text comes
    /// back writable, with the failure surfaced inline; a cancellation by
    /// the user surfaces nothing. A completion that no mode is waiting for
    /// changes nothing.
    pub fn attempt_finished(
        &mut self,
        outcome: Result<ConnectionSession, ConnectFailure>,
        live: &ServerRegistry,
    ) -> (r: Vec<Action>)
        ensures
            attempts_outstanding(old(self).mode@) == 0 ==> {
                &&& final(self).mode@ == old(self).mode@
                &&& final(self).retained_connections@ == old(self).retained_connections@
                &&& r@.len() == 0
            },
            old(self).mode@ matches ModeView::CreatingServer {
                address_text,
                attempt: Some(opts),
                ..
            } ==> match outcome {
                Ok(s) => {
                    &&& final(self).retained_connections@ == old(
                        self,
                    ).retained_connections@.push(s)
                    &&& final(self).mode@ == (ModeView::Default { snapshot: live@ })
                    &&& acts_view(r@) == seq![
                        ActionView::UpdateRegistry {
                            transform: TransformView::AddServer { options: opts },
                        },
                    ]
                },
                Err(f) => {
                    &&& final(self).retained_connections@ == old(self).retained_connections@
                    &&& final(self).mode@ == (ModeView::CreatingServer {
                        address_text,
                        address_error: if f@ is UserCancelled {
                            None
                        } else {
                            Some(spec_failure_message(f@))
                        },
                        attempt: None,
                        read_only: false,
                    })
                    &&& r@.len() == 0
                },
            },
    {
        let mut acts: Vec<Action> = Vec::new();
        let m = take_mode(&mut self.mode);
        match m {
            Mode::CreatingServer { address_text, address_error, attempt, read_only } => {
                match attempt {
                    Some(opts) => {
                        match outcome {
                            Ok(s) => {
                                let ghost optsv = opts@;
                                self.retained_connections.push(s);
                                acts.push(
                                    Action::UpdateRegistry {
                                        transform: RegistryTransform::AddServer { options: opts },
                                    },
                                );
                                self.mode = Mode::Default { snapshot: live.snapshot() };
                                proof {
                                    assert(self.mode@ =~= (ModeView::Default { snapshot: live@ }));
                                    assert(acts_view(acts@) =~= seq![
                                        ActionView::UpdateRegistry {
                                            transform: TransformView::AddServer {
                                                options: optsv,
                                            },
                                        },
                                    ]);
                                }
                            },
                            Err(f) => {
                                let err = match &f {
                                    ConnectFailure::UserCancelled => None,
                                    _ => Some(crate::connection::failure_message(&f)),
                                };
                                self.mode = Mode::CreatingServer {
                                    address_text,
                                    address_error: err,
                                    attempt: None,
                                    read_only: false,
                                };
                            },
                        }
                    },
                    None => {
                        self.mode = Mode::CreatingServer {
                            address_text,
                            address_error,
                            attempt: None,
                            read_only,
                        };
                    },
                }
            },
            other => {
                self.mode = other;
            },
        }
        acts
    }
}

/// The connection options a server record was registered with.
pub open spec fn spec_options_of(r: ServerRecordView) -> OptionsView {
    OptionsView { host: r.host, username: r.username, port: r.port, args: r.args }
}

/// The connection options of a server record, copied out.
fn connection_options_of(r: &ServerRecord) -> (o: ConnectionOptions)
    ensures
        o@ == spec_options_of(r@),
{
    let o = ConnectionOptions {
        host: r.host.clone(),
        username: opt_str_clone(&r.username),
        port: r.port,
        args: str_vec_clone(&r.args),
    };
    proof {
        assert(o@ =~= spec_options_of(r@));
    }
    o
}

/// The text the nickname editor starts out with: the server's current
/// nickname, or nothing for a stale index.
pub open spec fn spec_nickname_buffer(live: Seq<ServerRecordView>, i: int) -> Seq<char> {
    if 0 <= i < live.len() {
        match live[i].nickname {
            Some(s) => s,
            None => Seq::empty(),
        }
    } else {
        Seq::empty()
    }
}

impl RemoteServerProjects {
    /// The user asked to connect a new server: from the listing, an empty
    /// command editor opens.
    pub fn start_create(&mut self) -> (r: Vec<Action>)
        ensures
            final(self).retained_connections@ == old(self).retained_connections@,
            r@.len() == 0,
            match old(self).mode@ {
                ModeView::Default { .. } => final(self).mode@ == (ModeView::CreatingServer {
                    address_text: Seq::empty(),
                    address_error: None,
                    attempt: None,
                    read_only: false,
                }),
                _ => final(self).mode@ == old(self).mode@,
            },
    {
        if let Mode::Default { .. } = &self.mode {
            self.mode = Mode::CreatingServer {
                address_text: String::new(),
                address_error: None,
                attempt: None,
                read_only: false,
            };
        }
        Vec::new()
    }

    /// The user edited the connection command. While an attempt runs the
    /// input is read-only and the edit is refused; otherwise the text is
    /// replaced and any shown error stays until the next confirmation.
    pub fn edit_address(&mut self, text: String) -> (r: Vec<Action>)
        ensures
            final(self).retained_connections@ == old(self).retained_connections@,
            r@.len() == 0,
            match old(self).mode@ {
                ModeView::CreatingServer { address_error, attempt, read_only, .. } => {
                    if read_only {
                        final(self).mode@ == old(self).mode@
                    } else {
                        final(self).mode@ == (ModeView::CreatingServer {
                            address_text: text@,
                            address_error,
                            attempt,
                            read_only,
                        })
                    }
                },
                _ => final(self).mode@ == old(self).mode@,
            },
    {
        let m = take_mode(&mut self.mode);
        match m {
            Mode::CreatingServer { address_text, address_error, attempt, read_only } => {
                if read_only {
                    self.mode = Mode::CreatingServer {
                        address_text,
                        address_error,
                        attempt,
                        read_only,
                    };
                } else {
                    self.mode = Mode::CreatingServer {
                        address_text: text,
                        address_error,
                        attempt,
                        read_only,
                    };
                }
            },
            other => {
                self.mode = other;
            },
        }
        Vec::new()
    }

    /// The user opened the options of the server at `index`; a stale index
    /// does nothing.
    pub fn view_server_options(&mut self, index: usize, live: &ServerRegistry) -> (r: Vec<
        Action,
    >)
        ensures
            final(self).retained_connections@ == old(self).retained_connections@,
            r@.len() == 0,
            match old(self).mode@ {
                ModeView::Default { .. } => {
                    if (index as int) < live@.len() {
                        final(self).mode@ == (ModeView::ViewingOptions {
                            server_index: index as int,
                            snapshot: live@[index as int],
                        })
                    } else {
                        final(self).mode@ == old(self).mode@
                    }
                },
                _ => final(self).mode@ == old(self).mode@,
            },
    {
        if let Mode::Default { .. } = &self.mode {
            if index < live.server_count() {
                self.mode = Mode::ViewingOptions {
                    server_index: index,
                    snapshot: live.server_at(index).duplicate(),
                };
            }
        }
        Vec::new()
    }

    /// The user asked to edit the viewed server's nickname: the editor opens
    /// holding the current nickname.
    pub fn start_edit_nickname(&mut self, live: &ServerRegistry) -> (r: Vec<Action>)
        ensures
            final(self).retained_connections@ == old(self).retained_connections@,
            r@.len() == 0,
            match old(self).mode@ {
                ModeView::ViewingOptions { server_index, .. } => final(self).mode@
                    == (ModeView::EditingNickname {
                    server_index,
                    buffer: spec_nickname_buffer(live@, server_index),
                }),
                _ => final(self).mode@ == old(self).mode@,
            },
    {
        if let Mode::ViewingOptions { server_index, .. } = &self.mode {
            let index = *server_index;
            let buffer = if index < live.server_count() {
                match &live.server_at(index).nickname {
                    Some(s) => s.clone(),
                    None => String::new(),
                }
            } else {
                String::new()
            };
            self.mode = Mode::EditingNickname { server_index: index, buffer };
        }
        Vec::new()
    }

    /// The user edited the nickname being typed.
    pub fn edit_nickname_buffer(&mut self, text: String) -> (r: Vec<Action>)
        ensures
            final(self).retained_connections@ == old(self).retained_connections@,
            r@.len() == 0,
            match old(self).mode@ {
                ModeView::EditingNickname { server_index, .. } => final(self).mode@
                    == (ModeView::EditingNickname { server_index, buffer: text@ }),
                _ => final(self).mode@ == old(self).mode@,
            },
    {
        let m = take_mode(&mut self.mode);
        match m {
            Mode::EditingNickname { server_index, .. } => {
                self.mode = Mode::EditingNickname { server_index, buffer: text };
            },
            other => {
                self.mode = other;
            },
        }
        Vec::new()
    }

    /// The user asked to remove the viewed server: a destructive action, so
    /// the caller must first ask for confirmation.
    pub fn request_remove_server(&mut self) -> (r: Vec<Action>)
        ensures
            final(self).retained_connections@ == old(self).retained_connections@,
            final(self).mode@ == old(self).mode@,
            match old(self).mode@ {
                ModeView::ViewingOptions { server_index, .. } => acts_view(r@) == seq![
                    ActionView::AskRemoveConfirmation { server_index },
                ],
                _ => r@.len() == 0,
            },
    {
        let mut acts: Vec<Action> = Vec::new();
        if let Mode::ViewingOptions { server_index, .. } = &self.mode {
            acts.push(Action::AskRemoveConfirmation { server_index: *server_index });
            proof {
                assert(acts_view(acts@) =~= seq![
                    ActionView::AskRemoveConfirmation {
                        server_index: old(self).mode@->ViewingOptions_server_index,
                    },
                ]);
            }
        }
        acts
    }

    /// Asks the persistence collaborator to remove the server at `index`.
    pub fn delete_ssh_server(&mut self, index: usize) -> (r: Vec<Action>)
        ensures
            final(self).retained_connections@ == old(self).retained_connections@,
            final(self).mode@ == old(self).mode@,
            acts_view(r@) == seq![
                ActionView::UpdateRegistry {
                    transform: TransformView::RemoveServer { index: index as int },
                },
            ],
    {
        let mut acts: Vec<Action> = Vec::new();
        acts.push(Action::UpdateRegistry { transform: RegistryTransform::RemoveServer { index } });
        proof {
            assert(acts_view(acts@) =~= seq![
                ActionView::UpdateRegistry {
                    transform: TransformView::RemoveServer { index: index as int },
                },
            ]);
        }
        acts
    }

    /// The confirmation prompt for removing the viewed server was answered.
    /// Acceptance removes the server and returns to the listing — but only
    /// after the index is re-validated against the live registry: a server
    /// that moved or vanished underneath the prompt is not touched, and the
    /// modal just returns to the listing. Refusal leaves everything as it
    /// was.
    pub fn remove_server_answer(&mut self, accepted: bool, live: &ServerRegistry) -> (r: Vec<
        Action,
    >)
        ensures
            final(self).retained_connections@ == old(self).retained_connections@,
            match old(self).mode@ {
                ModeView::ViewingOptions { server_index, snapshot } => {
                    if accepted {
                        &&& final(self).mode@ == (ModeView::Default { snapshot: live@ })
                        &&& (if server_index < live@.len() && live@[server_index] == snapshot {
                            acts_view(r@) == seq![
                                ActionView::UpdateRegistry {
                                    transform: TransformView::RemoveServer {
                                        index: server_index,
                                    },
                                },
                            ]
                        } else {
                            r@.len() == 0
                        })
                    } else {
                        final(self).mode@ == old(self).mode@ && r@.len() == 0
                    }
                },
                _ => final(self).mode@ == old(self).mode@ && r@.len() == 0,
            },
    {
        let (index, still_there) = match &self.mode {
            Mode::ViewingOptions { server_index, snapshot } => {
                let index = *server_index;
                let still_there = index < live.server_count() && crate::registry::records_equal(
                    live.server_at(index),
                    snapshot,
                );
                (index, still_there)
            },
            _ => {
                return Vec::new();
            },
        };
        if !accepted {
            return Vec::new();
        }
        let acts = if still_there {
            self.delete_ssh_server(index)
        } else {
            Vec::new()
        };
        self.mode = Mode::Default { snapshot: live.snapshot() };
        proof {
            assert(self.mode@ =~= (ModeView::Default { snapshot: live@ }));
        }
        acts
    }

    /// The user asked to open a new folder on the server at `index`: the
    /// caller connects to it and, on success, opens a directory picker in a
    /// fresh modal; this one closes.
    pub fn create_ssh_project(&mut self, index: usize, live: &ServerRegistry) -> (r: Vec<Action>)
        ensures
            final(self).retained_connections@ == old(self).retained_connections@,
            final(self).mode@ == old(self).mode@,
            match old(self).mode@ {
                ModeView::Default { .. } => {
                    if (index as int) < live@.len() {
                        acts_view(r@) == seq![
                            ActionView::BeginProjectConnect {
                                server_index: index as int,
                                options: spec_options_of(live@[index as int]),
                            },
                            ActionView::Dismiss,
                        ]
                    } else {
                        r@.len() == 0
                    }
                },
                _ => r@.len() == 0,
            },
    {
        let mut acts: Vec<Action> = Vec::new();
        if let Mode::Default { .. } = &self.mode {
            if index < live.server_count() {
                let options = connection_options_of(live.server_at(index));
                let ghost ov = options@;
                acts.push(Action::BeginProjectConnect { server_index: index, options });
                acts.push(Action::Dismiss);
                proof {
                    assert(acts_view(acts@) =~= seq![
                        ActionView::BeginProjectConnect {
                            server_index: index as int,
                            options: ov,
                        },
                        ActionView::Dismiss,
                    ]);
                }
            }
        }
        acts
    }

    /// The user opened a saved project of a listed server: the caller
    /// connects and opens its paths as a workspace; this modal closes.
    pub fn open_project(&mut self, server_index: usize, project_index: usize) -> (r: Vec<Action>)
        ensures
            final(self).retained_connections@ == old(self).retained_connections@,
            final(self).mode@ == old(self).mode@,
            match old(self).mode {
                Mode::Default { snapshot } => {
                    if (server_index as int) < snapshot@.len() && (project_index as int)
                        < snapshot@[server_index as int].projects@.len() {
                        acts_view(r@) == seq![
                            ActionView::OpenSshProject {
                                server_index: server_index as int,
                                options: spec_options_of(snapshot@[server_index as int]@),
                                paths: strs_view(
                                    snapshot@[server_index as int].projects@[project_index as int].paths@,
                                ),
                            },
                            ActionView::Dismiss,
                        ]
                    } else {
                        r@.len() == 0
                    }
                },
                _ => r@.len() == 0,
            },
    {
        let mut acts: Vec<Action> = Vec::new();
        if let Mode::Default { snapshot } = &self.mode {
            if server_index < snapshot.len() && project_index < snapshot[server_index].projects.len() {
                let options = connection_options_of(&snapshot[server_index]);
                let ghost ov = options@;
                let paths = str_vec_clone(&snapshot[server_index].projects[project_index].paths);
                let ghost pv = strs_view(paths@);
                acts.push(
                    Action::OpenSshProject { server_index, options, paths },
                );
                acts.push(Action::Dismiss);
                proof {
                    assert(acts_view(acts@) =~= seq![
                        ActionView::OpenSshProject {
                            server_index: server_index as int,
                            options: ov,
                            paths: pv,
                        },
                        ActionView::Dismiss,
                    ]);
                }
            }
        }
        acts
    }

    /// The user deleted a saved project of a listed server: its path set is
    /// removed from the registry; the next render reconciles the listing.
    pub fn delete_ssh_project(&mut self, server_index: usize, project_index: usize) -> (r: Vec<
        Action,
    >)
        ensures
            final(self).retained_connections@ == old(self).retained_connections@,
            final(self).mode@ == old(self).mode@,
            match old(self).mode {
                Mode::Default { snapshot } => {
                    if (server_index as int) < snapshot@.len() && (project_index as int)
                        < snapshot@[server_index as int].projects@.len() {
                        acts_view(r@) == seq![
                            ActionView::UpdateRegistry {
                                transform: TransformView::RemoveProject {
                                    index: server_index as int,
                                    project: snapshot@[server_index as int].projects@[project_index as int]@,
                                },
                            },
                        ]
                    } else {
                        r@.len() == 0
                    }
                },
                _ => r@.len() == 0,
            },
    {
        let mut acts: Vec<Action> = Vec::new();
        if let Mode::Default { snapshot } = &self.mode {
            if server_index < snapshot.len() && project_index < snapshot[server_index].projects.len() {
                let project = snapshot[server_index].projects[project_index].duplicate();
                let ghost pv = project@;
                acts.push(
                    Action::UpdateRegistry {
                        transform: RegistryTransform::RemoveProject {
                            index: server_index,
                            project,
                        },
                    },
                );
                proof {
                    assert(acts_view(acts@) =~= seq![
                        ActionView::UpdateRegistry {
                            transform: TransformView::RemoveProject {
                                index: server_index as int,
                                project: pv,
                            },
                        },
                    ]);
                }
            }
        }
        acts
    }

    /// The directory picker yielded the chosen paths: they are persisted as
    /// a project of the connected server, opened as a workspace, and the
    /// modal closes.
    pub fn paths_selected(&mut self, paths: Vec<String>) -> (r: Vec<Action>)
        ensures
            final(self).retained_connections@ == old(self).retained_connections@,
            final(self).mode@ == old(self).mode@,
            match old(self).mode@ {
                ModeView::PickingProject { server_index, .. } => acts_view(r@) == seq![
                    ActionView::UpdateRegistry {
                        transform: TransformView::AddProject {
                            index: server_index,
                            project: strs_view(paths@).to_set(),
                        },
                    },
                    ActionView::OpenWorkspace { server_index, paths: strs_view(paths@) },
                    ActionView::Dismiss,
                ],
                _ => r@.len() == 0,
            },
    {
        let mut acts: Vec<Action> = Vec::new();
        if let Mode::PickingProject { server_index, .. } = &self.mode {
            let index = *server_index;
            let record = ProjectRecord { paths: str_vec_clone(&paths) };
            let ghost rv = record@;
            let ghost pv = strs_view(paths@);
            acts.push(
                Action::UpdateRegistry {
                    transform: RegistryTransform::AddProject { index, project: record },
                },
            );
            acts.push(Action::OpenWorkspace { server_index: index, paths });
            acts.push(Action::Dismiss);
            proof {
                assert(rv =~= pv.to_set());
                assert(acts_view(acts@) =~= seq![
                    ActionView::UpdateRegistry {
                        transform: TransformView::AddProject { index: index as int, project: rv },
                    },
                    ActionView::OpenWorkspace { server_index: index as int, paths: pv },
                    ActionView::Dismiss,
                ]);
            }
        }
        acts
    }

    /// The directory picker was abandoned: back to the listing, so the user
    /// is not stranded.
    pub fn selection_cancelled(&mut self, live: &ServerRegistry) -> (r: Vec<Action>)
        ensures
            final(self).retained_connections@ == old(self).retained_connections@,
            r@.len() == 0,
            match old(self).mode@ {
                ModeView::PickingProject { .. } => final(self).mode@ == (ModeView::Default {
                    snapshot: live@,
                }),
                _ => final(self).mode@ == old(self).mode@,
            },
    {
        if let Mode::PickingProject { .. } = &self.mode {
            self.mode = Mode::Default { snapshot: live.snapshot() };
            proof {
                assert(self.mode@ =~= (ModeView::Default { snapshot: live@ }));
            }
        }
        Vec::new()
    }

    /// The user clicked outside the modal: only the listing lets that
    /// dismiss it.
    pub fn click_outside(&mut self) -> (r: Vec<Action>)
        ensures
            final(self).retained_connections@ == old(self).retained_connections@,
            final(self).mode@ == old(self).mode@,
            match old(self).mode@ {
                ModeView::Default { .. } => acts_view(r@) == seq![ActionView::Dismiss],
                _ => r@.len() == 0,
            },
    {
        let mut acts: Vec<Action> = Vec::new();
        if let Mode::Default { .. } = &self.mode {
            acts.push(Action::Dismiss);
            proof {
                assert(acts_view(acts@) =~= seq![ActionView::Dismiss]);
            }
        }
        acts
    }

    /// The reconciliation rule, applied before each render: a listing whose
    /// cached servers no longer match the live registry is rebuilt from it,
    /// and a mode holding a stale server index falls back to the listing
    /// instead of trusting the index.
    pub fn reconcile(&mut self, live: &ServerRegistry)
        ensures
            final(self).retained_connections@ == old(self).retained_connections@,
            match old(self).mode@ {
                ModeView::Default { snapshot } => {
                    if snapshot == live@ {
                        final(self).mode@ == old(self).mode@
                    } else {
                        final(self).mode@ == (ModeView::Default { snapshot: live@ })
                    }
                },
                ModeView::ViewingOptions { server_index, snapshot } => {
                    if server_index < live@.len() && live@[server_index] == snapshot {
                        final(self).mode@ == old(self).mode@
                    } else {
                        final(self).mode@ == (ModeView::Default { snapshot: live@ })
                    }
                },
                ModeView::EditingNickname { server_index, .. } => {
                    if server_index < live@.len() {
                        final(self).mode@ == old(self).mode@
                    } else {
                        final(self).mode@ == (ModeView::Default { snapshot: live@ })
                    }
                },
                _ => final(self).mode@ == old(self).mode@,
            },
    {
        let stale = match &self.mode {
            Mode::Default { snapshot } => !live.matches_snapshot(snapshot),
            Mode::ViewingOptions { server_index, snapshot } => {
                if *server_index >= live.server_count() {
                    true
                } else {
                    !crate::registry::records_equal(live.server_at(*server_index), snapshot)
                }
            },
            Mode::EditingNickname { server_index, .. } => *server_index >= live.server_count(),
            _ => false,
        };
        if stale {
            self.mode = Mode::Default { snapshot: live.snapshot() };
            proof {
                assert(self.mode@ =~= (ModeView::Default { snapshot: live@ }));
            }
        }
    }

    /// One step of the workflow: the event moves the modal to its next mode
    /// and yields the actions the caller must perform, in order.
    ///
    /// Whatever the event, the step keeps the machine's standing promises:
    /// the session pool only grows; a well-formed modal stays well-formed;
    /// at most one connection attempt is outstanding, and a new one begins
    /// only when none is; the address input is read-only exactly while an
    /// attempt runs, and an attempt's outcome frees it again, keeping the
    /// typed text on failure and leaving the editor entirely on success.
    pub fn handle(&mut self, event: Event, live: &ServerRegistry) -> (r: Vec<Action>)
        ensures
            old(self).retained_connections@.is_prefix_of(final(self).retained_connections@),
            old(self).wf() ==> final(self).wf(),
            attempts_outstanding(final(self).mode@) <= 1,
            has_begin_attempt(acts_view(r@)) ==> attempts_outstanding(old(self).mode@) == 0
                && attempts_outstanding(final(self).mode@) == 1,
            forall|i: int, j: int|
                0 <= i < j < acts_view(r@).len() ==> !(acts_view(r@)[i] is BeginAttempt
                    && acts_view(r@)[j] is BeginAttempt),
            old(self).wf() ==> (input_read_only(final(self).mode@) <==> attempts_outstanding(
                final(self).mode@,
            ) == 1),
            event matches Event::AttemptFinished { outcome } ==> old(self).mode@ matches
                ModeView::CreatingServer { attempt: Some(_), .. } ==> match outcome {
                Ok(_) => final(self).mode@ is Default,
                Err(_) => {
                    &&& final(self).mode@ is CreatingServer
                    &&& final(self).mode@->CreatingServer_address_text == old(
                        self,
                    ).mode@->CreatingServer_address_text
                    &&& !input_read_only(final(self).mode@)
                    &&& attempts_outstanding(final(self).mode@) == 0
                },
            },
    {
        match event {
            Event::StartCreate => self.start_create(),
            Event::EditAddress { text } => self.edit_address(text),
            Event::Confirm => self.confirm(live),
            Event::Cancel => self.cancel(live),
            Event::AttemptFinished { outcome } => self.attempt_finished(outcome, live),
            Event::SelectServer { index } => self.view_server_options(index, live),
            Event::StartEditNickname => self.start_edit_nickname(live),
            Event::EditNicknameBuffer { text } => self.edit_nickname_buffer(text),
            Event::RequestRemoveServer => self.request_remove_server(),
            Event::RemoveServerAnswer { accepted } => self.remove_server_answer(accepted, live),
            Event::OpenFolder { index } => self.create_ssh_project(index, live),
            Event::OpenProject { server_index, project_index } => self.open_project(
                server_index,
                project_index,
            ),
            Event::RemoveProject { server_index, project_index } => self.delete_ssh_project(
                server_index,
                project_index,
            ),
            Event::PathsSelected { paths } => self.paths_selected(paths),
            Event::SelectionCancelled => self.selection_cancelled(live),
            Event::ClickOutside => self.click_outside(),
        }
    }
}

} // verus!
