//! The durable list of configured remote servers and their saved projects.
//!
//! A registry is an ordered sequence of server records, addressed by index.
//! Each record keeps the connection options the server was registered with, an
//! optional nickname, and its set of saved projects. A project is a set of
//! absolute paths: two projects are the same exactly when their path sets are
//! equal, and a server never holds the same path set twice.
//!
//! Mutations are pure transformations: the workflow describes them as
//! [`RegistryTransform`] values and a persistence collaborator applies them,
//! atomically relative to one another, through [`ServerRegistry::apply`].

use vstd::prelude::*;
use vstd::string::{StrSliceExecFns, StringExecFns};

use crate::connection::{ConnectionOptions, OptionsView};
use crate::strs::{opt_str_clone, opt_str_eq, opt_str_view, str_vec_clone, str_vec_eq, strs_view};

verus! {

// ---------------------------------------------------------------------------
// Projects
// ---------------------------------------------------------------------------

/// A saved project on a server: a set of absolute paths, kept in the order
/// they were chosen but identified by the set alone.
pub struct ProjectRecord {
    pub paths: Vec<String>,
}

impl View for ProjectRecord {
    type V = Set<Seq<char>>;

    open spec fn view(&self) -> Set<Seq<char>> {
        strs_view(self.paths@).to_set()
    }
}

impl ProjectRecord {
    /// A copy, equal at the view level.
    pub fn duplicate(&self) -> (r: Self)
        ensures
            r@ == self@,
    {
        let r = ProjectRecord { paths: str_vec_clone(&self.paths) };
        proof {
            assert(r@ =~= self@);
        }
        r
    }
}

/// Whether one of the strings of `v` reads `p`.
fn contains_path(v: &Vec<String>, p: &String) -> (r: bool)
    ensures
        r == strs_view(v@).contains(p@),
{
    let n = v.len();
    for i in 0..n
        invariant
            n == v.len(),
            forall|j: int| 0 <= j < i ==> strs_view(v@)[j] != p@,
    {
        if v[i] == *p {
            proof {
                assert(strs_view(v@)[i as int] == p@);
            }
            return true;
        }
    }
    proof {
        assert(forall|j: int| 0 <= j < strs_view(v@).len() ==> strs_view(v@)[j] != p@);
    }
    false
}

/// Whether every path of `a` also stands in `b`.
fn paths_subset(a: &Vec<String>, b: &Vec<String>) -> (r: bool)
    ensures
        r == strs_view(a@).to_set().subset_of(strs_view(b@).to_set()),
{
    let n = a.len();
    for i in 0..n
        invariant
            n == a.len(),
            forall|j: int| 0 <= j < i ==> strs_view(b@).contains(#[trigger] strs_view(a@)[j]),
    {
        if !contains_path(b, &a[i]) {
            proof {
                assert(strs_view(a@)[i as int] == a@[i as int]@);
                assert(strs_view(a@).to_set().contains(a@[i as int]@));
            }
            return false;
        }
        proof {
            assert(strs_view(a@)[i as int] == a@[i as int]@);
        }
    }
    proof {
        assert forall|x: Seq<char>| strs_view(a@).to_set().contains(x) implies strs_view(
            b@,
        ).to_set().contains(x) by {
            let j = choose|j: int| 0 <= j < strs_view(a@).len() && strs_view(a@)[j] == x;
            assert(strs_view(b@).contains(strs_view(a@)[j]));
        }
    }
    true
}

/// Whether two projects hold the same path set.
pub fn projects_equal(a: &ProjectRecord, b: &ProjectRecord) -> (r: bool)
    ensures
        r == (a@ == b@),
{
    let fwd = paths_subset(&a.paths, &b.paths);
    let bwd = paths_subset(&b.paths, &a.paths);
    proof {
        if fwd && bwd {
            assert(a@ =~= b@);
        }
    }
    fwd && bwd
}

// ---------------------------------------------------------------------------
// Server records
// ---------------------------------------------------------------------------

/// Whether the binary that serves the remote side is uploaded over the
/// connection or fetched by the remote host itself.
#[derive(Clone, Copy, PartialEq, Eq, Structural, Debug)]
pub enum UploadBinaryPolicy {
    Always,
    Never,
}

/// A configured remote server.
pub struct ServerRecord {
    pub host: String,
    pub username: Option<String>,
    pub port: Option<u16>,
    pub args: Vec<String>,
    pub nickname: Option<String>,
    pub upload_binary_policy: Option<UploadBinaryPolicy>,
    pub projects: Vec<ProjectRecord>,
}

/// The mathematical content of a server record.
#[verifier::ext_equal]
pub struct ServerRecordView {
    pub host: Seq<char>,
    pub username: Option<Seq<char>>,
    pub port: Option<u16>,
    pub args: Seq<Seq<char>>,
    pub nickname: Option<Seq<char>>,
    pub upload_binary_policy: Option<UploadBinaryPolicy>,
    pub projects: Seq<Set<Seq<char>>>,
}

impl View for ServerRecord {
    type V = ServerRecordView;

    open spec fn view(&self) -> ServerRecordView {
        ServerRecordView {
            host: self.host@,
            username: opt_str_view(self.username),
            port: self.port,
            args: strs_view(self.args@),
            nickname: opt_str_view(self.nickname),
            upload_binary_policy: self.upload_binary_policy,
            projects: self.projects@.map_values(|p: ProjectRecord| p@),
        }
    }
}

/// No two projects of the sequence hold the same path set.
pub open spec fn distinct_projects(ps: Seq<Set<Seq<char>>>) -> bool {
    forall|i: int, j: int| 0 <= i < j < ps.len() ==> ps[i] != ps[j]
}

impl ServerRecord {
    /// The record never holds the same path set twice.
    pub open spec fn wf(&self) -> bool {
        distinct_projects(self@.projects)
    }

    /// The server a user registered with these options: no nickname, no saved
    /// projects yet.
    pub fn from_options(options: ConnectionOptions) -> (r: Self)
        ensures
            r@ == spec_record_of(options@),
            r.wf(),
    {
        let r = ServerRecord {
            host: options.host,
            username: options.username,
            port: options.port,
            args: options.args,
            nickname: None,
            upload_binary_policy: None,
            projects: Vec::new(),
        };
        proof {
            assert(r@ =~= spec_record_of(
                OptionsView {
                    host: r.host@,
                    username: opt_str_view(r.username),
                    port: r.port,
                    args: strs_view(r.args@),
                },
            ));
        }
        r
    }

    /// A copy, equal at the view level.
    pub fn duplicate(&self) -> (r: Self)
        ensures
            r@ == self@,
    {
        let mut projects: Vec<ProjectRecord> = Vec::new();
        let n = self.projects.len();
        for i in 0..n
            invariant
                n == self.projects.len(),
                projects@.len() == i,
                forall|j: int| 0 <= j < i ==> projects@[j]@ == self.projects@[j]@,
        {
            projects.push(self.projects[i].duplicate());
        }
        let r = ServerRecord {
            host: self.host.clone(),
            username: opt_str_clone(&self.username),
            port: self.port,
            args: str_vec_clone(&self.args),
            nickname: opt_str_clone(&self.nickname),
            upload_binary_policy: self.upload_binary_policy,
            projects,
        };
        proof {
            assert(r@.projects =~= self@.projects);
            assert(r@ =~= self@);
        }
        r
    }
}

/// The record a fresh registration gets: the parsed options, no nickname, no
/// projects.
pub open spec fn spec_record_of(o: OptionsView) -> ServerRecordView {
    ServerRecordView {
        host: o.host,
        username: o.username,
        port: o.port,
        args: o.args,
        nickname: None,
        upload_binary_policy: None,
        projects: Seq::empty(),
    }
}

/// The labels the server listing shows for a record: a nicknamed server
/// shows the nickname first with the host in parentheses beside it, a bare
/// one shows the host alone.
pub fn display_labels(r: &ServerRecord) -> (ret: (String, Option<String>))
    ensures
        match r@.nickname {
            Some(n) => {
                &&& ret.0@ == n
                &&& match ret.1 {
                    Some(a) => a@ == "("@ + r@.host + ")"@,
                    None => false,
                }
            },
            None => ret.0@ == r@.host && ret.1 is None,
        },
{
    match &r.nickname {
        Some(n) => {
            let aux = "(".to_owned().concat(r.host.as_str()).concat(")");
            (n.clone(), Some(aux))
        },
        None => (r.host.clone(), None),
    }
}

/// Whether two optional ports are the same.
fn port_eq(a: &Option<u16>, b: &Option<u16>) -> (r: bool)
    ensures
        r == (*a == *b),
{
    match (a, b) {
        (Some(x), Some(y)) => *x == *y,
        (None, None) => true,
        _ => false,
    }
}

/// Whether two optional upload policies are the same.
fn policy_eq(a: &Option<UploadBinaryPolicy>, b: &Option<UploadBinaryPolicy>) -> (r: bool)
    ensures
        r == (*a == *b),
{
    match (a, b) {
        (Some(x), Some(y)) => *x == *y,
        (None, None) => true,
        _ => false,
    }
}

/// Whether two servers are the same record: the same options, nickname,
/// policy, and the same projects in the same order.
pub fn records_equal(a: &ServerRecord, b: &ServerRecord) -> (r: bool)
    ensures
        r == (a@ == b@),
{
    if !(a.host == b.host) {
        return false;
    }
    if !opt_str_eq(&a.username, &b.username) {
        return false;
    }
    if !port_eq(&a.port, &b.port) {
        return false;
    }
    if !str_vec_eq(&a.args, &b.args) {
        return false;
    }
    if !opt_str_eq(&a.nickname, &b.nickname) {
        return false;
    }
    if !policy_eq(&a.upload_binary_policy, &b.upload_binary_policy) {
        return false;
    }
    if a.projects.len() != b.projects.len() {
        proof {
            assert(a@.projects.len() != b@.projects.len());
        }
        return false;
    }
    let n = a.projects.len();
    for i in 0..n
        invariant
            n == a.projects.len() == b.projects.len(),
            forall|j: int| 0 <= j < i ==> a@.projects[j] == b@.projects[j],
    {
        if !projects_equal(&a.projects[i], &b.projects[i]) {
            proof {
                assert(a@.projects[i as int] != b@.projects[i as int]);
            }
            return false;
        }
        proof {
            assert(a@.projects[i as int] == b@.projects[i as int]);
        }
    }
    proof {
        assert(a@.projects =~= b@.projects);
        assert(a@ =~= b@);
    }
    true
}

/// The first project of the server holding this path set, if any.
fn find_project_index(srv: &ServerRecord, p: &ProjectRecord) -> (r: Option<usize>)
    ensures
        match r {
            Some(k) => k < srv@.projects.len() && srv@.projects[k as int] == p@ && forall|l: int|
                0 <= l < k ==> srv@.projects[l] != p@,
            None => forall|l: int| 0 <= l < srv@.projects.len() ==> srv@.projects[l] != p@,
        },
{
    let n = srv.projects.len();
    for k in 0..n
        invariant
            n == srv.projects.len(),
            forall|l: int| 0 <= l < k ==> srv@.projects[l] != p@,
    {
        if projects_equal(&srv.projects[k], p) {
            proof {
                assert(srv@.projects[k as int] == p@);
            }
            return Some(k);
        }
        proof {
            assert(srv@.projects[k as int] == srv.projects@[k as int]@);
        }
    }
    None
}

/// Whether the server already holds this path set.
pub fn server_has_project(srv: &ServerRecord, p: &ProjectRecord) -> (r: bool)
    ensures
        r == srv@.projects.contains(p@),
{
    let n = srv.projects.len();
    for i in 0..n
        invariant
            n == srv.projects.len(),
            forall|j: int| 0 <= j < i ==> srv@.projects[j] != p@,
    {
        if projects_equal(&srv.projects[i], p) {
            proof {
                assert(srv@.projects[i as int] == p@);
            }
            return true;
        }
        proof {
            assert(srv@.projects[i as int] == srv.projects@[i as int]@);
        }
    }
    proof {
        assert(forall|j: int| 0 <= j < srv@.projects.len() ==> srv@.projects[j] != p@);
    }
    false
}

// ---------------------------------------------------------------------------
// The registry
// ---------------------------------------------------------------------------

/// The views of a sequence of server records.
pub open spec fn servers_view(v: Seq<ServerRecord>) -> Seq<ServerRecordView> {
    v.map_values(|s: ServerRecord| s@)
}

/// Every record of the registry holds each path set at most once.
pub open spec fn registry_wf(reg: Seq<ServerRecordView>) -> bool {
    forall|i: int| 0 <= i < reg.len() ==> distinct_projects(#[trigger] reg[i].projects)
}

/// The durable, index-addressed list of configured servers.
pub struct ServerRegistry {
    pub servers: Vec<ServerRecord>,
}

impl View for ServerRegistry {
    type V = Seq<ServerRecordView>;

    open spec fn view(&self) -> Seq<ServerRecordView> {
        servers_view(self.servers@)
    }
}

// ---------------------------------------------------------------------------
// The registry transforms, mathematically
// ---------------------------------------------------------------------------

/// Appending a freshly registered server.
pub open spec fn spec_add_server(reg: Seq<ServerRecordView>, o: OptionsView) -> Seq<
    ServerRecordView,
> {
    reg.push(spec_record_of(o))
}

/// Removing the server at `i`; a stale index leaves the registry alone.
pub open spec fn spec_remove_server(reg: Seq<ServerRecordView>, i: int) -> Seq<ServerRecordView> {
    if 0 <= i < reg.len() {
        reg.remove(i)
    } else {
        reg
    }
}

/// Inserting a path set into the projects of the server at `i`: a set the
/// server already holds is not added again, and a stale index leaves the
/// registry alone.
pub open spec fn spec_add_project(
    reg: Seq<ServerRecordView>,
    i: int,
    ps: Set<Seq<char>>,
) -> Seq<ServerRecordView> {
    if 0 <= i < reg.len() {
        if reg[i].projects.contains(ps) {
            reg
        } else {
            reg.update(i, ServerRecordView { projects: reg[i].projects.push(ps), ..reg[i] })
        }
    } else {
        reg
    }
}

/// The first index of `t` among the path sets, or `-1` when there is none.
pub open spec fn find_project(ps: Seq<Set<Seq<char>>>, t: Set<Seq<char>>) -> int
    decreases ps.len(),
{
    if ps.len() == 0 {
        -1
    } else if ps[0] == t {
        0
    } else {
        let r = find_project(ps.drop_first(), t);
        if r == -1 {
            -1
        } else {
            r + 1
        }
    }
}

/// `find_project` yields `-1` exactly when the set is absent; otherwise it
/// yields the first index holding it.
pub proof fn lemma_find_project_valid(ps: Seq<Set<Seq<char>>>, t: Set<Seq<char>>)
    ensures
        find_project(ps, t) == -1 ==> forall|l: int| 0 <= l < ps.len() ==> ps[l] != t,
        find_project(ps, t) != -1 ==> {
            let k = find_project(ps, t);
            &&& 0 <= k < ps.len()
            &&& ps[k] == t
            &&& forall|l: int| 0 <= l < k ==> ps[l] != t
        },
    decreases ps.len(),
{
    if ps.len() > 0 && ps[0] != t {
        let d = ps.drop_first();
        lemma_find_project_valid(d, t);
        if find_project(d, t) == -1 {
            assert forall|l: int| 0 <= l < ps.len() implies ps[l] != t by {
                if l > 0 {
                    assert(d[l - 1] == ps[l]);
                }
            }
        } else {
            let k = find_project(d, t);
            assert(ps[k + 1] == d[k]);
            assert forall|l: int| 0 <= l < k + 1 implies ps[l] != t by {
                if l > 0 {
                    assert(d[l - 1] == ps[l]);
                }
            }
        }
    }
}

/// Removing the path set `t` from the projects of the server at `i`: absent
/// sets and stale indices leave the registry alone.
pub open spec fn spec_remove_project(
    reg: Seq<ServerRecordView>,
    i: int,
    t: Set<Seq<char>>,
) -> Seq<ServerRecordView> {
    if 0 <= i < reg.len() {
        let k = find_project(reg[i].projects, t);
        if k == -1 {
            reg
        } else {
            reg.update(i, ServerRecordView { projects: reg[i].projects.remove(k), ..reg[i] })
        }
    } else {
        reg
    }
}

/// An empty nickname means no nickname.
pub open spec fn normalize_nickname(n: Option<Seq<char>>) -> Option<Seq<char>> {
    match n {
        Some(s) => if s.len() == 0 {
            None
        } else {
            Some(s)
        },
        None => None,
    }
}

/// Replacing the nickname of the server at `i`, normalized; a stale index
/// leaves the registry alone.
pub open spec fn spec_set_nickname(
    reg: Seq<ServerRecordView>,
    i: int,
    n: Option<Seq<char>>,
) -> Seq<ServerRecordView> {
    if 0 <= i < reg.len() {
        reg.update(i, ServerRecordView { nickname: normalize_nickname(n), ..reg[i] })
    } else {
        reg
    }
}

// ---------------------------------------------------------------------------
// The registry transforms, executably
// ---------------------------------------------------------------------------

/// A mutation of the registry, described as a value. The workflow emits
/// these; the persistence collaborator applies them through
/// [`ServerRegistry::apply`], atomically relative to one another.
pub enum RegistryTransform {
    AddServer { options: ConnectionOptions },
    RemoveServer { index: usize },
    AddProject { index: usize, project: ProjectRecord },
    RemoveProject { index: usize, project: ProjectRecord },
    SetNickname { index: usize, nickname: Option<String> },
}

/// The mathematical content of a registry transform.
pub enum TransformView {
    AddServer { options: OptionsView },
    RemoveServer { index: int },
    AddProject { index: int, project: Set<Seq<char>> },
    RemoveProject { index: int, project: Set<Seq<char>> },
    SetNickname { index: int, nickname: Option<Seq<char>> },
}

impl View for RegistryTransform {
    type V = TransformView;

    open spec fn view(&self) -> TransformView {
        match self {
            RegistryTransform::AddServer { options } => TransformView::AddServer {
                options: options@,
            },
            RegistryTransform::RemoveServer { index } => TransformView::RemoveServer {
                index: *index as int,
            },
            RegistryTransform::AddProject { index, project } => TransformView::AddProject {
                index: *index as int,
                project: project@,
            },
            RegistryTransform::RemoveProject { index, project } => TransformView::RemoveProject {
                index: *index as int,
                project: project@,
            },
            RegistryTransform::SetNickname { index, nickname } => TransformView::SetNickname {
                index: *index as int,
                nickname: opt_str_view(*nickname),
            },
        }
    }
}

/// What a transform does to the registry.
pub open spec fn spec_apply(reg: Seq<ServerRecordView>, t: TransformView) -> Seq<
    ServerRecordView,
> {
    match t {
        TransformView::AddServer { options } => spec_add_server(reg, options),
        TransformView::RemoveServer { index } => spec_remove_server(reg, index),
        TransformView::AddProject { index, project } => spec_add_project(reg, index, project),
        TransformView::RemoveProject { index, project } => spec_remove_project(
            reg,
            index,
            project,
        ),
        TransformView::SetNickname { index, nickname } => spec_set_nickname(reg, index, nickname),
    }
}

impl ServerRegistry {
    /// Every record holds each path set at most once.
    pub open spec fn wf(&self) -> bool {
        registry_wf(self@)
    }

    /// An empty registry.
    pub fn new() -> (r: Self)
        ensures
            r@ == Seq::<ServerRecordView>::empty(),
            r.wf(),
    {
        let r = ServerRegistry { servers: Vec::new() };
        proof {
            assert(r@ =~= Seq::<ServerRecordView>::empty());
        }
        r
    }

    /// How many servers are registered.
    pub fn server_count(&self) -> (r: usize)
        ensures
            r == self@.len(),
    {
        self.servers.len()
    }

    /// The server at `index`.
    pub fn server_at(&self, index: usize) -> (r: &ServerRecord)
        requires
            index < self@.len(),
        ensures
            r@ == self@[index as int],
    {
        &self.servers[index]
    }

    /// Appends a freshly registered server, made of the given options.
    pub fn add_server(&mut self, options: ConnectionOptions)
        ensures
            final(self)@ == spec_add_server(old(self)@, options@),
            old(self).wf() ==> final(self).wf(),
    {
        let ghost ov = options@;
        let record = ServerRecord::from_options(options);
        self.servers.push(record);
        proof {
            assert(self@ =~= spec_add_server(old(self)@, ov));
        }
    }

    /// Removes the server at `index`; a stale index is a no-op.
    pub fn remove_server(&mut self, index: usize)
        ensures
            final(self)@ == spec_remove_server(old(self)@, index as int),
            old(self).wf() ==> final(self).wf(),
    {
        if index < self.servers.len() {
            self.servers.remove(index);
            proof {
                assert(self@ =~= old(self)@.remove(index as int));
            }
        }
    }

    /// Inserts the project's path set into the server at `index`; a path set
    /// the server already holds, and a stale index, are no-ops.
    pub fn add_project(&mut self, index: usize, project: &ProjectRecord)
        ensures
            final(self)@ == spec_add_project(old(self)@, index as int, project@),
            old(self).wf() ==> final(self).wf(),
    {
        if index >= self.servers.len() {
            return ;
        }
        if server_has_project(&self.servers[index], project) {
            return ;
        }
        let mut srv = self.servers.remove(index);
        let ghost srvv = srv@;
        srv.projects.push(project.duplicate());
        proof {
            assert(srv@.projects =~= srvv.projects.push(project@));
            assert(srv@ =~= ServerRecordView { projects: srvv.projects.push(project@), ..srvv });
        }
        self.servers.insert(index, srv);
        proof {
            assert(self@ =~= spec_add_project(old(self)@, index as int, project@));
            if old(self).wf() {
                assert forall|i: int| 0 <= i < self@.len() implies distinct_projects(
                    #[trigger] self@[i].projects,
                ) by {
                    if i == index {
                        let ps = old(self)@[index as int].projects;
                        assert(distinct_projects(ps));
                        assert(forall|l: int| 0 <= l < ps.len() ==> ps[l] != project@);
                        assert(distinct_projects(ps.push(project@)));
                    } else {
                        assert(self@[i] == old(self)@[i]);
                    }
                }
            }
        }
    }

    /// Removes the project's path set from the server at `index`; an absent
    /// set, and a stale index, are no-ops.
    pub fn remove_project(&mut self, index: usize, project: &ProjectRecord)
        ensures
            final(self)@ == spec_remove_project(old(self)@, index as int, project@),
            old(self).wf() ==> final(self).wf(),
    {
        if index >= self.servers.len() {
            return ;
        }
        let k = match find_project_index(&self.servers[index], project) {
            None => {
                proof {
                    lemma_find_project_none(self@[index as int].projects, project@);
                }
                return ;
            },
            Some(k) => k,
        };
        proof {
            lemma_find_project_first(self@[index as int].projects, project@, k as int);
        }
        let mut srv = self.servers.remove(index);
        let ghost srvv = srv@;
        srv.projects.remove(k);
        proof {
            assert(srv@.projects =~= srvv.projects.remove(k as int));
            assert(srv@ =~= ServerRecordView { projects: srvv.projects.remove(k as int), ..srvv });
        }
        self.servers.insert(index, srv);
        proof {
            assert(self@ =~= spec_remove_project(old(self)@, index as int, project@));
            if old(self).wf() {
                assert forall|i: int| 0 <= i < self@.len() implies distinct_projects(
                    #[trigger] self@[i].projects,
                ) by {
                    if i == index {
                        let ps = old(self)@[index as int].projects;
                        assert(distinct_projects(ps));
                        let ps2 = ps.remove(k as int);
                        assert forall|a: int, b: int| 0 <= a < b < ps2.len() implies ps2[a]
                            != ps2[b] by {
                            assert(ps2[a] == if a < k as int {
                                ps[a]
                            } else {
                                ps[a + 1]
                            });
                            assert(ps2[b] == if b < k as int {
                                ps[b]
                            } else {
                                ps[b + 1]
                            });
                        }
                    } else {
                        assert(self@[i] == old(self)@[i]);
                    }
                }
            }
        }
    }

    /// Replaces the nickname of the server at `index`; an empty string is
    /// stored as no nickname at all, and a stale index is a no-op.
    pub fn set_nickname(&mut self, index: usize, nickname: Option<String>)
        ensures
            final(self)@ == spec_set_nickname(old(self)@, index as int, opt_str_view(nickname)),
            old(self).wf() ==> final(self).wf(),
    {
        if index >= self.servers.len() {
            return ;
        }
        let norm: Option<String> = match nickname {
            Some(s) => {
                if s.as_str().is_empty() {
                    None
                } else {
                    Some(s)
                }
            },
            None => None,
        };
        let mut srv = self.servers.remove(index);
        let ghost srvv = srv@;
        srv.nickname = norm;
        proof {
            assert(srv@ =~= ServerRecordView {
                nickname: normalize_nickname(opt_str_view(nickname)),
                ..srvv
            });
        }
        self.servers.insert(index, srv);
        proof {
            assert(self@ =~= spec_set_nickname(
                old(self)@,
                index as int,
                opt_str_view(nickname),
            ));
            if old(self).wf() {
                assert forall|i: int| 0 <= i < self@.len() implies distinct_projects(
                    #[trigger] self@[i].projects,
                ) by {
                    if i != index {
                        assert(self@[i] == old(self)@[i]);
                    }
                }
            }
        }
    }

    /// Applies a transform. This is the whole write interface the
    /// persistence collaborator needs.
    pub fn apply(&mut self, t: RegistryTransform)
        ensures
            final(self)@ == spec_apply(old(self)@, t@),
            old(self).wf() ==> final(self).wf(),
    {
        match t {
            RegistryTransform::AddServer { options } => self.add_server(options),
            RegistryTransform::RemoveServer { index } => self.remove_server(index),
            RegistryTransform::AddProject { index, project } => self.add_project(index, &project),
            RegistryTransform::RemoveProject { index, project } => self.remove_project(
                index,
                &project,
            ),
            RegistryTransform::SetNickname { index, nickname } => self.set_nickname(
                index,
                nickname,
            ),
        }
    }

    /// A copy of the current listing, for a mode to render from.
    pub fn snapshot(&self) -> (r: Vec<ServerRecord>)
        ensures
            servers_view(r@) == self@,
    {
        let mut r: Vec<ServerRecord> = Vec::new();
        let n = self.servers.len();
        for i in 0..n
            invariant
                n == self.servers@.len(),
                r@.len() == i,
                forall|j: int| 0 <= j < i ==> r@[j]@ == self.servers@[j]@,
        {
            r.push(self.servers[i].duplicate());
        }
        proof {
            assert(servers_view(r@) =~= self@);
        }
        r
    }

    /// Whether a cached listing still matches the live registry.
    pub fn matches_snapshot(&self, snap: &Vec<ServerRecord>) -> (r: bool)
        ensures
            r == (servers_view(snap@) == self@),
    {
        if snap.len() != self.servers.len() {
            proof {
                assert(servers_view(snap@).len() != self@.len());
            }
            return false;
        }
        let n = snap.len();
        for i in 0..n
            invariant
                n == snap@.len() == self.servers@.len(),
                forall|j: int| 0 <= j < i ==> servers_view(snap@)[j] == self@[j],
        {
            if !records_equal(&snap[i], &self.servers[i]) {
                proof {
                    assert(servers_view(snap@)[i as int] != self@[i as int]);
                }
                return false;
            }
            proof {
                assert(servers_view(snap@)[i as int] == self@[i as int]);
            }
        }
        proof {
            assert(servers_view(snap@) =~= self@);
        }
        true
    }
}

/// `find_project` yields `j` when `j` is the first index holding `t`.
proof fn lemma_find_project_first(ps: Seq<Set<Seq<char>>>, t: Set<Seq<char>>, j: int)
    requires
        0 <= j < ps.len(),
        ps[j] == t,
        forall|l: int| 0 <= l < j ==> ps[l] != t,
    ensures
        find_project(ps, t) == j,
    decreases j,
{
    if j > 0 {
        lemma_find_project_first(ps.drop_first(), t, j - 1);
    }
}

/// No index holds `t`: `find_project` yields `-1`.
proof fn lemma_find_project_none(ps: Seq<Set<Seq<char>>>, t: Set<Seq<char>>)
    requires
        forall|l: int| 0 <= l < ps.len() ==> ps[l] != t,
    ensures
        find_project(ps, t) == -1,
    decreases ps.len(),
{
    if ps.len() > 0 {
        lemma_find_project_none(ps.drop_first(), t);
    }
}

// ---------------------------------------------------------------------------
// Laws
// ---------------------------------------------------------------------------

/// Removing a project from a server is idempotent: removing the same path
/// set twice yields the same registry as removing it once.
pub proof fn lemma_remove_project_idempotent(
    reg: Seq<ServerRecordView>,
    i: int,
    t: Set<Seq<char>>,
)
    requires
        registry_wf(reg),
    ensures
        spec_remove_project(spec_remove_project(reg, i, t), i, t) == spec_remove_project(
            reg,
            i,
            t,
        ),
{
    if 0 <= i < reg.len() {
        let ps = reg[i].projects;
        lemma_find_project_valid(ps, t);
        let k = find_project(ps, t);
        if k != -1 {
            let reg2 = spec_remove_project(reg, i, t);
            let ps2 = ps.remove(k);
            assert(reg2[i].projects == ps2);
            assert(distinct_projects(ps));
            assert forall|l: int| 0 <= l < ps2.len() implies ps2[l] != t by {
                if l < k {
                    assert(ps2[l] == ps[l]);
                } else {
                    assert(ps2[l] == ps[l + 1]);
                    assert(ps[l + 1] != ps[k]);
                }
            }
            lemma_find_project_none(ps2, t);
            assert(spec_remove_project(reg2, i, t) == reg2);
        }
    }
}

/// Adding a project to a server is idempotent: a path set the server already
/// holds is not added again, so the project set keeps set semantics.
pub proof fn lemma_add_project_idempotent(reg: Seq<ServerRecordView>, i: int, t: Set<Seq<char>>)
    ensures
        spec_add_project(spec_add_project(reg, i, t), i, t) == spec_add_project(reg, i, t),
{
    if 0 <= i < reg.len() {
        if !reg[i].projects.contains(t) {
            let reg2 = spec_add_project(reg, i, t);
            assert(reg2[i].projects == reg[i].projects.push(t));
            assert(reg2[i].projects[reg[i].projects.len() as int] == t);
            assert(reg2[i].projects.contains(t));
            assert(spec_add_project(reg2, i, t) == reg2);
        }
    }
}

} // verus!
