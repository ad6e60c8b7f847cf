//! Connection command lines: the options a user types and their parsing.
//!
//! The input is a shell-style `ssh` invocation, `ssh [user@]host [-p port]
//! [args...]`. Parsing recovers the host, the optional username (the part
//! before the last `@` of the destination), the optional port (the decimal
//! token after `-p`) and passes every other flag through verbatim, in order.
//! Malformed input is rejected as a whole: no partial options come back.

use vstd::prelude::*;
use vstd::string::StrSliceExecFns;

use crate::strs::strs_view;

verus! {

/// Why a connection command line was rejected.
#[derive(Clone, Copy, PartialEq, Eq, Structural, Debug)]
pub enum ParseError {
    /// The input holds no tokens at all.
    MissingCommand,
    /// The first token is not `ssh`.
    NotSshCommand,
    /// No destination token (one that does not begin with `-`) was given.
    MissingHost,
    /// The destination has an `@` with nothing before it.
    EmptyUsername,
    /// The destination ends in `@`, leaving no host.
    EmptyHostname,
    /// `-p` stands last, with no port token after it.
    MissingPortValue,
    /// The token after `-p` is not a decimal number between 0 and 65535.
    InvalidPort,
    /// `-p` was given twice.
    DuplicatePort,
}

/// The mathematical content of parsed connection options.
#[verifier::ext_equal]
pub struct OptionsView {
    pub host: Seq<char>,
    pub username: Option<Seq<char>>,
    pub port: Option<u16>,
    pub args: Seq<Seq<char>>,
}

/// Options parsed from a user-supplied connection command line.
pub struct ConnectionOptions {
    pub host: String,
    pub username: Option<String>,
    pub port: Option<u16>,
    pub args: Vec<String>,
}

impl View for ConnectionOptions {
    type V = OptionsView;

    open spec fn view(&self) -> OptionsView {
        OptionsView {
            host: self.host@,
            username: crate::strs::opt_str_view(self.username),
            port: self.port,
            args: strs_view(self.args@),
        }
    }
}

impl ConnectionOptions {
    /// A copy, equal at the view level.
    pub fn duplicate(&self) -> (r: Self)
        ensures
            r@ == self@,
    {
        let r = ConnectionOptions {
            host: self.host.clone(),
            username: crate::strs::opt_str_clone(&self.username),
            port: self.port,
            args: crate::strs::str_vec_clone(&self.args),
        };
        proof {
            assert(r@ =~= self@);
        }
        r
    }
}

// ---------------------------------------------------------------------------
// Tokenizing
// ---------------------------------------------------------------------------

/// The characters that separate tokens.
pub open spec fn is_space(c: char) -> bool {
    c == ' ' || c == '\t' || c == '\n' || c == '\r'
}

/// The tokens of `s`, given that the characters of an unfinished token `cur`
/// have already been read.
pub open spec fn tokens_from(s: Seq<char>, cur: Seq<char>) -> Seq<Seq<char>>
    decreases s.len(),
{
    if s.len() == 0 {
        if cur.len() == 0 {
            Seq::empty()
        } else {
            seq![cur]
        }
    } else if is_space(s[0]) {
        if cur.len() == 0 {
            tokens_from(s.drop_first(), Seq::empty())
        } else {
            seq![cur] + tokens_from(s.drop_first(), Seq::empty())
        }
    } else {
        tokens_from(s.drop_first(), cur.push(s[0]))
    }
}

/// The whitespace-separated tokens of `s`, in order.
pub open spec fn spec_tokenize(s: Seq<char>) -> Seq<Seq<char>> {
    tokens_from(s, Seq::empty())
}

/// A maximal run of `j` non-space characters at the head of `s` extends the
/// unfinished token `cur` and closes it.
proof fn lemma_token_run(s: Seq<char>, cur: Seq<char>, j: int)
    requires
        0 <= j <= s.len(),
        forall|k: int| 0 <= k < j ==> !is_space(s[k]),
        j == s.len() || is_space(s[j]),
        cur.len() + j >= 1,
    ensures
        tokens_from(s, cur) == seq![cur + s.take(j)] + tokens_from(s.skip(j), Seq::empty()),
    decreases j,
{
    if j == 0 {
        assert(cur + s.take(0) =~= cur);
        if s.len() == 0 {
            assert(s.skip(0) =~= s);
            assert(seq![cur] + tokens_from(s.skip(0), Seq::empty()) =~= seq![cur]);
        } else {
            assert(s.skip(0) =~= s);
        }
    } else {
        lemma_token_run(s.drop_first(), cur.push(s[0]), j - 1);
        assert(cur.push(s[0]) + s.drop_first().take(j - 1) =~= cur + s.take(j));
        assert(s.drop_first().skip(j - 1) =~= s.skip(j));
    }
}

/// Whether `c` separates tokens.
fn is_space_char(c: char) -> (r: bool)
    ensures
        r == is_space(c),
{
    c == ' ' || c == '\t' || c == '\n' || c == '\r'
}

/// The whitespace-separated tokens of `input`, in order.
pub fn tokenize(input: &str) -> (r: Vec<String>)
    ensures
        strs_view(r@) == spec_tokenize(input@),
{
    let len = input.unicode_len();
    let mut toks: Vec<String> = Vec::new();
    let mut i: usize = 0;
    proof {
        assert(input@.skip(0) =~= input@);
        assert(strs_view(toks@) + tokens_from(input@, Seq::empty()) =~= tokens_from(
            input@,
            Seq::empty(),
        ));
    }
    while i < len
        invariant
            len == input@.len(),
            i <= len,
            spec_tokenize(input@) == strs_view(toks@) + tokens_from(
                input@.skip(i as int),
                Seq::empty(),
            ),
        decreases len - i,
    {
        let c = input.get_char(i);
        if is_space_char(c) {
            proof {
                assert(input@.skip(i as int).drop_first() =~= input@.skip(i + 1));
            }
            i = i + 1;
        } else {
            let start = i;
            i = i + 1;
            while i < len && !is_space_char(input.get_char(i))
                invariant
                    len == input@.len(),
                    start < i <= len,
                    forall|k: int| start <= k < i ==> !is_space(input@[k]),
                decreases len - i,
            {
                i = i + 1;
            }
            let t = input.substring_char(start, i).to_owned();
            proof {
                let s = input@.skip(start as int);
                lemma_token_run(s, Seq::empty(), i - start);
                assert(Seq::<char>::empty() + s.take(i - start) =~= input@.subrange(
                    start as int,
                    i as int,
                ));
                assert(s.skip(i - start) =~= input@.skip(i as int));
            }
            toks.push(t);
            proof {
                assert(strs_view(toks@) =~= strs_view(toks@.drop_last()).push(t@));
                assert(strs_view(toks@) + tokens_from(input@.skip(i as int), Seq::empty())
                    =~= strs_view(toks@.drop_last()) + tokens_from(
                    input@.skip(start as int),
                    Seq::empty(),
                ));
            }
        }
    }
    proof {
        assert(input@.skip(len as int) =~= Seq::<char>::empty());
        assert(strs_view(toks@) + tokens_from(Seq::<char>::empty(), Seq::empty()) =~= strs_view(
            toks@,
        ));
    }
    toks
}

// ---------------------------------------------------------------------------
// Port numbers
// ---------------------------------------------------------------------------

/// `c` is a decimal digit.
pub open spec fn is_digit(c: char) -> bool {
    '0' as u32 <= c as u32 && c as u32 <= '9' as u32
}

/// The value of the digit `c`.
pub open spec fn digit_val(c: char) -> int {
    c as u32 - '0' as u32
}

/// Every character of `s` is a decimal digit.
pub open spec fn all_digits(s: Seq<char>) -> bool {
    forall|k: int| 0 <= k < s.len() ==> is_digit(#[trigger] s[k])
}

/// The number the digit string `s` denotes, most significant digit first.
pub open spec fn digits_value(s: Seq<char>) -> int
    decreases s.len(),
{
    if s.len() == 0 {
        0
    } else {
        digits_value(s.drop_last()) * 10 + digit_val(s.last())
    }
}

/// A digit string denotes a number that is not negative.
proof fn lemma_digits_value_nonneg(s: Seq<char>)
    requires
        all_digits(s),
    ensures
        digits_value(s) >= 0,
    decreases s.len(),
{
    if s.len() > 0 {
        assert(all_digits(s.drop_last()));
        lemma_digits_value_nonneg(s.drop_last());
    }
}

/// Reading more digits never makes the number smaller.
proof fn lemma_digits_value_prefix_le(s: Seq<char>, k: int)
    requires
        all_digits(s),
        0 <= k <= s.len(),
    ensures
        digits_value(s.take(k)) <= digits_value(s),
    decreases s.len() - k,
{
    if k < s.len() {
        lemma_digits_value_prefix_le(s, k + 1);
        assert(s.take(k + 1).drop_last() =~= s.take(k));
        assert(all_digits(s.take(k)));
        lemma_digits_value_nonneg(s.take(k));
        assert(digits_value(s.take(k + 1)) == digits_value(s.take(k)) * 10 + digit_val(
            s.take(k + 1).last(),
        ));
    } else {
        assert(s.take(k) =~= s);
    }
}

/// The port a token denotes: a non-empty string of decimal digits whose value
/// fits in sixteen bits, and nothing else.
pub open spec fn spec_parse_port(s: Seq<char>) -> Option<u16> {
    if s.len() > 0 && all_digits(s) && digits_value(s) <= 0xffff {
        Some(digits_value(s) as u16)
    } else {
        None
    }
}

/// Parses a port token.
pub fn parse_port(t: &str) -> (r: Option<u16>)
    ensures
        r == spec_parse_port(t@),
{
    let len = t.unicode_len();
    if len == 0 {
        return None;
    }
    let mut acc: u32 = 0;
    let mut i: usize = 0;
    proof {
        assert(t@.take(0) =~= Seq::<char>::empty());
    }
    while i < len
        invariant
            len == t@.len(),
            i <= len,
            all_digits(t@.take(i as int)),
            acc == digits_value(t@.take(i as int)),
            acc <= 0xffff,
        decreases len - i,
    {
        let c = t.get_char(i);
        let v = c as u32;
        if v < '0' as u32 || v > '9' as u32 {
            proof {
                assert(!is_digit(t@[i as int]));
            }
            return None;
        }
        let next = acc * 10 + (v - '0' as u32);
        proof {
            assert(t@.take(i + 1).drop_last() =~= t@.take(i as int));
            assert(t@.take(i + 1).last() == t@[i as int]);
            assert(next == digits_value(t@.take(i + 1)));
            assert(all_digits(t@.take(i + 1)));
        }
        if next > 0xffff {
            proof {
                if all_digits(t@) && digits_value(t@) <= 0xffff {
                    lemma_digits_value_prefix_le(t@, i + 1);
                }
            }
            return None;
        }
        acc = next;
        i = i + 1;
    }
    proof {
        assert(t@.take(len as int) =~= t@);
    }
    Some(acc as u16)
}

// ---------------------------------------------------------------------------
// The destination token
// ---------------------------------------------------------------------------

/// The index of the last `@` in `s`, or `-1` when there is none.
pub open spec fn last_at(s: Seq<char>) -> int
    decreases s.len(),
{
    if s.len() == 0 {
        -1
    } else if s.last() == '@' {
        s.len() - 1
    } else {
        last_at(s.drop_last())
    }
}

/// The index of the last `@` in `s`, when there is one.
fn find_last_at(s: &str) -> (r: Option<usize>)
    ensures
        match r {
            Some(k) => last_at(s@) == k && k < s@.len(),
            None => last_at(s@) == -1,
        },
{
    let len = s.unicode_len();
    let mut i = len;
    proof {
        assert(s@.take(len as int) =~= s@);
    }
    while i > 0
        invariant
            len == s@.len(),
            i <= len,
            last_at(s@) == last_at(s@.take(i as int)),
        decreases i,
    {
        let c = s.get_char(i - 1);
        proof {
            assert(s@.take(i as int).last() == s@[i - 1]);
            assert(s@.take(i as int).drop_last() =~= s@.take(i - 1));
        }
        if c == '@' {
            return Some(i - 1);
        }
        i = i - 1;
    }
    proof {
        assert(s@.take(0) =~= Seq::<char>::empty());
    }
    None
}

// ---------------------------------------------------------------------------
// The grammar
// ---------------------------------------------------------------------------

/// The pieces of a command line once the leading `ssh` has been read: the
/// destination token, still unsplit, the port and the pass-through arguments.
#[verifier::ext_equal]
pub struct RawOptions {
    pub dest: Seq<char>,
    pub port: Option<u16>,
    pub args: Seq<Seq<char>>,
}

/// Reads the tokens after `ssh`, one by one. `-p` takes the next token as the
/// port; the first other token not beginning with `-` is the destination;
/// every remaining token passes through as an argument, in order.
pub open spec fn spec_parse_rest(
    toks: Seq<Seq<char>>,
    dest: Option<Seq<char>>,
    port: Option<u16>,
    args: Seq<Seq<char>>,
) -> Result<RawOptions, ParseError>
    decreases toks.len(),
{
    if toks.len() == 0 {
        match dest {
            Some(d) => Ok(RawOptions { dest: d, port, args }),
            None => Err(ParseError::MissingHost),
        }
    } else {
        let t = toks[0];
        if t == seq!['-', 'p'] {
            if port is Some {
                Err(ParseError::DuplicatePort)
            } else if toks.len() == 1 {
                Err(ParseError::MissingPortValue)
            } else {
                match spec_parse_port(toks[1]) {
                    Some(p) => spec_parse_rest(toks.skip(2), dest, Some(p), args),
                    None => Err(ParseError::InvalidPort),
                }
            }
        } else if t.len() > 0 && t[0] == '-' {
            spec_parse_rest(toks.drop_first(), dest, port, args.push(t))
        } else if dest is None {
            spec_parse_rest(toks.drop_first(), Some(t), port, args)
        } else {
            spec_parse_rest(toks.drop_first(), dest, port, args.push(t))
        }
    }
}

/// Splits the destination at its last `@` into username and host. A
/// destination without `@` is all host; an empty part on either side of the
/// `@` is rejected.
pub open spec fn spec_split_destination(raw: RawOptions) -> Result<OptionsView, ParseError> {
    let k = last_at(raw.dest);
    if k == -1 {
        Ok(OptionsView { host: raw.dest, username: None, port: raw.port, args: raw.args })
    } else if k == 0 {
        Err(ParseError::EmptyUsername)
    } else if k == raw.dest.len() - 1 {
        Err(ParseError::EmptyHostname)
    } else {
        Ok(
            OptionsView {
                host: raw.dest.skip(k + 1),
                username: Some(raw.dest.take(k)),
                port: raw.port,
                args: raw.args,
            },
        )
    }
}

/// What a token sequence parses to: the first token must be `ssh`, the rest
/// follow `spec_parse_rest`, and the destination is split at its last `@`.
pub open spec fn spec_parse_tokens(toks: Seq<Seq<char>>) -> Result<OptionsView, ParseError> {
    if toks.len() == 0 {
        Err(ParseError::MissingCommand)
    } else if toks[0] != seq!['s', 's', 'h'] {
        Err(ParseError::NotSshCommand)
    } else {
        match spec_parse_rest(toks.drop_first(), None, None, Seq::empty()) {
            Ok(raw) => spec_split_destination(raw),
            Err(e) => Err(e),
        }
    }
}

/// What a whole command line parses to.
pub open spec fn spec_parse(s: Seq<char>) -> Result<OptionsView, ParseError> {
    spec_parse_tokens(spec_tokenize(s))
}

/// The view of a parse result.
pub open spec fn options_result_view(r: Result<ConnectionOptions, ParseError>) -> Result<
    OptionsView,
    ParseError,
> {
    match r {
        Ok(o) => Ok(o@),
        Err(e) => Err(e),
    }
}

/// The token is exactly `ssh`.
fn token_is_ssh(t: &String) -> (r: bool)
    ensures
        r == (t@ == seq!['s', 's', 'h']),
{
    let s = t.as_str();
    if s.unicode_len() == 3 {
        let r = s.get_char(0) == 's' && s.get_char(1) == 's' && s.get_char(2) == 'h';
        proof {
            if r {
                assert(t@ =~= seq!['s', 's', 'h']);
            } else {
                assert(t@ != seq!['s', 's', 'h']);
            }
        }
        r
    } else {
        false
    }
}

/// The token is exactly `-p`.
fn token_is_dash_p(t: &String) -> (r: bool)
    ensures
        r == (t@ == seq!['-', 'p']),
{
    let s = t.as_str();
    if s.unicode_len() == 2 {
        let r = s.get_char(0) == '-' && s.get_char(1) == 'p';
        proof {
            if r {
                assert(t@ =~= seq!['-', 'p']);
            } else {
                assert(t@ != seq!['-', 'p']);
            }
        }
        r
    } else {
        false
    }
}

/// Parses a connection command line of the form `ssh [user@]host [-p port]
/// [args...]`. On malformed input the whole line is rejected and nothing of
/// it is used.
pub fn parse_command_line(input: &str) -> (r: Result<ConnectionOptions, ParseError>)
    ensures
        options_result_view(r) == spec_parse(input@),
{
    let toks = tokenize(input);
    let ghost toksv = strs_view(toks@);
    if toks.len() == 0 {
        return Err(ParseError::MissingCommand);
    }
    if !token_is_ssh(&toks[0]) {
        proof {
            assert(toksv[0] == toks@[0]@);
        }
        return Err(ParseError::NotSshCommand);
    }
    proof {
        assert(toksv[0] == toks@[0]@);
    }
    let mut dest: Option<String> = None;
    let mut port: Option<u16> = None;
    let mut args: Vec<String> = Vec::new();
    let mut i: usize = 1;
    proof {
        assert(strs_view(args@) =~= Seq::<Seq<char>>::empty());
        assert(toksv.drop_first() =~= toksv.skip(1));
    }
    while i < toks.len()
        invariant
            toksv == strs_view(toks@),
            toksv == spec_tokenize(input@),
            toksv.len() >= 1,
            toksv[0] == seq!['s', 's', 'h'],
            1 <= i <= toks@.len(),
            spec_parse_rest(
                toksv.skip(i as int),
                crate::strs::opt_str_view(dest),
                port,
                strs_view(args@),
            ) == spec_parse_rest(toksv.drop_first(), None, None, Seq::empty()),
        decreases toks@.len() - i,
    {
        proof {
            assert(toksv.skip(i as int)[0] == toksv[i as int]);
            assert(toksv[i as int] == toks@[i as int]@);
        }
        if token_is_dash_p(&toks[i]) {
            if port.is_some() {
                return Err(ParseError::DuplicatePort);
            }
            if i + 1 == toks.len() {
                return Err(ParseError::MissingPortValue);
            }
            proof {
                assert(toksv.skip(i as int)[1] == toksv[i + 1]);
                assert(toksv[i + 1] == toks@[i + 1]@);
            }
            match parse_port(toks[i + 1].as_str()) {
                None => {
                    return Err(ParseError::InvalidPort);
                },
                Some(p) => {
                    proof {
                        assert(toksv.skip(i as int).skip(2) =~= toksv.skip(i + 2));
                    }
                    port = Some(p);
                    i = i + 2;
                },
            }
        } else {
            let t = toks[i].clone();
            proof {
                assert(toksv.skip(i as int).drop_first() =~= toksv.skip(i + 1));
                assert(t@ == toksv[i as int]);
            }
            let is_flag = t.as_str().unicode_len() > 0 && t.as_str().get_char(0) == '-';
            proof {
                assert(is_flag == (toksv[i as int].len() > 0 && toksv[i as int][0] == '-'));
            }
            if is_flag {
                let ghost prev = args@;
                args.push(t);
                proof {
                    assert(strs_view(args@) =~= strs_view(prev).push(toksv[i as int]));
                }
            } else if dest.is_none() {
                dest = Some(t);
            } else {
                let ghost prev = args@;
                args.push(t);
                proof {
                    assert(strs_view(args@) =~= strs_view(prev).push(toksv[i as int]));
                }
            }
            i = i + 1;
        }
    }
    proof {
        assert(toksv.skip(toks@.len() as int) =~= Seq::<Seq<char>>::empty());
    }
    let d = match dest {
        None => {
            return Err(ParseError::MissingHost);
        },
        Some(d) => d,
    };
    let ghost raw = RawOptions { dest: d@, port: port, args: strs_view(args@) };
    let dlen = d.as_str().unicode_len();
    match find_last_at(d.as_str()) {
        None => {
            let o = ConnectionOptions { host: d, username: None, port, args };
            proof {
                assert(o@ =~= spec_split_destination(raw)->Ok_0);
            }
            Ok(o)
        },
        Some(k) => {
            if k == 0 {
                Err(ParseError::EmptyUsername)
            } else if k + 1 == dlen {
                Err(ParseError::EmptyHostname)
            } else {
                let user = d.as_str().substring_char(0, k).to_owned();
                let host = d.as_str().substring_char(k + 1, dlen).to_owned();
                let o = ConnectionOptions { host, username: Some(user), port, args };
                proof {
                    assert(user@ =~= d@.take(k as int));
                    assert(host@ =~= d@.skip(k + 1));
                    assert(o@ =~= spec_split_destination(raw)->Ok_0);
                }
                Ok(o)
            }
        },
    }
}

// ---------------------------------------------------------------------------
// Connection failures and messages
// ---------------------------------------------------------------------------

/// Why a connection attempt did not yield a session.
#[derive(Debug)]
pub enum ConnectFailure {
    /// The remote client rejected the shape of the options.
    ParseError,
    /// The remote host refused the credentials.
    AuthRejected,
    /// The remote host could not be reached.
    HostUnreachable,
    /// The user abandoned the attempt; not an error.
    UserCancelled,
    /// Any other failure, described by the carried message.
    Other(String),
}

/// The mathematical content of a connection failure.
pub enum FailureView {
    ParseError,
    AuthRejected,
    HostUnreachable,
    UserCancelled,
    Other(Seq<char>),
}

impl View for ConnectFailure {
    type V = FailureView;

    open spec fn view(&self) -> FailureView {
        match self {
            ConnectFailure::ParseError => FailureView::ParseError,
            ConnectFailure::AuthRejected => FailureView::AuthRejected,
            ConnectFailure::HostUnreachable => FailureView::HostUnreachable,
            ConnectFailure::UserCancelled => FailureView::UserCancelled,
            ConnectFailure::Other(m) => FailureView::Other(m@),
        }
    }
}

/// The message shown for a connection failure.
pub open spec fn spec_failure_message(f: FailureView) -> Seq<char> {
    match f {
        FailureView::ParseError => "could not parse the connection command"@,
        FailureView::AuthRejected => "authentication was rejected by the remote host"@,
        FailureView::HostUnreachable => "the remote host could not be reached"@,
        FailureView::UserCancelled => "the connection attempt was cancelled"@,
        FailureView::Other(m) => m,
    }
}

/// The message shown for a connection failure.
pub fn failure_message(f: &ConnectFailure) -> (r: String)
    ensures
        r@ == spec_failure_message(f@),
{
    match f {
        ConnectFailure::ParseError => "could not parse the connection command".to_owned(),
        ConnectFailure::AuthRejected => "authentication was rejected by the remote host".to_owned(),
        ConnectFailure::HostUnreachable => "the remote host could not be reached".to_owned(),
        ConnectFailure::UserCancelled => "the connection attempt was cancelled".to_owned(),
        ConnectFailure::Other(m) => m.clone(),
    }
}

/// The message shown for a rejected command line.
pub open spec fn spec_parse_error_message(e: ParseError) -> Seq<char> {
    match e {
        ParseError::MissingCommand => "enter a connection command, such as: ssh user@example.com"@,
        ParseError::NotSshCommand => "the connection command must start with ssh"@,
        ParseError::MissingHost => "no host was given"@,
        ParseError::EmptyUsername => "the username before @ is empty"@,
        ParseError::EmptyHostname => "the host after @ is empty"@,
        ParseError::MissingPortValue => "-p must be followed by a port number"@,
        ParseError::DuplicatePort => "-p was given more than once"@,
        ParseError::InvalidPort => "the port must be a number between 0 and 65535"@,
    }
}

/// The message shown for a rejected command line.
pub fn parse_error_message(e: &ParseError) -> (r: String)
    ensures
        r@ == spec_parse_error_message(*e),
{
    match e {
        ParseError::MissingCommand => "enter a connection command, such as: ssh user@example.com".to_owned(),
        ParseError::NotSshCommand => "the connection command must start with ssh".to_owned(),
        ParseError::MissingHost => "no host was given".to_owned(),
        ParseError::EmptyUsername => "the username before @ is empty".to_owned(),
        ParseError::EmptyHostname => "the host after @ is empty".to_owned(),
        ParseError::MissingPortValue => "-p must be followed by a port number".to_owned(),
        ParseError::DuplicatePort => "-p was given more than once".to_owned(),
        ParseError::InvalidPort => "the port must be a number between 0 and 65535".to_owned(),
    }
}

} // verus!

