//! The per-connection SOCKS5 state machine. The machine consumes
//! events — byte strings read from the client, and the outcome of the
//! dial — and yields the reply bytes to write together with the next
//! thing to do: read more bytes, dial a target, relay, or fail. All
//! socket work happens outside the library; the machine fixes, for
//! every input, exactly what is written and decided.

use vstd::prelude::*;
use crate::errors::ServerError;
use crate::numfmt::{dec_of, hex_of, push_dec, push_hex};
use crate::server::ServerConfig;
use vstd::string::StrSliceExecFns;
use vstd::string::StringExecFns;
use vstd::utf8::valid_utf8;

verus! {

/// The authentication methods of the protocol.
#[derive(Debug, Clone, Copy, PartialEq, Eq, Structural)]
pub enum AuthMethod {
    NoAuthRequired,
    GSSAPI,
    UsernamePassword,
    NoAcceptableMethods,
}

impl AuthMethod {
    pub fn to_u8(self) -> (r: u8)
        ensures
            self is NoAuthRequired ==> r == 0,
            self is GSSAPI ==> r == 1,
            self is UsernamePassword ==> r == 2,
            self is NoAcceptableMethods ==> r == 255,
    {
        match self {
            AuthMethod::NoAuthRequired => 0,
            AuthMethod::GSSAPI => 1,
            AuthMethod::UsernamePassword => 2,
            AuthMethod::NoAcceptableMethods => 255,
        }
    }

    pub fn from_u8(b: u8) -> (r: Option<AuthMethod>)
        ensures
            b == 0 ==> r == Some(AuthMethod::NoAuthRequired),
            b == 1 ==> r == Some(AuthMethod::GSSAPI),
            b == 2 ==> r == Some(AuthMethod::UsernamePassword),
            b == 255 ==> r == Some(AuthMethod::NoAcceptableMethods),
            b != 0 && b != 1 && b != 2 && b != 255 ==> r is None,
    {
        if b == 0 {
            Some(AuthMethod::NoAuthRequired)
        } else if b == 1 {
            Some(AuthMethod::GSSAPI)
        } else if b == 2 {
            Some(AuthMethod::UsernamePassword)
        } else if b == 255 {
            Some(AuthMethod::NoAcceptableMethods)
        } else {
            None
        }
    }
}

/// The address types of a request.
#[derive(Debug, Clone, Copy, PartialEq, Eq, Structural)]
pub enum AddressType {
    IPv4,
    DomainName,
    IPv6,
}

impl AddressType {
    pub fn to_u8(self) -> (r: u8)
        ensures
            self is IPv4 ==> r == 1,
            self is DomainName ==> r == 3,
            self is IPv6 ==> r == 4,
    {
        match self {
            AddressType::IPv4 => 1,
            AddressType::DomainName => 3,
            AddressType::IPv6 => 4,
        }
    }

    pub fn from_u8(b: u8) -> (r: Option<AddressType>)
        ensures
            b == 1 ==> r == Some(AddressType::IPv4),
            b == 3 ==> r == Some(AddressType::DomainName),
            b == 4 ==> r == Some(AddressType::IPv6),
            b != 1 && b != 3 && b != 4 ==> r is None,
    {
        if b == 1 {
            Some(AddressType::IPv4)
        } else if b == 3 {
            Some(AddressType::DomainName)
        } else if b == 4 {
            Some(AddressType::IPv6)
        } else {
            None
        }
    }
}

/// The request commands.
#[derive(Debug, Clone, Copy, PartialEq, Eq, Structural)]
pub enum Command {
    Connect,
    Bind,
    UDPAssociate,
}

impl Command {
    pub fn to_u8(self) -> (r: u8)
        ensures
            self is Connect ==> r == 1,
            self is Bind ==> r == 2,
            self is UDPAssociate ==> r == 3,
    {
        match self {
            Command::Connect => 1,
            Command::Bind => 2,
            Command::UDPAssociate => 3,
        }
    }

    pub fn from_u8(b: u8) -> (r: Option<Command>)
        ensures
            b == 1 ==> r == Some(Command::Connect),
            b == 2 ==> r == Some(Command::Bind),
            b == 3 ==> r == Some(Command::UDPAssociate),
            b != 1 && b != 2 && b != 3 ==> r is None,
    {
        if b == 1 {
            Some(Command::Connect)
        } else if b == 2 {
            Some(Command::Bind)
        } else if b == 3 {
            Some(Command::UDPAssociate)
        } else {
            None
        }
    }
}

/// Where one connection stands, and what it still remembers.
pub enum SessionState {
    /// Expecting the one-byte version of the greeting.
    Greeting,
    /// Expecting the one-byte count of offered methods.
    MethodCount,
    /// Expecting the method list itself.
    MethodList { n: u8 },
    /// Expecting the sub-negotiation version byte and the username length.
    SubnegHeader,
    /// Expecting the username bytes.
    SubnegUser { ulen: u8 },
    /// Expecting the password length.
    SubnegPassLen { user: Vec<u8> },
    /// Expecting the password bytes.
    SubnegPass { user: Vec<u8>, plen: u8 },
    /// Expecting the one-byte version of the request.
    RequestVersion,
    /// Expecting the command byte.
    RequestCommand,
    /// Expecting the reserved byte.
    RequestReserved,
    /// Expecting the address-type byte.
    RequestAtyp,
    /// Expecting four IPv4 address bytes.
    AddrV4,
    /// Expecting the domain-name length.
    DomainLen,
    /// Expecting the domain name itself.
    DomainBytes { len: u8 },
    /// Expecting sixteen IPv6 address bytes.
    AddrV6,
    /// Expecting the two-byte port; the target text is already formed.
    Port { atyp: u8, host: Vec<u8> },
    /// Waiting for the dial's outcome.
    Dialing { atyp: u8 },
    /// The control phase is over; bytes are being relayed.
    Relaying,
    /// The connection is finished, successfully or not.
    Closed,
}

/// One thing that happened outside the library.
pub enum Event {
    /// Bytes read from the client, exactly as many as were asked for.
    Bytes(Vec<u8>),
    /// The target was dialed.
    DialSucceeded,
    /// No dial attempt succeeded; the text of the last error.
    DialFailed { msg: String },
    /// The resolver failed for a domain target; the error's text.
    ResolveFailed { msg: String },
}

/// What the caller must do next.
pub enum NextOp {
    /// Read exactly `n` bytes from the client.
    Read { n: usize },
    /// Dial `host:port`; resolve the host through the DNS cache first
    /// when `resolve` is set (the host is then a domain name).
    Dial { host: Vec<u8>, port: u16, resolve: bool },
    /// Relay bytes in both directions until either side closes.
    Relay,
    /// Close the connection and report this error.
    Fail { err: ServerError },
}

/// The machine's answer to one event.
pub struct Step {
    /// The reply to write to the client, possibly empty, before `op`.
    pub reply: Vec<u8>,
    pub op: NextOp,
}

/// One connection's state machine.
pub struct Session {
    pub allow_anonymous: bool,
    /// The configured username's UTF-8 bytes.
    pub username: Option<Vec<u8>>,
    /// The configured password's UTF-8 bytes.
    pub password: Option<Vec<u8>>,
    pub state: SessionState,
    /// Every nonempty reply written so far, in order.
    pub replies: Ghost<Seq<Seq<u8>>>,
}

/// The ten-byte success reply: version 5, succeeded, IPv4 `0.0.0.0:0`.
pub open spec fn success_reply() -> Seq<u8> {
    seq![5u8, 0u8, 0u8, 1u8, 0u8, 0u8, 0u8, 0u8, 0u8, 0u8]
}

/// The eight-byte command-not-supported reply.
pub open spec fn cmd_unsupported_reply() -> Seq<u8> {
    seq![5u8, 7u8, 0u8, 1u8, 0u8, 0u8, 0u8, 0u8]
}

/// The eight-byte dial-failure reply, echoing the requested address
/// type; the trailing port of a full reply is deliberately omitted.
pub open spec fn dial_failure_reply(atyp: u8) -> Seq<u8> {
    seq![5u8, 1u8, 0u8, atyp, 0u8, 0u8, 0u8, 0u8]
}

/// The dotted-decimal text of four IPv4 address bytes.
pub open spec fn dotted_of(b: Seq<u8>) -> Seq<u8> {
    dec_of(b[0] as nat) + seq![46u8] + dec_of(b[1] as nat) + seq![46u8] + dec_of(b[2] as nat)
        + seq![46u8] + dec_of(b[3] as nat)
}

/// Group `i` of an IPv6 address: two bytes, big-endian.
pub open spec fn group_val(b: Seq<u8>, i: int) -> nat {
    (b[2 * i] as nat) * 256 + (b[2 * i + 1] as nat)
}

/// The colon-separated lowercase-hex text of sixteen IPv6 address
/// bytes: eight full groups, without zero compression.
pub open spec fn hexgroups_of(b: Seq<u8>) -> Seq<u8> {
    hex_of(group_val(b, 0)) + seq![58u8] + hex_of(group_val(b, 1)) + seq![58u8] + hex_of(
        group_val(b, 2),
    ) + seq![58u8] + hex_of(group_val(b, 3)) + seq![58u8] + hex_of(group_val(b, 4)) + seq![58u8]
        + hex_of(group_val(b, 5)) + seq![58u8] + hex_of(group_val(b, 6)) + seq![58u8] + hex_of(
        group_val(b, 7),
    )
}

/// How many bytes the machine expects next, if it expects bytes.
pub open spec fn expected_read(s: SessionState) -> Option<int> {
    match s {
        SessionState::Greeting => Some(1),
        SessionState::MethodCount => Some(1),
        SessionState::MethodList { n } => Some(n as int),
        SessionState::SubnegHeader => Some(2),
        SessionState::SubnegUser { ulen } => Some(ulen as int),
        SessionState::SubnegPassLen { .. } => Some(1),
        SessionState::SubnegPass { plen, .. } => Some(plen as int),
        SessionState::RequestVersion => Some(1),
        SessionState::RequestCommand => Some(1),
        SessionState::RequestReserved => Some(1),
        SessionState::RequestAtyp => Some(1),
        SessionState::AddrV4 => Some(4),
        SessionState::DomainLen => Some(1),
        SessionState::DomainBytes { len } => Some(len as int),
        SessionState::AddrV6 => Some(16),
        SessionState::Port { .. } => Some(2),
        SessionState::Dialing { .. } => None,
        SessionState::Relaying => None,
        SessionState::Closed => None,
    }
}

/// Which events the machine accepts in a state: the requested number
/// of bytes, or a dial outcome while dialing. Finished states accept
/// nothing.
pub open spec fn event_ok(s: SessionState, ev: Event) -> bool {
    match ev {
        Event::Bytes(b) => expected_read(s) matches Some(n) && b@.len() == n,
        Event::DialSucceeded => s is Dialing,
        Event::DialFailed { .. } => s is Dialing,
        Event::ResolveFailed { .. } => s is Dialing,
    }
}

/// The machine's configuration never changes across a step.
pub open spec fn same_cfg(a: Session, b: Session) -> bool {
    a.allow_anonymous == b.allow_anonymous && creds_view(a.username) == creds_view(b.username)
        && creds_view(a.password) == creds_view(b.password)
}

pub open spec fn creds_view(o: Option<Vec<u8>>) -> Option<Seq<u8>> {
    match o {
        Some(v) => Some(v@),
        None => None,
    }
}

/// The password check: both credentials are configured and the
/// client's bytes equal them exactly.
pub open spec fn auth_ok(s: Session, user: Seq<u8>, pass: Seq<u8>) -> bool {
    (s.username matches Some(cu) && cu@ == user) && (s.password matches Some(cp) && cp@ == pass)
}

/// The reply log after writing `out` (an empty reply writes nothing).
pub open spec fn replies_after(pre: Seq<Seq<u8>>, out: Seq<u8>) -> Seq<Seq<u8>> {
    if out.len() == 0 {
        pre
    } else {
        pre.push(out)
    }
}

/// A method-selection reply: two bytes, version 5, and the chosen
/// method (anonymous or username/password).
pub open spec fn is_method_selection(r: Seq<u8>) -> bool {
    r.len() == 2 && r[0] == 5 && (r[1] == 0 || r[1] == 2)
}

/// What the reply log can be in each state: nothing before method
/// selection; one two-byte selection afterwards; at most one two-byte
/// sub-negotiation reply; and the ten-byte success reply exactly when
/// relaying begins.
pub open spec fn replies_inv(s: SessionState, rs: Seq<Seq<u8>>) -> bool {
    match s {
        SessionState::Greeting => rs.len() == 0,
        SessionState::MethodCount => rs.len() == 0,
        SessionState::MethodList { .. } => rs.len() == 0,
        SessionState::SubnegHeader => rs.len() == 1 && rs[0] == seq![5u8, 2u8],
        SessionState::SubnegUser { .. } => rs.len() == 1 && rs[0] == seq![5u8, 2u8],
        SessionState::SubnegPassLen { .. } => rs.len() == 1 && rs[0] == seq![5u8, 2u8],
        SessionState::SubnegPass { .. } => rs.len() == 1 && rs[0] == seq![5u8, 2u8],
        SessionState::RequestVersion => request_phase_replies(rs),
        SessionState::RequestCommand => request_phase_replies(rs),
        SessionState::RequestReserved => request_phase_replies(rs),
        SessionState::RequestAtyp => request_phase_replies(rs),
        SessionState::AddrV4 => request_phase_replies(rs),
        SessionState::DomainLen => request_phase_replies(rs),
        SessionState::DomainBytes { .. } => request_phase_replies(rs),
        SessionState::AddrV6 => request_phase_replies(rs),
        SessionState::Port { .. } => request_phase_replies(rs),
        SessionState::Dialing { .. } => request_phase_replies(rs),
        SessionState::Relaying => (rs.len() == 2 && is_method_selection(rs[0]) && rs[1]
            == success_reply()) || (rs.len() == 3 && rs[0] == seq![5u8, 2u8] && rs[1] == seq![
            5u8,
            0u8,
        ] && rs[2] == success_reply()),
        SessionState::Closed => true,
    }
}

/// Between method selection and the request reply the log holds the
/// selection alone, or the selection and the sub-negotiation success.
pub open spec fn request_phase_replies(rs: Seq<Seq<u8>>) -> bool {
    (rs.len() == 1 && rs[0] == seq![5u8, 0u8]) || (rs.len() == 2 && rs[0] == seq![5u8, 2u8]
        && rs[1] == seq![5u8, 0u8])
}

/// Stored state data is sound: a remembered address type is one of
/// the three the protocol names.
pub open spec fn state_data_inv(s: SessionState) -> bool {
    match s {
        SessionState::Port { atyp, .. } => atyp == 1 || atyp == 3 || atyp == 4,
        SessionState::Dialing { atyp } => atyp == 1 || atyp == 3 || atyp == 4,
        _ => true,
    }
}

impl Session {
    pub open spec fn wf(self) -> bool {
        state_data_inv(self.state) && replies_inv(self.state, self.replies@)
    }

    /// A fresh machine for one connection, with the configured
    /// credentials as bytes.
    pub fn new(cfg: &ServerConfig) -> (r: Session)
        ensures
            r.wf(),
            r.state is Greeting,
            r.replies@ == Seq::<Seq<u8>>::empty(),
            r.allow_anonymous == cfg.allow_anonymous,
            creds_view(r.username) == cred_bytes(cfg.username),
            creds_view(r.password) == cred_bytes(cfg.password),
    {
        Session {
            allow_anonymous: cfg.allow_anonymous,
            username: cred_to_bytes(&cfg.username),
            password: cred_to_bytes(&cfg.password),
            state: SessionState::Greeting,
            replies: Ghost(Seq::empty()),
        }
    }
}

/// The UTF-8 bytes of an optional configured credential.
pub open spec fn cred_bytes(o: Option<String>) -> Option<Seq<u8>> {
    match o {
        Some(s) => Some(vstd::utf8::encode_utf8(s@)),
        None => None,
    }
}

fn cred_to_bytes(o: &Option<String>) -> (r: Option<Vec<u8>>)
    ensures
        creds_view(r) == cred_bytes(*o),
{
    match o {
        Some(s) => Some(s.as_str().as_bytes_vec()),
        None => None,
    }
}

/// Relies on `std::str::from_utf8`: it accepts exactly the byte
/// strings that are well-formed UTF-8.
#[verifier::external_body]
fn utf8_ok(b: &Vec<u8>) -> (r: bool)
    ensures
        r == valid_utf8(b@),
{
    std::str::from_utf8(b).is_ok()
}

/// Whether `x` occurs in `v`.
fn contains_byte(v: &Vec<u8>, x: u8) -> (r: bool)
    ensures
        r == v@.contains(x),
{
    let mut i: usize = 0;
    while i < v.len()
        invariant
            i <= v@.len(),
            forall|j: int| 0 <= j < i ==> v@[j] != x,
        decreases v@.len() - i,
    {
        if v[i] == x {
            return true;
        }
        i += 1;
    }
    false
}

fn reply_pair(a: u8, b: u8) -> (r: Vec<u8>)
    ensures
        r@ == seq![a, b],
{
    let mut v: Vec<u8> = Vec::new();
    v.push(a);
    v.push(b);
    assert(v@ =~= seq![a, b]);
    v
}

fn reply_cmd_unsupported() -> (r: Vec<u8>)
    ensures
        r@ == cmd_unsupported_reply(),
{
    let mut v: Vec<u8> = Vec::new();
    v.push(5);
    v.push(7);
    v.push(0);
    v.push(1);
    v.push(0);
    v.push(0);
    v.push(0);
    v.push(0);
    assert(v@ =~= cmd_unsupported_reply());
    v
}

fn reply_dial_failure(atyp: u8) -> (r: Vec<u8>)
    ensures
        r@ == dial_failure_reply(atyp),
{
    let mut v: Vec<u8> = Vec::new();
    v.push(5);
    v.push(1);
    v.push(0);
    v.push(atyp);
    v.push(0);
    v.push(0);
    v.push(0);
    v.push(0);
    assert(v@ =~= dial_failure_reply(atyp));
    v
}

fn reply_dial_success() -> (r: Vec<u8>)
    ensures
        r@ == success_reply(),
{
    let mut v: Vec<u8> = Vec::new();
    v.push(5);
    v.push(0);
    v.push(0);
    v.push(1);
    v.push(0);
    v.push(0);
    v.push(0);
    v.push(0);
    v.push(0);
    v.push(0);
    assert(v@ =~= success_reply());
    v
}

/// The dotted-decimal text of an IPv4 address.
fn dotted_v4(b: &Vec<u8>) -> (r: Vec<u8>)
    requires
        b@.len() == 4,
    ensures
        r@ == dotted_of(b@),
{
    let mut out: Vec<u8> = Vec::new();
    push_dec(&mut out, b[0] as u16);
    out.push(46);
    push_dec(&mut out, b[1] as u16);
    out.push(46);
    push_dec(&mut out, b[2] as u16);
    out.push(46);
    push_dec(&mut out, b[3] as u16);
    assert(out@ =~= dotted_of(b@));
    out
}

/// The full eight-group lowercase-hex text of an IPv6 address.
fn hex_v6(b: &Vec<u8>) -> (r: Vec<u8>)
    requires
        b@.len() == 16,
    ensures
        r@ == hexgroups_of(b@),
{
    let mut out: Vec<u8> = Vec::new();
    let mut g: usize = 0;
    while g < 8
        invariant
            b@.len() == 16,
            g <= 8,
            out@ == hexgroups_prefix(b@, g as int),
        decreases 8 - g,
    {
        if g > 0 {
            out.push(58);
        }
        let v: u16 = (b[2 * g] as u16) * 256 + (b[2 * g + 1] as u16);
        assert(v as nat == group_val(b@, g as int));
        push_hex(&mut out, v);
        assert(out@ =~= hexgroups_prefix(b@, g as int + 1));
        g += 1;
    }
    proof {
        assert(hexgroups_prefix(b@, 1) == hex_of(group_val(b@, 0)));
        assert(hexgroups_prefix(b@, 2) == hexgroups_prefix(b@, 1) + seq![58u8] + hex_of(
            group_val(b@, 1),
        ));
        assert(hexgroups_prefix(b@, 3) == hexgroups_prefix(b@, 2) + seq![58u8] + hex_of(
            group_val(b@, 2),
        ));
        assert(hexgroups_prefix(b@, 4) == hexgroups_prefix(b@, 3) + seq![58u8] + hex_of(
            group_val(b@, 3),
        ));
        assert(hexgroups_prefix(b@, 5) == hexgroups_prefix(b@, 4) + seq![58u8] + hex_of(
            group_val(b@, 4),
        ));
        assert(hexgroups_prefix(b@, 6) == hexgroups_prefix(b@, 5) + seq![58u8] + hex_of(
            group_val(b@, 5),
        ));
        assert(hexgroups_prefix(b@, 7) == hexgroups_prefix(b@, 6) + seq![58u8] + hex_of(
            group_val(b@, 6),
        ));
        assert(hexgroups_prefix(b@, 8) == hexgroups_prefix(b@, 7) + seq![58u8] + hex_of(
            group_val(b@, 7),
        ));
    }
    assert(out@ =~= hexgroups_of(b@));
    out
}

/// The first `k` hex groups of the address text.
pub open spec fn hexgroups_prefix(b: Seq<u8>, k: int) -> Seq<u8>
    decreases k,
{
    if k <= 0 {
        Seq::empty()
    } else if k == 1 {
        hex_of(group_val(b, 0))
    } else {
        hexgroups_prefix(b, k - 1) + seq![58u8] + hex_of(group_val(b, k - 1))
    }
}

/// The protocol's whole step relation: for the state the machine was
/// in and the event that arrived, exactly which state it enters, what
/// it writes, and what it asks for next.
pub open spec fn step_spec(pre: Session, ev: Event, post: Session, r: Step) -> bool {
    same_cfg(pre, post) && post.replies@ == replies_after(pre.replies@, r.reply@) && state_step(
        pre,
        ev,
        post,
        r,
    )
}

pub open spec fn state_step(pre: Session, ev: Event, post: Session, r: Step) -> bool {
    match pre.state {
        SessionState::Greeting => ev matches Event::Bytes(b) && (if b@[0] == 5 {
            post.state is MethodCount && no_reply(r) && reads(r, 1)
        } else {
            fails_silently(post, r, ServerError::UnsupportedProtocolVersion)
        }),
        SessionState::MethodCount => ev matches Event::Bytes(b) && (post.state matches
            SessionState::MethodList { n } && n == b@[0]) && no_reply(r) && reads(r, b@[0] as int),
        SessionState::MethodList { .. } => ev matches Event::Bytes(ms) && (if ms@.contains(2u8)
            && pre.username is Some && pre.password is Some {
            post.state is SubnegHeader && r.reply@ == seq![5u8, 2u8] && reads(r, 2)
        } else if ms@.contains(0u8) && pre.allow_anonymous {
            post.state is RequestVersion && r.reply@ == seq![5u8, 0u8] && reads(r, 1)
        } else if ms@.contains(0u8) {
            post.state is Closed && r.reply@ == seq![5u8, 255u8] && fails_auth(
                r,
                "Anonymous access is not allowed"@,
            )
        } else {
            post.state is Closed && r.reply@ == seq![5u8, 255u8] && fails_auth(
                r,
                "No acceptable authentication methods"@,
            )
        }),
        SessionState::SubnegHeader => ev matches Event::Bytes(b) && (post.state matches
            SessionState::SubnegUser { ulen } && ulen == b@[1]) && no_reply(r) && reads(
            r,
            b@[1] as int,
        ),
        SessionState::SubnegUser { .. } => ev matches Event::Bytes(u) && (post.state matches
            SessionState::SubnegPassLen { user } && user@ == u@) && no_reply(r) && reads(r, 1),
        SessionState::SubnegPassLen { user: pre_user } => ev matches Event::Bytes(b) && (
        post.state matches SessionState::SubnegPass { user, plen } && user@ == pre_user@ && plen
            == b@[0]) && no_reply(r) && reads(r, b@[0] as int),
        SessionState::SubnegPass { user, .. } => ev matches Event::Bytes(p) && (if !valid_utf8(
            user@,
        ) || !valid_utf8(p@) {
            fails_silently(post, r, ServerError::InvalidRequestFormat)
        } else if auth_ok(pre, user@, p@) {
            post.state is RequestVersion && r.reply@ == seq![5u8, 0u8] && reads(r, 1)
        } else {
            post.state is Closed && r.reply@ == seq![5u8, 1u8] && fails_auth(
                r,
                "Invalid username or password"@,
            )
        }),
        SessionState::RequestVersion => ev matches Event::Bytes(b) && (if b@[0] == 5 {
            post.state is RequestCommand && no_reply(r) && reads(r, 1)
        } else {
            fails_silently(post, r, ServerError::UnsupportedProtocolVersion)
        }),
        SessionState::RequestCommand => ev matches Event::Bytes(b) && (if b@[0] == 1 {
            post.state is RequestReserved && no_reply(r) && reads(r, 1)
        } else if b@[0] == 2 || b@[0] == 3 {
            post.state is Closed && r.reply@ == cmd_unsupported_reply() && (r.op matches
                NextOp::Fail { err } && (err matches ServerError::UnsupportedCmd(c) && c == b@[0]))
        } else {
            fails_silently(post, r, ServerError::InvalidRequestFormat)
        }),
        SessionState::RequestReserved => ev matches Event::Bytes(_b) && post.state is RequestAtyp
            && no_reply(r) && reads(r, 1),
        SessionState::RequestAtyp => ev matches Event::Bytes(b) && (if b@[0] == 1 {
            post.state is AddrV4 && no_reply(r) && reads(r, 4)
        } else if b@[0] == 3 {
            post.state is DomainLen && no_reply(r) && reads(r, 1)
        } else if b@[0] == 4 {
            post.state is AddrV6 && no_reply(r) && reads(r, 16)
        } else {
            fails_silently(post, r, ServerError::InvalidRequestFormat)
        }),
        SessionState::AddrV4 => ev matches Event::Bytes(b) && (post.state matches
            SessionState::Port { atyp, host } && atyp == 1 && host@ == dotted_of(b@)) && no_reply(
            r,
        ) && reads(r, 2),
        SessionState::DomainLen => ev matches Event::Bytes(b) && (post.state matches
            SessionState::DomainBytes { len } && len == b@[0]) && no_reply(r) && reads(
            r,
            b@[0] as int,
        ),
        SessionState::DomainBytes { .. } => ev matches Event::Bytes(d) && (if valid_utf8(d@) {
            (post.state matches SessionState::Port { atyp, host } && atyp == 3 && host@ == d@)
                && no_reply(r) && reads(r, 2)
        } else {
            fails_silently(post, r, ServerError::InvalidRequestFormat)
        }),
        SessionState::AddrV6 => ev matches Event::Bytes(b) && (post.state matches
            SessionState::Port { atyp, host } && atyp == 4 && host@ == hexgroups_of(b@))
            && no_reply(r) && reads(r, 2),
        SessionState::Port { atyp: pre_atyp, host: pre_host } => ev matches Event::Bytes(b) && (
        post.state matches SessionState::Dialing { atyp } && atyp == pre_atyp) && no_reply(r) && (
        r.op matches NextOp::Dial { host, port, resolve } && host@ == pre_host@ && port == b@[0]
            * 256 + b@[1] && resolve == (pre_atyp == 3)),
        SessionState::Dialing { atyp } => match ev {
            Event::DialSucceeded => post.state is Relaying && r.reply@ == success_reply()
                && r.op is Relay,
            Event::DialFailed { msg } => post.state is Closed && r.reply@ == dial_failure_reply(
                atyp,
            ) && (r.op matches NextOp::Fail { err } && (err matches ServerError::ConnectionError(
                m,
            ) && m@ == msg@)),
            Event::ResolveFailed { msg } => post.state is Closed && no_reply(r) && (r.op matches
                NextOp::Fail { err } && (err matches ServerError::IoError(m) && m@ == msg@)),
            Event::Bytes(_) => false,
        },
        SessionState::Relaying => false,
        SessionState::Closed => false,
    }
}

/// The step writes nothing.
pub open spec fn no_reply(r: Step) -> bool {
    r.reply@ == Seq::<u8>::empty()
}

/// The step asks for exactly `n` more bytes.
pub open spec fn reads(r: Step, n: int) -> bool {
    r.op matches NextOp::Read { n: k } && k == n
}

/// The step ends the connection with this error, writing nothing.
pub open spec fn fails_silently(post: Session, r: Step, e: ServerError) -> bool {
    post.state is Closed && no_reply(r) && (r.op matches NextOp::Fail { err } && err == e)
}

/// The step ends the connection with an authentication failure
/// carrying this message.
pub open spec fn fails_auth(r: Step, msg: Seq<char>) -> bool {
    r.op matches NextOp::Fail { err } && (err matches ServerError::AuthenticationFailed(m) && m@
        == msg)
}

impl Session {
    /// Feeds one event to the machine. The whole behaviour is
    /// `step_spec`; the reply log grows by the written reply and the
    /// log's discipline is preserved.
    pub fn step(self, ev: Event) -> (r: (Session, Step))
        requires
            self.wf(),
            event_ok(self.state, ev),
        ensures
            r.0.wf(),
            step_spec(self, ev, r.0, r.1),
    {
        let Session { allow_anonymous, username, password, state, replies } = self;
        match state {
            SessionState::Greeting => {
                let b = match ev {
                    Event::Bytes(b) => b,
                    _ => Vec::new(),
                };
                if b[0] == 5 {
                    finish(
                        allow_anonymous,
                        username,
                        password,
                        SessionState::MethodCount,
                        replies,
                        Vec::new(),
                        NextOp::Read { n: 1 },
                    )
                } else {
                    finish(
                        allow_anonymous,
                        username,
                        password,
                        SessionState::Closed,
                        replies,
                        Vec::new(),
                        NextOp::Fail { err: ServerError::UnsupportedProtocolVersion },
                    )
                }
            },
            SessionState::MethodCount => {
                let b = match ev {
                    Event::Bytes(b) => b,
                    _ => Vec::new(),
                };
                let n = b[0];
                finish(
                    allow_anonymous,
                    username,
                    password,
                    SessionState::MethodList { n },
                    replies,
                    Vec::new(),
                    NextOp::Read { n: n as usize },
                )
            },
            SessionState::MethodList { n: _n } => {
                let ms = match ev {
                    Event::Bytes(b) => b,
                    _ => Vec::new(),
                };
                let offers_password = contains_byte(&ms, 2);
                let offers_anonymous = contains_byte(&ms, 0);
                if offers_password && username.is_some() && password.is_some() {
                    finish(
                        allow_anonymous,
                        username,
                        password,
                        SessionState::SubnegHeader,
                        replies,
                        reply_pair(5, 2),
                        NextOp::Read { n: 2 },
                    )
                } else if offers_anonymous && allow_anonymous {
                    finish(
                        allow_anonymous,
                        username,
                        password,
                        SessionState::RequestVersion,
                        replies,
                        reply_pair(5, 0),
                        NextOp::Read { n: 1 },
                    )
                } else if offers_anonymous {
                    finish(
                        allow_anonymous,
                        username,
                        password,
                        SessionState::Closed,
                        replies,
                        reply_pair(5, 255),
                        NextOp::Fail {
                            err: ServerError::AuthenticationFailed(
                                String::from_str("Anonymous access is not allowed"),
                            ),
                        },
                    )
                } else {
                    finish(
                        allow_anonymous,
                        username,
                        password,
                        SessionState::Closed,
                        replies,
                        reply_pair(5, 255),
                        NextOp::Fail {
                            err: ServerError::AuthenticationFailed(
                                String::from_str("No acceptable authentication methods"),
                            ),
                        },
                    )
                }
            },
            SessionState::SubnegHeader => {
                let b = match ev {
                    Event::Bytes(b) => b,
                    _ => Vec::new(),
                };
                let ulen = b[1];
                finish(
                    allow_anonymous,
                    username,
                    password,
                    SessionState::SubnegUser { ulen },
                    replies,
                    Vec::new(),
                    NextOp::Read { n: ulen as usize },
                )
            },
            SessionState::SubnegUser { ulen: _ulen } => {
                let u = match ev {
                    Event::Bytes(b) => b,
                    _ => Vec::new(),
                };
                finish(
                    allow_anonymous,
                    username,
                    password,
                    SessionState::SubnegPassLen { user: u },
                    replies,
                    Vec::new(),
                    NextOp::Read { n: 1 },
                )
            },
            SessionState::SubnegPassLen { user } => {
                let b = match ev {
                    Event::Bytes(b) => b,
                    _ => Vec::new(),
                };
                let plen = b[0];
                finish(
                    allow_anonymous,
                    username,
                    password,
                    SessionState::SubnegPass { user, plen },
                    replies,
                    Vec::new(),
                    NextOp::Read { n: plen as usize },
                )
            },
            SessionState::SubnegPass { user, plen: _plen } => {
                let p = match ev {
                    Event::Bytes(b) => b,
                    _ => Vec::new(),
                };
                if !utf8_ok(&user) || !utf8_ok(&p) {
                    finish(
                        allow_anonymous,
                        username,
                        password,
                        SessionState::Closed,
                        replies,
                        Vec::new(),
                        NextOp::Fail { err: ServerError::InvalidRequestFormat },
                    )
                } else {
                    let user_matches = match &username {
                        Some(cu) => crate::ip_filter::bytes_eq(cu, &user),
                        None => false,
                    };
                    let pass_matches = match &password {
                        Some(cp) => crate::ip_filter::bytes_eq(cp, &p),
                        None => false,
                    };
                    if user_matches && pass_matches {
                        finish(
                            allow_anonymous,
                            username,
                            password,
                            SessionState::RequestVersion,
                            replies,
                            reply_pair(5, 0),
                            NextOp::Read { n: 1 },
                        )
                    } else {
                        finish(
                            allow_anonymous,
                            username,
                            password,
                            SessionState::Closed,
                            replies,
                            reply_pair(5, 1),
                            NextOp::Fail {
                                err: ServerError::AuthenticationFailed(
                                    String::from_str("Invalid username or password"),
                                ),
                            },
                        )
                    }
                }
            },
            SessionState::RequestVersion => {
                let b = match ev {
                    Event::Bytes(b) => b,
                    _ => Vec::new(),
                };
                if b[0] == 5 {
                    finish(
                        allow_anonymous,
                        username,
                        password,
                        SessionState::RequestCommand,
                        replies,
                        Vec::new(),
                        NextOp::Read { n: 1 },
                    )
                } else {
                    finish(
                        allow_anonymous,
                        username,
                        password,
                        SessionState::Closed,
                        replies,
                        Vec::new(),
                        NextOp::Fail { err: ServerError::UnsupportedProtocolVersion },
                    )
                }
            },
            SessionState::RequestCommand => {
                let b = match ev {
                    Event::Bytes(b) => b,
                    _ => Vec::new(),
                };
                let c = b[0];
                match Command::from_u8(c) {
                    Some(Command::Connect) => finish(
                        allow_anonymous,
                        username,
                        password,
                        SessionState::RequestReserved,
                        replies,
                        Vec::new(),
                        NextOp::Read { n: 1 },
                    ),
                    Some(_) => finish(
                        allow_anonymous,
                        username,
                        password,
                        SessionState::Closed,
                        replies,
                        reply_cmd_unsupported(),
                        NextOp::Fail { err: ServerError::UnsupportedCmd(c) },
                    ),
                    None => finish(
                        allow_anonymous,
                        username,
                        password,
                        SessionState::Closed,
                        replies,
                        Vec::new(),
                        NextOp::Fail { err: ServerError::InvalidRequestFormat },
                    ),
                }
            },
            SessionState::RequestReserved => {
                finish(
                    allow_anonymous,
                    username,
                    password,
                    SessionState::RequestAtyp,
                    replies,
                    Vec::new(),
                    NextOp::Read { n: 1 },
                )
            },
            SessionState::RequestAtyp => {
                let b = match ev {
                    Event::Bytes(b) => b,
                    _ => Vec::new(),
                };
                match AddressType::from_u8(b[0]) {
                    Some(AddressType::IPv4) => finish(
                        allow_anonymous,
                        username,
                        password,
                        SessionState::AddrV4,
                        replies,
                        Vec::new(),
                        NextOp::Read { n: 4 },
                    ),
                    Some(AddressType::DomainName) => finish(
                        allow_anonymous,
                        username,
                        password,
                        SessionState::DomainLen,
                        replies,
                        Vec::new(),
                        NextOp::Read { n: 1 },
                    ),
                    Some(AddressType::IPv6) => finish(
                        allow_anonymous,
                        username,
                        password,
                        SessionState::AddrV6,
                        replies,
                        Vec::new(),
                        NextOp::Read { n: 16 },
                    ),
                    None => finish(
                        allow_anonymous,
                        username,
                        password,
                        SessionState::Closed,
                        replies,
                        Vec::new(),
                        NextOp::Fail { err: ServerError::InvalidRequestFormat },
                    ),
                }
            },
            SessionState::AddrV4 => {
                let b = match ev {
                    Event::Bytes(b) => b,
                    _ => Vec::new(),
                };
                let host = dotted_v4(&b);
                finish(
                    allow_anonymous,
                    username,
                    password,
                    SessionState::Port { atyp: 1, host },
                    replies,
                    Vec::new(),
                    NextOp::Read { n: 2 },
                )
            },
            SessionState::DomainLen => {
                let b = match ev {
                    Event::Bytes(b) => b,
                    _ => Vec::new(),
                };
                let len = b[0];
                finish(
                    allow_anonymous,
                    username,
                    password,
                    SessionState::DomainBytes { len },
                    replies,
                    Vec::new(),
                    NextOp::Read { n: len as usize },
                )
            },
            SessionState::DomainBytes { len: _len } => {
                let d = match ev {
                    Event::Bytes(b) => b,
                    _ => Vec::new(),
                };
                if utf8_ok(&d) {
                    finish(
                        allow_anonymous,
                        username,
                        password,
                        SessionState::Port { atyp: 3, host: d },
                        replies,
                        Vec::new(),
                        NextOp::Read { n: 2 },
                    )
                } else {
                    finish(
                        allow_anonymous,
                        username,
                        password,
                        SessionState::Closed,
                        replies,
                        Vec::new(),
                        NextOp::Fail { err: ServerError::InvalidRequestFormat },
                    )
                }
            },
            SessionState::AddrV6 => {
                let b = match ev {
                    Event::Bytes(b) => b,
                    _ => Vec::new(),
                };
                let host = hex_v6(&b);
                finish(
                    allow_anonymous,
                    username,
                    password,
                    SessionState::Port { atyp: 4, host },
                    replies,
                    Vec::new(),
                    NextOp::Read { n: 2 },
                )
            },
            SessionState::Port { atyp, host } => {
                let b = match ev {
                    Event::Bytes(b) => b,
                    _ => Vec::new(),
                };
                let port: u16 = (b[0] as u16) * 256 + (b[1] as u16);
                finish(
                    allow_anonymous,
                    username,
                    password,
                    SessionState::Dialing { atyp },
                    replies,
                    Vec::new(),
                    NextOp::Dial { host, port, resolve: atyp == 3 },
                )
            },
            SessionState::Dialing { atyp } => match ev {
                Event::DialSucceeded => finish(
                    allow_anonymous,
                    username,
                    password,
                    SessionState::Relaying,
                    replies,
                    reply_dial_success(),
                    NextOp::Relay,
                ),
                Event::DialFailed { msg } => finish(
                    allow_anonymous,
                    username,
                    password,
                    SessionState::Closed,
                    replies,
                    reply_dial_failure(atyp),
                    NextOp::Fail { err: ServerError::ConnectionError(msg) },
                ),
                Event::ResolveFailed { msg } => finish(
                    allow_anonymous,
                    username,
                    password,
                    SessionState::Closed,
                    replies,
                    Vec::new(),
                    NextOp::Fail { err: ServerError::IoError(msg) },
                ),
                Event::Bytes(_) => {
                    // `event_ok` rules this out.
                    finish(
                        allow_anonymous,
                        username,
                        password,
                        SessionState::Closed,
                        replies,
                        Vec::new(),
                        NextOp::Fail { err: ServerError::InvalidRequestFormat },
                    )
                },
            },
            SessionState::Relaying => {
                finish(
                    allow_anonymous,
                    username,
                    password,
                    SessionState::Closed,
                    replies,
                    Vec::new(),
                    NextOp::Fail { err: ServerError::InvalidRequestFormat },
                )
            },
            SessionState::Closed => {
                finish(
                    allow_anonymous,
                    username,
                    password,
                    SessionState::Closed,
                    replies,
                    Vec::new(),
                    NextOp::Fail { err: ServerError::InvalidRequestFormat },
                )
            },
        }
    }
}

/// Reassembles the machine after one transition, logging the reply.
fn finish(
    allow_anonymous: bool,
    username: Option<Vec<u8>>,
    password: Option<Vec<u8>>,
    state: SessionState,
    replies: Ghost<Seq<Seq<u8>>>,
    reply: Vec<u8>,
    op: NextOp,
) -> (r: (Session, Step))
    ensures
        r.0.allow_anonymous == allow_anonymous,
        creds_view(r.0.username) == creds_view(username),
        creds_view(r.0.password) == creds_view(password),
        r.0.state == state,
        r.0.replies@ == replies_after(replies@, reply@),
        r.1.reply@ == reply@,
        r.1.op == op,
{
    let ghost new_log = replies_after(replies@, reply@);
    (
        Session {
            allow_anonymous,
            username,
            password,
            state,
            replies: Ghost(new_log),
        },
        Step { reply, op },
    )
}

/// For every session that reaches the relay phase, the server has
/// written exactly one two-byte method-selection reply, at most one
/// two-byte sub-negotiation reply, and one ten-byte success reply, in
/// that order and nothing else, before any relayed bytes.
pub proof fn lemma_reply_discipline(s: Session)
    requires
        s.wf(),
        s.state is Relaying,
    ensures
        (s.replies@.len() == 2 && is_method_selection(s.replies@[0]) && s.replies@[1]
            == success_reply()) || (s.replies@.len() == 3 && s.replies@[0] == seq![5u8, 2u8]
            && s.replies@[1] == seq![5u8, 0u8] && s.replies@[2] == success_reply()),
{
}

/// After method selection chose username/password, the one
/// sub-negotiation reply is decided by the credentials alone: for
/// well-formed UTF-8 inputs it is the two bytes 5, 0 and the request
/// phase follows exactly when the client's username and password
/// bytes equal the configured ones; otherwise it is the two bytes
/// 5, 1 and the connection fails with an authentication failure.
pub proof fn lemma_subnegotiation_outcome(pre: Session, ev: Event, post: Session, r: Step)
    requires
        pre.wf(),
        pre.state matches SessionState::SubnegPass { user, .. } && valid_utf8(user@),
        ev matches Event::Bytes(p) && valid_utf8(p@),
        step_spec(pre, ev, post, r),
    ensures
        ({
            let user = pre.state->SubnegPass_user;
            let p = ev->Bytes_0;
            if auth_ok(pre, user@, p@) {
                r.reply@ == seq![5u8, 0u8] && post.state is RequestVersion
            } else {
                r.reply@ == seq![5u8, 1u8] && post.state is Closed && (r.op matches NextOp::Fail {
                    err,
                } && err is AuthenticationFailed)
            }
        }),
{
}

/// For every CONNECT that fails at the dial, the request reply is
/// exactly eight bytes: version 5, reply code 1, reserved 0, and the
/// address type the client asked for.
pub proof fn lemma_dial_failure_shape(pre: Session, ev: Event, post: Session, r: Step)
    requires
        pre.wf(),
        pre.state is Dialing,
        ev matches Event::DialFailed { .. },
        step_spec(pre, ev, post, r),
    ensures
        r.reply@.len() == 8,
        r.reply@[0] == 5,
        r.reply@[1] == 1,
        r.reply@[2] == 0,
        r.reply@[3] == pre.state->Dialing_atyp,
        r.op matches NextOp::Fail { err } && err is ConnectionError,
{
}

/// For every BIND or UDP-ASSOCIATE request, the reply is exactly the
/// eight bytes 5, 7, 0, 1, 0, 0, 0, 0, and the connection fails with
/// the unsupported command.
pub proof fn lemma_unsupported_command_shape(pre: Session, ev: Event, post: Session, r: Step)
    requires
        pre.wf(),
        pre.state is RequestCommand,
        ev matches Event::Bytes(b) && b@.len() == 1 && (b@[0] == 2 || b@[0] == 3),
        step_spec(pre, ev, post, r),
    ensures
        r.reply@ == cmd_unsupported_reply(),
        r.reply@ =~= seq![5u8, 7u8, 0u8, 1u8, 0u8, 0u8, 0u8, 0u8],
        r.op matches NextOp::Fail { err } && (err matches ServerError::UnsupportedCmd(c) && (
        ev matches Event::Bytes(b) && c == b@[0])),
{
}

} // verus!
