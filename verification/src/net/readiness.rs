//! Socket readiness and decisions: the poll events a TCP or UDP socket
//! reports from its protocol state, when a close must be driven by the
//! runner, how a connect starts and completes, which datagrams a receive
//! accepts, and the ephemeral-port search.
//!
//! The protocol predicates (`can_recv`, `may_send`, ...) and the TCP state
//! are read from the smoltcp socket by the caller and handed in as plain
//! values.

use vstd::prelude::*;

verus! {

/// Poll events of a socket.
#[derive(Debug, Clone, Copy, PartialEq, Eq, Structural)]
pub struct IoEvents {
    /// Readable (or EOF observable).
    pub in_: bool,
    /// Writable.
    pub out: bool,
    /// A stable error is pending.
    pub err: bool,
    /// Both directions are closed.
    pub hup: bool,
    /// The read side is closed.
    pub rdhup: bool,
}

/// Poll mask bit of `IN`.
pub const POLL_IN: u32 = 0x0001;
/// Poll mask bit of `OUT`.
pub const POLL_OUT: u32 = 0x0004;
/// Poll mask bit of `ERR`.
pub const POLL_ERR: u32 = 0x0008;
/// Poll mask bit of `HUP`.
pub const POLL_HUP: u32 = 0x0010;
/// Poll mask bit of `RDHUP`.
pub const POLL_RDHUP: u32 = 0x2000;

impl IoEvents {
    /// No event.
    pub open spec fn none() -> IoEvents {
        IoEvents { in_: false, out: false, err: false, hup: false, rdhup: false }
    }

    /// No event.
    pub fn empty() -> (e: IoEvents)
        ensures
            e == IoEvents::none(),
    {
        IoEvents { in_: false, out: false, err: false, hup: false, rdhup: false }
    }

    /// Whether no event is set.
    pub fn is_empty(&self) -> (r: bool)
        ensures
            r == (*self == IoEvents::none()),
    {
        !self.in_ && !self.out && !self.err && !self.hup && !self.rdhup
    }

    /// The poll mask of these events.
    pub fn bits(&self) -> (m: u32)
        ensures
            m == (if self.in_ { POLL_IN } else { 0 }) + (if self.out { POLL_OUT } else { 0 }) + (
            if self.err { POLL_ERR } else { 0 }) + (if self.hup { POLL_HUP } else { 0 }) + (
            if self.rdhup { POLL_RDHUP } else { 0 }),
    {
        let mut m: u32 = 0;
        if self.in_ {
            m = m + POLL_IN;
        }
        if self.out {
            m = m + POLL_OUT;
        }
        if self.err {
            m = m + POLL_ERR;
        }
        if self.hup {
            m = m + POLL_HUP;
        }
        if self.rdhup {
            m = m + POLL_RDHUP;
        }
        m
    }
}

/// The socket-level state kept beside the protocol socket.
#[derive(Debug, Clone, Copy, PartialEq, Eq, Structural)]
pub enum SocketState {
    /// Never used.
    Idle,
    /// An operation is changing the state.
    Busy,
    /// A connect is in progress.
    Connecting,
    /// Connected.
    Connected,
    /// Listening.
    Listening,
    /// Closed.
    Closed,
}

/// The protocol predicates of a TCP socket that readiness depends on.
#[derive(Debug, Clone, Copy, PartialEq, Eq, Structural)]
pub struct TcpSocketFlags {
    /// Data is queued for `recv`.
    pub can_recv: bool,
    /// The receive half is still open (or data remains).
    pub may_recv: bool,
    /// `send` can enqueue data now.
    pub can_send: bool,
    /// The transmit half is still open.
    pub may_send: bool,
}

/// The stream readiness of a TCP socket. A never-used or connecting socket
/// reports nothing (a connect's completion is reported by the connect
/// path); otherwise: `IN` when data is queued or the peer closed (so a
/// blocked `recv` observes EOF), `RDHUP` when the peer or the local side
/// closed the read half, `OUT` when `send` can enqueue, `HUP` when both
/// halves are closed.
pub open spec fn tcp_readiness_spec(f: TcpSocketFlags, local_rx_closed: bool, state: SocketState) -> IoEvents {
    if state == SocketState::Idle || state == SocketState::Connecting {
        IoEvents::none()
    } else {
        IoEvents {
            in_: f.can_recv || !f.may_recv,
            out: f.can_send,
            err: false,
            hup: !f.may_recv && !f.may_send,
            rdhup: !f.may_recv || local_rx_closed,
        }
    }
}

/// The single TCP readiness predicate shared by `poll` and the register
/// recheck.
pub fn tcp_readiness(f: TcpSocketFlags, local_rx_closed: bool, state: SocketState) -> (e: IoEvents)
    ensures
        e == tcp_readiness_spec(f, local_rx_closed, state),
{
    let mut events = IoEvents::empty();
    if state == SocketState::Idle || state == SocketState::Connecting {
        return events;
    }
    if f.can_recv {
        events.in_ = true;
    }
    if !f.may_recv {
        events.in_ = true;
        events.rdhup = true;
    }
    if f.can_send {
        events.out = true;
    }
    if !f.may_recv && !f.may_send {
        events.hup = true;
    }
    if local_rx_closed {
        events.rdhup = true;
    }
    events
}

/// The protocol predicates of a UDP socket that readiness depends on.
#[derive(Debug, Clone, Copy, PartialEq, Eq, Structural)]
pub struct UdpSocketFlags {
    /// The socket is open (bound at the protocol level).
    pub is_open: bool,
    /// A datagram is queued for `recv`.
    pub can_recv: bool,
    /// `send` can enqueue a datagram now.
    pub can_send: bool,
}

/// The readiness of a UDP socket: nothing while unbound; `IN`/`OUT` from the
/// queues while open; `HUP` once closed.
pub open spec fn udp_readiness_spec(f: UdpSocketFlags, bound: bool) -> IoEvents {
    if !bound {
        IoEvents::none()
    } else if f.is_open {
        IoEvents { in_: f.can_recv, out: f.can_send, err: false, hup: false, rdhup: false }
    } else {
        IoEvents { in_: false, out: false, err: false, hup: true, rdhup: false }
    }
}

/// The readiness of a UDP socket.
pub fn udp_readiness(f: UdpSocketFlags, bound: bool) -> (e: IoEvents)
    ensures
        e == udp_readiness_spec(f, bound),
{
    if !bound {
        return IoEvents::empty();
    }
    let mut events = IoEvents::empty();
    if f.is_open {
        if f.can_recv {
            events.in_ = true;
        }
        if f.can_send {
            events.out = true;
        }
    } else {
        events.hup = true;
    }
    events
}

/// Add `ERR` once a stable terminal state exists.
pub fn terminal_overlay(events: IoEvents, terminal: bool) -> (e: IoEvents)
    ensures
        e == (IoEvents { err: events.err || terminal, ..events }),
{
    let mut e = events;
    if terminal {
        e.err = true;
    }
    e
}

/// The readiness of a listener from its first consumable accept outcome:
/// `Some(true)` is a queued reset (reported once as `IN|ERR`), `Some(false)`
/// an established connection (`IN`), `None` nothing queued.
pub fn listener_readiness(head_is_reset: Option<bool>) -> (e: IoEvents)
    ensures
        e == match head_is_reset {
            Some(reset) => IoEvents { in_: true, err: reset, ..IoEvents::none() },
            None => IoEvents::none(),
        },
{
    let mut events = IoEvents::empty();
    match head_is_reset {
        Some(true) => {
            events.in_ = true;
            events.err = true;
        },
        Some(false) => {
            events.in_ = true;
        },
        None => {},
    }
    events
}

/// A TCP connection's protocol state.
#[derive(Debug, Clone, Copy, PartialEq, Eq, Structural)]
pub enum TcpState {
    Closed,
    Listen,
    SynSent,
    SynReceived,
    Established,
    FinWait1,
    FinWait2,
    CloseWait,
    Closing,
    LastAck,
    TimeWait,
}

/// Which close protocol the runner must still drive.
#[derive(Debug, Clone, Copy, PartialEq, Eq, Structural)]
pub enum CloseKind {
    /// The local side closed first; its FIN awaits the peer's ACK.
    Active,
    /// The peer closed first; the local FIN awaits its ACK.
    LastAck,
}

/// Whether a closing socket still needs protocol progress before its raw
/// handle may be removed: only while its FIN is unacknowledged.
pub fn close_kind(state: TcpState) -> (k: Option<CloseKind>)
    ensures
        k == match state {
            TcpState::FinWait1 | TcpState::Closing => Some(CloseKind::Active),
            TcpState::LastAck => Some(CloseKind::LastAck),
            _ => None::<CloseKind>,
        },
{
    match state {
        TcpState::FinWait1 | TcpState::Closing => Some(CloseKind::Active),
        TcpState::LastAck => Some(CloseKind::LastAck),
        _ => None,
    }
}

/// How a pending connect stands after the protocol state was observed.
#[derive(Debug, Clone, Copy, PartialEq, Eq, Structural)]
pub enum ConnectProgress {
    /// The handshake is still in flight; not writable yet.
    Pending,
    /// Established: the socket becomes connected and writable.
    Connected,
    /// Any other state: the connect failed; the socket becomes closed, a
    /// connection-refused terminal is committed, and the completion is
    /// reported writable.
    Refused,
}

/// Decide a pending connect from the protocol state.
pub fn connect_progress(state: TcpState) -> (p: ConnectProgress)
    ensures
        p == match state {
            TcpState::SynSent => ConnectProgress::Pending,
            TcpState::Established => ConnectProgress::Connected,
            _ => ConnectProgress::Refused,
        },
{
    match state {
        TcpState::SynSent => ConnectProgress::Pending,
        TcpState::Established => ConnectProgress::Connected,
        _ => ConnectProgress::Refused,
    }
}

/// The events a connect poll reports: `OUT` on completion (either way), and
/// `ERR` with it when a terminal state exists after the completion.
pub fn connect_readiness(p: ConnectProgress, terminal: bool) -> (e: IoEvents)
    ensures
        e == (IoEvents {
            out: p != ConnectProgress::Pending,
            err: p != ConnectProgress::Pending && terminal,
            ..IoEvents::none()
        }),
{
    let mut events = IoEvents::empty();
    let writable = match p {
        ConnectProgress::Pending => false,
        _ => true,
    };
    events.out = writable;
    if writable && terminal {
        events.err = true;
    }
    events
}

/// First ephemeral port.
pub const PORT_START: u16 = 0xc000;
/// Last ephemeral port.
pub const PORT_END: u16 = 0xffff;
/// Number of ephemeral ports.
pub open spec fn port_count() -> int {
    0x4000
}

/// The `k`-th port tried by a search starting at `first`, wrapping from
/// the last ephemeral port back to the first.
pub open spec fn port_at(first: u16, k: int) -> u16 {
    (PORT_START + ((first - PORT_START + k) % port_count())) as u16
}

/// Where the next ephemeral-port search starts.
#[derive(Debug)]
pub struct EphemeralPortCursor {
    next: u16,
}

impl EphemeralPortCursor {
    /// The port the next search tries first.
    pub closed spec fn next_spec(&self) -> u16 {
        self.next
    }

    /// The cursor stays inside the ephemeral range.
    pub closed spec fn wf(&self) -> bool {
        self.next >= PORT_START
    }

    /// A cursor at the first ephemeral port.
    pub fn new() -> (c: Self)
        ensures
            c.wf(),
            c.next_spec() == PORT_START,
    {
        EphemeralPortCursor { next: PORT_START }
    }
}

/// Why no ephemeral port was found.
#[derive(Debug, Clone, Copy, PartialEq, Eq, Structural)]
pub enum PortError {
    /// Every ephemeral port is taken.
    AddrInUse,
}

proof fn lemma_mod_step(a: int)
    requires
        a >= 0,
    ensures
        (a + 1) % port_count() == if a % port_count() == port_count() - 1 {
            0
        } else {
            a % port_count() + 1
        },
{
    let q = a / port_count();
    let r = a % port_count();
    vstd::arithmetic::div_mod::lemma_fundamental_div_mod(a, port_count());
    if r == port_count() - 1 {
        vstd::arithmetic::div_mod::lemma_fundamental_div_mod_converse(a + 1, port_count(), q + 1, 0);
    } else {
        vstd::arithmetic::div_mod::lemma_fundamental_div_mod_converse(a + 1, port_count(), q, r + 1);
    }
}

/// Every ephemeral port is tried by a full search, wherever it starts.
pub proof fn lemma_search_covers_range(first: u16, p: u16)
    requires
        first >= PORT_START,
        p >= PORT_START,
    ensures
        exists|k: int| 0 <= k < port_count() && port_at(first, k) == p,
{
    let d: int = first - PORT_START;
    let k: int = if p >= first { p - first } else { p - first + port_count() };
    vstd::arithmetic::div_mod::lemma_fundamental_div_mod_converse(
        d + k,
        port_count(),
        if p >= first { 0 } else { 1 },
        p - PORT_START,
    );
    assert(port_at(first, k) == p);
}

/// Find a free ephemeral port, trying each port of the range at most once,
/// in order from the cursor, wrapping after the last port.
///
/// On success the port is one `can_listen` accepted, every port tried before
/// it was refused, and the cursor is left just after it; when every port was
/// refused the search fails with [`PortError::AddrInUse`].
pub fn get_ephemeral_port<F: Fn(u16) -> bool>(cursor: &mut EphemeralPortCursor, can_listen: &F) -> (r:
    Result<u16, PortError>)
    requires
        old(cursor).wf(),
        forall|p: u16| can_listen.requires((p,)),
    ensures
        final(cursor).wf(),
        r matches Ok(p) ==> {
            &&& p >= PORT_START
            &&& can_listen.ensures((p,), true)
            &&& exists|k: int|
                0 <= k < port_count() && p == #[trigger] port_at(old(cursor).next_spec(), k)
                    && final(cursor).next_spec() == port_at(old(cursor).next_spec(), k + 1)
                    && forall|j: int|
                    0 <= j < k ==> #[trigger] can_listen.ensures(
                        (port_at(old(cursor).next_spec(), j),),
                        false,
                    )
        },
        r is Err ==> r == Err::<u16, PortError>(PortError::AddrInUse) && forall|p: u16|
            p >= PORT_START ==> #[trigger] can_listen.ensures((p,), false),
{
    let ghost first = cursor.next;
    let mut tries: u16 = 0;
    while tries <= PORT_END - PORT_START
        invariant
            first >= PORT_START,
            first == old(cursor).next_spec(),
            tries <= port_count(),
            cursor.wf(),
            cursor.next_spec() == port_at(first, tries as int),
            forall|j: int|
                0 <= j < tries ==> #[trigger] can_listen.ensures((port_at(first, j),), false),
            forall|p: u16| can_listen.requires((p,)),
        decreases port_count() - tries,
    {
        let port = cursor.next;
        assert(port == port_at(first, tries as int));
        proof {
            lemma_mod_step(first - PORT_START + tries);
        }
        if cursor.next == PORT_END {
            cursor.next = PORT_START;
        } else {
            cursor.next = cursor.next + 1;
        }
        assert(cursor.next_spec() == port_at(first, tries + 1));
        if can_listen(port) {
            return Ok(port);
        }
        tries = tries + 1;
    }
    assert forall|p: u16| p >= PORT_START implies #[trigger] can_listen.ensures((p,), false) by {
        lemma_search_covers_range(first, p);
        let k = choose|k: int| 0 <= k < port_count() && port_at(first, k) == p;
        assert(can_listen.ensures((port_at(first, k),), false));
    }
    Err(PortError::AddrInUse)
}

// ── Connect and receive decisions ─────────────────────────────────────

/// Socket operation errors decided here.
#[derive(Debug, Clone, Copy, PartialEq, Eq, Structural)]
pub enum SocketError {
    /// A connect is already in progress.
    InProgress,
    /// The socket is already connected (or otherwise not idle).
    AlreadyConnected,
    /// Nothing to do yet; retry when ready.
    WouldBlock,
    /// The connection was refused.
    ConnectionRefused,
    /// The socket is not bound.
    NotConnected,
    /// The socket's epoch committed a terminal (its code); it is reported
    /// before any other outcome.
    Terminal(u64),
}

/// The decision at the start of a connect: a committed terminal first, then
/// a socket that is not idle refuses with [`connect_busy_error`]'s error;
/// an idle socket proceeds.
pub fn connect_precheck(terminal: Option<u64>, state: SocketState) -> (r: Result<(), SocketError>)
    ensures
        terminal matches Some(c) ==> r == Err::<(), SocketError>(SocketError::Terminal(c)),
        terminal is None && state != SocketState::Idle ==> r == Err::<(), SocketError>(
            if state == SocketState::Connecting {
                SocketError::InProgress
            } else {
                SocketError::AlreadyConnected
            },
        ),
        terminal is None && state == SocketState::Idle ==> r is Ok,
{
    if let Some(c) = terminal {
        return Err(SocketError::Terminal(c));
    }
    if state != SocketState::Idle {
        return Err(connect_busy_error(state));
    }
    Ok(())
}

/// The error of a connect on a socket that is not idle.
pub fn connect_busy_error(state: SocketState) -> (e: SocketError)
    ensures
        e == if state == SocketState::Connecting {
            SocketError::InProgress
        } else {
            SocketError::AlreadyConnected
        },
{
    if state == SocketState::Connecting {
        SocketError::InProgress
    } else {
        SocketError::AlreadyConnected
    }
}

/// The outcome of one wait step of a connect, from the connect poll's events
/// and the socket state after it: a committed terminal comes first; then
/// not writable yet means retry, writable and connected means success,
/// writable otherwise means refused.
pub fn connect_wait_result(terminal: Option<u64>, events: IoEvents, state: SocketState) -> (r:
    Result<(), SocketError>)
    ensures
        terminal matches Some(c) ==> r == Err::<(), SocketError>(SocketError::Terminal(c)),
        terminal is None && !events.out ==> r == Err::<(), SocketError>(SocketError::WouldBlock),
        terminal is None && events.out && state == SocketState::Connected ==> r is Ok,
        terminal is None && events.out && state != SocketState::Connected ==> r == Err::<
            (),
            SocketError,
        >(SocketError::ConnectionRefused),
{
    if let Some(c) = terminal {
        return Err(SocketError::Terminal(c));
    }
    if !events.out {
        Err(SocketError::WouldBlock)
    } else if state == SocketState::Connected {
        Ok(())
    } else {
        Err(SocketError::ConnectionRefused)
    }
}

/// Whether a UDP socket can attempt a receive now: a committed terminal
/// comes first; then it must be bound and have a datagram queued.
pub fn udp_recv_precheck(terminal: Option<u64>, f: UdpSocketFlags) -> (r: Result<
    (),
    SocketError,
>)
    ensures
        terminal matches Some(c) ==> r == Err::<(), SocketError>(SocketError::Terminal(c)),
        terminal is None && !f.is_open ==> r == Err::<(), SocketError>(SocketError::NotConnected),
        terminal is None && f.is_open && !f.can_recv ==> r == Err::<(), SocketError>(
            SocketError::WouldBlock,
        ),
        terminal is None && f.is_open && f.can_recv ==> r is Ok,
{
    if let Some(c) = terminal {
        return Err(SocketError::Terminal(c));
    }
    if !f.is_open {
        Err(SocketError::NotConnected)
    } else if !f.can_recv {
        Err(SocketError::WouldBlock)
    } else {
        Ok(())
    }
}

/// An IP address: IPv4 or IPv6, as its numeric value.
#[derive(Debug, Clone, Copy, PartialEq, Eq, Structural)]
pub enum IpAddr {
    V4(u32),
    V6(u128),
}

/// An IP endpoint.
#[derive(Debug, Clone, Copy, PartialEq, Eq, Structural)]
pub struct IpEndpoint {
    pub addr: IpAddr,
    pub port: u16,
}

/// Whether an address is the unspecified address of its family.
pub open spec fn unspecified(a: IpAddr) -> bool {
    match a {
        IpAddr::V4(v) => v == 0,
        IpAddr::V6(v) => v == 0,
    }
}

/// Whether a datagram from `source` passes the peer filter `expected`: an
/// unspecified expected address or a zero expected port matches anything.
pub open spec fn remote_accepted_spec(expected: IpEndpoint, source: IpEndpoint) -> bool {
    (unspecified(expected.addr) || expected.addr == source.addr) && (expected.port == 0
        || expected.port == source.port)
}

/// Apply the peer filter of a connected UDP socket to a datagram's source.
pub fn remote_accepted(expected: IpEndpoint, source: IpEndpoint) -> (r: bool)
    ensures
        r == remote_accepted_spec(expected, source),
{
    let addr_unspecified = match expected.addr {
        IpAddr::V4(v) => v == 0,
        IpAddr::V6(v) => v == 0,
    };
    let addr_mismatch = !addr_unspecified && expected.addr != source.addr;
    let port_mismatch = expected.port != 0 && expected.port != source.port;
    !(addr_mismatch || port_mismatch)
}

/// The length a UDP receive reports: the whole datagram with the truncate
/// flag, otherwise the bytes written to the destination.
pub fn udp_recv_len(truncate: bool, datagram_len: usize, written: usize) -> (n: usize)
    ensures
        n == if truncate { datagram_len } else { written },
{
    if truncate {
        datagram_len
    } else {
        written
    }
}

/// The local endpoint a connect binds: the bound address, else `source`
/// (the address routing picked for the remote); the bound port, else a free
/// ephemeral port found by [`get_ephemeral_port`] (which moves the cursor).
pub fn connect_local_endpoint<F: Fn(u16) -> bool>(
    addr: Option<IpAddr>,
    port: u16,
    source: IpAddr,
    cursor: &mut EphemeralPortCursor,
    can_listen: &F,
) -> (r: Result<IpEndpoint, PortError>)
    requires
        old(cursor).wf(),
        forall|p: u16| can_listen.requires((p,)),
    ensures
        final(cursor).wf(),
        ({
            let chosen = match addr {
                Some(a) => a,
                None => source,
            };
            &&& port != 0 ==> r == Ok::<IpEndpoint, PortError>(IpEndpoint { addr: chosen, port })
                && final(cursor).next_spec() == old(cursor).next_spec()
            &&& port == 0 ==> (r is Err ==> r == Err::<IpEndpoint, PortError>(PortError::AddrInUse)
                && forall|p: u16| p >= PORT_START ==> #[trigger] can_listen.ensures((p,), false))
            &&& port == 0 ==> (r matches Ok(ep) ==> {
                &&& ep.addr == chosen
                &&& ep.port >= PORT_START
                &&& can_listen.ensures((ep.port,), true)
                &&& exists|k: int|
                    0 <= k < port_count() && ep.port == #[trigger] port_at(
                        old(cursor).next_spec(),
                        k,
                    ) && final(cursor).next_spec() == port_at(old(cursor).next_spec(), k + 1)
                        && forall|j: int|
                        0 <= j < k ==> #[trigger] can_listen.ensures(
                            (port_at(old(cursor).next_spec(), j),),
                            false,
                        )
            })
        }),
{
    let chosen = match addr {
        Some(a) => a,
        None => source,
    };
    if port != 0 {
        return Ok(IpEndpoint { addr: chosen, port });
    }
    match get_ephemeral_port(cursor, can_listen) {
        Ok(p) => Ok(IpEndpoint { addr: chosen, port: p }),
        Err(e) => Err(e),
    }
}

/// The peer policy of one UDP receive attempt.
#[derive(Debug, Clone, Copy, PartialEq, Eq, Structural)]
pub enum ExpectedRemote {
    /// Accept any peer and report its endpoint.
    Any,
    /// Accept only datagrams from this peer (see [`remote_accepted`]).
    Expecting(IpEndpoint),
    /// Accept any peer without reporting it.
    Ignore,
}

/// What one delivered datagram reports.
#[derive(Debug, Clone, Copy, PartialEq, Eq, Structural)]
pub struct Received {
    /// The length reported to the caller.
    pub len: usize,
    /// The peer, when the policy asks for it.
    pub source: Option<IpEndpoint>,
}

/// Deliver a datagram received from `source` into `dst`: a datagram from a
/// peer the policy does not expect is dropped as `WouldBlock` (`dst`
/// untouched); otherwise as much of it as fits is copied to the front of
/// `dst`, and the reported length is [`udp_recv_len`]'s.
pub fn udp_deliver(
    expected: ExpectedRemote,
    source: IpEndpoint,
    datagram: &[u8],
    dst: &mut [u8],
    truncate: bool,
) -> (r: Result<Received, SocketError>)
    ensures
        (expected matches ExpectedRemote::Expecting(e) && !remote_accepted_spec(e, source)) ==> r
            == Err::<Received, SocketError>(SocketError::WouldBlock) && final(dst)@ == old(dst)@,
        !(expected matches ExpectedRemote::Expecting(e) && !remote_accepted_spec(e, source)) ==> ({
            let n = if datagram@.len() <= old(dst)@.len() {
                datagram@.len()
            } else {
                old(dst)@.len()
            };
            &&& final(dst)@ == datagram@.take(n as int) + old(dst)@.skip(n as int)
            &&& r == Ok::<Received, SocketError>(
                Received {
                    len: if truncate {
                        datagram@.len() as usize
                    } else {
                        n as usize
                    },
                    source: if expected is Any {
                        Some(source)
                    } else {
                        None
                    },
                },
            )
        }),
{
    match expected {
        ExpectedRemote::Expecting(e) => {
            if !remote_accepted(e, source) {
                return Err(SocketError::WouldBlock);
            }
        },
        _ => {},
    }
    let n = if datagram.len() <= dst.len() {
        datagram.len()
    } else {
        dst.len()
    };
    let mut i: usize = 0;
    while i < n
        invariant
            i <= n,
            n <= datagram@.len(),
            n <= old(dst)@.len(),
            dst@.len() == old(dst)@.len(),
            forall|k: int| 0 <= k < i ==> dst@[k] == datagram@[k],
            forall|k: int| i <= k < dst@.len() ==> dst@[k] == old(dst)@[k],
        decreases n - i,
    {
        dst[i] = datagram[i];
        i = i + 1;
    }
    assert(dst@ =~= datagram@.take(n as int) + old(dst)@.skip(n as int));
    let source = match expected {
        ExpectedRemote::Any => Some(source),
        _ => None,
    };
    Ok(Received { len: udp_recv_len(truncate, datagram.len(), n), source })
}

/// A connecting or never-used socket never reports stream readiness, and
/// a socket whose peer closed always reports `IN` with `RDHUP`, so a blocked
/// reader wakes to observe EOF.
pub proof fn lemma_tcp_readiness_eof(f: TcpSocketFlags, rx_closed: bool, state: SocketState)
    ensures
        (state == SocketState::Idle || state == SocketState::Connecting) ==> tcp_readiness_spec(
            f,
            rx_closed,
            state,
        ) == IoEvents::none(),
        (state != SocketState::Idle && state != SocketState::Connecting && !f.may_recv) ==> ({
            let e = tcp_readiness_spec(f, rx_closed, state);
            e.in_ && e.rdhup
        }),
        !tcp_readiness_spec(f, rx_closed, state).err,
{
}

/// A stream socket in use reports what its next operations will do: it is
/// readable exactly when data is queued or the peer closed (a `recv` then
/// returns data or EOF without blocking), writable exactly when send space
/// is free, hung up exactly when both directions are closed, and never in
/// error.
pub proof fn lemma_tcp_readiness_matches_io(f: TcpSocketFlags, rx_closed: bool, state: SocketState)
    requires
        state != SocketState::Idle,
        state != SocketState::Connecting,
    ensures
        f.can_recv ==> tcp_readiness_spec(f, rx_closed, state).in_,
        tcp_readiness_spec(f, rx_closed, state).in_ <==> (f.can_recv || !f.may_recv),
        tcp_readiness_spec(f, rx_closed, state).out <==> f.can_send,
        tcp_readiness_spec(f, rx_closed, state).hup <==> (!f.may_recv && !f.may_send),
        (!f.may_recv || rx_closed) ==> tcp_readiness_spec(f, rx_closed, state).rdhup,
        !tcp_readiness_spec(f, rx_closed, state).err,
{
}

/// A bound, open datagram socket is readable exactly when a datagram is
/// queued and writable exactly when send space is free; a bound socket that
/// was shut down reports only a hang-up; an unbound socket reports nothing.
pub proof fn lemma_udp_readiness_matches_io(f: UdpSocketFlags, bound: bool)
    ensures
        bound && f.is_open ==> udp_readiness_spec(f, bound).in_ == f.can_recv,
        bound && f.is_open ==> udp_readiness_spec(f, bound).out == f.can_send,
        bound && f.is_open ==> !udp_readiness_spec(f, bound).hup,
        bound && !f.is_open ==> udp_readiness_spec(f, bound).hup && !udp_readiness_spec(
            f,
            bound,
        ).in_ && !udp_readiness_spec(f, bound).out,
        !bound ==> udp_readiness_spec(f, bound) == IoEvents::none(),
        !udp_readiness_spec(f, bound).err,
{
}

} // verus!
