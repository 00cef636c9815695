//! The synchronous half of the IPC client: request-id allocation, the
//! connection state machine with its backoff schedule, and the checks and
//! framing done before a request or notification is handed to the writer.
//! The socket, the reader and writer loops and the waits live in the
//! application, which drives this state.

use crate::ipc::codec::{Inbound, InboundView, decode, decoded};
use crate::ipc::error::IpcError;
use crate::ipc::message::{IdView, Notification, Request, RequestId, Response, notification_line, request_line};
use crate::ipc::pending::PendingTable;
use crate::text::{decimal, push_decimal, push_str_chars, string_of};
use vstd::prelude::*;

verus! {

/// Lowest id of the interactive range.
pub const INTERACTIVE_ID_MIN: u64 = 0;

/// Highest id of the interactive range.
pub const INTERACTIVE_ID_MAX: u64 = 9999;

/// Lowest id of the session range.
pub const SESSION_ID_MIN: u64 = 10000;

/// Delay before the first retry of a connection, in milliseconds.
pub const CONNECT_BASE_DELAY_MS: u64 = 200;

/// Attempts made by a plain `connect`.
pub const CONNECT_ATTEMPTS: u32 = 3;

/// Attempts made by `reconnect`.
pub const RECONNECT_ATTEMPTS: u32 = 5;

/// Upper bound on the wait for any response, in seconds.
pub const REQUEST_TIMEOUT_SECS: u64 = 30;

/// The lifecycle of the connection.
#[derive(Debug, Clone, Copy, PartialEq, Eq, Structural)]
pub enum ConnectionState {
    /// Not connected to the backend.
    Disconnected,
    /// The first attempt is under way.
    Connecting,
    /// Connected and operational.
    Connected,
    /// Waiting before retry number `attempt`.
    Reconnecting { attempt: u32 },
    /// Every attempt failed.
    Failed,
}

/// What the driver of a connection does next.
#[derive(Debug, Clone, Copy, PartialEq, Eq, Structural)]
pub enum ConnectStep {
    /// Try to open the socket now (attempt `attempt`, counted from zero).
    Attempt { attempt: u32 },
    /// Sleep `delay_ms` milliseconds, then try attempt `attempt`.
    Wait { attempt: u32, delay_ms: u64 },
    /// Stop: every attempt failed.
    GiveUp,
}

/// `2^k`.
pub open spec fn doubling(k: nat) -> nat
    decreases k,
{
    if k == 0 { 1 } else { 2 * doubling((k - 1) as nat) }
}

/// The wait before attempt `k`: none before the first, then
/// `200 ms * 2^(k-1)`.
pub open spec fn connect_delay(k: nat) -> nat {
    if k == 0 { 0 } else { CONNECT_BASE_DELAY_MS as nat * doubling((k - 1) as nat) }
}

/// The wait before attempt `k`, saturated to what a `u64` holds.
pub open spec fn connect_delay_u64(k: nat) -> u64 {
    if connect_delay(k) > u64::MAX { u64::MAX } else { connect_delay(k) as u64 }
}

/// The step that waits the backoff delay before attempt `k`.
pub open spec fn retry_step(k: u32) -> ConnectStep {
    ConnectStep::Wait { attempt: k, delay_ms: connect_delay_u64(k as nat) }
}

/// The state while waiting before attempt `k`.
pub open spec fn reconnecting(k: u32) -> ConnectionState {
    ConnectionState::Reconnecting { attempt: k }
}

/// The number of attempts a connection makes: at least one.
pub open spec fn attempts_for(max_attempts: u32) -> u32 {
    if max_attempts == 0 { 1 } else { max_attempts }
}

/// The interactive id that follows `last`: one more, wrapping back to 1 past
/// the top of the range.
pub open spec fn next_interactive(last: u64) -> u64 {
    if last >= INTERACTIVE_ID_MAX { 1 } else { (last + 1) as u64 }
}

proof fn lemma_doubling_positive(k: nat)
    ensures
        doubling(k) >= 1,
    decreases k,
{
    if k > 0 {
        lemma_doubling_positive((k - 1) as nat);
    }
}

proof fn lemma_doubling_mono(i: nat, j: nat)
    requires
        i <= j,
    ensures
        doubling(i) <= doubling(j),
    decreases j - i,
{
    if i < j {
        lemma_doubling_mono(i, (j - 1) as nat);
        lemma_doubling_positive((j - 1) as nat);
    }
}

/// The wait before attempt `attempt`, in milliseconds.
pub fn connect_delay_ms(attempt: u32) -> (r: u64)
    ensures
        r == connect_delay_u64(attempt as nat),
{
    if attempt == 0 {
        return 0;
    }
    let mut d: u64 = CONNECT_BASE_DELAY_MS;
    let mut i: u32 = 1;
    while i < attempt
        invariant
            1 <= i <= attempt,
            d as nat == CONNECT_BASE_DELAY_MS as nat * doubling((i - 1) as nat),
        decreases attempt - i,
    {
        if d > u64::MAX / 2 {
            proof {
                lemma_doubling_mono(i as nat, (attempt - 1) as nat);
                assert(doubling(i as nat) == 2 * doubling((i - 1) as nat));
                assert(CONNECT_BASE_DELAY_MS as nat * doubling((attempt - 1) as nat) >= CONNECT_BASE_DELAY_MS as nat * doubling(i as nat))
                    by (nonlinear_arith)
                    requires doubling((attempt - 1) as nat) >= doubling(i as nat);
            }
            return u64::MAX;
        }
        proof {
            assert(doubling(i as nat) == 2 * doubling((i - 1) as nat));
        }
        d = d * 2;
        i = i + 1;
    }
    d
}

/// The synchronous state of the client.
pub struct IpcClient {
    request_counter: u64,
    connection_state: ConnectionState,
    connected: bool,
    socket_path: Option<String>,
}

impl IpcClient {
    /// The last interactive id handed out (0 before the first).
    pub closed spec fn last_id(&self) -> u64 {
        self.request_counter
    }

    /// The current connection state.
    pub closed spec fn state(&self) -> ConnectionState {
        self.connection_state
    }

    /// Whether a socket is open for sending.
    pub closed spec fn open(&self) -> bool {
        self.connected
    }

    /// The socket path of the last connection, kept for reconnecting.
    pub closed spec fn path(&self) -> Option<Seq<char>> {
        match self.socket_path {
            Some(p) => Some(p@),
            None => None,
        }
    }

    /// A client that is not connected.
    pub fn new() -> (r: IpcClient)
        ensures
            r.last_id() == INTERACTIVE_ID_MIN,
            r.state() == ConnectionState::Disconnected,
            !r.open(),
            r.path() is None,
    {
        IpcClient {
            request_counter: INTERACTIVE_ID_MIN,
            connection_state: ConnectionState::Disconnected,
            connected: false,
            socket_path: None,
        }
    }

    /// The next id of the interactive range: always within `1..=9999`.
    pub fn next_request_id(&mut self) -> (r: u64)
        ensures
            r == next_interactive(old(self).last_id()),
            INTERACTIVE_ID_MIN < r <= INTERACTIVE_ID_MAX,
            final(self).last_id() == r,
            final(self).state() == old(self).state(),
            final(self).open() == old(self).open(),
            final(self).path() == old(self).path(),
    {
        if self.request_counter >= INTERACTIVE_ID_MAX {
            self.request_counter = INTERACTIVE_ID_MIN + 1;
        } else {
            self.request_counter = self.request_counter + 1;
        }
        self.request_counter
    }

    /// Whether the state is `Connected`.
    pub fn is_connected(&self) -> (r: bool)
        ensures
            r == (self.state() == ConnectionState::Connected),
    {
        self.connection_state == ConnectionState::Connected
    }

    /// The current connection state.
    pub fn connection_state(&self) -> (r: ConnectionState)
        ensures
            r == self.state(),
    {
        self.connection_state
    }

    /// The stored socket path, if any.
    pub fn socket_path(&self) -> (r: Option<String>)
        ensures
            match r {
                Some(p) => self.path() == Some(p@),
                None => self.path() is None,
            },
    {
        match &self.socket_path {
            Some(p) => Some(p.clone()),
            None => None,
        }
    }

    /// Begins connecting to `socket_path`: the state becomes `Connecting` and
    /// the first attempt is made at once, without a wait.
    pub fn start_connect(&mut self, socket_path: &str) -> (r: ConnectStep)
        ensures
            r == (ConnectStep::Attempt { attempt: 0 }),
            final(self).state() == ConnectionState::Connecting,
            final(self).path() == Some(socket_path@),
            final(self).last_id() == old(self).last_id(),
            final(self).open() == old(self).open(),
    {
        self.socket_path = Some(socket_path.to_owned());
        self.connection_state = ConnectionState::Connecting;
        ConnectStep::Attempt { attempt: 0 }
    }

    /// Attempt `attempt` failed. While attempts remain, the state becomes
    /// `Reconnecting` with the next attempt's number and the driver waits the
    /// backoff delay; otherwise the state becomes `Failed`.
    pub fn attempt_failed(&mut self, attempt: u32, max_attempts: u32) -> (r: ConnectStep)
        requires
            attempt < attempts_for(max_attempts),
        ensures
            attempt + 1 < attempts_for(max_attempts) ==> r == retry_step((attempt + 1) as u32),
            attempt + 1 < attempts_for(max_attempts) ==> final(self).state() == reconnecting((attempt + 1) as u32),
            attempt + 1 >= attempts_for(max_attempts) ==> r == ConnectStep::GiveUp,
            attempt + 1 >= attempts_for(max_attempts) ==> final(self).state() == ConnectionState::Failed,
            final(self).last_id() == old(self).last_id(),
            final(self).open() == old(self).open(),
            final(self).path() == old(self).path(),
    {
        let total: u32 = if max_attempts == 0 { 1 } else { max_attempts };
        let next: u32 = attempt + 1;
        if next < total {
            self.connection_state = ConnectionState::Reconnecting { attempt: next };
            ConnectStep::Wait { attempt: next, delay_ms: connect_delay_ms(next) }
        } else {
            self.connection_state = ConnectionState::Failed;
            ConnectStep::GiveUp
        }
    }

    /// The socket opened: the state becomes `Connected`.
    pub fn attempt_succeeded(&mut self)
        ensures
            final(self).state() == ConnectionState::Connected,
            final(self).open(),
            final(self).last_id() == old(self).last_id(),
            final(self).path() == old(self).path(),
    {
        self.connection_state = ConnectionState::Connected;
        self.connected = true;
    }

    /// The connection was closed by the client: the state becomes
    /// `Disconnected`, nothing can be sent, and no request is left pending.
    pub fn disconnect<T>(&mut self, pending: &mut PendingTable<T>)
        ensures
            final(self).state() == ConnectionState::Disconnected,
            !final(self).open(),
            final(pending)@ == Map::<u64, T>::empty(),
            final(self).last_id() == old(self).last_id(),
            final(self).path() == old(self).path(),
    {
        self.connection_state = ConnectionState::Disconnected;
        self.connected = false;
        pending.clear();
    }

    /// Checks that a notification can be awaited: a client that is not
    /// connected fails at once rather than waiting.
    pub fn check_receive(&self) -> (r: Result<(), IpcError>)
        ensures
            !self.open() ==> r matches Err(IpcError::NotConnected),
            self.open() ==> r is Ok,
    {
        if self.connected { Ok(()) } else { Err(IpcError::NotConnected) }
    }

    /// The reader or writer loop ended (end of input or an I/O error): a
    /// connected client becomes `Disconnected`, and sends fail at once
    /// instead of waiting out their timeout. Other states are kept.
    pub fn connection_lost(&mut self)
        ensures
            old(self).state() == ConnectionState::Connected ==> final(self).state() == ConnectionState::Disconnected,
            old(self).state() != ConnectionState::Connected ==> final(self).state() == old(self).state(),
            !final(self).open(),
            final(self).last_id() == old(self).last_id(),
            final(self).path() == old(self).path(),
    {
        if self.connection_state == ConnectionState::Connected {
            self.connection_state = ConnectionState::Disconnected;
        }
        self.connected = false;
    }

    /// Checks and frames a request before it is registered and written. Not
    /// connected: `NotConnected`. A string id: `InternalError`. Otherwise the
    /// numeric id and the framed line.
    pub fn prepare_request(&self, request: &Request) -> (r: Result<(u64, String), IpcError>)
        ensures
            !self.open() ==> r matches Err(IpcError::NotConnected),
            self.open() && request.id is String ==> r matches Err(IpcError::InternalError(_)),
            self.open() && request.id is Number ==> (r matches Ok((id, line))
                && request.id == RequestId::Number(id) && line@ == request_line(*request)),
    {
        if !self.connected {
            return Err(IpcError::NotConnected);
        }
        match &request.id {
            RequestId::Number(n) => Ok((*n, request.encode())),
            RequestId::String(_) => Err(IpcError::InternalError("String IDs not supported yet".to_owned())),
        }
    }

    /// Checks and frames a notification before it is written: one line, no
    /// id, nothing awaited.
    pub fn prepare_notification(&self, notification: &Notification) -> (r: Result<String, IpcError>)
        ensures
            !self.open() ==> r matches Err(IpcError::NotConnected),
            self.open() ==> (r matches Ok(line) && line@ == notification_line(notification@)),
    {
        if !self.connected {
            return Err(IpcError::NotConnected);
        }
        Ok(notification.encode())
    }
}

/// The error of a connection whose every attempt failed.
pub fn connect_failure(max_attempts: u32, last_error: &str) -> (r: IpcError)
    ensures
        r matches IpcError::ConnectionError(m) && m@ == "Failed to connect after "@ + decimal(max_attempts as nat)
            + " attempts. Last error: "@ + last_error@,
{
    let mut out: Vec<char> = Vec::new();
    push_str_chars(&mut out, "Failed to connect after ");
    push_decimal(max_attempts as u64, &mut out);
    push_str_chars(&mut out, " attempts. Last error: ");
    push_str_chars(&mut out, last_error);
    IpcError::ConnectionError(string_of(out.as_slice()))
}

/// Where an inbound message goes.
pub enum Delivery<T> {
    /// To the notification queue.
    Notify(Notification),
    /// To the caller waiting on this acceptor; its entry has been removed.
    Deliver(T, Response),
    /// Nowhere: no request is waiting for this id.
    Unmatched(Response),
}

/// Routes a classified message: a notification to the queue; a response to
/// the acceptor registered for its id, removing that entry; a response for an
/// id that is not live is dropped and changes nothing.
pub fn route<T>(inbound: Inbound, pending: &mut PendingTable<T>) -> (r: Delivery<T>)
    ensures
        inbound matches Inbound::Notify(n) ==> r == Delivery::<T>::Notify(n) && final(pending)@ == old(pending)@,
        inbound matches Inbound::Reply(resp) ==> match resp.id {
            RequestId::Number(id) => if old(pending)@.contains_key(id) {
                r == Delivery::<T>::Deliver(old(pending)@[id], resp) && final(pending)@ == old(pending)@.remove(id)
            } else {
                r == Delivery::<T>::Unmatched(resp) && final(pending)@ == old(pending)@
            },
            RequestId::String(_) => r == Delivery::<T>::Unmatched(resp) && final(pending)@ == old(pending)@,
        },
{
    match inbound {
        Inbound::Notify(n) => Delivery::Notify(n),
        Inbound::Reply(resp) => {
            let id = match &resp.id {
                RequestId::Number(id) => *id,
                RequestId::String(_) => return Delivery::Unmatched(resp),
            };
            match pending.resolve(id) {
                Some(acceptor) => Delivery::Deliver(acceptor, resp),
                None => Delivery::Unmatched(resp),
            }
        },
    }
}

/// What the reader loop does with one line: decode it strictly, then route
/// it. A line that does not decode is an error for that line alone, and the
/// table is unchanged.
pub fn handle_line<T>(line: &str, pending: &mut PendingTable<T>) -> (r: Result<Delivery<T>, IpcError>)
    ensures
        match decoded(line@) {
            None => (r matches Err(IpcError::ParseError(_))) && final(pending)@ == old(pending)@,
            Some(InboundView::Notify(nv)) => (r matches Ok(Delivery::Notify(n)) && n@ == nv) && final(pending)@
                == old(pending)@,
            Some(InboundView::Reply(rv)) => match rv.id {
                IdView::Number(k) => if old(pending)@.contains_key(k) {
                    (r matches Ok(Delivery::Deliver(a, resp)) && a == old(pending)@[k] && resp@ == rv)
                        && final(pending)@ == old(pending)@.remove(k)
                } else {
                    (r matches Ok(Delivery::Unmatched(resp)) && resp@ == rv) && final(pending)@ == old(pending)@
                },
                IdView::Text(_) => (r matches Ok(Delivery::Unmatched(resp)) && resp@ == rv) && final(pending)@
                    == old(pending)@,
            },
        },
{
    let inbound = decode(line)?;
    Ok(route(inbound, pending))
}

/// How the wait for a response ended.
pub enum WaitOutcome {
    /// The reader loop delivered the response.
    Answered(Response),
    /// The acceptor was dropped without an answer.
    Dropped,
    /// The bound on the wait passed first.
    TimedOut,
}

/// Settles a request after its wait: the response when one came; on a
/// timeout the pending entry is removed before the timeout error is
/// returned, so no entry outlives its waiter.
pub fn settle<T>(pending: &mut PendingTable<T>, id: u64, outcome: WaitOutcome) -> (r: Result<Response, IpcError>)
    ensures
        outcome matches WaitOutcome::Answered(resp) ==> r == Ok::<Response, IpcError>(resp) && final(pending)@
            == old(pending)@,
        outcome is Dropped ==> (r matches Err(IpcError::InternalError(_))) && final(pending)@ == old(pending)@,
        outcome is TimedOut ==> (r matches Err(IpcError::Timeout)) && final(pending)@ == old(pending)@.remove(id),
{
    match outcome {
        WaitOutcome::Answered(resp) => Ok(resp),
        WaitOutcome::Dropped => Err(IpcError::InternalError("Response channel closed".to_owned())),
        WaitOutcome::TimedOut => {
            pending.expire(id);
            Err(IpcError::Timeout)
        },
    }
}

} // verus!
