//! The reporter: sends the latest reading to the collector, again and again.

use crate::bounded::{show_within, TextOverflow};
use crate::decimal::{append_decimal, decimal_chars};
use crate::reading::Reading;
use crate::store::SharedReading;
use vstd::prelude::*;
use vstd::string::StringExecFns;
use vstd::utf8::encode_utf8;

verus! {

/// Milliseconds between two looks at the link, and at the address.
pub const READINESS_POLL_MS: u64 = 500;

/// Milliseconds the reporter waits before each connection attempt.
pub const CONNECT_PAUSE_MS: u64 = 1000;

/// Milliseconds the reporter waits once an exchange with the collector has
/// ended, before it turns to the next attempt.
pub const COOL_DOWN_MS: u64 = 60000;

/// Milliseconds after which a socket operation is given up.
pub const SOCKET_TIMEOUT_MS: u64 = 10000;

/// Bytes of each of the socket's two buffers.
pub const SOCKET_BUFFER: usize = 4096;

/// Bytes that a request may take.
pub const REQUEST_CAPACITY: usize = 256;

/// Bytes read of a response at a time.
pub const RESPONSE_CAPACITY: usize = 1024;

/// An IPv4 address, by its four octets in the order in which they are written.
#[derive(Clone, Copy, Debug, PartialEq, Eq, Structural)]
pub struct Address {
    pub first: u8,
    pub second: u8,
    pub third: u8,
    pub fourth: u8,
}

/// An IPv4 address and a TCP port.
#[derive(Clone, Copy, Debug, PartialEq, Eq, Structural)]
pub struct Endpoint {
    pub address: Address,
    pub port: u16,
}

/// Where the collector listens.
pub open spec fn collector_endpoint() -> Endpoint {
    Endpoint { address: Address { first: 192, second: 168, third: 0, fourth: 110 }, port: 5000 }
}

/// An address in dotted decimal notation.
pub open spec fn dotted_chars(address: Address) -> Seq<char> {
    decimal_chars(address.first as nat) + "."@ + decimal_chars(address.second as nat) + "."@
        + decimal_chars(address.third as nat) + "."@ + decimal_chars(address.fourth as nat)
}

/// The request that carries a reading: a `GET` of `/append` with the two
/// numbers as query parameters, HTTP/1.0, and a `Host` header.
pub open spec fn request_chars(
    temperature: Seq<char>,
    humidity: Seq<char>,
    host: Seq<char>,
) -> Seq<char> {
    "GET /append?temperature="@ + temperature + "&humidity="@ + humidity
        + " HTTP/1.0\r\nHost: "@ + host + "\r\n\r\n"@
}

/// The collector's endpoint.
pub fn collector() -> (endpoint: Endpoint)
    ensures
        endpoint == collector_endpoint(),
{
    Endpoint { address: Address { first: 192, second: 168, third: 0, fourth: 110 }, port: 5000 }
}

impl Endpoint {
    /// The address as it stands in a `Host` header.
    pub fn host_text(&self) -> (text: String)
        ensures
            text@ == dotted_chars(self.address),
    {
        let mut text = String::new();
        append_decimal(&mut text, self.address.first as u128);
        text.append(".");
        append_decimal(&mut text, self.address.second as u128);
        text.append(".");
        append_decimal(&mut text, self.address.third as u128);
        text.append(".");
        append_decimal(&mut text, self.address.fourth as u128);
        assert(text@ =~= dotted_chars(self.address));
        text
    }
}

/// Formats the request for the two numbers of a reading, each already
/// written as text, through the request buffer. The request is an error
/// where it does not fit into the buffer.
pub fn request_text(temperature: &str, humidity: &str, host: &str) -> (result: Result<
    String,
    TextOverflow,
>)
    ensures
        result is Ok <==> encode_utf8(request_chars(temperature@, humidity@, host@)).len()
            <= REQUEST_CAPACITY,
        result is Ok ==> result.unwrap()@ == request_chars(temperature@, humidity@, host@),
{
    let mut text = String::from_str("GET /append?temperature=");
    text.append(temperature);
    text.append("&humidity=");
    text.append(humidity);
    text.append(" HTTP/1.0\r\nHost: ");
    text.append(host);
    text.append("\r\n\r\n");
    match show_within(text.as_str(), REQUEST_CAPACITY) {
        Some(shown) => Ok(shown),
        None => Err(TextOverflow),
    }
}

/// What the reporter is waiting for.
#[derive(Clone, Copy, Debug, PartialEq, Eq, Structural)]
pub enum ReporterPhase {
    /// The stack is being asked whether the link is up.
    ProbingLink,
    /// The pause before the next look at the link is running.
    AwaitingLink,
    /// The stack is being asked whether it has an address.
    ProbingAddress,
    /// The pause before the next look at the address is running.
    AwaitingAddress,
    /// The pause before a connection attempt is running.
    Pausing,
    /// A connection attempt is running.
    Connecting,
    /// A request is being written.
    Sending,
    /// A response is being read.
    Receiving,
    /// The pause after an exchange is running.
    CoolingDown,
}

/// How a read from the collector ended.
#[derive(Clone, Copy, Debug, PartialEq, Eq, Structural)]
pub enum ReadOutcome {
    /// This many bytes arrived; none, where the collector closed the connection.
    Received(usize),
    /// The read failed.
    Failed,
}

/// What the caller reports back to the reporter.
#[derive(Clone, Copy, Debug, PartialEq, Eq, Structural)]
pub enum ReporterEvent {
    /// The stack said whether the link is up.
    LinkUp(bool),
    /// The stack said whether it has an address.
    AddressAssigned(bool),
    /// The pause is over.
    Elapsed,
    /// The connection attempt succeeded, or failed.
    ConnectFinished(bool),
    /// The request was written in full, or the write failed.
    WriteFinished(bool),
    /// The read ended.
    ReadFinished(ReadOutcome),
}

/// What the reporter asks its caller to do next.
#[derive(Clone, Copy, Debug, PartialEq, Eq, Structural)]
pub enum ReporterAction {
    /// Ask the stack whether the link is up.
    QueryLink,
    /// Ask the stack whether it has an address.
    QueryAddress,
    /// Wait this many milliseconds.
    Pause(u64),
    /// Open a connection to the endpoint, every socket operation timing out
    /// after the given milliseconds.
    Connect { endpoint: Endpoint, timeout_ms: u64 },
    /// Write the request for this reading.
    Transmit(Reading),
    /// Read a response.
    Receive,
    /// Give the connection up, then wait this many milliseconds.
    Abandon(u64),
}

/// The reporter's transitions. `stored` is the reading in the store at the
/// moment of the event.
///
/// The reporter first polls until the link is up, then until the stack has
/// an address. From then on it pauses, attempts to connect, and after a
/// failed attempt pauses again. On an open connection it writes the request
/// for the stored reading and reads a response, over and over without
/// delay, until a write or a read fails or a read brings no bytes; then it
/// gives the connection up and cools down before the next pause and attempt.
/// An event that the phase does not wait for has no transition.
pub open spec fn reporter_transition(
    phase: ReporterPhase,
    event: ReporterEvent,
    stored: Reading,
) -> Option<(ReporterPhase, ReporterAction)> {
    match (phase, event) {
        (ReporterPhase::ProbingLink, ReporterEvent::LinkUp(true)) => Some(
            (ReporterPhase::ProbingAddress, ReporterAction::QueryAddress),
        ),
        (ReporterPhase::ProbingLink, ReporterEvent::LinkUp(false)) => Some(
            (ReporterPhase::AwaitingLink, ReporterAction::Pause(READINESS_POLL_MS)),
        ),
        (ReporterPhase::AwaitingLink, ReporterEvent::Elapsed) => Some(
            (ReporterPhase::ProbingLink, ReporterAction::QueryLink),
        ),
        (ReporterPhase::ProbingAddress, ReporterEvent::AddressAssigned(true)) => Some(
            (ReporterPhase::Pausing, ReporterAction::Pause(CONNECT_PAUSE_MS)),
        ),
        (ReporterPhase::ProbingAddress, ReporterEvent::AddressAssigned(false)) => Some(
            (ReporterPhase::AwaitingAddress, ReporterAction::Pause(READINESS_POLL_MS)),
        ),
        (ReporterPhase::AwaitingAddress, ReporterEvent::Elapsed) => Some(
            (ReporterPhase::ProbingAddress, ReporterAction::QueryAddress),
        ),
        (ReporterPhase::Pausing, ReporterEvent::Elapsed) => Some(
            (
                ReporterPhase::Connecting,
                ReporterAction::Connect {
                    endpoint: collector_endpoint(),
                    timeout_ms: SOCKET_TIMEOUT_MS,
                },
            ),
        ),
        (ReporterPhase::Connecting, ReporterEvent::ConnectFinished(true)) => Some(
            (ReporterPhase::Sending, ReporterAction::Transmit(stored)),
        ),
        (ReporterPhase::Connecting, ReporterEvent::ConnectFinished(false)) => Some(
            (ReporterPhase::Pausing, ReporterAction::Pause(CONNECT_PAUSE_MS)),
        ),
        (ReporterPhase::Sending, ReporterEvent::WriteFinished(true)) => Some(
            (ReporterPhase::Receiving, ReporterAction::Receive),
        ),
        (ReporterPhase::Sending, ReporterEvent::WriteFinished(false)) => Some(
            (ReporterPhase::CoolingDown, ReporterAction::Abandon(COOL_DOWN_MS)),
        ),
        (ReporterPhase::Receiving, ReporterEvent::ReadFinished(ReadOutcome::Received(count))) => {
            if count > 0 {
                Some((ReporterPhase::Sending, ReporterAction::Transmit(stored)))
            } else {
                Some((ReporterPhase::CoolingDown, ReporterAction::Abandon(COOL_DOWN_MS)))
            }
        },
        (ReporterPhase::Receiving, ReporterEvent::ReadFinished(ReadOutcome::Failed)) => Some(
            (ReporterPhase::CoolingDown, ReporterAction::Abandon(COOL_DOWN_MS)),
        ),
        (ReporterPhase::CoolingDown, ReporterEvent::Elapsed) => Some(
            (ReporterPhase::Pausing, ReporterAction::Pause(CONNECT_PAUSE_MS)),
        ),
        _ => None,
    }
}

/// The reporter.
#[derive(Clone, Copy, Debug, PartialEq, Eq, Structural)]
pub struct Reporter {
    pub phase: ReporterPhase,
}

impl Reporter {
    /// Starts the reporter: its first question is whether the link is up.
    pub fn begin() -> (started: (Reporter, ReporterAction))
        ensures
            started.0.phase == ReporterPhase::ProbingLink,
            started.1 == ReporterAction::QueryLink,
    {
        (Reporter { phase: ReporterPhase::ProbingLink }, ReporterAction::QueryLink)
    }

    /// Takes the outcome of the last action and says what to do next, or
    /// `None`, changing nothing, where the reporter was not waiting for
    /// `event`. The store is read for each request, right before it is
    /// written.
    pub fn step(&mut self, event: ReporterEvent, store: &SharedReading) -> (action: Option<
        ReporterAction,
    >)
        ensures
            match reporter_transition(old(self).phase, event, store@) {
                Some((phase, next)) => final(self).phase == phase && action == Some(next),
                None => action is None && *final(self) == *old(self),
            },
    {
        let (phase, action) = match (self.phase, event) {
            (ReporterPhase::ProbingLink, ReporterEvent::LinkUp(true)) => (
                ReporterPhase::ProbingAddress,
                ReporterAction::QueryAddress,
            ),
            (ReporterPhase::ProbingLink, ReporterEvent::LinkUp(false)) => (
                ReporterPhase::AwaitingLink,
                ReporterAction::Pause(READINESS_POLL_MS),
            ),
            (ReporterPhase::AwaitingLink, ReporterEvent::Elapsed) => (
                ReporterPhase::ProbingLink,
                ReporterAction::QueryLink,
            ),
            (ReporterPhase::ProbingAddress, ReporterEvent::AddressAssigned(true)) => (
                ReporterPhase::Pausing,
                ReporterAction::Pause(CONNECT_PAUSE_MS),
            ),
            (ReporterPhase::ProbingAddress, ReporterEvent::AddressAssigned(false)) => (
                ReporterPhase::AwaitingAddress,
                ReporterAction::Pause(READINESS_POLL_MS),
            ),
            (ReporterPhase::AwaitingAddress, ReporterEvent::Elapsed) => (
                ReporterPhase::ProbingAddress,
                ReporterAction::QueryAddress,
            ),
            (ReporterPhase::Pausing, ReporterEvent::Elapsed) => (
                ReporterPhase::Connecting,
                ReporterAction::Connect { endpoint: collector(), timeout_ms: SOCKET_TIMEOUT_MS },
            ),
            (ReporterPhase::Connecting, ReporterEvent::ConnectFinished(true)) => (
                ReporterPhase::Sending,
                ReporterAction::Transmit(store.get()),
            ),
            (ReporterPhase::Connecting, ReporterEvent::ConnectFinished(false)) => (
                ReporterPhase::Pausing,
                ReporterAction::Pause(CONNECT_PAUSE_MS),
            ),
            (ReporterPhase::Sending, ReporterEvent::WriteFinished(true)) => (
                ReporterPhase::Receiving,
                ReporterAction::Receive,
            ),
            (ReporterPhase::Sending, ReporterEvent::WriteFinished(false)) => (
                ReporterPhase::CoolingDown,
                ReporterAction::Abandon(COOL_DOWN_MS),
            ),
            (
                ReporterPhase::Receiving,
                ReporterEvent::ReadFinished(ReadOutcome::Received(count)),
            ) => {
                if count > 0 {
                    (ReporterPhase::Sending, ReporterAction::Transmit(store.get()))
                } else {
                    (ReporterPhase::CoolingDown, ReporterAction::Abandon(COOL_DOWN_MS))
                }
            },
            (ReporterPhase::Receiving, ReporterEvent::ReadFinished(ReadOutcome::Failed)) => (
                ReporterPhase::CoolingDown,
                ReporterAction::Abandon(COOL_DOWN_MS),
            ),
            (ReporterPhase::CoolingDown, ReporterEvent::Elapsed) => (
                ReporterPhase::Pausing,
                ReporterAction::Pause(CONNECT_PAUSE_MS),
            ),
            _ => {
                return None;
            },
        };
        self.phase = phase;
        Some(action)
    }
}

/// Whether the event is a read that brought at least one byte.
pub open spec fn brought_bytes(event: ReporterEvent) -> bool {
    match event {
        ReporterEvent::ReadFinished(ReadOutcome::Received(count)) => count > 0,
        _ => false,
    }
}

/// Whether an open connection goes with the phase.
pub open spec fn in_exchange(phase: ReporterPhase) -> bool {
    phase == ReporterPhase::Sending || phase == ReporterPhase::Receiving
}

/// The phase the reporter reaches from `phase` over `events`, each with the
/// reading stored at its moment, and the actions it asks for on the way.
/// Events that a phase does not wait for are skipped.
pub open spec fn reporter_run(phase: ReporterPhase, events: Seq<(ReporterEvent, Reading)>) -> (
    ReporterPhase,
    Seq<ReporterAction>,
)
    decreases events.len(),
{
    if events.len() == 0 {
        (phase, Seq::empty())
    } else {
        let (before, actions) = reporter_run(phase, events.drop_last());
        match reporter_transition(before, events.last().0, events.last().1) {
            Some((next, action)) => (next, actions.push(action)),
            None => (before, actions),
        }
    }
}

/// The run over no events.
pub proof fn lemma_reporter_run_empty(phase: ReporterPhase)
    ensures
        reporter_run(phase, Seq::empty()) == (phase, Seq::<ReporterAction>::empty()),
{
}

/// The run over events and one more is the run over the events, continued
/// by the transition on the last.
pub proof fn lemma_reporter_run_push(
    phase: ReporterPhase,
    events: Seq<(ReporterEvent, Reading)>,
    event: ReporterEvent,
    stored: Reading,
)
    ensures
        reporter_run(phase, events.push((event, stored))) == match reporter_transition(
            reporter_run(phase, events).0,
            event,
            stored,
        ) {
            Some((next, action)) => (next, reporter_run(phase, events).1.push(action)),
            None => reporter_run(phase, events),
        },
{
    let longer = events.push((event, stored));
    assert(longer.drop_last() =~= events);
    assert(longer.last() == (event, stored));
}

/// An exchange begins only on an open connection. The reporter asks for a
/// write only after a connection attempt that succeeded or a read that
/// brought bytes, and for a read only after a write that succeeded; and it
/// is in an exchange afterwards only then.
pub proof fn lemma_exchange_needs_connection(
    phase: ReporterPhase,
    event: ReporterEvent,
    stored: Reading,
)
    ensures
        match reporter_transition(phase, event, stored) {
            Some((next, action)) => {
                &&& action is Transmit ==> action == ReporterAction::Transmit(stored) && ({
                    ||| phase == ReporterPhase::Connecting && event
                        == ReporterEvent::ConnectFinished(true)
                    ||| phase == ReporterPhase::Receiving && brought_bytes(event)
                })
                &&& action == ReporterAction::Receive ==> phase == ReporterPhase::Sending && event
                    == ReporterEvent::WriteFinished(true)
                &&& in_exchange(next) <==> action is Transmit || action == ReporterAction::Receive
                &&& in_exchange(phase) && !in_exchange(next) ==> action == ReporterAction::Abandon(
                    COOL_DOWN_MS,
                )
            },
            None => true,
        },
{
}

/// A failed connection attempt enters no exchange: the reporter pauses for
/// the connect pause and attempts again, and asks for nothing else.
pub proof fn lemma_failed_connect_is_retried(first: Reading, second: Reading)
    ensures
        reporter_run(
            ReporterPhase::Connecting,
            seq![(ReporterEvent::ConnectFinished(false), first), (ReporterEvent::Elapsed, second)],
        ) == (
            ReporterPhase::Connecting,
            seq![
                ReporterAction::Pause(CONNECT_PAUSE_MS),
                ReporterAction::Connect {
                    endpoint: collector_endpoint(),
                    timeout_ms: SOCKET_TIMEOUT_MS,
                },
            ],
        ),
{
    let none = Seq::<(ReporterEvent, Reading)>::empty();
    let one = none.push((ReporterEvent::ConnectFinished(false), first));
    let two = one.push((ReporterEvent::Elapsed, second));
    lemma_reporter_run_empty(ReporterPhase::Connecting);
    lemma_reporter_run_push(
        ReporterPhase::Connecting,
        none,
        ReporterEvent::ConnectFinished(false),
        first,
    );
    lemma_reporter_run_push(ReporterPhase::Connecting, one, ReporterEvent::Elapsed, second);
    assert(two =~= seq![
        (ReporterEvent::ConnectFinished(false), first),
        (ReporterEvent::Elapsed, second),
    ]);
    assert(reporter_run(ReporterPhase::Connecting, two).1 =~= seq![
        ReporterAction::Pause(CONNECT_PAUSE_MS),
        ReporterAction::Connect { endpoint: collector_endpoint(), timeout_ms: SOCKET_TIMEOUT_MS },
    ]);
}

/// A write that fails on a fresh connection ends the exchange: the reporter
/// gives the connection up and waits the whole cool-down, then the connect
/// pause, before its next attempt. `stored` holds the readings in the store
/// at the four events.
pub proof fn lemma_failed_write_cools_down(stored: Seq<Reading>)
    requires
        stored.len() == 4,
    ensures
        reporter_run(
            ReporterPhase::Connecting,
            seq![
                (ReporterEvent::ConnectFinished(true), stored[0]),
                (ReporterEvent::WriteFinished(false), stored[1]),
                (ReporterEvent::Elapsed, stored[2]),
                (ReporterEvent::Elapsed, stored[3]),
            ],
        ) == (
            ReporterPhase::Connecting,
            seq![
                ReporterAction::Transmit(stored[0]),
                ReporterAction::Abandon(COOL_DOWN_MS),
                ReporterAction::Pause(CONNECT_PAUSE_MS),
                ReporterAction::Connect {
                    endpoint: collector_endpoint(),
                    timeout_ms: SOCKET_TIMEOUT_MS,
                },
            ],
        ),
{
    let start = ReporterPhase::Connecting;
    let none = Seq::<(ReporterEvent, Reading)>::empty();
    let one = none.push((ReporterEvent::ConnectFinished(true), stored[0]));
    let two = one.push((ReporterEvent::WriteFinished(false), stored[1]));
    let three = two.push((ReporterEvent::Elapsed, stored[2]));
    let four = three.push((ReporterEvent::Elapsed, stored[3]));
    lemma_reporter_run_empty(start);
    lemma_reporter_run_push(start, none, ReporterEvent::ConnectFinished(true), stored[0]);
    lemma_reporter_run_push(start, one, ReporterEvent::WriteFinished(false), stored[1]);
    lemma_reporter_run_push(start, two, ReporterEvent::Elapsed, stored[2]);
    lemma_reporter_run_push(start, three, ReporterEvent::Elapsed, stored[3]);
    assert(four =~= seq![
        (ReporterEvent::ConnectFinished(true), stored[0]),
        (ReporterEvent::WriteFinished(false), stored[1]),
        (ReporterEvent::Elapsed, stored[2]),
        (ReporterEvent::Elapsed, stored[3]),
    ]);
    assert(reporter_run(start, four).1 =~= seq![
        ReporterAction::Transmit(stored[0]),
        ReporterAction::Abandon(COOL_DOWN_MS),
        ReporterAction::Pause(CONNECT_PAUSE_MS),
        ReporterAction::Connect { endpoint: collector_endpoint(), timeout_ms: SOCKET_TIMEOUT_MS },
    ]);
}

} // verus!
