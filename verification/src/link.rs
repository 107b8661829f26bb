//! The link manager: keeps the node associated with the wireless network.

use vstd::prelude::*;

verus! {

/// Milliseconds the manager waits after a failed connection attempt or a
/// lost link before it tries again.
pub const RETRY_PAUSE_MS: u64 = 5000;

/// The state of the wireless link, as the manager knows it.
#[derive(Clone, Copy, Debug, PartialEq, Eq, Structural)]
pub enum LinkState {
    Disconnected,
    Connecting,
    Connected,
}

/// What the link manager is waiting for.
#[derive(Clone, Copy, Debug, PartialEq, Eq, Structural)]
pub enum LinkPhase {
    /// The controller is being asked whether it has been started.
    Probing,
    /// The credentials are being applied to the controller.
    Configuring,
    /// The controller is being started.
    Starting,
    /// A connection attempt is running.
    Connecting,
    /// The link is up; the manager sleeps until it is lost.
    Connected,
    /// The pause before the next attempt is running.
    BackingOff,
    /// The configuration was refused; the manager has ended.
    Halted,
}

/// What the caller reports back to the link manager.
#[derive(Clone, Copy, Debug, PartialEq, Eq, Structural)]
pub enum LinkEvent {
    /// The controller said whether it has been started.
    IsStarted(bool),
    /// The credentials were applied, or were refused as malformed.
    Configured(bool),
    /// The controller started, or failed to.
    StartFinished(bool),
    /// The connection attempt succeeded, or failed.
    ConnectFinished(bool),
    /// The link was lost.
    LinkLost,
    /// The pause is over.
    Elapsed,
}

/// What the link manager asks its caller to do next.
#[derive(Clone, Copy, Debug, PartialEq, Eq, Structural)]
pub enum LinkAction {
    /// Ask the controller whether it has been started.
    QueryStarted,
    /// Apply the stored credentials to the controller.
    Configure,
    /// Start the controller.
    Start,
    /// Attempt to connect.
    Connect,
    /// Suspend until the link is lost.
    AwaitLinkLoss,
    /// Wait this many milliseconds.
    Pause(u64),
    /// Stop: the manager has ended.
    Halt,
}

/// The link state that goes with a phase.
pub open spec fn link_state_in(phase: LinkPhase) -> LinkState {
    match phase {
        LinkPhase::Connected => LinkState::Connected,
        LinkPhase::Connecting => LinkState::Connecting,
        _ => LinkState::Disconnected,
    }
}

/// The manager's transitions.
///
/// While the link is down the manager makes sure that the controller has been
/// started, configuring and starting it only where it reports that it has
/// not, and then attempts to connect. A failed attempt is followed by the
/// retry pause and a new round. While the link is up the manager sleeps until
/// it is lost, pauses, and begins again. Refused credentials and a controller
/// that does not start end the manager. An event that the phase does not wait
/// for has no transition.
pub open spec fn link_transition(phase: LinkPhase, event: LinkEvent) -> Option<
    (LinkPhase, LinkAction),
> {
    match (phase, event) {
        (LinkPhase::Probing, LinkEvent::IsStarted(true)) => Some(
            (LinkPhase::Connecting, LinkAction::Connect),
        ),
        (LinkPhase::Probing, LinkEvent::IsStarted(false)) => Some(
            (LinkPhase::Configuring, LinkAction::Configure),
        ),
        (LinkPhase::Configuring, LinkEvent::Configured(true)) => Some(
            (LinkPhase::Starting, LinkAction::Start),
        ),
        (LinkPhase::Configuring, LinkEvent::Configured(false)) => Some(
            (LinkPhase::Halted, LinkAction::Halt),
        ),
        (LinkPhase::Starting, LinkEvent::StartFinished(true)) => Some(
            (LinkPhase::Connecting, LinkAction::Connect),
        ),
        (LinkPhase::Starting, LinkEvent::StartFinished(false)) => Some(
            (LinkPhase::Halted, LinkAction::Halt),
        ),
        (LinkPhase::Connecting, LinkEvent::ConnectFinished(true)) => Some(
            (LinkPhase::Connected, LinkAction::AwaitLinkLoss),
        ),
        (LinkPhase::Connecting, LinkEvent::ConnectFinished(false)) => Some(
            (LinkPhase::BackingOff, LinkAction::Pause(RETRY_PAUSE_MS)),
        ),
        (LinkPhase::Connected, LinkEvent::LinkLost) => Some(
            (LinkPhase::BackingOff, LinkAction::Pause(RETRY_PAUSE_MS)),
        ),
        (LinkPhase::BackingOff, LinkEvent::Elapsed) => Some(
            (LinkPhase::Probing, LinkAction::QueryStarted),
        ),
        _ => None,
    }
}

/// The link manager.
#[derive(Clone, Copy, Debug, PartialEq, Eq, Structural)]
pub struct LinkManager {
    pub phase: LinkPhase,
}

impl LinkManager {
    /// Starts the manager with the link down: its first question is whether
    /// the controller has been started.
    pub fn begin() -> (started: (LinkManager, LinkAction))
        ensures
            started.0.phase == LinkPhase::Probing,
            started.1 == LinkAction::QueryStarted,
    {
        (LinkManager { phase: LinkPhase::Probing }, LinkAction::QueryStarted)
    }

    /// The state of the link.
    pub fn link_state(&self) -> (state: LinkState)
        ensures
            state == link_state_in(self.phase),
    {
        match self.phase {
            LinkPhase::Connected => LinkState::Connected,
            LinkPhase::Connecting => LinkState::Connecting,
            _ => LinkState::Disconnected,
        }
    }

    /// Takes the outcome of the last action and says what to do next, or
    /// `None`, changing nothing, where the manager was not waiting for
    /// `event`.
    pub fn step(&mut self, event: LinkEvent) -> (action: Option<LinkAction>)
        ensures
            match link_transition(old(self).phase, event) {
                Some((phase, next)) => final(self).phase == phase && action == Some(next),
                None => action is None && *final(self) == *old(self),
            },
    {
        let (phase, action) = match (self.phase, event) {
            (LinkPhase::Probing, LinkEvent::IsStarted(true)) => (
                LinkPhase::Connecting,
                LinkAction::Connect,
            ),
            (LinkPhase::Probing, LinkEvent::IsStarted(false)) => (
                LinkPhase::Configuring,
                LinkAction::Configure,
            ),
            (LinkPhase::Configuring, LinkEvent::Configured(true)) => (
                LinkPhase::Starting,
                LinkAction::Start,
            ),
            (LinkPhase::Configuring, LinkEvent::Configured(false)) => (
                LinkPhase::Halted,
                LinkAction::Halt,
            ),
            (LinkPhase::Starting, LinkEvent::StartFinished(true)) => (
                LinkPhase::Connecting,
                LinkAction::Connect,
            ),
            (LinkPhase::Starting, LinkEvent::StartFinished(false)) => (
                LinkPhase::Halted,
                LinkAction::Halt,
            ),
            (LinkPhase::Connecting, LinkEvent::ConnectFinished(true)) => (
                LinkPhase::Connected,
                LinkAction::AwaitLinkLoss,
            ),
            (LinkPhase::Connecting, LinkEvent::ConnectFinished(false)) => (
                LinkPhase::BackingOff,
                LinkAction::Pause(RETRY_PAUSE_MS),
            ),
            (LinkPhase::Connected, LinkEvent::LinkLost) => (
                LinkPhase::BackingOff,
                LinkAction::Pause(RETRY_PAUSE_MS),
            ),
            (LinkPhase::BackingOff, LinkEvent::Elapsed) => (
                LinkPhase::Probing,
                LinkAction::QueryStarted,
            ),
            _ => {
                return None;
            },
        };
        self.phase = phase;
        Some(action)
    }
}

/// The phase the manager reaches from `phase` over `events`, and the actions
/// it asks for on the way. Events that a phase does not wait for are skipped.
pub open spec fn link_run(phase: LinkPhase, events: Seq<LinkEvent>) -> (LinkPhase, Seq<LinkAction>)
    decreases events.len(),
{
    if events.len() == 0 {
        (phase, Seq::empty())
    } else {
        let (before, actions) = link_run(phase, events.drop_last());
        match link_transition(before, events.last()) {
            Some((next, action)) => (next, actions.push(action)),
            None => (before, actions),
        }
    }
}

/// `round` repeated `times` times.
pub open spec fn repeated<A>(round: Seq<A>, times: nat) -> Seq<A>
    decreases times,
{
    if times == 0 {
        Seq::empty()
    } else {
        repeated(round, (times - 1) as nat) + round
    }
}

/// What the caller reports in one round of a failing connection, the
/// controller having been started: the failure, the end of the pause, and the
/// controller's answer that it has been started.
pub open spec fn failed_round() -> Seq<LinkEvent> {
    seq![LinkEvent::ConnectFinished(false), LinkEvent::Elapsed, LinkEvent::IsStarted(true)]
}

/// What the manager asks for in such a round: one retry pause, the question
/// to the controller, and the next attempt.
pub open spec fn retry_round() -> Seq<LinkAction> {
    seq![LinkAction::Pause(RETRY_PAUSE_MS), LinkAction::QueryStarted, LinkAction::Connect]
}

/// A run over two stretches of events is the run over the first, continued
/// over the second.
pub proof fn lemma_link_run_splits(phase: LinkPhase, first: Seq<LinkEvent>, second: Seq<LinkEvent>)
    ensures
        link_run(phase, first + second) == (
            link_run(link_run(phase, first).0, second).0,
            link_run(phase, first).1 + link_run(link_run(phase, first).0, second).1,
        ),
    decreases second.len(),
{
    let middle = link_run(phase, first);
    if second.len() == 0 {
        assert(first + second =~= first);
        assert(middle.1 + Seq::<LinkAction>::empty() =~= middle.1);
    } else {
        let whole = first + second;
        assert(whole.drop_last() =~= first + second.drop_last());
        assert(whole.last() == second.last());
        lemma_link_run_splits(phase, first, second.drop_last());
        let before = link_run(middle.0, second.drop_last());
        match link_transition(before.0, second.last()) {
            Some((next, action)) => {
                assert((middle.1 + before.1).push(action) =~= middle.1 + before.1.push(action));
            },
            None => {},
        }
    }
}

/// One round of a failing connection: the manager pauses for exactly the
/// retry pause, asks the controller, and attempts again, without configuring
/// or starting the controller.
pub proof fn lemma_failed_round()
    ensures
        link_run(LinkPhase::Connecting, failed_round()) == (LinkPhase::Connecting, retry_round()),
{
    let events = failed_round();
    let one = events.drop_last().drop_last();
    let two = events.drop_last();
    assert(one.drop_last() =~= Seq::<LinkEvent>::empty());
    assert(link_run(LinkPhase::Connecting, one.drop_last()) == (
        LinkPhase::Connecting,
        Seq::<LinkAction>::empty(),
    ));
    assert(one.last() == LinkEvent::ConnectFinished(false));
    assert(link_run(LinkPhase::Connecting, one) == (
        LinkPhase::BackingOff,
        Seq::<LinkAction>::empty().push(LinkAction::Pause(RETRY_PAUSE_MS)),
    ));
    assert(two.last() == LinkEvent::Elapsed);
    assert(link_run(LinkPhase::Connecting, two).0 == LinkPhase::Probing);
    assert(events.last() == LinkEvent::IsStarted(true));
    assert(link_run(LinkPhase::Connecting, events).1 =~= retry_round());
}

/// The manager never gives up on a failing connection. However often the
/// attempt fails, the manager is attempting again afterwards, and between
/// any two attempts it has asked for exactly one pause of 5000 ms, and has
/// neither configured nor started the controller again.
pub proof fn lemma_retries_forever(failures: nat)
    ensures
        link_run(LinkPhase::Connecting, repeated(failed_round(), failures)) == (
            LinkPhase::Connecting,
            repeated(retry_round(), failures),
        ),
    decreases failures,
{
    if failures > 0 {
        let earlier = (failures - 1) as nat;
        lemma_retries_forever(earlier);
        lemma_link_run_splits(
            LinkPhase::Connecting,
            repeated(failed_round(), earlier),
            failed_round(),
        );
        lemma_failed_round();
    }
}

/// A controller that reports that it has been started is never configured
/// or started again: the manager asks for either only on the report that
/// the controller has not been started, and for a start only once the
/// credentials have been applied.
pub proof fn lemma_started_controller_is_left_alone(phase: LinkPhase, event: LinkEvent)
    ensures
        match link_transition(phase, event) {
            Some((next, action)) => {
                &&& action == LinkAction::Configure ==> phase == LinkPhase::Probing && event
                    == LinkEvent::IsStarted(false)
                &&& action == LinkAction::Start ==> phase == LinkPhase::Configuring && event
                    == LinkEvent::Configured(true)
                &&& event == LinkEvent::IsStarted(true) ==> action == LinkAction::Connect
                &&& action is Pause ==> action == LinkAction::Pause(RETRY_PAUSE_MS)
            },
            None => true,
        },
{
}

/// Only refused credentials or a controller that does not start end the
/// manager; a failed connection and a lost link never do. Once it has ended,
/// the manager takes no further event.
pub proof fn lemma_manager_ends_only_on_refusal(phase: LinkPhase, event: LinkEvent)
    ensures
        match link_transition(phase, event) {
            Some((next, action)) => {
                &&& phase != LinkPhase::Halted
                &&& next == LinkPhase::Halted <==> action == LinkAction::Halt
                &&& next == LinkPhase::Halted <==> event == LinkEvent::Configured(false) || event
                    == LinkEvent::StartFinished(false)
            },
            None => true,
        },
{
}

} // verus!
