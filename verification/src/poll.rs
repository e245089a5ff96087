//! The poll scheduler: one poll of a resource as a state machine, driven by
//! its timer, by the control messages of its client and by the outcome of
//! each retrieval.

use vstd::prelude::*;

verus! {

/// The seconds between two polls where no rate is given (IEEE 2030.5).
pub const DEFAULT_POLLRATE: u32 = 900;

/// A control message, which a client sends to all of its polls at once.
#[derive(Clone, Copy, Debug, PartialEq, Eq, Structural)]
pub enum PollTask {
    /// Run now, whatever is left of the wait.
    ForceRun,
    /// End.
    Cancel,
}

/// Where a poll stands.
#[derive(Clone, Copy, Debug, PartialEq, Eq, Structural)]
pub enum PollState {
    /// Waiting for the timer or for a control message.
    Waiting,
    /// The resource is being retrieved.
    Fetching,
    /// The callback is running on the resource that was retrieved.
    Delivering,
    /// The poll has ended.
    Stopped,
}

/// What happens to a poll.
#[derive(Clone, Copy, Debug, PartialEq, Eq, Structural)]
pub enum PollEvent {
    /// The rate has elapsed since the wait began.
    Elapsed,
    /// A control message has arrived.
    Control(PollTask),
    /// The channel of control messages has closed: no client is left to
    /// send one.
    Closed,
    /// The resource was retrieved and deserialized.
    Fetched,
    /// The retrieval failed.
    FetchFailed,
    /// The callback has returned.
    Delivered,
}

/// What a poll does next.
#[derive(Clone, Copy, Debug, PartialEq, Eq, Structural)]
pub enum PollAction {
    /// Wait for the given number of seconds, or for a control message.
    Wait(u64),
    /// Retrieve the resource.
    Get,
    /// Hand the resource to the callback and wait for it to return.
    Deliver,
    /// End the task.
    Stop,
    /// Nothing: the event has no meaning where the poll stands.
    Ignore,
}

/// The state that follows an event.
pub open spec fn next_state(state: PollState, event: PollEvent) -> PollState {
    match (state, event) {
        (PollState::Waiting, PollEvent::Elapsed) => PollState::Fetching,
        (PollState::Waiting, PollEvent::Control(PollTask::ForceRun)) => PollState::Fetching,
        (PollState::Waiting, PollEvent::Control(PollTask::Cancel)) => PollState::Stopped,
        (PollState::Waiting, PollEvent::Closed) => PollState::Stopped,
        (PollState::Fetching, PollEvent::Fetched) => PollState::Delivering,
        (PollState::Fetching, PollEvent::FetchFailed) => PollState::Waiting,
        (PollState::Delivering, PollEvent::Delivered) => PollState::Waiting,
        _ => state,
    }
}

/// What a poll with the given rate does on an event.
pub open spec fn action_on(state: PollState, rate: u32, event: PollEvent) -> PollAction {
    match (state, event) {
        (PollState::Waiting, PollEvent::Elapsed) => PollAction::Get,
        (PollState::Waiting, PollEvent::Control(PollTask::ForceRun)) => PollAction::Get,
        (PollState::Waiting, PollEvent::Control(PollTask::Cancel)) => PollAction::Stop,
        (PollState::Waiting, PollEvent::Closed) => PollAction::Stop,
        (PollState::Fetching, PollEvent::Fetched) => PollAction::Deliver,
        (PollState::Fetching, PollEvent::FetchFailed) => PollAction::Wait(rate as u64),
        (PollState::Delivering, PollEvent::Delivered) => PollAction::Wait(rate as u64),
        (PollState::Stopped, _) => PollAction::Stop,
        _ => PollAction::Ignore,
    }
}

/// The state of a poll after a run of events.
pub open spec fn state_after(state: PollState, events: Seq<PollEvent>) -> PollState
    decreases events.len(),
{
    if events.len() == 0 {
        state
    } else {
        next_state(state_after(state, events.drop_last()), events.last())
    }
}

/// What a poll does on the last of a run of events.
pub open spec fn last_action(state: PollState, rate: u32, events: Seq<PollEvent>) -> PollAction
    recommends
        events.len() > 0,
{
    action_on(state_after(state, events.drop_last()), rate, events.last())
}

/// A registered poll.
#[derive(Debug)]
pub struct Poll {
    /// The path of the resource.
    pub path: String,
    /// The seconds between two polls.
    pub rate: u32,
    pub state: PollState,
}

impl Poll {
    /// A poll of the resource at the given path, waiting for its first run.
    pub fn new(path: String, poll_rate: Option<u32>) -> (poll: Poll)
        ensures
            poll.path@ == path@,
            poll.rate == (match poll_rate {
                Some(rate) => rate,
                None => DEFAULT_POLLRATE,
            }),
            poll.state == PollState::Waiting,
    {
        let rate = match poll_rate {
            Some(rate) => rate,
            None => DEFAULT_POLLRATE,
        };
        Poll { path, rate, state: PollState::Waiting }
    }

    /// What the poll does first: it waits for its rate to elapse, or for a
    /// control message.
    pub fn start(&self) -> (action: PollAction)
        ensures
            action == PollAction::Wait(self.rate as u64),
    {
        PollAction::Wait(self.rate as u64)
    }

    /// Takes an event and says what the poll does next.
    pub fn step(&mut self, event: PollEvent) -> (action: PollAction)
        ensures
            action == action_on(old(self).state, old(self).rate, event),
            final(self).state == next_state(old(self).state, event),
            final(self).rate == old(self).rate,
            final(self).path == old(self).path,
    {
        let action = match (self.state, event) {
            (PollState::Waiting, PollEvent::Elapsed) => PollAction::Get,
            (PollState::Waiting, PollEvent::Control(PollTask::ForceRun)) => PollAction::Get,
            (PollState::Waiting, PollEvent::Control(PollTask::Cancel)) => PollAction::Stop,
            (PollState::Waiting, PollEvent::Closed) => PollAction::Stop,
            (PollState::Fetching, PollEvent::Fetched) => PollAction::Deliver,
            (PollState::Fetching, PollEvent::FetchFailed) => PollAction::Wait(self.rate as u64),
            (PollState::Delivering, PollEvent::Delivered) => PollAction::Wait(self.rate as u64),
            (PollState::Stopped, _) => PollAction::Stop,
            _ => PollAction::Ignore,
        };
        self.state = match action {
            PollAction::Get => PollState::Fetching,
            PollAction::Deliver => PollState::Delivering,
            PollAction::Wait(_) => PollState::Waiting,
            PollAction::Stop => PollState::Stopped,
            PollAction::Ignore => self.state,
        };
        action
    }
}

/// Whether an event makes a waiting poll run: its rate has elapsed, or a
/// run is forced.
pub open spec fn is_due(event: PollEvent) -> bool {
    event == PollEvent::Elapsed || event == PollEvent::Control(PollTask::ForceRun)
}

/// A waiting poll retrieves the resource on the events that make it due and
/// on no other, and until one of them comes it neither retrieves nor
/// delivers: a poll that was registered without a rate first retrieves no
/// earlier than 900 seconds from its start, unless a run is forced.
pub proof fn lemma_waits_until_due(rate: u32, events: Seq<PollEvent>)
    requires
        forall|i: int| 0 <= i < events.len() ==> !is_due(#[trigger] events[i]),
    ensures
        state_after(PollState::Waiting, events) == PollState::Waiting || state_after(
            PollState::Waiting,
            events,
        ) == PollState::Stopped,
        forall|event: PollEvent|
            action_on(PollState::Waiting, rate, event) == PollAction::Get <==> is_due(event),
        forall|n: int|
            0 < n <= events.len() ==> {
                let action = #[trigger] last_action(PollState::Waiting, rate, events.take(n));
                action != PollAction::Get && action != PollAction::Deliver
            },
    decreases events.len(),
{
    if events.len() > 0 {
        let front = events.drop_last();
        lemma_waits_until_due(rate, front);
        assert(!is_due(events[events.len() - 1]));
        assert forall|n: int| 0 < n <= events.len() implies {
            let action = #[trigger] last_action(PollState::Waiting, rate, events.take(n));
            action != PollAction::Get && action != PollAction::Deliver
        } by {
            if n < events.len() {
                assert(events.take(n) == front.take(n));
            } else {
                assert(events.take(n) == events);
            }
        }
    }
}

/// A poll that has stopped stays stopped: whatever comes after, it neither
/// retrieves the resource nor runs its callback.
pub proof fn lemma_stopped_is_final(rate: u32, events: Seq<PollEvent>)
    ensures
        state_after(PollState::Stopped, events) == PollState::Stopped,
        events.len() > 0 ==> last_action(PollState::Stopped, rate, events) == PollAction::Stop,
    decreases events.len(),
{
    if events.len() > 0 {
        lemma_stopped_is_final(rate, events.drop_last());
    }
}

/// Cancellation: a waiting poll that takes the `Cancel` message, or finds
/// the channel closed, stops, and from then on every event is answered with
/// `Stop`: its callback is not run again.
pub proof fn lemma_cancel_ends_poll(rate: u32, end: PollEvent, later: Seq<PollEvent>)
    requires
        end == PollEvent::Control(PollTask::Cancel) || end == PollEvent::Closed,
    ensures
        action_on(PollState::Waiting, rate, end) == PollAction::Stop,
        state_after(next_state(PollState::Waiting, end), later) == PollState::Stopped,
        forall|n: int|
            0 < n <= later.len() ==> #[trigger] last_action(
                next_state(PollState::Waiting, end),
                rate,
                later.take(n),
            ) == PollAction::Stop,
{
    lemma_stopped_is_final(rate, later);
    assert forall|n: int| 0 < n <= later.len() implies #[trigger] last_action(
        next_state(PollState::Waiting, end),
        rate,
        later.take(n),
    ) == PollAction::Stop by {
        lemma_stopped_is_final(rate, later.take(n));
    }
}

/// Force-run: a waiting poll that takes the `ForceRun` message retrieves
/// the resource at once, whatever its rate and however much of the wait is
/// left.
pub proof fn lemma_force_run(rate: u32)
    ensures
        action_on(PollState::Waiting, rate, PollEvent::Control(PollTask::ForceRun))
            == PollAction::Get,
        next_state(PollState::Waiting, PollEvent::Control(PollTask::ForceRun))
            == PollState::Fetching,
{
}

/// Within one poll nothing overlaps: the resource is retrieved only by a
/// poll that waits, and the callback runs only on a retrieval that
/// succeeded.
pub proof fn lemma_sequential(state: PollState, rate: u32, event: PollEvent)
    ensures
        action_on(state, rate, event) == PollAction::Get ==> state == PollState::Waiting,
        action_on(state, rate, event) == PollAction::Deliver ==> state == PollState::Fetching
            && event == PollEvent::Fetched,
        action_on(state, rate, event) == PollAction::Get ==> next_state(state, event)
            == PollState::Fetching,
{
}

} // verus!
