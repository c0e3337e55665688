//! Debouncing the folder watcher: a burst of filesystem events asks for one
//! rescan, once the folders have been quiet for a while.
use vstd::prelude::*;

verus! {

/// How long the folders must stay quiet before a rescan, in milliseconds.
pub const QUIET_MILLIS: u64 = 700;

/// Where the debouncer stands.
#[derive(Debug, Clone, Copy, PartialEq, Eq, Structural)]
pub enum RescanState {
    /// Waiting for the first event of a burst.
    Listening,
    /// Waiting for the folders to stay quiet.
    Quieting,
    /// Sending the rescan request.
    Sending,
    /// The watcher or the window is gone: nothing more happens.
    Stopped,
}

/// What the debouncer learns from the outside.
#[derive(Debug, Clone, Copy, PartialEq, Eq, Structural)]
pub enum RescanInput {
    /// An event arrived: the awaited one, or one found after the quiet wait.
    Event,
    /// After the quiet wait, no event was waiting.
    Empty,
    /// The watcher's channel is closed.
    Closed,
    /// The rescan request was delivered (`true`) or the window is gone.
    Sent(bool),
}

/// What the debouncer asks the outside to do next.
#[derive(Debug, Clone, Copy, PartialEq, Eq, Structural)]
pub enum RescanAction {
    /// Wait for the next event.
    AwaitEvent,
    /// Take every event already waiting, wait `QUIET_MILLIS`, then look
    /// for one more.
    DrainThenWait,
    /// Ask the window for a rescan.
    SendRescan,
    /// Do nothing more.
    Stop,
}

/// What a state waits for, asked again when an input it does not await
/// arrives.
pub open spec fn awaited(state: RescanState) -> RescanAction {
    match state {
        RescanState::Listening => RescanAction::AwaitEvent,
        RescanState::Quieting => RescanAction::DrainThenWait,
        RescanState::Sending => RescanAction::SendRescan,
        RescanState::Stopped => RescanAction::Stop,
    }
}

/// One step of the debouncer: a closed channel, or a request the window no
/// longer takes, stops it; the first event of a burst starts the quiet
/// wait, and every event during it starts the wait again; a quiet wait
/// sends one rescan, after which it listens for the next burst. An input a
/// state does not await leaves it as it is.
pub open spec fn rescan_step(state: RescanState, input: RescanInput) -> (RescanState, RescanAction) {
    match (state, input) {
        (RescanState::Stopped, _) => (RescanState::Stopped, RescanAction::Stop),
        (_, RescanInput::Closed) => (RescanState::Stopped, RescanAction::Stop),
        (RescanState::Listening, RescanInput::Event) => (
            RescanState::Quieting,
            RescanAction::DrainThenWait,
        ),
        (RescanState::Quieting, RescanInput::Event) => (
            RescanState::Quieting,
            RescanAction::DrainThenWait,
        ),
        (RescanState::Quieting, RescanInput::Empty) => (
            RescanState::Sending,
            RescanAction::SendRescan,
        ),
        (RescanState::Sending, RescanInput::Sent(true)) => (
            RescanState::Listening,
            RescanAction::AwaitEvent,
        ),
        (RescanState::Sending, RescanInput::Sent(false)) => (
            RescanState::Stopped,
            RescanAction::Stop,
        ),
        _ => (state, awaited(state)),
    }
}

/// The debouncer's next state and action after `input` in `state`.
pub fn next_rescan_step(state: RescanState, input: RescanInput) -> (r: (RescanState, RescanAction))
    ensures
        r == rescan_step(state, input),
{
    match (state, input) {
        (RescanState::Stopped, _) => (RescanState::Stopped, RescanAction::Stop),
        (_, RescanInput::Closed) => (RescanState::Stopped, RescanAction::Stop),
        (RescanState::Listening, RescanInput::Event) => (
            RescanState::Quieting,
            RescanAction::DrainThenWait,
        ),
        (RescanState::Quieting, RescanInput::Event) => (
            RescanState::Quieting,
            RescanAction::DrainThenWait,
        ),
        (RescanState::Quieting, RescanInput::Empty) => (
            RescanState::Sending,
            RescanAction::SendRescan,
        ),
        (RescanState::Sending, RescanInput::Sent(true)) => (
            RescanState::Listening,
            RescanAction::AwaitEvent,
        ),
        (RescanState::Sending, RescanInput::Sent(false)) => (
            RescanState::Stopped,
            RescanAction::Stop,
        ),
        _ => {
            let action = match state {
                RescanState::Listening => RescanAction::AwaitEvent,
                RescanState::Quieting => RescanAction::DrainThenWait,
                RescanState::Sending => RescanAction::SendRescan,
                RescanState::Stopped => RescanAction::Stop,
            };
            (state, action)
        },
    }
}

/// A burst of any length asks for exactly one rescan: from listening, its
/// first event and every later one keep the debouncer quieting, and only
/// the quiet wait that finds nothing sends the request.
pub proof fn law_a_burst_asks_for_one_rescan()
    ensures
        rescan_step(RescanState::Listening, RescanInput::Event) == (
            RescanState::Quieting,
            RescanAction::DrainThenWait,
        ),
        rescan_step(RescanState::Quieting, RescanInput::Event) == (
            RescanState::Quieting,
            RescanAction::DrainThenWait,
        ),
        rescan_step(RescanState::Quieting, RescanInput::Empty) == (
            RescanState::Sending,
            RescanAction::SendRescan,
        ),
        rescan_step(RescanState::Sending, RescanInput::Sent(true)) == (
            RescanState::Listening,
            RescanAction::AwaitEvent,
        ),
{
}

/// Once stopped, the debouncer stays stopped and does nothing.
pub proof fn law_stopped_stays_stopped(input: RescanInput)
    ensures
        rescan_step(RescanState::Stopped, input) == (RescanState::Stopped, RescanAction::Stop),
{
}

} // verus!
