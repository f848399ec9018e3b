use vstd::prelude::*;

verus! {

/// Seconds the supervisor waits before it scans the devices again.
pub const RETRY_DELAY_SECONDS: u64 = 10;

/// Where the supervisor stands in its connect / run / retry cycle.
#[derive(Clone, Copy, Debug, PartialEq, Eq, Structural)]
pub enum SupervisorState {
    /// Opening the candidate device at this index.
    Trying(usize),
    /// An engine runs on the candidate device at this index.
    Connected(usize),
    /// Waiting out the retry delay.
    Waiting,
}

/// What the program reports back after carrying out an action.
#[derive(Clone, Copy, Debug, PartialEq, Eq, Structural)]
pub enum SupervisorEvent {
    /// The device asked for was opened.
    DeviceOpened,
    /// The device asked for could not be opened.
    DeviceUnreachable,
    /// The engine run ended on a send failure.
    EngineStopped,
    /// The retry delay is over.
    DelayElapsed,
}

/// What the program is to do next.
#[derive(Clone, Copy, Debug, PartialEq, Eq, Structural)]
pub enum SupervisorAction {
    /// Try to open the candidate device at this index.
    TryConnect(usize),
    /// Run an engine on the device just opened (at this index).
    RunEngine(usize),
    /// Wait this many seconds, then report `DelayElapsed`.
    Sleep(u64),
}

/// The start of a scan over `n` candidates: the first candidate, or the
/// retry delay when there is none.
pub open spec fn scan_start(n: usize) -> (SupervisorState, SupervisorAction) {
    if n > 0 {
        (SupervisorState::Trying(0), SupervisorAction::TryConnect(0))
    } else {
        (SupervisorState::Waiting, SupervisorAction::Sleep(RETRY_DELAY_SECONDS))
    }
}

/// The retry delay, after which a new scan starts.
pub open spec fn back_off() -> (SupervisorState, SupervisorAction) {
    (SupervisorState::Waiting, SupervisorAction::Sleep(RETRY_DELAY_SECONDS))
}

/// The supervisor's transitions over `n` candidates, tried in order. An
/// event that does not belong to the state leads to the retry delay.
pub open spec fn transition(state: SupervisorState, event: SupervisorEvent, n: usize) -> (
    SupervisorState,
    SupervisorAction,
) {
    match (state, event) {
        (SupervisorState::Waiting, SupervisorEvent::DelayElapsed) => scan_start(n),
        (SupervisorState::Trying(i), SupervisorEvent::DeviceOpened) => (
            SupervisorState::Connected(i),
            SupervisorAction::RunEngine(i),
        ),
        (SupervisorState::Trying(i), SupervisorEvent::DeviceUnreachable) => if i + 1 < n {
            (SupervisorState::Trying((i + 1) as usize), SupervisorAction::TryConnect((i + 1) as usize))
        } else {
            back_off()
        },
        _ => back_off(),
    }
}

/// The first state and action of a supervisor over `n` candidates.
pub fn start_scan(n: usize) -> (r: (SupervisorState, SupervisorAction))
    ensures
        r == scan_start(n),
{
    if n > 0 {
        (SupervisorState::Trying(0), SupervisorAction::TryConnect(0))
    } else {
        (SupervisorState::Waiting, SupervisorAction::Sleep(RETRY_DELAY_SECONDS))
    }
}

/// The next state and action after `event` in `state`, with `n` candidates.
pub fn next_step(state: SupervisorState, event: SupervisorEvent, n: usize) -> (r: (
    SupervisorState,
    SupervisorAction,
))
    ensures
        r == transition(state, event, n),
{
    match (state, event) {
        (SupervisorState::Waiting, SupervisorEvent::DelayElapsed) => start_scan(n),
        (SupervisorState::Trying(i), SupervisorEvent::DeviceOpened) => (
            SupervisorState::Connected(i),
            SupervisorAction::RunEngine(i),
        ),
        (SupervisorState::Trying(i), SupervisorEvent::DeviceUnreachable) => {
            if i < n && n - i > 1 {
                (SupervisorState::Trying(i + 1), SupervisorAction::TryConnect(i + 1))
            } else {
                (SupervisorState::Waiting, SupervisorAction::Sleep(RETRY_DELAY_SECONDS))
            }
        },
        _ => (SupervisorState::Waiting, SupervisorAction::Sleep(RETRY_DELAY_SECONDS)),
    }
}

/// After an engine run ends on a send failure, the supervisor waits exactly
/// the retry delay and then scans the candidates again from the first.
pub proof fn lemma_reconnect_after_failure(i: usize, n: usize)
    requires
        n > 0,
    ensures
        transition(SupervisorState::Connected(i), SupervisorEvent::EngineStopped, n) == (
            SupervisorState::Waiting,
            SupervisorAction::Sleep(RETRY_DELAY_SECONDS),
        ),
        transition(SupervisorState::Waiting, SupervisorEvent::DelayElapsed, n) == (
            SupervisorState::Trying(0),
            SupervisorAction::TryConnect(0),
        ),
{
}

/// A scan tries the candidates in order, each once: while a candidate is
/// unreachable the next one is tried, and after the last the supervisor
/// waits the retry delay.
pub proof fn lemma_scan_in_order(i: usize, n: usize)
    requires
        i < n,
    ensures
        i + 1 < n ==> transition(SupervisorState::Trying(i), SupervisorEvent::DeviceUnreachable, n)
            == (SupervisorState::Trying((i + 1) as usize), SupervisorAction::TryConnect(
            (i + 1) as usize,
        )),
        i + 1 == n ==> transition(SupervisorState::Trying(i), SupervisorEvent::DeviceUnreachable, n)
            == back_off(),
{
}

} // verus!
