//! The GPU metrics poller's decisions: the driver handle is held only while someone watches
//! the metrics, opened lazily, and a failure to open it is reported once per watch period.
use vstd::prelude::*;

verus! {

/// What the poller holds between steps.
#[derive(Debug, Clone, Copy, PartialEq, Eq, Structural)]
pub struct GpuPollState {
    /// Whether the driver handle is open.
    pub handle_open: bool,
    /// Whether the failure to open the handle has been reported already.
    pub error_logged: bool,
}

/// What the poller does next.
#[derive(Debug, Clone, Copy, PartialEq, Eq, Structural)]
pub enum GpuPollAction {
    /// Drop the handle (if any), wait until someone watches, then restart the tick interval.
    ReleaseAndWait,
    /// Try to open the driver handle, and step again with the outcome.
    Initialize,
    /// Publish empty metrics (reporting the failure first when `warn`), then wait a tick.
    PublishEmpty { warn: bool },
    /// Read and publish the metrics, then wait a tick.
    Collect,
}

/// The state before anything happened: no handle, nothing reported.
pub open spec fn gpu_poll_initial() -> GpuPollState {
    GpuPollState { handle_open: false, error_logged: false }
}

/// One decision of the poller, given whether anyone watches the metrics and, right after an
/// attempt to open the handle, whether it opened:
/// - nobody watches: the handle is dropped and the failure report re-armed;
/// - a handle is open: collect;
/// - no handle and no attempt yet: try to open it;
/// - it opened: collect, and the failure report is re-armed;
/// - it failed: publish empty metrics, reporting the failure only if not reported already.
pub open spec fn gpu_poll_step_spec(state: GpuPollState, watched: bool, init_ok: Option<bool>) -> (
    GpuPollState,
    GpuPollAction,
) {
    if !watched {
        (gpu_poll_initial(), GpuPollAction::ReleaseAndWait)
    } else if state.handle_open {
        (state, GpuPollAction::Collect)
    } else {
        match init_ok {
            None => (state, GpuPollAction::Initialize),
            Some(true) => (GpuPollState { handle_open: true, error_logged: false }, GpuPollAction::Collect),
            Some(false) => (
                GpuPollState { handle_open: false, error_logged: true },
                GpuPollAction::PublishEmpty { warn: !state.error_logged },
            ),
        }
    }
}

/// The initial state (see [`gpu_poll_initial`]).
pub fn gpu_poll_start() -> (r: GpuPollState)
    ensures
        r == gpu_poll_initial(),
{
    GpuPollState { handle_open: false, error_logged: false }
}

/// One step of the poller (see [`gpu_poll_step_spec`]).
pub fn gpu_poll_step(state: GpuPollState, watched: bool, init_ok: Option<bool>) -> (r: (
    GpuPollState,
    GpuPollAction,
))
    ensures
        r == gpu_poll_step_spec(state, watched, init_ok),
{
    if !watched {
        (GpuPollState { handle_open: false, error_logged: false }, GpuPollAction::ReleaseAndWait)
    } else if state.handle_open {
        (state, GpuPollAction::Collect)
    } else {
        match init_ok {
            None => (state, GpuPollAction::Initialize),
            Some(true) => (GpuPollState { handle_open: true, error_logged: false }, GpuPollAction::Collect),
            Some(false) => (
                GpuPollState { handle_open: false, error_logged: true },
                GpuPollAction::PublishEmpty { warn: !state.error_logged },
            ),
        }
    }
}

/// While the metrics stay watched and the handle keeps failing to open, the failure is
/// reported once: after a failed attempt, every later failed attempt publishes empty
/// metrics without reporting.
pub proof fn law_open_failure_reported_once(s: GpuPollState)
    requires
        !s.handle_open,
    ensures
        ({
            let (s1, a1) = gpu_poll_step_spec(s, true, Some(false));
            let (s2, a2) = gpu_poll_step_spec(s1, true, Some(false));
            &&& a1 == GpuPollAction::PublishEmpty { warn: !s.error_logged }
            &&& a2 == GpuPollAction::PublishEmpty { warn: false }
            &&& s2 == s1
        }),
{
}

/// Nobody watching always releases the handle, and a new watch period starts by opening the
/// handle afresh with the failure report re-armed.
pub proof fn law_unwatched_releases(s: GpuPollState)
    ensures
        ({
            let (s1, a1) = gpu_poll_step_spec(s, false, None);
            &&& a1 == GpuPollAction::ReleaseAndWait
            &&& s1 == gpu_poll_initial()
            &&& gpu_poll_step_spec(s1, true, None) == (s1, GpuPollAction::Initialize)
            &&& gpu_poll_step_spec(s1, true, Some(false)).1 == (GpuPollAction::PublishEmpty { warn: true })
        }),
{
}

/// Once the handle is open it is kept, and every watched step collects, until nobody
/// watches.
pub proof fn law_open_handle_collects(s: GpuPollState, init_ok: Option<bool>)
    requires
        s.handle_open,
    ensures
        gpu_poll_step_spec(s, true, init_ok) == (s, GpuPollAction::Collect),
{
}

} // verus!
