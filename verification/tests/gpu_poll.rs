use wayle::gpu_poll::{gpu_poll_start, gpu_poll_step, GpuPollAction, GpuPollState};

#[test]
fn gpu_poller_opens_lazily_and_reports_a_failure_once() {
    let s = gpu_poll_start();
    assert_eq!(s, GpuPollState { handle_open: false, error_logged: false });
    let (s, a) = gpu_poll_step(s, true, None);
    assert_eq!(a, GpuPollAction::Initialize);
    let (s, a) = gpu_poll_step(s, true, Some(false));
    assert_eq!(a, GpuPollAction::PublishEmpty { warn: true });
    let (s, a) = gpu_poll_step(s, true, None);
    assert_eq!(a, GpuPollAction::Initialize);
    let (s, a) = gpu_poll_step(s, true, Some(false));
    assert_eq!(a, GpuPollAction::PublishEmpty { warn: false });
    let (s, a) = gpu_poll_step(s, true, Some(true));
    assert_eq!(a, GpuPollAction::Collect);
    assert_eq!(s, GpuPollState { handle_open: true, error_logged: false });
    let (s2, a) = gpu_poll_step(s, true, None);
    assert_eq!((s2, a), (s, GpuPollAction::Collect));
}

#[test]
fn gpu_poller_releases_when_unwatched_and_rearms_the_report() {
    let open = GpuPollState { handle_open: true, error_logged: true };
    let (s, a) = gpu_poll_step(open, false, None);
    assert_eq!(a, GpuPollAction::ReleaseAndWait);
    assert_eq!(s, gpu_poll_start());
    let (_, a) = gpu_poll_step(GpuPollState { handle_open: false, error_logged: true }, false, None);
    assert_eq!(a, GpuPollAction::ReleaseAndWait);
    let (s, _) = gpu_poll_step(s, true, None);
    let (_, a) = gpu_poll_step(s, true, Some(false));
    assert_eq!(a, GpuPollAction::PublishEmpty { warn: true });
}
