use tokensaver::rtk::{rtk_start_error, run_rtk_step, RtkError, RtkPoll, RtkStep};

fn failed(message: &str) -> RtkError {
    RtkError::Failed(message.to_string())
}

#[test]
fn a_missing_rtk_is_told_from_one_that_does_not_start() {
    assert_eq!(rtk_start_error(true, "no such file"), RtkError::NotFound);
    assert_eq!(
        rtk_start_error(false, "permission denied"),
        failed("Failed to start rtk: permission denied")
    );
}

#[test]
fn an_exited_rtk_is_collected() {
    assert_eq!(
        run_rtk_step(&["gain"], RtkPoll::Exited { success: false }),
        RtkStep::Collect { success: false }
    );
    assert_eq!(
        run_rtk_step(&["gain"], RtkPoll::Exited { success: true }),
        RtkStep::Collect { success: true }
    );
}

#[test]
fn a_running_rtk_is_killed_after_ten_seconds() {
    let args = ["gain", "--history"];
    assert_eq!(
        run_rtk_step(&args, RtkPoll::Running { elapsed_ms: 0 }),
        RtkStep::Sleep { ms: 50 }
    );
    assert_eq!(
        run_rtk_step(&args, RtkPoll::Running { elapsed_ms: 9_999 }),
        RtkStep::Sleep { ms: 50 }
    );
    assert_eq!(
        run_rtk_step(&args, RtkPoll::Running { elapsed_ms: 10_000 }),
        RtkStep::Kill(failed("rtk gain --history timed out after 10s"))
    );
}

#[test]
fn a_failed_wait_gives_up() {
    assert_eq!(
        run_rtk_step(&["gain"], RtkPoll::WaitFailed("interrupted".to_string())),
        RtkStep::Fail(failed("Failed to wait for rtk: interrupted"))
    );
}
