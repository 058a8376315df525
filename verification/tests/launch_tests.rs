use crash_helper_client::errors::CrashHelperError;
use crash_helper_client::launch::{
    build_argv, bytes_nul_free, classify_wait, parent_process_id, replay_wait_outcomes,
    WaitOutcome, WaitStep,
};

#[test]
fn clean_exit_confirms_handoff() {
    assert_eq!(classify_wait(&WaitOutcome::Exited(0)), WaitStep::Confirmed);
}

#[test]
fn nonzero_exit_carries_its_code() {
    assert_eq!(
        classify_wait(&WaitOutcome::Exited(3)),
        WaitStep::Failed(CrashHelperError::LaunchFailed(3))
    );
}

#[test]
fn interruption_is_never_an_error() {
    assert_eq!(classify_wait(&WaitOutcome::Interrupted), WaitStep::Retry);
}

#[test]
fn os_failure_is_a_wait_error() {
    assert_eq!(
        classify_wait(&WaitOutcome::Failed(5)),
        WaitStep::Failed(CrashHelperError::Wait(5))
    );
}

#[test]
fn signal_death_maps_to_conventional_code() {
    assert_eq!(
        classify_wait(&WaitOutcome::Signaled(9)),
        WaitStep::Failed(CrashHelperError::LaunchFailed(137))
    );
}

#[test]
fn interrupted_then_clean_exit_still_succeeds() {
    // One interruption, then success: the hand-off is confirmed and the
    // interruption is visible only in the retry counter.
    let script = vec![WaitOutcome::Interrupted, WaitOutcome::Exited(0)];
    assert_eq!(replay_wait_outcomes(&script), Some((Ok(1), 1)));
}

#[test]
fn uninterrupted_clean_exit_counts_no_retry() {
    let script = vec![WaitOutcome::Exited(0)];
    assert_eq!(replay_wait_outcomes(&script), Some((Ok(0), 0)));
}

#[test]
fn replay_reports_launch_failure() {
    let script = vec![WaitOutcome::Exited(3)];
    assert_eq!(
        replay_wait_outcomes(&script),
        Some((Err(CrashHelperError::LaunchFailed(3)), 0))
    );
}

#[test]
fn replay_counts_every_interruption() {
    let script = vec![
        WaitOutcome::Interrupted,
        WaitOutcome::Interrupted,
        WaitOutcome::Failed(7),
    ];
    assert_eq!(
        replay_wait_outcomes(&script),
        Some((Err(CrashHelperError::Wait(7)), 2))
    );
}

#[test]
fn replay_of_nothing_decides_nothing() {
    assert_eq!(replay_wait_outcomes(&Vec::new()), None);
}

#[test]
fn argv_layout_is_positional_and_fixed() {
    let argv = build_argv(
        &b"/usr/libexec/crashhelper".to_vec(),
        4242,
        &b"product=Test;version=1.0".to_vec(),
        &b"/tmp/out.dmp".to_vec(),
        &b"11".to_vec(),
        &b"12".to_vec(),
    );
    assert_eq!(argv.len(), 6);
    assert_eq!(argv[0], b"/usr/libexec/crashhelper".to_vec());
    assert_eq!(argv[1], b"4242".to_vec());
    assert_eq!(argv[2], b"product=Test;version=1.0".to_vec());
    assert_eq!(argv[3], b"/tmp/out.dmp".to_vec());
    assert_eq!(argv[4], b"11".to_vec());
    assert_eq!(argv[5], b"12".to_vec());
}

#[test]
fn parent_process_id_is_positive() {
    assert!(parent_process_id() >= 1);
}

#[test]
fn launch_exit_code_reads_only_launch_failures() {
    assert_eq!(CrashHelperError::LaunchFailed(3).launch_exit_code(), Some(3));
    assert_eq!(CrashHelperError::Spawn(2).launch_exit_code(), None);
    assert_eq!(CrashHelperError::Wait(5).launch_exit_code(), None);
    assert_eq!(CrashHelperError::ChannelCreation(24).launch_exit_code(), None);
}

#[test]
fn nul_detection_matches_contents() {
    assert!(bytes_nul_free(&b"/bin/true".to_vec()));
    assert!(bytes_nul_free(&Vec::new()));
    assert!(!bytes_nul_free(&vec![47, 0, 47]));
}
