use crash_helper_client::client::CrashHelperClient;
use crash_helper_client::envblock::EnvVar;
use crash_helper_client::errors::CrashHelperError;
use std::io::Write;

fn small_env() -> Vec<EnvVar> {
    vec![
        EnvVar { key: b"PATH".to_vec(), value: b"/usr/bin:/bin".to_vec() },
        EnvVar { key: b"HOME".to_vec(), value: b"/root".to_vec() },
    ]
}

#[test]
fn trivial_program_completes_the_handshake() {
    // The intermediate exits 0 at once without ever opening the channel:
    // hand-off success is defined purely by its exit status, so a fully
    // wired handle comes back.
    let handle = CrashHelperClient::new(
        &b"/bin/true".to_vec(),
        &b"product=Test;version=1.0".to_vec(),
        &b"/tmp/out.dmp".to_vec(),
        &small_env(),
    )
    .expect("a clean zero exit must confirm the hand-off");
    assert!(handle.helper_is_alive());
}

#[test]
fn missing_program_is_a_spawn_error() {
    let r = CrashHelperClient::new(
        &b"/nonexistent/surely/not/here".to_vec(),
        &b"product=Test;version=1.0".to_vec(),
        &b"/tmp/out.dmp".to_vec(),
        &small_env(),
    );
    assert!(matches!(r, Err(CrashHelperError::Spawn(_))));
}

#[test]
fn failing_intermediate_refuses_the_handoff() {
    let r = CrashHelperClient::new(
        &b"/bin/false".to_vec(),
        &b"product=Test;version=1.0".to_vec(),
        &b"/tmp/out.dmp".to_vec(),
        &small_env(),
    );
    assert!(matches!(r, Err(CrashHelperError::LaunchFailed(1))));
}

#[test]
fn intermediate_exit_code_three_is_reported() {
    let mut script = tempfile::NamedTempFile::new().expect("temp file");
    nix::sys::stat::fchmod(
        script.as_file(),
        nix::sys::stat::Mode::from_bits_truncate(0o700),
    )
    .expect("chmod");
    script.write_all(b"#!/bin/sh\nexit 3\n").expect("write script");
    let path = script.into_temp_path();
    let program = path.to_str().expect("utf-8 path").as_bytes().to_vec();
    let r = CrashHelperClient::new(
        &program,
        &b"product=Test;version=1.0".to_vec(),
        &b"/tmp/out.dmp".to_vec(),
        &small_env(),
    );
    match r {
        Err(e) => {
            assert_eq!(e, CrashHelperError::LaunchFailed(3));
            assert_eq!(e.launch_exit_code(), Some(3));
        },
        Ok(_) => panic!("an intermediate exiting 3 must refuse the hand-off"),
    }
}

#[test]
fn preparation_hook_is_callable_any_time() {
    CrashHelperClient::prepare_for_minidump(1);
    CrashHelperClient::prepare_for_minidump(1);
}
