use crash_helper_client::client::CrashHelperClient;
use crash_helper_client::envblock::EnvVar;
use crash_helper_client::errors::CrashHelperError;
use nix::sys::resource::{getrlimit, setrlimit, Resource};

// Stands alone in its own file so the descriptor limit is lowered in a
// process that runs nothing else.
#[test]
fn exhausted_transport_fails_channel_creation() {
    let (soft, hard) = getrlimit(Resource::RLIMIT_NOFILE).expect("read limit");
    setrlimit(Resource::RLIMIT_NOFILE, 3, hard).expect("lower limit");
    let r = CrashHelperClient::new(
        &b"/bin/true".to_vec(),
        &b"product=Test;version=1.0".to_vec(),
        &b"/tmp/out.dmp".to_vec(),
        &vec![EnvVar { key: b"PATH".to_vec(), value: b"/usr/bin:/bin".to_vec() }],
    );
    setrlimit(Resource::RLIMIT_NOFILE, soft, hard).expect("restore limit");
    assert!(matches!(r, Err(CrashHelperError::ChannelCreation(_))));
}
