//! The client handle: the one object the host application keeps.
//!
//! Its sole constructor allocates the channel, splits it, launches the
//! helper and confirms the hand-off, atomically from the caller's point
//! of view: either a fully wired handle comes back, owning only the
//! client-side connector, or an error does — nothing partially
//! initialized is ever observable. The listener and the server endpoint
//! are consumed by the launch step and never retained; consuming them by
//! value is what makes retaining them impossible.

use crate::channel::{IPCChannel, IPCConnector, IPCListener};
use crate::decimal::lemma_dec_rep_val;
use crate::envblock::{build_env_block, env_line, EnvVar};
use crate::errors::CrashHelperError;
use crate::launch::{
    build_argv, lemma_digits_nul_free, nul_free, parent_process_id, spawn_intermediate,
    terminate_all, wait_for_intermediate,
};
use vstd::prelude::*;

verus! {

/// Every variable in the block is fit for the trip through a C string.
pub open spec fn all_env_wf(env: Seq<EnvVar>) -> bool {
    forall|i: int| 0 <= i < env.len() ==> (#[trigger] env[i]).wf()
}

/// The long-lived handle returned to the host application. It owns the
/// client-side connector and an alive/absent marker for the helper; the
/// listener and server endpoint were handed to the launch step and are
/// not here.
pub struct CrashHelperClient {
    connector: IPCConnector,
    helper_process: Option<()>,
}

/// The construction sequence replayed over given stage outcomes:
/// `channel` is what transport allocation reported, `spawn` what the
/// spawn primitive reported, `confirmation` what the wait on the
/// intermediate decided. Each stage runs only if the one before it
/// succeeded.
pub struct BootstrapReplay {
    /// Whether the spawn stage was reached, so a child process may exist.
    pub spawn_attempted: bool,
    /// Whether a wait on an intermediate process was attempted.
    pub wait_attempted: bool,
    /// What construction reports.
    pub outcome: Result<(), CrashHelperError>,
}

/// The constructor's decision sequence with the OS stages factored out.
pub open spec fn replay_bootstrap(
    channel: Result<(), i32>,
    spawn: Result<(), i32>,
    confirmation: Result<(), CrashHelperError>,
) -> BootstrapReplay {
    match channel {
        Err(e) => BootstrapReplay {
            spawn_attempted: false,
            wait_attempted: false,
            outcome: Err(CrashHelperError::ChannelCreation(e)),
        },
        Ok(_) => match spawn {
            Err(e) => BootstrapReplay {
                spawn_attempted: true,
                wait_attempted: false,
                outcome: Err(CrashHelperError::Spawn(e)),
            },
            Ok(_) => match confirmation {
                Err(e) => BootstrapReplay { spawn_attempted: true, wait_attempted: true, outcome: Err(e) },
                Ok(_) => BootstrapReplay { spawn_attempted: true, wait_attempted: true, outcome: Ok(()) },
            },
        },
    }
}

/// Law: when transport allocation fails, construction fails with a
/// Channel-Creation error carrying the OS error, and no child process is
/// ever spawned — the spawn stage is not even attempted.
pub proof fn lemma_channel_failure_spawns_nothing(
    e: i32,
    spawn: Result<(), i32>,
    confirmation: Result<(), CrashHelperError>,
)
    ensures
        replay_bootstrap(Err(e), spawn, confirmation) == (BootstrapReplay {
            spawn_attempted: false,
            wait_attempted: false,
            outcome: Err(CrashHelperError::ChannelCreation(e)),
        }),
{
}

/// Law: when the spawn primitive fails, construction fails with a Spawn
/// error carrying the OS error, surfaced immediately — no wait is
/// attempted.
pub proof fn lemma_spawn_failure_waits_nothing(e: i32, confirmation: Result<(), CrashHelperError>)
    ensures
        replay_bootstrap(Ok(()), Err(e), confirmation) == (BootstrapReplay {
            spawn_attempted: true,
            wait_attempted: false,
            outcome: Err(CrashHelperError::Spawn(e)),
        }),
{
}

impl CrashHelperClient {
    /// The client-side connector this handle owns.
    pub closed spec fn spec_connector(&self) -> IPCConnector {
        self.connector
    }

    /// Whether a confirmed helper launch stands behind this handle.
    pub closed spec fn spec_helper_alive(&self) -> bool {
        self.helper_process is Some
    }

    /// A handle is well formed when its connector holds a real descriptor.
    pub open spec fn wf(&self) -> bool {
        self.spec_connector().wf()
    }

    /// Whether a helper launch was confirmed when this handle was built.
    pub fn helper_is_alive(&self) -> (r: bool)
        ensures
            r == self.spec_helper_alive(),
    {
        match self.helper_process {
            Some(_) => true,
            None => false,
        }
    }

    /// The sole constructor: allocates the channel, splits it exactly
    /// once, launches the helper with the listener and server endpoint,
    /// confirms the hand-off, and returns a handle owning only the
    /// client endpoint. On any failure every descriptor allocated so far
    /// is closed before the error is returned, and the error class names
    /// the stage that failed; a Serialization failure cannot arise.
    pub fn new(
        program: &Vec<u8>,
        breakpad_data: &Vec<u8>,
        minidump_path: &Vec<u8>,
        env: &Vec<EnvVar>,
    ) -> (r: Result<CrashHelperClient, CrashHelperError>)
        requires
            nul_free(program@),
            nul_free(breakpad_data@),
            nul_free(minidump_path@),
            all_env_wf(env@),
        ensures
            r matches Ok(c) ==> c.wf() && c.spec_helper_alive(),
            r matches Err(e) ==> !(e is Serialization),
    {
        let channel = match IPCChannel::new() {
            Ok(c) => c,
            Err(e) => return Err(e),
        };
        let (listener, server_endpoint, client_endpoint) = channel.deconstruct();
        match Self::spawn_crash_helper(
            program,
            breakpad_data,
            minidump_path,
            env,
            listener,
            server_endpoint,
        ) {
            Ok(_retries) => Ok(
                CrashHelperClient { connector: client_endpoint, helper_process: Some(()) },
            ),
            Err(e) => {
                client_endpoint.close();
                Err(e)
            },
        }
    }

    /// The launch-request phase: serializes the listener and server
    /// endpoint into tokens, builds the fixed positional argument vector
    /// and the environment block, spawns the intermediate process, and
    /// blocks until it exits, retrying interrupted waits silently. On
    /// success the internal retry count is returned. The listener and
    /// endpoint are consumed and their descriptors closed here on every
    /// path: ownership has transferred to the helper process. Failures
    /// are Spawn, Wait or Launch-Failed errors, by stage.
    pub fn spawn_crash_helper(
        program: &Vec<u8>,
        breakpad_data: &Vec<u8>,
        minidump_path: &Vec<u8>,
        env: &Vec<EnvVar>,
        listener: IPCListener,
        endpoint: IPCConnector,
    ) -> (r: Result<u64, CrashHelperError>)
        requires
            nul_free(program@),
            nul_free(breakpad_data@),
            nul_free(minidump_path@),
            all_env_wf(env@),
            listener.wf(),
            endpoint.wf(),
        ensures
            r matches Err(e) ==> e is Spawn || e is Wait || e is LaunchFailed,
    {
        let parent_pid = parent_process_id();
        let listener_token = listener.serialize();
        let endpoint_token = endpoint.serialize();
        proof {
            lemma_dec_rep_val(listener.raw_fd());
            lemma_dec_rep_val(endpoint.raw_fd());
            lemma_dec_rep_val(parent_pid as int);
            lemma_digits_nul_free(listener_token@);
            lemma_digits_nul_free(endpoint_token@);
        }
        let argv = build_argv(
            program,
            parent_pid,
            breakpad_data,
            minidump_path,
            &listener_token,
            &endpoint_token,
        );
        proof {
            lemma_digits_nul_free(argv@[1]@);
            assert forall|i: int| 0 <= i < argv@.len() implies nul_free(#[trigger] argv@[i]@) by {
                assert(argv@[0]@ == program@);
                assert(argv@[2]@ == breakpad_data@);
                assert(argv@[3]@ == minidump_path@);
                assert(argv@[4]@ == listener_token@);
                assert(argv@[5]@ == endpoint_token@);
            }
        }
        let env_lines = build_env_block(env);
        proof {
            assert forall|i: int| 0 <= i < env_lines@.len() implies nul_free(
                #[trigger] env_lines@[i]@,
            ) by {
                let k = env@[i].key@;
                let v = env@[i].value@;
                assert(env@[i].wf());
                assert(env_lines@[i]@ == env_line(k, v));
                assert forall|j: int| 0 <= j < env_line(k, v).len() implies #[trigger] env_line(
                    k,
                    v,
                )[j] != 0 by {
                    if j < k.len() {
                        assert(env_line(k, v)[j] == k[j]);
                        assert(k[j] != 0);
                    } else if j == k.len() {
                        assert(env_line(k, v)[j] == 61);
                    } else {
                        assert(env_line(k, v)[j] == v[j - k.len() - 1]);
                        assert(v[j - k.len() - 1] != 0);
                    }
                }
            }
        }
        let c_argv = terminate_all(&argv);
        let c_envp = terminate_all(&env_lines);
        let pid = match spawn_intermediate(program, &c_argv, &c_envp) {
            Ok(p) => p,
            Err(e) => {
                listener.close();
                endpoint.close();
                return Err(e);
            },
        };
        listener.close();
        endpoint.close();
        wait_for_intermediate(pid)
    }

    /// Platform pre-flight hook, invoked with the identity of the process
    /// a dump will be requested for. Present uniformly across platforms;
    /// no preparatory work is needed on this one, so it does nothing, and
    /// is therefore idempotent and safe to call in any connector state.
    pub fn prepare_for_minidump(_pid: i32) {
    }
}

} // verus!
