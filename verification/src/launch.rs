//! The process launcher: starts the detached helper and synchronously
//! confirms the hand-off.
//!
//! The OS-level launch creates an intermediate process whose only job is
//! to become the long-lived helper and exit; the launcher blocks on that
//! intermediate. Its exit code is the whole hand-off contract at this
//! layer: zero confirms the launch, anything else refuses it. A wait that
//! is interrupted by a delivered signal is transient and retried
//! silently; it never surfaces as an error.

use crate::decimal::{all_digit_bytes, dec_rep, u32_to_dec};
use crate::errors::CrashHelperError;
use rustix::ffi::CStr;
use vstd::prelude::*;

verus! {

/// A byte sequence that survives the trip through a C string unchanged.
pub open spec fn nul_free(s: Seq<u8>) -> bool {
    forall|i: int| 0 <= i < s.len() ==> #[trigger] s[i] != 0
}

/// A finished C string: one NUL, at the end.
pub open spec fn nul_terminated(s: Seq<u8>) -> bool {
    s.len() > 0 && s.last() == 0 && forall|i: int| 0 <= i < s.len() - 1 ==> #[trigger] s[i] != 0
}

#[verifier::external_type_specification]
#[verifier::external_body]
pub struct ExPosixSpawnFileActions(nix::spawn::PosixSpawnFileActions);

#[verifier::external_type_specification]
#[verifier::external_body]
pub struct ExPosixSpawnAttr(nix::spawn::PosixSpawnAttr);

/// Relies on nix::unistd::getpid: it always succeeds, and a process id is
/// a positive integer.
#[verifier::external_body]
fn getpid_raw() -> (r: i32)
    ensures
        1 <= r,
{
    nix::unistd::getpid().as_raw()
}

/// Relies on nix::spawn::PosixSpawnFileActions::init: allocates a fresh,
/// empty file-actions object, or reports the OS error number.
#[verifier::external_body]
fn spawn_file_actions_init() -> (r: Result<nix::spawn::PosixSpawnFileActions, i32>) {
    match nix::spawn::PosixSpawnFileActions::init() {
        Ok(fa) => Ok(fa),
        Err(e) => Err(e as i32),
    }
}

/// Relies on nix::spawn::PosixSpawnAttr::init: allocates a fresh, default
/// spawn-attributes object, or reports the OS error number.
#[verifier::external_body]
fn spawn_attr_init() -> (r: Result<nix::spawn::PosixSpawnAttr, i32>) {
    match nix::spawn::PosixSpawnAttr::init() {
        Ok(attr) => Ok(attr),
        Err(e) => Err(e as i32),
    }
}

/// Relies on nix::spawn::posix_spawn: creates the intermediate process
/// running `program`, handing it exactly `argv` as its argument vector and
/// exactly `envp` as its environment — the child sees those pairs and no
/// others. On success the child's process id is positive; on failure the
/// OS error number is returned and no process was created.
#[verifier::external_body]
fn posix_spawn_raw(
    program: &Vec<u8>,
    file_actions: &nix::spawn::PosixSpawnFileActions,
    attr: &nix::spawn::PosixSpawnAttr,
    argv: &Vec<Vec<u8>>,
    envp: &Vec<Vec<u8>>,
) -> (r: Result<i32, i32>)
    requires
        forall|i: int| 0 <= i < argv@.len() ==> nul_terminated(#[trigger] argv@[i]@),
        forall|i: int| 0 <= i < envp@.len() ==> nul_terminated(#[trigger] envp@[i]@),
    ensures
        r matches Ok(pid) ==> 1 <= pid,
{
    let args: Vec<&CStr> =
        argv.iter().map(|a| CStr::from_bytes_with_nul(a.as_slice()).unwrap()).collect();
    let envs: Vec<&CStr> =
        envp.iter().map(|e| CStr::from_bytes_with_nul(e.as_slice()).unwrap()).collect();
    let spawned =
        nix::spawn::posix_spawn(program.as_slice(), file_actions, attr, &args, &envs);
    match spawned {
        Ok(pid) => Ok(pid.as_raw()),
        Err(e) => Err(e as i32),
    }
}

/// What one blocking wait on the intermediate process reported.
#[derive(Clone, Copy, Debug, PartialEq, Eq, Structural)]
pub enum WaitOutcome {
    /// The process exited with the given code.
    Exited(i32),
    /// The process was killed by the given signal.
    Signaled(i32),
    /// A signal was delivered to the waiter before the process changed
    /// state; the wait itself did not happen.
    Interrupted,
    /// The OS failed while observing the process; carries the error number.
    Failed(i32),
    /// The OS reported a status this bootstrap never asks for (a stop,
    /// continue or trace event).
    Unexpected,
}

/// Relies on nix::sys::wait::waitpid, called without options: it blocks
/// until the process terminates and reports a clean exit, a death by
/// signal, an interruption of the wait itself (EINTR), or an OS error.
#[verifier::external_body]
fn waitpid_once(pid: i32) -> (r: WaitOutcome)
    requires
        1 <= pid,
{
    match nix::sys::wait::waitpid(nix::unistd::Pid::from_raw(pid), None) {
        Ok(nix::sys::wait::WaitStatus::Exited(_, code)) => WaitOutcome::Exited(code),
        Ok(nix::sys::wait::WaitStatus::Signaled(_, sig, _)) => WaitOutcome::Signaled(sig as i32),
        Ok(_) => WaitOutcome::Unexpected,
        Err(nix::errno::Errno::EINTR) => WaitOutcome::Interrupted,
        Err(e) => WaitOutcome::Failed(e as i32),
    }
}

/// What one wait outcome means for the hand-off.
#[derive(Clone, Copy, Debug, PartialEq, Eq, Structural)]
pub enum WaitStep {
    /// The interruption was transient: wait again, surface nothing.
    Retry,
    /// The intermediate exited cleanly: the hand-off succeeded.
    Confirmed,
    /// The bootstrap failed with the given error.
    Failed(CrashHelperError),
}

/// The exit code this layer records for an intermediate killed by a
/// signal: the conventional 128 plus the signal number.
pub open spec fn signal_exit_code(sig: i32) -> i32 {
    if 0 <= sig <= 126 {
        (128 + sig) as i32
    } else {
        255
    }
}

/// The meaning of one wait outcome. A clean zero exit confirms the
/// hand-off; a nonzero exit is a definitive launch failure carrying that
/// exit code; a death by signal is a launch failure too; an interruption
/// is transient and never an error; an OS failure while observing the
/// intermediate is a Wait error, distinct from a clean nonzero exit.
pub open spec fn classify_wait_spec(o: WaitOutcome) -> WaitStep {
    match o {
        WaitOutcome::Exited(code) => if code == 0 {
            WaitStep::Confirmed
        } else {
            WaitStep::Failed(CrashHelperError::LaunchFailed(code))
        },
        WaitOutcome::Signaled(sig) => WaitStep::Failed(
            CrashHelperError::LaunchFailed(signal_exit_code(sig)),
        ),
        WaitOutcome::Interrupted => WaitStep::Retry,
        WaitOutcome::Failed(errno) => WaitStep::Failed(CrashHelperError::Wait(errno)),
        WaitOutcome::Unexpected => WaitStep::Failed(CrashHelperError::Wait(0)),
    }
}

/// Classifies one wait outcome; the decision is exactly
/// `classify_wait_spec`.
pub fn classify_wait(o: &WaitOutcome) -> (r: WaitStep)
    ensures
        r == classify_wait_spec(*o),
{
    match *o {
        WaitOutcome::Exited(code) => if code == 0 {
            WaitStep::Confirmed
        } else {
            WaitStep::Failed(CrashHelperError::LaunchFailed(code))
        },
        WaitOutcome::Signaled(sig) => {
            let code: i32 = if 0 <= sig && sig <= 126 {
                128 + sig
            } else {
                255
            };
            WaitStep::Failed(CrashHelperError::LaunchFailed(code))
        },
        WaitOutcome::Interrupted => WaitStep::Retry,
        WaitOutcome::Failed(errno) => WaitStep::Failed(CrashHelperError::Wait(errno)),
        WaitOutcome::Unexpected => WaitStep::Failed(CrashHelperError::Wait(0)),
    }
}

/// Law: a nonzero exit of the intermediate is a definitive launch
/// failure, and the reported diagnostic carries exactly that exit code.
pub proof fn lemma_nonzero_exit_is_launch_failure(code: i32)
    requires
        code != 0,
    ensures
        classify_wait_spec(WaitOutcome::Exited(code)) == WaitStep::Failed(
            CrashHelperError::LaunchFailed(code),
        ),
{
}

/// The confirmation logic replayed over a scripted sequence of wait
/// outcomes, with the live OS call factored out: the substitutable form of
/// the launch-confirmation step. Returns what the confirmation decides and
/// how many silent retries it took, or `None` if the script ends while a
/// retry is still owed.
pub open spec fn replay_wait(outcomes: Seq<WaitOutcome>, retries: nat) -> Option<
    (Result<(), CrashHelperError>, nat),
>
    decreases outcomes.len(),
{
    if outcomes.len() == 0 {
        None
    } else {
        match classify_wait_spec(outcomes[0]) {
            WaitStep::Retry => replay_wait(outcomes.drop_first(), retries + 1),
            WaitStep::Confirmed => Some((Ok(()), retries)),
            WaitStep::Failed(e) => Some((Err(e), retries)),
        }
    }
}

/// Law: an interruption is observable only through the retry counter. A
/// wait script beginning with an interruption decides exactly what the
/// rest decides, with one more silent retry — never an error.
pub proof fn lemma_interruption_only_counts(outcomes: Seq<WaitOutcome>, retries: nat)
    ensures
        replay_wait(seq![WaitOutcome::Interrupted] + outcomes, retries) == replay_wait(
            outcomes,
            retries + 1,
        ),
{
    let s = seq![WaitOutcome::Interrupted] + outcomes;
    assert(s[0] == WaitOutcome::Interrupted);
    assert(s.drop_first() =~= outcomes);
}

/// Runs the confirmation logic over a scripted sequence of outcomes, in
/// place of live waits on a real intermediate process.
pub fn replay_wait_outcomes(outcomes: &Vec<WaitOutcome>) -> (r: Option<
    (Result<u64, CrashHelperError>, u64),
>)
    requires
        outcomes@.len() <= u64::MAX,
    ensures
        match r {
            Some((res, k)) => {
                &&& replay_wait(outcomes@, 0) matches Some((mres, mk))
                &&& mk == k as nat
                &&& (res matches Ok(ko) ==> mres is Ok && ko == k)
                &&& (res matches Err(e) ==> mres == Err::<(), CrashHelperError>(e))
            },
            None => replay_wait(outcomes@, 0) is None,
        },
{
    let mut i: usize = 0;
    let mut retries: u64 = 0;
    proof {
        assert(outcomes@.skip(0) =~= outcomes@);
    }
    while i < outcomes.len()
        invariant
            0 <= i <= outcomes@.len(),
            outcomes@.len() <= u64::MAX,
            retries == i,
            replay_wait(outcomes@, 0) == replay_wait(outcomes@.skip(i as int), retries as nat),
        decreases outcomes@.len() - i,
    {
        let o = outcomes[i];
        proof {
            assert(outcomes@.skip(i as int)[0] == outcomes@[i as int]);
            assert(outcomes@.skip(i as int).drop_first() =~= outcomes@.skip(i as int + 1));
        }
        match classify_wait(&o) {
            WaitStep::Retry => {
                i = i + 1;
                retries = retries + 1;
            },
            WaitStep::Confirmed => {
                return Some((Ok(retries), retries));
            },
            WaitStep::Failed(e) => {
                return Some((Err(e), retries));
            },
        }
    }
    proof {
        assert(outcomes@.skip(i as int) =~= Seq::<WaitOutcome>::empty());
    }
    None
}

/// Upper bound on silent retries of an interrupted wait; reaching it is
/// reported as a Wait error.
pub const WAIT_RETRY_LIMIT: u64 = u64::MAX;

const ERRNO_EINTR: i32 = 4;

/// Blocks until the intermediate process terminates, silently retrying
/// interrupted waits, and returns the number of retries it took; an
/// interruption never surfaces. Every failure is a Wait error or a
/// definitive launch failure, never anything from an earlier stage.
pub fn wait_for_intermediate(pid: i32) -> (r: Result<u64, CrashHelperError>)
    requires
        1 <= pid,
    ensures
        r matches Err(e) ==> e is Wait || e is LaunchFailed,
{
    let mut retries: u64 = 0;
    loop
        invariant
            1 <= pid,
        decreases WAIT_RETRY_LIMIT - retries,
    {
        let o = waitpid_once(pid);
        match classify_wait(&o) {
            WaitStep::Retry => {
                if retries == WAIT_RETRY_LIMIT {
                    return Err(CrashHelperError::Wait(ERRNO_EINTR));
                }
                retries = retries + 1;
            },
            WaitStep::Confirmed => {
                return Ok(retries);
            },
            WaitStep::Failed(e) => {
                proof {
                    assert(e is Wait || e is LaunchFailed);
                }
                return Err(e);
            },
        }
    }
}

/// A decimal rendering contains no NUL byte, so it may travel inside a C
/// string.
pub proof fn lemma_digits_nul_free(s: Seq<u8>)
    requires
        all_digit_bytes(s),
    ensures
        nul_free(s),
{
    assert forall|i: int| 0 <= i < s.len() implies #[trigger] s[i] != 0 by {
        assert(crate::decimal::is_digit_byte(s[i]));
    }
}

/// Runtime check that a byte string is NUL-free, so an unverified caller
/// can establish the constructor's precondition before calling it.
pub fn bytes_nul_free(v: &Vec<u8>) -> (r: bool)
    ensures
        r == nul_free(v@),
{
    let mut i: usize = 0;
    while i < v.len()
        invariant
            0 <= i <= v@.len(),
            forall|j: int| 0 <= j < i ==> #[trigger] v@[j] != 0,
        decreases v@.len() - i,
    {
        if v[i] == 0 {
            proof {
                assert(v@[i as int] == 0);
            }
            return false;
        }
        i = i + 1;
    }
    true
}

/// Copies a byte string.
pub fn clone_bytes(v: &Vec<u8>) -> (r: Vec<u8>)
    ensures
        r@ == v@,
{
    let mut out: Vec<u8> = Vec::new();
    out.extend_from_slice(v.as_slice());
    proof {
        assert(out@ =~= v@);
    }
    out
}

/// The fixed, positional argument vector handed to the helper:
/// `[program, parent-pid, metadata, dump-path, listener-token,
/// endpoint-token]`, with the parent process id rendered in decimal.
pub fn build_argv(
    program: &Vec<u8>,
    parent_pid: u32,
    breakpad_data: &Vec<u8>,
    minidump_path: &Vec<u8>,
    listener_token: &Vec<u8>,
    endpoint_token: &Vec<u8>,
) -> (r: Vec<Vec<u8>>)
    ensures
        r@.len() == 6,
        r@[0]@ == program@,
        r@[1]@ == dec_rep(parent_pid as int),
        r@[2]@ == breakpad_data@,
        r@[3]@ == minidump_path@,
        r@[4]@ == listener_token@,
        r@[5]@ == endpoint_token@,
{
    let mut argv: Vec<Vec<u8>> = Vec::new();
    argv.push(clone_bytes(program));
    argv.push(u32_to_dec(parent_pid));
    argv.push(clone_bytes(breakpad_data));
    argv.push(clone_bytes(minidump_path));
    argv.push(clone_bytes(listener_token));
    argv.push(clone_bytes(endpoint_token));
    argv
}

/// Appends to each argument the trailing NUL its C string needs.
pub fn terminate_all(args: &Vec<Vec<u8>>) -> (r: Vec<Vec<u8>>)
    requires
        forall|i: int| 0 <= i < args@.len() ==> nul_free(#[trigger] args@[i]@),
    ensures
        r@.len() == args@.len(),
        forall|i: int| 0 <= i < r@.len() ==> #[trigger] r@[i]@ == args@[i]@.push(0u8),
        forall|i: int| 0 <= i < r@.len() ==> nul_terminated(#[trigger] r@[i]@),
{
    let mut out: Vec<Vec<u8>> = Vec::new();
    let mut i: usize = 0;
    while i < args.len()
        invariant
            0 <= i <= args@.len(),
            out@.len() == i,
            forall|j: int| 0 <= j < args@.len() ==> nul_free(#[trigger] args@[j]@),
            forall|j: int| 0 <= j < i ==> #[trigger] out@[j]@ == args@[j]@.push(0u8),
            forall|j: int| 0 <= j < i ==> nul_terminated(#[trigger] out@[j]@),
        decreases args@.len() - i,
    {
        let mut one = clone_bytes(&args[i]);
        one.push(0);
        proof {
            assert(one@ == args@[i as int]@.push(0u8));
            assert(nul_terminated(one@));
        }
        out.push(one);
        i = i + 1;
    }
    out
}

/// Requests the launch: spawns the intermediate process with the given
/// argument vector and environment block and hands back its process id.
/// Failures at this stage are Spawn errors, surfaced before any wait.
pub fn spawn_intermediate(program: &Vec<u8>, c_argv: &Vec<Vec<u8>>, c_envp: &Vec<Vec<u8>>) -> (r:
    Result<i32, CrashHelperError>)
    requires
        forall|i: int| 0 <= i < c_argv@.len() ==> nul_terminated(#[trigger] c_argv@[i]@),
        forall|i: int| 0 <= i < c_envp@.len() ==> nul_terminated(#[trigger] c_envp@[i]@),
    ensures
        r matches Ok(pid) ==> 1 <= pid,
        r matches Err(e) ==> e is Spawn,
{
    let file_actions = match spawn_file_actions_init() {
        Ok(fa) => fa,
        Err(e) => return Err(CrashHelperError::Spawn(e)),
    };
    let attr = match spawn_attr_init() {
        Ok(a) => a,
        Err(e) => return Err(CrashHelperError::Spawn(e)),
    };
    match posix_spawn_raw(program, &file_actions, &attr, c_argv, c_envp) {
        Ok(pid) => Ok(pid),
        Err(e) => Err(CrashHelperError::Spawn(e)),
    }
}

/// The parent process id handed to the helper so it can supervise the
/// correct target.
pub fn parent_process_id() -> (r: u32)
    ensures
        1 <= r,
{
    let pid = getpid_raw();
    pid as u32
}

} // verus!
