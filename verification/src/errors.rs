//! The fatal conditions a run can end with. Every error aborts the whole
//! run immediately: there is no local recovery and no continue-on-error
//! mode.

use vstd::prelude::*;

verus! {

/// Why a run failed.
#[derive(Debug)]
pub enum TaskError {
    /// The task configuration is unusable: the hardware address of the wake
    /// target is malformed.
    Config { detail: String },
    /// The wake packet could not be sent.
    WakeSend { detail: String },
    /// A process could not be spawned, or no working directory for it was
    /// available.
    Spawn { detail: String },
    /// A command that had to succeed ended with a failure status: its exit
    /// code when it exited normally, or none when a signal killed it.
    CommandFailed { command: String, exit_code: Option<u32>, std_err: String },
    /// A reachability or session probe exhausted its deadline; for a session
    /// probe, the argument vector last attempted is kept for diagnosis.
    ProbeTimeout { host: String, timeout_secs: u64, last_args: Option<Vec<String>> },
    /// An instruction ended with a failure status; nothing after it runs.
    /// The exit code is the instruction's own when it exited normally, or
    /// none when a signal killed it.
    InstructionFailed { index: usize, command: String, exit_code: Option<u32>, std_err: String },
    /// The host was still answering probes when the shutdown deadline
    /// elapsed.
    ShutdownTimeout { host: String, timeout_secs: u64 },
}

} // verus!
