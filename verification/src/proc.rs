//! The process runner: spawn a program, capture its output, and report
//! success or failure. The command names the program itself and the
//! argument vector is handed on exactly as given — a command line is never
//! re-tokenized, so an argument that holds spaces survives intact. The
//! spawn itself is a trusted call.

use vstd::prelude::*;

use crate::errors::TaskError;
use crate::trusted::home_dir_string;
use crate::trusted::spawn_capture;

verus! {

/// The outcome of one finished process invocation: whether it ended with an
/// exit code of zero, the exit code itself (absent when a signal killed the
/// process), and what it wrote to its two output streams.
pub struct CmdResult {
    pub success: bool,
    pub exit_code: Option<u32>,
    pub std_out: String,
    pub std_err: String,
}

/// Spawn the program `command` with exactly `args` as its argument vector,
/// in `dir` or, absent that, in the invoking user's home directory, and
/// wait for it to finish.
///
/// When `must_succeed` is set, a process that ends with a failure status is
/// surfaced as an error naming the command and its exit status; otherwise
/// the caller reads the outcome off the returned result.
pub fn run_cmd(command: &String, args: &Vec<String>, dir: Option<&String>, must_succeed: bool) -> (r:
    Result<CmdResult, TaskError>)
    ensures
        must_succeed ==> (r matches Ok(c) ==> c.success),
        r matches Ok(c) ==> (c.success <==> c.exit_code == Some(0u32)),
        r matches Err(e) ==> match e {
            TaskError::Spawn { .. } => true,
            TaskError::CommandFailed { command: failed, exit_code, .. } => must_succeed && failed@
                == command@ && exit_code != Some(0u32),
            _ => false,
        },
{
    let workdir: String = match dir {
        Some(d) => d.clone(),
        None => match home_dir_string() {
            Some(h) => h,
            None => {
                return Err(
                    TaskError::Spawn { detail: "no home directory to run in".to_owned() },
                );
            },
        },
    };
    match spawn_capture(command, args, &workdir) {
        Err(detail) => Err(TaskError::Spawn { detail }),
        Ok(res) => if must_succeed && !res.success {
            Err(
                TaskError::CommandFailed {
                    command: command.clone(),
                    exit_code: res.exit_code,
                    std_err: res.std_err,
                },
            )
        } else {
            Ok(res)
        },
    }
}

} // verus!
