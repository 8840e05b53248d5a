//! The task orchestrator and its three stages: wake the host, run the
//! instruction list, shut the host down. The stages run strictly in this
//! order, any stage's error aborts the run immediately, and a disabled
//! stage is a no-op that succeeds without touching the network.

use vstd::prelude::*;

use crate::errors::TaskError;
use crate::poll::poll_probe;
use crate::poll::ProbeKind;
use crate::proc::run_cmd;
use crate::remote::run_remote_cmd;
use crate::task::mac_bytes;
use crate::task::mac_ok;
use crate::task::ProcessInstruction;
use crate::task::ExecutionSide;
use crate::task::SshInstructions;
use crate::task::Task;

verus! {

/// The errors the wake stage can end with, each tied to the inputs that
/// produce it: a malformed hardware address is a configuration error, a
/// packet that could not be sent is a send error, and a probe error can
/// only arise when a validation was requested, naming the host and the
/// boot timeout.
pub open spec fn wake_err_ok(task: Task, e: TaskError) -> bool {
    match e {
        TaskError::Config { .. } => !mac_ok(task.wakeup_instructions.mac@),
        TaskError::WakeSend { .. } => mac_ok(task.wakeup_instructions.mac@),
        TaskError::Spawn { .. } => task.wakeup_instructions.validate_ping
            || task.wakeup_instructions.validate_ssh_connection,
        TaskError::ProbeTimeout { host, timeout_secs, .. } => {
            &&& host@ == task.host@
            &&& timeout_secs == task.wakeup_instructions.boot_timeout_secs
            &&& task.wakeup_instructions.validate_ping
                || task.wakeup_instructions.validate_ssh_connection
        },
        _ => false,
    }
}

/// Wake the target host: parse the configured hardware address, broadcast
/// one wake packet for it, then confirm boot by the requested validations,
/// both of which share the one deadline that starts when the packet is
/// sent. A disabled wake stage does nothing and succeeds.
pub fn wake(task: &Task) -> (r: Result<(), TaskError>)
    ensures
        !task.wakeup_instructions.enabled ==> r is Ok,
        r matches Err(e) ==> task.wakeup_instructions.enabled && wake_err_ok(*task, e),
        task.wakeup_instructions.enabled && !mac_ok(task.wakeup_instructions.mac@) ==> (r
            matches Err(e) && e is Config),
        task.wakeup_instructions.enabled && r is Ok ==> mac_ok(task.wakeup_instructions.mac@),
{
    let i = &task.wakeup_instructions;
    if !i.enabled {
        return Ok(());
    }
    let mac = match parse_hardware_address(&i.mac) {
        Some(m) => m,
        None => {
            return Err(TaskError::Config { detail: i.mac.clone() });
        },
    };
    match crate::trusted::send_wake_packet(&mac) {
        Ok(_) => {},
        Err(detail) => {
            return Err(TaskError::WakeSend { detail });
        },
    }
    let start = std::time::Instant::now();
    if i.validate_ping {
        match poll_probe(
            &ProbeKind::HostUp,
            &task.host,
            &task.ping_cmd,
            &task.ssh,
            &start,
            i.boot_timeout_secs,
            task.ping_sleep_millis,
        ) {
            Ok(_) => {},
            Err(e) => {
                return Err(e);
            },
        }
    }
    if i.validate_ssh_connection {
        match poll_probe(
            &ProbeKind::Session,
            &task.host,
            &task.ping_cmd,
            &task.ssh,
            &start,
            i.boot_timeout_secs,
            task.ping_sleep_millis,
        ) {
            Ok(_) => {},
            Err(e) => {
                return Err(e);
            },
        }
    }
    Ok(())
}

/// Parse a hardware address into its six bytes, exactly as the wake stage
/// does before it addresses the wake packet: a malformed address yields
/// nothing, and a well-formed one yields the bytes its fields denote.
pub fn parse_hardware_address(mac: &String) -> (r: Option<[u8; 6]>)
    ensures
        r is Some <==> mac_ok(mac@),
        r matches Some(b) ==> b@ == mac_bytes(mac@),
{
    crate::trusted::parse_mac(mac)
}

/// Whether a hardware address string is well-formed, as the wake stage
/// will judge it: a malformed address is a configuration error there.
pub fn hardware_address_ok(mac: &String) -> (r: bool)
    ensures
        r == mac_ok(mac@),
{
    parse_hardware_address(mac).is_some()
}

/// Run the instructions strictly in order, each on its configured side.
/// The first instruction that exits with a failure status aborts the whole
/// run at once — nothing after it executes — and the error identifies the
/// failing instruction by position and command.
pub fn run_instructions(
    instructions: &Vec<ProcessInstruction>,
    host: &String,
    ssh: &SshInstructions,
) -> (r: Result<(), TaskError>)
    ensures
        instructions@.len() == 0 ==> r is Ok,
        r matches Err(e) ==> match e {
            TaskError::Spawn { .. } => true,
            TaskError::InstructionFailed { index, command, exit_code, .. } => index
                < instructions@.len() && command@ == instructions@[index as int].command@
                && exit_code != Some(0u32),
            _ => false,
        },
{
    let n = instructions.len();
    let mut idx: usize = 0;
    while idx < n
        invariant
            0 <= idx <= n,
            n == instructions@.len(),
        decreases n - idx,
    {
        let inst = &instructions[idx];
        let attempt = match inst.execution_side {
            ExecutionSide::Local => run_cmd(&inst.command, &inst.args, None, false),
            ExecutionSide::Remote => run_remote_cmd(host, ssh, inst.command.clone(), false),
        };
        match attempt {
            Err(e) => {
                return Err(e);
            },
            Ok(res) => {
                if !res.success {
                    return Err(
                        TaskError::InstructionFailed {
                            index: idx,
                            command: inst.command.clone(),
                            exit_code: res.exit_code,
                            std_err: res.std_err,
                        },
                    );
                }
            },
        }
        idx = idx + 1;
    }
    Ok(())
}

/// Shut the target host down: run the configured shutdown command remotely
/// exactly once — its own exit status is not checked, since a successful
/// shutdown may drop the connection abnormally — then, if requested, wait
/// for the host to stop answering reachability probes within the shutdown
/// timeout. A disabled shutdown stage does nothing and succeeds.
///
/// The validation loop only probes; the shutdown command cannot run a
/// second time whatever the probes report.
pub fn shutdown(task: &Task) -> (r: Result<(), TaskError>)
    ensures
        !task.shutdown_instructions.shutdown_remote ==> r is Ok,
        r matches Err(e) ==> task.shutdown_instructions.shutdown_remote && match e {
            TaskError::Spawn { .. } => true,
            TaskError::ShutdownTimeout { host, timeout_secs } => {
                &&& host@ == task.host@
                &&& timeout_secs == task.shutdown_instructions.shutdown_timeout_secs
                &&& task.shutdown_instructions.validate_shutdown
            },
            _ => false,
        },
{
    let i = &task.shutdown_instructions;
    if !i.shutdown_remote {
        return Ok(());
    }
    match run_remote_cmd(&task.host, &task.ssh, i.shutdown_cmd.clone(), false) {
        Ok(_) => {},
        Err(e) => {
            return Err(e);
        },
    }
    if i.validate_shutdown {
        let start = std::time::Instant::now();
        match poll_probe(
            &ProbeKind::HostDown,
            &task.host,
            &task.ping_cmd,
            &task.ssh,
            &start,
            i.shutdown_timeout_secs,
            task.ping_sleep_millis,
        ) {
            Ok(_) => {},
            Err(TaskError::ProbeTimeout { host, timeout_secs, .. }) => {
                return Err(TaskError::ShutdownTimeout { host, timeout_secs });
            },
            Err(e) => {
                return Err(e);
            },
        }
    }
    Ok(())
}

/// The errors a whole run can end with, each tied to the task fields that
/// allow it.
pub open spec fn task_err_ok(task: Task, e: TaskError) -> bool {
    match e {
        TaskError::Config { .. } => task.wakeup_instructions.enabled && !mac_ok(
            task.wakeup_instructions.mac@,
        ),
        TaskError::WakeSend { .. } => task.wakeup_instructions.enabled && mac_ok(
            task.wakeup_instructions.mac@,
        ),
        TaskError::Spawn { .. } => true,
        TaskError::ProbeTimeout { host, timeout_secs, .. } => {
            &&& task.wakeup_instructions.enabled
            &&& host@ == task.host@
            &&& timeout_secs == task.wakeup_instructions.boot_timeout_secs
            &&& task.wakeup_instructions.validate_ping
                || task.wakeup_instructions.validate_ssh_connection
        },
        TaskError::InstructionFailed { index, command, exit_code, .. } => index
            < task.instructions@.len() && command@ == task.instructions@[index as int].command@
            && exit_code != Some(0u32),
        TaskError::ShutdownTimeout { host, timeout_secs } => {
            &&& task.shutdown_instructions.shutdown_remote
            &&& task.shutdown_instructions.validate_shutdown
            &&& host@ == task.host@
            &&& timeout_secs == task.shutdown_instructions.shutdown_timeout_secs
        },
        TaskError::CommandFailed { .. } => false,
    }
}

/// Run one task: wake, then the instructions, then shutdown, strictly in
/// that sequence. The first stage to fail aborts the run; later stages
/// never start. A task whose stages are all disabled or empty succeeds
/// without doing anything.
pub fn execute_task(task: &Task) -> (r: Result<(), TaskError>)
    ensures
        (!task.wakeup_instructions.enabled && task.instructions@.len() == 0
            && !task.shutdown_instructions.shutdown_remote) ==> r is Ok,
        task.wakeup_instructions.enabled && !mac_ok(task.wakeup_instructions.mac@) ==> (r
            matches Err(e) && e is Config),
        r matches Err(e) ==> task_err_ok(*task, e),
{
    match wake(task) {
        Ok(_) => {},
        Err(e) => {
            return Err(e);
        },
    }
    match run_instructions(&task.instructions, &task.host, &task.ssh) {
        Ok(_) => {},
        Err(e) => {
            return Err(e);
        },
    }
    match shutdown(task) {
        Ok(_) => {},
        Err(e) => {
            return Err(e);
        },
    }
    Ok(())
}

} // verus!
