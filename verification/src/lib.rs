//! Orchestration of a remote-host lifecycle: wake a machine over the local
//! network, wait until it is reachable, run an ordered list of local and
//! remote commands, then optionally shut the host down again and confirm
//! that it went offline.
//!
//! The task data model, the remote-command argument builder, the polling
//! rules and the wake/run/shutdown sequencing are verified; the process
//! spawner, the wake-packet sender, the clock and the inter-attempt pause
//! are thin trusted wrappers around outside crates.

pub mod errors;
pub mod orchestrate;
pub mod poll;
pub mod proc;
pub mod remote;
pub mod task;
pub mod trusted;

pub use errors::TaskError;
pub use orchestrate::execute_task;
pub use orchestrate::hardware_address_ok;
pub use orchestrate::parse_hardware_address;
pub use orchestrate::run_instructions;
pub use orchestrate::shutdown;
pub use orchestrate::wake;
pub use poll::first_failure_index;
pub use poll::ping_args;
pub use poll::poll_probe;
pub use poll::poll_recorded;
pub use poll::PollVerdict;
pub use poll::ProbeKind;
pub use proc::run_cmd;
pub use proc::CmdResult;
pub use remote::build_remote_args;
pub use remote::port_string;
pub use remote::run_remote_cmd;
pub use task::default_after_shutdown_cmd;
pub use task::default_after_shutdown_remote;
pub use task::default_after_shutdown_timeout_secs;
pub use task::default_after_validate_shutdown;
pub use task::default_ping_cmd;
pub use task::default_ping_sleep_millis;
pub use task::default_ssh_command;
pub use task::default_wakeup_boot_timeout_secs;
pub use task::default_wakeup_enabled;
pub use task::default_wakeup_validate_ping;
pub use task::default_wakeup_validate_ssh_connection;
pub use task::sample_task;
pub use task::ExecutionSide;
pub use task::ProcessInstruction;
pub use task::ShutdownInstructions;
pub use task::SshInstructions;
pub use task::Task;
pub use task::WakeupInstructions;
