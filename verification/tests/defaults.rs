use wakenrun::default_after_shutdown_cmd;
use wakenrun::default_after_shutdown_remote;
use wakenrun::default_after_shutdown_timeout_secs;
use wakenrun::default_after_validate_shutdown;
use wakenrun::default_ping_cmd;
use wakenrun::default_ping_sleep_millis;
use wakenrun::default_ssh_command;
use wakenrun::default_wakeup_boot_timeout_secs;
use wakenrun::default_wakeup_enabled;
use wakenrun::default_wakeup_validate_ping;
use wakenrun::default_wakeup_validate_ssh_connection;
use wakenrun::sample_task;
use wakenrun::ExecutionSide;
use wakenrun::ShutdownInstructions;
use wakenrun::SshInstructions;
use wakenrun::Task;
use wakenrun::WakeupInstructions;

#[test]
fn documented_defaults() {
    assert_eq!(default_ssh_command(), "/usr/bin/ssh");
    assert_eq!(default_wakeup_boot_timeout_secs(), 120);
    assert!(default_wakeup_enabled());
    assert!(default_wakeup_validate_ping());
    assert!(default_wakeup_validate_ssh_connection());
    assert_eq!(default_ping_cmd(), "/usr/bin/ping");
    assert!(default_after_shutdown_remote());
    assert_eq!(default_after_shutdown_cmd(), "sudo /usr/bin/shutdown now");
    assert!(default_after_validate_shutdown());
    assert_eq!(default_after_shutdown_timeout_secs(), 120);
    assert_eq!(default_ping_sleep_millis(), 500);
}

#[test]
fn default_ssh_instructions_use_documented_values() {
    let s = SshInstructions::default();
    assert_eq!(s.ssh_cmd, "/usr/bin/ssh");
    assert!(s.ssh_identity_file.is_none());
    assert!(s.ssh_port.is_none());
    assert!(s.ssh_user.is_none());
}

#[test]
fn default_wakeup_instructions_use_documented_values() {
    let w = WakeupInstructions::default();
    assert!(w.enabled);
    assert_eq!(w.mac, "INSERT-REMOTE-MAC-ADDRESS");
    assert_eq!(w.boot_timeout_secs, 120);
    assert!(w.validate_ping);
    assert!(w.validate_ssh_connection);
}

#[test]
fn default_shutdown_instructions_use_documented_values() {
    let s = ShutdownInstructions::default();
    assert!(s.shutdown_remote);
    assert_eq!(s.shutdown_cmd, "sudo /usr/bin/shutdown now");
    assert!(s.validate_shutdown);
    assert_eq!(s.shutdown_timeout_secs, 120);
}

#[test]
fn default_task_uses_documented_values() {
    let t = Task::default();
    assert_eq!(t.host, "remote-hostname");
    assert_eq!(t.ping_cmd, "/usr/bin/ping");
    assert_eq!(t.ping_sleep_millis, 500);
    assert!(t.instructions.is_empty());
}

#[test]
fn sample_task_holds_defaults_and_two_example_instructions() {
    let t = sample_task();
    assert_eq!(t.host, "remote-hostname");
    assert_eq!(t.ssh.ssh_cmd, "/usr/bin/ssh");
    assert!(t.ssh.ssh_identity_file.is_none());
    assert!(t.ssh.ssh_port.is_none());
    assert!(t.ssh.ssh_user.is_none());
    assert!(t.wakeup_instructions.enabled);
    assert_eq!(t.wakeup_instructions.mac, "INSERT-REMOTE-MAC-ADDRESS");
    assert_eq!(t.wakeup_instructions.boot_timeout_secs, 120);
    assert!(t.wakeup_instructions.validate_ping);
    assert!(t.wakeup_instructions.validate_ssh_connection);
    assert!(t.shutdown_instructions.shutdown_remote);
    assert_eq!(t.shutdown_instructions.shutdown_cmd, "sudo /usr/bin/shutdown now");
    assert!(t.shutdown_instructions.validate_shutdown);
    assert_eq!(t.shutdown_instructions.shutdown_timeout_secs, 120);
    assert_eq!(t.ping_cmd, "/usr/bin/ping");
    assert_eq!(t.ping_sleep_millis, 500);
    assert_eq!(t.instructions.len(), 2);
    assert!(matches!(t.instructions[0].execution_side, ExecutionSide::Local));
    assert_eq!(t.instructions[0].command, "echo");
    assert_eq!(t.instructions[0].args, vec!["hello world from local side"]);
    assert!(matches!(t.instructions[1].execution_side, ExecutionSide::Remote));
    assert_eq!(t.instructions[1].command, "echo 'hello world from remote side'");
    assert!(t.instructions[1].args.is_empty());
}
