use wakenrun::execute_task;
use wakenrun::ExecutionSide;
use wakenrun::ProcessInstruction;
use wakenrun::ShutdownInstructions;
use wakenrun::SshInstructions;
use wakenrun::Task;
use wakenrun::TaskError;
use wakenrun::WakeupInstructions;

fn echo_ssh() -> SshInstructions {
    SshInstructions {
        ssh_cmd: "/usr/bin/echo".to_owned(),
        ssh_identity_file: None,
        ssh_port: None,
        ssh_user: None,
    }
}

fn wake_disabled() -> WakeupInstructions {
    WakeupInstructions {
        enabled: false,
        mac: "26:CE:55:A5:C2:33".to_owned(),
        boot_timeout_secs: 1,
        validate_ping: true,
        validate_ssh_connection: true,
    }
}

#[test]
fn a_task_with_everything_disabled_succeeds_without_doing_anything() {
    let t = Task {
        host: "testhost".to_owned(),
        ssh: echo_ssh(),
        wakeup_instructions: wake_disabled(),
        instructions: Vec::new(),
        shutdown_instructions: ShutdownInstructions {
            shutdown_remote: false,
            shutdown_cmd: "poweroff".to_owned(),
            validate_shutdown: true,
            shutdown_timeout_secs: 1,
        },
        ping_cmd: "/usr/bin/ping".to_owned(),
        ping_sleep_millis: 10,
    };
    assert!(execute_task(&t).is_ok());
}

#[test]
fn a_full_run_without_wake_executes_and_shuts_down() {
    let t = Task {
        host: "testhost".to_owned(),
        ssh: echo_ssh(),
        wakeup_instructions: wake_disabled(),
        instructions: vec![
            ProcessInstruction {
                execution_side: ExecutionSide::Local,
                command: "/usr/bin/echo".to_owned(),
                args: vec!["local step".to_owned()],
            },
            ProcessInstruction {
                execution_side: ExecutionSide::Remote,
                command: "remote step".to_owned(),
                args: Vec::new(),
            },
        ],
        shutdown_instructions: ShutdownInstructions {
            shutdown_remote: true,
            shutdown_cmd: "poweroff".to_owned(),
            validate_shutdown: true,
            shutdown_timeout_secs: 5,
        },
        ping_cmd: "/usr/bin/false".to_owned(),
        ping_sleep_millis: 10,
    };
    assert!(execute_task(&t).is_ok());
}

#[test]
fn a_failing_instruction_aborts_before_shutdown() {
    // The shutdown stage would time out against an always-answering probe,
    // so a run that fails on the second instruction proves the shutdown
    // stage never started.
    let t = Task {
        host: "testhost".to_owned(),
        ssh: echo_ssh(),
        wakeup_instructions: wake_disabled(),
        instructions: vec![
            ProcessInstruction {
                execution_side: ExecutionSide::Local,
                command: "/usr/bin/true".to_owned(),
                args: Vec::new(),
            },
            ProcessInstruction {
                execution_side: ExecutionSide::Local,
                command: "/usr/bin/false".to_owned(),
                args: Vec::new(),
            },
            ProcessInstruction {
                execution_side: ExecutionSide::Local,
                command: "/usr/bin/true".to_owned(),
                args: Vec::new(),
            },
        ],
        shutdown_instructions: ShutdownInstructions {
            shutdown_remote: true,
            shutdown_cmd: "poweroff".to_owned(),
            validate_shutdown: true,
            shutdown_timeout_secs: 1,
        },
        ping_cmd: "/usr/bin/true".to_owned(),
        ping_sleep_millis: 10,
    };
    match execute_task(&t) {
        Err(TaskError::InstructionFailed { index, command, exit_code, .. }) => {
            assert_eq!(index, 1);
            assert_eq!(command, "/usr/bin/false");
            assert_eq!(exit_code, Some(1));
        }
        _ => panic!("the failing instruction must abort the run"),
    }
}

#[test]
fn a_malformed_hardware_address_aborts_the_whole_run() {
    let t = Task {
        host: "testhost".to_owned(),
        ssh: echo_ssh(),
        wakeup_instructions: WakeupInstructions {
            enabled: true,
            mac: "zz:zz".to_owned(),
            boot_timeout_secs: 1,
            validate_ping: false,
            validate_ssh_connection: false,
        },
        instructions: Vec::new(),
        shutdown_instructions: ShutdownInstructions {
            shutdown_remote: false,
            shutdown_cmd: "poweroff".to_owned(),
            validate_shutdown: false,
            shutdown_timeout_secs: 1,
        },
        ping_cmd: "/usr/bin/ping".to_owned(),
        ping_sleep_millis: 10,
    };
    assert!(matches!(execute_task(&t), Err(TaskError::Config { .. })));
}
