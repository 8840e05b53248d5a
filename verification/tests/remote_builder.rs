use wakenrun::build_remote_args;
use wakenrun::port_string;
use wakenrun::SshInstructions;

#[test]
fn full_settings_build_the_exact_argument_vector() {
    let s = SshInstructions {
        ssh_cmd: "/usr/bin/ssh".to_owned(),
        ssh_identity_file: Some("/k".to_owned()),
        ssh_port: Some(2222),
        ssh_user: Some("alice".to_owned()),
    };
    let args = build_remote_args(&s, &"h".to_owned(), "uptime".to_owned());
    assert_eq!(
        args,
        vec![
            "-t".to_owned(),
            "-i".to_owned(),
            "/k".to_owned(),
            "-o".to_owned(),
            "IdentitiesOnly=yes".to_owned(),
            "-p".to_owned(),
            "2222".to_owned(),
            "alice@h".to_owned(),
            "uptime".to_owned(),
        ]
    );
}

#[test]
fn absent_options_leave_their_flags_out() {
    let s = SshInstructions {
        ssh_cmd: "/usr/bin/ssh".to_owned(),
        ssh_identity_file: None,
        ssh_port: None,
        ssh_user: None,
    };
    let args = build_remote_args(&s, &"box".to_owned(), "whoami".to_owned());
    assert_eq!(args, vec!["-t".to_owned(), "box".to_owned(), "whoami".to_owned()]);
}

#[test]
fn identity_file_alone_brings_identities_only_mode() {
    let s = SshInstructions {
        ssh_cmd: "/usr/bin/ssh".to_owned(),
        ssh_identity_file: Some("/home/me/.ssh/id".to_owned()),
        ssh_port: None,
        ssh_user: None,
    };
    let args = build_remote_args(&s, &"box".to_owned(), "true".to_owned());
    assert_eq!(
        args,
        vec![
            "-t".to_owned(),
            "-i".to_owned(),
            "/home/me/.ssh/id".to_owned(),
            "-o".to_owned(),
            "IdentitiesOnly=yes".to_owned(),
            "box".to_owned(),
            "true".to_owned(),
        ]
    );
}

#[test]
fn port_alone_brings_the_port_flag() {
    let s = SshInstructions {
        ssh_cmd: "/usr/bin/ssh".to_owned(),
        ssh_identity_file: None,
        ssh_port: Some(22),
        ssh_user: None,
    };
    let args = build_remote_args(&s, &"box".to_owned(), "true".to_owned());
    assert_eq!(
        args,
        vec![
            "-t".to_owned(),
            "-p".to_owned(),
            "22".to_owned(),
            "box".to_owned(),
            "true".to_owned(),
        ]
    );
}

#[test]
fn port_strings_are_plain_decimal() {
    assert_eq!(port_string(0), "0");
    assert_eq!(port_string(7), "7");
    assert_eq!(port_string(22), "22");
    assert_eq!(port_string(2222), "2222");
    assert_eq!(port_string(65535), "65535");
    assert_eq!(port_string(10000), "10000");
}
