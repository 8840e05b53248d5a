//! The remote command builder: the exact argument vector handed to the
//! secure-shell client for one remote command, in a fixed order — force a
//! pseudo-terminal, then the identity file (with identities-only mode),
//! then the port, then the connection target, then the command string as
//! one opaque argument.

use vstd::prelude::*;

use crate::errors::TaskError;
use crate::proc::run_cmd;
use crate::proc::CmdResult;
use crate::task::SshInstructions;

verus! {

/// The decimal digit characters in order.
pub open spec fn dec_digit(d: int) -> char {
    seq!['0', '1', '2', '3', '4', '5', '6', '7', '8', '9'][d]
}

/// The decimal digits of `n`, most significant first, without leading
/// zeros (except for `n == 0`, which is the single digit `0`).
pub open spec fn dec_chars(n: nat) -> Seq<char>
    decreases n,
{
    if n < 10 {
        seq![dec_digit(n as int)]
    } else {
        dec_chars(n / 10).push(dec_digit((n % 10) as int))
    }
}

/// Append one decimal digit character to a string.
fn append_digit(s: &mut String, d: u16)
    requires
        d < 10,
    ensures
        final(s)@ == old(s)@ + seq![dec_digit(d as int)],
{
    proof {
        reveal_strlit("0");
        reveal_strlit("1");
        reveal_strlit("2");
        reveal_strlit("3");
        reveal_strlit("4");
        reveal_strlit("5");
        reveal_strlit("6");
        reveal_strlit("7");
        reveal_strlit("8");
        reveal_strlit("9");
    }
    match d {
        0 => s.append("0"),
        1 => s.append("1"),
        2 => s.append("2"),
        3 => s.append("3"),
        4 => s.append("4"),
        5 => s.append("5"),
        6 => s.append("6"),
        7 => s.append("7"),
        8 => s.append("8"),
        _ => s.append("9"),
    }
    proof {
        assert(final(s)@ =~= old(s)@ + seq![dec_digit(d as int)]);
    }
}

/// Append the decimal digits of `n` to a string.
fn push_decimal(s: &mut String, n: u16)
    ensures
        final(s)@ == old(s)@ + dec_chars(n as nat),
    decreases n,
{
    if n >= 10 {
        push_decimal(s, n / 10);
    }
    append_digit(s, n % 10);
    proof {
        if n >= 10 {
            assert(final(s)@ =~= old(s)@ + dec_chars(n as nat));
        }
    }
}

/// The decimal representation of a port number.
pub fn port_string(n: u16) -> (s: String)
    ensures
        s@ == dec_chars(n as nat),
{
    let mut s = String::new();
    push_decimal(&mut s, n);
    proof {
        assert(s@ =~= dec_chars(n as nat));
    }
    s
}

/// The argument vector for running `command` on `host` under the given
/// connection settings.
pub open spec fn remote_args(s: SshInstructions, host: Seq<char>, command: Seq<char>) -> Seq<
    Seq<char>,
> {
    seq!["-t"@] + (match s.ssh_identity_file {
        Some(f) => seq!["-i"@, f@, "-o"@, "IdentitiesOnly=yes"@],
        None => Seq::<Seq<char>>::empty(),
    }) + (match s.ssh_port {
        Some(p) => seq!["-p"@, dec_chars(p as nat)],
        None => Seq::<Seq<char>>::empty(),
    }) + seq![
        match s.ssh_user {
            Some(u) => u@ + "@"@ + host,
            None => host,
        },
    ] + seq![command]
}

/// Build the argument vector for running `command` on `host` through the
/// secure-shell client described by `s`.
pub fn build_remote_args(s: &SshInstructions, host: &String, command: String) -> (args: Vec<
    String,
>)
    ensures
        args.deep_view() == remote_args(*s, host@, command@),
{
    let mut args: Vec<String> = Vec::new();
    args.push("-t".to_owned());
    match &s.ssh_identity_file {
        Some(f) => {
            args.push("-i".to_owned());
            args.push(f.clone());
            args.push("-o".to_owned());
            args.push("IdentitiesOnly=yes".to_owned());
        },
        None => {},
    }
    match &s.ssh_port {
        Some(p) => {
            args.push("-p".to_owned());
            args.push(port_string(*p));
        },
        None => {},
    }
    match &s.ssh_user {
        Some(u) => {
            let mut target = u.clone();
            target.append("@");
            target.append(host.as_str());
            args.push(target);
        },
        None => {
            args.push(host.clone());
        },
    }
    args.push(command);
    proof {
        assert(args.deep_view() =~~= remote_args(*s, host@, command@));
    }
    args
}

/// Run `remote_command` on `host` through the secure-shell client: build
/// the argument vector and hand it to the process runner. A failure status
/// of the remote command is fatal only when `must_succeed` is set.
pub fn run_remote_cmd(
    host: &String,
    s: &SshInstructions,
    remote_command: String,
    must_succeed: bool,
) -> (r: Result<CmdResult, TaskError>)
    ensures
        must_succeed ==> (r matches Ok(c) ==> c.success),
        r matches Ok(c) ==> (c.success <==> c.exit_code == Some(0u32)),
        r matches Err(e) ==> match e {
            TaskError::Spawn { .. } => true,
            TaskError::CommandFailed { command: failed, exit_code, .. } => must_succeed && failed@
                == s.ssh_cmd@ && exit_code != Some(0u32),
            _ => false,
        },
{
    let args = build_remote_args(s, host, remote_command);
    run_cmd(&s.ssh_cmd, &args, None, must_succeed)
}

} // verus!
