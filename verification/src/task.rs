//! The task data model: what host to wake, how to reach it, which commands
//! to run, and how to shut it down, together with the documented default
//! value of every optional field.

use vstd::prelude::*;

verus! {

/// How the external secure-shell client is invoked: the client program and
/// the optional identity file, port and user name to hand it. An absent
/// option means "use the client's own default".
pub struct SshInstructions {
    pub ssh_cmd: String,
    pub ssh_identity_file: Option<String>,
    pub ssh_port: Option<u16>,
    pub ssh_user: Option<String>,
}

/// Whether and how the target host is woken: the hardware address the wake
/// packet is sent to, the boot-time budget, and which confirmations to run.
pub struct WakeupInstructions {
    pub enabled: bool,
    pub mac: String,
    pub boot_timeout_secs: u64,
    pub validate_ping: bool,
    pub validate_ssh_connection: bool,
}

/// Whether and how the target host is shut down afterwards: the remote
/// shutdown command, and whether loss of reachability is confirmed within
/// a time budget.
pub struct ShutdownInstructions {
    pub shutdown_remote: bool,
    pub shutdown_cmd: String,
    pub validate_shutdown: bool,
    pub shutdown_timeout_secs: u64,
}

/// Where one command runs: on the invoking machine or on the target host.
pub enum ExecutionSide {
    Local,
    Remote,
}

/// One command of the ordered instruction list, tagged with its side. A
/// local instruction names the program to spawn in `command` and hands it
/// `args` as its argument vector, already split — a command line is never
/// re-tokenized, so an argument that holds spaces survives intact. A remote
/// instruction travels as the single opaque `command` string, which the
/// remote shell interprets, and takes no argument vector.
pub struct ProcessInstruction {
    pub execution_side: ExecutionSide,
    pub command: String,
    pub args: Vec<String>,
}

/// One complete unit of work: the target host, the connection settings, the
/// wake settings, the ordered instructions, the shutdown settings, and the
/// reachability-probe configuration.
pub struct Task {
    pub host: String,
    pub ssh: SshInstructions,
    pub wakeup_instructions: WakeupInstructions,
    pub instructions: Vec<ProcessInstruction>,
    pub shutdown_instructions: ShutdownInstructions,
    pub ping_cmd: String,
    pub ping_sleep_millis: u64,
}

pub fn default_ssh_command() -> (r: String)
    ensures
        r@ == "/usr/bin/ssh"@,
{
    "/usr/bin/ssh".to_owned()
}

pub fn default_wakeup_boot_timeout_secs() -> (r: u64)
    ensures
        r == 120,
{
    120
}

pub fn default_wakeup_enabled() -> (r: bool)
    ensures
        r,
{
    true
}

pub fn default_wakeup_validate_ping() -> (r: bool)
    ensures
        r,
{
    true
}

pub fn default_wakeup_validate_ssh_connection() -> (r: bool)
    ensures
        r,
{
    true
}

pub fn default_ping_cmd() -> (r: String)
    ensures
        r@ == "/usr/bin/ping"@,
{
    "/usr/bin/ping".to_owned()
}

pub fn default_after_shutdown_remote() -> (r: bool)
    ensures
        r,
{
    true
}

pub fn default_after_shutdown_cmd() -> (r: String)
    ensures
        r@ == "sudo /usr/bin/shutdown now"@,
{
    "sudo /usr/bin/shutdown now".to_owned()
}

pub fn default_after_validate_shutdown() -> (r: bool)
    ensures
        r,
{
    true
}

pub fn default_after_shutdown_timeout_secs() -> (r: u64)
    ensures
        r == 120,
{
    120
}

pub fn default_ping_sleep_millis() -> (r: u64)
    ensures
        r == 500,
{
    500
}

/// The connection settings a freshly generated task carries.
pub open spec fn is_default_ssh(s: SshInstructions) -> bool {
    &&& s.ssh_cmd@ == "/usr/bin/ssh"@
    &&& s.ssh_identity_file is None
    &&& s.ssh_port is None
    &&& s.ssh_user is None
}

/// The wake settings a freshly generated task carries.
pub open spec fn is_default_wakeup(w: WakeupInstructions) -> bool {
    &&& w.enabled
    &&& w.mac@ == "INSERT-REMOTE-MAC-ADDRESS"@
    &&& w.boot_timeout_secs == 120
    &&& w.validate_ping
    &&& w.validate_ssh_connection
}

/// The shutdown settings a freshly generated task carries.
pub open spec fn is_default_shutdown(s: ShutdownInstructions) -> bool {
    &&& s.shutdown_remote
    &&& s.shutdown_cmd@ == "sudo /usr/bin/shutdown now"@
    &&& s.validate_shutdown
    &&& s.shutdown_timeout_secs == 120
}

/// The task a freshly generated configuration describes, apart from its
/// instruction list.
pub open spec fn is_default_task(t: Task) -> bool {
    &&& t.host@ == "remote-hostname"@
    &&& is_default_ssh(t.ssh)
    &&& is_default_wakeup(t.wakeup_instructions)
    &&& is_default_shutdown(t.shutdown_instructions)
    &&& t.ping_cmd@ == "/usr/bin/ping"@
    &&& t.ping_sleep_millis == 500
}

impl Default for SshInstructions {
    fn default() -> (r: Self)
        ensures
            is_default_ssh(r),
    {
        SshInstructions {
            ssh_cmd: default_ssh_command(),
            ssh_identity_file: None,
            ssh_port: None,
            ssh_user: None,
        }
    }
}

impl Default for WakeupInstructions {
    fn default() -> (r: Self)
        ensures
            is_default_wakeup(r),
    {
        WakeupInstructions {
            enabled: default_wakeup_enabled(),
            mac: "INSERT-REMOTE-MAC-ADDRESS".to_owned(),
            boot_timeout_secs: default_wakeup_boot_timeout_secs(),
            validate_ping: default_wakeup_validate_ping(),
            validate_ssh_connection: default_wakeup_validate_ssh_connection(),
        }
    }
}

impl Default for ShutdownInstructions {
    fn default() -> (r: Self)
        ensures
            is_default_shutdown(r),
    {
        ShutdownInstructions {
            shutdown_remote: default_after_shutdown_remote(),
            shutdown_cmd: default_after_shutdown_cmd(),
            validate_shutdown: default_after_validate_shutdown(),
            shutdown_timeout_secs: default_after_shutdown_timeout_secs(),
        }
    }
}

impl Default for Task {
    fn default() -> (r: Self)
        ensures
            is_default_task(r),
            r.instructions@.len() == 0,
    {
        Task {
            host: "remote-hostname".to_owned(),
            ssh: SshInstructions::default(),
            wakeup_instructions: WakeupInstructions::default(),
            instructions: Vec::new(),
            shutdown_instructions: ShutdownInstructions::default(),
            ping_cmd: default_ping_cmd(),
            ping_sleep_millis: default_ping_sleep_millis(),
        }
    }
}

/// The task that a generated sample configuration describes: every field at
/// its documented default, plus one illustrative local instruction and one
/// illustrative remote instruction.
pub fn sample_task() -> (t: Task)
    ensures
        is_default_task(t),
        t.instructions@.len() == 2,
        t.instructions@[0].execution_side is Local,
        t.instructions@[0].command@ == "echo"@,
        t.instructions@[0].args.deep_view() == seq!["hello world from local side"@],
        t.instructions@[1].execution_side is Remote,
        t.instructions@[1].command@ == "echo 'hello world from remote side'"@,
        t.instructions@[1].args@.len() == 0,
{
    let mut t = Task::default();
    let mut local_args: Vec<String> = Vec::new();
    local_args.push("hello world from local side".to_owned());
    proof {
        assert(local_args.deep_view() =~~= seq!["hello world from local side"@]);
    }
    let mut instructions: Vec<ProcessInstruction> = Vec::new();
    instructions.push(
        ProcessInstruction {
            execution_side: ExecutionSide::Local,
            command: "echo".to_owned(),
            args: local_args,
        },
    );
    instructions.push(
        ProcessInstruction {
            execution_side: ExecutionSide::Remote,
            command: "echo 'hello world from remote side'".to_owned(),
            args: Vec::new(),
        },
    );
    t.instructions = instructions;
    t
}

/// A hex digit as the hardware-address parser accepts it.
pub open spec fn is_hex_digit(c: char) -> bool {
    ('0' <= c && c <= '9') || ('a' <= c && c <= 'f') || ('A' <= c && c <= 'F')
}

/// One two-character byte field of a hardware address. The parser reads a
/// field with `u8::from_str_radix`, which also accepts a leading plus sign
/// before a single hex digit.
pub open spec fn mac_field_ok(hi: char, lo: char) -> bool {
    (is_hex_digit(hi) || hi == '+') && is_hex_digit(lo)
}

/// A well-formed hardware address: six two-character byte fields joined by
/// one separator, which is either `:` or `-` and is fixed by the third
/// character of the string.
pub open spec fn mac_ok(s: Seq<char>) -> bool {
    &&& s.len() == 17
    &&& (s[2] == ':' || s[2] == '-')
    &&& forall|k: int| 0 <= k < 6 ==> #[trigger] mac_field_ok(s[3 * k], s[3 * k + 1])
    &&& forall|k: int| 1 <= k < 6 ==> #[trigger] s[3 * k - 1] == s[2]
}

/// The numeric value of one hex digit character.
pub open spec fn hex_val(c: char) -> u8 {
    if '0' <= c && c <= '9' {
        (c as int - '0' as int) as u8
    } else if 'a' <= c && c <= 'f' {
        (c as int - 'a' as int + 10) as u8
    } else {
        (c as int - 'A' as int + 10) as u8
    }
}

/// The byte one two-character field denotes: base sixteen, with a plus sign
/// standing for a zero high digit.
pub open spec fn mac_field_val(hi: char, lo: char) -> u8 {
    if hi == '+' {
        hex_val(lo)
    } else {
        (16 * hex_val(hi) as int + hex_val(lo) as int) as u8
    }
}

/// The six bytes a well-formed hardware address denotes, in order.
pub open spec fn mac_bytes(s: Seq<char>) -> Seq<u8> {
    Seq::new(6, |k: int| mac_field_val(s[3 * k], s[3 * k + 1]))
}

} // verus!
