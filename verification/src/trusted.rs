//! The trusted boundary of the library: declarations of the outside types
//! the logic carries, and thin wrappers around the outside calls it makes.
//! Everything stated here is believed, not proved; each item says which
//! outside function it relies on.

use vstd::prelude::*;

use crate::proc::CmdResult;
use crate::task::mac_bytes;
use crate::task::mac_ok;

verus! {

#[verifier::external_type_specification]
#[verifier::external_body]
pub struct ExInstant(std::time::Instant);

pub assume_specification[ std::time::Instant::now ]() -> (r: std::time::Instant);

pub assume_specification[ std::time::Instant::elapsed ](this: &std::time::Instant) -> (r:
    std::time::Duration);

pub assume_specification[ std::time::Duration::as_secs ](this: &std::time::Duration) -> (r: u64);

/// Relies on wol::MacAddress::from_str: it accepts exactly six
/// two-character byte fields joined by one separator, `:` or `-`, fixed by
/// the third character; each field is read by `u8::from_str_radix` in base
/// sixteen, which also accepts a plus sign before a single hex digit. The
/// six bytes are the fields' values in order.
#[verifier::external_body]
pub(crate) fn parse_mac(s: &String) -> (r: Option<[u8; 6]>)
    ensures
        r is Some <==> mac_ok(s@),
        r matches Some(b) ==> b@ == mac_bytes(s@),
{
    <wol::MacAddress as std::str::FromStr>::from_str(s.as_str()).ok().map(|m| m.into())
}

/// Relies on wol::MacAddress::new, which wraps the six bytes verbatim, and
/// wol::send_magic_packet, which broadcasts one wake-on-LAN magic packet
/// for that address, to the IPv4 broadcast address on the discard port, and
/// reports any socket error. Nothing can be promised of the outcome.
#[verifier::external_body]
pub(crate) fn send_wake_packet(mac: &[u8; 6]) -> (r: Result<(), String>)
{
    wol::send_magic_packet(
        wol::MacAddress::new(*mac),
        None,
        "255.255.255.255:9".parse().unwrap(),
    ).map_err(|e| e.to_string())
}

/// Relies on subprocess::Exec: spawns `program` with `args` in `dir`,
/// captures standard output and standard error until the process exits, and
/// reports how it ended. The exit code is the process's own when it exited
/// normally and absent when a signal killed it, and subprocess defines
/// success as exactly an exit code of zero. The outcome depends on the
/// machine, so nothing more is promised of it.
#[verifier::external_body]
pub(crate) fn spawn_capture(program: &String, args: &Vec<String>, dir: &String) -> (r: Result<
    CmdResult,
    String,
>)
    ensures
        r matches Ok(c) ==> (c.success <==> c.exit_code == Some(0u32)),
{
    match subprocess::Exec::cmd(program.as_str()).cwd(dir.as_str()).args(args).capture() {
        Ok(c) => Ok(
            CmdResult {
                success: c.success(),
                exit_code: c.exit_status.code(),
                std_out: c.stdout_str(),
                std_err: c.stderr_str(),
            },
        ),
        Err(e) => Err(e.to_string()),
    }
}

/// Relies on dirs::home_dir: the invoking user's home directory, if the
/// system knows one.
#[verifier::external_body]
pub(crate) fn home_dir_string() -> (r: Option<String>)
{
    dirs::home_dir().map(|p| p.to_string_lossy().into_owned())
}

/// Relies on spin_sleep::sleep: blocks the calling thread for the given
/// number of milliseconds.
#[verifier::external_body]
pub(crate) fn pause_millis(ms: u64)
{
    spin_sleep::sleep(std::time::Duration::from_millis(ms));
}

} // verus!
