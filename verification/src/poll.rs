//! The polling rule shared by every prober: attempt a probe, stop as soon
//! as an attempt yields the wanted outcome, and give up once the deadline
//! admits no further attempt. The rule is stated over a sequence of probe
//! outcomes and an attempt budget, so that it can be reasoned about and
//! tested independently of the live clock and the live probe.

use vstd::prelude::*;

use crate::errors::TaskError;
use crate::proc::run_cmd;
use crate::proc::CmdResult;
use crate::remote::build_remote_args;
use crate::remote::remote_args;
use crate::remote::run_remote_cmd;
use crate::task::SshInstructions;
use crate::trusted::pause_millis;

verus! {

/// What a bounded poll ended with: the wanted outcome was observed on the
/// given (one-based) attempt, or the budget ran out first.
pub enum PollVerdict {
    Satisfied { attempts: u64 },
    DeadlineExpired { attempts: u64 },
}

/// The index of the first outcome equal to `want`, if any.
pub open spec fn first_hit(outcomes: Seq<bool>, want: bool) -> Option<int>
    decreases outcomes.len(),
{
    if outcomes.len() == 0 {
        None
    } else if outcomes[0] == want {
        Some(0int)
    } else {
        match first_hit(outcomes.drop_first(), want) {
            Some(i) => Some(i + 1),
            None => None,
        }
    }
}

/// `first_hit` finds a hit, finds the earliest one, and finds one whenever
/// one exists.
pub proof fn lemma_first_hit(outcomes: Seq<bool>, want: bool)
    ensures
        match first_hit(outcomes, want) {
            Some(i) => {
                &&& 0 <= i < outcomes.len()
                &&& outcomes[i] == want
                &&& forall|j: int| 0 <= j < i ==> outcomes[j] != want
            },
            None => forall|j: int| 0 <= j < outcomes.len() ==> outcomes[j] != want,
        },
    decreases outcomes.len(),
{
    if outcomes.len() == 0 {
    } else if outcomes[0] == want {
    } else {
        lemma_first_hit(outcomes.drop_first(), want);
        let rest = outcomes.drop_first();
        match first_hit(rest, want) {
            Some(i) => {
                assert forall|j: int| 0 <= j < i + 1 implies outcomes[j] != want by {
                    if j > 0 {
                        assert(outcomes[j] == rest[j - 1]);
                    }
                }
            },
            None => {
                assert forall|j: int| 0 <= j < outcomes.len() implies outcomes[j] != want by {
                    if j > 0 {
                        assert(outcomes[j] == rest[j - 1]);
                    }
                }
            },
        }
    }
}

/// When the first `n` outcomes miss and outcome `n` hits, the first hit is
/// exactly at `n`: a prober stopping at the first hit makes `n + 1`
/// attempts, no more and no fewer.
pub proof fn lemma_first_hit_exact(outcomes: Seq<bool>, want: bool, n: int)
    requires
        0 <= n < outcomes.len(),
        forall|j: int| 0 <= j < n ==> outcomes[j] != want,
        outcomes[n] == want,
    ensures
        first_hit(outcomes, want) == Some(n),
{
    lemma_first_hit(outcomes, want);
    match first_hit(outcomes, want) {
        Some(i) => {
            if i < n {
                assert(outcomes[i] != want);
            }
            if i > n {
                assert(outcomes[n] != want);
            }
        },
        None => {
            assert(outcomes[n] != want);
        },
    }
}

/// The verdict of polling a recorded outcome sequence with an attempt
/// budget: the poll is satisfied on the first hit if the budget admits that
/// attempt, and the deadline expires after the whole budget otherwise.
pub open spec fn poll_spec(outcomes: Seq<bool>, want: bool, budget: u64) -> PollVerdict {
    match first_hit(outcomes, want) {
        Some(i) => if i < budget {
            PollVerdict::Satisfied { attempts: (i + 1) as u64 }
        } else {
            PollVerdict::DeadlineExpired { attempts: budget }
        },
        None => PollVerdict::DeadlineExpired { attempts: budget },
    }
}

/// A probe that misses `n` times and then hits satisfies the poll on
/// exactly the `n + 1`-th attempt, provided the budget admits it.
pub proof fn lemma_poll_reaches_first_hit(outcomes: Seq<bool>, want: bool, budget: u64, n: int)
    requires
        0 <= n < outcomes.len(),
        forall|j: int| 0 <= j < n ==> outcomes[j] != want,
        outcomes[n] == want,
        n < budget,
    ensures
        poll_spec(outcomes, want, budget) == (PollVerdict::Satisfied {
            attempts: (n + 1) as u64,
        }),
{
    lemma_first_hit_exact(outcomes, want, n);
}

/// A budget too small to reach the first hit — in particular any budget,
/// when no outcome hits at all — expires the deadline after exactly the
/// budgeted number of attempts.
pub proof fn lemma_poll_expires(outcomes: Seq<bool>, want: bool, budget: u64)
    requires
        forall|j: int| 0 <= j < outcomes.len() && j < budget ==> outcomes[j] != want,
    ensures
        poll_spec(outcomes, want, budget) == (PollVerdict::DeadlineExpired { attempts: budget }),
{
    lemma_first_hit(outcomes, want);
    match first_hit(outcomes, want) {
        Some(i) => {
            if i < budget {
                assert(outcomes[i] != want);
            }
        },
        None => {},
    }
}

/// Each outcome negated: the view an unreachability poll takes of the same
/// probe run.
pub open spec fn negated(outcomes: Seq<bool>) -> Seq<bool> {
    outcomes.map_values(|b: bool| !b)
}

/// Waiting for unreachability is the exact logical negation of waiting for
/// reachability: negating every probe outcome and the wanted outcome at
/// once leaves the verdict unchanged, attempt count included.
pub proof fn lemma_unreachable_is_negation(outcomes: Seq<bool>, want: bool, budget: u64)
    ensures
        poll_spec(negated(outcomes), !want, budget) == poll_spec(outcomes, want, budget),
{
    lemma_first_hit_negated(outcomes, want);
}

proof fn lemma_first_hit_negated(outcomes: Seq<bool>, want: bool)
    ensures
        first_hit(negated(outcomes), !want) == first_hit(outcomes, want),
    decreases outcomes.len(),
{
    if outcomes.len() == 0 {
        assert(negated(outcomes).len() == 0);
    } else {
        lemma_first_hit_negated(outcomes.drop_first(), want);
        assert(negated(outcomes).drop_first() =~= negated(outcomes.drop_first()));
        assert(negated(outcomes)[0] == !outcomes[0]);
    }
}

/// A host that answers every probe never satisfies a poll that waits for
/// the probe to fail: the deadline always expires.
pub proof fn lemma_always_up_never_unreachable(outcomes: Seq<bool>, budget: u64)
    requires
        forall|j: int| 0 <= j < outcomes.len() ==> outcomes[j],
    ensures
        poll_spec(outcomes, false, budget) == (PollVerdict::DeadlineExpired { attempts: budget }),
{
    lemma_poll_expires(outcomes, false, budget);
}

/// The polling rule applied to a recorded sequence of probe outcomes, one
/// per attempt the deadline would admit. The live probers observe the same
/// outcomes one call at a time.
pub fn poll_recorded(outcomes: &Vec<bool>, want: bool, budget: u64) -> (v: PollVerdict)
    requires
        budget <= outcomes@.len(),
    ensures
        v == poll_spec(outcomes@, want, budget),
{
    let n = outcomes.len();
    let lim: usize = budget as usize;
    proof {
        assert(budget <= n);
        assert(lim == budget);
    }
    let mut i: usize = 0;
    while i < lim
        invariant
            0 <= i <= lim,
            lim == budget,
            budget <= outcomes@.len(),
            forall|j: int| 0 <= j < i ==> outcomes@[j] != want,
        decreases lim - i,
    {
        if outcomes[i] == want {
            proof {
                lemma_first_hit_exact(outcomes@, want, i as int);
            }
            return PollVerdict::Satisfied { attempts: (i as u64) + 1 };
        }
        i = i + 1;
    }
    proof {
        lemma_poll_expires(outcomes@, want, budget);
    }
    PollVerdict::DeadlineExpired { attempts: budget }
}

/// The instruction runner's abort rule: when every instruction before `n`
/// succeeds and instruction `n` fails, exactly the instructions up to and
/// including `n` execute, and the reported failure identifies `n`.
pub proof fn lemma_runner_stops_at_first_failure(results: Seq<bool>, n: int)
    requires
        0 <= n < results.len(),
        forall|j: int| 0 <= j < n ==> results[j],
        !results[n],
    ensures
        first_hit(results, false) == Some(n),
{
    lemma_first_hit_exact(results, false, n);
}

/// The abort rule of the instruction runner, applied to a recorded sequence
/// of per-instruction outcomes: the index of the first failing instruction,
/// or `None` when every instruction succeeds.
pub fn first_failure_index(results: &Vec<bool>) -> (r: Option<usize>)
    ensures
        match r {
            Some(i) => {
                &&& i < results@.len()
                &&& !results@[i as int]
                &&& forall|j: int| 0 <= j < i ==> results@[j]
            },
            None => forall|j: int| 0 <= j < results@.len() ==> results@[j],
        },
        r == match first_hit(results@, false) {
            Some(i) => Some(i as usize),
            None => None::<usize>,
        },
{
    let n = results.len();
    let mut i: usize = 0;
    while i < n
        invariant
            0 <= i <= n,
            n == results@.len(),
            forall|j: int| 0 <= j < i ==> results@[j],
        decreases n - i,
    {
        if !results[i] {
            proof {
                lemma_first_hit_exact(results@, false, i as int);
            }
            return Some(i);
        }
        i = i + 1;
    }
    proof {
        lemma_first_hit(results@, false);
        if first_hit(results@, false) is Some {
            let k = first_hit(results@, false)->Some_0;
            assert(!results@[k]);
        }
    }
    None
}

/// What a live prober repeatedly attempts: a reachability probe that waits
/// for an answer, a reachability probe that waits for silence, or a trivial
/// remote session command.
pub enum ProbeKind {
    HostUp,
    HostDown,
    Session,
}

/// The probe outcome that ends a poll of the given kind.
pub open spec fn wanted_outcome(kind: ProbeKind) -> bool {
    match kind {
        ProbeKind::HostUp => true,
        ProbeKind::HostDown => false,
        ProbeKind::Session => true,
    }
}

/// The ping argument vector for one probe attempt: the host, a bounded
/// per-attempt wait of two time-units, and a probe count of three.
pub open spec fn ping_args_spec(host: Seq<char>) -> Seq<Seq<char>> {
    seq![host, "-W"@, "2"@, "-c"@, "3"@]
}

/// Build the ping argument vector for one probe attempt against `host`.
pub fn ping_args(host: &String) -> (args: Vec<String>)
    ensures
        args.deep_view() == ping_args_spec(host@),
{
    let mut args: Vec<String> = Vec::new();
    args.push(host.clone());
    args.push("-W".to_owned());
    args.push("2".to_owned());
    args.push("-c".to_owned());
    args.push("3".to_owned());
    proof {
        assert(args.deep_view() =~~= ping_args_spec(host@));
    }
    args
}

/// Probe `host` repeatedly until an attempt yields the wanted outcome or
/// the deadline that began at `start` elapses, pausing `sleep_millis`
/// between attempts. A probe attempt that merely fails is tolerated and
/// retried; only a probe that cannot be spawned at all is fatal.
///
/// On success the result of the deciding attempt is returned; on deadline
/// exhaustion the error names the host and the configured timeout, and for
/// a session probe it carries the exact argument vector attempted.
#[verifier::loop_isolation(false)]
pub fn poll_probe(
    kind: &ProbeKind,
    host: &String,
    ping_cmd: &String,
    ssh: &SshInstructions,
    start: &std::time::Instant,
    timeout_secs: u64,
    sleep_millis: u64,
) -> (r: Result<CmdResult, TaskError>)
    ensures
        r matches Ok(c) ==> c.success == wanted_outcome(*kind),
        timeout_secs == 0 ==> (r matches Err(e) && e is ProbeTimeout),
        r matches Err(e) ==> match e {
            TaskError::Spawn { .. } => true,
            TaskError::ProbeTimeout { host: h, timeout_secs: t, last_args } => {
                &&& h@ == host@
                &&& t == timeout_secs
                &&& match kind {
                    ProbeKind::Session => last_args matches Some(a) && a.deep_view()
                        == remote_args(*ssh, host@, "whoami"@),
                    _ => last_args is None,
                }
            },
            _ => false,
        },
{
    // Each iteration spawns a process, so the attempt counter can never
    // actually run out; it only bounds the loop, while the deadline check
    // decides when polling stops.
    let mut attempts_left: u64 = u64::MAX;
    while attempts_left > 0
        invariant
            true,
        decreases attempts_left,
    {
        attempts_left = attempts_left - 1;
        let elapsed = start.elapsed().as_secs();
        if elapsed >= timeout_secs {
            let last_args = match kind {
                ProbeKind::Session => Some(build_remote_args(ssh, host, "whoami".to_owned())),
                _ => None,
            };
            return Err(
                TaskError::ProbeTimeout { host: host.clone(), timeout_secs, last_args },
            );
        }
        let attempt = match kind {
            ProbeKind::Session => run_remote_cmd(host, ssh, "whoami".to_owned(), false),
            _ => run_cmd(ping_cmd, &ping_args(host), None, false),
        };
        let res = match attempt {
            Ok(c) => c,
            Err(e) => {
                return Err(e);
            },
        };
        let want = match kind {
            ProbeKind::HostUp => true,
            ProbeKind::HostDown => false,
            ProbeKind::Session => true,
        };
        if res.success == want {
            return Ok(res);
        }
        pause_millis(sleep_millis);
    }
    let last_args = match kind {
        ProbeKind::Session => Some(build_remote_args(ssh, host, "whoami".to_owned())),
        _ => None,
    };
    Err(TaskError::ProbeTimeout { host: host.clone(), timeout_secs, last_args })
}

} // verus!
