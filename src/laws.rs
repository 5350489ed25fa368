use vstd::prelude::*;
use crate::address::knows;
use crate::engine::{budget_left, deadline_at, expired, in_scan, step_spec, Attempt, Event, Phase};
use crate::error::{auth_of, AuthResult, Outcome};
use crate::settings::Deadline;

verus! {

/// Once a limited scan's budget is spent, the attempt is decided as a
/// timeout whatever is reported; the budget does not move while the scan
/// runs; and the caller is never allowed to wait past it.
pub proof fn deadline_ends_the_scan(s: Attempt, ev: Event, now: u64)
    requires
        in_scan(s.phase),
        s.deadline is Limited,
    ensures
        now >= deadline_at(s, s.deadline->secs) ==> step_spec(s, ev, now).phase == Phase::Done(
            Outcome::Timeout,
        ),
        in_scan(step_spec(s, ev, now).phase) ==> step_spec(s, ev, now).scan_start_ms
            == s.scan_start_ms && step_spec(s, ev, now).deadline == s.deadline,
        budget_left(s, now) is Some,
        now + budget_left(s, now)->0 <= deadline_at(s, s.deadline->secs) || now >= deadline_at(
            s,
            s.deadline->secs,
        ),
        budget_left(s, now)->0 == 0 <==> expired(s, now),
{
}

/// A target that the stack does not know as paired ends the attempt at the
/// paired check, with a denial, before any probe or pause.
pub proof fn unpaired_target_fails_at_once(s: Attempt, addresses: Vec<[u8; 6]>, now: u64)
    requires
        s.phase == Phase::ListKnown,
        !knows(addresses@, s.target@),
    ensures
        step_spec(s, Event::Known { addresses }, now).phase is Done,
        auth_of(step_spec(s, Event::Known { addresses }, now).phase->0) == AuthResult::Failure,
        step_spec(s, Event::Known { addresses }, now).probes == s.probes,
        step_spec(s, Event::Known { addresses }, now).waited_ms == s.waited_ms,
{
}

/// Where the first probe finds the target, by its connected state or by a
/// connection, the attempt authenticates after exactly one probe and no pause.
pub proof fn present_at_first_probe(
    s: Attempt,
    addresses: Vec<[u8; 6]>,
    t0: u64,
    t1: u64,
    t2: u64,
)
    requires
        s.phase == Phase::ListKnown,
        s.probes == 0,
        knows(addresses@, s.target@),
        !expired(s, t0),
        !expired(s, t1),
        !expired(s, t2),
    ensures
        ({
            let a = step_spec(s, Event::Known { addresses }, t0);
            let b = step_spec(a, Event::Connected { connected: true }, t1);
            &&& b.phase == Phase::Done(Outcome::Present)
            &&& auth_of(b.phase->0) == AuthResult::Success
            &&& b.probes == 1
            &&& b.waited_ms == s.waited_ms
        }),
        ({
            let a = step_spec(s, Event::Known { addresses }, t0);
            let b = step_spec(a, Event::Connected { connected: false }, t1);
            let c = step_spec(b, Event::ConnectResult { ok: true }, t2);
            &&& c.phase == Phase::Done(Outcome::Present)
            &&& auth_of(c.phase->0) == AuthResult::Success
            &&& c.probes == 1
            &&& c.waited_ms == s.waited_ms
        }),
{
}

/// One probe that finds the target absent: not connected, the connection
/// fails, and the pause passes; reported at `t[3i]`, `t[3i+1]`, `t[3i+2]`.
pub open spec fn absent_round(s: Attempt, t: Seq<u64>, i: int) -> Attempt {
    let a = step_spec(s, Event::Connected { connected: false }, t[3 * i]);
    let b = step_spec(a, Event::ConnectResult { ok: false }, t[3 * i + 1]);
    step_spec(b, Event::Slept, t[3 * i + 2])
}

/// The attempt after `k` probes that found the target absent.
pub open spec fn absent_rounds(s: Attempt, k: nat, t: Seq<u64>) -> Attempt
    decreases k,
{
    if k == 0 {
        s
    } else {
        absent_round(absent_rounds(s, (k - 1) as nat, t), t, k - 1)
    }
}

proof fn absent_rounds_keep_polling(s: Attempt, k: nat, t: Seq<u64>)
    requires
        s.phase == Phase::QueryConnected,
    ensures
        ({
            let r = absent_rounds(s, k, t);
            &&& r.phase == Phase::QueryConnected || r.phase == Phase::Done(Outcome::Timeout)
            &&& s.deadline is Unlimited ==> r.phase == Phase::QueryConnected
            &&& r.deadline == s.deadline
            &&& r.interval_ms == s.interval_ms
            &&& r.scan_start_ms == s.scan_start_ms
            &&& r.target == s.target
            &&& (r.phase == Phase::QueryConnected && s.waited_ms + k * s.interval_ms <= u64::MAX
                && s.probes + k <= u64::MAX) ==> r.waited_ms == s.waited_ms + k * s.interval_ms
                && r.probes == s.probes + k
        }),
    decreases k,
{
    if k > 0 {
        let k1 = (k - 1) as nat;
        absent_rounds_keep_polling(s, k1, t);
        let p = absent_rounds(s, k1, t);
        assert(k1 * s.interval_ms + s.interval_ms == k * s.interval_ms) by (nonlinear_arith)
            requires
                k1 + 1 == k,
        ;
        assert(k1 * s.interval_ms <= k * s.interval_ms) by (nonlinear_arith)
            requires
                k1 + 1 == k,
        ;
        assert(absent_rounds(s, k, t) == absent_round(p, t, k1 as int));
    }
}

/// With `k` probes that find the target absent and then one that finds it
/// connected, the attempt authenticates after `k + 1` probes and `k` pauses
/// of the interval each, unless the deadline passed first.
pub proof fn absent_k_times_then_present(s: Attempt, k: nat, t: Seq<u64>, last: u64)
    requires
        s.phase == Phase::QueryConnected,
        s.waited_ms + k * s.interval_ms <= u64::MAX,
        s.probes + k + 1 <= u64::MAX,
    ensures
        ({
            let f = step_spec(absent_rounds(s, k, t), Event::Connected { connected: true }, last);
            &&& f.phase == Phase::Done(Outcome::Present) || f.phase == Phase::Done(Outcome::Timeout)
            &&& f.phase == Phase::Done(Outcome::Present) ==> f.waited_ms == s.waited_ms + k
                * s.interval_ms && f.probes == s.probes + k + 1
            &&& s.deadline is Unlimited ==> f.phase == Phase::Done(Outcome::Present)
        }),
{
    absent_rounds_keep_polling(s, k, t);
}

/// Without a deadline, probes that never find the target never end the
/// attempt: it keeps polling however many rounds pass.
pub proof fn unlimited_never_gives_up(s: Attempt, k: nat, t: Seq<u64>)
    requires
        s.phase == Phase::QueryConnected,
        s.deadline == Deadline::Unlimited,
    ensures
        absent_rounds(s, k, t).phase == Phase::QueryConnected,
{
    absent_rounds_keep_polling(s, k, t);
}

} // verus!
