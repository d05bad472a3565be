//! Per-minute billing of joined participants, the grace window, and the
//! periodic check that disconnects participants who fall behind on
//! payments or on anonymous escrow proofs.
use vstd::prelude::*;
use vstd::arithmetic::div_mod::{lemma_fundamental_div_mod, lemma_fundamental_div_mod_converse};
use crate::hub::room::ParticipantState;
use crate::hub::validate::{anonymous_hello_timed_out, escrow_proof_stale};
use crate::text::{opt_text, push_decimal, spec_decimal};

verus! {

broadcast use vstd::string::group_string_axioms;

/// The hub's billing settings.
#[derive(Clone, Copy, Debug)]
pub struct BillingConfig {
    pub default_rate_per_minute_nano: u64,
    pub anon_zk_extra_fee_per_minute_nano: u64,
    pub grace_secs: u64,
    pub check_interval_secs: u64,
    pub anon_escrow_proof_max_stale_secs: u64,
}

/// `x`, capped at `u64::MAX`.
pub open spec fn spec_cap_u64(x: int) -> u64 {
    if x <= u64::MAX {
        x as u64
    } else {
        u64::MAX
    }
}

/// Milliseconds per minute, the divisor of per-millisecond billing.
pub open spec fn spec_ms_per_minute() -> int {
    60_000
}

impl BillingConfig {
    /// The grace window expressed in nano-XOR at a rate: what `grace_secs`
    /// seconds cost, rounded down, capped at `u64::MAX`.
    pub fn grace_nano(&self, rate_per_minute_nano: u64) -> (r: u64)
        ensures
            r == spec_cap_u64((rate_per_minute_nano * self.grace_secs) / 60),
    {
        proof {
            assert((rate_per_minute_nano as u128) * (self.grace_secs as u128) <= 0xffff_ffff_ffff_fffe_0000_0000_0000_0001u128) by (nonlinear_arith)
                requires
                    rate_per_minute_nano <= u64::MAX,
                    self.grace_secs <= u64::MAX,
            ;
        }
        let product: u128 = (rate_per_minute_nano as u128) * (self.grace_secs as u128);
        let grace = product / 60;
        if grace > u64::MAX as u128 {
            u64::MAX
        } else {
            grace as u64
        }
    }

    /// How often the check runs, at least once a second.
    pub fn check_interval(&self) -> (r: u64)
        ensures
            r == if self.check_interval_secs < 1 {
                1
            } else {
                self.check_interval_secs
            },
    {
        if self.check_interval_secs < 1 {
            1
        } else {
            self.check_interval_secs
        }
    }
}

/// A participant's billing state once it is billed up to `now_ms`. The
/// cursor moves to `now_ms`; for the milliseconds since the cursor (none
/// if the clock went back) the charge is the rate per minute times the
/// milliseconds, plus the remainder carried from before, divided by the
/// milliseconds of a minute; the new remainder carries over. Totals
/// saturate at `u64::MAX`.
pub open spec fn spec_advance_billing(s: ParticipantState, rate_per_minute_nano: u64, now_ms: u64) -> ParticipantState {
    let elapsed: int = if now_ms >= s.last_billed_at_ms {
        now_ms - s.last_billed_at_ms
    } else {
        0
    };
    if elapsed == 0 || rate_per_minute_nano == 0 {
        ParticipantState { last_billed_at_ms: now_ms, ..s }
    } else {
        let numerator = rate_per_minute_nano * elapsed + s.billing_remainder_mod_60k;
        let delta = spec_cap_u64(numerator / spec_ms_per_minute());
        ParticipantState {
            last_billed_at_ms: now_ms,
            billing_remainder_mod_60k: (numerator % spec_ms_per_minute()) as u32,
            billed_nano_xor: spec_cap_u64(s.billed_nano_xor + delta),
            ..s
        }
    }
}

/// Bills a participant up to `now_ms`, carrying the sub-nano remainder so
/// that no precision is lost across checks.
pub fn advance_billing(state: &mut ParticipantState, rate_per_minute_nano: u64, now_ms: u64)
    ensures
        *final(state) == spec_advance_billing(*old(state), rate_per_minute_nano, now_ms),
{
    let elapsed_ms = if now_ms >= state.last_billed_at_ms {
        now_ms - state.last_billed_at_ms
    } else {
        0
    };
    state.last_billed_at_ms = now_ms;
    if elapsed_ms == 0 || rate_per_minute_nano == 0 {
        return;
    }
    proof {
        assert((rate_per_minute_nano as u128) * (elapsed_ms as u128) <= 0xffff_ffff_ffff_fffe_0000_0000_0000_0001u128) by (nonlinear_arith)
            requires
                rate_per_minute_nano <= u64::MAX,
                elapsed_ms <= u64::MAX,
        ;
    }
    let numerator: u128 = (rate_per_minute_nano as u128) * (elapsed_ms as u128)
        + (state.billing_remainder_mod_60k as u128);
    let delta_nano = numerator / 60_000u128;
    state.billing_remainder_mod_60k = (numerator % 60_000u128) as u32;
    let delta_nano: u64 = if delta_nano > u64::MAX as u128 {
        u64::MAX
    } else {
        delta_nano as u64
    };
    state.billed_nano_xor = if state.billed_nano_xor as u128 + delta_nano as u128 > u64::MAX as u128 {
        u64::MAX
    } else {
        state.billed_nano_xor + delta_nano
    };
}

/// Billing loses and invents nothing: while the total does not saturate,
/// the charge plus the carried remainder (counted in nano-XOR times the
/// milliseconds of a minute) grows by exactly the rate per minute times the
/// milliseconds since the cursor, the remainder stays under a minute's
/// milliseconds, the cursor moves to `now_ms`, and nothing else about the
/// participant changes (in particular what it paid).
pub proof fn lemma_billing_charges_rate_times_time(s: ParticipantState, rate_per_minute_nano: u64, now_ms: u64)
    requires
        s.last_billed_at_ms <= now_ms,
        s.billing_remainder_mod_60k < 60_000,
        s.billed_nano_xor + (rate_per_minute_nano * (now_ms - s.last_billed_at_ms)
            + s.billing_remainder_mod_60k) / 60_000 <= u64::MAX,
    ensures
        spec_advance_billing(s, rate_per_minute_nano, now_ms).billed_nano_xor * 60_000
            + spec_advance_billing(s, rate_per_minute_nano, now_ms).billing_remainder_mod_60k
            == s.billed_nano_xor * 60_000 + s.billing_remainder_mod_60k + rate_per_minute_nano * (
        now_ms - s.last_billed_at_ms),
        spec_advance_billing(s, rate_per_minute_nano, now_ms).billing_remainder_mod_60k < 60_000,
        spec_advance_billing(s, rate_per_minute_nano, now_ms) == (ParticipantState {
            last_billed_at_ms: now_ms,
            billed_nano_xor: spec_advance_billing(s, rate_per_minute_nano, now_ms).billed_nano_xor,
            billing_remainder_mod_60k: spec_advance_billing(
                s,
                rate_per_minute_nano,
                now_ms,
            ).billing_remainder_mod_60k,
            ..s
        }),
{
    let rate = rate_per_minute_nano as int;
    let e = now_ms - s.last_billed_at_ms;
    let r0 = s.billing_remainder_mod_60k as int;
    let d = 60_000int;
    if rate == 0 || e == 0 {
        assert(rate * e == 0) by (nonlinear_arith)
            requires
                rate == 0 || e == 0,
        ;
    } else {
        let n = rate * e + r0;
        lemma_fundamental_div_mod(n, d);
        assert(n >= 0) by (nonlinear_arith)
            requires
                rate >= 0,
                e >= 0,
                r0 >= 0,
                n == rate * e + r0,
        ;
        assert(n / d >= 0) by (nonlinear_arith)
            requires
                n >= 0,
                d == 60_000,
        ;
    }
}

/// Billing in two steps charges what one step charges: billing up to `t1`
/// and then up to `t2` leaves the same state as billing up to `t2` at once,
/// as long as the cursor does not go back and the total does not saturate.
pub proof fn lemma_billing_splits(s: ParticipantState, rate_per_minute_nano: u64, t1: u64, t2: u64)
    requires
        s.last_billed_at_ms <= t1 <= t2,
        s.billing_remainder_mod_60k < 60_000,
        s.billed_nano_xor + (rate_per_minute_nano * (t2 - s.last_billed_at_ms)
            + s.billing_remainder_mod_60k) / 60_000 <= u64::MAX,
    ensures
        spec_advance_billing(spec_advance_billing(s, rate_per_minute_nano, t1), rate_per_minute_nano, t2)
            == spec_advance_billing(s, rate_per_minute_nano, t2),
{
    let rate = rate_per_minute_nano as int;
    let e1 = t1 - s.last_billed_at_ms;
    let e2 = t2 - t1;
    let r0 = s.billing_remainder_mod_60k as int;
    let d = 60_000int;
    let mid = spec_advance_billing(s, rate_per_minute_nano, t1);
    if rate == 0 || e1 == 0 || e2 == 0 {
        if rate != 0 && e1 == 0 && e2 != 0 {
            assert(mid == ParticipantState { last_billed_at_ms: t1, ..s });
        }
        if rate != 0 && e1 != 0 && e2 == 0 {
            let n1 = rate * e1 + r0;
            assert(n1 / d <= u64::MAX);
        }
    } else {
        let n1 = rate * e1 + r0;
        let q1 = n1 / d;
        let r1 = n1 % d;
        lemma_fundamental_div_mod(n1, d);
        let n2 = rate * e2 + r1;
        let q2 = n2 / d;
        let r2 = n2 % d;
        lemma_fundamental_div_mod(n2, d);
        let n = rate * (e1 + e2) + r0;
        assert(rate * (e1 + e2) == rate * e1 + rate * e2) by (nonlinear_arith);
        assert(n == (q1 + q2) * d + r2) by (nonlinear_arith)
            requires
                n == rate * e1 + rate * e2 + r0,
                n1 == rate * e1 + r0,
                n1 == d * q1 + r1,
                n2 == rate * e2 + r1,
                n2 == d * q2 + r2,
        ;
        lemma_fundamental_div_mod_converse(n, d, q1 + q2, r2);
        assert(0 <= q1 && 0 <= q2) by (nonlinear_arith)
            requires
                n1 >= 0,
                n2 >= 0,
                q1 == n1 / d,
                q2 == n2 / d,
                d == 60_000,
        ;
        assert(mid.billing_remainder_mod_60k == r1);
        assert(mid.billed_nano_xor == s.billed_nano_xor + q1);
    }
}

/// The message that disconnects a connection that never sent its anonymous
/// hello in time.
pub open spec fn spec_hello_timeout_message(connected_at_ms: u64, max_wait_secs: u64) -> Seq<char> {
    "anonymous hello timeout: connected_at_ms="@ + spec_decimal(connected_at_ms as nat)
        + " max_wait_secs="@ + spec_decimal(max_wait_secs as nat)
}

/// The message that disconnects an anonymous participant whose last escrow
/// proof is too old.
pub open spec fn spec_escrow_stale_message(last_proof_at_ms: u64, max_stale_secs: u64) -> Seq<char> {
    "anonymous escrow proof stale: last_proof_at_ms="@ + spec_decimal(last_proof_at_ms as nat)
        + " max_stale_secs="@ + spec_decimal(max_stale_secs as nat)
}

/// The message that disconnects a participant who is behind on payments.
pub open spec fn spec_payment_required_message(billed: u64, paid: u64, grace: u64, rate: u64) -> Seq<
    char,
> {
    "payment required: billed_nano_xor="@ + spec_decimal(billed as nat) + " paid_nano_xor="@
        + spec_decimal(paid as nat) + " grace_nano_xor="@ + spec_decimal(grace as nat)
        + " rate_per_minute_nano="@ + spec_decimal(rate as nat)
}

/// The window in milliseconds, saturating.
pub open spec fn spec_window_ms(secs: u64) -> int {
    if secs * 1000 <= u64::MAX {
        secs * 1000
    } else {
        u64::MAX as int
    }
}

/// More than the window passed from `from_ms` to `now_ms`.
pub open spec fn spec_window_passed(from_ms: u64, now_ms: u64, secs: u64) -> bool {
    (if now_ms >= from_ms {
        now_ms - from_ms
    } else {
        0
    }) > spec_window_ms(secs)
}

/// The reason to disconnect a connection at `now_ms`, and its billing state
/// after the check.
pub open spec fn spec_billing_check(
    cfg: BillingConfig,
    room_anonymous: bool,
    room_rate: u64,
    s: ParticipantState,
    now_ms: u64,
) -> (Option<Seq<char>>, ParticipantState) {
    let stale = cfg.anon_escrow_proof_max_stale_secs;
    let last_proof = match s.last_escrow_proof_at_ms {
        Some(t) => t,
        None => s.last_billed_at_ms,
    };
    let anon_reason: Option<Seq<char>> = if stale > 0 && !s.hello_seen && spec_window_passed(
        s.last_billed_at_ms,
        now_ms,
        stale,
    ) {
        Some(spec_hello_timeout_message(s.last_billed_at_ms, stale))
    } else if stale > 0 && s.hello_seen && spec_window_passed(last_proof, now_ms, stale) {
        Some(spec_escrow_stale_message(last_proof, stale))
    } else {
        None
    };
    let anonymous = room_anonymous || s.anonymous_mode;
    if anonymous && anon_reason is None {
        (None, s)
    } else {
        let billed_state = if s.hello_seen {
            spec_advance_billing(s, room_rate, now_ms)
        } else {
            ParticipantState { last_billed_at_ms: now_ms, ..s }
        };
        let grace = spec_cap_u64((room_rate * cfg.grace_secs) / 60);
        let behind = s.hello_seen && room_rate > 0 && billed_state.billed_nano_xor
            > spec_cap_u64(billed_state.paid_nano_xor + grace);
        let reason = if behind {
            Some(
                spec_payment_required_message(
                    billed_state.billed_nano_xor,
                    billed_state.paid_nano_xor,
                    grace,
                    room_rate,
                ),
            )
        } else if anonymous {
            anon_reason
        } else {
            None
        };
        (reason, billed_state)
    }
}

/// A billing check of a connection in a transparent room disconnects it
/// exactly when it has joined, the rate is not zero, and once billed up to
/// `now_ms` its charges exceed its payments plus what the grace window
/// costs at the rate (`rate * grace_secs / 60`). The check never changes
/// what was paid, and it moves the billing cursor to `now_ms`: a joined
/// connection is billed up to then, one without a hello only has its cursor
/// moved.
pub proof fn lemma_billing_disconnects_only_when_behind(
    cfg: BillingConfig,
    room_rate: u64,
    s: ParticipantState,
    now_ms: u64,
)
    requires
        !s.anonymous_mode,
    ensures
        spec_billing_check(cfg, false, room_rate, s, now_ms).0 is Some <==> (s.hello_seen && room_rate
            > 0 && spec_billing_check(cfg, false, room_rate, s, now_ms).1.billed_nano_xor
            > s.paid_nano_xor + (room_rate * cfg.grace_secs) / 60),
        spec_billing_check(cfg, false, room_rate, s, now_ms).1.paid_nano_xor == s.paid_nano_xor,
        spec_billing_check(cfg, false, room_rate, s, now_ms).1.last_billed_at_ms == now_ms,
        s.hello_seen ==> spec_billing_check(cfg, false, room_rate, s, now_ms).1 == spec_advance_billing(
            s,
            room_rate,
            now_ms,
        ),
        !s.hello_seen ==> spec_billing_check(cfg, false, room_rate, s, now_ms).1 == (ParticipantState {
            last_billed_at_ms: now_ms,
            ..s
        }),
{
    let g = (room_rate * cfg.grace_secs) / 60;
    assert(g >= 0) by (nonlinear_arith)
        requires
            g == (room_rate * cfg.grace_secs) / 60,
    ;
}

/// One periodic billing check of a connection at `now_ms`. Anonymous
/// connections are checked for the hello timeout and escrow staleness and
/// are left alone when neither applies. Otherwise a joined connection is
/// billed up to `now_ms` (one without a hello only has its cursor moved)
/// and is disconnected for payment when its charges exceed its payments
/// plus the grace window at a non-zero rate. Returns the disconnect reason.
pub fn billing_check(
    cfg: &BillingConfig,
    room_anonymous: bool,
    room_rate: u64,
    state: &mut ParticipantState,
    now_ms: u64,
) -> (r: Option<String>)
    ensures
        opt_text(r) == spec_billing_check(*cfg, room_anonymous, room_rate, *old(state), now_ms).0,
        *final(state) == spec_billing_check(*cfg, room_anonymous, room_rate, *old(state), now_ms).1,
{
    let stale = cfg.anon_escrow_proof_max_stale_secs;
    let mut reason: Option<String> = None;
    if room_anonymous || state.anonymous_mode {
        if stale > 0 && !state.hello_seen {
            let connected_at = state.last_billed_at_ms;
            if anonymous_hello_timed_out(connected_at, now_ms, stale) {
                let mut m = "anonymous hello timeout: connected_at_ms=".to_owned();
                push_decimal(&mut m, connected_at);
                m.append(" max_wait_secs=");
                push_decimal(&mut m, stale);
                reason = Some(m);
            }
        }
        if reason.is_none() && stale > 0 && state.hello_seen {
            let last = match state.last_escrow_proof_at_ms {
                Some(t) => t,
                None => state.last_billed_at_ms,
            };
            if escrow_proof_stale(last, now_ms, stale) {
                let mut m = "anonymous escrow proof stale: last_proof_at_ms=".to_owned();
                push_decimal(&mut m, last);
                m.append(" max_stale_secs=");
                push_decimal(&mut m, stale);
                reason = Some(m);
            }
        }
        if reason.is_none() {
            return None;
        }
    }
    if state.hello_seen {
        advance_billing(state, room_rate, now_ms);
    } else {
        state.last_billed_at_ms = now_ms;
    }
    let billed = state.billed_nano_xor;
    let paid = state.paid_nano_xor;
    let grace = cfg.grace_nano(room_rate);
    let allowance: u64 = if paid as u128 + grace as u128 > u64::MAX as u128 {
        u64::MAX
    } else {
        paid + grace
    };
    if state.hello_seen && room_rate > 0 && billed > allowance {
        let mut m = "payment required: billed_nano_xor=".to_owned();
        push_decimal(&mut m, billed);
        m.append(" paid_nano_xor=");
        push_decimal(&mut m, paid);
        m.append(" grace_nano_xor=");
        push_decimal(&mut m, grace);
        m.append(" rate_per_minute_nano=");
        push_decimal(&mut m, room_rate);
        reason = Some(m);
    }
    reason
}

} // verus!
