//! The stream record and its release schedule.

use crate::accounts::Pubkey;
use num_traits::ToPrimitive;
use vstd::arithmetic::div_mod::{lemma_div_by_multiple, lemma_div_is_ordered};
use vstd::prelude::*;

verus! {

/// The share `elapsed * amount / duration` of an amount grows with the
/// elapsed time and never exceeds the amount.
proof fn lemma_share_ordered(e1: int, e2: int, d: int, a: int)
    requires
        0 <= e1 <= e2 <= d,
        0 < d,
        0 <= a,
    ensures
        0 <= e1 * a / d <= e2 * a / d <= a,
{
    assert(0 <= e1 * a <= e2 * a <= d * a) by (nonlinear_arith)
        requires
            0 <= e1 <= e2 <= d,
            0 <= a,
    ;
    lemma_div_is_ordered(0, e1 * a, d);
    lemma_div_is_ordered(e1 * a, e2 * a, d);
    lemma_div_is_ordered(e2 * a, d * a, d);
    lemma_div_by_multiple(a, d);
    assert(d * a == a * d) by (nonlinear_arith);
}

/// A stream of tokens being sent, with a cliff and an optional [Self::revoker].
///
/// When a [Stream] is created, there is one token created for every underlying
/// token backing the [Stream].
#[derive(Clone, Copy, Debug, Default)]
pub struct Stream {
    /// The mint of the [Stream] token.
    pub mint: Pubkey,
    /// Bump seed.
    pub bump: u8,
    /// An optional account which may invalidate this stream and receive all of
    /// the underlying tokens.
    pub revoker: Option<Pubkey>,
    /// The crate token that holds the underlying tokens.
    pub crate_token: Pubkey,
    /// The mint of the token locked up.
    pub underlying_mint: Pubkey,
    /// Token account holding the underlying tokens.
    pub underlying_tokens: Pubkey,
    /// How much was originally deposited.
    pub initial_amount: u64,
    /// The total amount of tokens that have been redeemed from the [Stream].
    pub redeemed_amount: u64,
    /// The time at which the [Stream] begins.
    pub start_ts: i64,
    /// The time at which the [Stream] starts paying out its tokens.
    pub cliff_ts: i64,
    /// The time at which all tokens are released.
    pub end_ts: i64,
}

/// Relies on `num_traits::ToPrimitive::to_u64` for `i64`: the value itself
/// when it is not negative, nothing otherwise.
#[verifier::external_body]
fn i64_to_u64(x: i64) -> (r: Option<u64>)
    ensures
        r == (if x >= 0 { Some(x as u64) } else { None::<u64> }),
{
    x.to_u64()
}

/// Relies on `num_traits::ToPrimitive::to_u64` for `u128`: the value itself
/// when it fits in a `u64`, nothing otherwise.
#[verifier::external_body]
fn u128_to_u64(x: u128) -> (r: Option<u64>)
    ensures
        r == (if x <= u64::MAX { Some(x as u64) } else { None::<u64> }),
{
    x.to_u64()
}

impl Stream {
    /// The redeemed amount never exceeds what was deposited.
    pub open spec fn wf(self) -> bool {
        self.redeemed_amount <= self.initial_amount
    }

    /// The schedule that creation admits: the cliff lies within
    /// `[start_ts, end_ts]` and the stream ends after it starts.
    pub open spec fn valid_schedule(self) -> bool {
        self.start_ts <= self.cliff_ts && self.cliff_ts <= self.end_ts && self.start_ts
            < self.end_ts
    }

    /// The total amount released at `now`, with no value where a timestamp
    /// that is compared within the linear part is negative.
    pub open spec fn released_at(self, now: i64) -> Option<u64> {
        if now <= self.cliff_ts {
            Some(0)
        } else if now >= self.end_ts {
            Some(self.initial_amount)
        } else if now < 0 || self.start_ts < 0 || self.end_ts < 0 {
            None
        } else if now <= self.start_ts {
            Some(0)
        } else {
            Some(
                ((now - self.start_ts) * self.initial_amount / (self.end_ts
                    - self.start_ts)) as u64,
            )
        }
    }

    /// The released amount not yet redeemed, with no value where the redeemed
    /// amount exceeds what is released.
    pub open spec fn outstanding_at(self, now: i64) -> Option<u64> {
        match self.released_at(now) {
            Some(t) => if t >= self.redeemed_amount {
                Some((t - self.redeemed_amount) as u64)
            } else {
                None
            },
            None => None,
        }
    }

    /// The amount that may be withdrawn at `now` from an account holding
    /// `remaining`.
    pub open spec fn available_at(self, now: i64, remaining: u64) -> Option<u64> {
        match self.outstanding_at(now) {
            Some(o) => Some(if o <= remaining { o } else { remaining }),
            None => None,
        }
    }

    /// Computes the amount of tokens available for withdrawal.
    /// The `remaining_amount` should be the balance of the account holding the
    /// underlying tokens.
    pub fn available_for_withdrawal(&self, current_ts: i64, remaining_amount: u64) -> (r: Option<
        u64,
    >)
        ensures
            r == self.available_at(current_ts, remaining_amount),
    {
        let outstanding = self.outstanding_released(current_ts)?;
        if outstanding <= remaining_amount {
            Some(outstanding)
        } else {
            Some(remaining_amount)
        }
    }

    /// The amount of outstanding locked tokens released.
    pub fn outstanding_released(&self, current_ts: i64) -> (r: Option<u64>)
        ensures
            r == self.outstanding_at(current_ts),
    {
        self.total_released(current_ts)?.checked_sub(self.redeemed_amount)
    }

    /// Returns the total released amount up to the given ts, assuming zero
    /// withdrawals and zero funds sent elsewhere.
    pub fn total_released(&self, current_ts: i64) -> (r: Option<u64>)
        ensures
            r == self.released_at(current_ts),
    {
        if current_ts <= self.cliff_ts {
            return Some(0);
        }
        if current_ts >= self.end_ts {
            return Some(self.initial_amount);
        }
        // Division is done on unsigned values.
        let current_ts = i64_to_u64(current_ts)?;
        let start_ts = i64_to_u64(self.start_ts)?;
        let end_ts = i64_to_u64(self.end_ts)?;

        if current_ts <= start_ts {
            return Some(0);
        }
        if current_ts >= end_ts {
            return Some(self.initial_amount);
        }
        let elapsed = current_ts.checked_sub(start_ts)? as u128;
        let duration = end_ts.checked_sub(start_ts)? as u128;
        proof {
            let e = elapsed as int;
            let d = duration as int;
            let a = self.initial_amount as int;
            assert(0 <= e * a <= d * a) by (nonlinear_arith)
                requires
                    0 < e < d,
                    0 <= a,
            ;
            assert(d * a <= u64::MAX * u64::MAX) by (nonlinear_arith)
                requires
                    0 < d <= u64::MAX,
                    0 <= a <= u64::MAX,
            ;
            lemma_share_ordered(e, e, d, a);
        }
        let product = elapsed.checked_mul(self.initial_amount as u128)?;
        let quotient = product.checked_div(duration)?;
        u128_to_u64(quotient)
    }
}

/// The total released is bounded by the initial amount, and on a valid
/// schedule that starts at a non-negative time it always has a value.
pub proof fn lemma_released_bounded(s: Stream, now: i64)
    ensures
        s.released_at(now) matches Some(r) ==> r <= s.initial_amount,
        s.valid_schedule() && s.start_ts >= 0 ==> s.released_at(now) is Some,
{
    if now > s.cliff_ts && now < s.end_ts && now > s.start_ts && now >= 0 && s.start_ts >= 0 {
        let e = now - s.start_ts;
        lemma_share_ordered(e, e, s.end_ts - s.start_ts, s.initial_amount as int);
    }
}

/// The total released never decreases as time passes: of two instants that
/// both give a value, the later one gives at least as much.
pub proof fn lemma_released_monotonic(s: Stream, t1: i64, t2: i64)
    requires
        t1 <= t2,
    ensures
        s.released_at(t1) matches Some(r1) ==> (s.released_at(t2) matches Some(r2) ==> r1 <= r2),
{
    lemma_released_bounded(s, t1);
    lemma_released_bounded(s, t2);
    if s.released_at(t1) is Some && s.released_at(t2) is Some && t1 > s.cliff_ts && t1
        < s.end_ts && t1 > s.start_ts {
        let d = s.end_ts - s.start_ts;
        let a = s.initial_amount as int;
        if t2 < s.end_ts {
            lemma_share_ordered(t1 - s.start_ts, t2 - s.start_ts, d, a);
        } else {
            lemma_share_ordered(t1 - s.start_ts, t1 - s.start_ts, d, a);
        }
    }
}

/// Nothing is released up to and including the cliff.
pub proof fn lemma_nothing_before_cliff(s: Stream, now: i64)
    requires
        now <= s.cliff_ts,
    ensures
        s.released_at(now) == Some(0u64),
{
}

/// Everything is released from the end of the schedule on, at every instant
/// past the cliff.
pub proof fn lemma_all_after_end(s: Stream, now: i64)
    requires
        now >= s.end_ts,
        now > s.cliff_ts,
    ensures
        s.released_at(now) == Some(s.initial_amount),
{
}

} // verus!
