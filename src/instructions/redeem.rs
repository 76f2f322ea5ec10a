//! Redemption of stream tokens for their underlying tokens.

use crate::accounts::{Pubkey, TokenAccount};
use crate::error::ErrorCode;
use crate::state::{lemma_released_bounded, Stream};
use vstd::prelude::*;

verus! {

/// Accounts for redeeming stream tokens.
#[derive(Clone, Copy, Debug, Default)]
pub struct Redeem {
    /// Address of the mint of the [Stream] token.
    pub stream_mint: Pubkey,
    /// Address of the [Stream] record.
    pub stream_key: Pubkey,
    /// The [Stream] record.
    pub stream: Stream,
    /// The account holding the [Self::user_authority]'s stream tokens.
    pub source_stream_tokens: TokenAccount,
    /// Underlying tokens of the [Stream].
    pub underlying_tokens: TokenAccount,
    /// Destination of the underlying tokens backing the [Stream].
    pub destination_tokens: TokenAccount,
    /// Address of the crate token.
    pub crate_token: Pubkey,
    /// User redeeming the tokens.
    pub user_authority: Pubkey,
}

/// Emitted when stream tokens are redeemed. The runtime burns the requested
/// amount of stream tokens of the user and withdraws as many underlying
/// tokens to the destination.
#[derive(Clone, Copy, Debug, Default)]
pub struct RedeemEvent {
    /// The [Stream].
    pub stream: Pubkey,
    /// Mint of the underlying token.
    pub mint: Pubkey,
    /// Total tokens redeemed from the [Stream], this redemption included.
    pub amount: u64,
    /// Tokens remaining.
    pub amount_remaining: u64,
}

impl Redeem {
    /// The outcome of checking the accounts: the first check that fails
    /// gives the error.
    pub open spec fn validation(self) -> Result<(), ErrorCode> {
        if self.stream_mint != self.stream.mint {
            Err(ErrorCode::KeyMismatch)
        } else if self.source_stream_tokens.owner != self.user_authority {
            Err(ErrorCode::KeyMismatch)
        } else if self.source_stream_tokens.mint != self.stream.mint {
            Err(ErrorCode::KeyMismatch)
        } else if self.source_stream_tokens.amount == 0 {
            Err(ErrorCode::InsufficientStreamTokens)
        } else if self.underlying_tokens.key != self.stream.underlying_tokens {
            Err(ErrorCode::KeyMismatch)
        } else if self.destination_tokens.mint != self.stream.underlying_mint {
            Err(ErrorCode::KeyMismatch)
        } else if self.crate_token != self.stream.crate_token {
            Err(ErrorCode::KeyMismatch)
        } else {
            Ok(())
        }
    }

    /// The amount that may be redeemed at `now`, bounded by the balance of
    /// the account holding the underlying tokens.
    pub open spec fn released_amount(self, now: i64) -> Result<u64, ErrorCode> {
        match self.stream.available_at(now, self.underlying_tokens.amount) {
            Some(a) => Ok(a),
            None => Err(ErrorCode::IntegerOverflow),
        }
    }

    /// Whether `amount` may be redeemed at `now`.
    pub open spec fn redeem_check(self, amount: u64, now: i64) -> Result<(), ErrorCode> {
        match self.released_amount(now) {
            Ok(a) => if amount <= a {
                Ok(())
            } else {
                Err(ErrorCode::InsufficientWithdrawalBalance)
            },
            Err(e) => Err(e),
        }
    }

    /// The accounts after `amount` has been redeemed.
    pub open spec fn after_redeem(self, amount: u64) -> Redeem {
        Redeem {
            stream: Stream {
                redeemed_amount: (self.stream.redeemed_amount + amount) as u64,
                ..self.stream
            },
            ..self
        }
    }

    /// The event of redeeming `amount`: the new total redeemed and what
    /// remains of the deposit.
    pub open spec fn redeem_event(self, amount: u64) -> RedeemEvent {
        RedeemEvent {
            stream: self.stream_key,
            mint: self.stream.underlying_mint,
            amount: (self.stream.redeemed_amount + amount) as u64,
            amount_remaining: (self.stream.initial_amount - (self.stream.redeemed_amount
                + amount)) as u64,
        }
    }

    /// Checks that the accounts belong to the [Stream] and that the user
    /// holds stream tokens.
    pub fn validate(&self) -> (r: Result<(), ErrorCode>)
        ensures
            r == self.validation(),
    {
        if self.stream_mint != self.stream.mint {
            return Err(ErrorCode::KeyMismatch);
        }
        if self.source_stream_tokens.owner != self.user_authority {
            return Err(ErrorCode::KeyMismatch);
        }
        if self.source_stream_tokens.mint != self.stream.mint {
            return Err(ErrorCode::KeyMismatch);
        }
        if self.source_stream_tokens.amount == 0 {
            return Err(ErrorCode::InsufficientStreamTokens);
        }
        if self.underlying_tokens.key != self.stream.underlying_tokens {
            return Err(ErrorCode::KeyMismatch);
        }
        if self.destination_tokens.mint != self.stream.underlying_mint {
            return Err(ErrorCode::KeyMismatch);
        }
        if self.crate_token != self.stream.crate_token {
            return Err(ErrorCode::KeyMismatch);
        }
        Ok(())
    }

    /// The amount available for withdrawal at `current_ts`.
    pub fn amount_released(&self, current_ts: i64) -> (r: Result<u64, ErrorCode>)
        ensures
            r == self.released_amount(current_ts),
    {
        match self.stream.available_for_withdrawal(current_ts, self.underlying_tokens.amount) {
            Some(a) => Ok(a),
            None => Err(ErrorCode::IntegerOverflow),
        }
    }

    /// Checks that `amount` has been released at `current_ts`.
    pub fn redeem(&self, amount: u64, current_ts: i64) -> (r: Result<(), ErrorCode>)
        ensures
            r == self.redeem_check(amount, current_ts),
    {
        let amount_released = self.amount_released(current_ts)?;
        if amount > amount_released {
            return Err(ErrorCode::InsufficientWithdrawalBalance);
        }
        Ok(())
    }
}

/// Redeems `amount` at `current_ts`: checks that it has been released, then
/// adds it to the redeemed amount. On an error nothing changes.
pub fn handler(ctx: &mut Redeem, amount: u64, current_ts: i64) -> (r: Result<
    RedeemEvent,
    ErrorCode,
>)
    ensures
        r == (match old(ctx).redeem_check(amount, current_ts) {
            Ok(_) => Ok(old(ctx).redeem_event(amount)),
            Err(e) => Err(e),
        }),
        r is Ok ==> *final(ctx) == old(ctx).after_redeem(amount),
        r is Ok ==> final(ctx).stream.redeemed_amount == old(ctx).stream.redeemed_amount + amount,
        r is Ok ==> final(ctx).stream.wf(),
        r is Err ==> *final(ctx) == *old(ctx),
{
    ctx.redeem(amount, current_ts)?;
    proof {
        lemma_released_bounded(ctx.stream, current_ts);
    }
    let redeemed_amount = match ctx.stream.redeemed_amount.checked_add(amount) {
        Some(v) => v,
        None => return Err(ErrorCode::IntegerOverflow),
    };
    let amount_remaining = match ctx.stream.initial_amount.checked_sub(redeemed_amount) {
        Some(v) => v,
        None => return Err(ErrorCode::IntegerOverflow),
    };
    ctx.stream.redeemed_amount = redeemed_amount;
    Ok(
        RedeemEvent {
            stream: ctx.stream_key,
            mint: ctx.stream.underlying_mint,
            amount: redeemed_amount,
            amount_remaining,
        },
    )
}

/// A redemption of more than is available for withdrawal, on accounts that
/// pass validation, is rejected for an insufficient balance; the operation
/// then changes nothing.
pub proof fn lemma_redeem_over_available_rejected(ctx: Redeem, amount: u64, now: i64)
    requires
        ctx.validation() is Ok,
        ctx.stream.available_at(now, ctx.underlying_tokens.amount) matches Some(avail) && amount
            > avail,
    ensures
        ctx.redeem_check(amount, now) == Err::<(), ErrorCode>(
            ErrorCode::InsufficientWithdrawalBalance,
        ),
{
}

} // verus!
