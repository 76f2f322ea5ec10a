//! Revocation of a stream.

use crate::accounts::{Pubkey, TokenAccount};
use crate::error::ErrorCode;
use crate::instructions::redeem::Redeem;
use crate::state::{lemma_released_bounded, Stream};
use vstd::prelude::*;

verus! {

/// Accounts for revoking a stream.
#[derive(Clone, Copy, Debug, Default)]
pub struct Revoke {
    /// Address of the [Stream] record.
    pub stream_key: Pubkey,
    /// The [Stream] record.
    pub stream: Stream,
    /// Address of the crate token.
    pub crate_token: Pubkey,
    /// Underlying tokens of the [Stream].
    pub underlying_tokens: TokenAccount,
    /// Destination of the underlying tokens backing the [Stream].
    pub destination_tokens: TokenAccount,
    /// The account asking to revoke; it must be the [Stream]'s revoker.
    pub revoker: Pubkey,
}

/// Emitted when a stream is revoked.
#[derive(Clone, Copy, Debug, Default)]
pub struct RevokeEvent {
    /// The [Stream].
    pub stream: Pubkey,
    /// Mint of the underlying token.
    pub mint: Pubkey,
    /// Account that revoked the [Stream].
    pub revoker: Pubkey,
}

impl Revoke {
    /// The outcome of checking the accounts: a stream without a revoker is
    /// irrevocable, another signer is not the revoker, and the accounts must
    /// belong to the stream.
    pub open spec fn validation(self) -> Result<(), ErrorCode> {
        if self.stream.revoker is None {
            Err(ErrorCode::Irrevocable)
        } else if self.stream.revoker != Some(self.revoker) {
            Err(ErrorCode::NotRevoker)
        } else if self.crate_token != self.stream.crate_token {
            Err(ErrorCode::KeyMismatch)
        } else if self.underlying_tokens.key != self.stream.underlying_tokens {
            Err(ErrorCode::KeyMismatch)
        } else if self.destination_tokens.mint != self.stream.underlying_mint {
            Err(ErrorCode::KeyMismatch)
        } else {
            Ok(())
        }
    }

    /// The accounts after revoking at `now`: the stream counts everything as
    /// redeemed and ends at `now`.
    pub open spec fn after_revoke(self, now: i64) -> Revoke {
        Revoke {
            stream: Stream {
                redeemed_amount: self.stream.initial_amount,
                end_ts: now,
                ..self.stream
            },
            ..self
        }
    }

    /// Checks the revoker and that the accounts belong to the [Stream].
    pub fn validate(&self) -> (r: Result<(), ErrorCode>)
        ensures
            r == self.validation(),
    {
        match self.stream.revoker {
            None => {
                return Err(ErrorCode::Irrevocable);
            },
            Some(k) => {
                if k != self.revoker {
                    return Err(ErrorCode::NotRevoker);
                }
            },
        }
        if self.crate_token != self.stream.crate_token {
            return Err(ErrorCode::KeyMismatch);
        }
        if self.underlying_tokens.key != self.stream.underlying_tokens {
            return Err(ErrorCode::KeyMismatch);
        }
        if self.destination_tokens.mint != self.stream.underlying_mint {
            return Err(ErrorCode::KeyMismatch);
        }
        Ok(())
    }

    /// Invalidates the stream at `current_ts` and returns the amount that the
    /// runtime withdraws to the destination: the whole underlying balance.
    pub fn revoke(&mut self, current_ts: i64) -> (r: u64)
        ensures
            r == old(self).underlying_tokens.amount,
            *final(self) == old(self).after_revoke(current_ts),
    {
        let amount = self.underlying_tokens.amount;
        self.stream.redeemed_amount = self.stream.initial_amount;
        self.stream.end_ts = current_ts;
        amount
    }
}

/// Revokes the stream at `current_ts`. Returns the amount withdrawn to the
/// destination and the event that announces the revocation.
pub fn handler(ctx: &mut Revoke, current_ts: i64) -> (r: (u64, RevokeEvent))
    ensures
        *final(ctx) == old(ctx).after_revoke(current_ts),
        final(ctx).stream.wf(),
        r == (
            old(ctx).underlying_tokens.amount,
            RevokeEvent {
                stream: old(ctx).stream_key,
                mint: old(ctx).stream.underlying_mint,
                revoker: old(ctx).revoker,
            },
        ),
{
    let amount = ctx.revoke(current_ts);
    let event = RevokeEvent {
        stream: ctx.stream_key,
        mint: ctx.stream.underlying_mint,
        revoker: ctx.revoker,
    };
    (amount, event)
}

/// Once a stream is revoked, nothing more is available for withdrawal at any
/// time and from any balance: the amount is zero or cannot be computed, and
/// a redemption of a positive amount is rejected.
pub proof fn lemma_nothing_after_revoke(
    ctx: Revoke,
    revoked_at: i64,
    redeem: Redeem,
    amount: u64,
    now: i64,
)
    requires
        redeem.stream == ctx.after_revoke(revoked_at).stream,
    ensures
        redeem.released_amount(now) is Err || redeem.released_amount(now) == Ok::<
            u64,
            ErrorCode,
        >(0),
        amount > 0 ==> redeem.redeem_check(amount, now) is Err,
{
    lemma_released_bounded(redeem.stream, now);
}

} // verus!
