//! Venko: linear token streams with a cliff and an optional revoker.
//!
//! A payer locks an amount of an underlying token, which unlocks to the
//! holders of a claim token linearly between a start and an end time. This
//! crate holds the stream record, its release arithmetic, and the decisions of
//! the three operations on it (create, redeem, revoke). The token transfers
//! those operations ask for are performed by the runtime around it.

mod accounts;
mod error;
pub mod instructions;
mod state;

pub use accounts::{Mint, Pubkey, TokenAccount};
pub use error::ErrorCode;
pub use instructions::create_stream::{creation, CreateStream, StreamCreateEvent};
pub use instructions::redeem::{lemma_redeem_over_available_rejected, Redeem, RedeemEvent};
pub use instructions::revoke::{lemma_nothing_after_revoke, Revoke, RevokeEvent};
pub use state::{
    lemma_all_after_end, lemma_nothing_before_cliff, lemma_released_bounded,
    lemma_released_monotonic, Stream,
};
use vstd::prelude::*;

verus! {

/// Creates a new [Stream]: checks the accounts, then the schedule. On
/// success the runtime opens the crate token, stores the record and issues
/// the event's amount of stream tokens.
pub fn create_stream(
    ctx: &CreateStream,
    stream_bump: u8,
    start_ts: i64,
    cliff_ts: i64,
    end_ts: i64,
    revoker: Option<Pubkey>,
) -> (r: Result<(Stream, StreamCreateEvent), ErrorCode>)
    ensures
        r == (match ctx.validation() {
            Ok(_) => creation(*ctx, stream_bump, start_ts, cliff_ts, end_ts, revoker),
            Err(e) => Err(e),
        }),
        r matches Ok((s, _)) ==> s.valid_schedule() && s.wf() && s.initial_amount > 0,
{
    ctx.validate()?;
    instructions::create_stream::handler(ctx, stream_bump, start_ts, cliff_ts, end_ts, revoker)
}

/// Redeems `amount` [Stream] tokens for their underlying at `current_ts`. On
/// an error nothing changes.
pub fn redeem(ctx: &mut Redeem, amount: u64, current_ts: i64) -> (r: Result<
    RedeemEvent,
    ErrorCode,
>)
    ensures
        r == (match old(ctx).validation() {
            Ok(_) => match old(ctx).redeem_check(amount, current_ts) {
                Ok(_) => Ok(old(ctx).redeem_event(amount)),
                Err(e) => Err(e),
            },
            Err(e) => Err(e),
        }),
        r is Ok ==> *final(ctx) == old(ctx).after_redeem(amount) && final(ctx).stream.wf(),
        r is Err ==> *final(ctx) == *old(ctx),
{
    ctx.validate()?;
    instructions::redeem::handler(ctx, amount, current_ts)
}

/// Revokes the [Stream] at `current_ts`, sending all of the underlying tokens
/// to the destination. Only the [Stream]'s revoker may do so. Returns the
/// amount withdrawn and the event. On an error nothing changes.
///
/// [Stream] tokens stay in their holders' wallets; nothing more can be
/// redeemed with them.
pub fn revoke(ctx: &mut Revoke, current_ts: i64) -> (r: Result<(u64, RevokeEvent), ErrorCode>)
    ensures
        r == (match old(ctx).validation() {
            Ok(_) => Ok(
                (
                    old(ctx).underlying_tokens.amount,
                    RevokeEvent {
                        stream: old(ctx).stream_key,
                        mint: old(ctx).stream.underlying_mint,
                        revoker: old(ctx).revoker,
                    },
                ),
            ),
            Err(e) => Err(e),
        }),
        r is Ok ==> *final(ctx) == old(ctx).after_revoke(current_ts),
        r is Err ==> *final(ctx) == *old(ctx),
{
    ctx.validate()?;
    Ok(instructions::revoke::handler(ctx, current_ts))
}

} // verus!
