//! Creation of a stream.

use crate::accounts::{is_key, option_is_key, Mint, Pubkey, TokenAccount};
use crate::error::ErrorCode;
use crate::state::Stream;
use vstd::prelude::*;

verus! {

/// Accounts for creating a stream.
#[derive(Clone, Copy, Debug, Default)]
pub struct CreateStream {
    /// Mint of the [Stream] token.
    pub stream_mint: Mint,
    /// Address of the [Stream] record to create.
    pub stream_key: Pubkey,
    /// Underlying mint.
    pub underlying_mint: Mint,
    /// The account holding the [Stream]'s tokens. Must be owned by the
    /// [Self::crate_token], and the amount should be > 0.
    pub underlying_tokens: TokenAccount,
    /// Destination of the [Stream] tokens.
    pub destination: Pubkey,
    /// The crate token to be created.
    pub crate_token: Pubkey,
}

/// Emitted when a stream is created. The runtime issues [Self::amount]
/// stream tokens to the destination.
#[derive(Clone, Copy, Debug, Default)]
pub struct StreamCreateEvent {
    /// The [Stream].
    pub stream: Pubkey,
    /// Mint of the underlying token.
    pub mint: Pubkey,
    /// Underlying tokens locked in the [Stream].
    pub amount: u64,
    /// The time at which the [Stream] begins.
    pub start_ts: i64,
    /// The time at which the [Stream] starts paying out its tokens.
    pub cliff_ts: i64,
    /// The time at which all tokens are released.
    pub end_ts: i64,
}

impl CreateStream {
    /// The outcome of checking the accounts: the first check that fails
    /// gives the error.
    pub open spec fn validation(self) -> Result<(), ErrorCode> {
        if !is_key(self.stream_mint.mint_authority, self.crate_token) {
            Err(ErrorCode::KeyMismatch)
        } else if !is_key(self.stream_mint.freeze_authority, self.crate_token) {
            Err(ErrorCode::KeyMismatch)
        } else if self.stream_mint.supply != 0 {
            Err(ErrorCode::InvariantFailed)
        } else if self.underlying_tokens.owner != self.crate_token {
            Err(ErrorCode::KeyMismatch)
        } else if self.underlying_tokens.amount == 0 {
            Err(ErrorCode::InvariantFailed)
        } else if self.underlying_tokens.delegate is Some {
            Err(ErrorCode::InvariantFailed)
        } else if self.underlying_tokens.close_authority is Some {
            Err(ErrorCode::InvariantFailed)
        } else if self.underlying_tokens.mint != self.underlying_mint.key {
            Err(ErrorCode::KeyMismatch)
        } else if self.underlying_mint.decimals != self.stream_mint.decimals {
            Err(ErrorCode::InvariantFailed)
        } else {
            Ok(())
        }
    }

    /// The stream record that creation writes.
    pub open spec fn new_stream(
        self,
        stream_bump: u8,
        start_ts: i64,
        cliff_ts: i64,
        end_ts: i64,
        revoker: Option<Pubkey>,
    ) -> Stream {
        Stream {
            mint: self.stream_mint.key,
            bump: stream_bump,
            revoker,
            crate_token: self.crate_token,
            underlying_mint: self.underlying_tokens.mint,
            underlying_tokens: self.underlying_tokens.key,
            initial_amount: self.underlying_tokens.amount,
            redeemed_amount: 0,
            start_ts,
            cliff_ts,
            end_ts,
        }
    }

    /// Checks the mints and the account holding the underlying tokens.
    pub fn validate(&self) -> (r: Result<(), ErrorCode>)
        ensures
            r == self.validation(),
    {
        if !option_is_key(&self.stream_mint.mint_authority, &self.crate_token) {
            return Err(ErrorCode::KeyMismatch);
        }
        if !option_is_key(&self.stream_mint.freeze_authority, &self.crate_token) {
            return Err(ErrorCode::KeyMismatch);
        }
        if self.stream_mint.supply != 0 {
            return Err(ErrorCode::InvariantFailed);
        }
        if self.underlying_tokens.owner != self.crate_token {
            return Err(ErrorCode::KeyMismatch);
        }
        if self.underlying_tokens.amount == 0 {
            return Err(ErrorCode::InvariantFailed);
        }
        if self.underlying_tokens.delegate.is_some() {
            return Err(ErrorCode::InvariantFailed);
        }
        if self.underlying_tokens.close_authority.is_some() {
            return Err(ErrorCode::InvariantFailed);
        }
        if self.underlying_tokens.mint != self.underlying_mint.key {
            return Err(ErrorCode::KeyMismatch);
        }
        if self.underlying_mint.decimals != self.stream_mint.decimals {
            return Err(ErrorCode::InvariantFailed);
        }
        Ok(())
    }

    /// Builds the [Stream] record, holding the whole underlying balance.
    pub fn init_stream(
        &self,
        stream_bump: u8,
        start_ts: i64,
        cliff_ts: i64,
        end_ts: i64,
        revoker: Option<Pubkey>,
    ) -> (r: Stream)
        ensures
            r == self.new_stream(stream_bump, start_ts, cliff_ts, end_ts, revoker),
    {
        Stream {
            mint: self.stream_mint.key,
            bump: stream_bump,
            revoker,
            crate_token: self.crate_token,
            underlying_mint: self.underlying_tokens.mint,
            underlying_tokens: self.underlying_tokens.key,
            initial_amount: self.underlying_tokens.amount,
            redeemed_amount: 0,
            start_ts,
            cliff_ts,
            end_ts,
        }
    }
}

/// What creation gives: an error for a schedule that ends no later than it
/// starts or whose cliff lies outside it, and otherwise the new record and
/// the event that announces it.
pub open spec fn creation(
    ctx: CreateStream,
    stream_bump: u8,
    start_ts: i64,
    cliff_ts: i64,
    end_ts: i64,
    revoker: Option<Pubkey>,
) -> Result<(Stream, StreamCreateEvent), ErrorCode> {
    if end_ts <= start_ts {
        Err(ErrorCode::InvalidSchedule)
    } else if cliff_ts < start_ts || cliff_ts > end_ts {
        Err(ErrorCode::InvariantFailed)
    } else {
        let s = ctx.new_stream(stream_bump, start_ts, cliff_ts, end_ts, revoker);
        Ok(
            (
                s,
                StreamCreateEvent {
                    stream: ctx.stream_key,
                    mint: s.underlying_mint,
                    amount: s.initial_amount,
                    start_ts,
                    cliff_ts,
                    end_ts,
                },
            ),
        )
    }
}

/// Checks the schedule, then builds the [Stream] record and the event that
/// announces it. The runtime opens the crate token and issues the event's
/// amount of stream tokens to the destination.
pub fn handler(
    ctx: &CreateStream,
    stream_bump: u8,
    start_ts: i64,
    cliff_ts: i64,
    end_ts: i64,
    revoker: Option<Pubkey>,
) -> (r: Result<(Stream, StreamCreateEvent), ErrorCode>)
    ensures
        r == creation(*ctx, stream_bump, start_ts, cliff_ts, end_ts, revoker),
        r matches Ok((s, _)) ==> s.valid_schedule() && s.wf() && s.redeemed_amount == 0,
{
    if end_ts <= start_ts {
        return Err(ErrorCode::InvalidSchedule);
    }
    if cliff_ts < start_ts {
        return Err(ErrorCode::InvariantFailed);
    }
    if cliff_ts > end_ts {
        return Err(ErrorCode::InvariantFailed);
    }
    let stream = ctx.init_stream(stream_bump, start_ts, cliff_ts, end_ts, revoker);
    let event = StreamCreateEvent {
        stream: ctx.stream_key,
        mint: stream.underlying_mint,
        amount: stream.initial_amount,
        start_ts: stream.start_ts,
        cliff_ts: stream.cliff_ts,
        end_ts: stream.end_ts,
    };
    Ok((stream, event))
}

} // verus!
