//! The five requests that the ledger answers.
//!
//! Each request is checked against the campaign record before anything
//! happens. [`initialize`] and [`toggle_active`] need no transfer of value
//! and take effect at once. [`donate`], [`withdraw`] and [`refund`] change
//! nothing: where the request is legal they name the transfer to be made,
//! which [`crate::transfer::settle`] books after the caller has made it.

use vstd::prelude::*;
use vstd::string::*;
use crate::accounts::{Donate, Initialize, Refund, ToggleActive, Withdraw};
use crate::error::SahayogError;
use crate::identity::Identity;
use crate::state::{
    DonationState, Phase, MAX_CAMPAIGN_DURATION, MAX_DONATION_LAMPORTS, MAX_MESSAGE_LENGTH,
    MIN_DONATION_LAMPORTS,
};
use crate::transfer::{Transfer, TransferKind};

verus! {

/// The answer that refuses a request for a transfer with `error`.
pub open spec fn refused(error: SahayogError) -> Result<Transfer, SahayogError> {
    Err(error)
}

/// The answer to a request to create a campaign at time `now`: the deadline
/// must lie after `now` and at most `MAX_CAMPAIGN_DURATION` seconds after
/// it. The new record has empty books and accepts donations.
pub open spec fn initialize_spec(
    ctx: &Initialize,
    fund_wallet: Identity,
    deadline: i64,
    now: i64,
) -> Result<DonationState, SahayogError> {
    if deadline <= now {
        Err(SahayogError::DeadlineInPast)
    } else if deadline > now + MAX_CAMPAIGN_DURATION {
        Err(SahayogError::CampaignTooLong)
    } else {
        Ok(
            DonationState {
                authority: ctx.authority,
                fund_wallet,
                total_donated: 0,
                total_withdrawn: 0,
                donor_count: 0,
                is_active: true,
                deadline,
                bump: ctx.bump,
            },
        )
    }
}

/// The answer to a donation of `amount` with `message` at time `now`. The
/// first condition that fails decides the error.
pub open spec fn donate_spec(
    state: &DonationState,
    ctx: &Donate,
    amount: u64,
    message: Seq<char>,
    now: i64,
) -> Result<Transfer, SahayogError> {
    if ctx.fund_wallet@ != state.fund_wallet@ {
        Err(SahayogError::InvalidFundWallet)
    } else if !state.is_active {
        Err(SahayogError::CampaignInactive)
    } else if now >= state.deadline {
        Err(SahayogError::CampaignExpired)
    } else if amount < MIN_DONATION_LAMPORTS {
        Err(SahayogError::DonationTooSmall)
    } else if amount > MAX_DONATION_LAMPORTS {
        Err(SahayogError::DonationTooLarge)
    } else if message.len() > MAX_MESSAGE_LENGTH {
        Err(SahayogError::MessageTooLong)
    } else {
        Ok(
            Transfer {
                kind: TransferKind::Donation,
                from: ctx.donor,
                to: ctx.fund_wallet,
                amount,
            },
        )
    }
}

/// The answer to a withdrawal of `amount` at time `now`. The first
/// condition that fails decides the error.
pub open spec fn withdraw_spec(state: &DonationState, ctx: &Withdraw, amount: u64, now: i64)
    -> Result<Transfer, SahayogError> {
    if ctx.authority@ != state.authority@ {
        Err(SahayogError::Unauthorized)
    } else if ctx.fund_wallet@ != state.fund_wallet@ {
        Err(SahayogError::InvalidFundWallet)
    } else if now < state.deadline {
        Err(SahayogError::WithdrawalBeforeDeadline)
    } else if amount > state.available_spec() {
        Err(SahayogError::InsufficientFunds)
    } else if amount == 0 {
        Err(SahayogError::ZeroAmount)
    } else {
        Ok(
            Transfer {
                kind: TransferKind::Withdrawal,
                from: ctx.fund_wallet,
                to: ctx.authority,
                amount,
            },
        )
    }
}

/// The answer to a refund of `amount`, at any time. The first condition
/// that fails decides the error.
pub open spec fn refund_spec(state: &DonationState, ctx: &Refund, amount: u64) -> Result<
    Transfer,
    SahayogError,
> {
    if ctx.authority@ != state.authority@ {
        Err(SahayogError::Unauthorized)
    } else if ctx.fund_wallet@ != state.fund_wallet@ {
        Err(SahayogError::InvalidFundWallet)
    } else if amount > state.available_spec() {
        Err(SahayogError::InsufficientFunds)
    } else if amount == 0 {
        Err(SahayogError::ZeroAmount)
    } else {
        Ok(Transfer { kind: TransferKind::Refund, from: ctx.fund_wallet, to: ctx.donor, amount })
    }
}

/// The answer to a request to pause or resume: for the authority, the
/// record with `is_active` flipped and nothing else changed.
pub open spec fn toggle_active_spec(state: &DonationState, ctx: &ToggleActive) -> Result<
    DonationState,
    SahayogError,
> {
    if ctx.authority@ != state.authority@ {
        Err(SahayogError::Unauthorized)
    } else {
        Ok(DonationState { is_active: !state.is_active, ..*state })
    }
}

/// Creates the campaign record at time `now`.
pub fn initialize(ctx: &Initialize, fund_wallet: Identity, deadline: i64, now: i64) -> (r: Result<
    DonationState,
    SahayogError,
>)
    ensures
        r == initialize_spec(ctx, fund_wallet, deadline, now),
        r is Ok ==> r->Ok_0.wf(),
        r is Ok <==> now < deadline <= now + MAX_CAMPAIGN_DURATION,
{
    if deadline <= now {
        return Err(SahayogError::DeadlineInPast);
    }
    // `now + MAX_CAMPAIGN_DURATION` may lie past the largest timestamp; no
    // deadline is later than that.
    if now <= i64::MAX - MAX_CAMPAIGN_DURATION && deadline > now + MAX_CAMPAIGN_DURATION {
        return Err(SahayogError::CampaignTooLong);
    }
    Ok(
        DonationState {
            authority: ctx.authority,
            fund_wallet,
            total_donated: 0,
            total_withdrawn: 0,
            donor_count: 0,
            is_active: true,
            deadline,
            bump: ctx.bump,
        },
    )
}

/// Decides on a donation of `amount` at time `now`, and names the transfer
/// from the donor to the treasury that an accepted donation calls for.
pub fn donate(state: &DonationState, ctx: &Donate, amount: u64, message: String, now: i64) -> (r:
    Result<Transfer, SahayogError>)
    ensures
        r == donate_spec(state, ctx, amount, message@, now),
        r is Ok ==> state.phase_spec(now) == Phase::Active,
{
    if ctx.fund_wallet != state.fund_wallet {
        return Err(SahayogError::InvalidFundWallet);
    }
    if !state.is_active {
        return Err(SahayogError::CampaignInactive);
    }
    if now >= state.deadline {
        return Err(SahayogError::CampaignExpired);
    }
    if amount < MIN_DONATION_LAMPORTS {
        return Err(SahayogError::DonationTooSmall);
    }
    if amount > MAX_DONATION_LAMPORTS {
        return Err(SahayogError::DonationTooLarge);
    }
    if message.as_str().unicode_len() > MAX_MESSAGE_LENGTH {
        return Err(SahayogError::MessageTooLong);
    }
    Ok(Transfer { kind: TransferKind::Donation, from: ctx.donor, to: ctx.fund_wallet, amount })
}

/// Decides on a withdrawal of `amount` at time `now`, and names the
/// transfer from the treasury to the authority that an accepted withdrawal
/// calls for.
pub fn withdraw(state: &DonationState, ctx: &Withdraw, amount: u64, now: i64) -> (r: Result<
    Transfer,
    SahayogError,
>)
    ensures
        r == withdraw_spec(state, ctx, amount, now),
        ctx.authority@ != state.authority@ ==> r == refused(SahayogError::Unauthorized),
        ctx.authority@ == state.authority@ && ctx.fund_wallet@ == state.fund_wallet@ && now
            < state.deadline ==> r == refused(SahayogError::WithdrawalBeforeDeadline),
        r is Ok ==> r->Ok_0.fits_spec(state),
        r is Ok ==> state.phase_spec(now) == Phase::Expired,
{
    if ctx.authority != state.authority {
        return Err(SahayogError::Unauthorized);
    }
    if ctx.fund_wallet != state.fund_wallet {
        return Err(SahayogError::InvalidFundWallet);
    }
    if now < state.deadline {
        return Err(SahayogError::WithdrawalBeforeDeadline);
    }
    if amount > state.available() {
        return Err(SahayogError::InsufficientFunds);
    }
    if amount == 0 {
        return Err(SahayogError::ZeroAmount);
    }
    Ok(Transfer { kind: TransferKind::Withdrawal, from: ctx.fund_wallet, to: ctx.authority, amount })
}

/// Decides on a refund of `amount`, and names the transfer from the
/// treasury to the donor that an accepted refund calls for. A refund is
/// bound to no time.
pub fn refund(state: &DonationState, ctx: &Refund, amount: u64) -> (r: Result<
    Transfer,
    SahayogError,
>)
    ensures
        r == refund_spec(state, ctx, amount),
        r is Ok ==> r->Ok_0.fits_spec(state),
{
    if ctx.authority != state.authority {
        return Err(SahayogError::Unauthorized);
    }
    if ctx.fund_wallet != state.fund_wallet {
        return Err(SahayogError::InvalidFundWallet);
    }
    if amount > state.available() {
        return Err(SahayogError::InsufficientFunds);
    }
    if amount == 0 {
        return Err(SahayogError::ZeroAmount);
    }
    Ok(Transfer { kind: TransferKind::Refund, from: ctx.fund_wallet, to: ctx.donor, amount })
}

/// Pauses a running campaign or resumes a paused one, for the authority.
/// Any other caller is refused and the record stays as it was.
pub fn toggle_active(state: &mut DonationState, ctx: &ToggleActive) -> (r: Result<
    (),
    SahayogError,
>)
    ensures
        match toggle_active_spec(old(state), ctx) {
            Ok(next) => r is Ok && *final(state) == next,
            Err(e) => r == Err::<(), SahayogError>(e) && *final(state) == *old(state),
        },
        old(state).wf() ==> final(state).wf(),
{
    if ctx.authority != state.authority {
        return Err(SahayogError::Unauthorized);
    }
    state.is_active = !state.is_active;
    Ok(())
}

} // verus!
