//! Transfers of value: what the ledger asks the caller to move, and how a
//! transfer that was made enters the books.
//!
//! The ledger moves nothing itself. An accepted request yields a
//! [`Transfer`]; the caller has it made and reports the outcome to
//! [`settle`], which books it only if it was made.

use vstd::prelude::*;
use crate::error::SahayogError;
use crate::identity::Identity;
use crate::state::DonationState;

verus! {

/// For which operation value is moved.
#[derive(Clone, Copy, Debug, PartialEq, Eq, Structural)]
pub enum TransferKind {
    /// From a donor to the treasury.
    Donation,
    /// From the treasury to the authority.
    Withdrawal,
    /// From the treasury back to a donor.
    Refund,
}

/// A transfer of value that an accepted request calls for.
#[derive(Clone, Copy, Debug)]
pub struct Transfer {
    /// The operation that calls for it.
    pub kind: TransferKind,
    /// The account that pays.
    pub from: Identity,
    /// The account that receives.
    pub to: Identity,
    /// The amount, in lamports.
    pub amount: u64,
}

/// The record of a booked transfer, for whoever audits the campaign.
#[derive(Clone, Copy, Debug)]
pub enum Event {
    /// A donation was booked; `total` is the sum of donations after it.
    Donation { amount: u64, donor: Identity, total: u64 },
    /// A withdrawal was booked; `remaining` is what is left after it.
    Withdrawal { amount: u64, authority: Identity, remaining: u64 },
    /// A refund to `donor` was booked, ordered by `authority`.
    Refund { amount: u64, donor: Identity, authority: Identity },
}

impl Transfer {
    /// Whether the books of `state` can take this transfer: a donation must
    /// not carry an accumulator past its largest value, and a payment out
    /// of the treasury must not exceed what is left.
    pub open spec fn fits_spec(&self, state: &DonationState) -> bool {
        match self.kind {
            TransferKind::Donation => {
                &&& state.total_donated + self.amount <= u64::MAX
                &&& state.donor_count + 1 <= u64::MAX
            },
            TransferKind::Withdrawal | TransferKind::Refund => {
                self.amount <= state.available_spec()
            },
        }
    }

    /// Whether the books of `state` can take this transfer.
    pub fn fits(&self, state: &DonationState) -> (r: bool)
        ensures
            r == self.fits_spec(state),
    {
        match self.kind {
            TransferKind::Donation => {
                self.amount <= u64::MAX - state.total_donated && state.donor_count < u64::MAX
            },
            TransferKind::Withdrawal | TransferKind::Refund => { self.amount <= state.available() },
        }
    }
}

impl DonationState {
    /// The record after `transfer` has been booked: a donation adds its
    /// amount to the donations and one to the count of donors; a withdrawal
    /// and a refund alike add their amount to what was withdrawn.
    pub open spec fn booked(&self, transfer: &Transfer) -> DonationState {
        match transfer.kind {
            TransferKind::Donation => DonationState {
                total_donated: (self.total_donated + transfer.amount) as u64,
                donor_count: (self.donor_count + 1) as u64,
                ..*self
            },
            TransferKind::Withdrawal | TransferKind::Refund => DonationState {
                total_withdrawn: (self.total_withdrawn + transfer.amount) as u64,
                ..*self
            },
        }
    }

    /// What is reported of `transfer` once it is booked on this record.
    pub open spec fn event_of(&self, transfer: &Transfer) -> Event {
        match transfer.kind {
            TransferKind::Donation => Event::Donation {
                amount: transfer.amount,
                donor: transfer.from,
                total: self.booked(transfer).total_donated,
            },
            TransferKind::Withdrawal => Event::Withdrawal {
                amount: transfer.amount,
                authority: transfer.to,
                remaining: self.booked(transfer).available_spec() as u64,
            },
            TransferKind::Refund => Event::Refund {
                amount: transfer.amount,
                donor: transfer.to,
                authority: self.authority,
            },
        }
    }
}

/// Books a transfer that the caller was asked to make.
///
/// Where the transfer was not made, nothing is booked and the result is
/// `TransferFailed`. Where it was made, the record becomes
/// `old(state).booked(transfer)` and the result describes the booking.
///
/// The books must be able to take a transfer that was made. A withdrawal or
/// a refund that was accepted on this record always fits; a donation fits
/// unless it would carry an accumulator past the largest value of a `u64`,
/// which [`Transfer::fits`] tells.
pub fn settle(state: &mut DonationState, transfer: &Transfer, succeeded: bool) -> (r: Result<
    Event,
    SahayogError,
>)
    requires
        succeeded ==> transfer.fits_spec(old(state)),
    ensures
        old(state).wf() ==> final(state).wf(),
        final(state).same_campaign(old(state)),
        !succeeded ==> *final(state) == *old(state),
        !succeeded ==> r == Err::<Event, SahayogError>(SahayogError::TransferFailed),
        succeeded ==> *final(state) == old(state).booked(transfer),
        succeeded ==> r == Ok::<Event, SahayogError>(old(state).event_of(transfer)),
        succeeded && transfer.kind == TransferKind::Donation ==> old(state).grown_by(
            final(state),
            transfer.amount as int,
            1,
            0,
        ),
        succeeded && transfer.kind != TransferKind::Donation ==> old(state).grown_by(
            final(state),
            0,
            0,
            transfer.amount as int,
        ),
{
    if !succeeded {
        return Err(SahayogError::TransferFailed);
    }
    match transfer.kind {
        TransferKind::Donation => {
            state.total_donated = state.total_donated + transfer.amount;
            state.donor_count = state.donor_count + 1;
            Ok(
                Event::Donation {
                    amount: transfer.amount,
                    donor: transfer.from,
                    total: state.total_donated,
                },
            )
        },
        TransferKind::Withdrawal => {
            state.total_withdrawn = state.total_withdrawn + transfer.amount;
            Ok(
                Event::Withdrawal {
                    amount: transfer.amount,
                    authority: transfer.to,
                    remaining: state.available(),
                },
            )
        },
        TransferKind::Refund => {
            state.total_withdrawn = state.total_withdrawn + transfer.amount;
            Ok(
                Event::Refund {
                    amount: transfer.amount,
                    donor: transfer.to,
                    authority: state.authority,
                },
            )
        },
    }
}

} // verus!
