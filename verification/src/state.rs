//! The campaign record and its accounting invariant.

use vstd::prelude::*;
use crate::identity::Identity;

verus! {

/// The smallest donation accepted, in lamports.
pub const MIN_DONATION_LAMPORTS: u64 = 100_000;

/// The largest donation accepted, in lamports.
pub const MAX_DONATION_LAMPORTS: u64 = 500_000_000_000;

/// The longest time, in seconds, between creation and deadline: 180 days.
pub const MAX_CAMPAIGN_DURATION: i64 = 15_552_000;

/// The largest number of characters in a donor's message.
pub const MAX_MESSAGE_LENGTH: usize = 280;

/// Where a campaign stands at a given time. The deadline is not stored as a
/// state: a campaign is expired from its deadline on, paused or not.
#[derive(Clone, Copy, Debug, PartialEq, Eq, Structural)]
pub enum Phase {
    /// Before the deadline and accepting donations.
    Active,
    /// Before the deadline and paused by the authority.
    Paused,
    /// At or after the deadline.
    Expired,
}

/// The record of one campaign.
///
/// `authority`, `fund_wallet`, `deadline` and `bump` are fixed at creation.
/// `total_donated`, `total_withdrawn` and `donor_count` only grow.
#[derive(Clone, Copy, Debug)]
pub struct DonationState {
    /// The creator of the campaign, who alone may move funds out.
    pub authority: Identity,
    /// The treasury account that holds the funds.
    pub fund_wallet: Identity,
    /// The sum of all donations booked, in lamports.
    pub total_donated: u64,
    /// The sum of all withdrawals and refunds booked, in lamports.
    pub total_withdrawn: u64,
    /// The number of donations booked.
    pub donor_count: u64,
    /// Whether new donations are accepted.
    pub is_active: bool,
    /// The end of the campaign, in seconds since the epoch.
    pub deadline: i64,
    /// The handle under which the record is stored. The ledger carries it
    /// and never reads it.
    pub bump: u8,
}

impl DonationState {
    /// The accounting invariant: no more has left the campaign than came in.
    pub open spec fn wf(&self) -> bool {
        self.total_withdrawn <= self.total_donated
    }

    /// What is left of the donations; zero where the record is out of
    /// balance.
    pub open spec fn available_spec(&self) -> int {
        if self.total_donated >= self.total_withdrawn {
            self.total_donated - self.total_withdrawn
        } else {
            0
        }
    }

    /// Whether the deadline has been reached at time `now`.
    pub open spec fn expired_spec(&self, now: i64) -> bool {
        now >= self.deadline
    }

    /// Where the campaign stands at time `now`.
    pub open spec fn phase_spec(&self, now: i64) -> Phase {
        if now >= self.deadline {
            Phase::Expired
        } else if self.is_active {
            Phase::Active
        } else {
            Phase::Paused
        }
    }

    /// Whether the fields fixed at creation are the same in both records.
    pub open spec fn same_campaign(&self, other: &DonationState) -> bool {
        &&& self.authority == other.authority
        &&& self.fund_wallet == other.fund_wallet
        &&& self.deadline == other.deadline
        &&& self.bump == other.bump
    }

    /// Whether `next` is this record with `donated` more lamports donated,
    /// `donors` more donors counted and `withdrawn` more lamports
    /// withdrawn, and nothing else changed.
    pub open spec fn grown_by(
        &self,
        next: &DonationState,
        donated: int,
        donors: int,
        withdrawn: int,
    ) -> bool {
        &&& next.same_campaign(self)
        &&& next.is_active == self.is_active
        &&& next.total_donated == self.total_donated + donated
        &&& next.donor_count == self.donor_count + donors
        &&& next.total_withdrawn == self.total_withdrawn + withdrawn
    }

    /// What is left of the donations, in lamports.
    pub fn available(&self) -> (left: u64)
        ensures
            left == self.available_spec(),
    {
        if self.total_donated >= self.total_withdrawn {
            self.total_donated - self.total_withdrawn
        } else {
            0
        }
    }

    /// Where the campaign stands at time `now`.
    pub fn phase(&self, now: i64) -> (phase: Phase)
        ensures
            phase == self.phase_spec(now),
    {
        if now >= self.deadline {
            Phase::Expired
        } else if self.is_active {
            Phase::Active
        } else {
            Phase::Paused
        }
    }

    /// Whether the deadline has been reached at time `now`.
    pub fn expired(&self, now: i64) -> (r: bool)
        ensures
            r == self.expired_spec(now),
    {
        now >= self.deadline
    }
}

} // verus!
