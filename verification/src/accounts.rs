//! The accounts that a caller presents with each request.
//!
//! Every identity here has been authenticated before the ledger sees it.
//! The ledger holds each of them against the campaign record.

use vstd::prelude::*;
use crate::identity::Identity;

verus! {

/// The accounts of a request to create the campaign.
#[derive(Clone, Copy, Debug)]
pub struct Initialize {
    /// Who creates the campaign and becomes its authority.
    pub authority: Identity,
    /// The handle under which the record will be stored.
    pub bump: u8,
}

/// The accounts of a donation.
#[derive(Clone, Copy, Debug)]
pub struct Donate {
    /// Who gives.
    pub donor: Identity,
    /// The treasury account that is to receive the donation.
    pub fund_wallet: Identity,
}

/// The accounts of a withdrawal.
#[derive(Clone, Copy, Debug)]
pub struct Withdraw {
    /// Who asks for the withdrawal.
    pub authority: Identity,
    /// The treasury account that is to pay.
    pub fund_wallet: Identity,
}

/// The accounts of a refund.
#[derive(Clone, Copy, Debug)]
pub struct Refund {
    /// Who orders the refund.
    pub authority: Identity,
    /// The treasury account that is to pay.
    pub fund_wallet: Identity,
    /// The donor who is paid back.
    pub donor: Identity,
}

/// The accounts of a request to pause or resume the campaign.
#[derive(Clone, Copy, Debug)]
pub struct ToggleActive {
    /// Who asks.
    pub authority: Identity,
}

} // verus!
