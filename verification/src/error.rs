//! The reasons for which the ledger rejects a request.

use vstd::prelude::*;

verus! {

/// Why a request was rejected. A rejected request changes nothing.
#[derive(Clone, Copy, Debug, PartialEq, Eq, Structural)]
pub enum SahayogError {
    /// The caller is not the campaign authority.
    Unauthorized,
    /// The campaign is paused.
    CampaignInactive,
    /// The deadline has been reached.
    CampaignExpired,
    /// The donation is below the minimum.
    DonationTooSmall,
    /// The donation is above the maximum.
    DonationTooLarge,
    /// The message has more than the allowed number of characters.
    MessageTooLong,
    /// The deadline is not after the time of creation.
    DeadlineInPast,
    /// The deadline is further away than the longest campaign allowed.
    CampaignTooLong,
    /// The deadline has not been reached yet.
    WithdrawalBeforeDeadline,
    /// The amount exceeds what is left of the donations.
    InsufficientFunds,
    /// The amount is zero.
    ZeroAmount,
    /// The treasury account presented is not the one on record.
    InvalidFundWallet,
    /// The transfer of value was not made.
    TransferFailed,
}

impl SahayogError {
    /// The text that describes each error.
    pub open spec fn message_spec(self) -> Seq<char> {
        match self {
            SahayogError::Unauthorized =>
                "Unauthorized: Only the campaign authority can perform this action"@,
            SahayogError::CampaignInactive => "Campaign is not active"@,
            SahayogError::CampaignExpired => "Campaign has expired"@,
            SahayogError::DonationTooSmall => "Donation amount is below minimum (0.0001 SOL)"@,
            SahayogError::DonationTooLarge => "Donation amount exceeds maximum (500 SOL)"@,
            SahayogError::MessageTooLong => "Message exceeds maximum length (280 characters)"@,
            SahayogError::DeadlineInPast => "Deadline must be in the future"@,
            SahayogError::CampaignTooLong => "Campaign duration exceeds maximum (180 days)"@,
            SahayogError::WithdrawalBeforeDeadline =>
                "Withdrawal not allowed before campaign deadline"@,
            SahayogError::InsufficientFunds => "Insufficient funds for withdrawal"@,
            SahayogError::ZeroAmount => "Amount must be greater than zero"@,
            SahayogError::InvalidFundWallet => "Invalid fund wallet address"@,
            SahayogError::TransferFailed => "Transfer of funds failed"@,
        }
    }

    /// A description of the error for the caller.
    pub fn message(&self) -> (text: &'static str)
        ensures
            text@ == self.message_spec(),
    {
        match self {
            SahayogError::Unauthorized =>
                "Unauthorized: Only the campaign authority can perform this action",
            SahayogError::CampaignInactive => "Campaign is not active",
            SahayogError::CampaignExpired => "Campaign has expired",
            SahayogError::DonationTooSmall => "Donation amount is below minimum (0.0001 SOL)",
            SahayogError::DonationTooLarge => "Donation amount exceeds maximum (500 SOL)",
            SahayogError::MessageTooLong => "Message exceeds maximum length (280 characters)",
            SahayogError::DeadlineInPast => "Deadline must be in the future",
            SahayogError::CampaignTooLong => "Campaign duration exceeds maximum (180 days)",
            SahayogError::WithdrawalBeforeDeadline =>
                "Withdrawal not allowed before campaign deadline",
            SahayogError::InsufficientFunds => "Insufficient funds for withdrawal",
            SahayogError::ZeroAmount => "Amount must be greater than zero",
            SahayogError::InvalidFundWallet => "Invalid fund wallet address",
            SahayogError::TransferFailed => "Transfer of funds failed",
        }
    }
}

} // verus!
