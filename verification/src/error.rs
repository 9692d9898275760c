//! Why the engine turns an operation down.

use vstd::prelude::*;

verus! {

/// The reason for which an operation was not carried out.
#[derive(Clone, Copy, Debug, PartialEq, Eq, Structural)]
pub enum EscrowError {
    /// The goal is not positive.
    InvalidGoal,
    /// The deadline is not in the future.
    InvalidDeadline,
    /// The minimum donation is negative.
    InvalidMinDonation,
    /// The caller did not prove control of the account it named.
    AuthFailed,
    /// The deadline has passed.
    CampaignEnded,
    /// The campaign no longer takes donations.
    CampaignNotActive,
    /// The amount is zero or negative.
    AmountNotPositive,
    /// The amount is under the campaign's minimum.
    BelowMinimumDonation,
    /// The caller is not the campaign's owner.
    NotOwner,
    /// The funds were paid out before.
    AlreadyWithdrawn,
    /// The campaign is still running and has not reached its goal.
    CampaignNotEligible,
    /// The deadline has passed and the goal was missed.
    GoalNotReached,
    /// The campaign has not failed.
    CampaignNotFailed,
    /// The ledger holds nothing for the account.
    NoDonationFound,
    /// The funds could not be moved.
    TransferFailed,
}

impl EscrowError {
    /// The sentence that goes with the error.
    pub open spec fn text(self) -> Seq<char> {
        match self {
            EscrowError::InvalidGoal => "Goal must be positive"@,
            EscrowError::InvalidDeadline => "Deadline must be in the future"@,
            EscrowError::InvalidMinDonation => "Minimum donation cannot be negative"@,
            EscrowError::AuthFailed => "Caller is not authorized"@,
            EscrowError::CampaignEnded => "Campaign has ended"@,
            EscrowError::CampaignNotActive => "Campaign is not active"@,
            EscrowError::AmountNotPositive => "Donation amount must be positive"@,
            EscrowError::BelowMinimumDonation => "Donation below minimum amount"@,
            EscrowError::NotOwner => "Only campaign owner can withdraw"@,
            EscrowError::AlreadyWithdrawn => "Funds already withdrawn"@,
            EscrowError::CampaignNotEligible => "Campaign must be successful or deadline must have passed"@,
            EscrowError::GoalNotReached => "Campaign failed to reach goal"@,
            EscrowError::CampaignNotFailed => "Refunds only available for failed campaigns"@,
            EscrowError::NoDonationFound => "No donation found for this address"@,
            EscrowError::TransferFailed => "Transfer failed"@,
        }
    }

    /// The sentence that goes with the error.
    pub fn message(&self) -> (message: &'static str)
        ensures
            message@ == self.text(),
    {
        match self {
            EscrowError::InvalidGoal => "Goal must be positive",
            EscrowError::InvalidDeadline => "Deadline must be in the future",
            EscrowError::InvalidMinDonation => "Minimum donation cannot be negative",
            EscrowError::AuthFailed => "Caller is not authorized",
            EscrowError::CampaignEnded => "Campaign has ended",
            EscrowError::CampaignNotActive => "Campaign is not active",
            EscrowError::AmountNotPositive => "Donation amount must be positive",
            EscrowError::BelowMinimumDonation => "Donation below minimum amount",
            EscrowError::NotOwner => "Only campaign owner can withdraw",
            EscrowError::AlreadyWithdrawn => "Funds already withdrawn",
            EscrowError::CampaignNotEligible => "Campaign must be successful or deadline must have passed",
            EscrowError::GoalNotReached => "Campaign failed to reach goal",
            EscrowError::CampaignNotFailed => "Refunds only available for failed campaigns",
            EscrowError::NoDonationFound => "No donation found for this address",
            EscrowError::TransferFailed => "Transfer failed",
        }
    }
}

} // verus!
