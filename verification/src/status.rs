//! The stations of a campaign's life.

use vstd::prelude::*;

verus! {

/// Where a campaign stands. It starts `Active`; when its deadline has passed it
/// is found `Successful` or `Failed`; a successful campaign ends `Withdrawn`.
#[derive(Clone, Copy, Debug, PartialEq, Eq, Structural)]
pub enum CampaignStatus {
    Active,
    Successful,
    Failed,
    Withdrawn,
}

impl CampaignStatus {
    /// The number under which the status is reported and stored.
    pub open spec fn number(self) -> u32 {
        match self {
            CampaignStatus::Active => 0,
            CampaignStatus::Successful => 1,
            CampaignStatus::Failed => 2,
            CampaignStatus::Withdrawn => 3,
        }
    }

    /// Whether a campaign in this status can later be in the other one:
    /// it may stay where it is, leave `Active` for any status, or go from
    /// `Successful` to `Withdrawn`.
    pub open spec fn may_become(self, later: CampaignStatus) -> bool {
        ||| self == later
        ||| self == CampaignStatus::Active
        ||| self == CampaignStatus::Successful && later == CampaignStatus::Withdrawn
    }

    /// The number under which the status is reported and stored.
    pub fn code(self) -> (code: u32)
        ensures
            code == self.number(),
    {
        match self {
            CampaignStatus::Active => 0,
            CampaignStatus::Successful => 1,
            CampaignStatus::Failed => 2,
            CampaignStatus::Withdrawn => 3,
        }
    }

    /// The status that is reported under a number, if there is one.
    pub fn from_code(code: u32) -> (status: Option<CampaignStatus>)
        ensures
            code <= 3 ==> status.is_some() && status.unwrap().number() == code,
            code > 3 ==> status.is_none(),
    {
        if code == 0 {
            Some(CampaignStatus::Active)
        } else if code == 1 {
            Some(CampaignStatus::Successful)
        } else if code == 2 {
            Some(CampaignStatus::Failed)
        } else if code == 3 {
            Some(CampaignStatus::Withdrawn)
        } else {
            None
        }
    }
}

} // verus!
