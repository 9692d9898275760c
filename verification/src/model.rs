//! The campaign as mathematics.
//!
//! A `CampaignState` is the whole state of one campaign: its fixed terms, its
//! running total, its status and its ledger. Each operation of the engine is a
//! function from a state, the operation's arguments, the clock's reading and
//! the answers of the outside parties to the next state and the operation's
//! result. The executable engine is proved to compute exactly these functions.

use vstd::prelude::*;
use crate::error::EscrowError;
use crate::ledger::all_positive;
use crate::ledger::recorded;
use crate::ledger::sum_of;
use crate::status::CampaignStatus;
use crate::transfer::deposit;
use crate::transfer::payout;
use crate::transfer::AuthProof;
use crate::transfer::TransferOutcome;
use crate::transfer::TransferView;

verus! {

/// The state of one campaign.
pub struct CampaignState {
    /// Whether the campaign has been set up.
    pub initialized: bool,
    /// The account that may withdraw the funds.
    pub owner: Seq<u8>,
    /// The amount to be raised.
    pub goal: int,
    /// The last moment at which donations are taken.
    pub deadline: int,
    /// The least amount that one donation may have.
    pub min_donation: int,
    /// The asset in which the campaign is funded.
    pub transfer_asset: Seq<u8>,
    pub title: Seq<char>,
    pub description: Seq<char>,
    pub image_url: Seq<char>,
    /// The sum of all contributions that the ledger records.
    pub total_raised: int,
    pub status: CampaignStatus,
    /// Whether the funds have been paid out to the owner.
    pub withdrawn: bool,
    /// What each contributor has given in all.
    pub ledger: Map<Seq<u8>, int>,
}

/// The terms with which a campaign is set up.
pub struct CampaignTerms {
    pub owner: Seq<u8>,
    pub goal: int,
    pub deadline: int,
    pub transfer_asset: Seq<u8>,
    pub title: Seq<char>,
    pub description: Seq<char>,
    pub image_url: Seq<char>,
    pub min_donation: int,
}

impl CampaignState {
    /// The state before the campaign is set up.
    pub open spec fn blank() -> CampaignState {
        CampaignState {
            initialized: false,
            owner: Seq::empty(),
            goal: 0,
            deadline: 0,
            min_donation: 0,
            transfer_asset: Seq::empty(),
            title: Seq::empty(),
            description: Seq::empty(),
            image_url: Seq::empty(),
            total_raised: 0,
            status: CampaignStatus::Active,
            withdrawn: false,
            ledger: Map::empty(),
        }
    }

    /// What holds of every state that the operations can reach:
    /// the ledger is finite and its amounts are positive; the total is the sum
    /// of the ledger; the funds are marked as paid out exactly in status
    /// `Withdrawn`; a campaign that is set up has a positive goal and no
    /// negative minimum, and it is `Successful` or `Withdrawn` exactly when its
    /// total has reached the goal; one that is not set up is blank.
    pub open spec fn consistent(self) -> bool {
        &&& self.ledger.dom().finite()
        &&& all_positive(self.ledger)
        &&& sum_of(self.ledger) == self.total_raised
        &&& self.withdrawn <==> self.status == CampaignStatus::Withdrawn
        &&& self.initialized ==> {
            &&& self.goal > 0
            &&& self.min_donation >= 0
            &&& self.total_raised >= self.goal <==> (self.status == CampaignStatus::Successful
                || self.status == CampaignStatus::Withdrawn)
        }
        &&& !self.initialized ==> self == CampaignState::blank()
    }

    /// Whether the deadline lies before the given moment.
    pub open spec fn deadline_passed(self, now: int) -> bool {
        now > self.deadline
    }

    /// The status in the light of the clock: an `Active` campaign whose
    /// deadline has passed is `Successful` if its total has reached the goal
    /// and `Failed` if not. Nothing else changes.
    pub open spec fn reconcile(self, now: int) -> CampaignState {
        if self.initialized && now > self.deadline && self.status == CampaignStatus::Active {
            CampaignState {
                status: if self.total_raised >= self.goal {
                    CampaignStatus::Successful
                } else {
                    CampaignStatus::Failed
                },
                ..self
            }
        } else {
            self
        }
    }

    /// Why a campaign cannot be set up with these terms, if it cannot.
    pub open spec fn initialize_result(terms: CampaignTerms, now: int, auth: AuthProof) -> Result<
        (),
        EscrowError,
    > {
        if auth == AuthProof::Denied {
            Err(EscrowError::AuthFailed)
        } else if terms.goal <= 0 {
            Err(EscrowError::InvalidGoal)
        } else if terms.deadline <= now {
            Err(EscrowError::InvalidDeadline)
        } else if terms.min_donation < 0 {
            Err(EscrowError::InvalidMinDonation)
        } else {
            Ok(())
        }
    }

    /// The state after an attempt to set the campaign up: with acceptable
    /// terms an `Active` campaign with these terms, nothing raised and an empty
    /// ledger; else the state as it was.
    pub open spec fn initialize(self, terms: CampaignTerms, now: int, auth: AuthProof) -> CampaignState {
        if Self::initialize_result(terms, now, auth).is_ok() {
            CampaignState {
                initialized: true,
                owner: terms.owner,
                goal: terms.goal,
                deadline: terms.deadline,
                min_donation: terms.min_donation,
                transfer_asset: terms.transfer_asset,
                title: terms.title,
                description: terms.description,
                image_url: terms.image_url,
                total_raised: 0,
                status: CampaignStatus::Active,
                withdrawn: false,
                ledger: Map::empty(),
            }
        } else {
            self
        }
    }

    /// The transfer that a donation calls for, or why the donation is turned
    /// down before any funds move.
    pub open spec fn donation_order(self, donor: Seq<u8>, amount: int, now: int, auth: AuthProof) -> Result<
        TransferView,
        EscrowError,
    > {
        if auth == AuthProof::Denied {
            Err(EscrowError::AuthFailed)
        } else if now > self.deadline {
            Err(EscrowError::CampaignEnded)
        } else if self.reconcile(now).status != CampaignStatus::Active {
            Err(EscrowError::CampaignNotActive)
        } else if amount <= 0 {
            Err(EscrowError::AmountNotPositive)
        } else if amount < self.min_donation {
            Err(EscrowError::BelowMinimumDonation)
        } else {
            Ok(deposit(donor, amount))
        }
    }

    /// How a donation ends.
    pub open spec fn donate_result(
        self,
        donor: Seq<u8>,
        amount: int,
        now: int,
        auth: AuthProof,
        transfer: TransferOutcome,
    ) -> Result<(), EscrowError> {
        match self.donation_order(donor, amount, now, auth) {
            Err(e) => Err(e),
            Ok(_) => if transfer == TransferOutcome::Failed {
                Err(EscrowError::TransferFailed)
            } else {
                Ok(())
            },
        }
    }

    /// The state after a donation. An accepted donation is added to the total
    /// and to the donor's entry, and the campaign becomes `Successful` once the
    /// total has reached the goal. A donation that is turned down leaves the
    /// state as the clock's reading left it; without proof of identity not even
    /// the clock is read.
    pub open spec fn donate(
        self,
        donor: Seq<u8>,
        amount: int,
        now: int,
        auth: AuthProof,
        transfer: TransferOutcome,
    ) -> CampaignState {
        let seen = self.reconcile(now);
        if auth == AuthProof::Denied {
            self
        } else if self.donate_result(donor, amount, now, auth, transfer).is_ok() {
            CampaignState {
                total_raised: seen.total_raised + amount,
                ledger: seen.ledger.insert(donor, recorded(seen.ledger, donor) + amount),
                status: if seen.total_raised + amount >= seen.goal {
                    CampaignStatus::Successful
                } else {
                    seen.status
                },
                ..seen
            }
        } else {
            seen
        }
    }

    /// The transfer that a withdrawal calls for (none where nothing was
    /// raised), or why the withdrawal is turned down before any funds move.
    pub open spec fn withdrawal_order(self, caller: Seq<u8>, now: int, auth: AuthProof) -> Result<
        Option<TransferView>,
        EscrowError,
    > {
        if auth == AuthProof::Denied {
            Err(EscrowError::AuthFailed)
        } else if caller != self.owner {
            Err(EscrowError::NotOwner)
        } else if self.withdrawn {
            Err(EscrowError::AlreadyWithdrawn)
        } else if self.reconcile(now).status == CampaignStatus::Successful {
            if self.total_raised > 0 {
                Ok(Some(payout(self.owner, self.total_raised)))
            } else {
                Ok(None)
            }
        } else if now <= self.deadline {
            Err(EscrowError::CampaignNotEligible)
        } else {
            Err(EscrowError::GoalNotReached)
        }
    }

    /// How a withdrawal ends.
    pub open spec fn withdraw_result(
        self,
        caller: Seq<u8>,
        now: int,
        auth: AuthProof,
        transfer: TransferOutcome,
    ) -> Result<(), EscrowError> {
        match self.withdrawal_order(caller, now, auth) {
            Err(e) => Err(e),
            Ok(Some(_)) => if transfer == TransferOutcome::Failed {
                Err(EscrowError::TransferFailed)
            } else {
                Ok(())
            },
            Ok(None) => Ok(()),
        }
    }

    /// The state after a withdrawal. A withdrawal that goes through marks the
    /// funds as paid out and the campaign as `Withdrawn`. One that is turned
    /// down for want of identity, by a stranger or after the funds were paid out
    /// leaves the state untouched; any other leaves it as the clock's reading
    /// left it.
    pub open spec fn withdraw(
        self,
        caller: Seq<u8>,
        now: int,
        auth: AuthProof,
        transfer: TransferOutcome,
    ) -> CampaignState {
        let seen = self.reconcile(now);
        if auth == AuthProof::Denied || caller != self.owner || self.withdrawn {
            self
        } else if self.withdraw_result(caller, now, auth, transfer).is_ok() {
            CampaignState { withdrawn: true, status: CampaignStatus::Withdrawn, ..seen }
        } else {
            seen
        }
    }

    /// The transfer that a refund calls for, or why the refund is turned down
    /// before any funds move.
    pub open spec fn refund_order(self, donor: Seq<u8>, now: int, auth: AuthProof) -> Result<
        TransferView,
        EscrowError,
    > {
        if auth == AuthProof::Denied {
            Err(EscrowError::AuthFailed)
        } else if self.reconcile(now).status != CampaignStatus::Failed {
            Err(EscrowError::CampaignNotFailed)
        } else if recorded(self.ledger, donor) <= 0 {
            Err(EscrowError::NoDonationFound)
        } else {
            Ok(payout(donor, recorded(self.ledger, donor)))
        }
    }

    /// How a refund ends.
    pub open spec fn refund_result(
        self,
        donor: Seq<u8>,
        now: int,
        auth: AuthProof,
        transfer: TransferOutcome,
    ) -> Result<(), EscrowError> {
        match self.refund_order(donor, now, auth) {
            Err(e) => Err(e),
            Ok(_) => if transfer == TransferOutcome::Failed {
                Err(EscrowError::TransferFailed)
            } else {
                Ok(())
            },
        }
    }

    /// The state after a refund. A refund that goes through takes the donor out
    /// of the ledger and the donor's contribution off the total. One that is
    /// turned down leaves the state as the clock's reading left it; without
    /// proof of identity not even the clock is read.
    pub open spec fn refund(
        self,
        donor: Seq<u8>,
        now: int,
        auth: AuthProof,
        transfer: TransferOutcome,
    ) -> CampaignState {
        let seen = self.reconcile(now);
        if auth == AuthProof::Denied {
            self
        } else if self.refund_result(donor, now, auth, transfer).is_ok() {
            CampaignState {
                total_raised: seen.total_raised - recorded(seen.ledger, donor),
                ledger: seen.ledger.remove(donor),
                ..seen
            }
        } else {
            seen
        }
    }

    /// The terms of the campaign, as they were set.
    pub open spec fn terms(self) -> CampaignTerms {
        CampaignTerms {
            owner: self.owner,
            goal: self.goal,
            deadline: self.deadline,
            transfer_asset: self.transfer_asset,
            title: self.title,
            description: self.description,
            image_url: self.image_url,
            min_donation: self.min_donation,
        }
    }

    /// Progress towards the goal in hundredths of a percent, never more than
    /// 10000, and zero where there is no positive goal.
    pub open spec fn progress(self) -> int {
        progress_of(self.total_raised, self.goal)
    }
}

/// The share of a goal that has been raised, in hundredths of a percent and
/// rounded down; never more than 10000, and zero where the goal is not
/// positive.
pub open spec fn progress_of(total_raised: int, goal: int) -> int {
    if goal <= 0 {
        0
    } else if total_raised * 10000 / goal > 10000 {
        10000
    } else {
        total_raised * 10000 / goal
    }
}

/// One invocation of the engine, with the clock's reading and the answers of
/// the outside parties.
pub enum Operation {
    Initialize { terms: CampaignTerms, now: int, auth: AuthProof },
    Donate { donor: Seq<u8>, amount: int, now: int, auth: AuthProof, transfer: TransferOutcome },
    Withdraw { caller: Seq<u8>, now: int, auth: AuthProof, transfer: TransferOutcome },
    Refund { donor: Seq<u8>, now: int, auth: AuthProof, transfer: TransferOutcome },
    Reconcile { now: int },
}

impl CampaignState {
    /// Whether the operation can be invoked in this state: a campaign is set
    /// up once, and only a campaign that is set up takes donations,
    /// withdrawals and refunds.
    pub open spec fn admits(self, op: Operation) -> bool {
        match op {
            Operation::Initialize { .. } => !self.initialized,
            Operation::Donate { .. } => self.initialized,
            Operation::Withdraw { .. } => self.initialized,
            Operation::Refund { .. } => self.initialized,
            Operation::Reconcile { .. } => true,
        }
    }

    /// The state after the operation.
    pub open spec fn apply(self, op: Operation) -> CampaignState {
        match op {
            Operation::Initialize { terms, now, auth } => self.initialize(terms, now, auth),
            Operation::Donate { donor, amount, now, auth, transfer } => self.donate(
                donor,
                amount,
                now,
                auth,
                transfer,
            ),
            Operation::Withdraw { caller, now, auth, transfer } => self.withdraw(
                caller,
                now,
                auth,
                transfer,
            ),
            Operation::Refund { donor, now, auth, transfer } => self.refund(donor, now, auth, transfer),
            Operation::Reconcile { now } => self.reconcile(now),
        }
    }

    /// How the operation ends.
    pub open spec fn result_of(self, op: Operation) -> Result<(), EscrowError> {
        match op {
            Operation::Initialize { terms, now, auth } => Self::initialize_result(terms, now, auth),
            Operation::Donate { donor, amount, now, auth, transfer } => self.donate_result(
                donor,
                amount,
                now,
                auth,
                transfer,
            ),
            Operation::Withdraw { caller, now, auth, transfer } => self.withdraw_result(
                caller,
                now,
                auth,
                transfer,
            ),
            Operation::Refund { donor, now, auth, transfer } => self.refund_result(
                donor,
                now,
                auth,
                transfer,
            ),
            Operation::Reconcile { now } => Ok(()),
        }
    }
}

/// The state that a sequence of operations leads to, from a campaign that is
/// not set up.
pub open spec fn state_after(ops: Seq<Operation>) -> CampaignState
    decreases ops.len(),
{
    if ops.len() == 0 {
        CampaignState::blank()
    } else {
        state_after(ops.drop_last()).apply(ops.last())
    }
}

/// A sequence of operations each of which can be invoked in the state that
/// those before it lead to.
pub open spec fn is_history(ops: Seq<Operation>) -> bool {
    forall|i: int| 0 <= i < ops.len() ==> state_after(ops.take(i)).admits(#[trigger] ops[i])
}

} // verus!
