//! The escrow engine: one campaign and its ledger, and the operations on them.

use vstd::prelude::*;
use crate::account::AccountId;
use crate::error::EscrowError;
use crate::ledger::lemma_sum_bounds;
use crate::ledger::lemma_sum_drop;
use crate::ledger::lemma_sum_insert;
use crate::ledger::entries_map;
use crate::ledger::entries_valid;
use crate::ledger::is_listing;
use crate::ledger::recorded;
use crate::ledger::DonationLedger;
use crate::model::CampaignState;
use crate::model::CampaignTerms;
use crate::progress::progress_percentage;
use crate::status::CampaignStatus;
use crate::transfer::optional_order_view;
use crate::transfer::order_view;
use crate::transfer::AuthProof;
use crate::transfer::Party;
use crate::transfer::Transfer;
use crate::transfer::TransferOutcome;

verus! {

/// The terms of a campaign and where it stands, without its ledger.
pub struct CampaignRecord {
    pub initialized: bool,
    pub owner: AccountId,
    pub goal: i128,
    pub deadline: u64,
    pub min_donation: i128,
    pub transfer_asset: AccountId,
    pub title: String,
    pub description: String,
    pub image_url: String,
    pub total_raised: i128,
    pub status: CampaignStatus,
    pub withdrawn: bool,
}

impl CampaignRecord {
    /// The state that the record makes together with a ledger.
    pub open spec fn with_ledger(self, ledger: Map<Seq<u8>, int>) -> CampaignState {
        CampaignState {
            initialized: self.initialized,
            owner: self.owner@,
            goal: self.goal as int,
            deadline: self.deadline as int,
            min_donation: self.min_donation as int,
            transfer_asset: self.transfer_asset@,
            title: self.title@,
            description: self.description@,
            image_url: self.image_url@,
            total_raised: self.total_raised as int,
            status: self.status,
            withdrawn: self.withdrawn,
            ledger,
        }
    }

    /// The record of a campaign that is not set up.
    pub fn blank() -> (record: CampaignRecord)
        ensures
            record.with_ledger(Map::empty()) == CampaignState::blank(),
    {
        CampaignRecord {
            initialized: false,
            owner: AccountId::from_bytes(Vec::new()),
            goal: 0,
            deadline: 0,
            min_donation: 0,
            transfer_asset: AccountId::from_bytes(Vec::new()),
            title: String::new(),
            description: String::new(),
            image_url: String::new(),
            total_raised: 0,
            status: CampaignStatus::Active,
            withdrawn: false,
        }
    }
}

/// The terms that the arguments of `initialize` spell out.
pub open spec fn terms_of(
    owner: AccountId,
    goal: i128,
    deadline: u64,
    transfer_asset: AccountId,
    title: String,
    description: String,
    image_url: String,
    min_donation: i128,
) -> CampaignTerms {
    CampaignTerms {
        owner: owner@,
        goal: goal as int,
        deadline: deadline as int,
        transfer_asset: transfer_asset@,
        title: title@,
        description: description@,
        image_url: image_url@,
        min_donation: min_donation as int,
    }
}

/// One campaign with its ledger.
pub struct CrowdfundingContract {
    record: CampaignRecord,
    ledger: DonationLedger,
}

impl View for CrowdfundingContract {
    type V = CampaignState;

    closed spec fn view(&self) -> CampaignState {
        self.record.with_ledger(self.ledger@)
    }
}

impl CrowdfundingContract {
    /// The state is consistent: it has what every state has that the
    /// operations can reach.
    pub open spec fn wf(&self) -> bool {
        self@.consistent()
    }

    /// A campaign that is not set up yet.
    pub fn new(env: &soroban_sdk::Env) -> (contract: CrowdfundingContract)
        ensures
            contract.wf(),
            contract@ == CampaignState::blank(),
    {
        CrowdfundingContract { record: CampaignRecord::blank(), ledger: DonationLedger::new(env) }
    }

    /// Brings the status up to date with the clock.
    pub fn reconcile(&mut self, now: u64)
        requires
            old(self).wf(),
        ensures
            final(self).wf(),
            final(self)@ == old(self)@.reconcile(now as int),
    {
        if self.record.initialized && now > self.record.deadline && self.record.status
            == CampaignStatus::Active {
            if self.record.total_raised >= self.record.goal {
                self.record.status = CampaignStatus::Successful;
            } else {
                self.record.status = CampaignStatus::Failed;
            }
        }
    }

    /// Pays the funds of a successful campaign out to its owner, once.
    ///
    /// `transfer` tells how the transfer named by `withdrawal_order` ended; it
    /// is not looked at where that function calls for none.
    pub fn withdraw(
        &mut self,
        caller: &AccountId,
        now: u64,
        auth: AuthProof,
        transfer: TransferOutcome,
    ) -> (result: Result<(), EscrowError>)
        requires
            old(self).wf(),
            old(self)@.initialized,
        ensures
            final(self).wf(),
            final(self)@ == old(self)@.withdraw(caller@, now as int, auth, transfer),
            result == old(self)@.withdraw_result(caller@, now as int, auth, transfer),
    {
        if auth == AuthProof::Denied {
            return Err(EscrowError::AuthFailed);
        }
        if !caller.same_as(&self.record.owner) {
            return Err(EscrowError::NotOwner);
        }
        if self.record.withdrawn {
            return Err(EscrowError::AlreadyWithdrawn);
        }
        self.reconcile(now);
        if self.record.status != CampaignStatus::Successful {
            if now <= self.record.deadline {
                return Err(EscrowError::CampaignNotEligible);
            }
            return Err(EscrowError::GoalNotReached);
        }
        if self.record.total_raised > 0 && transfer == TransferOutcome::Failed {
            return Err(EscrowError::TransferFailed);
        }
        self.record.withdrawn = true;
        self.record.status = CampaignStatus::Withdrawn;
        Ok(())
    }

    /// Gives a donor of a failed campaign the whole contribution back.
    ///
    /// `transfer` tells how the transfer named by `refund_order` ended.
    pub fn refund(
        &mut self,
        donor: &AccountId,
        now: u64,
        auth: AuthProof,
        transfer: TransferOutcome,
    ) -> (result: Result<(), EscrowError>)
        requires
            old(self).wf(),
            old(self)@.initialized,
        ensures
            final(self).wf(),
            final(self)@ == old(self)@.refund(donor@, now as int, auth, transfer),
            result == old(self)@.refund_result(donor@, now as int, auth, transfer),
    {
        if auth == AuthProof::Denied {
            return Err(EscrowError::AuthFailed);
        }
        self.reconcile(now);
        if self.record.status != CampaignStatus::Failed {
            return Err(EscrowError::CampaignNotFailed);
        }
        let amount = self.ledger.get(donor);
        if amount <= 0 {
            return Err(EscrowError::NoDonationFound);
        }
        if transfer == TransferOutcome::Failed {
            return Err(EscrowError::TransferFailed);
        }
        proof {
            lemma_sum_bounds(self.ledger@, donor@);
            lemma_sum_drop(self.ledger@, donor@);
        }
        let _ = self.ledger.remove(donor);
        self.record.total_raised = self.record.total_raised - amount;
        Ok(())
    }

    /// Takes a donation into the ledger.
    ///
    /// `transfer` tells how the transfer named by `donation_order` ended.
    /// The total must stay within 128 signed bits.
    pub fn donate(
        &mut self,
        donor: &AccountId,
        amount: i128,
        now: u64,
        auth: AuthProof,
        transfer: TransferOutcome,
    ) -> (result: Result<(), EscrowError>)
        requires
            old(self).wf(),
            old(self)@.initialized,
            old(self)@.total_raised + amount <= i128::MAX,
        ensures
            final(self).wf(),
            final(self)@ == old(self)@.donate(donor@, amount as int, now as int, auth, transfer),
            result == old(self)@.donate_result(donor@, amount as int, now as int, auth, transfer),
    {
        if auth == AuthProof::Denied {
            return Err(EscrowError::AuthFailed);
        }
        self.reconcile(now);
        if now > self.record.deadline {
            return Err(EscrowError::CampaignEnded);
        }
        if self.record.status != CampaignStatus::Active {
            return Err(EscrowError::CampaignNotActive);
        }
        if amount <= 0 {
            return Err(EscrowError::AmountNotPositive);
        }
        if amount < self.record.min_donation {
            return Err(EscrowError::BelowMinimumDonation);
        }
        if transfer == TransferOutcome::Failed {
            return Err(EscrowError::TransferFailed);
        }
        proof {
            lemma_sum_bounds(self.ledger@, donor@);
            lemma_sum_insert(self.ledger@, donor@, recorded(self.ledger@, donor@) + amount);
        }
        self.ledger.credit(donor, amount);
        self.record.total_raised = self.record.total_raised + amount;
        if self.record.total_raised >= self.record.goal {
            self.record.status = CampaignStatus::Successful;
        }
        Ok(())
    }

    /// Sets the campaign up.
    pub fn initialize(
        &mut self,
        owner: AccountId,
        goal: i128,
        deadline: u64,
        transfer_asset: AccountId,
        title: String,
        description: String,
        image_url: String,
        min_donation: i128,
        now: u64,
        auth: AuthProof,
    ) -> (result: Result<(), EscrowError>)
        requires
            old(self).wf(),
            !old(self)@.initialized,
        ensures
            final(self).wf(),
            final(self)@ == old(self)@.initialize(
                terms_of(owner, goal, deadline, transfer_asset, title, description, image_url, min_donation),
                now as int,
                auth,
            ),
            result == CampaignState::initialize_result(
                terms_of(owner, goal, deadline, transfer_asset, title, description, image_url, min_donation),
                now as int,
                auth,
            ),
    {
        if auth == AuthProof::Denied {
            return Err(EscrowError::AuthFailed);
        }
        if goal <= 0 {
            return Err(EscrowError::InvalidGoal);
        }
        if deadline <= now {
            return Err(EscrowError::InvalidDeadline);
        }
        if min_donation < 0 {
            return Err(EscrowError::InvalidMinDonation);
        }
        self.record = CampaignRecord {
            initialized: true,
            owner,
            goal,
            deadline,
            min_donation,
            transfer_asset,
            title,
            description,
            image_url,
            total_raised: 0,
            status: CampaignStatus::Active,
            withdrawn: false,
        };
        Ok(())
    }

    /// The transfer that a donation calls for, or why the donation is turned
    /// down before any funds move. The state stays as it is.
    pub fn donation_order(
        &self,
        donor: &AccountId,
        amount: i128,
        now: u64,
        auth: AuthProof,
    ) -> (order: Result<Transfer, EscrowError>)
        requires
            self.wf(),
            self@.initialized,
        ensures
            order_view(order) == self@.donation_order(donor@, amount as int, now as int, auth),
    {
        if auth == AuthProof::Denied {
            return Err(EscrowError::AuthFailed);
        }
        if now > self.record.deadline {
            return Err(EscrowError::CampaignEnded);
        }
        if self.record.status != CampaignStatus::Active {
            return Err(EscrowError::CampaignNotActive);
        }
        if amount <= 0 {
            return Err(EscrowError::AmountNotPositive);
        }
        if amount < self.record.min_donation {
            return Err(EscrowError::BelowMinimumDonation);
        }
        Ok(Transfer { from: Party::Account(donor.duplicate()), to: Party::Escrow, amount })
    }

    /// The transfer that a withdrawal calls for (none where nothing was
    /// raised), or why the withdrawal is turned down before any funds move.
    /// The state stays as it is.
    pub fn withdrawal_order(
        &self,
        caller: &AccountId,
        now: u64,
        auth: AuthProof,
    ) -> (order: Result<Option<Transfer>, EscrowError>)
        requires
            self.wf(),
            self@.initialized,
        ensures
            optional_order_view(order) == self@.withdrawal_order(caller@, now as int, auth),
    {
        if auth == AuthProof::Denied {
            return Err(EscrowError::AuthFailed);
        }
        if !caller.same_as(&self.record.owner) {
            return Err(EscrowError::NotOwner);
        }
        if self.record.withdrawn {
            return Err(EscrowError::AlreadyWithdrawn);
        }
        if self.status_at(now) != CampaignStatus::Successful {
            if now <= self.record.deadline {
                return Err(EscrowError::CampaignNotEligible);
            }
            return Err(EscrowError::GoalNotReached);
        }
        if self.record.total_raised > 0 {
            Ok(
                Some(
                    Transfer {
                        from: Party::Escrow,
                        to: Party::Account(self.record.owner.duplicate()),
                        amount: self.record.total_raised,
                    },
                ),
            )
        } else {
            Ok(None)
        }
    }

    /// The transfer that a refund calls for, or why the refund is turned down
    /// before any funds move. The state stays as it is.
    pub fn refund_order(
        &self,
        donor: &AccountId,
        now: u64,
        auth: AuthProof,
    ) -> (order: Result<Transfer, EscrowError>)
        requires
            self.wf(),
            self@.initialized,
        ensures
            order_view(order) == self@.refund_order(donor@, now as int, auth),
    {
        if auth == AuthProof::Denied {
            return Err(EscrowError::AuthFailed);
        }
        if self.status_at(now) != CampaignStatus::Failed {
            return Err(EscrowError::CampaignNotFailed);
        }
        let amount = self.ledger.get(donor);
        if amount <= 0 {
            return Err(EscrowError::NoDonationFound);
        }
        Ok(Transfer { from: Party::Escrow, to: Party::Account(donor.duplicate()), amount })
    }

    /// The status in the light of the clock. The state stays as it is.
    pub fn status_at(&self, now: u64) -> (status: CampaignStatus)
        ensures
            status == self@.reconcile(now as int).status,
    {
        if self.record.initialized && now > self.record.deadline && self.record.status
            == CampaignStatus::Active {
            if self.record.total_raised >= self.record.goal {
                CampaignStatus::Successful
            } else {
                CampaignStatus::Failed
            }
        } else {
            self.record.status
        }
    }

    /// The sum of all contributions that the ledger records.
    pub fn get_total_raised(&self) -> (total: i128)
        ensures
            total == self@.total_raised,
    {
        self.record.total_raised
    }

    /// What the account has contributed in all; zero where it has no entry.
    pub fn get_donation(&self, donor: &AccountId) -> (amount: i128)
        ensures
            amount == recorded(self@.ledger, donor@),
    {
        self.ledger.get(donor)
    }

    /// Whether the campaign has been set up.
    pub fn get_is_already_init(&self) -> (initialized: bool)
        ensures
            initialized == self@.initialized,
    {
        self.record.initialized
    }

    /// The campaign's terms and status: owner, goal, deadline, title,
    /// description, image, minimum donation, and the number of the status as
    /// it was last brought up to date.
    pub fn get_campaign_info(&self) -> (info: (AccountId, i128, u64, String, String, String, i128, u32))
        ensures
            info.0@ == self@.owner,
            info.1 == self@.goal,
            info.2 == self@.deadline,
            info.3@ == self@.title,
            info.4@ == self@.description,
            info.5@ == self@.image_url,
            info.6 == self@.min_donation,
            info.7 == self@.status.number(),
    {
        (
            self.record.owner.duplicate(),
            self.record.goal,
            self.record.deadline,
            self.record.title.clone(),
            self.record.description.clone(),
            self.record.image_url.clone(),
            self.record.min_donation,
            self.record.status.code(),
        )
    }

    /// The number of the status as it was last brought up to date. The clock
    /// is not read: after the deadline the answer can lag behind until the
    /// next operation that reads it.
    pub fn get_campaign_status(&self) -> (code: u32)
        ensures
            code == self@.status.number(),
    {
        self.record.status.code()
    }

    /// Every contributor with the amount contributed, the accounts in
    /// ascending dictionary order.
    pub fn get_all_donors(&self) -> (donors: Vec<(AccountId, i128)>)
        ensures
            is_listing(self@.ledger, donors@),
    {
        self.ledger.entries()
    }

    /// Progress towards the goal in hundredths of a percent: 10000 from the
    /// goal on, and zero for a campaign that is not set up.
    pub fn get_progress_percentage(&self) -> (percentage: u32)
        requires
            self.wf(),
        ensures
            percentage == self@.progress(),
            percentage <= 10000,
    {
        proof {
            lemma_sum_bounds(self.ledger@, Seq::empty());
        }
        progress_percentage(self.record.total_raised, self.record.goal)
    }

    /// Whether the deadline lies before the given moment, whatever the status.
    pub fn is_deadline_passed(&self, now: u64) -> (passed: bool)
        ensures
            passed == self@.deadline_passed(now as int),
    {
        now > self.record.deadline
    }

    /// The least amount that one donation may have.
    pub fn get_min_donation(&self) -> (amount: i128)
        ensures
            amount == self@.min_donation,
    {
        self.record.min_donation
    }

    /// The asset in which the campaign is funded.
    pub fn transfer_asset(&self) -> (asset: &AccountId)
        ensures
            asset@ == self@.transfer_asset,
    {
        &self.record.transfer_asset
    }

    /// The record of the campaign, as it is kept between invocations.
    pub fn record(&self) -> (record: &CampaignRecord)
        ensures
            record.with_ledger(self@.ledger) == self@,
    {
        &self.record
    }

    /// The contract that a record and a list of ledger entries make, or `None`
    /// where they do not fit together: where an amount is not positive, an
    /// account occurs twice, or the state would be one that no sequence of
    /// operations leads to.
    pub fn restore(
        env: &soroban_sdk::Env,
        record: CampaignRecord,
        entries: &Vec<(AccountId, i128)>,
    ) -> (made: Option<CrowdfundingContract>)
        ensures
            made.is_some() == (entries_valid(entries@) && record.with_ledger(
                entries_map(entries@),
            ).consistent()),
            made matches Some(contract) ==> contract.wf() && contract@ == record.with_ledger(
                entries_map(entries@),
            ),
    {
        let ledger = match DonationLedger::from_entries(env, entries) {
            Some(ledger) => ledger,
            None => {
                return None;
            },
        };
        let ghost state = record.with_ledger(ledger@);
        match ledger.checked_total() {
            Some(total) => {
                if total != record.total_raised {
                    return None;
                }
            },
            None => {
                return None;
            },
        }
        let paid_out = record.status == CampaignStatus::Withdrawn;
        if record.withdrawn != paid_out {
            return None;
        }
        if record.initialized {
            let goal_met = record.status == CampaignStatus::Successful || record.status
                == CampaignStatus::Withdrawn;
            if record.goal <= 0 || record.min_donation < 0 || (record.total_raised >= record.goal)
                != goal_met {
                return None;
            }
        } else {
            let blank = record.owner.is_empty() && record.goal == 0 && record.deadline == 0
                && record.min_donation == 0 && record.transfer_asset.is_empty()
                && record.title.as_str().is_empty() && record.description.as_str().is_empty()
                && record.image_url.as_str().is_empty() && record.total_raised == 0
                && record.status == CampaignStatus::Active && entries.len() == 0;
            if !blank {
                proof {
                    if state == CampaignState::blank() {
                        if entries@.len() > 0 {
                            assert(ledger@.contains_key(entries@.last().0@));
                        }
                    }
                }
                return None;
            }
            proof {
                assert(state.owner =~= Seq::<u8>::empty());
                assert(state.transfer_asset =~= Seq::<u8>::empty());
                assert(state.title =~= Seq::<char>::empty());
                assert(state.description =~= Seq::<char>::empty());
                assert(state.image_url =~= Seq::<char>::empty());
                assert(state.ledger =~= Map::<Seq<u8>, int>::empty());
            }
        }
        Some(CrowdfundingContract { record, ledger })
    }
}

} // verus!
