//! What holds of every campaign, whatever is done with it.

use vstd::prelude::*;
use crate::account::AccountId;
use crate::contract::CrowdfundingContract;
use crate::ledger::lemma_listing_unique;
use crate::ledger::lemma_sum_bounds;
use crate::ledger::lemma_sum_drop;
use crate::ledger::lemma_sum_empty;
use crate::ledger::lemma_sum_insert;
use crate::ledger::recorded;
use crate::ledger::same_entries;
use crate::ledger::sum_of;
use crate::model::is_history;
use crate::model::progress_of;
use crate::model::state_after;
use crate::model::CampaignState;
use crate::model::Operation;
use crate::status::CampaignStatus;
use crate::transfer::AuthProof;
use crate::transfer::TransferOutcome;

verus! {

/// Where a status can be one operation later: where it was, or one station
/// further along `Active` to `Successful` or `Failed`, or `Successful` to
/// `Withdrawn`.
pub open spec fn one_step(before: CampaignStatus, after: CampaignStatus) -> bool {
    ||| before == after
    ||| before == CampaignStatus::Active && after == CampaignStatus::Successful
    ||| before == CampaignStatus::Active && after == CampaignStatus::Failed
    ||| before == CampaignStatus::Successful && after == CampaignStatus::Withdrawn
}

/// Every operation leads from a consistent state to a consistent state: the
/// total stays the sum of the ledger, and the funds are marked as paid out
/// only in status `Withdrawn`.
pub proof fn law_operations_keep_consistency(state: CampaignState, op: Operation)
    requires
        state.consistent(),
        state.admits(op),
    ensures
        state.apply(op).consistent(),
{
    match op {
        Operation::Initialize { terms, now, auth } => {
            lemma_sum_empty();
        },
        Operation::Donate { donor, amount, now, auth, transfer } => {
            let seen = state.reconcile(now);
            lemma_sum_bounds(seen.ledger, donor);
            lemma_sum_insert(seen.ledger, donor, recorded(seen.ledger, donor) + amount);
        },
        Operation::Withdraw { caller, now, auth, transfer } => {},
        Operation::Refund { donor, now, auth, transfer } => {
            let seen = state.reconcile(now);
            lemma_sum_bounds(seen.ledger, donor);
            lemma_sum_drop(seen.ledger, donor);
        },
        Operation::Reconcile { now } => {},
    }
}

/// Every state that a history leads to is consistent.
pub proof fn law_reachable_states_are_consistent(ops: Seq<Operation>)
    requires
        is_history(ops),
    ensures
        state_after(ops).consistent(),
    decreases ops.len(),
{
    if ops.len() == 0 {
        lemma_sum_empty();
    } else {
        let front = ops.drop_last();
        assert forall|i: int| 0 <= i < front.len() implies state_after(front.take(i)).admits(
            #[trigger] front[i],
        ) by {
            assert(front.take(i) == ops.take(i));
            assert(front[i] == ops[i]);
        }
        law_reachable_states_are_consistent(front);
        assert(ops.take(ops.len() - 1) == front);
        assert(state_after(front).admits(ops[ops.len() - 1]));
        law_operations_keep_consistency(state_after(front), ops.last());
    }
}

/// In every state that a history leads to, the total raised is the sum of
/// the contributions in the ledger.
pub proof fn law_total_is_sum_of_ledger(ops: Seq<Operation>)
    requires
        is_history(ops),
    ensures
        sum_of(state_after(ops).ledger) == state_after(ops).total_raised,
{
    law_reachable_states_are_consistent(ops);
}

/// In every state that a history leads to, funds that are marked as paid out
/// go with status `Withdrawn`.
pub proof fn law_paid_out_means_withdrawn(ops: Seq<Operation>)
    requires
        is_history(ops),
    ensures
        state_after(ops).withdrawn ==> state_after(ops).status == CampaignStatus::Withdrawn,
{
    law_reachable_states_are_consistent(ops);
}

/// The first part of a history is a history.
pub proof fn lemma_history_prefix(ops: Seq<Operation>, n: int)
    requires
        is_history(ops),
        0 <= n <= ops.len(),
    ensures
        is_history(ops.take(n)),
{
    let front = ops.take(n);
    assert forall|i: int| 0 <= i < front.len() implies state_after(front.take(i)).admits(
        #[trigger] front[i],
    ) by {
        assert(front.take(i) == ops.take(i));
        assert(front[i] == ops[i]);
    }
}

/// The state after the first `n + 1` operations comes from the state after
/// the first `n` by the next operation.
pub proof fn lemma_state_after_next(ops: Seq<Operation>, n: int)
    requires
        0 <= n < ops.len(),
    ensures
        state_after(ops.take(n + 1)) == state_after(ops.take(n)).apply(ops[n]),
{
    let next = ops.take(n + 1);
    assert(next.drop_last() == ops.take(n));
    assert(next.last() == ops[n]);
}

/// A campaign that is set up stays set up, and no operation changes its terms.
pub proof fn law_terms_are_fixed(state: CampaignState, op: Operation)
    requires
        state.initialized,
        state.admits(op),
    ensures
        state.apply(op).initialized,
        state.apply(op).terms() == state.terms(),
{
}

/// The total never shrinks but by a refund, and a refund never lets it grow.
pub proof fn law_total_shrinks_by_refund_only(state: CampaignState, op: Operation)
    requires
        state.consistent(),
        state.admits(op),
    ensures
        !(op is Refund) ==> state.apply(op).total_raised >= state.total_raised,
        op is Refund ==> state.apply(op).total_raised <= state.total_raised,
{
    if let Operation::Refund { donor, now, auth, transfer } = op {
        lemma_sum_bounds(state.ledger, donor);
    }
}

/// An operation that is turned down moves no funds in the books: the total,
/// the ledger and the mark of the funds paid out are as before. Only the
/// status may have been brought up to date with the clock.
pub proof fn law_refusal_leaves_the_books(state: CampaignState, op: Operation)
    requires
        state.admits(op),
        state.result_of(op).is_err(),
    ensures
        state.apply(op).total_raised == state.total_raised,
        state.apply(op).ledger == state.ledger,
        state.apply(op).withdrawn == state.withdrawn,
        state.apply(op).initialized == state.initialized,
        state.apply(op).terms() == state.terms(),
{
}

/// Once the funds are paid out, every operation leaves them paid out, and a
/// further withdrawal is turned down.
pub proof fn law_paid_out_is_final(state: CampaignState, op: Operation)
    requires
        state.consistent(),
        state.admits(op),
        state.withdrawn,
    ensures
        state.apply(op).withdrawn,
        op is Withdraw ==> state.result_of(op).is_err() && state.apply(op) == state,
{
}

/// Funds are paid out at most once: of two withdrawals in one history, the
/// later is turned down if the earlier went through.
pub proof fn law_withdrawal_happens_once(ops: Seq<Operation>, first: int, second: int)
    requires
        is_history(ops),
        0 <= first < second < ops.len(),
        ops[first] is Withdraw,
        ops[second] is Withdraw,
        state_after(ops.take(first)).result_of(ops[first]).is_ok(),
    ensures
        state_after(ops.take(second)).result_of(ops[second]).is_err(),
{
    lemma_state_after_next(ops, first);
    lemma_stays_paid_out(ops, first + 1, second);
    lemma_history_prefix(ops, second);
    law_reachable_states_are_consistent(ops.take(second));
    law_paid_out_is_final(state_after(ops.take(second)), ops[second]);
}

/// Funds that are paid out after the first `from` operations of a history
/// are paid out after the first `to`.
pub proof fn lemma_stays_paid_out(ops: Seq<Operation>, from: int, to: int)
    requires
        is_history(ops),
        0 <= from <= to <= ops.len(),
        state_after(ops.take(from)).withdrawn,
    ensures
        state_after(ops.take(to)).withdrawn,
    decreases to - from,
{
    if from < to {
        lemma_stays_paid_out(ops, from, to - 1);
        lemma_history_prefix(ops, to - 1);
        law_reachable_states_are_consistent(ops.take(to - 1));
        lemma_state_after_next(ops, to - 1);
        law_paid_out_is_final(state_after(ops.take(to - 1)), ops[to - 1]);
    }
}

/// One operation moves the status at most one station forward, never back.
pub proof fn law_status_steps_forward(state: CampaignState, op: Operation)
    requires
        state.consistent(),
        state.admits(op),
    ensures
        one_step(state.status, state.apply(op).status),
{
}

/// Along a history the status only moves forward: what it is after some
/// operations, it may become what it is after more of them.
pub proof fn law_status_never_moves_back(ops: Seq<Operation>, earlier: int, later: int)
    requires
        is_history(ops),
        0 <= earlier <= later <= ops.len(),
    ensures
        state_after(ops.take(earlier)).status.may_become(state_after(ops.take(later)).status),
    decreases later - earlier,
{
    if earlier < later {
        law_status_never_moves_back(ops, earlier, later - 1);
        lemma_history_prefix(ops, later - 1);
        law_reachable_states_are_consistent(ops.take(later - 1));
        lemma_state_after_next(ops, later - 1);
        law_status_steps_forward(state_after(ops.take(later - 1)), ops[later - 1]);
    }
}

/// A donation of exactly what is missing makes the campaign `Successful` in
/// the same operation, with the total at the goal.
pub proof fn law_goal_reached_at_once(
    state: CampaignState,
    donor: Seq<u8>,
    amount: int,
    now: int,
    auth: AuthProof,
    transfer: TransferOutcome,
)
    requires
        state.consistent(),
        state.initialized,
        amount == state.goal - state.total_raised,
        state.donate_result(donor, amount, now, auth, transfer).is_ok(),
    ensures
        state.donate(donor, amount, now, auth, transfer).status == CampaignStatus::Successful,
        state.donate(donor, amount, now, auth, transfer).total_raised == state.goal,
{
}

/// An accepted donation makes the campaign `Successful` exactly when it
/// brings the total to the goal or beyond; else the campaign stays `Active`.
pub proof fn law_donation_decides_success(
    state: CampaignState,
    donor: Seq<u8>,
    amount: int,
    now: int,
    auth: AuthProof,
    transfer: TransferOutcome,
)
    requires
        state.consistent(),
        state.initialized,
        state.donate_result(donor, amount, now, auth, transfer).is_ok(),
    ensures
        state.donate(donor, amount, now, auth, transfer).total_raised == state.total_raised + amount,
        state.total_raised + amount >= state.goal ==> state.donate(
            donor,
            amount,
            now,
            auth,
            transfer,
        ).status == CampaignStatus::Successful,
        state.total_raised + amount < state.goal ==> state.donate(
            donor,
            amount,
            now,
            auth,
            transfer,
        ).status == CampaignStatus::Active,
{
}

/// Progress lies between 0 and 10000, is 10000 from the goal on, however far
/// beyond, and is 0 where the goal is not positive.
pub proof fn law_progress_saturates(total_raised: int, goal: int)
    requires
        total_raised >= 0,
    ensures
        0 <= progress_of(total_raised, goal) <= 10000,
        0 < goal <= total_raised ==> progress_of(total_raised, goal) == 10000,
        goal <= 0 ==> progress_of(total_raised, goal) == 0,
{
    if goal > 0 {
        let q = total_raised * 10000 / goal;
        let r = total_raised * 10000 % goal;
        assert(total_raised * 10000 == goal * q + r && 0 <= r < goal) by {
            vstd::arithmetic::div_mod::lemma_fundamental_div_mod(total_raised * 10000, goal);
            vstd::arithmetic::div_mod::lemma_mod_bound(total_raised * 10000, goal);
        }
        assert(q >= 0) by (nonlinear_arith)
            requires
                total_raised >= 0,
                goal > 0,
                total_raised * 10000 == goal * q + r,
                0 <= r < goal,
        ;
        if total_raised >= goal {
            assert(q >= 10000) by (nonlinear_arith)
                requires
                    0 < goal <= total_raised,
                    total_raised * 10000 == goal * q + r,
                    0 <= r < goal,
            ;
        }
    }
}

/// Asks every query twice, with nothing done in between, and tells whether
/// each second answer was the first again. It always is: a query reads the
/// state and leaves it as it was.
pub fn law_queries_repeat(contract: &CrowdfundingContract, donor: &AccountId, now: u64) -> (same: bool)
    requires
        contract.wf(),
    ensures
        same,
{
    let total = contract.get_total_raised() == contract.get_total_raised();
    let donation = contract.get_donation(donor) == contract.get_donation(donor);
    let set_up = contract.get_is_already_init() == contract.get_is_already_init();
    let status = contract.get_campaign_status() == contract.get_campaign_status();
    let progress = contract.get_progress_percentage() == contract.get_progress_percentage();
    let passed = contract.is_deadline_passed(now) == contract.is_deadline_passed(now);
    let minimum = contract.get_min_donation() == contract.get_min_donation();
    let first = contract.get_campaign_info();
    let second = contract.get_campaign_info();
    let info = first.0.same_as(&second.0) && first.1 == second.1 && first.2 == second.2 && first.3
        == second.3 && first.4 == second.4 && first.5 == second.5 && first.6 == second.6 && first.7
        == second.7;
    let once = contract.get_all_donors();
    let again = contract.get_all_donors();
    proof {
        lemma_listing_unique(contract@.ledger, once@, again@);
    }
    let donors = same_entries(&once, &again);
    total && donation && set_up && status && progress && passed && minimum && info && donors
}

} // verus!
