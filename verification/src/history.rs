//! What holds of the ledger over whole histories of requests.
//!
//! A history is a sequence of [`Operation`]s, each with the outcome of the
//! transfer it may have called for. [`run`] is the record after such a
//! history; the lemmas below say what no history can break.

use vstd::prelude::*;
use crate::accounts::{Donate, Initialize, Refund, ToggleActive, Withdraw};
use crate::error::SahayogError;
use crate::identity::Identity;
use crate::ledger::{
    donate_spec, initialize_spec, refund_spec, refused, toggle_active_spec, withdraw_spec,
};
use crate::state::{DonationState, MAX_DONATION_LAMPORTS, MIN_DONATION_LAMPORTS};
use crate::transfer::{Transfer, TransferKind};

verus! {

/// One request made of an existing campaign, with the time at which it was
/// made and, where it moves value, whether the transfer was made.
#[allow(inconsistent_fields)]
pub enum Operation {
    /// A donation of `amount` with `message` at time `now`.
    Donate { ctx: Donate, amount: u64, message: Seq<char>, now: i64, succeeded: bool },
    /// A withdrawal of `amount` at time `now`.
    Withdraw { ctx: Withdraw, amount: u64, now: i64, succeeded: bool },
    /// A refund of `amount`.
    Refund { ctx: Refund, amount: u64, succeeded: bool },
    /// A request to pause or resume.
    ToggleActive { ctx: ToggleActive },
}

/// The record after the ledger's answer to a request for a transfer has
/// been acted upon: booked where the request was accepted, the transfer
/// was made and the books can take it, and unchanged otherwise.
pub open spec fn after_transfer(
    state: &DonationState,
    answer: Result<Transfer, SahayogError>,
    succeeded: bool,
) -> DonationState {
    match answer {
        Ok(transfer) => if succeeded && transfer.fits_spec(state) {
            state.booked(&transfer)
        } else {
            *state
        },
        Err(_) => *state,
    }
}

/// The record after one request.
pub open spec fn step(state: &DonationState, op: Operation) -> DonationState {
    match op {
        Operation::Donate { ctx, amount, message, now, succeeded } => after_transfer(
            state,
            donate_spec(state, &ctx, amount, message, now),
            succeeded,
        ),
        Operation::Withdraw { ctx, amount, now, succeeded } => after_transfer(
            state,
            withdraw_spec(state, &ctx, amount, now),
            succeeded,
        ),
        Operation::Refund { ctx, amount, succeeded } => after_transfer(
            state,
            refund_spec(state, &ctx, amount),
            succeeded,
        ),
        Operation::ToggleActive { ctx } => match toggle_active_spec(state, &ctx) {
            Ok(next) => next,
            Err(_) => *state,
        },
    }
}

/// The record after a history of requests, the first of `ops` first.
pub open spec fn run(state: &DonationState, ops: Seq<Operation>) -> DonationState
    decreases ops.len(),
{
    if ops.len() == 0 {
        *state
    } else {
        step(&run(state, ops.drop_last()), ops.last())
    }
}

/// Whether `op` is a donation that `state` accepts and books.
pub open spec fn books_donation(state: &DonationState, op: Operation) -> bool {
    match op {
        Operation::Donate { ctx, amount, message, now, succeeded } => {
            &&& succeeded
            &&& donate_spec(state, &ctx, amount, message, now) matches Ok(transfer)
            &&& transfer.fits_spec(state)
        },
        _ => false,
    }
}

/// Whether the donations booked are consistent with the number of donors:
/// each donor gave at least the minimum and at most the maximum.
pub open spec fn donations_in_bounds(state: &DonationState) -> bool {
    state.donor_count * MIN_DONATION_LAMPORTS <= state.total_donated <= state.donor_count
        * MAX_DONATION_LAMPORTS
}

/// One request keeps the books balanced, leaves what was fixed at creation
/// as it was, lets no accumulator shrink, and counts a donor exactly when
/// it books a donation.
pub proof fn lemma_step_keeps_invariants(state: &DonationState, op: Operation)
    requires
        state.wf(),
    ensures
        step(state, op).wf(),
        step(state, op).same_campaign(state),
        step(state, op).total_donated >= state.total_donated,
        step(state, op).total_withdrawn >= state.total_withdrawn,
        books_donation(state, op) ==> step(state, op).donor_count == state.donor_count + 1,
        !books_donation(state, op) ==> step(state, op).donor_count == state.donor_count,
{
}

/// After every history of requests no more has been withdrawn than was
/// donated. Moreover the authority, the treasury, the deadline and the
/// storage handle are those of the start, and no accumulator is smaller
/// than it was.
pub proof fn lemma_run_keeps_invariants(state: &DonationState, ops: Seq<Operation>)
    requires
        state.wf(),
    ensures
        run(state, ops).wf(),
        run(state, ops).same_campaign(state),
        run(state, ops).total_donated >= state.total_donated,
        run(state, ops).total_withdrawn >= state.total_withdrawn,
        run(state, ops).donor_count >= state.donor_count,
    decreases ops.len(),
{
    if ops.len() > 0 {
        lemma_run_keeps_invariants(state, ops.drop_last());
        lemma_step_keeps_invariants(&run(state, ops.drop_last()), ops.last());
    }
}

/// Every donation booked lies between the minimum and the maximum, so the
/// sum of the donations stays between the number of donors times the one
/// and times the other.
pub proof fn lemma_run_keeps_donations_in_bounds(state: &DonationState, ops: Seq<Operation>)
    requires
        donations_in_bounds(state),
    ensures
        donations_in_bounds(&run(state, ops)),
    decreases ops.len(),
{
    if ops.len() > 0 {
        lemma_run_keeps_donations_in_bounds(state, ops.drop_last());
    }
}

/// The books of a campaign that was created take every accepted donation
/// as long as fewer than 36,893,488 donations were booked: up to there the
/// accumulators cannot pass the largest value of a `u64`.
pub proof fn lemma_early_donations_fit(
    ctx: &Initialize,
    fund_wallet: Identity,
    deadline: i64,
    created: i64,
    ops: Seq<Operation>,
    giving: &Donate,
    amount: u64,
    message: Seq<char>,
    now: i64,
)
    requires
        initialize_spec(ctx, fund_wallet, deadline, created) is Ok,
        run(&initialize_spec(ctx, fund_wallet, deadline, created)->Ok_0, ops).donor_count
            < 36_893_488,
        donate_spec(
            &run(&initialize_spec(ctx, fund_wallet, deadline, created)->Ok_0, ops),
            giving,
            amount,
            message,
            now,
        ) is Ok,
    ensures
        ({
            let state = run(&initialize_spec(ctx, fund_wallet, deadline, created)->Ok_0, ops);
            donate_spec(&state, giving, amount, message, now)->Ok_0.fits_spec(&state)
        }),
{
    lemma_run_keeps_donations_in_bounds(
        &initialize_spec(ctx, fund_wallet, deadline, created)->Ok_0,
        ops,
    );
}

/// A campaign that was created has balanced books after every history of
/// requests, and the authority, treasury and deadline it was created with.
pub proof fn lemma_balanced_since_creation(
    ctx: &Initialize,
    fund_wallet: Identity,
    deadline: i64,
    now: i64,
    ops: Seq<Operation>,
)
    requires
        initialize_spec(ctx, fund_wallet, deadline, now) is Ok,
    ensures
        ({
            let last = run(&initialize_spec(ctx, fund_wallet, deadline, now)->Ok_0, ops);
            &&& last.wf()
            &&& last.authority == ctx.authority
            &&& last.fund_wallet == fund_wallet
            &&& last.deadline == deadline
        }),
{
    lemma_run_keeps_invariants(&initialize_spec(ctx, fund_wallet, deadline, now)->Ok_0, ops);
}

/// The books are balanced after every step of a history, not only at its
/// end: each prefix of `ops` leaves `total_withdrawn <= total_donated`.
pub proof fn lemma_balanced_after_every_step(state: &DonationState, ops: Seq<Operation>)
    requires
        state.wf(),
    ensures
        forall|n: int| 0 <= n <= ops.len() ==> (#[trigger] run(state, ops.take(n))).wf(),
{
    assert forall|n: int| 0 <= n <= ops.len() implies (#[trigger] run(state, ops.take(n))).wf() by {
        lemma_run_keeps_invariants(state, ops.take(n));
    }
}

/// A donation that is accepted and booked adds exactly its amount to the
/// donations and exactly one to the count of donors, and nothing to what
/// was withdrawn.
pub proof fn lemma_donation_booked_exactly(
    state: &DonationState,
    ctx: &Donate,
    amount: u64,
    message: Seq<char>,
    now: i64,
)
    requires
        donate_spec(state, ctx, amount, message, now) is Ok,
        donate_spec(state, ctx, amount, message, now)->Ok_0.fits_spec(state),
    ensures
        state.grown_by(
            &state.booked(&donate_spec(state, ctx, amount, message, now)->Ok_0),
            amount as int,
            1,
            0,
        ),
{
}

/// A payment out of the treasury adds exactly its amount to what was
/// withdrawn and touches nothing else. A refund is booked as a withdrawal
/// is: both reduce what is left by their amount.
pub proof fn lemma_payment_booked_exactly(state: &DonationState, transfer: &Transfer)
    requires
        transfer.kind != TransferKind::Donation,
        transfer.fits_spec(state),
    ensures
        state.grown_by(&state.booked(transfer), 0, 0, transfer.amount as int),
        state.booked(transfer).available_spec() == state.available_spec() - transfer.amount,
{
}

/// Donations are not deduplicated: the same donation made twice is accepted
/// twice and booked twice.
pub proof fn lemma_equal_donations_accumulate(
    state: &DonationState,
    ctx: &Donate,
    amount: u64,
    message: Seq<char>,
    now: i64,
)
    requires
        donate_spec(state, ctx, amount, message, now) is Ok,
        state.total_donated + 2 * amount <= u64::MAX,
        state.donor_count + 2 <= u64::MAX,
    ensures
        ({
            let transfer = donate_spec(state, ctx, amount, message, now)->Ok_0;
            let once = state.booked(&transfer);
            let twice = once.booked(&transfer);
            &&& transfer.fits_spec(state)
            &&& donate_spec(&once, ctx, amount, message, now) == Ok::<Transfer, SahayogError>(transfer)
            &&& transfer.fits_spec(&once)
            &&& twice.total_donated == state.total_donated + 2 * amount
            &&& twice.donor_count == state.donor_count + 2
        }),
{
}

/// Each accepted toggle flips `is_active` and nothing else, and two in a
/// row give back the record they started from.
pub proof fn lemma_toggle_twice_restores(state: &DonationState, ctx: &ToggleActive)
    requires
        toggle_active_spec(state, ctx) is Ok,
    ensures
        ({
            let once = toggle_active_spec(state, ctx)->Ok_0;
            &&& once == (DonationState { is_active: !state.is_active, ..*state })
            &&& toggle_active_spec(&once, ctx) == Ok::<DonationState, SahayogError>(*state)
        }),
{
}

/// Only the authority withdraws: any other caller is refused as
/// unauthorized, whatever the amount, the time and the treasury presented.
pub proof fn lemma_withdraw_needs_authority(
    state: &DonationState,
    ctx: &Withdraw,
    amount: u64,
    now: i64,
)
    requires
        ctx.authority != state.authority,
    ensures
        withdraw_spec(state, ctx, amount, now) == refused(SahayogError::Unauthorized),
{
    Identity::lemma_view_injective(ctx.authority, state.authority);
}

/// Before the deadline nothing is withdrawn: the authority itself is
/// refused, even where the amount is there to be had.
pub proof fn lemma_withdraw_waits_for_deadline(
    state: &DonationState,
    ctx: &Withdraw,
    amount: u64,
    now: i64,
)
    requires
        ctx.authority == state.authority,
        ctx.fund_wallet == state.fund_wallet,
        now < state.deadline,
    ensures
        withdraw_spec(state, ctx, amount, now) == refused(SahayogError::WithdrawalBeforeDeadline),
{
}

/// A refund is bound to no phase of the campaign: whether the campaign is
/// paused makes no difference to the answer, and the time is not asked.
pub proof fn lemma_refund_in_any_phase(
    state: &DonationState,
    ctx: &Refund,
    amount: u64,
    is_active: bool,
)
    ensures
        refund_spec(&DonationState { is_active, ..*state }, ctx, amount) == refund_spec(
            state,
            ctx,
            amount,
        ),
{
}

/// With nothing left of the donations, every withdrawal and every refund of
/// a positive amount that the authority is otherwise entitled to is refused
/// for want of funds.
pub proof fn lemma_empty_books_pay_nothing(
    state: &DonationState,
    withdrawal: &Withdraw,
    repayment: &Refund,
    amount: u64,
    now: i64,
)
    requires
        state.available_spec() == 0,
        amount > 0,
    ensures
        withdraw_spec(state, withdrawal, amount, now) is Err,
        refund_spec(state, repayment, amount) is Err,
        withdrawal.authority == state.authority && withdrawal.fund_wallet == state.fund_wallet
            && now >= state.deadline ==> withdraw_spec(state, withdrawal, amount, now) == refused(
            SahayogError::InsufficientFunds,
        ),
        repayment.authority == state.authority && repayment.fund_wallet == state.fund_wallet
            ==> refund_spec(state, repayment, amount) == refused(SahayogError::InsufficientFunds),
{
}

} // verus!
