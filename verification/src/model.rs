//! The mathematical model of the engine: its abstract state, the facts that
//! state always satisfies, and one transition function per operation.  Every
//! executable operation promises to agree exactly with its transition
//! function, so all lifecycle reasoning can be done here.

use crate::config::EscrowConfig;
use crate::errors::EscrowError;
use crate::job::{expected_escrow, job_wf, released_initial, JobState, JobV};
use crate::split::{lemma_split_initial_bounds, split_initial};
use vstd::prelude::*;

verus! {

/// How long past the deadline the payer has to review submitted work before
/// the payee may claim custody unilaterally (seven days, in seconds).
pub const GRACE_PERIOD: u64 = 7 * 86400;

/// The abstract state of an escrow engine: the custody account, the policy,
/// the job records in creation order, every account's balance, and the
/// per-payee fraud counts.  Accounts absent from `balances` hold zero;
/// payees absent from `fraud` have no flags.
pub struct EscrowView {
    pub custody: u64,
    pub config: EscrowConfig,
    pub jobs: Seq<JobV>,
    pub balances: Map<u64, i128>,
    pub fraud: Map<u64, u64>,
}

/// The balance of an account: zero when the ledger has no entry for it.
pub open spec fn bal(m: Map<u64, i128>, a: u64) -> int {
    if m.contains_key(a) {
        m[a] as int
    } else {
        0
    }
}

/// The fraud count of a payee: zero when the ledger has no entry.
pub open spec fn fraud_of(m: Map<u64, u64>, p: u64) -> int {
    if m.contains_key(p) {
        m[p] as int
    } else {
        0
    }
}

/// What a ledger transfer does: `None` when the ledger refuses it (a
/// negative amount, an insufficient source balance, or a destination balance
/// that would leave the representable range), otherwise the moved balances.
/// A transfer to the source itself moves nothing.
pub open spec fn spec_transfer(m: Map<u64, i128>, from: u64, to: u64, amount: int) -> Option<
    Map<u64, i128>,
> {
    if amount < 0 {
        None
    } else if bal(m, from) < amount {
        None
    } else if from == to {
        Some(m)
    } else if bal(m, to) + amount > i128::MAX {
        None
    } else {
        Some(
            m.insert(from, (bal(m, from) - amount) as i128).insert(
                to,
                (bal(m, to) + amount) as i128,
            ),
        )
    }
}

/// What crediting an account does: `None` when the amount is negative or
/// the balance would leave the representable range.
pub open spec fn spec_credit(m: Map<u64, i128>, account: u64, amount: int) -> Option<
    Map<u64, i128>,
> {
    if amount < 0 {
        None
    } else if bal(m, account) + amount > i128::MAX {
        None
    } else {
        Some(m.insert(account, (bal(m, account) + amount) as i128))
    }
}

/// A well-formed record keeps its custody between zero and its total.
pub proof fn lemma_wf_escrow_bounds(j: JobV, i: int)
    requires
        job_wf(j, i),
    ensures
        0 <= j.escrowed_amount <= j.total_amount,
        released_initial(j) <= j.total_amount,
{
    lemma_split_initial_bounds(j.total_amount as int, j.initial_payment_percent as int);
}

/// What a successful transfer does to the balances: the source loses the
/// amount, the destination gains it, nobody else moves, and no balance
/// turns negative.
pub proof fn lemma_spec_transfer_props(m: Map<u64, i128>, from: u64, to: u64, amount: int)
    requires
        spec_transfer(m, from, to, amount) is Some,
        forall|a: u64| m.contains_key(a) ==> #[trigger] m[a] >= 0,
    ensures
        ({
            let b2 = spec_transfer(m, from, to, amount)->0;
            &&& forall|a: u64| b2.contains_key(a) ==> #[trigger] b2[a] >= 0
            &&& (from != to ==> bal(b2, from) == bal(m, from) - amount)
            &&& (from != to ==> bal(b2, to) == bal(m, to) + amount)
            &&& (from == to ==> b2 == m)
            &&& forall|a: u64| a != from && a != to ==> #[trigger] bal(b2, a) == bal(m, a)
        }),
{
}

/// The value under custody across all jobs.
pub open spec fn sum_escrowed(jobs: Seq<JobV>) -> int
    decreases jobs.len(),
{
    if jobs.len() == 0 {
        0
    } else {
        sum_escrowed(jobs.drop_last()) + jobs.last().escrowed_amount
    }
}

/// What one job contributes to a payee's fraud count.
pub open spec fn flag_contrib(j: JobV, p: u64) -> int {
    if j.payee == p && j.fraud_flag_raised {
        1
    } else {
        0
    }
}

/// How many stored jobs carry a fraud flag against this payee.
pub open spec fn count_flagged(jobs: Seq<JobV>, p: u64) -> int
    decreases jobs.len(),
{
    if jobs.len() == 0 {
        0
    } else {
        count_flagged(jobs.drop_last(), p) + flag_contrib(jobs.last(), p)
    }
}

/// Whether a job id names a stored record.  Ids start at one and are the
/// position in the record sequence shifted by one.
pub open spec fn job_exists(v: EscrowView, job_id: u64) -> bool {
    1 <= job_id <= v.jobs.len()
}

/// The record a job id names.
pub open spec fn job_at(v: EscrowView, job_id: u64) -> JobV {
    v.jobs[job_id - 1]
}

/// What every reachable engine state satisfies: each record is well formed
/// at its position and names neither party as the custody account, the
/// custody balance is exactly the value under escrow (conservation), no
/// balance is negative, and every fraud count equals a rescan of the jobs.
pub open spec fn view_wf(v: EscrowView) -> bool {
    &&& forall|i: int| 0 <= i < v.jobs.len() ==> job_wf(#[trigger] v.jobs[i], i)
    &&& forall|i: int|
        0 <= i < v.jobs.len() ==> (#[trigger] v.jobs[i]).payer != v.custody && v.jobs[i].payee
            != v.custody
    &&& bal(v.balances, v.custody) == sum_escrowed(v.jobs)
    &&& forall|a: u64| v.balances.contains_key(a) ==> #[trigger] v.balances[a] >= 0
    &&& forall|p: u64| #[trigger] fraud_of(v.fraud, p) == count_flagged(v.jobs, p)
}

// ---------------------------------------------------------------------------
// Facts about the sums that conservation reasoning needs.
// ---------------------------------------------------------------------------

/// Appending a job adds exactly its escrow to the total under custody.
pub proof fn lemma_sum_escrowed_push(jobs: Seq<JobV>, j: JobV)
    ensures
        sum_escrowed(jobs.push(j)) == sum_escrowed(jobs) + j.escrowed_amount,
{
    assert(jobs.push(j).drop_last() =~= jobs);
}

/// Replacing one job changes the total under custody by the difference of
/// the escrows.
pub proof fn lemma_sum_escrowed_update(jobs: Seq<JobV>, i: int, j: JobV)
    requires
        0 <= i < jobs.len(),
    ensures
        sum_escrowed(jobs.update(i, j)) == sum_escrowed(jobs) - jobs[i].escrowed_amount
            + j.escrowed_amount,
    decreases jobs.len(),
{
    if i == jobs.len() - 1 {
        assert(jobs.update(i, j).drop_last() =~= jobs.drop_last());
    } else {
        lemma_sum_escrowed_update(jobs.drop_last(), i, j);
        assert(jobs.update(i, j).drop_last() =~= jobs.drop_last().update(i, j));
        assert(jobs.update(i, j).last() == jobs.last());
    }
}

/// With no negative escrow, each job holds at most the total under custody.
pub proof fn lemma_sum_escrowed_element(jobs: Seq<JobV>, i: int)
    requires
        0 <= i < jobs.len(),
        forall|k: int| 0 <= k < jobs.len() ==> (#[trigger] jobs[k]).escrowed_amount >= 0,
    ensures
        jobs[i].escrowed_amount <= sum_escrowed(jobs),
        sum_escrowed(jobs) >= 0,
    decreases jobs.len(),
{
    assert(jobs.last() == jobs[jobs.len() - 1]);
    assert(jobs.last().escrowed_amount >= 0);
    assert(forall|k: int|
        0 <= k < jobs.len() - 1 ==> (#[trigger] jobs.drop_last()[k]) == jobs[k]);
    assert(forall|k: int|
        0 <= k < jobs.drop_last().len() ==> (#[trigger] jobs.drop_last()[k]).escrowed_amount >= 0);
    lemma_sum_escrowed_nonneg(jobs.drop_last());
    if i < jobs.len() - 1 {
        lemma_sum_escrowed_element(jobs.drop_last(), i);
        assert(jobs[i] == jobs.drop_last()[i]);
    }
}

/// With no negative escrow, the total under custody is not negative.
pub proof fn lemma_sum_escrowed_nonneg(jobs: Seq<JobV>)
    requires
        forall|k: int| 0 <= k < jobs.len() ==> (#[trigger] jobs[k]).escrowed_amount >= 0,
    ensures
        sum_escrowed(jobs) >= 0,
    decreases jobs.len(),
{
    if jobs.len() > 0 {
        assert(jobs.last() == jobs[jobs.len() - 1]);
        assert(forall|k: int|
            0 <= k < jobs.len() - 1 ==> (#[trigger] jobs.drop_last()[k]) == jobs[k]);
        lemma_sum_escrowed_nonneg(jobs.drop_last());
    }
}

/// Appending a job adds exactly its own contribution to each fraud rescan.
pub proof fn lemma_count_flagged_push(jobs: Seq<JobV>, j: JobV, p: u64)
    ensures
        count_flagged(jobs.push(j), p) == count_flagged(jobs, p) + flag_contrib(j, p),
{
    assert(jobs.push(j).drop_last() =~= jobs);
}

/// Replacing one job changes each fraud rescan by the difference of the
/// contributions.
pub proof fn lemma_count_flagged_update(jobs: Seq<JobV>, i: int, j: JobV, p: u64)
    requires
        0 <= i < jobs.len(),
    ensures
        count_flagged(jobs.update(i, j), p) == count_flagged(jobs, p) - flag_contrib(jobs[i], p)
            + flag_contrib(j, p),
    decreases jobs.len(),
{
    if i == jobs.len() - 1 {
        assert(jobs.update(i, j).drop_last() =~= jobs.drop_last());
    } else {
        lemma_count_flagged_update(jobs.drop_last(), i, j, p);
        assert(jobs.update(i, j).drop_last() =~= jobs.drop_last().update(i, j));
        assert(jobs.update(i, j).last() == jobs.last());
    }
}

/// A fraud rescan never counts more than the stored jobs, and counts
/// strictly fewer when some job with this payee is unflagged.
pub proof fn lemma_count_flagged_bound(jobs: Seq<JobV>, p: u64)
    ensures
        0 <= count_flagged(jobs, p) <= jobs.len(),
    decreases jobs.len(),
{
    if jobs.len() > 0 {
        lemma_count_flagged_bound(jobs.drop_last(), p);
    }
}

/// The shared shape of every single-record transition: replacing one stored
/// record with a well-formed record for the same parties keeps every
/// per-record clause of well-formedness, moves the total under custody by
/// exactly the record's difference, and moves each fraud rescan by exactly
/// the record's change of contribution.
pub proof fn lemma_record_update(vold: EscrowView, idx: int, jnew: JobV)
    requires
        view_wf(vold),
        0 <= idx < vold.jobs.len(),
        job_wf(jnew, idx),
        jnew.payer == vold.jobs[idx].payer,
        jnew.payee == vold.jobs[idx].payee,
    ensures
        ({
            let jobs2 = vold.jobs.update(idx, jnew);
            &&& forall|i: int| 0 <= i < jobs2.len() ==> job_wf(#[trigger] jobs2[i], i)
            &&& forall|i: int|
                0 <= i < jobs2.len() ==> (#[trigger] jobs2[i]).payer != vold.custody
                    && jobs2[i].payee != vold.custody
            &&& sum_escrowed(jobs2) == sum_escrowed(vold.jobs) - vold.jobs[idx].escrowed_amount
                + jnew.escrowed_amount
            &&& forall|p: u64|
                #[trigger] count_flagged(jobs2, p) == count_flagged(vold.jobs, p) - flag_contrib(
                    vold.jobs[idx],
                    p,
                ) + flag_contrib(jnew, p)
        }),
{
    let jobs2 = vold.jobs.update(idx, jnew);
    lemma_sum_escrowed_update(vold.jobs, idx, jnew);
    assert forall|p: u64|
        #[trigger] count_flagged(jobs2, p) == count_flagged(vold.jobs, p) - flag_contrib(
            vold.jobs[idx],
            p,
        ) + flag_contrib(jnew, p) by {
        lemma_count_flagged_update(vold.jobs, idx, jnew, p);
    }
    assert forall|i: int| 0 <= i < jobs2.len() implies job_wf(#[trigger] jobs2[i], i) by {
        assert(job_wf(vold.jobs[i], i));
        if i != idx {
            assert(jobs2[i] == vold.jobs[i]);
        }
    }
    assert forall|i: int| 0 <= i < jobs2.len() implies (#[trigger] jobs2[i]).payer != vold.custody
        && jobs2[i].payee != vold.custody by {
        if i != idx {
            assert(jobs2[i] == vold.jobs[i]);
        }
    }
}

/// A job with this payee and no flag keeps the rescan strictly below the
/// number of stored jobs.
pub proof fn lemma_count_flagged_lt(jobs: Seq<JobV>, p: u64, i: int)
    requires
        0 <= i < jobs.len(),
        jobs[i].payee == p,
        !jobs[i].fraud_flag_raised,
    ensures
        count_flagged(jobs, p) < jobs.len(),
    decreases jobs.len(),
{
    if i == jobs.len() - 1 {
        lemma_count_flagged_bound(jobs.drop_last(), p);
    } else {
        lemma_count_flagged_lt(jobs.drop_last(), p, i);
    }
}

// ---------------------------------------------------------------------------
// The transition functions, one per operation.  Each takes the state before
// the call and returns the state after it together with the result.  The
// checks run in the fixed order: existence, authorization, state,
// time window, amount, and the ledger movement comes last, so a refused
// movement leaves no partial change.
// ---------------------------------------------------------------------------

/// The record a freshly created job holds.
pub open spec fn fresh_job(
    id: u64,
    payer: u64,
    payee: u64,
    total_amount: i128,
    initial_payment_percent: u32,
    deadline: u64,
    description: Seq<char>,
    now: u64,
    funded: bool,
) -> JobV {
    JobV {
        id,
        payer,
        payee,
        total_amount,
        initial_payment_percent,
        initial_payment_released: false,
        escrowed_amount: if funded {
            total_amount
        } else {
            0
        },
        deadline,
        state: if funded {
            JobState::Funded
        } else {
            JobState::Created
        },
        description,
        work_reference: Seq::empty(),
        fraud_flag_raised: false,
        fraud_flag_timestamp: 0,
        created_at: now,
        funded_at: if funded {
            now
        } else {
            0
        },
        submitted_at: 0,
        completed_at: 0,
    }
}

/// Creating a job: the payer registers the agreement.  Under the
/// fund-at-creation policy the total moves into custody at once and the job
/// starts out `Funded`; otherwise nothing moves and it starts out `Created`.
pub open spec fn spec_create_job(
    v: EscrowView,
    caller: u64,
    payer: u64,
    payee: u64,
    total_amount: i128,
    initial_payment_percent: u32,
    deadline: u64,
    description: Seq<char>,
    now: u64,
) -> (EscrowView, Result<u64, EscrowError>) {
    if caller != payer {
        (v, Err(EscrowError::Unauthorized))
    } else if deadline <= now {
        (v, Err(EscrowError::InvalidDeadline))
    } else if total_amount <= 0 {
        (v, Err(EscrowError::InvalidAmount))
    } else if initial_payment_percent > 100 {
        (v, Err(EscrowError::InvalidAmount))
    } else {
        let id = (v.jobs.len() + 1) as u64;
        if v.config.fund_at_creation {
            match spec_transfer(v.balances, payer, v.custody, total_amount as int) {
                None => (v, Err(EscrowError::TransferFailed)),
                Some(b2) => (
                    EscrowView {
                        jobs: v.jobs.push(
                            fresh_job(
                                id,
                                payer,
                                payee,
                                total_amount,
                                initial_payment_percent,
                                deadline,
                                description,
                                now,
                                true,
                            ),
                        ),
                        balances: b2,
                        ..v
                    },
                    Ok(id),
                ),
            }
        } else {
            (
                EscrowView {
                    jobs: v.jobs.push(
                        fresh_job(
                            id,
                            payer,
                            payee,
                            total_amount,
                            initial_payment_percent,
                            deadline,
                            description,
                            now,
                            false,
                        ),
                    ),
                    ..v
                },
                Ok(id),
            )
        }
    }
}

/// Funding: the payer moves the whole total into custody.
pub open spec fn spec_fund(v: EscrowView, caller: u64, job_id: u64, now: u64) -> (
    EscrowView,
    Result<(), EscrowError>,
) {
    if !job_exists(v, job_id) {
        (v, Err(EscrowError::NotFound))
    } else {
        let j = job_at(v, job_id);
        if caller != j.payer {
            (v, Err(EscrowError::Unauthorized))
        } else if !(j.state is Created) {
            (v, Err(EscrowError::InvalidState))
        } else {
            match spec_transfer(v.balances, j.payer, v.custody, j.total_amount as int) {
                None => (v, Err(EscrowError::TransferFailed)),
                Some(b2) => (
                    EscrowView {
                        jobs: v.jobs.update(
                            job_id - 1,
                            JobV {
                                state: JobState::Funded,
                                escrowed_amount: j.total_amount,
                                funded_at: now,
                                ..j
                            },
                        ),
                        balances: b2,
                        ..v
                    },
                    Ok(()),
                ),
            }
        }
    }
}

/// Submission: the payee hands in a work reference before the deadline.
/// Legal while funded or after a revision request; resubmission replaces
/// the reference and the submission time.
pub open spec fn spec_submit_work(
    v: EscrowView,
    caller: u64,
    job_id: u64,
    work_reference: Seq<char>,
    now: u64,
) -> (EscrowView, Result<(), EscrowError>) {
    if !job_exists(v, job_id) {
        (v, Err(EscrowError::NotFound))
    } else {
        let j = job_at(v, job_id);
        if caller != j.payee {
            (v, Err(EscrowError::Unauthorized))
        } else if !(j.state is Funded || j.state is RevisionRequested) {
            (v, Err(EscrowError::InvalidState))
        } else if now > j.deadline {
            (v, Err(EscrowError::DeadlinePassed))
        } else {
            (
                EscrowView {
                    jobs: v.jobs.update(
                        job_id - 1,
                        JobV { state: JobState::Submitted, work_reference, submitted_at: now, ..j },
                    ),
                    ..v
                },
                Ok(()),
            )
        }
    }
}

/// Early release: the payer sends the configured fraction of the total to
/// the payee ahead of approval, once only, and only when the percentage is
/// positive.  Legal after submission, or already while funded under the
/// pre-submission policy.
pub open spec fn spec_release_initial_payment(
    v: EscrowView,
    caller: u64,
    job_id: u64,
    now: u64,
) -> (EscrowView, Result<(), EscrowError>) {
    if !job_exists(v, job_id) {
        (v, Err(EscrowError::NotFound))
    } else {
        let j = job_at(v, job_id);
        if caller != j.payer {
            (v, Err(EscrowError::Unauthorized))
        } else if !(j.state is Submitted || (v.config.allow_pre_submission_release
            && j.state is Funded)) {
            (v, Err(EscrowError::InvalidState))
        } else if j.initial_payment_released {
            (v, Err(EscrowError::InvalidState))
        } else if j.initial_payment_percent == 0 {
            (v, Err(EscrowError::InvalidAmount))
        } else {
            let initial = split_initial(j.total_amount as int, j.initial_payment_percent as int);
            match spec_transfer(v.balances, v.custody, j.payee, initial) {
                None => (v, Err(EscrowError::TransferFailed)),
                Some(b2) => (
                    EscrowView {
                        jobs: v.jobs.update(
                            job_id - 1,
                            JobV {
                                initial_payment_released: true,
                                escrowed_amount: (j.escrowed_amount - initial) as i128,
                                ..j
                            },
                        ),
                        balances: b2,
                        ..v
                    },
                    Ok(()),
                ),
            }
        }
    }
}

/// Approval: the payer accepts the submitted work and the remaining custody
/// goes to the payee.
pub open spec fn spec_approve(v: EscrowView, caller: u64, job_id: u64, now: u64) -> (
    EscrowView,
    Result<(), EscrowError>,
) {
    if !job_exists(v, job_id) {
        (v, Err(EscrowError::NotFound))
    } else {
        let j = job_at(v, job_id);
        if caller != j.payer {
            (v, Err(EscrowError::Unauthorized))
        } else if !(j.state is Submitted) {
            (v, Err(EscrowError::InvalidState))
        } else {
            match spec_transfer(v.balances, v.custody, j.payee, j.escrowed_amount as int) {
                None => (v, Err(EscrowError::TransferFailed)),
                Some(b2) => (
                    EscrowView {
                        jobs: v.jobs.update(
                            job_id - 1,
                            JobV {
                                state: JobState::Approved,
                                escrowed_amount: 0,
                                completed_at: now,
                                ..j
                            },
                        ),
                        balances: b2,
                        ..v
                    },
                    Ok(()),
                ),
            }
        }
    }
}

/// Revision request: the payer sends submitted work back for changes before
/// the deadline; nothing moves.
pub open spec fn spec_request_revision(v: EscrowView, caller: u64, job_id: u64, now: u64) -> (
    EscrowView,
    Result<(), EscrowError>,
) {
    if !job_exists(v, job_id) {
        (v, Err(EscrowError::NotFound))
    } else {
        let j = job_at(v, job_id);
        if caller != j.payer {
            (v, Err(EscrowError::Unauthorized))
        } else if !(j.state is Submitted) {
            (v, Err(EscrowError::InvalidState))
        } else if now > j.deadline {
            (v, Err(EscrowError::DeadlinePassed))
        } else {
            (
                EscrowView {
                    jobs: v.jobs.update(
                        job_id - 1,
                        JobV { state: JobState::RevisionRequested, ..j },
                    ),
                    ..v
                },
                Ok(()),
            )
        }
    }
}

/// Rejection: the payer turns the submitted work down and the remaining
/// custody goes back to the payer; the payee keeps any released initial
/// payment.
pub open spec fn spec_reject(v: EscrowView, caller: u64, job_id: u64, now: u64) -> (
    EscrowView,
    Result<(), EscrowError>,
) {
    if !job_exists(v, job_id) {
        (v, Err(EscrowError::NotFound))
    } else {
        let j = job_at(v, job_id);
        if caller != j.payer {
            (v, Err(EscrowError::Unauthorized))
        } else if !(j.state is Submitted) {
            (v, Err(EscrowError::InvalidState))
        } else {
            match spec_transfer(v.balances, v.custody, j.payer, j.escrowed_amount as int) {
                None => (v, Err(EscrowError::TransferFailed)),
                Some(b2) => (
                    EscrowView {
                        jobs: v.jobs.update(
                            job_id - 1,
                            JobV {
                                state: JobState::Rejected,
                                escrowed_amount: 0,
                                completed_at: now,
                                ..j
                            },
                        ),
                        balances: b2,
                        ..v
                    },
                    Ok(()),
                ),
            }
        }
    }
}

/// Fraud flag: the payer claims default; the remaining custody goes back to
/// the payer and the payee's fraud count grows by one.  Legal on submitted
/// work, or already while funded under the pre-submission policy once the
/// initial payment went out.
pub open spec fn spec_raise_fraud_flag(v: EscrowView, caller: u64, job_id: u64, now: u64) -> (
    EscrowView,
    Result<(), EscrowError>,
) {
    if !job_exists(v, job_id) {
        (v, Err(EscrowError::NotFound))
    } else {
        let j = job_at(v, job_id);
        if caller != j.payer {
            (v, Err(EscrowError::Unauthorized))
        } else if !(j.state is Submitted || (v.config.allow_pre_submission_release
            && j.state is Funded && j.initial_payment_released)) {
            (v, Err(EscrowError::InvalidState))
        } else if j.fraud_flag_raised {
            (v, Err(EscrowError::InvalidState))
        } else {
            match spec_transfer(v.balances, v.custody, j.payer, j.escrowed_amount as int) {
                None => (v, Err(EscrowError::TransferFailed)),
                Some(b2) => (
                    EscrowView {
                        jobs: v.jobs.update(
                            job_id - 1,
                            JobV {
                                state: JobState::FraudFlagged,
                                escrowed_amount: 0,
                                fraud_flag_raised: true,
                                fraud_flag_timestamp: now,
                                completed_at: now,
                                ..j
                            },
                        ),
                        balances: b2,
                        fraud: v.fraud.insert(j.payee, (fraud_of(v.fraud, j.payee) + 1) as u64),
                        ..v
                    },
                    Ok(()),
                ),
            }
        }
    }
}

/// Cancellation: the payer withdraws a job that was never funded; nothing
/// moves.
pub open spec fn spec_cancel(v: EscrowView, caller: u64, job_id: u64, now: u64) -> (
    EscrowView,
    Result<(), EscrowError>,
) {
    if !job_exists(v, job_id) {
        (v, Err(EscrowError::NotFound))
    } else {
        let j = job_at(v, job_id);
        if caller != j.payer {
            (v, Err(EscrowError::Unauthorized))
        } else if !(j.state is Created) {
            (v, Err(EscrowError::InvalidState))
        } else {
            (
                EscrowView {
                    jobs: v.jobs.update(
                        job_id - 1,
                        JobV { state: JobState::Cancelled, completed_at: now, ..j },
                    ),
                    ..v
                },
                Ok(()),
            )
        }
    }
}

/// Expiry refund: once the deadline has passed with the job still awaiting
/// funding or submission, custody (if any) goes back to the payer.  Under
/// the payer-only policy only the payer may trigger it; otherwise anyone.
pub open spec fn spec_refund_expired(v: EscrowView, caller: u64, job_id: u64, now: u64) -> (
    EscrowView,
    Result<(), EscrowError>,
) {
    if !job_exists(v, job_id) {
        (v, Err(EscrowError::NotFound))
    } else {
        let j = job_at(v, job_id);
        if v.config.refund_expired_payer_only && caller != j.payer {
            (v, Err(EscrowError::Unauthorized))
        } else if !(j.state is Created || j.state is Funded) {
            (v, Err(EscrowError::InvalidState))
        } else if now <= j.deadline {
            (v, Err(EscrowError::DeadlineNotYetPassed))
        } else {
            match spec_transfer(v.balances, v.custody, j.payer, j.escrowed_amount as int) {
                None => (v, Err(EscrowError::TransferFailed)),
                Some(b2) => (
                    EscrowView {
                        jobs: v.jobs.update(
                            job_id - 1,
                            JobV {
                                state: JobState::Refunded,
                                escrowed_amount: 0,
                                completed_at: now,
                                ..j
                            },
                        ),
                        balances: b2,
                        ..v
                    },
                    Ok(()),
                ),
            }
        }
    }
}

/// Emergency release: once the deadline and the grace period have both
/// passed with work submitted and unreviewed, the payee may claim the
/// remaining custody; the job counts as approved through payer inaction.
pub open spec fn spec_emergency_release(v: EscrowView, caller: u64, job_id: u64, now: u64) -> (
    EscrowView,
    Result<(), EscrowError>,
) {
    if !job_exists(v, job_id) {
        (v, Err(EscrowError::NotFound))
    } else {
        let j = job_at(v, job_id);
        if caller != j.payee {
            (v, Err(EscrowError::Unauthorized))
        } else if !(j.state is Submitted) {
            (v, Err(EscrowError::InvalidState))
        } else if now <= j.deadline + GRACE_PERIOD {
            (v, Err(EscrowError::DeadlineNotYetPassed))
        } else {
            match spec_transfer(v.balances, v.custody, j.payee, j.escrowed_amount as int) {
                None => (v, Err(EscrowError::TransferFailed)),
                Some(b2) => (
                    EscrowView {
                        jobs: v.jobs.update(
                            job_id - 1,
                            JobV {
                                state: JobState::Approved,
                                escrowed_amount: 0,
                                completed_at: now,
                                ..j
                            },
                        ),
                        balances: b2,
                        ..v
                    },
                    Ok(()),
                ),
            }
        }
    }
}

/// The ids of the stored jobs with this payer, in creation order.
pub open spec fn ids_with_payer(jobs: Seq<JobV>, payer: u64) -> Seq<u64>
    decreases jobs.len(),
{
    if jobs.len() == 0 {
        Seq::empty()
    } else if jobs.last().payer == payer {
        ids_with_payer(jobs.drop_last(), payer).push(jobs.last().id)
    } else {
        ids_with_payer(jobs.drop_last(), payer)
    }
}

/// The ids of the stored jobs with this payee, in creation order.
pub open spec fn ids_with_payee(jobs: Seq<JobV>, payee: u64) -> Seq<u64>
    decreases jobs.len(),
{
    if jobs.len() == 0 {
        Seq::empty()
    } else if jobs.last().payee == payee {
        ids_with_payee(jobs.drop_last(), payee).push(jobs.last().id)
    } else {
        ids_with_payee(jobs.drop_last(), payee)
    }
}

} // verus!
