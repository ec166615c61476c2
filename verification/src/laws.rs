//! The library's laws, each stated over the transition functions and the
//! well-formedness predicate and proved once and for all: conservation of
//! custodied value, no double release, split correctness, fraud-counter
//! consistency, and authorization.

use crate::errors::EscrowError;
use crate::job::{ever_funded, job_wf, released_so_far, JobState};
use crate::model::{
    bal, count_flagged, fraud_of, job_at, job_exists, lemma_count_flagged_bound,
    lemma_count_flagged_lt, lemma_wf_escrow_bounds, spec_approve, spec_cancel, spec_create_job,
    spec_emergency_release, spec_fund, spec_raise_fraud_flag, spec_refund_expired, spec_reject,
    spec_release_initial_payment, spec_request_revision, spec_submit_work,
    lemma_sum_escrowed_element, lemma_sum_escrowed_nonneg, sum_escrowed, view_wf, EscrowView,
};
use crate::split::{lemma_split_initial_bounds, split_initial};
use vstd::prelude::*;

verus! {

/// Split correctness: for every total and every percentage up to one
/// hundred, the initial payment and the remainder restore exactly the total,
/// and the initial payment never exceeds it — truncation cannot leak value.
pub proof fn lemma_split_conservation(total: int, percent: int)
    requires
        total >= 0,
        0 <= percent <= 100,
    ensures
        split_initial(total, percent) + (total - split_initial(total, percent)) == total,
        0 <= split_initial(total, percent) <= total,
{
    lemma_split_initial_bounds(total, percent);
}

/// Conservation, globally: in every well-formed engine state the custody
/// account holds exactly the value escrowed across all jobs — custodied
/// value is never created or destroyed.
pub proof fn lemma_custody_conservation(v: EscrowView)
    requires
        view_wf(v),
    ensures
        bal(v.balances, v.custody) == sum_escrowed(v.jobs),
        sum_escrowed(v.jobs) >= 0,
{
    assert forall|k: int| 0 <= k < v.jobs.len() implies (#[trigger] v.jobs[k]).escrowed_amount
        >= 0 by {
        lemma_wf_escrow_bounds(v.jobs[k], k);
    }
    lemma_sum_escrowed_nonneg(v.jobs);
}

/// Conservation, per job: the value still escrowed plus the value released
/// so far is the whole total for every job that was ever funded, and zero
/// for one that never was.
pub proof fn lemma_job_conservation(v: EscrowView, i: int)
    requires
        view_wf(v),
        0 <= i < v.jobs.len(),
    ensures
        v.jobs[i].escrowed_amount + released_so_far(v.jobs[i]) == if ever_funded(v.jobs[i]) {
            v.jobs[i].total_amount as int
        } else {
            0
        },
{
    lemma_wf_escrow_bounds(v.jobs[i], i);
}

/// Solvency: in every well-formed state the custody account covers each
/// single job's remaining escrow, so no release or refund the machine owes
/// can fail for lack of custodied funds.
pub proof fn lemma_custody_covers_each_job(v: EscrowView, i: int)
    requires
        view_wf(v),
        0 <= i < v.jobs.len(),
    ensures
        0 <= v.jobs[i].escrowed_amount <= bal(v.balances, v.custody),
{
    assert forall|k: int| 0 <= k < v.jobs.len() implies (#[trigger] v.jobs[k]).escrowed_amount
        >= 0 by {
        lemma_wf_escrow_bounds(v.jobs[k], k);
    }
    lemma_sum_escrowed_element(v.jobs, i);
}

/// No double release: once a job is terminal, each of the five finishing
/// operations refuses it with `InvalidState` and changes nothing, whoever
/// calls and at whatever time; and each of the five leaves the job terminal
/// whenever it succeeds — so each can succeed at most once per job.
pub proof fn lemma_no_double_release(v: EscrowView, caller: u64, job_id: u64, now: u64)
    requires
        job_exists(v, job_id),
    ensures
        job_at(v, job_id).state.is_terminal() && caller == job_at(v, job_id).payer
            ==> spec_approve(v, caller, job_id, now) == (
            v,
            Err::<(), EscrowError>(EscrowError::InvalidState),
        ),
        job_at(v, job_id).state.is_terminal() && caller == job_at(v, job_id).payer ==> spec_reject(
            v,
            caller,
            job_id,
            now,
        ) == (v, Err::<(), EscrowError>(EscrowError::InvalidState)),
        job_at(v, job_id).state.is_terminal() && caller == job_at(v, job_id).payer
            ==> spec_raise_fraud_flag(v, caller, job_id, now) == (
            v,
            Err::<(), EscrowError>(EscrowError::InvalidState),
        ),
        job_at(v, job_id).state.is_terminal() && (!v.config.refund_expired_payer_only || caller
            == job_at(v, job_id).payer) ==> spec_refund_expired(v, caller, job_id, now) == (
            v,
            Err::<(), EscrowError>(EscrowError::InvalidState),
        ),
        job_at(v, job_id).state.is_terminal() && caller == job_at(v, job_id).payee
            ==> spec_emergency_release(v, caller, job_id, now) == (
            v,
            Err::<(), EscrowError>(EscrowError::InvalidState),
        ),
        spec_approve(v, caller, job_id, now).1 is Ok ==> job_at(
            spec_approve(v, caller, job_id, now).0,
            job_id,
        ).state.is_terminal(),
        spec_reject(v, caller, job_id, now).1 is Ok ==> job_at(
            spec_reject(v, caller, job_id, now).0,
            job_id,
        ).state.is_terminal(),
        spec_raise_fraud_flag(v, caller, job_id, now).1 is Ok ==> job_at(
            spec_raise_fraud_flag(v, caller, job_id, now).0,
            job_id,
        ).state.is_terminal(),
        spec_refund_expired(v, caller, job_id, now).1 is Ok ==> job_at(
            spec_refund_expired(v, caller, job_id, now).0,
            job_id,
        ).state.is_terminal(),
        spec_emergency_release(v, caller, job_id, now).1 is Ok ==> job_at(
            spec_emergency_release(v, caller, job_id, now).0,
            job_id,
        ).state.is_terminal(),
{
}

/// A refused operation changes nothing: whenever any operation returns an
/// error, the engine state it returns is exactly the state it was given.
pub proof fn lemma_error_leaves_state(
    v: EscrowView,
    caller: u64,
    payer: u64,
    payee: u64,
    total_amount: i128,
    initial_payment_percent: u32,
    deadline: u64,
    description: Seq<char>,
    work_reference: Seq<char>,
    job_id: u64,
    now: u64,
)
    ensures
        spec_create_job(
            v,
            caller,
            payer,
            payee,
            total_amount,
            initial_payment_percent,
            deadline,
            description,
            now,
        ).1 is Err ==> spec_create_job(
            v,
            caller,
            payer,
            payee,
            total_amount,
            initial_payment_percent,
            deadline,
            description,
            now,
        ).0 == v,
        spec_fund(v, caller, job_id, now).1 is Err ==> spec_fund(v, caller, job_id, now).0 == v,
        spec_submit_work(v, caller, job_id, work_reference, now).1 is Err ==> spec_submit_work(
            v,
            caller,
            job_id,
            work_reference,
            now,
        ).0 == v,
        spec_release_initial_payment(v, caller, job_id, now).1 is Err
            ==> spec_release_initial_payment(v, caller, job_id, now).0 == v,
        spec_approve(v, caller, job_id, now).1 is Err ==> spec_approve(v, caller, job_id, now).0
            == v,
        spec_request_revision(v, caller, job_id, now).1 is Err ==> spec_request_revision(
            v,
            caller,
            job_id,
            now,
        ).0 == v,
        spec_reject(v, caller, job_id, now).1 is Err ==> spec_reject(v, caller, job_id, now).0 == v,
        spec_raise_fraud_flag(v, caller, job_id, now).1 is Err ==> spec_raise_fraud_flag(
            v,
            caller,
            job_id,
            now,
        ).0 == v,
        spec_cancel(v, caller, job_id, now).1 is Err ==> spec_cancel(v, caller, job_id, now).0 == v,
        spec_refund_expired(v, caller, job_id, now).1 is Err ==> spec_refund_expired(
            v,
            caller,
            job_id,
            now,
        ).0 == v,
        spec_emergency_release(v, caller, job_id, now).1 is Err ==> spec_emergency_release(
            v,
            caller,
            job_id,
            now,
        ).0 == v,
{
}

/// Authorization: every mutating operation refuses a caller who is not its
/// required party with `Unauthorized` and changes nothing.  Creation,
/// funding, release, approval, revision, rejection, fraud flagging and
/// cancellation belong to the payer; submission and emergency release to the
/// payee; the expiry refund to the payer exactly under the payer-only
/// policy.
pub proof fn lemma_authorization(
    v: EscrowView,
    caller: u64,
    payer: u64,
    payee: u64,
    total_amount: i128,
    initial_payment_percent: u32,
    deadline: u64,
    description: Seq<char>,
    work_reference: Seq<char>,
    job_id: u64,
    now: u64,
)
    requires
        job_exists(v, job_id),
    ensures
        caller != payer ==> spec_create_job(
            v,
            caller,
            payer,
            payee,
            total_amount,
            initial_payment_percent,
            deadline,
            description,
            now,
        ) == (v, Err::<u64, EscrowError>(EscrowError::Unauthorized)),
        caller != job_at(v, job_id).payer ==> spec_fund(v, caller, job_id, now) == (
            v,
            Err::<(), EscrowError>(EscrowError::Unauthorized),
        ),
        caller != job_at(v, job_id).payee ==> spec_submit_work(
            v,
            caller,
            job_id,
            work_reference,
            now,
        ) == (v, Err::<(), EscrowError>(EscrowError::Unauthorized)),
        caller != job_at(v, job_id).payer ==> spec_release_initial_payment(v, caller, job_id, now)
            == (v, Err::<(), EscrowError>(EscrowError::Unauthorized)),
        caller != job_at(v, job_id).payer ==> spec_approve(v, caller, job_id, now) == (
            v,
            Err::<(), EscrowError>(EscrowError::Unauthorized),
        ),
        caller != job_at(v, job_id).payer ==> spec_request_revision(v, caller, job_id, now) == (
            v,
            Err::<(), EscrowError>(EscrowError::Unauthorized),
        ),
        caller != job_at(v, job_id).payer ==> spec_reject(v, caller, job_id, now) == (
            v,
            Err::<(), EscrowError>(EscrowError::Unauthorized),
        ),
        caller != job_at(v, job_id).payer ==> spec_raise_fraud_flag(v, caller, job_id, now) == (
            v,
            Err::<(), EscrowError>(EscrowError::Unauthorized),
        ),
        caller != job_at(v, job_id).payer ==> spec_cancel(v, caller, job_id, now) == (
            v,
            Err::<(), EscrowError>(EscrowError::Unauthorized),
        ),
        v.config.refund_expired_payer_only && caller != job_at(v, job_id).payer
            ==> spec_refund_expired(v, caller, job_id, now) == (
            v,
            Err::<(), EscrowError>(EscrowError::Unauthorized),
        ),
        caller != job_at(v, job_id).payee ==> spec_emergency_release(v, caller, job_id, now) == (
            v,
            Err::<(), EscrowError>(EscrowError::Unauthorized),
        ),
{
}

/// The edges of the lifecycle graph.  Terminal states have no outgoing
/// edge, and the only way back is `RevisionRequested` to `Submitted`.
pub open spec fn allowed_edge(s1: JobState, s2: JobState) -> bool {
    ||| (s1 is Created && (s2 is Funded || s2 is Cancelled || s2 is Refunded))
    ||| (s1 is Funded && (s2 is Submitted || s2 is Refunded || s2 is FraudFlagged))
    ||| (s1 is Submitted && (s2 is Approved || s2 is Rejected || s2 is RevisionRequested
        || s2 is FraudFlagged))
    ||| (s1 is RevisionRequested && s2 is Submitted)
}

/// Monotonicity along the lifecycle graph, and locality: every successful
/// operation on a job either keeps its state (releasing the initial payment)
/// or moves it along one allowed edge, and no operation ever touches any
/// other job's record.
pub proof fn lemma_transition_graph(
    v: EscrowView,
    caller: u64,
    job_id: u64,
    work_reference: Seq<char>,
    now: u64,
)
    requires
        job_exists(v, job_id),
    ensures
        ({
            let s1 = job_at(v, job_id).state;
            &&& (spec_fund(v, caller, job_id, now).1 is Ok ==> allowed_edge(
                s1,
                job_at(spec_fund(v, caller, job_id, now).0, job_id).state,
            ))
            &&& (spec_submit_work(v, caller, job_id, work_reference, now).1 is Ok ==> allowed_edge(
                s1,
                job_at(spec_submit_work(v, caller, job_id, work_reference, now).0, job_id).state,
            ))
            &&& (spec_release_initial_payment(v, caller, job_id, now).1 is Ok ==> job_at(
                spec_release_initial_payment(v, caller, job_id, now).0,
                job_id,
            ).state == s1)
            &&& (spec_approve(v, caller, job_id, now).1 is Ok ==> allowed_edge(
                s1,
                job_at(spec_approve(v, caller, job_id, now).0, job_id).state,
            ))
            &&& (spec_request_revision(v, caller, job_id, now).1 is Ok ==> allowed_edge(
                s1,
                job_at(spec_request_revision(v, caller, job_id, now).0, job_id).state,
            ))
            &&& (spec_reject(v, caller, job_id, now).1 is Ok ==> allowed_edge(
                s1,
                job_at(spec_reject(v, caller, job_id, now).0, job_id).state,
            ))
            &&& (spec_raise_fraud_flag(v, caller, job_id, now).1 is Ok ==> allowed_edge(
                s1,
                job_at(spec_raise_fraud_flag(v, caller, job_id, now).0, job_id).state,
            ))
            &&& (spec_cancel(v, caller, job_id, now).1 is Ok ==> allowed_edge(
                s1,
                job_at(spec_cancel(v, caller, job_id, now).0, job_id).state,
            ))
            &&& (spec_refund_expired(v, caller, job_id, now).1 is Ok ==> allowed_edge(
                s1,
                job_at(spec_refund_expired(v, caller, job_id, now).0, job_id).state,
            ))
            &&& (spec_emergency_release(v, caller, job_id, now).1 is Ok ==> allowed_edge(
                s1,
                job_at(spec_emergency_release(v, caller, job_id, now).0, job_id).state,
            ))
        }),
        forall|k: int|
            0 <= k < v.jobs.len() && k != job_id - 1 ==> {
                &&& (#[trigger] spec_fund(v, caller, job_id, now).0.jobs[k]) == v.jobs[k]
                &&& spec_submit_work(v, caller, job_id, work_reference, now).0.jobs[k] == v.jobs[k]
                &&& spec_release_initial_payment(v, caller, job_id, now).0.jobs[k] == v.jobs[k]
                &&& spec_approve(v, caller, job_id, now).0.jobs[k] == v.jobs[k]
                &&& spec_request_revision(v, caller, job_id, now).0.jobs[k] == v.jobs[k]
                &&& spec_reject(v, caller, job_id, now).0.jobs[k] == v.jobs[k]
                &&& spec_raise_fraud_flag(v, caller, job_id, now).0.jobs[k] == v.jobs[k]
                &&& spec_cancel(v, caller, job_id, now).0.jobs[k] == v.jobs[k]
                &&& spec_refund_expired(v, caller, job_id, now).0.jobs[k] == v.jobs[k]
                &&& spec_emergency_release(v, caller, job_id, now).0.jobs[k] == v.jobs[k]
            },
{
}

/// Fraud counter consistency: in every well-formed state each payee's
/// maintained count equals a full rescan of the stored jobs, and never
/// exceeds their number.
pub proof fn lemma_fraud_rescan(v: EscrowView, payee: u64)
    requires
        view_wf(v),
    ensures
        fraud_of(v.fraud, payee) == count_flagged(v.jobs, payee),
        0 <= fraud_of(v.fraud, payee) <= v.jobs.len(),
{
    lemma_count_flagged_bound(v.jobs, payee);
}

/// Fraud counter monotonicity: of all the operations only a successful
/// fraud flag touches the fraud ledger, and it raises exactly the flagged
/// payee's count, by exactly one.
pub proof fn lemma_fraud_counter_monotonic(
    v: EscrowView,
    caller: u64,
    payer: u64,
    payee: u64,
    total_amount: i128,
    initial_payment_percent: u32,
    deadline: u64,
    description: Seq<char>,
    work_reference: Seq<char>,
    job_id: u64,
    now: u64,
)
    requires
        view_wf(v),
    ensures
        spec_create_job(
            v,
            caller,
            payer,
            payee,
            total_amount,
            initial_payment_percent,
            deadline,
            description,
            now,
        ).0.fraud == v.fraud,
        spec_fund(v, caller, job_id, now).0.fraud == v.fraud,
        spec_submit_work(v, caller, job_id, work_reference, now).0.fraud == v.fraud,
        spec_release_initial_payment(v, caller, job_id, now).0.fraud == v.fraud,
        spec_approve(v, caller, job_id, now).0.fraud == v.fraud,
        spec_request_revision(v, caller, job_id, now).0.fraud == v.fraud,
        spec_reject(v, caller, job_id, now).0.fraud == v.fraud,
        spec_cancel(v, caller, job_id, now).0.fraud == v.fraud,
        spec_refund_expired(v, caller, job_id, now).0.fraud == v.fraud,
        spec_emergency_release(v, caller, job_id, now).0.fraud == v.fraud,
        ({
            let (v2, res) = spec_raise_fraud_flag(v, caller, job_id, now);
            &&& (res is Ok ==> fraud_of(v2.fraud, job_at(v, job_id).payee) == fraud_of(
                v.fraud,
                job_at(v, job_id).payee,
            ) + 1)
            &&& (res is Ok ==> forall|p: u64|
                p != job_at(v, job_id).payee ==> #[trigger] fraud_of(v2.fraud, p) == fraud_of(
                    v.fraud,
                    p,
                ))
            &&& (res is Err ==> v2.fraud == v.fraud)
        }),
{
    let (v2, res) = spec_raise_fraud_flag(v, caller, job_id, now);
    if res is Ok {
        let idx = job_id - 1;
        let p = job_at(v, job_id).payee;
        assert(fraud_of(v.fraud, p) == count_flagged(v.jobs, p));
        lemma_count_flagged_lt(v.jobs, p, idx);
        assert(v.jobs.len() <= u64::MAX) by {
            if v.jobs.len() > u64::MAX {
                let k = u64::MAX as int;
                assert(job_wf(v.jobs[k], k));
                assert(v.jobs[k].id <= u64::MAX);
            }
        }
        assert(fraud_of(v.fraud, p) + 1 <= u64::MAX);
    }
}

} // verus!
