//! Pointwise checks of the engine's contracts: the split formula, each
//! error kind, authorization for every operation, the conservation of
//! custodied value, the fraud ledger, the policy switches, and the queries.

use fair_escrow::config::EscrowConfig;
use fair_escrow::errors::EscrowError;
use fair_escrow::escrow::Escrow;
use fair_escrow::job::JobState;
use fair_escrow::split::split;

const CUSTODY: u64 = 100;
const PAYER: u64 = 1;
const PAYEE: u64 = 2;
const STRANGER: u64 = 3;

const DAY: u64 = 86400;

fn funded_engine() -> Escrow {
    let mut e = Escrow::new(CUSTODY, EscrowConfig::strict());
    e.credit(PAYER, 10_000).unwrap();
    e
}

fn submitted_job(e: &mut Escrow) -> u64 {
    let id = e
        .create_job(PAYER, PAYER, PAYEE, 1000, 20, DAY, String::from("job"), 0)
        .unwrap();
    e.fund(PAYER, id, 0).unwrap();
    e.submit_work(PAYEE, id, String::from("cid"), 100).unwrap();
    id
}

#[test]
fn split_exact_values() {
    assert_eq!(split(1000, 20), (200, 800));
    assert_eq!(split(1000, 0), (0, 1000));
    assert_eq!(split(1000, 100), (1000, 0));
    assert_eq!(split(1, 20), (0, 1));
    assert_eq!(split(999, 33), (329, 670));
    assert_eq!(split(7, 50), (3, 4));
    assert_eq!(split(0, 50), (0, 0));
}

#[test]
fn split_conserves_large_totals() {
    // Near the top of the representable range the two parts still restore
    // the total exactly.
    let total = i128::MAX - 7;
    let (initial, remainder) = split(total, 33);
    assert_eq!(initial + remainder, total);
    assert!(initial >= 0 && initial <= total);
}

#[test]
fn error_not_found() {
    let mut e = funded_engine();
    assert_eq!(e.get_job(1).unwrap_err(), EscrowError::NotFound);
    assert_eq!(e.fund(PAYER, 1, 0), Err(EscrowError::NotFound));
    let id = e
        .create_job(PAYER, PAYER, PAYEE, 1000, 20, DAY, String::from("job"), 0)
        .unwrap();
    assert_eq!(e.approve(PAYER, id + 1, 0), Err(EscrowError::NotFound));
    assert_eq!(e.get_job(0).unwrap_err(), EscrowError::NotFound);
}

#[test]
fn error_invalid_amount_and_deadline() {
    let mut e = funded_engine();
    assert_eq!(
        e.create_job(PAYER, PAYER, PAYEE, 0, 20, DAY, String::from("job"), 0),
        Err(EscrowError::InvalidAmount)
    );
    assert_eq!(
        e.create_job(PAYER, PAYER, PAYEE, -5, 20, DAY, String::from("job"), 0),
        Err(EscrowError::InvalidAmount)
    );
    assert_eq!(
        e.create_job(PAYER, PAYER, PAYEE, 1000, 101, DAY, String::from("job"), 0),
        Err(EscrowError::InvalidAmount)
    );
    assert_eq!(
        e.create_job(PAYER, PAYER, PAYEE, 1000, 20, 50, String::from("job"), 50),
        Err(EscrowError::InvalidDeadline)
    );
    assert_eq!(
        e.create_job(PAYER, PAYER, PAYEE, 1000, 20, 49, String::from("job"), 50),
        Err(EscrowError::InvalidDeadline)
    );
    assert_eq!(e.job_count(), 0);
}

#[test]
fn error_deadline_windows() {
    let mut e = funded_engine();
    let id = e
        .create_job(PAYER, PAYER, PAYEE, 1000, 20, 1000, String::from("job"), 0)
        .unwrap();
    e.fund(PAYER, id, 0).unwrap();

    // Submission after the deadline.
    assert_eq!(
        e.submit_work(PAYEE, id, String::from("late"), 1001),
        Err(EscrowError::DeadlinePassed)
    );
    // Refund before the deadline has passed.
    assert_eq!(
        e.refund_expired(PAYER, id, 1000),
        Err(EscrowError::DeadlineNotYetPassed)
    );
    // Revision after the deadline.
    e.submit_work(PAYEE, id, String::from("work"), 500).unwrap();
    assert_eq!(
        e.request_revision(PAYER, id, 1001),
        Err(EscrowError::DeadlinePassed)
    );
}

#[test]
fn error_transfer_failed_leaves_job_unfunded() {
    let mut e = Escrow::new(CUSTODY, EscrowConfig::strict());
    // The payer holds less than the total.
    e.credit(PAYER, 500).unwrap();
    let id = e
        .create_job(PAYER, PAYER, PAYEE, 1000, 20, DAY, String::from("job"), 0)
        .unwrap();
    assert_eq!(e.fund(PAYER, id, 0), Err(EscrowError::TransferFailed));
    let job = e.get_job(id).unwrap();
    assert_eq!(job.state, JobState::Created);
    assert_eq!(job.escrowed_amount, 0);
    assert_eq!(e.balance_of(PAYER), 500);
    assert_eq!(e.balance_of(CUSTODY), 0);
}

#[test]
fn authorization_of_every_operation() {
    let mut e = funded_engine();
    assert_eq!(
        e.create_job(STRANGER, PAYER, PAYEE, 1000, 20, DAY, String::from("job"), 0),
        Err(EscrowError::Unauthorized)
    );
    let id = e
        .create_job(PAYER, PAYER, PAYEE, 1000, 20, DAY, String::from("job"), 0)
        .unwrap();
    assert_eq!(e.fund(STRANGER, id, 0), Err(EscrowError::Unauthorized));
    assert_eq!(e.cancel(STRANGER, id, 0), Err(EscrowError::Unauthorized));
    e.fund(PAYER, id, 0).unwrap();
    // The payer cannot submit work; only the payee may.
    assert_eq!(
        e.submit_work(PAYER, id, String::from("x"), 1),
        Err(EscrowError::Unauthorized)
    );
    e.submit_work(PAYEE, id, String::from("x"), 1).unwrap();
    assert_eq!(e.approve(PAYEE, id, 2), Err(EscrowError::Unauthorized));
    assert_eq!(e.reject(PAYEE, id, 2), Err(EscrowError::Unauthorized));
    assert_eq!(
        e.request_revision(PAYEE, id, 2),
        Err(EscrowError::Unauthorized)
    );
    assert_eq!(
        e.release_initial_payment(STRANGER, id, 2),
        Err(EscrowError::Unauthorized)
    );
    assert_eq!(
        e.raise_fraud_flag(PAYEE, id, 2),
        Err(EscrowError::Unauthorized)
    );
    // Only the payee may claim the emergency release.
    assert_eq!(
        e.emergency_release(PAYER, id, DAY * 30),
        Err(EscrowError::Unauthorized)
    );
    // Under the payer-only policy, a stranger cannot reclaim expired funds.
    assert_eq!(
        e.refund_expired(STRANGER, id, DAY * 30),
        Err(EscrowError::Unauthorized)
    );
    // Nothing above moved any value.
    assert_eq!(e.balance_of(CUSTODY), 1000);
    assert_eq!(e.balance_of(PAYER), 9000);
    assert_eq!(e.balance_of(PAYEE), 0);
}

#[test]
fn full_percentage_leaves_zero_remainder() {
    let mut e = funded_engine();
    let id = e
        .create_job(PAYER, PAYER, PAYEE, 1000, 100, DAY, String::from("job"), 0)
        .unwrap();
    e.fund(PAYER, id, 0).unwrap();
    e.submit_work(PAYEE, id, String::from("cid"), 1).unwrap();
    e.release_initial_payment(PAYER, id, 2).unwrap();
    assert_eq!(e.balance_of(PAYEE), 1000);
    assert_eq!(e.get_job(id).unwrap().escrowed_amount, 0);
    // Approving now moves zero value, which is a legal no-op.
    e.approve(PAYER, id, 3).unwrap();
    assert_eq!(e.balance_of(PAYEE), 1000);
    assert_eq!(e.get_job(id).unwrap().state, JobState::Approved);
}

#[test]
fn zero_percentage_cannot_release() {
    let mut e = funded_engine();
    let id = e
        .create_job(PAYER, PAYER, PAYEE, 1000, 0, DAY, String::from("job"), 0)
        .unwrap();
    e.fund(PAYER, id, 0).unwrap();
    e.submit_work(PAYEE, id, String::from("cid"), 1).unwrap();
    assert_eq!(
        e.release_initial_payment(PAYER, id, 2),
        Err(EscrowError::InvalidAmount)
    );
}

#[test]
fn initial_payment_releases_only_once() {
    let mut e = funded_engine();
    let id = submitted_job(&mut e);
    e.release_initial_payment(PAYER, id, 200).unwrap();
    assert_eq!(
        e.release_initial_payment(PAYER, id, 201),
        Err(EscrowError::InvalidState)
    );
    assert_eq!(e.balance_of(PAYEE), 200);
}

#[test]
fn approve_only_after_submission() {
    let mut e = funded_engine();
    let id = e
        .create_job(PAYER, PAYER, PAYEE, 1000, 20, DAY, String::from("job"), 0)
        .unwrap();
    assert_eq!(e.approve(PAYER, id, 1), Err(EscrowError::InvalidState));
    e.fund(PAYER, id, 0).unwrap();
    assert_eq!(e.approve(PAYER, id, 1), Err(EscrowError::InvalidState));
    assert_eq!(e.reject(PAYER, id, 1), Err(EscrowError::InvalidState));
}

#[test]
fn terminal_jobs_refuse_every_finisher() {
    let mut e = funded_engine();
    let id = submitted_job(&mut e);
    e.approve(PAYER, id, 200).unwrap();
    assert_eq!(e.approve(PAYER, id, 201), Err(EscrowError::InvalidState));
    assert_eq!(e.reject(PAYER, id, 201), Err(EscrowError::InvalidState));
    assert_eq!(
        e.raise_fraud_flag(PAYER, id, 201),
        Err(EscrowError::InvalidState)
    );
    assert_eq!(
        e.refund_expired(PAYER, id, DAY * 30),
        Err(EscrowError::InvalidState)
    );
    assert_eq!(
        e.emergency_release(PAYEE, id, DAY * 30),
        Err(EscrowError::InvalidState)
    );
    assert_eq!(e.cancel(PAYER, id, 201), Err(EscrowError::InvalidState));
    // And the second approval moved nothing.
    assert_eq!(e.balance_of(PAYEE), 1000);
    assert_eq!(e.balance_of(CUSTODY), 0);
}

#[test]
fn custody_holds_exactly_the_escrowed_value() {
    let mut e = funded_engine();
    let a = e
        .create_job(PAYER, PAYER, PAYEE, 1000, 20, DAY, String::from("a"), 0)
        .unwrap();
    let b = e
        .create_job(PAYER, PAYER, PAYEE, 3000, 50, DAY, String::from("b"), 0)
        .unwrap();
    e.fund(PAYER, a, 0).unwrap();
    e.fund(PAYER, b, 0).unwrap();
    assert_eq!(e.balance_of(CUSTODY), 4000);

    e.submit_work(PAYEE, a, String::from("cid"), 1).unwrap();
    e.release_initial_payment(PAYER, a, 2).unwrap();
    // 200 left custody; the rest stays.
    assert_eq!(e.balance_of(CUSTODY), 3800);
    assert_eq!(
        e.get_job(a).unwrap().escrowed_amount + e.get_job(b).unwrap().escrowed_amount,
        3800
    );

    e.approve(PAYER, a, 3).unwrap();
    assert_eq!(e.balance_of(CUSTODY), 3000);
    // Value is conserved across all accounts throughout.
    assert_eq!(
        e.balance_of(PAYER) + e.balance_of(PAYEE) + e.balance_of(CUSTODY),
        10_000
    );
}

#[test]
fn fraud_counts_accumulate_per_payee() {
    let mut e = funded_engine();
    for _ in 0..2 {
        let id = submitted_job(&mut e);
        e.raise_fraud_flag(PAYER, id, 200).unwrap();
    }
    assert_eq!(e.fraud_count(PAYEE), 2);
    assert_eq!(e.fraud_count(STRANGER), 0);

    // An approved job never counts toward the fraud ledger.
    let id = submitted_job(&mut e);
    e.approve(PAYER, id, 300).unwrap();
    assert_eq!(e.fraud_count(PAYEE), 2);
}

#[test]
fn fund_at_creation_policy() {
    let mut e = Escrow::new(
        CUSTODY,
        EscrowConfig {
            allow_pre_submission_release: false,
            refund_expired_payer_only: true,
            fund_at_creation: true,
        },
    );
    e.credit(PAYER, 10_000).unwrap();
    let id = e
        .create_job(PAYER, PAYER, PAYEE, 1000, 20, DAY, String::from("job"), 0)
        .unwrap();
    let job = e.get_job(id).unwrap();
    assert_eq!(job.state, JobState::Funded);
    assert_eq!(job.escrowed_amount, 1000);
    assert_eq!(e.balance_of(CUSTODY), 1000);
    assert_eq!(e.balance_of(PAYER), 9000);
    // Funding again as a separate step is refused.
    assert_eq!(e.fund(PAYER, id, 1), Err(EscrowError::InvalidState));
    // Creation fails whole when the payer cannot cover the total.
    assert_eq!(
        e.create_job(PAYER, PAYER, PAYEE, 90_000, 20, DAY, String::from("big"), 0),
        Err(EscrowError::TransferFailed)
    );
    assert_eq!(e.job_count(), 1);
}

#[test]
fn pre_submission_release_policy() {
    let mut e = Escrow::new(
        CUSTODY,
        EscrowConfig {
            allow_pre_submission_release: true,
            refund_expired_payer_only: true,
            fund_at_creation: false,
        },
    );
    e.credit(PAYER, 10_000).unwrap();
    let id = e
        .create_job(PAYER, PAYER, PAYEE, 1000, 20, DAY, String::from("job"), 0)
        .unwrap();
    e.fund(PAYER, id, 0).unwrap();

    // The initial payment may go out before any submission...
    e.release_initial_payment(PAYER, id, 1).unwrap();
    assert_eq!(e.balance_of(PAYEE), 200);

    // ...and the payer may then flag a payee who never submits.
    e.raise_fraud_flag(PAYER, id, 2).unwrap();
    assert_eq!(e.fraud_count(PAYEE), 1);
    assert_eq!(e.get_job(id).unwrap().state, JobState::FraudFlagged);
    // The remainder came back; the payee kept the initial payment.
    assert_eq!(e.balance_of(PAYER), 9800);
    assert_eq!(e.balance_of(CUSTODY), 0);
}

#[test]
fn pre_submission_flag_needs_released_initial() {
    let mut e = Escrow::new(
        CUSTODY,
        EscrowConfig {
            allow_pre_submission_release: true,
            refund_expired_payer_only: true,
            fund_at_creation: false,
        },
    );
    e.credit(PAYER, 10_000).unwrap();
    let id = e
        .create_job(PAYER, PAYER, PAYEE, 1000, 20, DAY, String::from("job"), 0)
        .unwrap();
    e.fund(PAYER, id, 0).unwrap();
    // No initial payment went out yet, so flagging is premature.
    assert_eq!(
        e.raise_fraud_flag(PAYER, id, 1),
        Err(EscrowError::InvalidState)
    );
}

#[test]
fn strict_policy_refuses_pre_submission_release() {
    let mut e = funded_engine();
    let id = e
        .create_job(PAYER, PAYER, PAYEE, 1000, 20, DAY, String::from("job"), 0)
        .unwrap();
    e.fund(PAYER, id, 0).unwrap();
    assert_eq!(
        e.release_initial_payment(PAYER, id, 1),
        Err(EscrowError::InvalidState)
    );
}

#[test]
fn refund_expired_open_policy_lets_anyone_trigger() {
    let mut e = Escrow::new(
        CUSTODY,
        EscrowConfig {
            allow_pre_submission_release: false,
            refund_expired_payer_only: false,
            fund_at_creation: false,
        },
    );
    e.credit(PAYER, 10_000).unwrap();
    let id = e
        .create_job(PAYER, PAYER, PAYEE, 1000, 20, 100, String::from("job"), 0)
        .unwrap();
    e.fund(PAYER, id, 0).unwrap();
    // A stranger triggers the refund, and the funds still go to the payer.
    e.refund_expired(STRANGER, id, 101).unwrap();
    assert_eq!(e.balance_of(PAYER), 10_000);
    assert_eq!(e.get_job(id).unwrap().state, JobState::Refunded);
}

#[test]
fn refund_expired_of_unfunded_job_moves_nothing() {
    let mut e = funded_engine();
    let id = e
        .create_job(PAYER, PAYER, PAYEE, 1000, 20, 100, String::from("job"), 0)
        .unwrap();
    e.refund_expired(PAYER, id, 101).unwrap();
    assert_eq!(e.get_job(id).unwrap().state, JobState::Refunded);
    assert_eq!(e.balance_of(PAYER), 10_000);
    assert_eq!(e.balance_of(CUSTODY), 0);
}

#[test]
fn queries_list_jobs_by_party() {
    let mut e = funded_engine();
    let a = e
        .create_job(PAYER, PAYER, PAYEE, 1000, 20, DAY, String::from("a"), 0)
        .unwrap();
    let b = e
        .create_job(PAYER, PAYER, STRANGER, 500, 0, DAY, String::from("b"), 0)
        .unwrap();
    e.credit(PAYEE, 700).unwrap();
    let c = e
        .create_job(PAYEE, PAYEE, STRANGER, 700, 0, DAY, String::from("c"), 0)
        .unwrap();

    assert_eq!(e.job_count(), 3);
    assert_eq!(e.jobs_by_payer(PAYER), vec![a, b]);
    assert_eq!(e.jobs_by_payer(PAYEE), vec![c]);
    assert_eq!(e.jobs_by_payee(STRANGER), vec![b, c]);
    assert_eq!(e.jobs_by_payee(PAYEE), vec![a]);
    assert_eq!(e.jobs_by_payee(CUSTODY), Vec::<u64>::new());

    let job = e.get_job(b).unwrap();
    assert_eq!(job.id, b);
    assert_eq!(job.description, "b");
    assert_eq!(job.total_amount, 500);
}

#[test]
fn created_job_records_its_fields() {
    let mut e = funded_engine();
    let id = e
        .create_job(PAYER, PAYER, PAYEE, 1234, 7, 5000, String::from("paint the fence"), 42)
        .unwrap();
    let job = e.get_job(id).unwrap();
    assert_eq!(job.id, 1);
    assert_eq!(job.payer, PAYER);
    assert_eq!(job.payee, PAYEE);
    assert_eq!(job.total_amount, 1234);
    assert_eq!(job.initial_payment_percent, 7);
    assert!(!job.initial_payment_released);
    assert_eq!(job.escrowed_amount, 0);
    assert_eq!(job.deadline, 5000);
    assert_eq!(job.state, JobState::Created);
    assert_eq!(job.description, "paint the fence");
    assert_eq!(job.work_reference, "");
    assert!(!job.fraud_flag_raised);
    assert_eq!(job.created_at, 42);
    assert_eq!(job.funded_at, 0);
}
