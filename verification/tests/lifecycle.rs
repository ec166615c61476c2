//! The escrow lifecycle, exercised end to end: creating, funding,
//! submitting, approving, rejecting, refunding and cancelling jobs.

use fair_escrow::config::EscrowConfig;
use fair_escrow::errors::EscrowError;
use fair_escrow::escrow::Escrow;
use fair_escrow::job::JobState;

const CUSTODY: u64 = 100;
const CLIENT: u64 = 1;
const FREELANCER: u64 = 2;

fn engine() -> Escrow {
    Escrow::new(CUSTODY, EscrowConfig::strict())
}

#[test]
fn test_create_job() {
    let mut e = engine();
    let result = e.create_job(
        CLIENT,
        CLIENT,
        FREELANCER,
        100_000_000,
        10,
        86400,
        String::from("Build a website"),
        0,
    );
    assert!(result.is_ok());
}

#[test]
fn test_invalid_amount() {
    let mut e = engine();
    let result = e.create_job(
        CLIENT,
        CLIENT,
        FREELANCER,
        0,
        10,
        86400,
        String::from("Build a website"),
        0,
    );
    assert!(result.is_err());
}

#[test]
fn test_create_and_fund_job() {
    let mut e = engine();
    e.credit(CLIENT, 10000).unwrap();

    let job_id = e
        .create_job(
            CLIENT,
            CLIENT,
            FREELANCER,
            1000,
            20,
            86400,
            String::from("Test Job"),
            0,
        )
        .unwrap();
    assert_eq!(job_id, 1);

    let result = e.fund(CLIENT, job_id, 0);
    assert!(result.is_ok());

    assert_eq!(e.balance_of(CUSTODY), 1000);
    assert_eq!(e.balance_of(CLIENT), 9000);

    let job = e.get_job(job_id).unwrap();
    assert_eq!(job.state, JobState::Funded);
}

#[test]
fn test_submit_work_and_approve() {
    let mut e = engine();
    e.credit(CLIENT, 10000).unwrap();

    let job_id = e
        .create_job(
            CLIENT,
            CLIENT,
            FREELANCER,
            1000,
            20,
            86400,
            String::from("Test Job"),
            0,
        )
        .unwrap();
    e.fund(CLIENT, job_id, 0).unwrap();

    let submit_result = e.submit_work(FREELANCER, job_id, String::from("work"), 10);
    assert!(submit_result.is_ok());

    let job = e.get_job(job_id).unwrap();
    assert_eq!(job.state, JobState::Submitted);

    let approve_result = e.approve(CLIENT, job_id, 20);
    assert!(approve_result.is_ok());

    assert_eq!(e.balance_of(FREELANCER), 1000);
    assert_eq!(e.balance_of(CUSTODY), 0);

    let job = e.get_job(job_id).unwrap();
    assert_eq!(job.state, JobState::Approved);
}

#[test]
fn test_submit_work_and_reject() {
    let mut e = engine();
    e.credit(CLIENT, 10000).unwrap();

    let job_id = e
        .create_job(
            CLIENT,
            CLIENT,
            FREELANCER,
            1000,
            20,
            86400,
            String::from("Test Job"),
            0,
        )
        .unwrap();
    e.fund(CLIENT, job_id, 0).unwrap();
    e.submit_work(FREELANCER, job_id, String::from("work"), 10)
        .unwrap();

    let reject_result = e.reject(CLIENT, job_id, 20);
    assert!(reject_result.is_ok());

    // Full refund, since no initial payment was released.
    assert_eq!(e.balance_of(CLIENT), 9000 + 1000);
    assert_eq!(e.balance_of(FREELANCER), 0);

    let job = e.get_job(job_id).unwrap();
    assert_eq!(job.state, JobState::Rejected);
}

#[test]
fn test_initial_payment() {
    let mut e = engine();
    e.credit(CLIENT, 10000).unwrap();

    let job_id = e
        .create_job(
            CLIENT,
            CLIENT,
            FREELANCER,
            1000,
            20,
            86400,
            String::from("Test Job"),
            0,
        )
        .unwrap();
    e.fund(CLIENT, job_id, 0).unwrap();
    e.submit_work(FREELANCER, job_id, String::from("work"), 10)
        .unwrap();

    let initial_result = e.release_initial_payment(CLIENT, job_id, 15);
    assert!(initial_result.is_ok());

    // 20% of 1000.
    assert_eq!(e.balance_of(FREELANCER), 200);

    e.approve(CLIENT, job_id, 20).unwrap();

    // The remaining 80% follows on approval.
    assert_eq!(e.balance_of(FREELANCER), 1000);
}

#[test]
fn test_refund_expired_job() {
    let mut e = engine();
    e.credit(CLIENT, 10000).unwrap();

    let deadline: u64 = 100;
    let job_id = e
        .create_job(
            CLIENT,
            CLIENT,
            FREELANCER,
            1000,
            20,
            deadline,
            String::from("Test Job"),
            0,
        )
        .unwrap();
    e.fund(CLIENT, job_id, 0).unwrap();

    // Move time forward past the deadline.
    let refund_result = e.refund_expired(CLIENT, job_id, deadline + 1);
    assert!(refund_result.is_ok());

    assert_eq!(e.balance_of(CLIENT), 10000);

    let job = e.get_job(job_id).unwrap();
    assert_eq!(job.state, JobState::Refunded);
}

#[test]
fn test_cancel_unfunded_job() {
    let mut e = engine();

    let job_id = e
        .create_job(
            CLIENT,
            CLIENT,
            FREELANCER,
            1000,
            20,
            86400,
            String::from("Test Job"),
            0,
        )
        .unwrap();

    let cancel_result = e.cancel(CLIENT, job_id, 10);
    assert!(cancel_result.is_ok());

    let job = e.get_job(job_id).unwrap();
    assert_eq!(job.state, JobState::Cancelled);
}

#[test]
#[should_panic]
fn test_cannot_fund_twice() {
    let mut e = engine();
    e.credit(CLIENT, 20000).unwrap();

    let job_id = e
        .create_job(
            CLIENT,
            CLIENT,
            FREELANCER,
            1000,
            20,
            86400,
            String::from("Test Job"),
            0,
        )
        .unwrap();

    e.fund(CLIENT, job_id, 0).unwrap();
    // The second funding attempt is refused and the unwrap panics.
    e.fund(CLIENT, job_id, 0).unwrap();
}

#[test]
fn revision_then_resubmission_then_approval() {
    let mut e = engine();
    e.credit(CLIENT, 1000).unwrap();

    let job_id = e
        .create_job(
            CLIENT,
            CLIENT,
            FREELANCER,
            1000,
            0,
            86400,
            String::from("Test Job"),
            0,
        )
        .unwrap();
    e.fund(CLIENT, job_id, 0).unwrap();
    e.submit_work(FREELANCER, job_id, String::from("draft"), 10)
        .unwrap();
    e.request_revision(CLIENT, job_id, 20).unwrap();
    assert_eq!(
        e.get_job(job_id).unwrap().state,
        JobState::RevisionRequested
    );

    e.submit_work(FREELANCER, job_id, String::from("final"), 30)
        .unwrap();
    let job = e.get_job(job_id).unwrap();
    assert_eq!(job.state, JobState::Submitted);
    assert_eq!(job.work_reference, "final");
    assert_eq!(job.submitted_at, 30);

    e.approve(CLIENT, job_id, 40).unwrap();
    assert_eq!(e.balance_of(FREELANCER), 1000);
}

#[test]
fn emergency_release_after_grace_period() {
    let mut e = engine();
    e.credit(CLIENT, 1000).unwrap();

    let deadline: u64 = 1000;
    let job_id = e
        .create_job(
            CLIENT,
            CLIENT,
            FREELANCER,
            1000,
            20,
            deadline,
            String::from("Test Job"),
            0,
        )
        .unwrap();
    e.fund(CLIENT, job_id, 0).unwrap();
    e.submit_work(FREELANCER, job_id, String::from("work"), 500)
        .unwrap();

    // Exactly at the end of the grace period: still refused.
    let too_early = e.emergency_release(FREELANCER, job_id, deadline + fair_escrow::model::GRACE_PERIOD);
    assert_eq!(too_early, Err(EscrowError::DeadlineNotYetPassed));

    // One second later the payee may claim custody.
    let claim = e.emergency_release(FREELANCER, job_id, deadline + fair_escrow::model::GRACE_PERIOD + 1);
    assert!(claim.is_ok());
    assert_eq!(e.balance_of(FREELANCER), 1000);
    assert_eq!(e.get_job(job_id).unwrap().state, JobState::Approved);
}
