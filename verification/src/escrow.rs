//! The escrow engine: job registry, fraud ledger, account ledger, and the
//! lifecycle operations.  Every operation agrees exactly with its transition
//! function in `model`, and every reachable engine state is well formed.

use crate::config::EscrowConfig;
use crate::errors::EscrowError;
use crate::job::{job_wf, Job, JobState, JobV};
use crate::model::{
    bal, count_flagged, flag_contrib, fraud_of, fresh_job, ids_with_payee, ids_with_payer,
    job_at, job_exists, lemma_count_flagged_lt, lemma_count_flagged_push,
    lemma_count_flagged_update, lemma_record_update, lemma_spec_transfer_props,
    lemma_sum_escrowed_push, lemma_wf_escrow_bounds, spec_approve, spec_cancel, spec_create_job, spec_credit,
    spec_emergency_release, spec_fund, spec_raise_fraud_flag, spec_refund_expired,
    spec_reject, spec_release_initial_payment, spec_request_revision, spec_submit_work,
    spec_transfer, view_wf, EscrowView, GRACE_PERIOD,
};
use crate::split::split;
use std::collections::HashMap;
use vstd::prelude::*;

verus! {

broadcast use vstd::std_specs::hash::group_hash_axioms;

/// Read an account's balance; accounts without an entry hold zero.
fn ledger_balance(m: &HashMap<u64, i128>, a: u64) -> (r: i128)
    ensures
        r as int == bal(m@, a),
{
    match m.get(&a) {
        Some(b) => *b,
        None => 0,
    }
}

/// Move value between accounts, exactly as `spec_transfer` says: refuse the
/// movement (and change nothing) when the source holds too little or the
/// destination would overflow; moving to the source itself moves nothing.
fn ledger_transfer(m: &mut HashMap<u64, i128>, from: u64, to: u64, amount: i128) -> (r: Result<
    (),
    EscrowError,
>)
    requires
        amount >= 0,
    ensures
        (match spec_transfer(old(m)@, from, to, amount as int) {
            Some(b2) => r == Ok::<(), EscrowError>(()) && final(m)@ == b2,
            None => r == Err::<(), EscrowError>(EscrowError::TransferFailed) && final(m)@ == old(
                m,
            )@,
        }),
{
    let bf = ledger_balance(m, from);
    if bf < amount {
        return Err(EscrowError::TransferFailed);
    }
    if from == to {
        return Ok(());
    }
    let bt = ledger_balance(m, to);
    if bt > i128::MAX - amount {
        return Err(EscrowError::TransferFailed);
    }
    m.insert(from, bf - amount);
    m.insert(to, bt + amount);
    Ok(())
}

/// Add freshly minted value to an account, exactly as `spec_credit` says.
fn ledger_credit(m: &mut HashMap<u64, i128>, account: u64, amount: i128) -> (r: Result<
    (),
    EscrowError,
>)
    requires
        amount >= 0,
    ensures
        (match spec_credit(old(m)@, account, amount as int) {
            Some(b2) => r == Ok::<(), EscrowError>(()) && final(m)@ == b2,
            None => r == Err::<(), EscrowError>(EscrowError::TransferFailed) && final(m)@ == old(
                m,
            )@,
        }),
{
    let b = ledger_balance(m, account);
    if b > i128::MAX - amount {
        return Err(EscrowError::TransferFailed);
    }
    m.insert(account, b + amount);
    Ok(())
}

/// The escrow engine.  It owns the job records in creation order (the job
/// with id `n` sits at position `n - 1`), the account ledger, and the
/// per-payee fraud counts; `custody` is the account that holds escrowed
/// value and can never be a party to a job.
pub struct Escrow {
    custody: u64,
    config: EscrowConfig,
    jobs: Vec<Job>,
    balances: HashMap<u64, i128>,
    fraud: HashMap<u64, u64>,
}

impl View for Escrow {
    type V = EscrowView;

    closed spec fn view(&self) -> EscrowView {
        EscrowView {
            custody: self.custody,
            config: self.config,
            jobs: self.jobs@.map_values(|j: Job| j@),
            balances: self.balances@,
            fraud: self.fraud@,
        }
    }
}

impl Escrow {
    /// Every engine this module hands out is well formed, and every
    /// operation keeps it so.
    pub open spec fn wf(&self) -> bool {
        view_wf(self@)
    }

    /// A fresh engine: no jobs, no balances, no fraud flags.
    pub fn new(custody: u64, config: EscrowConfig) -> (e: Escrow)
        ensures
            e.wf(),
            e@.custody == custody,
            e@.config == config,
            e@.jobs == Seq::<JobV>::empty(),
            e@.balances == Map::<u64, i128>::empty(),
            e@.fraud == Map::<u64, u64>::empty(),
    {
        let e = Escrow {
            custody,
            config,
            jobs: Vec::new(),
            balances: HashMap::new(),
            fraud: HashMap::new(),
        };
        proof {
            assert(e@.jobs =~= Seq::<JobV>::empty());
        }
        e
    }

    /// The account that holds custodied value.
    pub fn custody(&self) -> (r: u64)
        ensures
            r == self@.custody,
    {
        self.custody
    }

    /// The policy this engine was created with.
    pub fn config(&self) -> (r: EscrowConfig)
        ensures
            r == self@.config,
    {
        self.config
    }

    /// An account's current balance; accounts never seen hold zero.
    pub fn balance_of(&self, account: u64) -> (r: i128)
        ensures
            r as int == bal(self@.balances, account),
    {
        ledger_balance(&self.balances, account)
    }

    /// Endow an account with freshly minted value.  The custody account
    /// cannot be endowed: its balance is exactly the escrowed value.
    /// Fails only when the balance would leave the representable range.
    pub fn credit(&mut self, account: u64, amount: i128) -> (r: Result<(), EscrowError>)
        requires
            old(self).wf(),
            account != old(self)@.custody,
            amount >= 0,
        ensures
            final(self).wf(),
            (match spec_credit(old(self)@.balances, account, amount as int) {
                Some(b2) => r == Ok::<(), EscrowError>(()) && final(self)@ == (EscrowView {
                    balances: b2,
                    ..old(self)@
                }),
                None => r == Err::<(), EscrowError>(EscrowError::TransferFailed) && final(self)@
                    == old(self)@,
            }),
    {
        let r = ledger_credit(&mut self.balances, account, amount);
        proof {
            let vold = old(self)@;
            if spec_credit(vold.balances, account, amount as int) is Some {
                let b2 = spec_credit(vold.balances, account, amount as int)->0;
                assert(bal(b2, vold.custody) == bal(vold.balances, vold.custody));
                assert(forall|a: u64| b2.contains_key(a) ==> #[trigger] b2[a] >= 0);
            }
        }
        r
    }

    /// Register a new escrow agreement.  Only the payer may create it, for
    /// a positive total, a percentage of at most one hundred, and a deadline
    /// strictly in the future; the new id is one past the newest.  Under the
    /// fund-at-creation policy the total also moves into custody at once.
    /// Neither party can be the custody account, and the id space must not
    /// be exhausted.
    pub fn create_job(
        &mut self,
        caller: u64,
        payer: u64,
        payee: u64,
        total_amount: i128,
        initial_payment_percent: u32,
        deadline: u64,
        description: String,
        now: u64,
    ) -> (r: Result<u64, EscrowError>)
        requires
            old(self).wf(),
            old(self)@.jobs.len() < u64::MAX,
            payer != old(self)@.custody,
            payee != old(self)@.custody,
        ensures
            final(self).wf(),
            ({
                let (v2, res) = spec_create_job(
                    old(self)@,
                    caller,
                    payer,
                    payee,
                    total_amount,
                    initial_payment_percent,
                    deadline,
                    description@,
                    now,
                );
                final(self)@ == v2 && r == res
            }),
    {
        if caller != payer {
            return Err(EscrowError::Unauthorized);
        }
        if deadline <= now {
            return Err(EscrowError::InvalidDeadline);
        }
        if total_amount <= 0 {
            return Err(EscrowError::InvalidAmount);
        }
        if initial_payment_percent > 100 {
            return Err(EscrowError::InvalidAmount);
        }
        let id = self.jobs.len() as u64 + 1;
        let funded = self.config.fund_at_creation;
        if funded {
            let res = ledger_transfer(&mut self.balances, payer, self.custody, total_amount);
            match res {
                Err(e) => {
                    return Err(e);
                },
                Ok(()) => {},
            }
        }
        let job = Job {
            id,
            payer,
            payee,
            total_amount,
            initial_payment_percent,
            initial_payment_released: false,
            escrowed_amount: if funded {
                total_amount
            } else {
                0
            },
            deadline,
            state: if funded {
                JobState::Funded
            } else {
                JobState::Created
            },
            description,
            work_reference: String::new(),
            fraud_flag_raised: false,
            fraud_flag_timestamp: 0,
            created_at: now,
            funded_at: if funded {
                now
            } else {
                0
            },
            submitted_at: 0,
            completed_at: 0,
        };
        self.jobs.push(job);
        proof {
            let vold = old(self)@;
            let jv = fresh_job(
                id,
                payer,
                payee,
                total_amount,
                initial_payment_percent,
                deadline,
                description@,
                now,
                funded,
            );
            assert(self.jobs@.last()@ == jv);
            assert(self@.jobs =~= vold.jobs.push(jv));
            lemma_sum_escrowed_push(vold.jobs, jv);
            assert forall|p: u64| count_flagged(self@.jobs, p) == count_flagged(vold.jobs, p) by {
                lemma_count_flagged_push(vold.jobs, jv, p);
            }
            if funded {
                lemma_spec_transfer_props(vold.balances, payer, vold.custody, total_amount as int);
            }
            assert forall|i: int| 0 <= i < self@.jobs.len() implies job_wf(
                #[trigger] self@.jobs[i],
                i,
            ) by {
                if i < vold.jobs.len() {
                    assert(self@.jobs[i] == vold.jobs[i]);
                    assert(job_wf(vold.jobs[i], i));
                }
            }
            assert forall|i: int| 0 <= i < self@.jobs.len() implies (#[trigger] self@.jobs[i]).payer
                != self@.custody && self@.jobs[i].payee != self@.custody by {
                if i < vold.jobs.len() {
                    assert(self@.jobs[i] == vold.jobs[i]);
                }
            }
        }
        Ok(id)
    }

    /// Fund a created job: the payer moves the whole total into custody and
    /// the job becomes `Funded`.
    pub fn fund(&mut self, caller: u64, job_id: u64, now: u64) -> (r: Result<(), EscrowError>)
        requires
            old(self).wf(),
        ensures
            final(self).wf(),
            ({
                let (v2, res) = spec_fund(old(self)@, caller, job_id, now);
                final(self)@ == v2 && r == res
            }),
    {
        if job_id == 0 || job_id > self.jobs.len() as u64 {
            return Err(EscrowError::NotFound);
        }
        let idx: usize = (job_id - 1) as usize;
        let payer = self.jobs[idx].payer;
        let total = self.jobs[idx].total_amount;
        let st = self.jobs[idx].state;
        if caller != payer {
            return Err(EscrowError::Unauthorized);
        }
        if st != JobState::Created {
            return Err(EscrowError::InvalidState);
        }
        proof {
            assert(job_wf(old(self)@.jobs[idx as int], idx as int));
        }
        let res = ledger_transfer(&mut self.balances, payer, self.custody, total);
        match res {
            Err(e) => {
                return Err(e);
            },
            Ok(()) => {},
        }
        let j = &mut self.jobs[idx];
        j.state = JobState::Funded;
        j.escrowed_amount = total;
        j.funded_at = now;
        proof {
            let vold = old(self)@;
            let jold = job_at(vold, job_id);
            let jnew = JobV {
                state: JobState::Funded,
                escrowed_amount: total,
                funded_at: now,
                ..jold
            };
            assert(self.jobs@[idx as int]@ == jnew);
            assert(self@.jobs =~= vold.jobs.update(idx as int, jnew));
            assert(job_wf(vold.jobs[idx as int], idx as int));
            lemma_record_update(vold, idx as int, jnew);
            lemma_spec_transfer_props(vold.balances, payer, vold.custody, total as int);
        }
        Ok(())
    }

    /// Hand in work: the payee stores a reference to the deliverable before
    /// the deadline, while the job is funded or awaiting a revision.
    pub fn submit_work(
        &mut self,
        caller: u64,
        job_id: u64,
        work_reference: String,
        now: u64,
    ) -> (r: Result<(), EscrowError>)
        requires
            old(self).wf(),
        ensures
            final(self).wf(),
            ({
                let (v2, res) = spec_submit_work(old(self)@, caller, job_id, work_reference@, now);
                final(self)@ == v2 && r == res
            }),
    {
        if job_id == 0 || job_id > self.jobs.len() as u64 {
            return Err(EscrowError::NotFound);
        }
        let idx: usize = (job_id - 1) as usize;
        let payee = self.jobs[idx].payee;
        let st = self.jobs[idx].state;
        let deadline = self.jobs[idx].deadline;
        if caller != payee {
            return Err(EscrowError::Unauthorized);
        }
        if !(st == JobState::Funded || st == JobState::RevisionRequested) {
            return Err(EscrowError::InvalidState);
        }
        if now > deadline {
            return Err(EscrowError::DeadlinePassed);
        }
        let j = &mut self.jobs[idx];
        j.state = JobState::Submitted;
        j.work_reference = work_reference;
        j.submitted_at = now;
        proof {
            let vold = old(self)@;
            let jold = job_at(vold, job_id);
            let jnew = JobV {
                state: JobState::Submitted,
                work_reference: work_reference@,
                submitted_at: now,
                ..jold
            };
            assert(self.jobs@[idx as int]@ == jnew);
            assert(self@.jobs =~= vold.jobs.update(idx as int, jnew));
            assert(job_wf(vold.jobs[idx as int], idx as int));
            lemma_record_update(vold, idx as int, jnew);
        }
        Ok(())
    }

    /// Release the initial payment: the payer sends the configured fraction
    /// of the total to the payee ahead of approval.  Possible once only, and
    /// only when the percentage is positive; legal on submitted work, or
    /// already while funded under the pre-submission policy.
    pub fn release_initial_payment(&mut self, caller: u64, job_id: u64, now: u64) -> (r: Result<
        (),
        EscrowError,
    >)
        requires
            old(self).wf(),
        ensures
            final(self).wf(),
            ({
                let (v2, res) = spec_release_initial_payment(old(self)@, caller, job_id, now);
                final(self)@ == v2 && r == res
            }),
    {
        if job_id == 0 || job_id > self.jobs.len() as u64 {
            return Err(EscrowError::NotFound);
        }
        let idx: usize = (job_id - 1) as usize;
        let payer = self.jobs[idx].payer;
        let payee = self.jobs[idx].payee;
        let st = self.jobs[idx].state;
        let total = self.jobs[idx].total_amount;
        let percent = self.jobs[idx].initial_payment_percent;
        let released = self.jobs[idx].initial_payment_released;
        let escrowed = self.jobs[idx].escrowed_amount;
        if caller != payer {
            return Err(EscrowError::Unauthorized);
        }
        if !(st == JobState::Submitted || (self.config.allow_pre_submission_release && st
            == JobState::Funded)) {
            return Err(EscrowError::InvalidState);
        }
        if released {
            return Err(EscrowError::InvalidState);
        }
        if percent == 0 {
            return Err(EscrowError::InvalidAmount);
        }
        proof {
            assert(job_wf(old(self)@.jobs[idx as int], idx as int));
            lemma_wf_escrow_bounds(old(self)@.jobs[idx as int], idx as int);
        }
        let (initial, _remainder) = split(total, percent);
        let res = ledger_transfer(&mut self.balances, self.custody, payee, initial);
        match res {
            Err(e) => {
                return Err(e);
            },
            Ok(()) => {},
        }
        let j = &mut self.jobs[idx];
        j.initial_payment_released = true;
        j.escrowed_amount = escrowed - initial;
        proof {
            let vold = old(self)@;
            let jold = job_at(vold, job_id);
            let jnew = JobV {
                initial_payment_released: true,
                escrowed_amount: (escrowed - initial) as i128,
                ..jold
            };
            assert(self.jobs@[idx as int]@ == jnew);
            assert(self@.jobs =~= vold.jobs.update(idx as int, jnew));
            assert(job_wf(vold.jobs[idx as int], idx as int));
            lemma_record_update(vold, idx as int, jnew);
            lemma_spec_transfer_props(vold.balances, vold.custody, payee, initial as int);
        }
        Ok(())
    }

    /// Approve submitted work: the payer accepts it and the remaining
    /// custody goes to the payee; the job ends `Approved`.
    pub fn approve(&mut self, caller: u64, job_id: u64, now: u64) -> (r: Result<(), EscrowError>)
        requires
            old(self).wf(),
        ensures
            final(self).wf(),
            ({
                let (v2, res) = spec_approve(old(self)@, caller, job_id, now);
                final(self)@ == v2 && r == res
            }),
    {
        if job_id == 0 || job_id > self.jobs.len() as u64 {
            return Err(EscrowError::NotFound);
        }
        let idx: usize = (job_id - 1) as usize;
        let payer = self.jobs[idx].payer;
        let payee = self.jobs[idx].payee;
        let st = self.jobs[idx].state;
        let amount = self.jobs[idx].escrowed_amount;
        if caller != payer {
            return Err(EscrowError::Unauthorized);
        }
        if st != JobState::Submitted {
            return Err(EscrowError::InvalidState);
        }
        proof {
            assert(job_wf(old(self)@.jobs[idx as int], idx as int));
            lemma_wf_escrow_bounds(old(self)@.jobs[idx as int], idx as int);
        }
        let res = ledger_transfer(&mut self.balances, self.custody, payee, amount);
        match res {
            Err(e) => {
                return Err(e);
            },
            Ok(()) => {},
        }
        let j = &mut self.jobs[idx];
        j.state = JobState::Approved;
        j.escrowed_amount = 0;
        j.completed_at = now;
        proof {
            let vold = old(self)@;
            let jold = job_at(vold, job_id);
            let jnew = JobV {
                state: JobState::Approved,
                escrowed_amount: 0,
                completed_at: now,
                ..jold
            };
            assert(self.jobs@[idx as int]@ == jnew);
            assert(self@.jobs =~= vold.jobs.update(idx as int, jnew));
            assert(job_wf(vold.jobs[idx as int], idx as int));
            lemma_record_update(vold, idx as int, jnew);
            lemma_spec_transfer_props(vold.balances, vold.custody, payee, amount as int);
        }
        Ok(())
    }

    /// Send submitted work back for changes before the deadline; nothing
    /// moves and the payee may submit again.
    pub fn request_revision(&mut self, caller: u64, job_id: u64, now: u64) -> (r: Result<
        (),
        EscrowError,
    >)
        requires
            old(self).wf(),
        ensures
            final(self).wf(),
            ({
                let (v2, res) = spec_request_revision(old(self)@, caller, job_id, now);
                final(self)@ == v2 && r == res
            }),
    {
        if job_id == 0 || job_id > self.jobs.len() as u64 {
            return Err(EscrowError::NotFound);
        }
        let idx: usize = (job_id - 1) as usize;
        let payer = self.jobs[idx].payer;
        let st = self.jobs[idx].state;
        let deadline = self.jobs[idx].deadline;
        if caller != payer {
            return Err(EscrowError::Unauthorized);
        }
        if st != JobState::Submitted {
            return Err(EscrowError::InvalidState);
        }
        if now > deadline {
            return Err(EscrowError::DeadlinePassed);
        }
        let j = &mut self.jobs[idx];
        j.state = JobState::RevisionRequested;
        proof {
            let vold = old(self)@;
            let jold = job_at(vold, job_id);
            let jnew = JobV { state: JobState::RevisionRequested, ..jold };
            assert(self.jobs@[idx as int]@ == jnew);
            assert(self@.jobs =~= vold.jobs.update(idx as int, jnew));
            assert(job_wf(vold.jobs[idx as int], idx as int));
            lemma_record_update(vold, idx as int, jnew);
        }
        Ok(())
    }

    /// Reject submitted work: the remaining custody goes back to the payer;
    /// the payee keeps any released initial payment.  The job ends
    /// `Rejected`.
    pub fn reject(&mut self, caller: u64, job_id: u64, now: u64) -> (r: Result<(), EscrowError>)
        requires
            old(self).wf(),
        ensures
            final(self).wf(),
            ({
                let (v2, res) = spec_reject(old(self)@, caller, job_id, now);
                final(self)@ == v2 && r == res
            }),
    {
        if job_id == 0 || job_id > self.jobs.len() as u64 {
            return Err(EscrowError::NotFound);
        }
        let idx: usize = (job_id - 1) as usize;
        let payer = self.jobs[idx].payer;
        let st = self.jobs[idx].state;
        let amount = self.jobs[idx].escrowed_amount;
        if caller != payer {
            return Err(EscrowError::Unauthorized);
        }
        if st != JobState::Submitted {
            return Err(EscrowError::InvalidState);
        }
        proof {
            assert(job_wf(old(self)@.jobs[idx as int], idx as int));
            lemma_wf_escrow_bounds(old(self)@.jobs[idx as int], idx as int);
        }
        let res = ledger_transfer(&mut self.balances, self.custody, payer, amount);
        match res {
            Err(e) => {
                return Err(e);
            },
            Ok(()) => {},
        }
        let j = &mut self.jobs[idx];
        j.state = JobState::Rejected;
        j.escrowed_amount = 0;
        j.completed_at = now;
        proof {
            let vold = old(self)@;
            let jold = job_at(vold, job_id);
            let jnew = JobV {
                state: JobState::Rejected,
                escrowed_amount: 0,
                completed_at: now,
                ..jold
            };
            assert(self.jobs@[idx as int]@ == jnew);
            assert(self@.jobs =~= vold.jobs.update(idx as int, jnew));
            assert(job_wf(vold.jobs[idx as int], idx as int));
            lemma_record_update(vold, idx as int, jnew);
            lemma_spec_transfer_props(vold.balances, vold.custody, payer, amount as int);
        }
        Ok(())
    }

    /// Raise a fraud flag: the payer claims default, the remaining custody
    /// goes back to the payer, and the payee's fraud count grows by one.
    /// Legal on submitted work, or already while funded under the
    /// pre-submission policy once the initial payment went out.  The job
    /// ends `FraudFlagged`.
    pub fn raise_fraud_flag(&mut self, caller: u64, job_id: u64, now: u64) -> (r: Result<
        (),
        EscrowError,
    >)
        requires
            old(self).wf(),
        ensures
            final(self).wf(),
            ({
                let (v2, res) = spec_raise_fraud_flag(old(self)@, caller, job_id, now);
                final(self)@ == v2 && r == res
            }),
    {
        if job_id == 0 || job_id > self.jobs.len() as u64 {
            return Err(EscrowError::NotFound);
        }
        let idx: usize = (job_id - 1) as usize;
        let payer = self.jobs[idx].payer;
        let payee = self.jobs[idx].payee;
        let st = self.jobs[idx].state;
        let released = self.jobs[idx].initial_payment_released;
        let flagged = self.jobs[idx].fraud_flag_raised;
        let amount = self.jobs[idx].escrowed_amount;
        if caller != payer {
            return Err(EscrowError::Unauthorized);
        }
        if !(st == JobState::Submitted || (self.config.allow_pre_submission_release && st
            == JobState::Funded && released)) {
            return Err(EscrowError::InvalidState);
        }
        if flagged {
            return Err(EscrowError::InvalidState);
        }
        proof {
            assert(job_wf(old(self)@.jobs[idx as int], idx as int));
            lemma_wf_escrow_bounds(old(self)@.jobs[idx as int], idx as int);
        }
        let res = ledger_transfer(&mut self.balances, self.custody, payer, amount);
        match res {
            Err(e) => {
                return Err(e);
            },
            Ok(()) => {},
        }
        let old_count = match self.fraud.get(&payee) {
            Some(c) => *c,
            None => 0,
        };
        proof {
            lemma_count_flagged_lt(old(self)@.jobs, payee, idx as int);
        }
        self.fraud.insert(payee, old_count + 1);
        let j = &mut self.jobs[idx];
        j.state = JobState::FraudFlagged;
        j.escrowed_amount = 0;
        j.fraud_flag_raised = true;
        j.fraud_flag_timestamp = now;
        j.completed_at = now;
        proof {
            let vold = old(self)@;
            let jold = job_at(vold, job_id);
            let jnew = JobV {
                state: JobState::FraudFlagged,
                escrowed_amount: 0,
                fraud_flag_raised: true,
                fraud_flag_timestamp: now,
                completed_at: now,
                ..jold
            };
            assert(self.jobs@[idx as int]@ == jnew);
            assert(self@.jobs =~= vold.jobs.update(idx as int, jnew));
            assert(job_wf(vold.jobs[idx as int], idx as int));
            lemma_record_update(vold, idx as int, jnew);
            lemma_spec_transfer_props(vold.balances, vold.custody, payer, amount as int);
            assert forall|p: u64| fraud_of(self@.fraud, p) == count_flagged(self@.jobs, p) by {
                lemma_count_flagged_update(vold.jobs, idx as int, jnew, p);
                assert(fraud_of(vold.fraud, p) == count_flagged(vold.jobs, p));
                assert(self@.fraud == vold.fraud.insert(payee, (old_count + 1) as u64));
                if p == payee {
                    assert(flag_contrib(jold, p) == 0);
                    assert(flag_contrib(jnew, p) == 1);
                    assert(fraud_of(self@.fraud, p) == old_count + 1);
                } else {
                    assert(flag_contrib(jold, p) == flag_contrib(jnew, p));
                    assert(fraud_of(self@.fraud, p) == fraud_of(vold.fraud, p));
                }
            }
        }
        Ok(())
    }

    /// Withdraw a job that was never funded; nothing moves and the job ends
    /// `Cancelled`.
    pub fn cancel(&mut self, caller: u64, job_id: u64, now: u64) -> (r: Result<(), EscrowError>)
        requires
            old(self).wf(),
        ensures
            final(self).wf(),
            ({
                let (v2, res) = spec_cancel(old(self)@, caller, job_id, now);
                final(self)@ == v2 && r == res
            }),
    {
        if job_id == 0 || job_id > self.jobs.len() as u64 {
            return Err(EscrowError::NotFound);
        }
        let idx: usize = (job_id - 1) as usize;
        let payer = self.jobs[idx].payer;
        let st = self.jobs[idx].state;
        if caller != payer {
            return Err(EscrowError::Unauthorized);
        }
        if st != JobState::Created {
            return Err(EscrowError::InvalidState);
        }
        let j = &mut self.jobs[idx];
        j.state = JobState::Cancelled;
        j.completed_at = now;
        proof {
            let vold = old(self)@;
            let jold = job_at(vold, job_id);
            let jnew = JobV { state: JobState::Cancelled, completed_at: now, ..jold };
            assert(self.jobs@[idx as int]@ == jnew);
            assert(self@.jobs =~= vold.jobs.update(idx as int, jnew));
            assert(job_wf(vold.jobs[idx as int], idx as int));
            lemma_record_update(vold, idx as int, jnew);
        }
        Ok(())
    }

    /// Reclaim an expired job: once the deadline has passed with the job
    /// still awaiting funding or submission, custody (if any) goes back to
    /// the payer and the job ends `Refunded`.  Under the payer-only policy
    /// only the payer may trigger it; otherwise anyone.
    pub fn refund_expired(&mut self, caller: u64, job_id: u64, now: u64) -> (r: Result<
        (),
        EscrowError,
    >)
        requires
            old(self).wf(),
        ensures
            final(self).wf(),
            ({
                let (v2, res) = spec_refund_expired(old(self)@, caller, job_id, now);
                final(self)@ == v2 && r == res
            }),
    {
        if job_id == 0 || job_id > self.jobs.len() as u64 {
            return Err(EscrowError::NotFound);
        }
        let idx: usize = (job_id - 1) as usize;
        let payer = self.jobs[idx].payer;
        let st = self.jobs[idx].state;
        let deadline = self.jobs[idx].deadline;
        let amount = self.jobs[idx].escrowed_amount;
        if self.config.refund_expired_payer_only && caller != payer {
            return Err(EscrowError::Unauthorized);
        }
        if !(st == JobState::Created || st == JobState::Funded) {
            return Err(EscrowError::InvalidState);
        }
        if now <= deadline {
            return Err(EscrowError::DeadlineNotYetPassed);
        }
        proof {
            assert(job_wf(old(self)@.jobs[idx as int], idx as int));
            lemma_wf_escrow_bounds(old(self)@.jobs[idx as int], idx as int);
        }
        let res = ledger_transfer(&mut self.balances, self.custody, payer, amount);
        match res {
            Err(e) => {
                return Err(e);
            },
            Ok(()) => {},
        }
        let j = &mut self.jobs[idx];
        j.state = JobState::Refunded;
        j.escrowed_amount = 0;
        j.completed_at = now;
        proof {
            let vold = old(self)@;
            let jold = job_at(vold, job_id);
            let jnew = JobV {
                state: JobState::Refunded,
                escrowed_amount: 0,
                completed_at: now,
                ..jold
            };
            assert(self.jobs@[idx as int]@ == jnew);
            assert(self@.jobs =~= vold.jobs.update(idx as int, jnew));
            assert(job_wf(vold.jobs[idx as int], idx as int));
            lemma_record_update(vold, idx as int, jnew);
            lemma_spec_transfer_props(vold.balances, vold.custody, payer, amount as int);
        }
        Ok(())
    }

    /// Claim custody after payer inaction: once the deadline and the grace
    /// period have both passed with work submitted and unreviewed, the payee
    /// takes the remaining custody and the job ends `Approved`.
    pub fn emergency_release(&mut self, caller: u64, job_id: u64, now: u64) -> (r: Result<
        (),
        EscrowError,
    >)
        requires
            old(self).wf(),
        ensures
            final(self).wf(),
            ({
                let (v2, res) = spec_emergency_release(old(self)@, caller, job_id, now);
                final(self)@ == v2 && r == res
            }),
    {
        if job_id == 0 || job_id > self.jobs.len() as u64 {
            return Err(EscrowError::NotFound);
        }
        let idx: usize = (job_id - 1) as usize;
        let payee = self.jobs[idx].payee;
        let st = self.jobs[idx].state;
        let deadline = self.jobs[idx].deadline;
        let amount = self.jobs[idx].escrowed_amount;
        if caller != payee {
            return Err(EscrowError::Unauthorized);
        }
        if st != JobState::Submitted {
            return Err(EscrowError::InvalidState);
        }
        if deadline > u64::MAX - GRACE_PERIOD {
            return Err(EscrowError::DeadlineNotYetPassed);
        }
        if now <= deadline + GRACE_PERIOD {
            return Err(EscrowError::DeadlineNotYetPassed);
        }
        proof {
            assert(job_wf(old(self)@.jobs[idx as int], idx as int));
            lemma_wf_escrow_bounds(old(self)@.jobs[idx as int], idx as int);
        }
        let res = ledger_transfer(&mut self.balances, self.custody, payee, amount);
        match res {
            Err(e) => {
                return Err(e);
            },
            Ok(()) => {},
        }
        let j = &mut self.jobs[idx];
        j.state = JobState::Approved;
        j.escrowed_amount = 0;
        j.completed_at = now;
        proof {
            let vold = old(self)@;
            let jold = job_at(vold, job_id);
            let jnew = JobV {
                state: JobState::Approved,
                escrowed_amount: 0,
                completed_at: now,
                ..jold
            };
            assert(self.jobs@[idx as int]@ == jnew);
            assert(self@.jobs =~= vold.jobs.update(idx as int, jnew));
            assert(job_wf(vold.jobs[idx as int], idx as int));
            lemma_record_update(vold, idx as int, jnew);
            lemma_spec_transfer_props(vold.balances, vold.custody, payee, amount as int);
        }
        Ok(())
    }

    /// How many jobs have been created; also the id of the newest one.
    pub fn job_count(&self) -> (r: u64)
        ensures
            r == self@.jobs.len(),
    {
        self.jobs.len() as u64
    }

    /// Look a job up by id.
    pub fn get_job(&self, job_id: u64) -> (r: Result<&Job, EscrowError>)
        ensures
            (match r {
                Ok(j) => job_exists(self@, job_id) && j@ == job_at(self@, job_id),
                Err(e) => !job_exists(self@, job_id) && e == EscrowError::NotFound,
            }),
    {
        if job_id == 0 || job_id > self.jobs.len() as u64 {
            return Err(EscrowError::NotFound);
        }
        let idx: usize = (job_id - 1) as usize;
        Ok(&self.jobs[idx])
    }

    /// A payee's fraud count: how many jobs carry a flag against them.
    pub fn fraud_count(&self, payee: u64) -> (r: u64)
        ensures
            r as int == fraud_of(self@.fraud, payee),
    {
        match self.fraud.get(&payee) {
            Some(c) => *c,
            None => 0,
        }
    }

    /// The ids of all jobs with this payer, in creation order.
    pub fn jobs_by_payer(&self, payer: u64) -> (r: Vec<u64>)
        ensures
            r@ == ids_with_payer(self@.jobs, payer),
    {
        let mut out: Vec<u64> = Vec::new();
        let mut i: usize = 0;
        while i < self.jobs.len()
            invariant
                i <= self.jobs.len(),
                out@ == ids_with_payer(self@.jobs.take(i as int), payer),
            decreases self.jobs.len() - i,
        {
            if self.jobs[i].payer == payer {
                out.push(self.jobs[i].id);
            }
            i = i + 1;
            proof {
                assert(self@.jobs.take(i as int).drop_last() =~= self@.jobs.take(i - 1));
                assert(self@.jobs.take(i as int).last() == self@.jobs[i - 1]);
            }
        }
        proof {
            assert(self@.jobs.take(self@.jobs.len() as int) =~= self@.jobs);
        }
        out
    }

    /// The ids of all jobs with this payee, in creation order.
    pub fn jobs_by_payee(&self, payee: u64) -> (r: Vec<u64>)
        ensures
            r@ == ids_with_payee(self@.jobs, payee),
    {
        let mut out: Vec<u64> = Vec::new();
        let mut i: usize = 0;
        while i < self.jobs.len()
            invariant
                i <= self.jobs.len(),
                out@ == ids_with_payee(self@.jobs.take(i as int), payee),
            decreases self.jobs.len() - i,
        {
            if self.jobs[i].payee == payee {
                out.push(self.jobs[i].id);
            }
            i = i + 1;
            proof {
                assert(self@.jobs.take(i as int).drop_last() =~= self@.jobs.take(i - 1));
                assert(self@.jobs.take(i as int).last() == self@.jobs[i - 1]);
            }
        }
        proof {
            assert(self@.jobs.take(self@.jobs.len() as int) =~= self@.jobs);
        }
        out
    }
}

} // verus!
