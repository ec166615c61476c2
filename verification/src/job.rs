//! One escrow agreement: its record, its lifecycle states, and the
//! specification-level facts that every stored record satisfies.

use crate::split::split_initial;
use vstd::prelude::*;

verus! {

/// Where a job stands in its lifecycle.  A job reaches exactly one of the
/// terminal states and never leaves it; the only state ever re-entered is
/// `Submitted`, after a revision request.
#[derive(Clone, Copy, Debug, PartialEq, Eq, Structural)]
pub enum JobState {
    /// Stored but not yet funded; no value is under custody.
    Created,
    /// The whole total is under custody.
    Funded,
    /// The payee handed in a work reference and awaits review.
    Submitted,
    /// The payer asked for changes; the payee may submit again.
    RevisionRequested,
    /// Terminal: custody went to the payee.
    Approved,
    /// Terminal: the remainder went back to the payer.
    Rejected,
    /// Terminal: the unfunded job was withdrawn; nothing ever moved.
    Cancelled,
    /// Terminal: the payer claimed default; custody went back to the payer
    /// and the payee's fraud count grew.
    FraudFlagged,
    /// Terminal: the deadline passed unserved and custody went back to the payer.
    Refunded,
}

impl JobState {
    /// Whether the state ends the lifecycle.  No operation moves a job out
    /// of a terminal state, and a terminal job holds nothing in custody.
    pub open spec fn is_terminal(self) -> bool {
        match self {
            JobState::Approved => true,
            JobState::Rejected => true,
            JobState::Cancelled => true,
            JobState::FraudFlagged => true,
            JobState::Refunded => true,
            _ => false,
        }
    }
}

/// One escrow agreement.  `id`, the parties, the total, the percentage and
/// the deadline never change after creation; the rest records how far the
/// lifecycle has come.
#[derive(Debug)]
pub struct Job {
    /// Unique, monotonically assigned, never reused.
    pub id: u64,
    /// The account whose value goes under custody.
    pub payer: u64,
    /// The account the released value is meant for.
    pub payee: u64,
    /// The agreed value, strictly positive.
    pub total_amount: i128,
    /// How much of the total (in percent, 0 to 100) may be released early.
    pub initial_payment_percent: u32,
    /// Whether the initial payment has been released; set at most once.
    pub initial_payment_released: bool,
    /// The value still under custody for this job.
    pub escrowed_amount: i128,
    /// The timestamp the work is due by; strictly after `created_at`.
    pub deadline: u64,
    /// Where the job stands in its lifecycle.
    pub state: JobState,
    /// What the agreement is about; free text fixed at creation.
    pub description: String,
    /// An opaque reference to the submitted work; empty until submission.
    pub work_reference: String,
    /// Whether the payer claimed default on this job; set at most once.
    pub fraud_flag_raised: bool,
    /// When the fraud flag was raised; zero until then.
    pub fraud_flag_timestamp: u64,
    /// When the record was created.
    pub created_at: u64,
    /// When the job was funded; zero until then.
    pub funded_at: u64,
    /// When work was last submitted; zero until then.
    pub submitted_at: u64,
    /// When a terminal state was reached; zero until then.
    pub completed_at: u64,
}

/// The mathematical image of a `Job`: the same record with the opaque
/// strings read as character sequences.  All contracts speak of this form.
pub struct JobV {
    pub id: u64,
    pub payer: u64,
    pub payee: u64,
    pub total_amount: i128,
    pub initial_payment_percent: u32,
    pub initial_payment_released: bool,
    pub escrowed_amount: i128,
    pub deadline: u64,
    pub state: JobState,
    pub description: Seq<char>,
    pub work_reference: Seq<char>,
    pub fraud_flag_raised: bool,
    pub fraud_flag_timestamp: u64,
    pub created_at: u64,
    pub funded_at: u64,
    pub submitted_at: u64,
    pub completed_at: u64,
}

impl View for Job {
    type V = JobV;

    open spec fn view(&self) -> JobV {
        JobV {
            id: self.id,
            payer: self.payer,
            payee: self.payee,
            total_amount: self.total_amount,
            initial_payment_percent: self.initial_payment_percent,
            initial_payment_released: self.initial_payment_released,
            escrowed_amount: self.escrowed_amount,
            deadline: self.deadline,
            state: self.state,
            description: self.description@,
            work_reference: self.work_reference@,
            fraud_flag_raised: self.fraud_flag_raised,
            fraud_flag_timestamp: self.fraud_flag_timestamp,
            created_at: self.created_at,
            funded_at: self.funded_at,
            submitted_at: self.submitted_at,
            completed_at: self.completed_at,
        }
    }
}

/// How much of the job's total has already gone out as the initial payment:
/// the computed split once it was released, nothing before.
pub open spec fn released_initial(j: JobV) -> int {
    if j.initial_payment_released {
        split_initial(j.total_amount as int, j.initial_payment_percent as int)
    } else {
        0
    }
}

/// The custody a record in this state must hold: nothing before funding and
/// after the end, the total less any released initial payment in between.
pub open spec fn expected_escrow(j: JobV) -> int {
    match j.state {
        JobState::Created => 0,
        JobState::Funded => j.total_amount - released_initial(j),
        JobState::Submitted => j.total_amount - released_initial(j),
        JobState::RevisionRequested => j.total_amount - released_initial(j),
        _ => 0,
    }
}

/// Whether value was ever moved into custody for this job.  A job refunded
/// without ever being funded keeps `funded_at` at zero.
pub open spec fn ever_funded(j: JobV) -> bool {
    match j.state {
        JobState::Created => false,
        JobState::Cancelled => false,
        JobState::Refunded => j.funded_at != 0,
        _ => true,
    }
}

/// The value this job has released from custody so far, to either party:
/// the initial payment once released, plus whatever a terminal transition
/// paid out.  Together with `escrowed_amount` it always restores the total
/// of every funded job (the conservation law).
pub open spec fn released_so_far(j: JobV) -> int {
    match j.state {
        JobState::Created => 0,
        JobState::Cancelled => 0,
        JobState::Funded => released_initial(j),
        JobState::Submitted => released_initial(j),
        JobState::RevisionRequested => released_initial(j),
        JobState::Refunded => if j.funded_at != 0 {
            j.total_amount as int
        } else {
            0
        },
        _ => j.total_amount as int,
    }
}

/// What every job stored at sequence position `i` satisfies.
pub open spec fn job_wf(j: JobV, i: int) -> bool {
    &&& j.id == i + 1
    &&& j.total_amount > 0
    &&& j.initial_payment_percent <= 100
    &&& j.deadline > j.created_at
    &&& j.escrowed_amount == expected_escrow(j)
    &&& j.state is Created ==> !j.initial_payment_released
    &&& j.initial_payment_released ==> j.initial_payment_percent > 0
    &&& j.fraud_flag_raised <==> j.state is FraudFlagged
}

} // verus!
