//! Policy switches for the points the escrow design leaves open.

use vstd::prelude::*;

verus! {

/// Policy choices that vary between otherwise-equivalent escrow deployments.
/// Each flag picks one side of an open policy question; the state machine is
/// the same in every other respect.
#[derive(Clone, Copy, Debug, PartialEq, Eq, Structural)]
pub struct EscrowConfig {
    /// When true, the initial payment may be released while the job is still
    /// `Funded` (before any work was submitted), and the payer may then raise
    /// a fraud flag against a payee who took the initial payment and never
    /// submitted.  When false, both require a submission first.
    pub allow_pre_submission_release: bool,
    /// When true, only the payer may reclaim the funds of an expired job;
    /// when false, anyone may trigger that refund on the payer's behalf.
    pub refund_expired_payer_only: bool,
    /// When true, creating a job immediately moves the total into custody
    /// and the job starts out `Funded`; when false, funding is a separate
    /// step and the job starts out `Created`.
    pub fund_at_creation: bool,
}

impl EscrowConfig {
    /// The reference policy: funding is a separate step, nothing happens
    /// before submission, and only the payer may reclaim expired funds.
    pub fn strict() -> (c: EscrowConfig)
        ensures
            !c.allow_pre_submission_release,
            c.refund_expired_payer_only,
            !c.fund_at_creation,
    {
        EscrowConfig {
            allow_pre_submission_release: false,
            refund_expired_payer_only: true,
            fund_at_creation: false,
        }
    }
}

} // verus!
