//! Operational diagnostic report.
use vstd::prelude::*;

use crate::infrastructure::config::RedactedConfig;

verus! {

/// How a check came out.
#[derive(Clone, Copy, Debug, PartialEq, Eq, Structural)]
pub enum DiagnosticStatus {
    Pass,
    Warning,
    Fail,
}

/// One check of the report.
#[derive(Debug, PartialEq, Eq)]
pub struct DiagnosticCheck {
    pub name: String,
    pub status: DiagnosticStatus,
    pub message: String,
    pub remediation: Option<String>,
}

/// What the checks found.
pub struct DoctorReport {
    pub healthy: bool,
    pub checks: Vec<DiagnosticCheck>,
    pub tzdb_version: String,
    pub schema_version: Option<u32>,
    pub durable_available: bool,
    pub config: Option<RedactedConfig>,
}

/// Some check failed.
pub open spec fn has_failure(checks: Seq<DiagnosticCheck>) -> bool {
    exists|i: int| 0 <= i < checks.len() && (#[trigger] checks[i]).status == DiagnosticStatus::Fail
}

/// A report that is being made.
pub struct DoctorReportBuilder {
    checks: Vec<DiagnosticCheck>,
}

impl View for DoctorReportBuilder {
    type V = Seq<DiagnosticCheck>;

    closed spec fn view(&self) -> Seq<DiagnosticCheck> {
        self.checks@
    }
}

impl Default for DoctorReportBuilder {
    fn default() -> (r: DoctorReportBuilder)
        ensures
            r@ == Seq::<DiagnosticCheck>::empty(),
    {
        DoctorReportBuilder { checks: Vec::new() }
    }
}

impl DoctorReportBuilder {
    /// Adds a check.
    pub fn push(
        &mut self,
        name: String,
        status: DiagnosticStatus,
        message: String,
        remediation: Option<String>,
    )
        ensures
            final(self)@ == old(self)@.push(
                (DiagnosticCheck { name, status, message, remediation }),
            ),
    {
        self.checks.push(DiagnosticCheck { name, status, message, remediation });
    }

    /// The report: warnings leave it healthy, a failure does not.
    pub fn finish(
        self,
        tzdb_version: String,
        schema_version: Option<u32>,
        durable_available: bool,
        config: Option<RedactedConfig>,
    ) -> (r: DoctorReport)
        ensures
            r.healthy == !has_failure(self@),
            r.checks@ == self@,
            r.tzdb_version == tzdb_version,
            r.schema_version == schema_version,
            r.durable_available == durable_available,
            r.config == config,
    {
        let mut healthy: bool = true;
        let mut index: usize = 0;
        while index < self.checks.len()
            invariant
                index <= self.checks@.len(),
                healthy == !has_failure(self.checks@.take(index as int)),
            decreases self.checks@.len() - index,
        {
            let failed: bool = self.checks[index].status == DiagnosticStatus::Fail;
            proof {
                lemma_failure_push(self.checks@, index as int);
            }
            if failed {
                healthy = false;
            }
            index += 1;
        }
        assert(self.checks@.take(self.checks@.len() as int) =~= self.checks@);
        DoctorReport {
            healthy,
            checks: self.checks,
            tzdb_version,
            schema_version,
            durable_available,
            config,
        }
    }
}

proof fn lemma_failure_push(checks: Seq<DiagnosticCheck>, index: int)
    requires
        0 <= index < checks.len(),
    ensures
        has_failure(checks.take(index + 1)) == (has_failure(checks.take(index))
            || checks[index].status == DiagnosticStatus::Fail),
{
    let head = checks.take(index);
    let next = checks.take(index + 1);
    if has_failure(head) {
        let i = choose|i: int|
            0 <= i < head.len() && (#[trigger] head[i]).status == DiagnosticStatus::Fail;
        assert(next[i].status == DiagnosticStatus::Fail);
    }
    if checks[index].status == DiagnosticStatus::Fail {
        assert(next[index].status == DiagnosticStatus::Fail);
    }
    if has_failure(next) {
        let i = choose|i: int|
            0 <= i < next.len() && (#[trigger] next[i]).status == DiagnosticStatus::Fail;
        if i < index {
            assert(head[i].status == DiagnosticStatus::Fail);
        }
    }
}

} // verus!
