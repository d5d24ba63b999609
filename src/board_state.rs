use vstd::prelude::*;

verus! {

/// Value at which a subsystem's error counter saturates and is critical.
pub const STATUS_CRITICAL_COUNTER_VALUE: u32 = 128;

/// State a subsystem reports for one cycle.
#[derive(Clone, Copy, Debug, PartialEq, Eq, Structural)]
pub enum SubsystemState {
    Unknown,
    Running,
    Error,
    Recovering,
    Waiting,
}

impl SubsystemState {
    /// The state a numeric code stands for (0 unknown, 1 running, 2 error,
    /// 3 recovering, 4 waiting); no state for any other code.
    pub fn from_code(code: u8) -> (r: Option<SubsystemState>)
        ensures
            code == 0 ==> r == Some(SubsystemState::Unknown),
            code == 1 ==> r == Some(SubsystemState::Running),
            code == 2 ==> r == Some(SubsystemState::Error),
            code == 3 ==> r == Some(SubsystemState::Recovering),
            code == 4 ==> r == Some(SubsystemState::Waiting),
            code > 4 ==> r is None,
    {
        match code {
            0 => Some(SubsystemState::Unknown),
            1 => Some(SubsystemState::Running),
            2 => Some(SubsystemState::Error),
            3 => Some(SubsystemState::Recovering),
            4 => Some(SubsystemState::Waiting),
            _ => None,
        }
    }
}

/// The supervised subsystems.
#[derive(Clone, Copy, Debug, PartialEq, Eq, Structural)]
pub enum Subsystem {
    Powertrain,
    Dashboard,
    Telemetry,
}

/// One cycle's health report.
#[derive(Clone, Copy, Debug, PartialEq, Eq, Structural)]
pub struct BoardStatus {
    pub powertrain: SubsystemState,
    pub dashboard: SubsystemState,
    pub telemetry: SubsystemState,
}

impl BoardStatus {
    pub open spec fn state_of(self, s: Subsystem) -> SubsystemState {
        match s {
            Subsystem::Powertrain => self.powertrain,
            Subsystem::Dashboard => self.dashboard,
            Subsystem::Telemetry => self.telemetry,
        }
    }
}

/// One saturating error counter per subsystem.
#[derive(Clone, Copy, Debug, PartialEq, Eq, Structural)]
pub struct ErrorCounters {
    pub dashboard_ec: u32,
    pub powertrain_ec: u32,
    pub telemetry_ec: u32,
}

/// A counter after one cycle: one more if below the cap and the subsystem
/// reported an error, else unchanged.
pub open spec fn step(count: u32, state: SubsystemState) -> u32 {
    if count < STATUS_CRITICAL_COUNTER_VALUE && state == SubsystemState::Error {
        (count + 1) as u32
    } else {
        count
    }
}

impl ErrorCounters {
    pub open spec fn count(self, s: Subsystem) -> u32 {
        match s {
            Subsystem::Powertrain => self.powertrain_ec,
            Subsystem::Dashboard => self.dashboard_ec,
            Subsystem::Telemetry => self.telemetry_ec,
        }
    }

    /// No counter is above the cap.
    pub open spec fn wf(self) -> bool {
        &&& self.dashboard_ec <= STATUS_CRITICAL_COUNTER_VALUE
        &&& self.powertrain_ec <= STATUS_CRITICAL_COUNTER_VALUE
        &&& self.telemetry_ec <= STATUS_CRITICAL_COUNTER_VALUE
    }

    /// The counters after one cycle with report `status`.
    pub open spec fn next(self, status: BoardStatus) -> ErrorCounters {
        ErrorCounters {
            dashboard_ec: step(self.dashboard_ec, status.dashboard),
            powertrain_ec: step(self.powertrain_ec, status.powertrain),
            telemetry_ec: step(self.telemetry_ec, status.telemetry),
        }
    }

    /// The counters after one cycle per report, in order.
    pub open spec fn after(self, reports: Seq<BoardStatus>) -> ErrorCounters
        decreases reports.len(),
    {
        if reports.len() == 0 {
            self
        } else {
            self.after(reports.drop_last()).next(reports.last())
        }
    }

    /// Counters that start at zero.
    pub fn new() -> (r: ErrorCounters)
        ensures
            r.dashboard_ec == 0,
            r.powertrain_ec == 0,
            r.telemetry_ec == 0,
            r.wf(),
    {
        ErrorCounters { dashboard_ec: 0, powertrain_ec: 0, telemetry_ec: 0 }
    }

    /// Takes one cycle's report: each subsystem's own counter goes up by one
    /// when it reported an error and is below the cap.
    pub fn increase_counters(&mut self, status: &BoardStatus)
        ensures
            *final(self) == old(self).next(*status),
            old(self).wf() ==> final(self).wf(),
    {
        if self.telemetry_ec < STATUS_CRITICAL_COUNTER_VALUE {
            if status.telemetry == SubsystemState::Error {
                self.telemetry_ec = self.telemetry_ec + 1;
            }
        }
        if self.dashboard_ec < STATUS_CRITICAL_COUNTER_VALUE {
            if status.dashboard == SubsystemState::Error {
                self.dashboard_ec = self.dashboard_ec + 1;
            }
        }
        if self.powertrain_ec < STATUS_CRITICAL_COUNTER_VALUE {
            if status.powertrain == SubsystemState::Error {
                self.powertrain_ec = self.powertrain_ec + 1;
            }
        }
    }

    /// The counter of subsystem `s`.
    pub fn counter(&self, s: Subsystem) -> (r: u32)
        ensures
            r == self.count(s),
    {
        match s {
            Subsystem::Powertrain => self.powertrain_ec,
            Subsystem::Dashboard => self.dashboard_ec,
            Subsystem::Telemetry => self.telemetry_ec,
        }
    }

    /// Whether subsystem `s` is critical: its counter reached the cap.
    pub fn is_critical(&self, s: Subsystem) -> (r: bool)
        ensures
            r == (self.count(s) >= STATUS_CRITICAL_COUNTER_VALUE),
    {
        self.counter(s) >= STATUS_CRITICAL_COUNTER_VALUE
    }
}

/// A subsystem's counter after a run of cycles depends on its own reports
/// alone: it is its starting value stepped once per report.
pub open spec fn count_after(count: u32, reports: Seq<BoardStatus>, s: Subsystem) -> u32
    decreases reports.len(),
{
    if reports.len() == 0 {
        count
    } else {
        step(count_after(count, reports.drop_last(), s), reports.last().state_of(s))
    }
}

/// Over any run of cycles, each counter moves by its own subsystem's reports
/// only, by the per-cycle step.
pub proof fn lemma_count_after(ec: ErrorCounters, reports: Seq<BoardStatus>, s: Subsystem)
    ensures
        ec.after(reports).count(s) == count_after(ec.count(s), reports, s),
    decreases reports.len(),
{
    if reports.len() > 0 {
        lemma_count_after(ec, reports.drop_last(), s);
    }
}

/// Counters that start at or below the cap stay at or below it, whatever the
/// number of cycles and reports.
pub proof fn lemma_never_exceeds_cap(ec: ErrorCounters, reports: Seq<BoardStatus>)
    requires
        ec.wf(),
    ensures
        ec.after(reports).wf(),
    decreases reports.len(),
{
    if reports.len() > 0 {
        lemma_never_exceeds_cap(ec, reports.drop_last());
    }
}

/// While a subsystem reports an error every cycle, its counter goes up by
/// exactly one per cycle until it reaches the cap, and then stays there: after
/// 128 or more such cycles it is at the cap.
pub proof fn lemma_saturates(ec: ErrorCounters, reports: Seq<BoardStatus>, s: Subsystem)
    requires
        ec.wf(),
        forall|i: int| 0 <= i < reports.len() ==> #[trigger] reports[i].state_of(s) == SubsystemState::Error,
    ensures
        ec.after(reports).count(s) as int == if ec.count(s) + reports.len() <= 128 {
            ec.count(s) + reports.len()
        } else {
            128
        },
        reports.len() >= 128 ==> ec.after(reports).count(s) == STATUS_CRITICAL_COUNTER_VALUE,
    decreases reports.len(),
{
    if reports.len() > 0 {
        let prefix = reports.drop_last();
        assert forall|i: int| 0 <= i < prefix.len() implies #[trigger] prefix[i].state_of(s)
            == SubsystemState::Error by {
            assert(prefix[i] == reports[i]);
        }
        lemma_saturates(ec, prefix, s);
        lemma_count_after(ec, prefix, s);
        lemma_count_after(ec, reports, s);
        assert(reports.last() == reports[reports.len() - 1]);
    }
}

/// A subsystem that reports no error keeps its counter, whatever the other
/// subsystems report: the three counters are independent.
pub proof fn lemma_independent(ec: ErrorCounters, reports: Seq<BoardStatus>, s: Subsystem)
    requires
        forall|i: int| 0 <= i < reports.len() ==> #[trigger] reports[i].state_of(s) != SubsystemState::Error,
    ensures
        ec.after(reports).count(s) == ec.count(s),
    decreases reports.len(),
{
    if reports.len() > 0 {
        let prefix = reports.drop_last();
        assert forall|i: int| 0 <= i < prefix.len() implies #[trigger] prefix[i].state_of(s)
            != SubsystemState::Error by {
            assert(prefix[i] == reports[i]);
        }
        lemma_independent(ec, prefix, s);
        lemma_count_after(ec, prefix, s);
        lemma_count_after(ec, reports, s);
        assert(reports.last() == reports[reports.len() - 1]);
    }
}

} // verus!
