//! The scheduler's state machine: calendar-expression validation, the
//! start/stop lifecycle, and the status the service reports. Registering
//! the recurring job and firing it are done by the surrounding process,
//! which consults these transitions.

use vstd::prelude::*;
use vstd::string::*;
use crate::errors::SchedulerError;

verus! {

/// Whether the scheduler's cron dialect accepts an expression; a function
/// of the expression text alone.
pub uninterp spec fn cron_valid(s: Seq<char>) -> bool;

/// Relies on tokio-cron-scheduler's Job::new: it parses the expression
/// with its cron parser (seconds field required) and fails exactly on
/// text that parser refuses, so acceptance is a function of the
/// expression alone.
#[verifier::external_body]
fn cron_accepts(expression: &str) -> (r: bool)
    ensures
        r == cron_valid(expression@),
{
    tokio_cron_scheduler::Job::new(expression, |_uuid, _lock| {}).is_ok()
}

/// Check a calendar expression before anything is registered under it.
pub fn validate_cron_expression(expression: &str) -> (r: Result<(), SchedulerError>)
    ensures
        r is Ok <==> cron_valid(expression@),
        r is Err ==> (r->Err_0 matches SchedulerError::InvalidCronExpression { expression: e }
            && e@ == expression@),
{
    if cron_accepts(expression) {
        Ok(())
    } else {
        Err(SchedulerError::InvalidCronExpression { expression: expression.to_owned() })
    }
}

/// The lifecycle of the background scheduler.
#[derive(Debug, Clone, Copy, PartialEq, Eq, Structural)]
pub enum ScheduleState {
    /// Nothing is registered.
    Stopped,
    /// The recurring job is being registered.
    Starting,
    /// The recurring job is registered and firing on schedule.
    Running,
    /// The registration is being cancelled; in-flight work is awaited.
    Stopping,
}

/// The running/stopped state of the scheduler and the calendar expression
/// driving it.
#[derive(Debug, Clone, PartialEq)]
pub struct ScheduleHandle {
    /// Where in the lifecycle the scheduler stands.
    pub state: ScheduleState,
    /// The calendar expression of the recurring discovery run.
    pub cron_expression: String,
}

impl ScheduleHandle {
    /// A stopped scheduler holding its calendar expression.
    pub fn new(cron_expression: String) -> (h: ScheduleHandle)
        ensures
            h.state is Stopped,
            h.cron_expression == cron_expression,
    {
        ScheduleHandle { state: ScheduleState::Stopped, cron_expression }
    }

    /// Start the recurring schedule. The expression is validated before
    /// anything is registered: an invalid one is rejected with the
    /// expression named and no state change; a stopped scheduler with a
    /// valid expression reaches `Running`; starting in any other state is
    /// refused without a state change.
    pub fn start(&mut self) -> (r: Result<(), SchedulerError>)
        ensures
            r is Ok <==> cron_valid(old(self).cron_expression@) && old(self).state is Stopped,
            r is Ok ==> final(self).state is Running,
            r is Err ==> final(self).state == old(self).state,
            final(self).cron_expression == old(self).cron_expression,
            !cron_valid(old(self).cron_expression@) ==> (r->Err_0 matches
                SchedulerError::InvalidCronExpression { expression: e } && e@ == old(
                self,
            ).cron_expression@),
            cron_valid(old(self).cron_expression@) && !(old(self).state is Stopped) ==> (r
                ->Err_0 matches SchedulerError::StartFailed(m) && m@
                == "scheduler already started"@),
    {
        validate_cron_expression(self.cron_expression.as_str())?;
        match self.state {
            ScheduleState::Stopped => {
                self.state = ScheduleState::Starting;
                self.state = ScheduleState::Running;
                Ok(())
            },
            _ => Err(SchedulerError::StartFailed(String::from_str("scheduler already started"))),
        }
    }

    /// Stop the scheduler: from any state it reaches `Stopped`, passing
    /// through `Stopping` while in-flight work is awaited.
    pub fn stop(&mut self) -> (r: Result<(), SchedulerError>)
        ensures
            r is Ok,
            final(self).state is Stopped,
            final(self).cron_expression == old(self).cron_expression,
    {
        self.state = ScheduleState::Stopping;
        self.state = ScheduleState::Stopped;
        Ok(())
    }

    /// The scheduler is currently firing on schedule.
    pub fn is_running(&self) -> (r: bool)
        ensures
            r == (self.state is Running),
    {
        match self.state {
            ScheduleState::Running => true,
            _ => false,
        }
    }

    /// A line naming the expression the next run is scheduled under.
    pub fn get_next_execution_info(&self) -> (r: String)
        ensures
            r@ == "Next discovery playlist generation scheduled with cron expression: "@
                + self.cron_expression@,
    {
        let mut out = String::from_str(
            "Next discovery playlist generation scheduled with cron expression: ",
        );
        out.append(self.cron_expression.as_str());
        out
    }

    /// The scheduler's status snapshot.
    pub fn get_scheduler_stats(&self) -> (s: SchedulerStats)
        ensures
            s.is_running == (self.state is Running),
            s.cron_expression == self.cron_expression,
            s.next_execution_info@
                == "Next discovery playlist generation scheduled with cron expression: "@
                + self.cron_expression@,
    {
        SchedulerStats {
            is_running: self.is_running(),
            cron_expression: self.cron_expression.clone(),
            next_execution_info: self.get_next_execution_info(),
        }
    }
}

/// Status snapshot of the scheduler.
#[derive(Debug, Clone, PartialEq)]
pub struct SchedulerStats {
    /// The scheduler is currently firing on schedule.
    pub is_running: bool,
    /// The calendar expression in force.
    pub cron_expression: String,
    /// A line about the next scheduled run.
    pub next_execution_info: String,
}

impl SchedulerStats {
    /// Render the status for display.
    pub fn format_stats(&self) -> (r: String)
        ensures
            r@ == "📅 **Scheduler Status**\n• Status: "@ + (if self.is_running {
                "🟢 Running"@
            } else {
                "🔴 Stopped"@
            }) + "\n• Schedule: `"@ + self.cron_expression@ + "`\n• "@
                + self.next_execution_info@,
    {
        let mut out = String::from_str("📅 **Scheduler Status**\n• Status: ");
        if self.is_running {
            out.append("🟢 Running");
        } else {
            out.append("🔴 Stopped");
        }
        out.append("\n• Schedule: `");
        out.append(self.cron_expression.as_str());
        out.append("`\n• ");
        out.append(self.next_execution_info.as_str());
        out
    }
}

} // verus!
