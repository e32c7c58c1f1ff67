use vstd::prelude::*;

verus! {

/// Seconds between two metrics cycles.
pub const METRICS_PERIOD_SECS: u64 = 120;

/// Seconds between two refreshes of the liveness status.
pub const LIVENESS_PERIOD_SECS: u64 = 60;

/// Seconds of CPU sampling window inside a metrics cycle.
pub const CPU_SAMPLE_SECS: u64 = 1;

/// The first second that RFC 2822 can write: 0000-01-01 00:00:00 UTC.
pub const FIRST_RFC2822_SECS: i64 = -62167219200;

/// The last second that RFC 2822 can write: 9999-12-31 23:59:59 UTC.
pub const LAST_RFC2822_SECS: i64 = 253402300799;

/// A background task that the supervisor starts.
#[derive(PartialEq, Eq, Structural, Clone, Copy, Debug)]
pub enum LoopTask {
    /// Samples, logs and delivers a snapshot every `METRICS_PERIOD_SECS`.
    Metrics,
    /// Sets the status to the current time every `LIVENESS_PERIOD_SECS`.
    Liveness,
}

/// Reacts to the chat channel's events and guards the start of the two loops.
pub struct Handler {
    pub is_loop_running: bool,
    pub channel_id: u64,
    pub statistics_log_path: String,
}

/// After a "ready" signal: whether the loops run, and how many tasks it started.
pub open spec fn ready_step(running: bool) -> (bool, nat) {
    if running {
        (true, 0)
    } else {
        (true, 2)
    }
}

/// How many tasks `n` "ready" signals start in all, from a gate that is `running` or not.
pub open spec fn spawned_after(running: bool, n: nat) -> nat
    decreases n,
{
    if n == 0 {
        0
    } else {
        ready_step(running).1 + spawned_after(ready_step(running).0, (n - 1) as nat)
    }
}

impl Handler {
    /// A handler whose loops have not been started.
    pub fn new(channel_id: u64, statistics_log_path: String) -> (h: Handler)
        ensures
            !h.is_loop_running,
            h.channel_id == channel_id,
            h.statistics_log_path@ == statistics_log_path@,
    {
        Handler { is_loop_running: false, channel_id, statistics_log_path }
    }

    /// Handles a "ready" signal. On the first one the loops are marked running and
    /// both tasks are returned for starting; on any later one (after a
    /// reconnection) no task is returned.
    pub fn ready(&mut self) -> (tasks: Vec<LoopTask>)
        ensures
            (final(self).is_loop_running, tasks@.len() as nat) == ready_step(
                old(self).is_loop_running,
            ),
            !old(self).is_loop_running ==> tasks@ == seq![LoopTask::Metrics, LoopTask::Liveness],
            final(self).channel_id == old(self).channel_id,
            final(self).statistics_log_path@ == old(self).statistics_log_path@,
    {
        let mut tasks: Vec<LoopTask> = Vec::new();
        if !self.is_loop_running {
            self.is_loop_running = true;
            tasks.push(LoopTask::Metrics);
            tasks.push(LoopTask::Liveness);
        }
        tasks
    }
}

/// Over a process's lifetime, the first "ready" signal starts exactly two tasks
/// and no later one starts any: `n` signals start two tasks in all, or none if
/// there was no signal.
pub proof fn lemma_loops_start_once(n: nat)
    ensures
        spawned_after(false, n) == if n == 0 {
            0nat
        } else {
            2nat
        },
    decreases n,
{
    if n > 0 {
        lemma_running_spawns_nothing((n - 1) as nat);
    }
}

proof fn lemma_running_spawns_nothing(n: nat)
    ensures
        spawned_after(true, n) == 0,
    decreases n,
{
    if n > 0 {
        lemma_running_spawns_nothing((n - 1) as nat);
    }
}

/// Where a metrics cycle stands.
#[derive(PartialEq, Eq, Structural, Clone, Copy, Debug)]
pub enum CycleStage {
    Sampling,
    Appending,
    Delivering,
    Sleeping,
}

/// What the metrics loop does next.
#[derive(PartialEq, Eq, Structural, Clone, Copy, Debug)]
pub enum CycleAction {
    /// Read the host's metrics and build a snapshot.
    Sample,
    /// Append the cycle's snapshot to the history log.
    AppendLog,
    /// Send the cycle's snapshot to the channel.
    Deliver,
    /// Wait this many seconds.
    Sleep(u64),
}

/// The metrics loop's decision once the work of `stage` is done.
#[derive(PartialEq, Eq, Structural, Clone, Copy, Debug)]
pub struct CycleDecision {
    pub stage: CycleStage,
    pub action: CycleAction,
    /// The finished work failed, and the failure is to be logged.
    pub report_failure: bool,
}

pub open spec fn advance_spec(stage: CycleStage, succeeded: bool) -> CycleDecision {
    match stage {
        CycleStage::Sampling => CycleDecision {
            stage: CycleStage::Appending,
            action: CycleAction::AppendLog,
            report_failure: false,
        },
        CycleStage::Appending => CycleDecision {
            stage: CycleStage::Delivering,
            action: CycleAction::Deliver,
            report_failure: !succeeded,
        },
        CycleStage::Delivering => CycleDecision {
            stage: CycleStage::Sleeping,
            action: CycleAction::Sleep(METRICS_PERIOD_SECS),
            report_failure: !succeeded,
        },
        CycleStage::Sleeping => CycleDecision {
            stage: CycleStage::Sampling,
            action: CycleAction::Sample,
            report_failure: false,
        },
    }
}

/// Decides the metrics loop's next step once the work of `stage` has finished,
/// `succeeded` or not. Building a snapshot cannot fail; a failed append or a
/// failed delivery is reported and the cycle goes on as if it had succeeded.
pub fn advance(stage: CycleStage, succeeded: bool) -> (d: CycleDecision)
    ensures
        d == advance_spec(stage, succeeded),
{
    match stage {
        CycleStage::Sampling => CycleDecision {
            stage: CycleStage::Appending,
            action: CycleAction::AppendLog,
            report_failure: false,
        },
        CycleStage::Appending => CycleDecision {
            stage: CycleStage::Delivering,
            action: CycleAction::Deliver,
            report_failure: !succeeded,
        },
        CycleStage::Delivering => CycleDecision {
            stage: CycleStage::Sleeping,
            action: CycleAction::Sleep(METRICS_PERIOD_SECS),
            report_failure: !succeeded,
        },
        CycleStage::Sleeping => CycleDecision {
            stage: CycleStage::Sampling,
            action: CycleAction::Sample,
            report_failure: false,
        },
    }
}

/// The actions of one metrics cycle, from a freshly built snapshot to the next
/// sampling, when the append ends `appended` and the delivery `delivered`.
pub open spec fn cycle_actions(appended: bool, delivered: bool) -> Seq<CycleAction> {
    let a = advance_spec(CycleStage::Sampling, true);
    let b = advance_spec(a.stage, appended);
    let c = advance_spec(b.stage, delivered);
    let d = advance_spec(c.stage, true);
    seq![a.action, b.action, c.action, d.action]
}

/// The log append and the delivery do not depend on each other: whatever either
/// one's outcome, every cycle appends its snapshot, delivers it, waits the full
/// period and samples again, and each failure is reported on its own.
pub proof fn lemma_cycle_independent(appended: bool, delivered: bool)
    ensures
        cycle_actions(appended, delivered) == seq![
            CycleAction::AppendLog,
            CycleAction::Deliver,
            CycleAction::Sleep(METRICS_PERIOD_SECS),
            CycleAction::Sample,
        ],
        cycle_actions(appended, delivered) == cycle_actions(true, true),
        advance_spec(CycleStage::Appending, appended).report_failure == !appended,
        advance_spec(CycleStage::Delivering, delivered).report_failure == !delivered,
        advance_spec(
            advance_spec(CycleStage::Delivering, delivered).stage,
            true,
        ).stage == CycleStage::Sampling,
{
}

/// What `DateTime::to_rfc2822` writes for the UTC instant `secs` seconds and
/// `nanos` nanoseconds after the Unix epoch.
pub uninterp spec fn rfc2822_text(secs: i64, nanos: u32) -> Seq<char>;

/// Relies on chrono's `DateTime::from_timestamp`, which gives `Some` for a
/// second count within its date range (years far beyond 0 to 9999) with
/// nanoseconds under a second, and on `to_rfc2822`, which panics only for a year
/// below 0 or above 9999.
#[verifier::external_body]
fn rfc2822(secs: i64, nanos: u32) -> (r: Option<String>)
    requires
        FIRST_RFC2822_SECS <= secs <= LAST_RFC2822_SECS,
        nanos < 1_000_000_000,
    ensures
        r is Some,
        r is Some ==> r->0@ == rfc2822_text(secs, nanos),
{
    match chrono::DateTime::from_timestamp(secs, nanos) {
        Some(t) => Some(t.to_rfc2822()),
        None => None,
    }
}

/// The liveness status for the current time, given as seconds and nanoseconds
/// since the Unix epoch: the time in RFC 2822. Instants outside the years 0 to
/// 9999, which RFC 2822 cannot write, and nanoseconds of a full second or more,
/// give `None`.
pub fn liveness_status(secs: i64, nanos: u32) -> (r: Option<String>)
    ensures
        r is Some <==> (FIRST_RFC2822_SECS <= secs <= LAST_RFC2822_SECS && nanos
            < 1_000_000_000),
        r is Some ==> r->0@ == rfc2822_text(secs, nanos),
{
    if secs < FIRST_RFC2822_SECS || secs > LAST_RFC2822_SECS || nanos >= 1_000_000_000 {
        return None;
    }
    match rfc2822(secs, nanos) {
        Some(t) => Some(t),
        None => None,
    }
}

} // verus!
