//! When to post a health report: a change of the status code is posted only
//! once it has been seen in two checks in a row, so that a single failed check
//! does not raise an alarm.

use vstd::prelude::*;

use crate::health_monitor::message_builder::{
    all_up, health_code, lemma_health_code_range, lemma_two_pow_mono, two_pow,
};

verus! {

/// What one health check leads to.
#[derive(Debug, Clone, Copy, PartialEq, Eq, Structural)]
pub enum HealthEvent {
    /// The code is the one seen in the last two checks: nothing to report.
    NoChange,
    /// A new code was seen for the first time: wait for the next check.
    Waiting,
    /// The code went back to the one seen two checks ago: the change in
    /// between was a false positive.
    FalsePositive,
    /// A new code was seen for the second time in a row: post the report.
    Notify,
}

/// The codes of the last two health checks: `code` the latest, `code_before`
/// the one before.
#[derive(Debug, Clone, Copy, PartialEq, Eq, Structural)]
pub struct HealthMonitor {
    pub code: i32,
    pub code_before: i32,
}

/// The state after a check that read `reading`, and what the check leads to.
pub open spec fn health_step(s: HealthMonitor, reading: i32) -> (HealthMonitor, HealthEvent) {
    if reading == s.code && s.code == s.code_before {
        (s, HealthEvent::NoChange)
    } else if reading != s.code && reading != s.code_before {
        (HealthMonitor { code: reading, code_before: s.code }, HealthEvent::Waiting)
    } else if reading != s.code {
        (HealthMonitor { code: reading, code_before: reading }, HealthEvent::FalsePositive)
    } else {
        (HealthMonitor { code: reading, code_before: reading }, HealthEvent::Notify)
    }
}

/// A state in which the last two checks agree.
pub open spec fn settled(s: HealthMonitor, code: i32) -> bool {
    s.code == code && s.code_before == code
}

impl HealthMonitor {
    /// The state before the first check of `service_count` services: every
    /// service taken to be up, twice.
    pub fn new(service_count: usize) -> (m: HealthMonitor)
        requires
            service_count <= 30,
        ensures
            m.code == two_pow(service_count as nat) - 1,
            settled(m, m.code),
    {
        let mut all: i32 = 1;
        let mut i: usize = 0;
        while i < service_count
            invariant
                i <= service_count <= 30,
                all == two_pow(i as nat),
            decreases service_count - i,
        {
            proof {
                lemma_two_pow_mono(i as nat, 29);
                assert(two_pow(29) == 0x2000_0000) by {
                    reveal_with_fuel(two_pow, 30);
                }
            }
            all = all * 2;
            i += 1;
        }
        let code = all - 1;
        HealthMonitor { code, code_before: code }
    }

    /// Takes in the code read by a check, and says what it leads to.
    pub fn step(&mut self, reading: i32) -> (event: HealthEvent)
        ensures
            (*final(self), event) == health_step(*old(self), reading),
    {
        let no_change = reading == self.code && self.code == self.code_before;
        if no_change {
            return HealthEvent::NoChange;
        }
        let mut event = HealthEvent::Waiting;
        let change_1st_time = reading != self.code;
        let is_false_positive = reading == self.code_before;
        if change_1st_time {
            if is_false_positive {
                event = HealthEvent::FalsePositive;
                self.code = reading;
            }
        }
        let change_2nd_time = reading == self.code && self.code != self.code_before;
        if change_2nd_time {
            event = HealthEvent::Notify;
            self.code = reading;
        }
        self.code_before = self.code;
        self.code = reading;
        event
    }
}

/// After every check, the latest code is the code that check read.
pub proof fn lemma_step_records_reading(s: HealthMonitor, reading: i32)
    ensures
        health_step(s, reading).0.code == reading,
{
}

/// A report is posted only for a code that the previous check read as well,
/// and that differs from the code before it.
pub proof fn lemma_notify_needs_two_checks(s: HealthMonitor, reading: i32)
    ensures
        health_step(s, reading).1 == HealthEvent::Notify <==> (reading == s.code && s.code
            != s.code_before),
{
}

/// From any state, a code that differs from both codes of the state is first
/// waited on: it becomes the latest code and the old latest code becomes the
/// one before. Read again at the next check, it is reported, and the state is
/// then settled on it.
pub proof fn lemma_new_code_waits_then_reports(s: HealthMonitor, reading: i32)
    requires
        reading != s.code,
        reading != s.code_before,
    ensures
        health_step(s, reading).1 == HealthEvent::Waiting,
        health_step(s, reading).0.code == reading,
        health_step(s, reading).0.code_before == s.code,
        health_step(health_step(s, reading).0, reading).1 == HealthEvent::Notify,
        health_step(health_step(s, reading).0, reading).0.code == reading,
        health_step(health_step(s, reading).0, reading).0.code_before == reading,
{
}

/// Every check moves the latest code to the place of the code before, unless
/// that check confirmed or corrected the state (then both codes are the code
/// just read).
pub proof fn lemma_step_shifts_codes(s: HealthMonitor, reading: i32)
    ensures
        health_step(s, reading).0.code == reading,
        health_step(s, reading).0.code_before == s.code || health_step(s, reading).0.code_before
            == reading,
        health_step(s, reading).1 == HealthEvent::Waiting ==> health_step(s, reading).0.code_before
            == s.code && reading != s.code,
{
}

/// While the code stays as it was, nothing is reported and the state holds.
pub proof fn lemma_steady_is_quiet(s: HealthMonitor, code: i32)
    requires
        settled(s, code),
    ensures
        health_step(s, code) == (s, HealthEvent::NoChange),
{
}

/// A single deviating check is taken for a false positive: no report, and the
/// state is settled on the old code again.
pub proof fn lemma_blip_is_ignored(s: HealthMonitor, code: i32, blip: i32)
    requires
        settled(s, code),
        blip != code,
    ensures
        health_step(s, blip).1 == HealthEvent::Waiting,
        health_step(health_step(s, blip).0, code).1 == HealthEvent::FalsePositive,
        settled(health_step(health_step(s, blip).0, code).0, code),
{
}

/// A lasting change is reported exactly once, at the second check that reads
/// it; after that the state is settled on the new code and stays quiet.
pub proof fn lemma_change_reported_once(s: HealthMonitor, code: i32, new_code: i32)
    requires
        settled(s, code),
        new_code != code,
    ensures
        health_step(s, new_code).1 == HealthEvent::Waiting,
        health_step(health_step(s, new_code).0, new_code).1 == HealthEvent::Notify,
        settled(health_step(health_step(s, new_code).0, new_code).0, new_code),
        health_step(health_step(health_step(s, new_code).0, new_code).0, new_code).1
            == HealthEvent::NoChange,
{
}

/// What each check of a run leads to, from state `s`, when the checks read
/// `readings` in turn.
pub open spec fn health_run(s: HealthMonitor, readings: Seq<i32>) -> Seq<HealthEvent>
    decreases readings.len(),
{
    if readings.len() == 0 {
        Seq::empty()
    } else {
        let (next, event) = health_step(s, readings[0]);
        seq![event] + health_run(next, readings.drop_first())
    }
}

proof fn lemma_health_run_len(s: HealthMonitor, readings: Seq<i32>)
    ensures
        health_run(s, readings).len() == readings.len(),
    decreases readings.len(),
{
    if readings.len() > 0 {
        lemma_health_run_len(health_step(s, readings[0]).0, readings.drop_first());
    }
}

/// In a run from any state, a report is posted at a check only when that
/// check read the same code as the check before it (or, at the first check,
/// as the state's latest code, which differs from the one before).
pub proof fn lemma_run_reports_repeated_codes(s: HealthMonitor, readings: Seq<i32>, t: int)
    requires
        0 <= t < readings.len(),
        health_run(s, readings)[t] == HealthEvent::Notify,
    ensures
        t == 0 ==> readings[0] == s.code && s.code != s.code_before,
        t >= 1 ==> readings[t] == readings[t - 1],
    decreases readings.len(),
{
    let (next, event) = health_step(s, readings[0]);
    let tail = readings.drop_first();
    lemma_health_run_len(s, readings);
    lemma_health_run_len(next, tail);
    assert(health_run(s, readings) =~= seq![event] + health_run(next, tail));
    if t >= 1 {
        assert(health_run(next, tail)[t - 1] == HealthEvent::Notify);
        lemma_run_reports_repeated_codes(next, tail, t - 1);
        if t == 1 {
            assert(next.code == readings[0]);
        } else {
            assert(tail[t - 2] == readings[t - 1]);
        }
    }
}

/// In a run from a settled state, such as the starting one, a report is
/// posted only at a later check that read the same code as the check before.
pub proof fn lemma_settled_run_reports_repeated_codes(
    s: HealthMonitor,
    code: i32,
    readings: Seq<i32>,
    t: int,
)
    requires
        settled(s, code),
        0 <= t < readings.len(),
        health_run(s, readings)[t] == HealthEvent::Notify,
    ensures
        t >= 1,
        readings[t] == readings[t - 1],
{
    lemma_run_reports_repeated_codes(s, readings, t);
}

/// The starting state is settled on the code of a report in which every
/// service is up, and only on that code.
pub proof fn lemma_start_means_all_up(service_count: nat, oks: Seq<bool>)
    requires
        oks.len() == service_count,
    ensures
        health_code(oks) == two_pow(service_count) - 1 <==> all_up(oks),
{
    lemma_health_code_range(oks);
}

} // verus!
