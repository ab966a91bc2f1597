use vstd::prelude::*;
use crate::session::{span, Session};

verus! {

/// One of the two operations that only stop and start the clock.
pub enum Toggle {
    Pause,
    /// A resume on an output that still has audio queued.
    Resume,
}

/// A toggle and the instant at which it happens.
pub struct Step {
    pub toggle: Toggle,
    pub at: u64,
}

impl Session {
    /// The session after one step.
    pub open spec fn step(self, step: Step) -> Session {
        match step.toggle {
            Toggle::Pause => self.pause(step.at),
            Toggle::Resume => self.resume(step.at),
        }
    }

    /// The session after the steps, taken in order.
    pub open spec fn run(self, steps: Seq<Step>) -> Session
        decreases steps.len(),
    {
        if steps.len() == 0 {
            self
        } else {
            self.step(steps[0]).run(steps.drop_first())
        }
    }

    /// No resume among the steps comes while the clock has been running
    /// since an earlier instant.
    pub open spec fn no_restart(self, steps: Seq<Step>) -> bool
        decreases steps.len(),
    {
        if steps.len() == 0 {
            true
        } else {
            &&& (steps[0].toggle is Resume && self.playback_start is Some)
                ==> self.playback_start->0 >= steps[0].at
            &&& self.step(steps[0]).no_restart(steps.drop_first())
        }
    }
}

/// The instants of the steps do not go back: none is before `from`, none is
/// before the one ahead of it, and `until` is not before the last.
pub open spec fn in_order(from: u64, steps: Seq<Step>, until: u64) -> bool
    decreases steps.len(),
{
    if steps.len() == 0 {
        from <= until
    } else {
        from <= steps[0].at && in_order(steps[0].at, steps.drop_first(), until)
    }
}

/// The time spent unpaused up to `until`: the clock is running since `since`
/// if that is present; a pause stops it, and a resume starts it where an
/// output is held (`live`).
pub open spec fn unpaused(live: bool, since: Option<u64>, steps: Seq<Step>, until: u64) -> nat
    decreases steps.len(),
{
    if steps.len() == 0 {
        match since {
            Some(start) => span(start, until),
            None => 0,
        }
    } else {
        let ran = match since {
            Some(start) => span(start, steps[0].at),
            None => 0,
        };
        let next = match steps[0].toggle {
            Toggle::Pause => None,
            Toggle::Resume => if live {
                Some(steps[0].at)
            } else {
                since
            },
        };
        ran + unpaused(live, next, steps.drop_first(), until)
    }
}

/// Over any pauses and resumes without a seek, the position grows by
/// exactly the time spent unpaused.
///
/// Left out are the runs in which a resume comes while the clock has been
/// running since an earlier instant: such a resume restarts the clock and
/// drops the time since that instant.
pub proof fn position_counts_unpaused_time(s: Session, steps: Seq<Step>, until: u64)
    requires
        s.playback_start is Some ==> s.sink is Some,
        s.no_restart(steps),
    ensures
        s.run(steps).elapsed_at(until) == s.paused_elapsed + unpaused(
            s.sink is Some,
            s.playback_start,
            steps,
            until,
        ),
    decreases steps.len(),
{
    if steps.len() > 0 {
        position_counts_unpaused_time(s.step(steps[0]), steps.drop_first(), until);
    }
}

/// Over any pauses and resumes without a seek, at instants that do not go
/// back, the position never decreases: what a query finds at `until`, after
/// the steps, is at least what one found at `from`, before them.
///
/// Left out are the runs in which a resume comes while the clock has been
/// running since an earlier instant.
pub proof fn position_never_decreases(s: Session, from: u64, steps: Seq<Step>, until: u64)
    requires
        s.playback_start is Some ==> s.sink is Some,
        s.no_restart(steps),
        in_order(from, steps, until),
    ensures
        s.elapsed_at(from) <= s.run(steps).elapsed_at(until),
    decreases steps.len(),
{
    if steps.len() > 0 {
        let next = s.step(steps[0]);
        position_never_decreases(next, steps[0].at, steps.drop_first(), until);
    }
}

} // verus!
