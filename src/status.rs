use vstd::prelude::*;
use vstd::string::*;
use crate::model::{opt_view, Schedule, ScheduleView};

verus! {

/// One write of a schedule's status: the new `is_up` and `down_reason`, and whether
/// `last_down` is set to the time of the write.
#[derive(Clone, Debug)]
pub struct StatusWrite {
    pub is_up: bool,
    pub down_reason: Option<String>,
    pub touch_last_down: bool,
}

pub struct StatusWriteView {
    pub is_up: bool,
    pub down_reason: Option<Seq<char>>,
    pub touch_last_down: bool,
}

impl View for StatusWrite {
    type V = StatusWriteView;

    open spec fn view(&self) -> StatusWriteView {
        StatusWriteView {
            is_up: self.is_up,
            down_reason: opt_view(self.down_reason),
            touch_last_down: self.touch_last_down,
        }
    }
}

/// The down reason to store: the reason that came with the check, or "Unknown" when none came.
pub open spec fn recorded_reason(reason: Option<Seq<char>>) -> Seq<char> {
    match reason {
        Some(r) => r,
        None => "Unknown"@,
    }
}

/// The write a verdict calls for, if any.
/// A change of `is_up` is written; going down also sets `last_down` and the reason,
/// going up clears the reason. A schedule that stays down gets its reason rewritten
/// only when the reason changed; one that stays up is left alone.
pub open spec fn planned_write(s: ScheduleView, is_up: bool, reason: Option<Seq<char>>) -> Option<
    StatusWriteView,
> {
    if is_up != s.is_up {
        if is_up {
            Some(StatusWriteView { is_up: true, down_reason: None, touch_last_down: false })
        } else {
            Some(
                StatusWriteView {
                    is_up: false,
                    down_reason: Some(recorded_reason(reason)),
                    touch_last_down: true,
                },
            )
        }
    } else if !is_up && s.down_reason != Some(recorded_reason(reason)) {
        Some(
            StatusWriteView {
                is_up: false,
                down_reason: Some(recorded_reason(reason)),
                touch_last_down: false,
            },
        )
    } else {
        None
    }
}

/// A schedule after a status write made at `now`.
pub open spec fn written(s: ScheduleView, w: StatusWriteView, now: i64) -> ScheduleView {
    ScheduleView {
        id: s.id,
        name: s.name,
        cron: s.cron,
        enabled: s.enabled,
        target: s.target,
        method: s.method,
        is_up: w.is_up,
        last_down: if w.touch_last_down {
            Some(now)
        } else {
            s.last_down
        },
        down_reason: w.down_reason,
        created_at: s.created_at,
    }
}

pub open spec fn opt_write_view(o: Option<StatusWrite>) -> Option<StatusWriteView> {
    match o {
        Some(w) => Some(w@),
        None => None,
    }
}

fn reason_or_unknown(reason: Option<String>) -> (r: String)
    ensures
        r@ == recorded_reason(opt_view(reason)),
{
    match reason {
        Some(r) => r,
        None => String::from_str("Unknown"),
    }
}

fn same_reason(stored: &Option<String>, r: &String) -> (b: bool)
    ensures
        b == (opt_view(*stored) == Some(r@)),
{
    match stored {
        Some(s) => *s == *r,
        None => false,
    }
}

/// Decides what to write for a check's verdict on a schedule, debouncing repeats.
pub fn status_update(schedule: &Schedule, is_up: bool, reason: Option<String>) -> (r: Option<
    StatusWrite,
>)
    ensures
        opt_write_view(r) == planned_write(schedule@, is_up, opt_view(reason)),
{
    if is_up != schedule.is_up {
        if is_up {
            Some(StatusWrite { is_up: true, down_reason: None, touch_last_down: false })
        } else {
            Some(
                StatusWrite {
                    is_up: false,
                    down_reason: Some(reason_or_unknown(reason)),
                    touch_last_down: true,
                },
            )
        }
    } else if !is_up {
        let r = reason_or_unknown(reason);
        if same_reason(&schedule.down_reason, &r) {
            None
        } else {
            Some(StatusWrite { is_up: false, down_reason: Some(r), touch_last_down: false })
        }
    } else {
        None
    }
}

/// The schedule as the store holds it after `w` was written at `now`.
pub fn apply_status_write(schedule: &Schedule, w: &StatusWrite, now: i64) -> (r: Schedule)
    ensures
        r@ == written(schedule@, w@, now),
{
    let mut r = schedule.copy();
    r.is_up = w.is_up;
    r.down_reason = crate::model::clone_opt_string(&w.down_reason);
    if w.touch_last_down {
        r.last_down = Some(now);
    }
    r
}

/// A schedule that is down with some reason gets no write when the same reason comes
/// again, and exactly one write, changing only `down_reason`, when another reason comes.
pub proof fn lemma_down_reason_debounced(
    s: ScheduleView,
    r1: Seq<char>,
    r2: Seq<char>,
    now: i64,
)
    requires
        !s.is_up,
        s.down_reason == Some(r1),
        r1 != r2,
    ensures
        planned_write(s, false, Some(r1)) is None,
        planned_write(s, false, Some(r2)) is Some,
        written(s, planned_write(s, false, Some(r2))->0, now) == (ScheduleView {
            down_reason: Some(r2),
            ..s
        }),
{
}

/// A schedule that is up gets no write from an up verdict, whatever reason comes with it.
pub proof fn lemma_up_stays_quiet(s: ScheduleView, reason: Option<Seq<char>>)
    requires
        s.is_up,
    ensures
        planned_write(s, true, reason) is None,
{
}

} // verus!
