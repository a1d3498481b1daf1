//! The time-triggered check-in scheduler: from a user-supplied time of day
//! and a clock reading to a wait-then-fire plan, and the re-resolution of
//! the schedule to act on once the deadline arrives.

use vstd::prelude::*;

use crate::clock::ClockTime;
use crate::clock::parse_time_of_day;
use crate::clock::text_hour;
use crate::clock::text_minute;
use crate::clock::valid_time_text;
use crate::clock::now_clock_utc8;
use crate::errors::IClassError;

verus! {

/// The fixed safety margin added to the wait, biasing the firing moment to
/// slightly after, never before, the nominal deadline.
pub const MARGIN_SECONDS: i64 = 5;

/// One time-bound session instance of a course, as a remote schedule query
/// reports it. Never persisted; the list a query returns is ordered by the
/// remote service with the most relevant entry last.
#[derive(Debug, Clone, PartialEq, Eq)]
pub struct Schedule {
    pub id: String,
    pub name: String,
}

/// What the timed check-in path decided at invocation time.
#[derive(Debug, PartialEq, Eq)]
pub enum TimedCheckin {
    /// The course id or the time text was absent, so the timed path does
    /// nothing at all (a deliberately preserved validation gap: no error
    /// is reported either).
    NotRequested,
    /// The deadline plus margin was already past at invocation: no wait,
    /// no query and no check-in happen; a missed deadline is never caught
    /// up.
    Skip,
    /// Wait exactly this many seconds, then re-resolve the course's
    /// schedules and fire the check-in.
    Wait { seconds: u64, course_id: String },
}

/// Seconds from the clock reading to the nominal deadline named by a valid
/// time text, plus the fixed margin. Negative when the deadline is past.
pub open spec fn spec_remaining(time: Seq<char>, now: ClockTime) -> int {
    text_hour(time) * 3600 + text_minute(time) * 60 - now.spec_second_of_day() + MARGIN_SECONDS
}

/// The full decision contract of the timed check-in planner, for one clock
/// reading: absent inputs plan nothing, a malformed or out-of-range time
/// text is the validation error, a past deadline is skipped, and a future
/// one waits out exactly the remaining seconds for the given course.
pub open spec fn timed_plan_matches(
    course: Option<Seq<char>>,
    time: Option<Seq<char>>,
    now: ClockTime,
    r: Result<TimedCheckin, IClassError>,
) -> bool {
    if course is None || time is None {
        r == Ok::<TimedCheckin, IClassError>(TimedCheckin::NotRequested)
    } else if !valid_time_text(time->0) {
        r == Err::<TimedCheckin, IClassError>(IClassError::InvalidTime)
    } else if spec_remaining(time->0, now) <= 0 {
        r == Ok::<TimedCheckin, IClassError>(TimedCheckin::Skip)
    } else {
        r matches Ok(TimedCheckin::Wait { seconds, course_id }) && seconds == spec_remaining(
            time->0,
            now,
        ) && course_id@ == course->0
    }
}

/// The view of an optionally supplied text argument.
pub open spec fn opt_view(o: Option<String>) -> Option<Seq<char>> {
    match o {
        Some(s) => Some(s@),
        None => None,
    }
}

/// Plans the timed check-in for the given clock reading.
pub fn plan_timed_checkin(course: &Option<String>, time: &Option<String>, now: &ClockTime) -> (r:
    Result<TimedCheckin, IClassError>)
    requires
        now.wf(),
    ensures
        timed_plan_matches(opt_view(*course), opt_view(*time), *now, r),
{
    let course_id = match course {
        Some(c) => c,
        None => {
            return Ok(TimedCheckin::NotRequested);
        },
    };
    let time_text = match time {
        Some(t) => t,
        None => {
            return Ok(TimedCheckin::NotRequested);
        },
    };
    let target = match parse_time_of_day(time_text.as_str()) {
        Ok(t) => t,
        Err(e) => {
            return Err(e);
        },
    };
    let remaining: i64 = (target.second_of_day() as i64) - (now.second_of_day() as i64)
        + MARGIN_SECONDS;
    if remaining <= 0 {
        Ok(TimedCheckin::Skip)
    } else {
        Ok(TimedCheckin::Wait { seconds: remaining as u64, course_id: course_id.clone() })
    }
}

/// Plans the timed check-in against the clock, reading the current time in
/// the fixed UTC+8 offset. Whatever instant the clock reports, the plan
/// follows the decision contract for that reading; the clauses below it
/// hold of every reading.
pub fn plan_timed_checkin_now(course: &Option<String>, time: &Option<String>) -> (r: Result<
    TimedCheckin,
    IClassError,
>)
    ensures
        exists|now: ClockTime|
            now.wf() && #[trigger] timed_plan_matches(opt_view(*course), opt_view(*time), now, r),
        (course is None || time is None) ==> r == Ok::<TimedCheckin, IClassError>(
            TimedCheckin::NotRequested,
        ),
        (course is Some && time is Some && !valid_time_text((time->0)@)) ==> r == Err::<
            TimedCheckin,
            IClassError,
        >(IClassError::InvalidTime),
        (course is Some && time is Some && valid_time_text((time->0)@)) ==> (r matches Ok(p) && (
        p is Skip || (p matches TimedCheckin::Wait { seconds, course_id } && 0 < seconds <= 86345
            && course_id@ == (course->0)@))),
{
    let now = now_clock_utc8();
    plan_timed_checkin(course, time, &now)
}

/// Picks the schedule to act on out of a fresh query result: the last
/// entry of the returned order, the most temporally relevant one. An empty
/// list is the distinct "no schedule at the deadline" query error.
pub fn resolve_schedule(schedules: &Vec<Schedule>) -> (r: Result<&Schedule, IClassError>)
    ensures
        schedules@.len() == 0 ==> r == Err::<&Schedule, IClassError>(
            IClassError::NoScheduleAtDeadline,
        ),
        schedules@.len() > 0 ==> (r matches Ok(s) && *s == schedules@.last()),
{
    if schedules.len() == 0 {
        Err(IClassError::NoScheduleAtDeadline)
    } else {
        Ok(&schedules[schedules.len() - 1])
    }
}

/// The whole re-resolution step at the deadline: from the fresh schedule
/// query's outcome to the schedule id to fire at. A failed query becomes
/// the query error carrying the reported text; an empty list is the
/// distinct "no schedule at the deadline" error; otherwise the id of the
/// last, most relevant entry is the one to act on.
pub fn resolve_at_deadline(fetched: Result<Vec<Schedule>, String>) -> (r: Result<
    String,
    IClassError,
>)
    ensures
        fetched matches Err(m) ==> (r matches Err(IClassError::Query { message }) && message
            == m),
        fetched matches Ok(list) ==> {
            &&& list@.len() == 0 ==> r == Err::<String, IClassError>(
                IClassError::NoScheduleAtDeadline,
            )
            &&& list@.len() > 0 ==> (r matches Ok(id) && id@ == list@.last().id@)
        },
{
    match fetched {
        Err(m) => Err(IClassError::Query { message: m }),
        Ok(list) => {
            match resolve_schedule(&list) {
                Ok(s) => Ok(s.id.clone()),
                Err(e) => Err(e),
            }
        },
    }
}

/// Law: when the deadline plus its margin is already past at invocation,
/// the timed check-in plan is exactly the skip plan: no wait, no schedule
/// query and no check-in are planned at all.
pub proof fn lemma_past_deadline_skips(
    course: Option<Seq<char>>,
    time: Option<Seq<char>>,
    now: ClockTime,
    r: Result<TimedCheckin, IClassError>,
)
    requires
        course is Some,
        time is Some,
        valid_time_text(time->0),
        spec_remaining(time->0, now) <= 0,
        timed_plan_matches(course, time, now, r),
    ensures
        r == Ok::<TimedCheckin, IClassError>(TimedCheckin::Skip),
{
}

} // verus!
