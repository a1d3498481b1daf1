use iclass_cli::clock::ClockTime;
use iclass_cli::errors::IClassError;
use iclass_cli::scheduler::plan_timed_checkin;
use iclass_cli::scheduler::plan_timed_checkin_now;
use iclass_cli::scheduler::resolve_at_deadline;
use iclass_cli::scheduler::resolve_schedule;
use iclass_cli::scheduler::Schedule;
use iclass_cli::scheduler::TimedCheckin;

fn sched(id: &str, name: &str) -> Schedule {
    Schedule { id: id.to_string(), name: name.to_string() }
}

#[test]
fn ten_seconds_early_waits_fifteen() {
    let now = ClockTime { hour: 7, minute: 59, second: 50 };
    let plan = plan_timed_checkin(&Some("C1".to_string()), &Some("0800".to_string()), &now);
    assert_eq!(
        plan,
        Ok(TimedCheckin::Wait { seconds: 15, course_id: "C1".to_string() })
    );
}

#[test]
fn ten_seconds_late_skips() {
    let now = ClockTime { hour: 8, minute: 0, second: 10 };
    let plan = plan_timed_checkin(&Some("C1".to_string()), &Some("0800".to_string()), &now);
    assert_eq!(plan, Ok(TimedCheckin::Skip));
}

#[test]
fn five_seconds_late_is_the_boundary() {
    // remaining = -5 + 5 = 0: not strictly in the future, so skipped.
    let at_margin = ClockTime { hour: 8, minute: 0, second: 5 };
    let plan = plan_timed_checkin(&Some("C1".to_string()), &Some("0800".to_string()), &at_margin);
    assert_eq!(plan, Ok(TimedCheckin::Skip));

    // one second earlier the wait is exactly one second long.
    let just_before = ClockTime { hour: 8, minute: 0, second: 4 };
    let plan2 = plan_timed_checkin(
        &Some("C1".to_string()),
        &Some("0800".to_string()),
        &just_before,
    );
    assert_eq!(
        plan2,
        Ok(TimedCheckin::Wait { seconds: 1, course_id: "C1".to_string() })
    );
}

#[test]
fn course_without_time_plans_nothing() {
    let now = ClockTime { hour: 7, minute: 0, second: 0 };
    let plan = plan_timed_checkin(&Some("C1".to_string()), &None, &now);
    assert_eq!(plan, Ok(TimedCheckin::NotRequested));
}

#[test]
fn time_without_course_plans_nothing() {
    let now = ClockTime { hour: 7, minute: 0, second: 0 };
    let plan = plan_timed_checkin(&None, &Some("0800".to_string()), &now);
    assert_eq!(plan, Ok(TimedCheckin::NotRequested));
}

#[test]
fn malformed_time_is_a_validation_error() {
    let now = ClockTime { hour: 7, minute: 0, second: 0 };
    let plan = plan_timed_checkin(&Some("C1".to_string()), &Some("8am".to_string()), &now);
    assert_eq!(plan, Err(IClassError::InvalidTime));
}

#[test]
fn plan_against_the_clock_rejects_malformed_time() {
    let plan = plan_timed_checkin_now(&Some("C1".to_string()), &Some("9960".to_string()));
    assert_eq!(plan, Err(IClassError::InvalidTime));
}

#[test]
fn plan_against_the_clock_without_course_plans_nothing() {
    let plan = plan_timed_checkin_now(&None, &Some("0800".to_string()));
    assert_eq!(plan, Ok(TimedCheckin::NotRequested));
}

#[test]
fn plan_against_the_clock_is_skip_or_bounded_wait() {
    // Whatever the clock reads, a valid request either skips or waits a
    // bounded stretch for the requested course.
    let plan = plan_timed_checkin_now(&Some("C1".to_string()), &Some("1200".to_string()));
    match plan.unwrap() {
        TimedCheckin::Skip => {}
        TimedCheckin::Wait { seconds, course_id } => {
            assert!(seconds > 0);
            assert!(seconds <= 86345);
            assert_eq!(course_id, "C1".to_string());
        }
        TimedCheckin::NotRequested => panic!("both arguments were supplied"),
    }
}

#[test]
fn resolve_picks_the_last_schedule() {
    let list = vec![sched("S1", "early"), sched("S2", "late")];
    let picked = resolve_schedule(&list).unwrap();
    assert_eq!(picked.id, "S2".to_string());
}

#[test]
fn resolve_of_empty_list_is_the_deadline_error() {
    let list: Vec<Schedule> = Vec::new();
    assert_eq!(
        resolve_schedule(&list).unwrap_err(),
        IClassError::NoScheduleAtDeadline
    );
}

#[test]
fn deadline_resolution_fires_at_the_last_entry() {
    let list = vec![sched("S1", "early"), sched("S2", "mid"), sched("S3", "late")];
    let id = resolve_at_deadline(Ok(list)).unwrap();
    assert_eq!(id, "S3".to_string());
}

#[test]
fn deadline_resolution_reports_a_failed_query() {
    let r = resolve_at_deadline(Err("net down".to_string()));
    assert_eq!(r, Err(IClassError::Query { message: "net down".to_string() }));
}

#[test]
fn deadline_resolution_of_empty_result() {
    let r = resolve_at_deadline(Ok(Vec::new()));
    assert_eq!(r, Err(IClassError::NoScheduleAtDeadline));
}
