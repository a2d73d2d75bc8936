use rustime::cron_eval::{cron_matches, next_run, CronError};
use rustime::health::{decimal_string, http_verdict, HttpOutcome};
use rustime::model::{Job, JobType, Method, NewJob, Schedule};
use rustime::scheduler::{plan_job, reconcile, status_after_check, JobPlan, Scheduler};
use rustime::status::{apply_status_write, status_update};

fn ts(y: i32, mo: u32, d: u32, h: u32, mi: u32, s: u32) -> i64 {
    chrono::NaiveDate::from_ymd_opt(y, mo, d)
        .unwrap()
        .and_hms_opt(h, mi, s)
        .unwrap()
        .and_utc()
        .timestamp()
}

fn schedule(id: i32, cron: &str, enabled: bool, is_up: bool, down_reason: Option<&str>) -> Schedule {
    Schedule {
        id,
        name: format!("target {}", id),
        cron: cron.to_string(),
        enabled,
        target: "https://ok.example".to_string(),
        method: Method::GET,
        is_up,
        last_down: None,
        down_reason: down_reason.map(|r| r.to_string()),
        created_at: ts(2023, 6, 1, 0, 0, 0),
    }
}

fn job(id: u64, linked_id: Option<i32>, run_at: i64) -> Job {
    Job { id, job_type: JobType::Monitoring, linked_id, run_at }
}

#[test]
fn next_run_top_of_hour() {
    let now = ts(2024, 1, 1, 10, 15, 0);
    assert_eq!(now, 1704104100);
    assert_eq!(next_run("0 0 * * * *", now), Ok(ts(2024, 1, 1, 11, 0, 0)));
}

#[test]
fn next_run_is_strictly_later() {
    let now = ts(2024, 1, 1, 11, 0, 0);
    assert_eq!(next_run("0 0 * * * *", now), Ok(ts(2024, 1, 1, 12, 0, 0)));
    assert_eq!(next_run("*/5 * * * * *", now), Ok(now + 5));
}

#[test]
fn next_run_satisfies_expression() {
    let now = ts(2024, 3, 7, 8, 41, 13);
    for expr in ["0 0 * * * *", "*/5 * * * * *", "0 30 9 * * Mon-Fri", "@daily"] {
        let x = next_run(expr, now).unwrap();
        assert!(x > now);
        assert_eq!(cron_matches(expr, x), Ok(true));
    }
    assert_eq!(cron_matches("0 0 * * * *", now), Ok(false));
}

#[test]
fn next_run_rejects_malformed_expression() {
    assert_eq!(next_run("every hour", 0), Err(CronError::InvalidCronExpression));
    assert_eq!(cron_matches("every hour", 0), Err(CronError::InvalidCronExpression));
}

#[test]
fn next_run_reports_no_upcoming_occurrence() {
    let now = ts(2024, 1, 1, 0, 0, 0);
    assert_eq!(next_run("0 0 0 1 1 * 1999", now), Err(CronError::NoUpcomingOccurrence));
}

#[test]
fn verdict_success_is_up() {
    assert_eq!(http_verdict(&HttpOutcome::Response(200)), (true, None));
    assert_eq!(http_verdict(&HttpOutcome::Response(204)), (true, None));
    assert_eq!(http_verdict(&HttpOutcome::Response(299)), (true, None));
}

#[test]
fn verdict_failure_status_has_reason() {
    assert_eq!(
        http_verdict(&HttpOutcome::Response(503)),
        (false, Some("503 Service Unavailable".to_string()))
    );
    assert_eq!(
        http_verdict(&HttpOutcome::Response(301)),
        (false, Some("301 Moved Permanently".to_string()))
    );
    assert_eq!(
        http_verdict(&HttpOutcome::Response(599)),
        (false, Some("599 Unknown".to_string()))
    );
}

#[test]
fn verdict_transport_and_build_failures() {
    assert_eq!(
        http_verdict(&HttpOutcome::SendFailed("timed out".to_string())),
        (false, Some("Could not execute request: timed out".to_string()))
    );
    assert_eq!(
        http_verdict(&HttpOutcome::BuildFailed("bad url".to_string())),
        (false, Some("Could not build request: bad url".to_string()))
    );
}

#[test]
fn decimal_digits() {
    assert_eq!(decimal_string(0), "0");
    assert_eq!(decimal_string(7), "7");
    assert_eq!(decimal_string(404), "404");
    assert_eq!(decimal_string(65535), "65535");
}

#[test]
fn same_down_reason_is_not_rewritten() {
    let s = schedule(1, "0 0 * * * *", true, false, Some("R1"));
    assert!(status_update(&s, false, Some("R1".to_string())).is_none());
}

#[test]
fn new_down_reason_changes_only_reason() {
    let mut s = schedule(1, "0 0 * * * *", true, false, Some("R1"));
    s.last_down = Some(ts(2024, 1, 1, 9, 0, 0));
    let w = status_update(&s, false, Some("R2".to_string())).unwrap();
    assert!(!w.is_up);
    assert_eq!(w.down_reason, Some("R2".to_string()));
    assert!(!w.touch_last_down);
    let after = apply_status_write(&s, &w, ts(2024, 1, 1, 10, 0, 0));
    assert!(!after.is_up);
    assert_eq!(after.down_reason, Some("R2".to_string()));
    assert_eq!(after.last_down, Some(ts(2024, 1, 1, 9, 0, 0)));
    assert_eq!(after.name, s.name);
    assert_eq!(after.target, s.target);
}

#[test]
fn up_verdict_on_up_schedule_writes_nothing() {
    let s = schedule(1, "0 0 * * * *", true, true, None);
    assert!(status_update(&s, true, None).is_none());
}

#[test]
fn missing_reason_is_recorded_as_unknown() {
    let s = schedule(1, "0 0 * * * *", true, true, None);
    let w = status_update(&s, false, None).unwrap();
    assert_eq!(w.down_reason, Some("Unknown".to_string()));
    assert!(w.touch_last_down);
}

#[test]
fn recovery_clears_reason() {
    let s = schedule(1, "0 0 * * * *", true, false, Some("503 Service Unavailable"));
    let w = status_update(&s, true, None).unwrap();
    assert!(w.is_up);
    assert_eq!(w.down_reason, None);
    assert!(!w.touch_last_down);
    let after = apply_status_write(&s, &w, 100);
    assert!(after.is_up);
    assert_eq!(after.down_reason, None);
    assert_eq!(after.last_down, None);
}

#[test]
fn scenario_up_target_stays_up() {
    let s = schedule(1, "*/5 * * * *", true, true, None);
    assert!(status_after_check(&s, &HttpOutcome::Response(200)).is_none());
}

#[test]
fn scenario_target_goes_down() {
    let s = schedule(1, "*/5 * * * *", true, true, None);
    let checked_at = ts(2024, 1, 1, 10, 15, 0);
    let w = status_after_check(&s, &HttpOutcome::Response(503)).unwrap();
    let after = apply_status_write(&s, &w, checked_at);
    assert!(!after.is_up);
    assert_eq!(after.down_reason, Some("503 Service Unavailable".to_string()));
    assert_eq!(after.last_down, Some(checked_at));
}

#[test]
fn scenario_reconcile_at_quarter_past() {
    let now = ts(2024, 1, 1, 10, 15, 0);
    let schedules = vec![schedule(3, "0 0 * * * *", true, true, None)];
    let jobs = reconcile(&schedules, &vec![], now);
    assert_eq!(
        jobs,
        vec![NewJob { job_type: JobType::Monitoring, run_at: ts(2024, 1, 1, 11, 0, 0), linked_id: Some(3) }]
    );
}

#[test]
fn reconcile_skips_disabled_linked_and_invalid() {
    let now = ts(2024, 1, 1, 10, 15, 0);
    let schedules = vec![
        schedule(1, "0 0 * * * *", false, true, None),
        schedule(2, "0 0 * * * *", true, true, None),
        schedule(3, "not cron", true, true, None),
        schedule(4, "0 30 * * * *", true, true, None),
        schedule(5, "0 0 0 1 1 * 1999", true, true, None),
    ];
    let jobs = reconcile(&schedules, &vec![2], now);
    assert_eq!(
        jobs,
        vec![NewJob { job_type: JobType::Monitoring, run_at: ts(2024, 1, 1, 10, 30, 0), linked_id: Some(4) }]
    );
}

#[test]
fn claimed_job_is_not_processed_again() {
    let mut sched = Scheduler::new();
    let first = vec![job(1, Some(1), 10), job(2, Some(2), 20), job(1, Some(1), 10)];
    assert_eq!(sched.claim(&first), vec![job(1, Some(1), 10), job(2, Some(2), 20)]);
    assert!(sched.has_claimed(1));
    assert!(!sched.has_claimed(3));
    let second = vec![job(2, Some(2), 20), job(3, Some(1), 30)];
    assert_eq!(sched.claim(&second), vec![job(3, Some(1), 30)]);
    assert_eq!(sched.claim(&second), vec![]);
}

#[test]
fn scenario_job_without_schedule_is_abandoned() {
    let now = ts(2024, 1, 1, 10, 15, 0);
    assert!(matches!(plan_job(&job(9, Some(42), now), None, now), JobPlan::Abandon));
    assert!(matches!(plan_job(&job(9, None, now), None, now), JobPlan::Abandon));
    let other = schedule(7, "0 0 * * * *", true, true, None);
    assert!(matches!(plan_job(&job(9, Some(42), now), Some(&other), now), JobPlan::Abandon));
}

#[test]
fn plan_checks_and_schedules_next_occurrence() {
    let now = ts(2024, 1, 1, 10, 15, 0);
    let s = schedule(7, "0 0 * * * *", true, true, None);
    match plan_job(&job(9, Some(7), now), Some(&s), now) {
        JobPlan::Check { schedule_id, target, method, next } => {
            assert_eq!(schedule_id, 7);
            assert_eq!(target, "https://ok.example");
            assert_eq!(method, Method::GET);
            assert_eq!(
                next,
                Some(NewJob { job_type: JobType::Monitoring, run_at: ts(2024, 1, 1, 11, 0, 0), linked_id: Some(7) })
            );
        }
        JobPlan::Abandon => panic!("schedule 7 exists"),
    }
    let disabled = schedule(7, "0 0 * * * *", false, true, None);
    match plan_job(&job(9, Some(7), now), Some(&disabled), now) {
        JobPlan::Check { next, .. } => assert_eq!(next, None),
        JobPlan::Abandon => panic!("schedule 7 exists"),
    }
}

#[test]
fn stored_codes_round_trip() {
    for m in [Method::HEAD, Method::GET, Method::POST] {
        assert_eq!(Method::from_code(m.code()), Some(m));
    }
    assert_eq!(Method::GET.code(), 2);
    assert_eq!(Method::from_code(0), None);
    assert_eq!(Method::from_code(4), None);
    assert_eq!(Method::POST.as_str(), "POST");
    assert_eq!(JobType::Monitoring.code(), 1);
    assert_eq!(JobType::from_code(1), Some(JobType::Monitoring));
    assert_eq!(JobType::from_code(2), None);
}
