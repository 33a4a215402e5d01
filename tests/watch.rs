use actions_watch::{
    advance, all_terminal, classify_display_category, color_identity_name,
    elapsed_between, get_jobs_list_string, get_seconds_elapsed, get_steps_list_string,
    jobs_line_segments, paint, parse_timestamp, progress_frame, render_segments,
    select_current_job, steps_block_segments, Category, Conclusion, DriverState, Identity, Job,
    Outcome, PollAction, PollEvent, Run, Segment, Status, Step, TimeError, TimeStat, Timestamp,
    Tone,
};

fn ident(name: &str, status: Status, conclusion: Option<Conclusion>) -> Identity {
    Identity { name: name.to_string(), status, conclusion }
}

fn span(start: &str, end: Option<&str>) -> TimeStat {
    TimeStat { started_at: start.to_string(), completed_at: end.map(|e| e.to_string()) }
}

const T0: &str = "2024-03-01T12:00:00Z";

fn at(secs_after: i64) -> Timestamp {
    let t = parse_timestamp(T0).unwrap();
    Timestamp { secs: t.secs + secs_after, nanos: t.nanos }
}

fn job(name: &str, status: Status, conclusion: Option<Conclusion>) -> Job {
    Job { identity: ident(name, status, conclusion), time_stat: span(T0, None), steps: vec![] }
}

fn texts(segs: &[Segment]) -> Vec<(String, Tone)> {
    segs.iter().map(|s| (s.text.clone(), s.tone)).collect()
}

fn seg(t: &str, tone: Tone) -> (String, Tone) {
    (t.to_string(), tone)
}

#[test]
fn category_ignores_conclusion_below_completed() {
    for c in [None, Some(Conclusion::Failed), Some(Conclusion::Success), Some(Conclusion::Neutral)] {
        assert_eq!(classify_display_category(&ident("a", Status::Queued, c)), Category::Pending);
        assert_eq!(classify_display_category(&ident("a", Status::InProgress, c)), Category::Active);
    }
}

#[test]
fn category_table_for_completed() {
    let cases = [
        (None, Category::Neutral),
        (Some(Conclusion::Success), Category::Success),
        (Some(Conclusion::Neutral), Category::Neutral),
        (Some(Conclusion::Failed), Category::Failure),
        (Some(Conclusion::TimedOut), Category::Failure),
        (Some(Conclusion::Canceled), Category::Failure),
    ];
    for (c, want) in cases {
        assert_eq!(classify_display_category(&ident("a", Status::Completed, c)), want);
    }
}

#[test]
fn current_job_of_empty_list() {
    assert_eq!(select_current_job(&vec![]), None);
}

#[test]
fn current_job_is_first_in_progress() {
    let jobs = vec![
        job("a", Status::Queued, None),
        job("b", Status::InProgress, None),
        job("c", Status::InProgress, None),
    ];
    assert_eq!(select_current_job(&jobs), Some(1));
    let idle = vec![job("a", Status::Queued, None), job("b", Status::Completed, Some(Conclusion::Success))];
    assert_eq!(select_current_job(&idle), None);
}

#[test]
fn all_terminal_cases() {
    assert!(all_terminal(&vec![]));
    assert!(all_terminal(&vec![job("a", Status::Completed, Some(Conclusion::Failed))]));
    assert!(!all_terminal(&vec![
        job("a", Status::Completed, Some(Conclusion::Success)),
        job("b", Status::Queued, None),
    ]));
}

#[test]
fn parses_rfc3339() {
    let t = parse_timestamp("1970-01-01T00:01:40.5Z").unwrap();
    assert_eq!(t, Timestamp { secs: 100, nanos: 500_000_000 });
    let z = parse_timestamp("1970-01-01T01:00:00+01:00").unwrap();
    assert_eq!(z, Timestamp { secs: 0, nanos: 0 });
    assert_eq!(parse_timestamp("yesterday"), None);
}

#[test]
fn elapsed_between_truncates_and_clamps() {
    let a = Timestamp { secs: 10, nanos: 900_000_000 };
    let b = Timestamp { secs: 12, nanos: 300_000_000 };
    assert_eq!(elapsed_between(a, b), 1);
    assert_eq!(elapsed_between(b, a), 0);
    assert_eq!(elapsed_between(a, a), 0);
    let lo = Timestamp { secs: i64::MIN, nanos: 0 };
    let hi = Timestamp { secs: i64::MAX, nanos: 0 };
    assert_eq!(elapsed_between(lo, hi), i64::MAX);
}

#[test]
fn elapsed_of_completed_span() {
    let ts = span("2024-03-01T12:00:00Z", Some("2024-03-01T12:01:05Z"));
    assert_eq!(get_seconds_elapsed(&ts, at(5)), Ok(65));
    assert_eq!(get_seconds_elapsed(&ts, at(5000)), Ok(65));
}

#[test]
fn elapsed_of_running_span_grows_with_now() {
    let ts = span(T0, None);
    let mut last = 0;
    for k in [0, 1, 7, 7, 30, 3600] {
        let e = get_seconds_elapsed(&ts, at(k)).unwrap();
        assert_eq!(e, k);
        assert!(e >= last);
        last = e;
    }
}

#[test]
fn elapsed_never_negative() {
    let ts = span("2024-03-01T12:00:10Z", Some("2024-03-01T12:00:00Z"));
    assert_eq!(get_seconds_elapsed(&ts, at(0)), Ok(0));
    assert_eq!(get_seconds_elapsed(&span(T0, None), at(-50)), Ok(0));
}

#[test]
fn elapsed_of_malformed_timestamp() {
    assert_eq!(get_seconds_elapsed(&span("not a time", None), at(1)), Err(TimeError::MalformedTimestamp));
    assert_eq!(get_seconds_elapsed(&span(T0, Some("12:00")), at(1)), Err(TimeError::MalformedTimestamp));
}

#[test]
fn jobs_line_of_three_jobs() {
    let jobs = vec![
        job("build", Status::Queued, None),
        job("test", Status::InProgress, None),
        job("deploy", Status::Completed, Some(Conclusion::Success)),
    ];
    let segs = jobs_line_segments(&jobs, at(10));
    assert_eq!(
        texts(&segs),
        vec![
            seg("[", Tone::Plain),
            seg("build", Tone::Gray),
            seg("(10s)", Tone::Purple),
            seg(", ", Tone::Plain),
            seg("test", Tone::Yellow),
            seg("(10s)", Tone::Purple),
            seg(", ", Tone::Plain),
            seg("deploy", Tone::Green),
            seg("(10s)", Tone::Purple),
            seg("]", Tone::Plain),
        ]
    );
    let line = get_jobs_list_string(&jobs, at(10));
    let b = line.find("build").unwrap();
    let t = line.find("test").unwrap();
    let d = line.find("deploy").unwrap();
    assert!(b < t && t < d);
    assert!(line.starts_with('[') && line.ends_with(']'));
    assert!(!line.contains('\n'));
}

#[test]
fn jobs_line_of_empty_list() {
    colored::control::set_override(false);
    assert_eq!(get_jobs_list_string(&vec![], at(0)), "[]");
}

#[test]
fn jobs_line_plain_text() {
    colored::control::set_override(false);
    let jobs = vec![job("a", Status::Queued, None), job("b", Status::Completed, Some(Conclusion::Failed))];
    assert_eq!(get_jobs_list_string(&jobs, at(3)), "[a(3s), b(3s)]");
}

#[test]
fn jobs_line_with_malformed_time() {
    colored::control::set_override(false);
    let mut j = job("x", Status::InProgress, None);
    j.time_stat = span("garbage", None);
    assert_eq!(get_jobs_list_string(&vec![j], at(3)), "[x(?s)]");
}

fn two_steps() -> Vec<Step> {
    vec![
        Step {
            identity: ident("checkout", Status::Completed, Some(Conclusion::Success)),
            time_stat: span(T0, Some("2024-03-01T12:00:02Z")),
        },
        Step { identity: ident("run", Status::InProgress, None), time_stat: span(T0, None) },
    ]
}

#[test]
fn steps_block_of_two_steps() {
    let segs = steps_block_segments(&two_steps(), at(5));
    assert_eq!(
        texts(&segs),
        vec![
            seg("\n    ", Tone::Plain),
            seg("checkout", Tone::Green),
            seg(" ", Tone::Plain),
            seg(">", Tone::Bold),
            seg(" ", Tone::Plain),
            seg("Completed", Tone::Italic),
            seg(" ", Tone::Plain),
            seg("(2s)", Tone::Plain),
            seg("\n    ", Tone::Plain),
            seg("run", Tone::Yellow),
            seg(" ", Tone::Plain),
            seg(">", Tone::Bold),
            seg(" ", Tone::Plain),
            seg("InProgress", Tone::Italic),
            seg(" ", Tone::Plain),
            seg("(5s)", Tone::Plain),
        ]
    );
}

#[test]
fn steps_block_plain_text() {
    colored::control::set_override(false);
    let text = get_steps_list_string(&two_steps(), at(5));
    assert_eq!(text, "\n    checkout > Completed (2s)\n    run > InProgress (5s)");
    let lines: Vec<&str> = text.split('\n').skip(1).collect();
    assert_eq!(lines.len(), 2);
    assert!(lines[0].starts_with("    ") && lines[1].starts_with("    "));
}

#[test]
fn steps_block_of_empty_list() {
    assert_eq!(get_steps_list_string(&vec![], at(0)), "");
}

#[test]
fn colored_output_frames_the_text() {
    colored::control::set_override(true);
    for tone in [Tone::Gray, Tone::Yellow, Tone::Green, Tone::Red, Tone::Purple, Tone::Italic, Tone::Bold] {
        let out = paint(&Segment { text: "name".to_string(), tone });
        assert_ne!(out, "name");
        assert!(out.starts_with('\u{1b}'));
        assert!(out.contains("name"));
        assert!(out.ends_with("\u{1b}[0m"));
    }
    let plain = paint(&Segment { text: "name".to_string(), tone: Tone::Plain });
    assert_eq!(plain, "name");
}

#[test]
fn colored_styles_differ_by_category() {
    colored::control::set_override(true);
    let q = color_identity_name(&ident("n", Status::Queued, None));
    let a = color_identity_name(&ident("n", Status::InProgress, None));
    let s = color_identity_name(&ident("n", Status::Completed, Some(Conclusion::Success)));
    let f = color_identity_name(&ident("n", Status::Completed, Some(Conclusion::Canceled)));
    let n = color_identity_name(&ident("n", Status::Completed, Some(Conclusion::Neutral)));
    assert_ne!(q, a);
    assert_ne!(a, s);
    assert_ne!(s, f);
    assert_ne!(q, f);
    assert_eq!(a, n);
}

#[test]
fn render_segments_concatenates() {
    colored::control::set_override(false);
    let segs = vec![
        Segment { text: "ab".to_string(), tone: Tone::Plain },
        Segment { text: "cd".to_string(), tone: Tone::Red },
    ];
    assert_eq!(render_segments(&segs), "abcd");
}

#[test]
fn frame_without_current_job() {
    colored::control::set_override(false);
    let jobs = vec![job("a", Status::Queued, None)];
    let text = render_segments(&progress_frame(&jobs, at(1)));
    assert_eq!(text, "[a(1s)]\nNo current job found");
}

#[test]
fn frame_with_current_job_shows_its_steps() {
    colored::control::set_override(false);
    let mut running = job("b", Status::InProgress, None);
    running.steps = two_steps();
    let jobs = vec![job("a", Status::Completed, Some(Conclusion::Success)), running];
    let text = render_segments(&progress_frame(&jobs, at(5)));
    assert_eq!(text, "[a(5s), b(5s)]\n    checkout > Completed (2s)\n    run > InProgress (5s)");
}

#[test]
fn driver_empty_job_list_is_not_completion() {
    let (s, a) = advance(DriverState::AwaitingJobs { run_id: 7 }, PollEvent::JobsFetched { jobs: vec![] }, at(0));
    assert_eq!(s, DriverState::Done { outcome: Outcome::NoJobsFound });
    assert!(matches!(a, PollAction::Finish { outcome: Outcome::NoJobsFound }));
    assert_ne!(Outcome::NoJobsFound.message(), "Completed all jobs");
}

#[test]
fn driver_single_failed_job_completes() {
    let jobs = vec![job("only", Status::Completed, Some(Conclusion::Failed))];
    let (s, a) = advance(DriverState::AwaitingJobs { run_id: 7 }, PollEvent::JobsFetched { jobs }, at(0));
    assert_eq!(s, DriverState::Done { outcome: Outcome::Completed });
    match a {
        PollAction::Finish { outcome } => {
            assert_eq!(outcome, Outcome::Completed);
            assert_eq!(outcome.message(), "Completed all jobs");
            assert_eq!(outcome.exit_code(), 0);
        }
        _ => panic!("expected the watch to finish"),
    }
}

#[test]
fn driver_full_round() {
    let (s, a) = advance(DriverState::AwaitingRun, PollEvent::RunFetched { run: Some(Run { id: 42 }) }, at(0));
    assert_eq!(s, DriverState::AwaitingJobs { run_id: 42 });
    assert!(matches!(a, PollAction::FetchJobs { run_id: 42 }));
    let jobs = vec![job("a", Status::InProgress, None)];
    let (s, a) = advance(s, PollEvent::JobsFetched { jobs }, at(2));
    assert_eq!(s, DriverState::AwaitingRun);
    match a {
        PollAction::EmitAndWait { frame } => {
            colored::control::set_override(false);
            assert_eq!(render_segments(&frame), "[a(2s)]");
        }
        _ => panic!("expected a frame"),
    }
}

#[test]
fn driver_no_runs_and_failures() {
    let (s, a) = advance(DriverState::AwaitingRun, PollEvent::RunFetched { run: None }, at(0));
    assert_eq!(s, DriverState::Done { outcome: Outcome::NoRunsFound });
    assert!(matches!(a, PollAction::Finish { outcome: Outcome::NoRunsFound }));
    assert_eq!(Outcome::NoRunsFound.exit_code(), 2);
    let (s, a) = advance(DriverState::AwaitingJobs { run_id: 1 }, PollEvent::FetchFailed, at(0));
    assert_eq!(s, DriverState::Done { outcome: Outcome::FetchFailed });
    assert!(matches!(a, PollAction::Finish { outcome: Outcome::FetchFailed }));
    assert_eq!(Outcome::FetchFailed.exit_code(), 1);
    assert_eq!(Outcome::NoJobsFound.exit_code(), 3);
    let (s2, a2) = advance(s, PollEvent::RunFetched { run: Some(Run { id: 3 }) }, at(0));
    assert_eq!(s2, s);
    assert!(matches!(a2, PollAction::Finish { outcome: Outcome::FetchFailed }));
}

#[test]
fn driver_ignores_out_of_turn_events() {
    let (s, a) = advance(DriverState::AwaitingRun, PollEvent::JobsFetched { jobs: vec![] }, at(0));
    assert_eq!(s, DriverState::AwaitingRun);
    assert!(matches!(a, PollAction::FetchLatestRun));
    let (s, a) = advance(DriverState::AwaitingJobs { run_id: 9 }, PollEvent::RunFetched { run: None }, at(0));
    assert_eq!(s, DriverState::AwaitingJobs { run_id: 9 });
    assert!(matches!(a, PollAction::FetchJobs { run_id: 9 }));
}
