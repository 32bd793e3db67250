use tlc_core::cli::{download_options_from_args, DownloadArgs, Settings};
use tlc_core::download::{
    plan_run, plan_task, probe_size, summarize, total_expected_size, DownloadOptions, FailReason,
    TaskOutcome,
};
use tlc_core::error::TlcError;

fn options(kind: &str, start: &str, end: &str) -> DownloadOptions {
    DownloadOptions {
        kind: kind.to_string(),
        start: start.to_string(),
        end: end.to_string(),
        output: "./data".to_string(),
        concurrency: 5,
    }
}

#[test]
fn plan_task_fills_names_and_leaves_size_unknown() {
    let t = plan_task("yellow", 2023, 2);
    assert_eq!(t.kind, "yellow");
    assert_eq!(t.year, 2023);
    assert_eq!(t.month, 2);
    assert_eq!(
        t.url,
        "https://d37ci6vzurychx.cloudfront.net/trip-data/yellow_tripdata_2023-02.parquet"
    );
    assert_eq!(t.filename, "yellow_tripdata_2023-02.parquet");
    assert_eq!(t.expected_size, 0);
}

#[test]
fn plan_run_plans_one_task_per_month() {
    let ts = plan_run(&options("green", "2022-11", "2023-02")).unwrap();
    assert_eq!(ts.len(), 4);
    let keys: Vec<(i32, i32)> = ts.iter().map(|t| (t.year, t.month)).collect();
    assert_eq!(keys, vec![(2022, 11), (2022, 12), (2023, 1), (2023, 2)]);
    for t in &ts {
        assert_eq!(t.kind, "green");
        assert_eq!(t.filename, format!("green_tripdata_{}-{:02}.parquet", t.year, t.month));
        assert_eq!(t.expected_size, 0);
    }
}

#[test]
fn plan_run_targets_are_pairwise_distinct() {
    let ts = plan_run(&options("yellow", "2020-01", "2021-12")).unwrap();
    for (i, a) in ts.iter().enumerate() {
        for (j, b) in ts.iter().enumerate() {
            if i != j {
                assert_ne!(a.filename, b.filename);
            }
        }
    }
}

#[test]
fn plan_run_empty_when_start_after_end() {
    let ts = plan_run(&options("yellow", "2023-05", "2023-01")).unwrap();
    assert!(ts.is_empty());
}

#[test]
fn plan_run_passes_date_errors_through() {
    match plan_run(&options("yellow", "2023", "2023-02")) {
        Err(TlcError::InvalidDate(m)) => assert_eq!(m.as_str(), "Expected YYYY-MM"),
        other => panic!("unexpected result: {:?}", other),
    }
    match plan_run(&options("yellow", "2023-01", "2023-00")) {
        Err(TlcError::InvalidMonth(0)) => {},
        other => panic!("unexpected result: {:?}", other),
    }
}

#[test]
fn probe_size_contributes_zero_on_any_failure() {
    assert_eq!(probe_size(true, true, Some(42)), 42);
    assert_eq!(probe_size(true, true, None), 0);
    assert_eq!(probe_size(true, false, Some(42)), 0);
    assert_eq!(probe_size(false, false, None), 0);
}

#[test]
fn total_expected_size_sums_probed_sizes() {
    assert_eq!(total_expected_size(&vec![]), 0);
    assert_eq!(total_expected_size(&vec![10, 0, 32]), 42);
}

#[test]
fn total_expected_size_saturates() {
    assert_eq!(total_expected_size(&vec![u64::MAX, 1]), u64::MAX);
    assert_eq!(total_expected_size(&vec![u64::MAX - 1, 1]), u64::MAX);
}

#[test]
fn summarize_counts_each_outcome_once() {
    let outcomes = vec![
        TaskOutcome::Skipped,
        TaskOutcome::Completed(10),
        TaskOutcome::Failed(FailReason::HttpStatus(404)),
        TaskOutcome::Cancelled,
        TaskOutcome::Completed(0),
        TaskOutcome::Failed(FailReason::SizeMismatch { expected: 5, actual: 4 }),
    ];
    let s = summarize(&outcomes);
    assert_eq!(s.skipped, 1);
    assert_eq!(s.completed, 2);
    assert_eq!(s.failed, 2);
    assert_eq!(s.cancelled, 1);
    assert_eq!(s.skipped + s.completed + s.failed + s.cancelled, outcomes.len());
}

#[test]
fn summarize_of_empty_run_is_all_zero() {
    let s = summarize(&vec![]);
    assert_eq!((s.skipped, s.completed, s.failed, s.cancelled), (0, 0, 0, 0));
}

#[test]
fn options_from_args_requires_each_argument_in_turn() {
    let full = DownloadArgs {
        kind: Some("yellow".to_string()),
        start: Some("2023-01".to_string()),
        end: Some("2023-02".to_string()),
        output: "./out".to_string(),
        concurrency: 3,
    };
    let o = download_options_from_args(DownloadArgs { ..clone_args(&full) }).unwrap();
    assert_eq!(o.kind, "yellow");
    assert_eq!(o.start, "2023-01");
    assert_eq!(o.end, "2023-02");
    assert_eq!(o.output, "./out");
    assert_eq!(o.concurrency, 3);

    let missing_kind = DownloadArgs { kind: None, ..clone_args(&full) };
    match download_options_from_args(missing_kind) {
        Err(TlcError::MissingArgument(m)) => assert_eq!(m.as_str(), "type"),
        other => panic!("unexpected result: {:?}", other),
    }
    let missing_start = DownloadArgs { start: None, ..clone_args(&full) };
    match download_options_from_args(missing_start) {
        Err(TlcError::MissingArgument(m)) => assert_eq!(m.as_str(), "start"),
        other => panic!("unexpected result: {:?}", other),
    }
    let missing_end = DownloadArgs { end: None, ..clone_args(&full) };
    match download_options_from_args(missing_end) {
        Err(TlcError::MissingArgument(m)) => assert_eq!(m.as_str(), "end"),
        other => panic!("unexpected result: {:?}", other),
    }
}

fn clone_args(a: &DownloadArgs) -> DownloadArgs {
    DownloadArgs {
        kind: a.kind.clone(),
        start: a.start.clone(),
        end: a.end.clone(),
        output: a.output.clone(),
        concurrency: a.concurrency,
    }
}

#[test]
fn settings_default_matches_documented_values() {
    let s = Settings::default();
    assert_eq!(s.output, "./data");
    assert_eq!(s.concurrency, 5);
}
