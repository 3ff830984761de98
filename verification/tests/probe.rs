use task_probe::check::{
    classify, run_check, CheckFault, CheckKind, RunOutcome, StepOutcome,
};
use task_probe::config::{
    hosts_from_config, parse_i64, threshold_from_config, ConfigError, DEFAULT_THRESHOLD_MS,
};
use task_probe::get_address;
use task_probe::metrics::MetricSample;
use task_probe::staleness::{is_old, StalenessUnits};
use task_probe::task::{classify_poll, PollError, TaskRecord};

fn task_failed_sample(message: &str) -> MetricSample {
    MetricSample {
        name: String::from("task_failed"),
        value: String::from(message),
        tag: String::from("env:production"),
    }
}

fn task_old_sample() -> MetricSample {
    MetricSample {
        name: String::from("task_old"),
        value: String::new(),
        tag: String::from("env:production"),
    }
}

#[test]
fn threshold_defaults_to_one_hour_when_unset() {
    assert_eq!(threshold_from_config(None), Ok(3600000));
    assert_eq!(DEFAULT_THRESHOLD_MS, 3600000);
}

#[test]
fn threshold_malformed_is_fatal() {
    assert_eq!(
        threshold_from_config(Some(String::from("notanumber"))),
        Err(ConfigError::MalformedThreshold)
    );
}

#[test]
fn threshold_parses_decimal_values() {
    assert_eq!(threshold_from_config(Some(String::from("2500"))), Ok(2500));
    assert_eq!(threshold_from_config(Some(String::from("+7"))), Ok(7));
    assert_eq!(threshold_from_config(Some(String::from("-5"))), Ok(-5));
    assert_eq!(threshold_from_config(Some(String::from("007"))), Ok(7));
    assert_eq!(threshold_from_config(Some(String::from("0"))), Ok(0));
}

#[test]
fn threshold_rejects_junk_text() {
    for raw in ["", "+", "-", " 5", "5 ", "12a", "1.5", "0x10", "--3"] {
        assert_eq!(
            threshold_from_config(Some(String::from(raw))),
            Err(ConfigError::MalformedThreshold),
            "input {raw:?} should be malformed"
        );
    }
}

#[test]
fn parse_i64_handles_the_range_edges() {
    assert_eq!(parse_i64("9223372036854775807"), Some(i64::MAX));
    assert_eq!(parse_i64("-9223372036854775808"), Some(i64::MIN));
    assert_eq!(parse_i64("9223372036854775808"), None);
    assert_eq!(parse_i64("-9223372036854775809"), None);
    assert_eq!(parse_i64("99999999999999999999999999999999"), None);
}

#[test]
fn hosts_unset_means_no_hosts() {
    let hosts = hosts_from_config(None);
    assert!(hosts.is_empty());
}

#[test]
fn hosts_undecodable_means_no_hosts() {
    assert!(hosts_from_config(Some(String::from("not json"))).is_empty());
    assert!(hosts_from_config(Some(String::from("{\"a\":1}"))).is_empty());
    assert!(hosts_from_config(Some(String::from("[1,2]"))).is_empty());
}

#[test]
fn hosts_decoded_in_order() {
    let raw = String::from("[\"http://a:7700\",\"http://b:7700\"]");
    let hosts = hosts_from_config(Some(raw));
    assert_eq!(
        hosts,
        vec![String::from("http://a:7700"), String::from("http://b:7700")]
    );
    assert!(hosts_from_config(Some(String::from("[]"))).is_empty());
}

#[test]
fn staleness_is_strictly_greater_than() {
    assert!(!is_old(0, 10, 10, StalenessUnits::Literal));
    assert!(is_old(0, 11, 10, StalenessUnits::Literal));
    assert!(!is_old(0, 10, 10000, StalenessUnits::Corrected));
    assert!(is_old(0, 11, 10000, StalenessUnits::Corrected));
}

#[test]
fn staleness_literal_and_corrected_semantics_differ() {
    // A task two hours in the queue against a one-hour threshold: the
    // literal comparison (seconds against milliseconds, as implemented
    // historically) sees nothing, the corrected one flags it.
    let now = 1_700_000_000;
    let enqueued_at = now - 7200;
    assert!(!is_old(enqueued_at, now, 3600000, StalenessUnits::Literal));
    assert!(is_old(enqueued_at, now, 3600000, StalenessUnits::Corrected));
}

#[test]
fn staleness_is_monotonic_in_age() {
    let now = 1000;
    let threshold = 50;
    for units in [StalenessUnits::Literal, StalenessUnits::Corrected] {
        let mut last = true;
        for enqueued_at in 0..now {
            let old = is_old(enqueued_at, now, threshold, units);
            assert!(!old || last, "an earlier-enqueued task must stay old");
            last = old;
        }
    }
}

#[test]
fn failed_task_emits_its_message_under_failure_check() {
    let record = TaskRecord::Failed {
        error_message: String::from("disk full"),
    };
    let outcome = classify(CheckKind::Failure, &record, 0, 3600000, StalenessUnits::Literal);
    assert_eq!(outcome, StepOutcome::Emit(task_failed_sample("disk full")));
}

#[test]
fn succeeded_task_under_failure_check_is_a_violation() {
    let record = TaskRecord::Succeeded { enqueued_at: 0 };
    let outcome = classify(CheckKind::Failure, &record, 0, 3600000, StalenessUnits::Literal);
    assert_eq!(outcome, StepOutcome::Violation);

    let polls = vec![Ok(record)];
    let run = run_check(CheckKind::Failure, &polls, 0, 3600000, StalenessUnits::Literal);
    assert!(run.emissions.is_empty());
    assert_eq!(run.fault, Some(CheckFault::Violation));
}

#[test]
fn old_succeeded_task_emits_task_old_with_empty_value() {
    // Two hours in the queue against a one-hour threshold, under the
    // documented-intent (corrected) staleness semantics.
    let now = 1_700_000_000;
    let record = TaskRecord::Succeeded { enqueued_at: now - 7200 };
    let outcome = classify(
        CheckKind::Staleness,
        &record,
        now,
        3600000,
        StalenessUnits::Corrected,
    );
    assert_eq!(outcome, StepOutcome::Emit(task_old_sample()));
}

#[test]
fn fresh_succeeded_task_emits_nothing() {
    let now = 1_700_000_000;
    let record = TaskRecord::Succeeded { enqueued_at: now - 10 };
    let outcome = classify(
        CheckKind::Staleness,
        &record,
        now,
        3600000,
        StalenessUnits::Corrected,
    );
    assert_eq!(outcome, StepOutcome::Pass);
}

#[test]
fn enqueued_or_processing_is_a_violation_for_both_checks() {
    for kind in [CheckKind::Failure, CheckKind::Staleness] {
        for record in [TaskRecord::Enqueued, TaskRecord::Processing] {
            let outcome = classify(kind, &record, 0, 3600000, StalenessUnits::Literal);
            assert_eq!(outcome, StepOutcome::Violation);
        }
    }
}

#[test]
fn failure_check_emits_once_per_failed_host_in_order() {
    let polls = vec![
        Ok(TaskRecord::Failed { error_message: String::from("disk full") }),
        Ok(TaskRecord::Failed { error_message: String::from("index corrupt") }),
    ];
    let run = run_check(CheckKind::Failure, &polls, 0, 3600000, StalenessUnits::Literal);
    assert_eq!(run.fault, None);
    assert_eq!(
        run.emissions,
        vec![
            task_failed_sample("disk full"),
            task_failed_sample("index corrupt"),
        ]
    );
}

#[test]
fn staleness_check_emits_once_per_old_host() {
    let now = 1_700_000_000;
    let polls = vec![
        Ok(TaskRecord::Succeeded { enqueued_at: now - 7200 }),
        Ok(TaskRecord::Succeeded { enqueued_at: now - 10 }),
        Ok(TaskRecord::Succeeded { enqueued_at: now - 9000 }),
    ];
    let run = run_check(
        CheckKind::Staleness,
        &polls,
        now,
        3600000,
        StalenessUnits::Corrected,
    );
    assert_eq!(run.fault, None);
    assert_eq!(run.emissions, vec![task_old_sample(), task_old_sample()]);
}

#[test]
fn emissions_made_before_a_fault_remain() {
    let polls = vec![
        Ok(TaskRecord::Failed { error_message: String::from("disk full") }),
        Ok(TaskRecord::Enqueued),
        Ok(TaskRecord::Failed { error_message: String::from("never reached") }),
    ];
    let run = run_check(CheckKind::Failure, &polls, 0, 3600000, StalenessUnits::Literal);
    assert_eq!(run.emissions, vec![task_failed_sample("disk full")]);
    assert_eq!(run.fault, Some(CheckFault::Violation));
}

#[test]
fn failed_polls_are_fatal() {
    let polls = vec![Err(PollError::Unreachable)];
    let run = run_check(CheckKind::Failure, &polls, 0, 3600000, StalenessUnits::Literal);
    assert!(run.emissions.is_empty());
    assert_eq!(run.fault, Some(CheckFault::Poll(PollError::Unreachable)));

    let polls = vec![Err(PollError::Empty)];
    let run = run_check(CheckKind::Staleness, &polls, 0, 3600000, StalenessUnits::Literal);
    assert!(run.emissions.is_empty());
    assert_eq!(run.fault, Some(CheckFault::Poll(PollError::Empty)));
}

#[test]
fn classify_poll_reads_the_most_recent_task() {
    assert_eq!(classify_poll(None), Err(PollError::Unreachable));
    assert_eq!(classify_poll(Some(vec![])), Err(PollError::Empty));
    let tasks = vec![
        TaskRecord::Failed { error_message: String::from("disk full") },
        TaskRecord::Succeeded { enqueued_at: 5 },
    ];
    assert_eq!(
        classify_poll(Some(tasks)),
        Ok(TaskRecord::Failed { error_message: String::from("disk full") })
    );
}

#[test]
fn no_hosts_means_clean_runs_with_zero_emissions() {
    let polls: Vec<Result<TaskRecord, PollError>> = Vec::new();
    for kind in [CheckKind::Failure, CheckKind::Staleness] {
        let run = run_check(kind, &polls, 0, 3600000, StalenessUnits::Literal);
        assert!(run.emissions.is_empty());
        assert_eq!(run.fault, None);
    }
}

#[test]
fn staleness_check_is_idempotent_against_unchanged_state() {
    let now = 1_700_000_000;
    let polls = vec![
        Ok(TaskRecord::Succeeded { enqueued_at: now - 7200 }),
        Ok(TaskRecord::Succeeded { enqueued_at: now - 10 }),
    ];
    let first: RunOutcome = run_check(
        CheckKind::Staleness,
        &polls,
        now,
        3600000,
        StalenessUnits::Corrected,
    );
    let second: RunOutcome = run_check(
        CheckKind::Staleness,
        &polls,
        now,
        3600000,
        StalenessUnits::Corrected,
    );
    assert_eq!(first, second);
}

#[test]
fn collector_address_is_fixed() {
    assert_eq!(get_address(), "localhost:7700");
}
