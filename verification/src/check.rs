//! The check orchestrator: classifies each host's polled record under a
//! check kind and turns a whole run into its emissions and its fault.

use vstd::prelude::*;

use crate::metrics::{failure_sample, samples_view, staleness_sample, MetricSample, MetricSampleV};
use crate::staleness::{is_old, spec_is_old, StalenessUnits};
use crate::task::{PollError, TaskRecord, TaskRecordV};

verus! {

/// The two checks the probe runs. Each kind names the one record variant it
/// expects to observe — its expectation — and any other variant is a
/// contract violation.
#[derive(Debug, Clone, Copy, PartialEq, Eq, Structural)]
pub enum CheckKind {
    /// Expects `Failed` records; reports each one's error message.
    Failure,
    /// Expects `Succeeded` records; reports the ones that grew old.
    Staleness,
}

/// Whether a record shows the single variant the check expects to observe.
pub open spec fn matches_expectation(kind: CheckKind, record: TaskRecordV) -> bool {
    match kind {
        CheckKind::Failure => record is Failed,
        CheckKind::Staleness => record is Succeeded,
    }
}

/// What one host's record means to a check: a metric to emit, nothing, or a
/// fatal contract violation.
#[derive(Debug, Clone, PartialEq, Eq)]
pub enum StepOutcome {
    /// Emit this sample for the host.
    Emit(MetricSample),
    /// The record is in the expected variant but warrants no emission.
    Pass,
    /// The record is not in the variant the check expects: a fatal fault.
    Violation,
}

/// Mathematical view of a [`StepOutcome`].
pub enum StepOutcomeV {
    Emit(MetricSampleV),
    Pass,
    Violation,
}

impl View for StepOutcome {
    type V = StepOutcomeV;

    open spec fn view(&self) -> StepOutcomeV {
        match self {
            StepOutcome::Emit(sample) => StepOutcomeV::Emit(sample@),
            StepOutcome::Pass => StepOutcomeV::Pass,
            StepOutcome::Violation => StepOutcomeV::Violation,
        }
    }
}

/// What a run stops for: a failed poll, or a record outside the check's
/// expectation.
#[derive(Debug, Clone, Copy, PartialEq, Eq, Structural)]
pub enum CheckFault {
    /// Polling the host yielded no record to inspect.
    Poll(PollError),
    /// The polled record is not in the variant the check expects.
    Violation,
}

/// How a check reads one polled record.
///
/// Under the failure check a `Failed` record emits `task_failed` with the
/// record's error message; under the staleness check a `Succeeded` record
/// emits `task_old` with an empty value when the task is old and nothing
/// otherwise; any record outside the check's expectation is a violation.
pub open spec fn spec_step(
    kind: CheckKind,
    record: TaskRecordV,
    now: int,
    threshold_ms: int,
    units: StalenessUnits,
) -> StepOutcomeV {
    match kind {
        CheckKind::Failure => match record {
            TaskRecordV::Failed { error_message } => StepOutcomeV::Emit(
                failure_sample(error_message),
            ),
            _ => StepOutcomeV::Violation,
        },
        CheckKind::Staleness => match record {
            TaskRecordV::Succeeded { enqueued_at } => if spec_is_old(
                enqueued_at,
                now,
                threshold_ms,
                units,
            ) {
                StepOutcomeV::Emit(staleness_sample())
            } else {
                StepOutcomeV::Pass
            },
            _ => StepOutcomeV::Violation,
        },
    }
}

/// Classifies one polled record under a check: the step of the orchestrator
/// that decides what a record means, with the current time and the staleness
/// threshold (milliseconds) as context.
pub fn classify(
    kind: CheckKind,
    record: &TaskRecord,
    now: i64,
    threshold_ms: i64,
    units: StalenessUnits,
) -> (r: StepOutcome)
    ensures
        r@ == spec_step(kind, record@, now as int, threshold_ms as int, units),
{
    match kind {
        CheckKind::Failure => match record {
            TaskRecord::Failed { error_message } => StepOutcome::Emit(
                MetricSample {
                    name: "task_failed".to_owned(),
                    value: error_message.clone(),
                    tag: "env:production".to_owned(),
                },
            ),
            _ => StepOutcome::Violation,
        },
        CheckKind::Staleness => match record {
            TaskRecord::Succeeded { enqueued_at } => if is_old(
                *enqueued_at,
                now,
                threshold_ms,
                units,
            ) {
                StepOutcome::Emit(
                    MetricSample {
                        name: "task_old".to_owned(),
                        value: "".to_owned(),
                        tag: "env:production".to_owned(),
                    },
                )
            } else {
                StepOutcome::Pass
            },
            _ => StepOutcome::Violation,
        },
    }
}

/// View of one host's poll result.
pub open spec fn poll_view(poll: Result<TaskRecord, PollError>) -> Result<TaskRecordV, PollError> {
    match poll {
        Ok(record) => Ok(record@),
        Err(e) => Err(e),
    }
}

/// View of a whole run's poll results, in host order.
pub open spec fn polls_view(polls: Seq<Result<TaskRecord, PollError>>) -> Seq<
    Result<TaskRecordV, PollError>,
> {
    polls.map_values(|poll: Result<TaskRecord, PollError>| poll_view(poll))
}

/// Outcome of running one check over every host, in configuration order:
/// the samples emitted before the run ended, and the fault that ended it
/// early, if any. Samples emitted before a fault remain emitted.
#[derive(Debug, Clone, PartialEq, Eq)]
pub struct RunOutcome {
    pub emissions: Vec<MetricSample>,
    pub fault: Option<CheckFault>,
}

/// Mathematical view of a [`RunOutcome`].
#[verifier::ext_equal]
pub struct RunOutcomeV {
    pub emissions: Seq<MetricSampleV>,
    pub fault: Option<CheckFault>,
}

impl View for RunOutcome {
    type V = RunOutcomeV;

    open spec fn view(&self) -> RunOutcomeV {
        RunOutcomeV { emissions: samples_view(self.emissions@), fault: self.fault }
    }
}

/// What a whole run yields: hosts are read in order, each record emits per
/// [`spec_step`], and the first failed poll or violation ends the run with
/// that fault, keeping the emissions made before it.
pub open spec fn spec_run(
    kind: CheckKind,
    polls: Seq<Result<TaskRecordV, PollError>>,
    now: int,
    threshold_ms: int,
    units: StalenessUnits,
) -> RunOutcomeV
    decreases polls.len(),
{
    if polls.len() == 0 {
        RunOutcomeV { emissions: Seq::empty(), fault: None }
    } else {
        match polls[0] {
            Err(e) => RunOutcomeV { emissions: Seq::empty(), fault: Some(CheckFault::Poll(e)) },
            Ok(record) => match spec_step(kind, record, now, threshold_ms, units) {
                StepOutcomeV::Violation => RunOutcomeV {
                    emissions: Seq::empty(),
                    fault: Some(CheckFault::Violation),
                },
                StepOutcomeV::Pass => spec_run(
                    kind,
                    polls.drop_first(),
                    now,
                    threshold_ms,
                    units,
                ),
                StepOutcomeV::Emit(sample) => {
                    let rest = spec_run(kind, polls.drop_first(), now, threshold_ms, units);
                    RunOutcomeV { emissions: seq![sample] + rest.emissions, fault: rest.fault }
                },
            },
        }
    }
}

/// Runs one check over every host's poll result, in configuration order.
///
/// Returns the samples to emit, in order, and the fault — the first failed
/// poll or contract violation — that ended the run early, if any.
pub fn run_check(
    kind: CheckKind,
    polls: &Vec<Result<TaskRecord, PollError>>,
    now: i64,
    threshold_ms: i64,
    units: StalenessUnits,
) -> (r: RunOutcome)
    ensures
        r@ == spec_run(kind, polls_view(polls@), now as int, threshold_ms as int, units),
{
    let ghost pv = polls_view(polls@);
    let ghost full = spec_run(kind, pv, now as int, threshold_ms as int, units);
    let mut emissions: Vec<MetricSample> = Vec::new();
    let mut i: usize = 0;
    proof {
        assert(pv.skip(0) =~= pv);
        assert(samples_view(emissions@) =~= Seq::<MetricSampleV>::empty());
        assert(samples_view(emissions@) + full.emissions =~= full.emissions);
        assert(full =~= (RunOutcomeV {
            emissions: samples_view(emissions@) + spec_run(
                kind,
                pv.skip(0),
                now as int,
                threshold_ms as int,
                units,
            ).emissions,
            fault: spec_run(kind, pv.skip(0), now as int, threshold_ms as int, units).fault,
        }));
    }
    while i < polls.len()
        invariant
            i <= polls.len(),
            pv == polls_view(polls@),
            full == spec_run(kind, pv, now as int, threshold_ms as int, units),
            pv.len() == polls@.len(),
            full == (RunOutcomeV {
                emissions: samples_view(emissions@) + spec_run(
                    kind,
                    pv.skip(i as int),
                    now as int,
                    threshold_ms as int,
                    units,
                ).emissions,
                fault: spec_run(kind, pv.skip(i as int), now as int, threshold_ms as int, units).fault,
            }),
        decreases polls.len() - i,
    {
        proof {
            assert(pv[i as int] == poll_view(polls@[i as int]));
            assert(pv.skip(i as int)[0] == pv[i as int]);
            assert(pv.skip(i as int).drop_first() =~= pv.skip(i as int + 1));
        }
        match &polls[i] {
            Err(e) => {
                proof {
                    assert(samples_view(emissions@) + Seq::<MetricSampleV>::empty() =~= samples_view(
                        emissions@,
                    ));
                }
                return RunOutcome { emissions, fault: Some(CheckFault::Poll(*e)) };
            },
            Ok(record) => {
                let outcome = classify(kind, record, now, threshold_ms, units);
                match outcome {
                    StepOutcome::Violation => {
                        proof {
                            assert(samples_view(emissions@) + Seq::<MetricSampleV>::empty()
                                =~= samples_view(emissions@));
                        }
                        return RunOutcome { emissions, fault: Some(CheckFault::Violation) };
                    },
                    StepOutcome::Pass => {
                    },
                    StepOutcome::Emit(sample) => {
                        let ghost old_emissions = emissions@;
                        let ghost rest = spec_run(
                            kind,
                            pv.skip(i as int + 1),
                            now as int,
                            threshold_ms as int,
                            units,
                        );
                        emissions.push(sample);
                        proof {
                            assert(samples_view(emissions@) =~= samples_view(old_emissions).push(
                                sample@,
                            ));
                            assert(samples_view(old_emissions) + (seq![sample@] + rest.emissions)
                                =~= samples_view(emissions@) + rest.emissions);
                        }
                    },
                }
            },
        }
        i = i + 1;
    }
    proof {
        assert(pv.skip(i as int) =~= Seq::<Result<TaskRecordV, PollError>>::empty());
        assert(samples_view(emissions@) + Seq::<MetricSampleV>::empty() =~= samples_view(
            emissions@,
        ));
    }
    RunOutcome { emissions, fault: None }
}

/// How many polled records are `Succeeded` tasks that are old.
pub open spec fn count_old(
    polls: Seq<Result<TaskRecordV, PollError>>,
    now: int,
    threshold_ms: int,
    units: StalenessUnits,
) -> int
    decreases polls.len(),
{
    if polls.len() == 0 {
        0
    } else {
        (match polls[0] {
            Ok(TaskRecordV::Succeeded { enqueued_at }) => if spec_is_old(
                enqueued_at,
                now,
                threshold_ms,
                units,
            ) {
                1int
            } else {
                0int
            },
            _ => 0int,
        }) + count_old(polls.drop_first(), now, threshold_ms, units)
    }
}

/// Law: a failure-check run that completes without fault saw a `Failed`
/// record from every host and emitted exactly one `task_failed` observation
/// per host, in host order, each carrying that host's error message.
pub proof fn lemma_failure_check_emissions(
    polls: Seq<Result<TaskRecordV, PollError>>,
    now: int,
    threshold_ms: int,
    units: StalenessUnits,
)
    requires
        spec_run(CheckKind::Failure, polls, now, threshold_ms, units).fault is None,
    ensures
        spec_run(CheckKind::Failure, polls, now, threshold_ms, units).emissions.len()
            == polls.len(),
        forall|i: int|
            0 <= i < polls.len() ==> (#[trigger] polls[i] matches Ok(record) && record matches
                TaskRecordV::Failed { error_message } && spec_run(
                CheckKind::Failure,
                polls,
                now,
                threshold_ms,
                units,
            ).emissions[i] == failure_sample(error_message)),
    decreases polls.len(),
{
    if polls.len() > 0 {
        let rest = polls.drop_first();
        lemma_failure_check_emissions(rest, now, threshold_ms, units);
        assert forall|i: int| 1 <= i < polls.len() implies (#[trigger] polls[i] matches Ok(record)
            && record matches TaskRecordV::Failed { error_message } && spec_run(
            CheckKind::Failure,
            polls,
            now,
            threshold_ms,
            units,
        ).emissions[i] == failure_sample(error_message)) by {
            assert(polls[i] == rest[i - 1]);
        }
    }
}

/// Law: a staleness-check run that completes without fault saw a
/// `Succeeded` record from every host and emitted exactly one `task_old`
/// observation — with an empty value — per host whose task is old, and
/// nothing else.
pub proof fn lemma_staleness_check_emissions(
    polls: Seq<Result<TaskRecordV, PollError>>,
    now: int,
    threshold_ms: int,
    units: StalenessUnits,
)
    requires
        spec_run(CheckKind::Staleness, polls, now, threshold_ms, units).fault is None,
    ensures
        spec_run(CheckKind::Staleness, polls, now, threshold_ms, units).emissions.len()
            == count_old(polls, now, threshold_ms, units),
        forall|j: int|
            0 <= j < spec_run(CheckKind::Staleness, polls, now, threshold_ms, units).emissions.len()
                ==> #[trigger] spec_run(
                CheckKind::Staleness,
                polls,
                now,
                threshold_ms,
                units,
            ).emissions[j] == staleness_sample(),
        forall|i: int|
            0 <= i < polls.len() ==> (#[trigger] polls[i] matches Ok(record) && matches_expectation(
                CheckKind::Staleness,
                record,
            )),
    decreases polls.len(),
{
    if polls.len() > 0 {
        let rest = polls.drop_first();
        lemma_staleness_check_emissions(rest, now, threshold_ms, units);
        assert forall|i: int| 1 <= i < polls.len() implies (#[trigger] polls[i] matches Ok(record)
            && matches_expectation(CheckKind::Staleness, record)) by {
            assert(polls[i] == rest[i - 1]);
        }
    }
}

/// Law: with no hosts configured, either check completes with zero
/// emissions and no fault.
pub proof fn lemma_no_hosts_clean_run(
    kind: CheckKind,
    now: int,
    threshold_ms: int,
    units: StalenessUnits,
)
    ensures
        spec_run(kind, Seq::empty(), now, threshold_ms, units).emissions.len() == 0,
        spec_run(kind, Seq::empty(), now, threshold_ms, units).fault is None,
{
}

/// Law: the staleness check is idempotent against unchanged remote state —
/// two runs over the same polled records, with the same time, threshold and
/// units, produce the same emission outcome.
pub proof fn lemma_staleness_check_idempotent(
    first: RunOutcomeV,
    second: RunOutcomeV,
    polls: Seq<Result<TaskRecordV, PollError>>,
    now: int,
    threshold_ms: int,
    units: StalenessUnits,
)
    requires
        first == spec_run(CheckKind::Staleness, polls, now, threshold_ms, units),
        second == spec_run(CheckKind::Staleness, polls, now, threshold_ms, units),
    ensures
        first == second,
{
}

} // verus!
