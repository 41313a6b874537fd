//! The grading run of one submission: the order of its steps and the
//! record it leaves behind.
//!
//! The run performs nothing itself. Each step names what the caller is to
//! do next, and the caller comes back with what that gave.

use vstd::prelude::*;
use vstd::string::StringExecFns;
use crate::aggregate::{all_in_range, combine_results, results_of};
use crate::repository::completed_with;
use crate::ai::{
    first_step, step_after, AIService, GradingStep, GradingStepView, ProviderOutcome, ProviderOutcomeView,
    ProviderRequest, ProviderRequestView, ResponseGrading, ResponseGradingView,
};
use crate::error::{detail_of, heading_of, AppError, AppErrorView};
use crate::models::{
    feedback_views, status_step, submission_wf, GradingResults, GradingResultsView, GradingStatus,
    SectionScore, SectionScoreView, StatusView, Submission, SubmissionView,
};
use crate::scoring::{grade_multiple_choice, section_of};
use crate::system::current_time_millis;

verus! {

/// Where a run stands between two steps.
#[derive(Debug, PartialEq)]
pub enum Stage {
    /// The status `InProgress` is being saved.
    MarkingInProgress,
    /// The submission is being loaded.
    Loading,
    /// A provider is being asked about a written answer.
    Grading { section: SectionScore, answers: ResponseGrading },
    /// The results are being saved, and with them the status `Completed`.
    Completing,
    /// The status `Failed` is being saved.
    MarkingFailed { error: AppError },
}

/// A `Stage` as plain values.
pub enum StageView {
    MarkingInProgress,
    Loading,
    Grading { section: SectionScoreView, answers: ResponseGradingView },
    Completing,
    MarkingFailed(AppErrorView),
}

impl View for Stage {
    type V = StageView;

    open spec fn view(&self) -> StageView {
        match self {
            Stage::MarkingInProgress => StageView::MarkingInProgress,
            Stage::Loading => StageView::Loading,
            Stage::Grading { section, answers } => StageView::Grading {
                section: section@,
                answers: answers@,
            },
            Stage::Completing => StageView::Completing,
            Stage::MarkingFailed { error } => StageView::MarkingFailed(error@),
        }
    }
}

/// The grading run of one submission.
#[derive(Debug, PartialEq)]
pub struct GradingRun {
    submission_code: String,
    status: GradingStatus,
    stage: Stage,
}

/// A `GradingRun` as plain values.
pub struct GradingRunView {
    pub submission_code: Seq<char>,
    /// The status that was last saved.
    pub status: StatusView,
    pub stage: StageView,
}

/// The status that stands saved while a run is at `stage`: pending until
/// `InProgress` is saved, and in progress from then on.
pub open spec fn status_at(stage: StageView) -> StatusView {
    match stage {
        StageView::MarkingInProgress => StatusView::Pending,
        _ => StatusView::InProgress,
    }
}

/// What holds of every run: its saved status is that of its stage.
pub open spec fn run_wf(run: GradingRunView) -> bool {
    run.status == status_at(run.stage)
}

impl View for GradingRun {
    type V = GradingRunView;

    closed spec fn view(&self) -> GradingRunView {
        GradingRunView {
            submission_code: self.submission_code@,
            status: self.status@,
            stage: self.stage@,
        }
    }
}

/// What the caller reports back to a run.
#[derive(Debug, PartialEq)]
pub enum RunEvent {
    /// What was to be saved is saved.
    Saved,
    /// What was to be saved could not be saved: nothing was written.
    SaveFailed(String),
    /// The submission under the code of the run, if there is one.
    Loaded(Option<Submission>),
    /// The submission could not be loaded.
    LoadFailed(String),
    /// What the call to a provider gave.
    Replied(ProviderOutcome),
}

/// A `RunEvent` as plain values.
pub enum RunEventView {
    Saved,
    SaveFailed(Seq<char>),
    Loaded(Option<SubmissionView>),
    LoadFailed(Seq<char>),
    Replied(ProviderOutcomeView),
}

impl View for RunEvent {
    type V = RunEventView;

    open spec fn view(&self) -> RunEventView {
        match self {
            RunEvent::Saved => RunEventView::Saved,
            RunEvent::SaveFailed(m) => RunEventView::SaveFailed(m@),
            RunEvent::Loaded(found) => RunEventView::Loaded(
                match found {
                    Some(submission) => Some(submission@),
                    None => None,
                },
            ),
            RunEvent::LoadFailed(m) => RunEventView::LoadFailed(m@),
            RunEvent::Replied(o) => RunEventView::Replied(o@),
        }
    }
}

/// What a run asks of the caller next.
#[derive(Debug, PartialEq)]
pub enum RunStep {
    /// Save `status` as the status of the submission.
    SaveStatus { run: GradingRun, status: GradingStatus },
    /// Load the submission.
    Load { run: GradingRun },
    /// Make `request` to its provider.
    Ask { run: GradingRun, request: ProviderRequest },
    /// Save `results` as the results of the submission and `Completed` as
    /// its status, both in one write or neither.
    Complete { run: GradingRun, results: GradingResults },
    /// The run has ended, well or with the error given.
    Finished(Result<(), AppError>),
}

/// A `RunStep` as plain values.
pub enum RunStepView {
    SaveStatus { run: GradingRunView, status: StatusView },
    Load { run: GradingRunView },
    Ask { run: GradingRunView, request: ProviderRequestView },
    Complete { run: GradingRunView, results: GradingResultsView },
    Finished(Result<(), AppErrorView>),
}

impl View for RunStep {
    type V = RunStepView;

    open spec fn view(&self) -> RunStepView {
        match self {
            RunStep::SaveStatus { run, status } => RunStepView::SaveStatus { run: run@, status: status@ },
            RunStep::Load { run } => RunStepView::Load { run: run@ },
            RunStep::Ask { run, request } => RunStepView::Ask { run: run@, request: request@ },
            RunStep::Complete { run, results } => RunStepView::Complete { run: run@, results: results@ },
            RunStep::Finished(Ok(())) => RunStepView::Finished(Ok(())),
            RunStep::Finished(Err(e)) => RunStepView::Finished(Err(e@)),
        }
    }
}

/// The error text that a failed run records in the status.
pub open spec fn recorded_reason(error: AppErrorView) -> Seq<char> {
    heading_of(error) + detail_of(error)
}

/// What is reported where no submission stands under the code of a run.
pub open spec fn missing_submission_note() -> Seq<char> {
    "Submission not found"@
}

/// What is reported where the caller comes back with something the run
/// did not ask for.
pub open spec fn unexpected_event_note() -> Seq<char> {
    "unexpected event for this stage of the grading run"@
}

/// The first step of the run for the submission `code`: save the status
/// `InProgress`.
pub open spec fn run_start(code: Seq<char>) -> RunStepView {
    RunStepView::SaveStatus {
        run: GradingRunView {
            submission_code: code,
            status: StatusView::Pending,
            stage: StageView::MarkingInProgress,
        },
        status: StatusView::InProgress,
    }
}

/// The step of a run in which the grading of the written answers stands
/// at `step`. While a provider is to be asked, the run asks. Once every
/// answer is graded, the results are put together, naming the providers
/// that gave the replies, and are saved together with the status
/// `Completed`. Once an answer has failed, the status `Failed` is saved
/// with the reason, and no results.
pub open spec fn run_on_grading(
    run: GradingRunView,
    section: SectionScoreView,
    step: GradingStepView,
    now: int,
) -> RunStepView {
    match step {
        GradingStepView::Ask { grading, request } => RunStepView::Ask {
            run: GradingRunView { stage: StageView::Grading { section, answers: grading }, ..run },
            request,
        },
        GradingStepView::Done { results, suppliers } => RunStepView::Complete {
            run: GradingRunView { stage: StageView::Completing, ..run },
            results: results_of(section, results, suppliers, now),
        },
        GradingStepView::Failed(error) => RunStepView::SaveStatus {
            run: GradingRunView { stage: StageView::MarkingFailed(error), ..run },
            status: StatusView::Failed(recorded_reason(error)),
        },
    }
}

/// The step that follows `event`, at the time `now`.
pub open spec fn run_after(
    guidelines: Seq<char>,
    run: GradingRunView,
    event: RunEventView,
    now: int,
) -> RunStepView {
    match event {
        RunEventView::SaveFailed(reason) => RunStepView::Finished(Err(AppErrorView::Internal(reason))),
        RunEventView::LoadFailed(reason) => RunStepView::Finished(Err(AppErrorView::Internal(reason))),
        RunEventView::Saved => match run.stage {
            StageView::MarkingInProgress => RunStepView::Load {
                run: GradingRunView { status: StatusView::InProgress, stage: StageView::Loading, ..run },
            },
            StageView::Completing => RunStepView::Finished(Ok(())),
            StageView::MarkingFailed(error) => RunStepView::Finished(Err(error)),
            _ => RunStepView::Finished(Err(AppErrorView::Internal(unexpected_event_note()))),
        },
        RunEventView::Loaded(loaded) => match run.stage {
            StageView::Loading => match loaded {
                Some(submission) => run_on_grading(
                    run,
                    section_of(submission.responses.multiple_choice),
                    first_step(guidelines, submission.responses.extended_response),
                    now,
                ),
                None => RunStepView::Finished(Err(AppErrorView::NotFound(missing_submission_note()))),
            },
            _ => RunStepView::Finished(Err(AppErrorView::Internal(unexpected_event_note()))),
        },
        RunEventView::Replied(outcome) => match run.stage {
            StageView::Grading { section, answers } => run_on_grading(
                run,
                section,
                step_after(guidelines, answers, outcome),
                now,
            ),
            _ => RunStepView::Finished(Err(AppErrorView::Internal(unexpected_event_note()))),
        },
    }
}

/// The run that a step hands on, if it hands one on.
pub open spec fn run_of(step: RunStepView) -> Option<GradingRunView> {
    match step {
        RunStepView::SaveStatus { run, .. } => Some(run),
        RunStepView::Load { run } => Some(run),
        RunStepView::Ask { run, .. } => Some(run),
        RunStepView::Complete { run, .. } => Some(run),
        RunStepView::Finished(_) => None,
    }
}

/// The record of the submission once the write that `step` asks for is
/// made: the status alone for `SaveStatus`, the results and the status
/// `Completed` together for `Complete`, and the record as it was for a
/// step that writes nothing.
pub open spec fn record_after(record: SubmissionView, step: RunStepView) -> SubmissionView {
    match step {
        RunStepView::SaveStatus { status, .. } => SubmissionView { grading_status: status, ..record },
        RunStepView::Complete { results, .. } => completed_with(record, results),
        _ => record,
    }
}

/// The record once the caller has dealt with `step` and reports `event`:
/// written as `step` asks where the write is reported as made, and as it
/// was otherwise.
pub open spec fn record_on(record: SubmissionView, step: RunStepView, event: RunEventView) -> SubmissionView {
    if event is Saved {
        record_after(record, step)
    } else {
        record
    }
}

/// Whether `step` and the record of the submission go together: the step
/// is one that a run takes at its stage, the record has results if and
/// only if its status is `Completed`, and while the run lasts the status
/// on record is the one the run holds as saved.
pub open spec fn in_step(step: RunStepView, record: SubmissionView) -> bool {
    &&& submission_wf(record)
    &&& match step {
        RunStepView::SaveStatus { run, status } => run_wf(run) && record.grading_status == run.status && (
        (run.stage is MarkingInProgress && status is InProgress) || (run.stage is MarkingFailed && status
            is Failed)),
        RunStepView::Load { run } => run_wf(run) && record.grading_status == run.status && run.stage
            is Loading,
        RunStepView::Ask { run, .. } => run_wf(run) && record.grading_status == run.status && run.stage
            is Grading,
        RunStepView::Complete { run, .. } => run_wf(run) && record.grading_status == run.status
            && run.stage is Completing,
        RunStepView::Finished(_) => true,
    }
}

impl GradingRun {
    #[verifier::type_invariant]
    spec fn inv(&self) -> bool {
        &&& self.status@ == status_at(self.stage@)
        &&& self.stage matches Stage::Grading { section, .. } ==> section.in_range()
    }

    /// The code of the submission that the run grades.
    pub fn submission_code(&self) -> (r: &String)
        ensures
            r@ == self@.submission_code,
    {
        &self.submission_code
    }

    /// The status that was last saved.
    pub fn status(&self) -> (r: &GradingStatus)
        ensures
            r@ == self@.status,
            run_wf(self@),
    {
        proof {
            use_type_invariant(self);
        }
        &self.status
    }

    /// Starts the run for the submission `submission_code`.
    pub fn start(submission_code: String) -> (r: RunStep)
        ensures
            r@ == run_start(submission_code@),
    {
        RunStep::SaveStatus {
            run: GradingRun {
                submission_code,
                status: GradingStatus::Pending,
                stage: Stage::MarkingInProgress,
            },
            status: GradingStatus::InProgress,
        }
    }

    fn on_grading(submission_code: String, section: SectionScore, step: GradingStep, now: i64) -> (r:
        RunStep)
        requires
            section.in_range(),
            step matches GradingStep::Done { results: all, .. } ==> all_in_range(feedback_views(all@)),
        ensures
            r@ == run_on_grading(
                GradingRunView {
                    submission_code: submission_code@,
                    status: StatusView::InProgress,
                    stage: StageView::Loading,
                },
                section@,
                step@,
                now as int,
            ),
    {
        match step {
            GradingStep::Ask { grading, request } => RunStep::Ask {
                run: GradingRun {
                    submission_code,
                    status: GradingStatus::InProgress,
                    stage: Stage::Grading { section, answers: grading },
                },
                request,
            },
            GradingStep::Done { results, suppliers } => {
                let combined = combine_results(&section, &results, &suppliers, now);
                RunStep::Complete {
                    run: GradingRun {
                        submission_code,
                        status: GradingStatus::InProgress,
                        stage: Stage::Completing,
                    },
                    results: combined,
                }
            },
            GradingStep::Failed(error) => {
                let reason = error.message();
                RunStep::SaveStatus {
                    run: GradingRun {
                        submission_code,
                        status: GradingStatus::InProgress,
                        stage: Stage::MarkingFailed { error },
                    },
                    status: GradingStatus::Failed { error: reason },
                }
            },
        }
    }

    fn unexpected() -> (r: RunStep)
        ensures
            r@ == RunStepView::Finished(Err(AppErrorView::Internal(unexpected_event_note()))),
    {
        RunStep::Finished(
            Err(AppError::Internal(String::from_str("unexpected event for this stage of the grading run"))),
        )
    }

    /// The step that follows `event`, where results put together in this
    /// step are graded at `now`, in milliseconds since the Unix epoch.
    pub fn advance_at(self, service: &AIService, event: RunEvent, now: i64) -> (r: RunStep)
        ensures
            r@ == run_after(service.guidelines(), self@, event@, now as int),
    {
        proof {
            use_type_invariant(&self);
        }
        let GradingRun { submission_code, status, stage } = self;
        match event {
            RunEvent::SaveFailed(reason) => RunStep::Finished(Err(AppError::Internal(reason))),
            RunEvent::LoadFailed(reason) => RunStep::Finished(Err(AppError::Internal(reason))),
            RunEvent::Saved => match stage {
                Stage::MarkingInProgress => RunStep::Load {
                    run: GradingRun {
                        submission_code,
                        status: GradingStatus::InProgress,
                        stage: Stage::Loading,
                    },
                },
                Stage::Completing => RunStep::Finished(Ok(())),
                Stage::MarkingFailed { error } => RunStep::Finished(Err(error)),
                _ => Self::unexpected(),
            },
            RunEvent::Loaded(loaded) => match stage {
                Stage::Loading => match loaded {
                    Some(submission) => {
                        let section = grade_multiple_choice(&submission.responses.multiple_choice);
                        let step = service.grade_extended_responses(submission.responses.extended_response);
                        Self::on_grading(submission_code, section, step, now)
                    },
                    None => RunStep::Finished(
                        Err(AppError::NotFound(String::from_str("Submission not found"))),
                    ),
                },
                _ => Self::unexpected(),
            },
            RunEvent::Replied(outcome) => match stage {
                Stage::Grading { section, answers } => {
                    let step = service.grade_single_response(answers, &outcome);
                    Self::on_grading(submission_code, section, step, now)
                },
                _ => Self::unexpected(),
            },
        }
    }

    /// The step that follows `event`. Results put together in this step
    /// are graded at the time of the call.
    pub fn advance(self, service: &AIService, event: RunEvent) -> (r: RunStep)
        ensures
            exists|now: int| r@ == run_after(service.guidelines(), self@, event@, now),
    {
        let now = current_time_millis();
        self.advance_at(service, event, now)
    }
}

/// A run starts with a pending status and asks first for `InProgress`. It
/// goes together with the record of a submission that is pending and has
/// no results, as intake leaves it.
pub proof fn lemma_run_starts_pending(code: Seq<char>, record: SubmissionView)
    requires
        record.grading_status is Pending,
        record.results is None,
    ensures
        run_start(code) matches RunStepView::SaveStatus { run, status } && run_wf(run) && run.status
            is Pending && status is InProgress,
        in_step(run_start(code), record),
{
}

/// The saved status of a run moves only forward: each step leaves it as
/// it is or takes it one step on, from pending to in progress and no
/// further while the run lasts. A status that a step asks to save is one
/// step on from the saved one, and so is `Completed` where a step asks to
/// complete.
pub proof fn lemma_status_moves_forward(
    guidelines: Seq<char>,
    run: GradingRunView,
    event: RunEventView,
    now: int,
)
    requires
        run_wf(run),
    ensures
        match run_of(run_after(guidelines, run, event, now)) {
            Some(next) => run_wf(next) && (next.status == run.status || status_step(
                run.status,
                next.status,
            )),
            None => true,
        },
        run_after(guidelines, run, event, now) matches RunStepView::SaveStatus { run: next, status }
            ==> status_step(next.status, status) && status is Failed,
        run_after(guidelines, run, event, now) matches RunStepView::Complete { run: next, .. }
            ==> status_step(next.status, StatusView::Completed),
{
}

/// A record has results if and only if its status is `Completed`, at
/// every step of a run and after its end, however the run ends. Where a
/// step and the record go together, and the caller reports `event` after
/// dealing with the step, the record still has results exactly when it is
/// completed, and it goes together with the step that follows. A write
/// that is reported as failed has changed nothing, and the run then ends.
pub proof fn lemma_run_keeps_record_well_formed(
    guidelines: Seq<char>,
    step: RunStepView,
    record: SubmissionView,
    event: RunEventView,
    now: int,
)
    requires
        in_step(step, record),
        run_of(step) is Some,
    ensures
        submission_wf(record_after(record, step)),
        submission_wf(record_on(record, step, event)),
        in_step(run_after(guidelines, run_of(step)->0, event, now), record_on(record, step, event)),
        run_after(guidelines, run_of(step)->0, event, now) is Finished ==> (record_on(
            record,
            step,
            event,
        ).results is Some <==> record_on(record, step, event).grading_status is Completed),
{
}

/// Results are written only by the step that completes the run, and that
/// step writes the status `Completed` with them: once it is reported as
/// made, the run ends well, and the record holds the results under the
/// status `Completed`.
pub proof fn lemma_results_only_when_completed(
    guidelines: Seq<char>,
    step: RunStepView,
    record: SubmissionView,
    now: int,
)
    requires
        in_step(step, record),
    ensures
        record_after(record, step).results != record.results ==> step is Complete,
        step matches RunStepView::Complete { run, results } ==> record_after(record, step).results == Some(
            results,
        ) && record_after(record, step).grading_status is Completed && run_after(
            guidelines,
            run,
            RunEventView::Saved,
            now,
        ) == RunStepView::Finished(Ok(())),
{
}

/// A run whose grading failed saves the status `Failed` with the reason
/// and then ends with the error: it asks for nothing else, and the record
/// is left without results.
pub proof fn lemma_failed_run_saves_no_results(
    guidelines: Seq<char>,
    step: RunStepView,
    record: SubmissionView,
    now: int,
)
    requires
        in_step(step, record),
        step matches RunStepView::SaveStatus { status, .. } && status is Failed,
    ensures
        step matches RunStepView::SaveStatus { run: marking, status } && marking.stage
            matches StageView::MarkingFailed(error) && run_after(
            guidelines,
            marking,
            RunEventView::Saved,
            now,
        ) == RunStepView::Finished(Err(error)),
        record_after(record, step).grading_status is Failed,
        record_after(record, step).results is None,
{
}

/// The status that a failed run saves holds the reason of the failure.
pub proof fn lemma_failure_is_recorded(
    guidelines: Seq<char>,
    run: GradingRunView,
    event: RunEventView,
    now: int,
)
    ensures
        run_after(guidelines, run, event, now) matches RunStepView::SaveStatus { run: marking, status }
            ==> marking.stage matches StageView::MarkingFailed(error) && status == StatusView::Failed(
            recorded_reason(error),
        ),
{
}

} // verus!
