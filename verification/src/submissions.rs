//! Intake: taking a submission on record, or turning it away.

use vstd::prelude::*;
use vstd::string::StringExecFns;
use crate::error::{AppError, AppErrorView};
use crate::grading::{run_start, GradingRun, RunStep};
use crate::models::{
    ExamResponses, ExamResponsesView, GradingStatus, StatusView, Submission, SubmissionView,
};
use crate::repository::{
    duplicate_code_note, knows, lemma_position_found, lemma_position_of, position_of, SubmissionRepository,
};
use crate::system::{current_time_millis, fresh_id};
use crate::text::{chars_of, find_first, lemma_index_of_is_first};

verus! {

/// The least length of a submission code, in bytes.
pub const MIN_CODE_LENGTH: usize = 10;

/// What a candidate sends in.
#[derive(Clone, Debug, PartialEq, Eq)]
pub struct SubmitExamRequest {
    pub submission_code: String,
    pub responses: ExamResponses,
}

/// A `SubmitExamRequest` as plain values.
pub struct SubmitExamRequestView {
    pub submission_code: Seq<char>,
    pub responses: ExamResponsesView,
}

impl View for SubmitExamRequest {
    type V = SubmitExamRequestView;

    open spec fn view(&self) -> SubmitExamRequestView {
        SubmitExamRequestView { submission_code: self.submission_code@, responses: self.responses@ }
    }
}

/// What a candidate gets back for a submission that was taken.
#[derive(Clone, Debug, PartialEq, Eq)]
pub struct SubmitExamResponse {
    pub success: bool,
    pub submission_id: u128,
    pub message: String,
}

/// A submission that was taken: what the candidate gets back, and the
/// first step of the grading run that is now due.
#[derive(Debug, PartialEq)]
pub struct AcceptedSubmission {
    pub response: SubmitExamResponse,
    pub grading: RunStep,
}

/// What intake makes of a code.
#[derive(Clone, Copy, Debug, PartialEq, Eq, Structural)]
pub enum IntakeVerdict {
    /// The code is well formed and new.
    Accepted,
    /// The code is not well formed.
    Invalid,
    /// The code is well formed and already on record.
    Duplicate,
}

/// The format rule for codes: at least `MIN_CODE_LENGTH` bytes in UTF-8,
/// and a hyphen among the characters.
pub open spec fn code_is_valid(code: Seq<char>) -> bool {
    vstd::utf8::encode_utf8(code).len() >= MIN_CODE_LENGTH && code.contains('-')
}

/// The verdict on `code`, given whether it is on record already. The
/// format is looked at first.
pub open spec fn verdict_on(code: Seq<char>, already_known: bool) -> IntakeVerdict {
    if !code_is_valid(code) {
        IntakeVerdict::Invalid
    } else if already_known {
        IntakeVerdict::Duplicate
    } else {
        IntakeVerdict::Accepted
    }
}

/// The verdict on `code`, given the submissions on record.
pub open spec fn intake_verdict(records: Seq<SubmissionView>, code: Seq<char>) -> IntakeVerdict {
    verdict_on(code, knows(records, code))
}

/// The record that intake makes of a request.
pub open spec fn new_submission(request: SubmitExamRequestView, id: int, submitted_at: int) -> SubmissionView {
    SubmissionView {
        id,
        submission_code: request.submission_code,
        responses: request.responses,
        submitted_at,
        grading_status: StatusView::Pending,
        results: None,
    }
}

/// The records after intake has dealt with `request`: one more where the
/// request is accepted, and the same otherwise.
pub open spec fn records_after_intake(
    records: Seq<SubmissionView>,
    request: SubmitExamRequestView,
    id: int,
    submitted_at: int,
) -> Seq<SubmissionView> {
    if intake_verdict(records, request.submission_code) is Accepted {
        records.push(new_submission(request, id, submitted_at))
    } else {
        records
    }
}

/// What is reported for a code that is not well formed.
pub open spec fn invalid_code_note() -> Seq<char> {
    "Invalid submission code format"@
}

/// What a candidate is told about a submission that was taken.
pub open spec fn receipt_note() -> Seq<char> {
    "Submission received and queued for grading"@
}

/// Whether `code` meets the format rule for codes.
pub fn is_valid_submission_code(code: &str) -> (b: bool)
    ensures
        b == code_is_valid(code@),
{
    if code.as_bytes().len() < MIN_CODE_LENGTH {
        return false;
    }
    let cs = chars_of(code);
    let hyphen = find_first(&cs, '-');
    proof {
        lemma_index_of_is_first(code@, '-');
        if hyphen < cs.len() {
            assert(code@[hyphen as int] == '-');
        }
    }
    hyphen < cs.len()
}

/// The verdict on `code`, given whether it is on record already.
pub fn check_submission(code: &str, already_known: bool) -> (r: IntakeVerdict)
    ensures
        r == verdict_on(code@, already_known),
{
    if !is_valid_submission_code(code) {
        IntakeVerdict::Invalid
    } else if already_known {
        IntakeVerdict::Duplicate
    } else {
        IntakeVerdict::Accepted
    }
}

/// The error with which a submission is turned away.
pub fn rejection(verdict: IntakeVerdict) -> (r: Option<AppError>)
    ensures
        match verdict {
            IntakeVerdict::Accepted => r is None,
            IntakeVerdict::Invalid => r matches Some(e) && e@ == AppErrorView::Validation(invalid_code_note()),
            IntakeVerdict::Duplicate => r matches Some(e) && e@ == AppErrorView::Conflict(
                duplicate_code_note(),
            ),
        },
{
    match verdict {
        IntakeVerdict::Accepted => None,
        IntakeVerdict::Invalid => Some(
            AppError::Validation(String::from_str("Invalid submission code format")),
        ),
        IntakeVerdict::Duplicate => Some(
            AppError::Conflict(String::from_str("Submission code already exists")),
        ),
    }
}

/// The record of a request that was accepted: pending, and without
/// results.
pub fn accept_submission(request: SubmitExamRequest, id: u128, submitted_at: i64) -> (r: Submission)
    ensures
        r@ == new_submission(request@, id as int, submitted_at as int),
        r.wf(),
{
    Submission {
        id,
        submission_code: request.submission_code,
        responses: request.responses,
        submitted_at,
        grading_status: GradingStatus::Pending,
        results: None,
    }
}

/// What a candidate gets back for the submission `id`.
pub fn receipt(id: u128) -> (r: SubmitExamResponse)
    ensures
        r.success,
        r.submission_id == id,
        r.message@ == receipt_note(),
{
    SubmitExamResponse {
        success: true,
        submission_id: id,
        message: String::from_str("Submission received and queued for grading"),
    }
}

/// Intake with the identifier and the time given. A code that is not well
/// formed is turned away with `Validation`, one that is on record with
/// `Conflict`, whatever the responses. Any other is put on record as
/// pending, and the first step of its grading run is handed back with the
/// receipt: grading is due, and is not waited for.
pub fn submit_exam_at(
    repository: &mut SubmissionRepository,
    request: SubmitExamRequest,
    id: u128,
    submitted_at: i64,
) -> (r: Result<AcceptedSubmission, AppError>)
    ensures
        final(repository)@ == records_after_intake(
            old(repository)@,
            request@,
            id as int,
            submitted_at as int,
        ),
        match intake_verdict(old(repository)@, request.submission_code@) {
            IntakeVerdict::Accepted => r matches Ok(taken) && taken.response.success
                && taken.response.submission_id == id && taken.response.message@ == receipt_note()
                && taken.grading@ == run_start(request.submission_code@),
            IntakeVerdict::Invalid => r matches Err(e) && e@ == AppErrorView::Validation(
                invalid_code_note(),
            ),
            IntakeVerdict::Duplicate => r matches Err(e) && e@ == AppErrorView::Conflict(
                duplicate_code_note(),
            ),
        },
{
    let known = repository.submission_exists(request.submission_code.as_str());
    let verdict = check_submission(request.submission_code.as_str(), known);
    match rejection(verdict) {
        Some(error) => Err(error),
        None => {
            let code = request.submission_code.clone();
            let record = accept_submission(request, id, submitted_at);
            match repository.create(record) {
                Ok(()) => Ok(AcceptedSubmission { response: receipt(id), grading: GradingRun::start(code) }),
                Err(error) => Err(error),
            }
        },
    }
}

/// Intake. The identifier is drawn afresh and the time is that of the
/// call; see `submit_exam_at` for the rest.
pub fn submit_exam(repository: &mut SubmissionRepository, request: SubmitExamRequest) -> (r: Result<
    AcceptedSubmission,
    AppError,
>)
    ensures
        exists|id: int, submitted_at: int|
            final(repository)@ == records_after_intake(old(repository)@, request@, id, submitted_at) && (r
                matches Ok(taken) ==> taken.response.submission_id == id),
        match intake_verdict(old(repository)@, request.submission_code@) {
            IntakeVerdict::Accepted => r matches Ok(taken) && taken.response.success
                && taken.response.message@ == receipt_note() && taken.grading@ == run_start(
                request.submission_code@,
            ),
            IntakeVerdict::Invalid => r matches Err(e) && e@ == AppErrorView::Validation(
                invalid_code_note(),
            ),
            IntakeVerdict::Duplicate => r matches Err(e) && e@ == AppErrorView::Conflict(
                duplicate_code_note(),
            ),
        },
{
    let id = fresh_id();
    let submitted_at = current_time_millis();
    submit_exam_at(repository, request, id, submitted_at)
}

/// Once a record stands under a code, the code is known, whatever is put
/// on record after it.
pub proof fn lemma_known_after_push(records: Seq<SubmissionView>, record: SubmissionView)
    ensures
        knows(records.push(record), record.submission_code),
{
    let code = record.submission_code;
    let longer = records.push(record);
    lemma_position_of(records, code);
    let i = position_of(records, code);
    assert forall|j: int| 0 <= j < i implies (#[trigger] longer[j]).submission_code != code by {
        assert(longer[j] == records[j]);
    }
    if i < records.len() {
        assert(longer[i] == records[i]);
    }
    lemma_position_found(longer, code, i);
}

/// Submitting a well-formed code twice gives `Duplicate`, and so
/// `Conflict`, the second time, whatever the two requests hold besides the
/// code and whatever was on record before.
pub proof fn lemma_resubmission_conflicts(
    records: Seq<SubmissionView>,
    first: SubmitExamRequestView,
    first_id: int,
    first_at: int,
    second: SubmitExamRequestView,
)
    requires
        code_is_valid(first.submission_code),
        second.submission_code == first.submission_code,
    ensures
        intake_verdict(
            records_after_intake(records, first, first_id, first_at),
            second.submission_code,
        ) is Duplicate,
{
    if intake_verdict(records, first.submission_code) is Accepted {
        lemma_known_after_push(records, new_submission(first, first_id, first_at));
    }
}

} // verus!
