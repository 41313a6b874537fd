//! What a candidate is told about a submission: its status in words, and
//! its results.

use vstd::prelude::*;
use vstd::string::StringExecFns;
use crate::error::{AppError, AppErrorView};
use crate::models::{GradingResults, GradingStatus, StatusView, Submission};
use crate::pdf::{
    attachment_header, attachment_of, no_results_note, report_file_name, report_html, report_of,
    results_file_name, totals_beyond_limit_note, totals_within_limit, PDFService,
};
use crate::repository::{knows, position_of, unknown_code_note, SubmissionRepository};
use crate::system::current_time_millis;

verus! {

/// The status of a submission, with a message for the candidate.
#[derive(Clone, Debug, PartialEq, Eq)]
pub struct GradingStatusResponse {
    pub status: GradingStatus,
    pub message: String,
}

/// The results of a submission, if it has any, with its status.
#[derive(Clone, Debug, PartialEq, Eq)]
pub struct ResultsResponse {
    pub results: Option<GradingResults>,
    pub status: GradingStatus,
}

/// The message that goes with a status.
pub open spec fn status_message_of(status: StatusView) -> Seq<char> {
    match status {
        StatusView::Pending => "Grading is queued and will begin shortly"@,
        StatusView::InProgress => "Your submission is currently being graded"@,
        StatusView::Completed => "Grading completed successfully"@,
        StatusView::Failed(error) => "Grading failed: "@ + error,
    }
}

/// The message that goes with `status`.
pub fn status_message(status: &GradingStatus) -> (r: String)
    ensures
        r@ == status_message_of(status@),
{
    match status {
        GradingStatus::Pending => String::from_str("Grading is queued and will begin shortly"),
        GradingStatus::InProgress => String::from_str("Your submission is currently being graded"),
        GradingStatus::Completed => String::from_str("Grading completed successfully"),
        GradingStatus::Failed { error } => {
            let mut message = String::from_str("Grading failed: ");
            message.append(error.as_str());
            message
        },
    }
}

/// The status of `submission`, with its message.
pub fn grading_status_of(submission: &Submission) -> (r: GradingStatusResponse)
    ensures
        r.status@ == submission.grading_status@,
        r.message@ == status_message_of(submission.grading_status@),
{
    GradingStatusResponse {
        status: submission.grading_status.clone(),
        message: status_message(&submission.grading_status),
    }
}

/// The results of `submission`, if it has any, with its status.
pub fn results_of_submission(submission: &Submission) -> (r: ResultsResponse)
    ensures
        r.status@ == submission@.grading_status,
        match r.results {
            Some(results) => submission@.results == Some(results@),
            None => submission@.results is None,
        },
{
    ResultsResponse {
        results: match &submission.results {
            Some(results) => Some(results.clone()),
            None => None,
        },
        status: submission.grading_status.clone(),
    }
}

/// The status of the submission under `code`, with its message, or
/// `NotFound`.
pub fn get_grading_status(repository: &SubmissionRepository, code: &str) -> (r: Result<
    GradingStatusResponse,
    AppError,
>)
    ensures
        match r {
            Ok(response) => {
                let record = repository@[position_of(repository@, code@)];
                &&& knows(repository@, code@)
                &&& response.status@ == record.grading_status
                &&& response.message@ == status_message_of(record.grading_status)
            },
            Err(e) => !knows(repository@, code@) && e@ == AppErrorView::NotFound(unknown_code_note()),
        },
{
    match repository.read(code) {
        Ok(record) => Ok(grading_status_of(record)),
        Err(error) => Err(error),
    }
}

/// The submission under `code`, or `NotFound`.
pub fn get_submission<'a>(repository: &'a SubmissionRepository, code: &str) -> (r: Result<
    &'a Submission,
    AppError,
>)
    ensures
        match r {
            Ok(record) => knows(repository@, code@) && record@ == repository@[position_of(repository@, code@)]
                && record@.submission_code == code@,
            Err(e) => !knows(repository@, code@) && e@ == AppErrorView::NotFound(unknown_code_note()),
        },
{
    repository.read(code)
}

/// The report on a submission, ready to be handed out as a file.
#[derive(Clone, Debug, PartialEq, Eq)]
pub struct ReportDownload {
    /// The report as an HTML document.
    pub html: String,
    pub file_name: String,
    /// The value of the header that hands the file out.
    pub content_disposition: String,
}

/// The report on `submission`, made at the time `now`, with the name of
/// its file. A submission without results is turned away with
/// `Validation`, and one with totals beyond `TOTAL_LIMIT` with `Internal`.
pub fn download_pdf_at(submission: &Submission, now: i64) -> (r: Result<ReportDownload, AppError>)
    ensures
        match r {
            Ok(download) => {
                &&& submission@.results matches Some(results) && totals_within_limit(results)
                    && download.html@ == report_html(report_of(submission@, results, now as int))
                &&& download.file_name@ == report_file_name(submission.submission_code@)
                &&& download.content_disposition@ == attachment_of(
                    report_file_name(submission.submission_code@),
                )
            },
            Err(e) => match submission@.results {
                None => e@ == AppErrorView::Validation(no_results_note()),
                Some(results) => !totals_within_limit(results) && e@ == AppErrorView::Internal(
                    totals_beyond_limit_note(),
                ),
            },
        },
{
    if submission.results.is_none() {
        return Err(AppError::Validation(String::from_str("No grading results available")));
    }
    match PDFService::new().generate_results_html_at(submission, now) {
        Ok(html) => {
            let file_name = results_file_name(submission.submission_code.as_str());
            let content_disposition = attachment_header(file_name.as_str());
            Ok(ReportDownload { html, file_name, content_disposition })
        },
        Err(error) => Err(error),
    }
}

/// The report on `submission`, made now, with the name of its file; see
/// `download_pdf_at` for the rest.
pub fn download_pdf(submission: &Submission) -> (r: Result<ReportDownload, AppError>)
    ensures
        match r {
            Ok(download) => {
                &&& submission@.results matches Some(results) && totals_within_limit(results) && exists|
                    now: int,
                | download.html@ == report_html(report_of(submission@, results, now))
                &&& download.file_name@ == report_file_name(submission.submission_code@)
                &&& download.content_disposition@ == attachment_of(
                    report_file_name(submission.submission_code@),
                )
            },
            Err(e) => match submission@.results {
                None => e@ == AppErrorView::Validation(no_results_note()),
                Some(results) => !totals_within_limit(results) && e@ == AppErrorView::Internal(
                    totals_beyond_limit_note(),
                ),
            },
        },
{
    let now = current_time_millis();
    download_pdf_at(submission, now)
}

/// The results and the status of the submission under `code`, or
/// `NotFound`.
pub fn get_results(repository: &SubmissionRepository, code: &str) -> (r: Result<ResultsResponse, AppError>)
    ensures
        match r {
            Ok(response) => {
                let record = repository@[position_of(repository@, code@)];
                &&& knows(repository@, code@)
                &&& response.status@ == record.grading_status
                &&& match response.results {
                    Some(results) => record.results == Some(results@),
                    None => record.results is None,
                }
            },
            Err(e) => !knows(repository@, code@) && e@ == AppErrorView::NotFound(unknown_code_note()),
        },
{
    match repository.read(code) {
        Ok(record) => Ok(results_of_submission(record)),
        Err(error) => Err(error),
    }
}

} // verus!
