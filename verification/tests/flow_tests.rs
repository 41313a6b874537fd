use exam_grading::aggregate::combine_results;
use exam_grading::ai::{
    grading_prompt_for, secondary_prompt_for, AIService, Provider, ProviderOutcome, ProviderRequest,
};
use exam_grading::decimal::Decimal;
use exam_grading::error::AppError;
use exam_grading::grading::{GradingRun, RunEvent, RunStep};
use exam_grading::json::Json;
use exam_grading::models::{ExamResponses, GradingStatus, SectionScore, Submission};
use exam_grading::pdf::PDFService;
use exam_grading::reporting::{download_pdf, download_pdf_at, get_results, get_submission};
use exam_grading::repository::SubmissionRepository;
use exam_grading::submissions::{submit_exam, SubmitExamRequest};

fn responses() -> ExamResponses {
    let mut responses = ExamResponses::new(Decimal::whole(100));
    for (question, letter) in [("q1", "D"), ("q2", "C"), ("q3", "B"), ("q4", "A")] {
        responses.select(question.to_string(), letter.to_string());
    }
    responses.answer("q21".to_string(), Json::Text("Le Chatelier".to_string()));
    responses.answer("q22".to_string(), Json::Text("Titration".to_string()));
    responses
}

/// A provider for the run: the primary fails on the question named, the
/// secondary fails where `secondary_up` is not set.
fn provider(request: &ProviderRequest, primary_fails_on: &str, secondary_up: bool) -> ProviderOutcome {
    let reply = "Assessment: {\"score\": 3, \"max_score\": 5, \"feedback\": \"sound\"} end";
    let escaped = Json::Text(reply.to_string()).to_pretty().unwrap();
    match request.provider {
        Provider::Primary => {
            if primary_fails_on == "*" || request.prompt.contains(&format!("Question ID: {}\n", primary_fails_on)) {
                ProviderOutcome::Failure("primary unavailable".to_string())
            } else {
                ProviderOutcome::Body(format!("{{\"choices\":[{{\"message\":{{\"content\":{}}}}}]}}", escaped))
            }
        }
        Provider::Secondary => {
            if secondary_up {
                ProviderOutcome::Body(format!(
                    "{{\"candidates\":[{{\"content\":{{\"parts\":[{{\"text\":{}}}]}}}}]}}",
                    escaped
                ))
            } else {
                ProviderOutcome::Failure("secondary unavailable".to_string())
            }
        }
    }
}

fn run_to_end(
    repository: &mut SubmissionRepository,
    code: &str,
    primary_fails_on: &str,
    secondary_up: bool,
) -> (Result<(), AppError>, Vec<GradingStatus>, Vec<Provider>) {
    run_from(GradingRun::start(code.to_string()), repository, code, primary_fails_on, secondary_up)
}

fn run_from(
    first: RunStep,
    repository: &mut SubmissionRepository,
    code: &str,
    primary_fails_on: &str,
    secondary_up: bool,
) -> (Result<(), AppError>, Vec<GradingStatus>, Vec<Provider>) {
    let mut service = AIService::new();
    service.initialize("Guidelines".to_string());
    let mut seen = vec![repository.read(code).unwrap().grading_status.clone()];
    let mut asked = Vec::new();
    let mut step = first;
    loop {
        step = match step {
            RunStep::SaveStatus { run, status } => {
                let event = match repository.update_status(code, status) {
                    Ok(()) => RunEvent::Saved,
                    Err(e) => RunEvent::SaveFailed(e.message()),
                };
                seen.push(repository.read(code).unwrap().grading_status.clone());
                run.advance(&service, event)
            }
            RunStep::Load { run } => {
                let event = RunEvent::Loaded(repository.read(code).ok().cloned());
                run.advance(&service, event)
            }
            RunStep::Ask { run, request } => {
                asked.push(request.provider);
                let outcome = provider(&request, primary_fails_on, secondary_up);
                run.advance(&service, RunEvent::Replied(outcome))
            }
            RunStep::Complete { run, results } => {
                let event = match repository.update_results(code, results) {
                    Ok(()) => RunEvent::Saved,
                    Err(e) => RunEvent::SaveFailed(e.message()),
                };
                seen.push(repository.read(code).unwrap().grading_status.clone());
                run.advance(&service, event)
            }
            RunStep::Finished(outcome) => return (outcome, seen, asked),
        };
    }
}

#[test]
fn a_submission_is_taken_graded_and_completed() {
    let mut repository = SubmissionRepository::new();
    let request = SubmitExamRequest { submission_code: "CHEM-2024-001".to_string(), responses: responses() };
    let taken = submit_exam(&mut repository, request).unwrap();
    assert!(taken.response.success);

    let (outcome, seen, asked) = run_from(taken.grading, &mut repository, "CHEM-2024-001", "none", true);
    assert_eq!(outcome, Ok(()));
    assert_eq!(seen, vec![GradingStatus::Pending, GradingStatus::InProgress, GradingStatus::Completed]);
    assert_eq!(asked, vec![Provider::Primary, Provider::Primary]);

    let got = get_results(&repository, "CHEM-2024-001").unwrap();
    assert_eq!(got.status, GradingStatus::Completed);
    let results = got.results.unwrap();
    assert_eq!(results.total_score, Decimal { thousandths: 3_000 + 3_000 + 3_000 });
    assert_eq!(results.max_score, Decimal { thousandths: 20_000 + 5_000 + 5_000 });
    assert_eq!(results.section_scores.len(), 2);
    assert_eq!(results.question_feedback.len(), 3);
    assert_eq!(results.question_feedback[1].0, "Question 21");
    assert_eq!(results.question_feedback[1].1.feedback, "sound");
}

#[test]
fn a_run_with_failover_ends_with_the_same_results() {
    let mut plain = SubmissionRepository::new();
    let mut failing = SubmissionRepository::new();
    for repository in [&mut plain, &mut failing] {
        let request = SubmitExamRequest { submission_code: "CHEM-2024-001".to_string(), responses: responses() };
        submit_exam(repository, request).unwrap();
    }
    let (_, _, asked) = run_to_end(&mut plain, "CHEM-2024-001", "none", true);
    assert_eq!(asked, vec![Provider::Primary, Provider::Primary]);
    let (outcome, seen, asked) = run_to_end(&mut failing, "CHEM-2024-001", "q22", true);
    assert_eq!(outcome, Ok(()));
    assert_eq!(seen, vec![GradingStatus::Pending, GradingStatus::InProgress, GradingStatus::Completed]);
    assert_eq!(asked, vec![Provider::Primary, Provider::Primary, Provider::Secondary]);

    let mut a = get_results(&plain, "CHEM-2024-001").unwrap().results.unwrap();
    let mut b = get_results(&failing, "CHEM-2024-001").unwrap().results.unwrap();
    assert_eq!(a.ai_provider_used, "OpenAI o1-mini");
    assert_eq!(b.ai_provider_used, "OpenAI o1-mini, Gemini 2.5 Pro");
    a.graded_at = 0;
    b.graded_at = 0;
    a.ai_provider_used.clear();
    b.ai_provider_used.clear();
    assert_eq!(a, b);
}

#[test]
fn a_run_graded_by_the_secondary_names_the_secondary() {
    let mut repository = SubmissionRepository::new();
    let request = SubmitExamRequest { submission_code: "CHEM-2024-001".to_string(), responses: responses() };
    submit_exam(&mut repository, request).unwrap();
    let (outcome, seen, asked) = run_to_end(&mut repository, "CHEM-2024-001", "*", true);
    assert_eq!(outcome, Ok(()));
    assert_eq!(seen, vec![GradingStatus::Pending, GradingStatus::InProgress, GradingStatus::Completed]);
    assert_eq!(
        asked,
        vec![Provider::Primary, Provider::Secondary, Provider::Primary, Provider::Secondary]
    );
    let results = get_results(&repository, "CHEM-2024-001").unwrap().results.unwrap();
    assert_eq!(results.ai_provider_used, "Gemini 2.5 Pro");
}

#[test]
fn a_run_without_any_provider_fails_and_leaves_no_results() {
    let mut repository = SubmissionRepository::new();
    let request = SubmitExamRequest { submission_code: "CHEM-2024-001".to_string(), responses: responses() };
    submit_exam(&mut repository, request).unwrap();

    let (outcome, seen, asked) = run_to_end(&mut repository, "CHEM-2024-001", "q22", false);
    assert_eq!(outcome, Err(AppError::AiProvider("secondary unavailable".to_string())));
    assert_eq!(
        seen,
        vec![
            GradingStatus::Pending,
            GradingStatus::InProgress,
            GradingStatus::Failed { error: "AI provider error: secondary unavailable".to_string() },
        ]
    );
    assert_eq!(asked, vec![Provider::Primary, Provider::Primary, Provider::Secondary]);
    let got = get_results(&repository, "CHEM-2024-001").unwrap();
    assert_eq!(got.results, None);
    assert!(matches!(got.status, GradingStatus::Failed { .. }));
}

#[test]
fn a_second_run_on_a_finished_submission_changes_nothing() {
    let mut repository = SubmissionRepository::new();
    let request = SubmitExamRequest { submission_code: "CHEM-2024-001".to_string(), responses: responses() };
    submit_exam(&mut repository, request).unwrap();
    run_to_end(&mut repository, "CHEM-2024-001", "none", true);
    let before = get_results(&repository, "CHEM-2024-001").unwrap();
    let (outcome, seen, asked) = run_to_end(&mut repository, "CHEM-2024-001", "none", true);
    assert!(matches!(outcome, Err(AppError::Internal(_))));
    assert_eq!(seen, vec![GradingStatus::Completed, GradingStatus::Completed]);
    assert!(asked.is_empty());
    assert_eq!(get_results(&repository, "CHEM-2024-001").unwrap(), before);
}

#[test]
fn responses_keep_one_answer_per_question() {
    let mut responses = ExamResponses::new(Decimal::whole(30));
    responses.select("q1".to_string(), "A".to_string());
    responses.select("q2".to_string(), "B".to_string());
    responses.select("q1".to_string(), "D".to_string());
    assert_eq!(
        responses.multiple_choice,
        vec![("q1".to_string(), "D".to_string()), ("q2".to_string(), "B".to_string())]
    );
    responses.answer("q21".to_string(), Json::Null);
    responses.answer("q22".to_string(), Json::Bool(true));
    responses.answer("q21".to_string(), Json::Text("x".to_string()));
    assert_eq!(
        responses.extended_response,
        vec![("q21".to_string(), Json::Text("x".to_string())), ("q22".to_string(), Json::Bool(true))]
    );
    assert_eq!(responses.time_taken_minutes, Decimal::whole(30));
}

#[test]
fn get_submission_reads_the_record() {
    let mut repository = SubmissionRepository::new();
    let request = SubmitExamRequest { submission_code: "CHEM-2024-001".to_string(), responses: responses() };
    let taken = submit_exam(&mut repository, request).unwrap();
    let record = get_submission(&repository, "CHEM-2024-001").unwrap();
    assert_eq!(record.id, taken.response.submission_id);
    assert_eq!(record.submission_code, "CHEM-2024-001");
    assert_eq!(record.responses.multiple_choice.len(), 4);
    assert_eq!(
        get_submission(&repository, "CHEM-2024-002").err(),
        Some(AppError::NotFound("Submission not found".to_string()))
    );
}

fn graded() -> Submission {
    let mc = SectionScore { score: Decimal::whole(3), max_score: Decimal::whole(20), feedback: "3/20 correct".to_string() };
    Submission {
        id: 1,
        submission_code: "CHEM-2024-001".to_string(),
        responses: responses(),
        submitted_at: 0,
        grading_status: GradingStatus::Completed,
        results: Some(combine_results(&mc, &Vec::new(), &Vec::new(), 60_000)),
    }
}

#[test]
fn download_gives_the_report_with_its_file_name() {
    let submission = graded();
    let download = download_pdf_at(&submission, 120_000).unwrap();
    assert_eq!(download.file_name, "HSC_Chemistry_Results_CHEM-2024-001.pdf");
    assert_eq!(
        download.content_disposition,
        "attachment; filename=\"HSC_Chemistry_Results_CHEM-2024-001.pdf\""
    );
    assert_eq!(download.html, PDFService::new().generate_results_html_at(&submission, 120_000).unwrap());
    assert!(download.html.contains("<p><strong>Graded:</strong> 1970-01-01 00:01:00 UTC</p>"));
    assert!(download.html.contains("<p>Generated on: 1970-01-01 00:02:00 UTC</p>"));
    assert!(download.html.contains("Total Score: 3.0/20.0 (15.0%)"));
    let now = download_pdf(&submission).unwrap();
    assert_eq!(now.file_name, download.file_name);
    assert!(now.html.contains("<p><strong>Submitted:</strong> 1970-01-01 00:00:00 UTC</p>"));
}

#[test]
fn download_needs_results() {
    let mut submission = graded();
    submission.results = None;
    submission.grading_status = GradingStatus::InProgress;
    let expected = Err(AppError::Validation("No grading results available".to_string()));
    assert_eq!(download_pdf_at(&submission, 0), expected);
    assert_eq!(download_pdf(&submission), expected);
    assert_eq!(AppError::Validation(String::new()).status_code(), 400);
}

#[test]
fn report_takes_its_times_as_texts() {
    let submission = graded();
    let results = submission.results.as_ref().unwrap();
    let html = PDFService::new().generate_html_report_with(&submission, results, "then", "later", "now");
    assert!(html.contains("<p><strong>Submitted:</strong> then</p>"));
    assert!(html.contains("<p><strong>Graded:</strong> later</p>"));
    assert!(html.contains("<p>Generated on: now</p>"));
}

#[test]
fn prompts_take_the_answer_as_text() {
    assert!(grading_prompt_for("q21", "ANSWER").starts_with(
        "Grade the following HSC Chemistry response:\n\nQuestion ID: q21\nStudent Response: ANSWER\n\nPlease provide:\n1. A score"
    ));
    assert!(grading_prompt_for("q21", "ANSWER").ends_with("\"band_estimate\": \"<band>\"\n}"));
    assert_eq!(secondary_prompt_for("G", "q21", "ANSWER"), format!("G\n\n{}", grading_prompt_for("q21", "ANSWER")));
}

#[test]
fn copies_equal_what_they_copy() {
    let deep = Json::Object(vec![
        ("a".to_string(), Json::Array(vec![Json::Number("1.5".to_string()), Json::Null, Json::Bool(false)])),
        ("b".to_string(), Json::Object(vec![("c".to_string(), Json::Text("d".to_string()))])),
    ]);
    assert_eq!(deep.clone(), deep);
    let submission = graded();
    let copy = submission.clone();
    assert_eq!(copy.id, submission.id);
    assert_eq!(copy.submission_code, submission.submission_code);
    assert_eq!(copy.responses.multiple_choice, submission.responses.multiple_choice);
    assert_eq!(copy.responses.extended_response, submission.responses.extended_response);
    assert_eq!(copy.responses.time_taken_minutes, submission.responses.time_taken_minutes);
    assert_eq!(copy.submitted_at, submission.submitted_at);
    assert_eq!(copy.grading_status, submission.grading_status);
    assert_eq!(copy.results, submission.results);
}
