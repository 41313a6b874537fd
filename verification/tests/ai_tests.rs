use exam_grading::ai::{
    judge_call, judge_reply, primary_reply_text, read_reply, secondary_reply_text, AIService, CallVerdict,
    GradingStep, Provider, ProviderOutcome, ProviderRequest,
};
use exam_grading::decimal::Decimal;
use exam_grading::error::AppError;
use exam_grading::feedback::parse_ai_feedback;
use exam_grading::json::Json;

const INSTRUCTIONS: &str = "\n\nPlease provide:\n1. A score out of the maximum marks for this question\n2. Specific feedback on strengths and areas for improvement\n3. Band estimate if applicable\n4. Suggestions for improvement\n\nFormat your response as JSON with the following structure:\n{\n\"score\": <number>,\n\"max_score\": <number>,\n\"feedback\": \"<detailed feedback>\",\n\"strengths\": [\"<strength1>\", \"<strength2>\"],\n\"improvements\": [\"<improvement1>\", \"<improvement2>\"],\n\"band_estimate\": \"<band>\"\n}";

fn service() -> AIService {
    let mut service = AIService::new();
    service.initialize("Mark fairly.".to_string());
    service
}

fn text(s: &str) -> Json {
    Json::Text(s.to_string())
}

fn primary_body(content: &str) -> ProviderOutcome {
    let escaped = Json::Text(content.to_string()).to_pretty().unwrap();
    ProviderOutcome::Body(format!(
        "{{\"choices\":[{{\"message\":{{\"role\":\"assistant\",\"content\":{}}}}}]}}",
        escaped
    ))
}

fn secondary_body(content: &str) -> ProviderOutcome {
    let escaped = Json::Text(content.to_string()).to_pretty().unwrap();
    ProviderOutcome::Body(format!(
        "{{\"candidates\":[{{\"content\":{{\"parts\":[{{\"text\":{}}}]}}}}]}}",
        escaped
    ))
}

fn failure(reason: &str) -> ProviderOutcome {
    ProviderOutcome::Failure(reason.to_string())
}

fn questions() -> Vec<(String, Json)> {
    vec![("q21".to_string(), text("first answer")), ("q22".to_string(), text("second answer"))]
}

fn expect_ask(step: GradingStep) -> (exam_grading::ai::ResponseGrading, ProviderRequest) {
    match step {
        GradingStep::Ask { grading, request } => (grading, request),
        GradingStep::Done { .. } => panic!("grading is done"),
        GradingStep::Failed(e) => panic!("grading failed: {:?}", e),
    }
}

#[test]
fn grading_prompt_embeds_question_answer_and_schema() {
    let prompt = service().create_grading_prompt("q21", &text("NaCl"));
    assert_eq!(
        prompt,
        format!(
            "Grade the following HSC Chemistry response:\n\nQuestion ID: q21\nStudent Response: \"NaCl\"{}",
            INSTRUCTIONS
        )
    );
}

#[test]
fn grading_prompt_writes_structured_answers_indented() {
    let answer = Json::Object(vec![("rows".to_string(), Json::Array(vec![Json::Number("1".to_string())]))]);
    let prompt = service().create_grading_prompt("q30", &answer);
    assert!(prompt.contains("Student Response: {\n  \"rows\": [\n    1\n  ]\n}\n\nPlease provide:"));
}

#[test]
fn primary_request_carries_the_guidelines_beside_the_prompt() {
    let service = service();
    let request = service.primary_request("q21", &text("NaCl"));
    assert_eq!(request.provider, Provider::Primary);
    assert_eq!(request.system, Some("Mark fairly.".to_string()));
    assert_eq!(request.prompt, service.create_grading_prompt("q21", &text("NaCl")));
}

#[test]
fn secondary_request_carries_the_guidelines_in_the_prompt() {
    let service = service();
    let request = service.secondary_request("q21", &text("NaCl"));
    assert_eq!(request.provider, Provider::Secondary);
    assert_eq!(request.system, None);
    assert_eq!(
        request.prompt,
        format!(
            "Mark fairly.\n\nGrade the following HSC Chemistry response:\n\nQuestion ID: q21\nStudent Response: \"NaCl\"{}",
            INSTRUCTIONS
        )
    );
    assert_eq!(
        request.prompt,
        format!("Mark fairly.\n\n{}", service.create_grading_prompt("q21", &text("NaCl")))
    );
    for part in ["\"score\"", "\"max_score\"", "\"feedback\"", "\"strengths\"", "\"improvements\"", "\"band_estimate\""] {
        assert!(request.prompt.contains(part), "{}", part);
    }
}

#[test]
fn new_service_has_no_guidelines() {
    let request = AIService::new().primary_request("q", &Json::Null);
    assert_eq!(request.system, Some(String::new()));
}

#[test]
fn primary_reply_is_the_content_of_the_first_choice() {
    let doc = Json::parse("{\"choices\":[{\"message\":{\"role\":\"assistant\",\"content\":\"one\"}},{\"message\":{\"content\":\"two\"}}]}").unwrap();
    assert_eq!(primary_reply_text(&doc), Some("one".to_string()));
}

#[test]
fn primary_reply_is_missing_where_the_envelope_is_not_as_expected() {
    for body in [
        "{}",
        "{\"choices\":[]}",
        "{\"choices\":{}}",
        "{\"choices\":[{}]}",
        "{\"choices\":[{\"message\":{}}]}",
        "{\"choices\":[{\"message\":{\"content\":5}}]}",
        "{\"error\":{\"message\":\"quota\"}}",
        "[]",
    ] {
        let doc = Json::parse(body).unwrap();
        assert_eq!(primary_reply_text(&doc), None, "{}", body);
    }
}

#[test]
fn secondary_reply_is_the_text_of_the_first_part_or_empty() {
    let doc = Json::parse("{\"candidates\":[{\"content\":{\"parts\":[{\"text\":\"hello\"},{\"text\":\"x\"}]}}]}").unwrap();
    assert_eq!(secondary_reply_text(&doc), Some("hello".to_string()));
    let empty = Json::parse("{\"candidates\":[{\"content\":{\"parts\":[{\"text\":\"\"}]}}]}").unwrap();
    assert_eq!(secondary_reply_text(&empty), Some(String::new()));
    for body in ["{}", "{\"candidates\":[]}", "{\"candidates\":[{\"content\":{\"parts\":[{\"text\":1}]}}]}", "null"] {
        let doc = Json::parse(body).unwrap();
        assert_eq!(secondary_reply_text(&doc), None, "{}", body);
    }
}

#[test]
fn read_reply_needs_a_body_that_reads_as_json() {
    assert_eq!(read_reply(Provider::Primary, &primary_body("hi")), Some("hi".to_string()));
    assert_eq!(read_reply(Provider::Secondary, &secondary_body("hi")), Some("hi".to_string()));
    assert_eq!(read_reply(Provider::Primary, &failure("timeout")), None);
    assert_eq!(read_reply(Provider::Secondary, &failure("timeout")), None);
    assert_eq!(read_reply(Provider::Primary, &ProviderOutcome::Body("<html>".to_string())), None);
    assert_eq!(read_reply(Provider::Secondary, &ProviderOutcome::Body("<html>".to_string())), None);
    assert_eq!(read_reply(Provider::Primary, &secondary_body("hi")), None);
    assert_eq!(read_reply(Provider::Secondary, &primary_body("hi")), None);
    assert_eq!(read_reply(Provider::Secondary, &ProviderOutcome::Body("{}".to_string())), None);
    assert_eq!(read_reply(Provider::Primary, &ProviderOutcome::Body("{}".to_string())), None);
}

#[test]
fn a_reply_is_graded_whoever_gave_it() {
    let reply = "noise {\"score\": 3, \"max_score\": 4} noise";
    for provider in [Provider::Primary, Provider::Secondary] {
        match judge_reply(provider, Some(reply), "unused") {
            CallVerdict::Graded { feedback, provider: gave } => {
                assert_eq!(feedback, parse_ai_feedback(reply));
                assert_eq!(gave, provider);
            }
            _ => panic!("not graded"),
        }
    }
}

#[test]
fn without_a_reply_the_primary_is_followed_by_the_secondary() {
    assert!(matches!(judge_reply(Provider::Primary, None, "down"), CallVerdict::TrySecondary));
    assert!(matches!(judge_call(Provider::Primary, &failure("down")), CallVerdict::TrySecondary));
    assert!(matches!(
        judge_call(Provider::Primary, &ProviderOutcome::Body("not json".to_string())),
        CallVerdict::TrySecondary
    ));
}

#[test]
fn without_a_reply_the_secondary_fails_the_question() {
    match judge_call(Provider::Secondary, &failure("connection refused")) {
        CallVerdict::Failed(e) => assert_eq!(e, AppError::AiProvider("connection refused".to_string())),
        _ => panic!("not failed"),
    }
    match judge_call(Provider::Secondary, &ProviderOutcome::Body("not json".to_string())) {
        CallVerdict::Failed(e) => {
            assert_eq!(e, AppError::AiProvider("provider response could not be read".to_string()))
        }
        _ => panic!("not failed"),
    }
}

#[test]
fn an_unparsable_reply_inside_a_good_envelope_is_no_failure() {
    match judge_call(Provider::Primary, &primary_body("Sorry, no JSON today")) {
        CallVerdict::Graded { feedback, provider } => {
            assert_eq!(provider, Provider::Primary);
            assert_eq!(feedback.score, Decimal { thousandths: 0 });
            assert_eq!(feedback.max_score, Decimal { thousandths: 1_000 });
            assert_eq!(feedback.feedback, "Sorry, no JSON today");
            assert_eq!(feedback.improvements, vec!["Response could not be parsed properly"]);
        }
        _ => panic!("not graded"),
    }
}

#[test]
fn grading_without_answers_is_done_at_once() {
    match service().grade_extended_responses(Vec::new()) {
        GradingStep::Done { results, suppliers } => {
            assert!(results.is_empty());
            assert!(suppliers.is_empty());
        }
        _ => panic!("not done"),
    }
}

#[test]
fn grading_asks_the_primary_provider_about_each_answer_in_order() {
    let service = service();
    let (grading, request) = expect_ask(service.grade_extended_responses(questions()));
    assert_eq!(grading.position(), 0);
    assert_eq!(grading.awaited(), Provider::Primary);
    assert_eq!(request, service.primary_request("q21", &text("first answer")));

    let (grading, request) =
        expect_ask(service.grade_single_response(grading, &primary_body("{\"score\": 1, \"max_score\": 2}")));
    assert_eq!(grading.position(), 1);
    assert_eq!(grading.awaited(), Provider::Primary);
    assert_eq!(request, service.primary_request("q22", &text("second answer")));

    match service.grade_single_response(grading, &primary_body("{\"score\": 3, \"max_score\": 5}")) {
        GradingStep::Done { results, suppliers } => {
            assert_eq!(suppliers, vec![Provider::Primary, Provider::Primary]);
            assert_eq!(results.len(), 2);
            assert_eq!(results[0].score, Decimal { thousandths: 1_000 });
            assert_eq!(results[0].max_score, Decimal { thousandths: 2_000 });
            assert_eq!(results[1].score, Decimal { thousandths: 3_000 });
            assert_eq!(results[1].max_score, Decimal { thousandths: 5_000 });
        }
        _ => panic!("not done"),
    }
}

#[test]
fn primary_failure_turns_to_the_secondary_on_the_same_answer() {
    let service = service();
    let (grading, _) = expect_ask(service.grade_extended_responses(questions()));
    let (grading, request) = expect_ask(service.grade_single_response(grading, &failure("503")));
    assert_eq!(grading.position(), 0);
    assert_eq!(grading.awaited(), Provider::Secondary);
    assert_eq!(request, service.secondary_request("q21", &text("first answer")));
}

#[test]
fn failover_is_transparent() {
    let service = service();
    let reply = "Sure! {\"score\": 2.5, \"max_score\": 3, \"feedback\": \"ok\", \"strengths\": [\"a\"]}";

    let (grading, _) = expect_ask(service.grade_extended_responses(questions()));
    let (grading, _) = expect_ask(service.grade_single_response(grading, &failure("timeout")));
    let (after_failover, next_request) =
        expect_ask(service.grade_single_response(grading, &secondary_body(reply)));

    let (grading, _) = expect_ask(service.grade_extended_responses(questions()));
    let (all_primary, primary_next_request) =
        expect_ask(service.grade_single_response(grading, &primary_body(reply)));

    assert_eq!(after_failover.position(), all_primary.position());
    assert_eq!(after_failover.awaited(), Provider::Primary);
    assert_eq!(all_primary.awaited(), Provider::Primary);
    assert_eq!(next_request, primary_next_request);

    let last = primary_body("{\"score\": 1}");
    let via_failover = service.grade_single_response(after_failover, &last);
    let via_primary = service.grade_single_response(all_primary, &last);
    match (via_failover, via_primary) {
        (
            GradingStep::Done { results: a, suppliers: by_failover },
            GradingStep::Done { results: b, suppliers: by_primary },
        ) => {
            assert_eq!(a, b);
            assert_eq!(a[0], parse_ai_feedback(reply));
            assert_eq!(by_failover, vec![Provider::Secondary, Provider::Primary]);
            assert_eq!(by_primary, vec![Provider::Primary, Provider::Primary]);
        }
        _ => panic!("not done"),
    }
}

#[test]
fn failure_of_both_providers_fails_the_grading() {
    let service = service();
    let (grading, _) = expect_ask(service.grade_extended_responses(questions()));
    let (grading, _) = expect_ask(service.grade_single_response(grading, &failure("primary down")));
    match service.grade_single_response(grading, &failure("secondary down")) {
        GradingStep::Failed(e) => assert_eq!(e, AppError::AiProvider("secondary down".to_string())),
        _ => panic!("not failed"),
    }
}

#[test]
fn failure_on_a_later_answer_fails_the_grading_too() {
    let service = service();
    let (grading, _) = expect_ask(service.grade_extended_responses(questions()));
    let (grading, _) = expect_ask(service.grade_single_response(grading, &primary_body("{\"score\": 1}")));
    let (grading, _) = expect_ask(service.grade_single_response(grading, &failure("primary down")));
    assert_eq!(grading.position(), 1);
    assert!(matches!(
        service.grade_single_response(grading, &ProviderOutcome::Body("garbage".to_string())),
        GradingStep::Failed(AppError::AiProvider(_))
    ));
}

#[test]
fn a_secondary_envelope_without_text_fails_the_question() {
    let service = service();
    for body in ["{}", "{\"candidates\":[]}", "{\"candidates\":[{\"content\":{\"parts\":[]}}]}", "{\"error\":\"quota\"}"] {
        let one = vec![("q21".to_string(), text("a"))];
        let (grading, _) = expect_ask(service.grade_extended_responses(one));
        let (grading, _) = expect_ask(service.grade_single_response(grading, &failure("down")));
        match service.grade_single_response(grading, &ProviderOutcome::Body(body.to_string())) {
            GradingStep::Failed(e) => {
                assert_eq!(e, AppError::AiProvider("provider response could not be read".to_string()))
            }
            _ => panic!("not failed: {}", body),
        }
    }
}

#[test]
fn a_secondary_reply_that_is_no_json_is_graded_to_the_degraded_feedback() {
    let service = service();
    let one = vec![("q21".to_string(), text("a"))];
    let (grading, _) = expect_ask(service.grade_extended_responses(one));
    let (grading, _) = expect_ask(service.grade_single_response(grading, &failure("down")));
    match service.grade_single_response(grading, &secondary_body("no object here")) {
        GradingStep::Done { results, suppliers } => {
            assert_eq!(results, vec![parse_ai_feedback("no object here")]);
            assert_eq!(suppliers, vec![Provider::Secondary]);
        }
        _ => panic!("not done"),
    }
}
