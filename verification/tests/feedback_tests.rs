use exam_grading::decimal::Decimal;
use exam_grading::feedback::{extract_embedded_object, feedback_from_document, parse_ai_feedback};
use exam_grading::json::Json;
use exam_grading::models::QuestionFeedback;

const UNREADABLE: &str = "Response could not be parsed properly";

fn marks(thousandths: i128) -> Decimal {
    Decimal { thousandths }
}

fn degraded(raw: &str) -> QuestionFeedback {
    QuestionFeedback {
        score: marks(0),
        max_score: marks(1_000),
        feedback: raw.to_string(),
        strengths: vec![],
        improvements: vec![UNREADABLE.to_string()],
        band_estimate: None,
    }
}

#[test]
fn embedded_object_spans_first_open_to_last_close() {
    assert_eq!(extract_embedded_object("ab {\"x\": {}} cd } ef"), Some("{\"x\": {}} cd }".to_string()));
    assert_eq!(extract_embedded_object("{}"), Some("{}".to_string()));
    assert_eq!(extract_embedded_object("é{é}é"), Some("{é}".to_string()));
}

#[test]
fn embedded_object_needs_an_open_before_a_close() {
    for raw in ["", "no braces", "{ only open", "only close }", "} reversed {", "}{"] {
        assert_eq!(extract_embedded_object(raw), None, "{:?}", raw);
    }
}

#[test]
fn object_wrapped_in_noise_gives_exactly_its_fields() {
    let raw = "Here is my assessment... {\"score\":2,\"max_score\":3,\"feedback\":\"Good work\",\"strengths\":[\"clear\",\"concise\"],\"improvements\":[\"units\"],\"band_estimate\":\"Band 5\"} ...hope that helps!";
    let got = parse_ai_feedback(raw);
    assert_eq!(
        got,
        QuestionFeedback {
            score: marks(2_000),
            max_score: marks(3_000),
            feedback: "Good work".to_string(),
            strengths: vec!["clear".to_string(), "concise".to_string()],
            improvements: vec!["units".to_string()],
            band_estimate: Some("Band 5".to_string()),
        }
    );
}

#[test]
fn reply_without_braces_gives_the_degraded_feedback() {
    let raw = "I cannot grade this response.";
    assert_eq!(parse_ai_feedback(raw), degraded(raw));
}

#[test]
fn bare_json_without_braces_gives_the_degraded_feedback() {
    assert_eq!(parse_ai_feedback("42"), degraded("42"));
    assert_eq!(parse_ai_feedback("[1, 2]"), degraded("[1, 2]"));
    assert_eq!(parse_ai_feedback(""), degraded(""));
}

#[test]
fn reply_with_reversed_braces_gives_the_degraded_feedback() {
    assert_eq!(parse_ai_feedback("} nothing {"), degraded("} nothing {"));
}

#[test]
fn malformed_object_gives_the_degraded_feedback() {
    let raw = "Result: {\"score\": 2, \"max_score\": } done";
    assert_eq!(parse_ai_feedback(raw), degraded(raw));
    let two = "{\"score\": 1} and {\"score\": 2}";
    assert_eq!(parse_ai_feedback(two), degraded(two));
}

#[test]
fn absent_fields_default_each_for_itself() {
    let raw = "{}";
    assert_eq!(
        parse_ai_feedback(raw),
        QuestionFeedback {
            score: marks(0),
            max_score: marks(1_000),
            feedback: raw.to_string(),
            strengths: vec![],
            improvements: vec![],
            band_estimate: None,
        }
    );
    let raw = "x {\"score\": 4} y";
    let got = parse_ai_feedback(raw);
    assert_eq!(got.score, marks(4_000));
    assert_eq!(got.max_score, marks(1_000));
    assert_eq!(got.feedback, raw);
    assert_eq!(got.improvements, Vec::<String>::new());
    let got = parse_ai_feedback("{\"max_score\": 6, \"band_estimate\": \"Band 3\"}");
    assert_eq!(got.score, marks(0));
    assert_eq!(got.max_score, marks(6_000));
    assert_eq!(got.band_estimate, Some("Band 3".to_string()));
}

#[test]
fn fields_of_the_wrong_kind_count_as_absent() {
    let raw = "{\"score\": \"2\", \"max_score\": null, \"feedback\": 7, \"strengths\": \"many\", \"improvements\": {\"a\": 1}, \"band_estimate\": 5}";
    assert_eq!(
        parse_ai_feedback(raw),
        QuestionFeedback {
            score: marks(0),
            max_score: marks(1_000),
            feedback: raw.to_string(),
            strengths: vec![],
            improvements: vec![],
            band_estimate: None,
        }
    );
}

#[test]
fn list_elements_that_are_no_strings_become_empty_texts() {
    let got = parse_ai_feedback("{\"strengths\": [\"a\", 1, null, \"b\"], \"improvements\": []}");
    assert_eq!(got.strengths, vec!["a", "", "", "b"]);
    assert_eq!(got.improvements, Vec::<String>::new());
}

#[test]
fn fractional_and_negative_scores_are_read() {
    let got = parse_ai_feedback("{\"score\": 2.5, \"max_score\": 4.0}");
    assert_eq!(got.score, marks(2_500));
    assert_eq!(got.max_score, marks(4_000));
    let got = parse_ai_feedback("{\"score\": -1, \"max_score\": 1e1}");
    assert_eq!(got.score, marks(-1_000));
    assert_eq!(got.max_score, marks(10_000));
    let got = parse_ai_feedback("{\"score\": 0.3333333}");
    assert_eq!(got.score, marks(333));
}

#[test]
fn very_large_and_very_small_scores_are_read() {
    let got = parse_ai_feedback("{\"score\": 1e300, \"max_score\": 1e-9}");
    assert_eq!(got.score, marks(1_000_000_000_000_000));
    assert_eq!(got.max_score, marks(0));
    let got = parse_ai_feedback("{\"score\": -1e300, \"max_score\": 1e16}");
    assert_eq!(got.score, marks(-1_000_000_000_000_000));
    assert_eq!(got.max_score, marks(1_000_000_000_000_000));
    let got = parse_ai_feedback("{\"score\": 1000000000001, \"max_score\": 1000000000000}");
    assert_eq!(got.score, marks(1_000_000_000_000_000));
    assert_eq!(got.max_score, marks(1_000_000_000_000_000));
    assert!(got.is_in_range());
    let got = parse_ai_feedback("{\"score\": 0.00049, \"max_score\": 0.0005}");
    assert_eq!(got.score, marks(0));
    assert_eq!(got.max_score, marks(1));
    let got = parse_ai_feedback("{\"score\": 0.00001, \"max_score\": 0.00009}");
    assert_eq!(got.score, marks(0));
    assert_eq!(got.max_score, marks(0));
    let got = parse_ai_feedback("{\"score\": 18446744073709551615, \"max_score\": -9223372036854775808}");
    assert_eq!(got.score, marks(1_000_000_000_000_000));
    assert_eq!(got.max_score, marks(-1_000_000_000_000_000));
}

#[test]
fn a_number_member_never_takes_the_default() {
    for number in ["0", "-0", "0.0", "1e-300", "5e-324", "1e300", "-1e300", "123456789012345678901234567890", "2.5", "1E2"] {
        let raw = format!("{{\"score\": {}, \"max_score\": {}}}", number, number);
        let got = parse_ai_feedback(&raw);
        assert_eq!(got.score, got.max_score, "{}", number);
    }
}

#[test]
fn feedback_from_document_follows_the_document_it_is_given() {
    let doc = Json::Object(vec![
        ("score".to_string(), Json::Number("1.5".to_string())),
        ("feedback".to_string(), Json::Text("fine".to_string())),
    ]);
    let got = feedback_from_document("raw reply", Some(&doc));
    assert_eq!(got.score, marks(1_500));
    assert_eq!(got.max_score, marks(1_000));
    assert_eq!(got.feedback, "fine");
    assert_eq!(feedback_from_document("raw reply", None), degraded("raw reply"));
    let not_an_object = Json::Array(vec![]);
    let got = feedback_from_document("raw reply", Some(&not_an_object));
    assert_eq!(got.feedback, "raw reply");
    assert_eq!(got.improvements, Vec::<String>::new());
}

#[test]
fn cloned_feedback_equals_the_original() {
    let got = parse_ai_feedback("{\"score\": 2, \"strengths\": [\"a\"], \"band_estimate\": \"B\"}");
    assert_eq!(got.clone(), got);
}
