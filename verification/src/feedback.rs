//! Reading a provider's reply into the feedback on one answer.

use vstd::prelude::*;
use vstd::string::StringExecFns;
use crate::decimal::{decimal_thousandths, Decimal};
use crate::json::{collect_texts, json_reading, lemma_view_of_parts, texts_of, Json, JsonView};
use crate::models::{QuestionFeedback, QuestionFeedbackView};
use crate::text::{
    chars_of, find_first, find_last, index_of, last_index_of, lemma_index_of, lemma_index_of_is_first,
    lemma_last_index_of, lemma_last_index_of_is_last, text_of, views_of,
};

verus! {

/// The one improvement listed where a reply holds no readable object.
pub open spec fn unreadable_reply_note() -> Seq<char> {
    "Response could not be parsed properly"@
}

/// The part of a reply from its first `{` to its last `}`, both included;
/// nothing where the reply has no `{` that stands before a `}`.
pub open spec fn embedded_object(raw: Seq<char>) -> Option<Seq<char>> {
    let start = index_of(raw, '{');
    let end = last_index_of(raw, '}');
    if start < end {
        Some(raw.subrange(start, end + 1))
    } else {
        None
    }
}

/// The number that the member `key` of `doc` holds, in thousandths:
/// rounded to the nearest thousandth, and held to `DECIMAL_LIMIT` on either
/// side of zero. Nothing where the member is missing or is no number.
pub open spec fn member_decimal(doc: JsonView, key: Seq<char>) -> Option<int> {
    match doc.member(key) {
        Some(JsonView::Number(numeral)) => decimal_thousandths(numeral),
        _ => None,
    }
}

/// The text that the member `key` of `doc` holds.
pub open spec fn member_text(doc: JsonView, key: Seq<char>) -> Option<Seq<char>> {
    match doc.member(key) {
        Some(value) => value.text(),
        None => None,
    }
}

/// The texts that the member `key` of `doc` lists; none where it is no list.
pub open spec fn member_texts(doc: JsonView, key: Seq<char>) -> Seq<Seq<char>> {
    match doc.member(key) {
        Some(JsonView::Array(items)) => texts_of(items),
        _ => Seq::empty(),
    }
}

/// The feedback that a readable object gives. Each member stands for
/// itself. A score that is present as a number is taken as it is. A
/// member that is missing, or is not of its kind, takes its default: a
/// score zero, a maximum one mark, a feedback text the whole reply, a list
/// empty, a band absent.
pub open spec fn lenient_feedback(raw: Seq<char>, doc: JsonView) -> QuestionFeedbackView {
    QuestionFeedbackView {
        score: match member_decimal(doc, "score"@) {
            Some(n) => n,
            None => 0,
        },
        max_score: match member_decimal(doc, "max_score"@) {
            Some(n) => n,
            None => 1000,
        },
        feedback: match member_text(doc, "feedback"@) {
            Some(text) => text,
            None => raw,
        },
        strengths: member_texts(doc, "strengths"@),
        improvements: member_texts(doc, "improvements"@),
        band_estimate: member_text(doc, "band_estimate"@),
    }
}

/// The feedback for a reply that holds no readable object: no marks out of
/// one, the reply itself as the feedback text, and a single improvement
/// that says so.
pub open spec fn degraded_feedback(raw: Seq<char>) -> QuestionFeedbackView {
    QuestionFeedbackView {
        score: 0,
        max_score: 1000,
        feedback: raw,
        strengths: Seq::empty(),
        improvements: seq![unreadable_reply_note()],
        band_estimate: None,
    }
}

/// The feedback for a reply, given what was read from its embedded object.
pub open spec fn feedback_for(raw: Seq<char>, doc: Option<JsonView>) -> QuestionFeedbackView {
    match doc {
        Some(d) => lenient_feedback(raw, d),
        None => degraded_feedback(raw),
    }
}

/// What the embedded object of a reply reads as, if it has one that
/// `serde_json` accepts.
pub open spec fn reply_document(raw: Seq<char>) -> Option<JsonView> {
    match embedded_object(raw) {
        Some(span) => json_reading(span),
        None => None,
    }
}

/// The feedback that a reply stands for.
pub open spec fn feedback_of_reply(raw: Seq<char>) -> QuestionFeedbackView {
    feedback_for(raw, reply_document(raw))
}

/// A reply that lacks an opening or a closing brace stands for the
/// degraded feedback: no marks out of one, the reply itself as the text,
/// and the one fixed improvement.
pub proof fn lemma_reply_without_braces_is_degraded(raw: Seq<char>)
    requires
        !raw.contains('{') || !raw.contains('}'),
    ensures
        embedded_object(raw) is None,
        feedback_of_reply(raw) == degraded_feedback(raw),
{
    lemma_index_of_is_first(raw, '{');
    lemma_last_index_of_is_last(raw, '}');
    if !raw.contains('{') {
        if index_of(raw, '{') < raw.len() {
            assert(raw[index_of(raw, '{')] == '{');
        }
    } else {
        if last_index_of(raw, '}') >= 0 {
            assert(raw[last_index_of(raw, '}')] == '}');
        }
    }
}

/// An object wrapped in noise is found exactly: where `before` has no
/// opening brace, `after` no closing brace, and `object` starts with the
/// one and ends with the other, the reply `before + object + after`
/// stands for what the fields of `object` give, and for the degraded
/// feedback where `object` does not read.
pub proof fn lemma_object_in_noise_is_found(before: Seq<char>, object: Seq<char>, after: Seq<char>)
    requires
        !before.contains('{'),
        !after.contains('}'),
        object.len() >= 2,
        object.first() == '{',
        object.last() == '}',
    ensures
        embedded_object(before + object + after) == Some(object),
        feedback_of_reply(before + object + after) == feedback_for(
            before + object + after,
            json_reading(object),
        ),
{
    let raw = before + object + after;
    let start = before.len() as int;
    let end = before.len() + object.len() - 1;
    assert forall|j: int| 0 <= j < start implies raw[j] != '{' by {
        assert(raw[j] == before[j]);
        assert(before.contains(before[j]));
    }
    assert(raw[start] == object[0]);
    lemma_index_of(raw, '{', start);
    assert forall|j: int| end < j < raw.len() implies raw[j] != '}' by {
        assert(raw[j] == after[j - before.len() - object.len()]);
        assert(after.contains(after[j - before.len() - object.len()]));
    }
    assert(raw[end] == object[object.len() - 1]);
    lemma_last_index_of(raw, '}', end);
    assert(raw.subrange(start, end + 1) =~= object);
}

/// The part of `content` from its first `{` to its last `}`.
pub fn extract_embedded_object(content: &str) -> (r: Option<String>)
    ensures
        match r {
            Some(span) => embedded_object(content@) == Some(span@),
            None => embedded_object(content@) is None,
        },
{
    let cs = chars_of(content);
    let start = find_first(&cs, '{');
    match find_last(&cs, '}') {
        Some(end) => {
            if start < end {
                Some(text_of(&cs, start, end + 1))
            } else {
                None
            }
        },
        None => None,
    }
}

fn read_member_decimal(doc: &Json, key: &str) -> (r: Option<Decimal>)
    ensures
        match r {
            Some(d) => member_decimal(doc@, key@) == Some(d.thousandths as int) && d.in_range(),
            None => member_decimal(doc@, key@) is None,
        },
{
    match doc.get(key) {
        Some(Json::Number(numeral)) => Decimal::from_decimal(numeral.as_str()),
        _ => None,
    }
}

fn read_member_text(doc: &Json, key: &str) -> (r: Option<String>)
    ensures
        match r {
            Some(s) => member_text(doc@, key@) == Some(s@),
            None => member_text(doc@, key@) is None,
        },
{
    match doc.get(key) {
        Some(Json::Text(s)) => Some(s.clone()),
        _ => None,
    }
}

fn read_member_texts(doc: &Json, key: &str) -> (r: Vec<String>)
    ensures
        views_of(r@) == member_texts(doc@, key@),
{
    match doc.get(key) {
        Some(Json::Array(items)) => {
            proof {
                lemma_view_of_parts(Json::Array(*items));
            }
            collect_texts(items)
        },
        _ => {
            let out: Vec<String> = Vec::new();
            assert(views_of(out@) =~= Seq::<Seq<char>>::empty());
            out
        },
    }
}

/// The feedback for the reply `content`, given the document `doc` that was
/// read from its embedded object, or `None` where none could be read.
pub fn feedback_from_document(content: &str, doc: Option<&Json>) -> (r: QuestionFeedback)
    ensures
        r@ == feedback_for(
            content@,
            match doc {
                Some(d) => Some(d@),
                None => None,
            },
        ),
        r.in_range(),
{
    match doc {
        Some(d) => {
            let score = match read_member_decimal(d, "score") {
                Some(n) => n,
                None => Decimal::zero(),
            };
            let max_score = match read_member_decimal(d, "max_score") {
                Some(n) => n,
                None => Decimal::whole(1),
            };
            let feedback = match read_member_text(d, "feedback") {
                Some(text) => text,
                None => content.to_owned(),
            };
            QuestionFeedback {
                score,
                max_score,
                feedback,
                strengths: read_member_texts(d, "strengths"),
                improvements: read_member_texts(d, "improvements"),
                band_estimate: read_member_text(d, "band_estimate"),
            }
        },
        None => {
            let strengths: Vec<String> = Vec::new();
            let mut improvements: Vec<String> = Vec::new();
            improvements.push(String::from_str("Response could not be parsed properly"));
            proof {
                assert(views_of(strengths@) =~= Seq::<Seq<char>>::empty());
                assert(views_of(improvements@) =~= seq![unreadable_reply_note()]);
            }
            QuestionFeedback {
                score: Decimal::zero(),
                max_score: Decimal::whole(1),
                feedback: content.to_owned(),
                strengths,
                improvements,
                band_estimate: None,
            }
        },
    }
}

/// Reads the reply of a provider. The reply may wrap its object in prose:
/// the text from the first `{` to the last `}` is read as JSON. A reply
/// without such an object, or with one that does not read, gives the
/// degraded feedback and no error.
pub fn parse_ai_feedback(content: &str) -> (r: QuestionFeedback)
    ensures
        r@ == feedback_of_reply(content@),
        r.in_range(),
{
    let doc = match extract_embedded_object(content) {
        Some(span) => Json::parse(span.as_str()),
        None => None,
    };
    match &doc {
        Some(d) => feedback_from_document(content, Some(d)),
        None => feedback_from_document(content, None),
    }
}

} // verus!
