//! The deterministic scorer of the multiple-choice section.

use vstd::prelude::*;
use vstd::string::StringExecFns;
use crate::decimal::Decimal;
use crate::assoc::{lemma_position_named_found, value_named};
use crate::models::{choices_view, SectionScore, SectionScoreView};
use crate::text::{decimal_digits, push_decimal};

verus! {

/// The answer key of the paper: question id and expected letter, in the
/// order of the paper.
pub open spec fn answer_key() -> Seq<(Seq<char>, Seq<char>)> {
    seq![
        ("q1"@, "D"@),
        ("q2"@, "C"@),
        ("q3"@, "B"@),
        ("q4"@, "D"@),
        ("q5"@, "D"@),
        ("q6"@, "C"@),
        ("q7"@, "A"@),
        ("q8"@, "C"@),
        ("q9"@, "C"@),
        ("q10"@, "A"@),
        ("q11"@, "C"@),
        ("q12"@, "B"@),
        ("q13"@, "A"@),
        ("q14"@, "D"@),
        ("q15"@, "B"@),
        ("q16"@, "B"@),
        ("q17"@, "A"@),
        ("q18"@, "A"@),
        ("q19"@, "B"@),
        ("q20"@, "D"@),
    ]
}

/// The letter chosen for `question`: that of the first entry with this id.
pub open spec fn chosen(answers: Seq<(Seq<char>, Seq<char>)>, question: Seq<char>) -> Option<Seq<char>> {
    value_named(answers, question)
}

/// Whether the answer given to the question of `entry` is, letter for
/// letter, the expected one. A question without an answer is not correct.
pub open spec fn is_correct(answers: Seq<(Seq<char>, Seq<char>)>, entry: (Seq<char>, Seq<char>)) -> bool {
    chosen(answers, entry.0) == Some(entry.1)
}

/// How many entries of `key` are answered correctly.
pub open spec fn correct_count(
    answers: Seq<(Seq<char>, Seq<char>)>,
    key: Seq<(Seq<char>, Seq<char>)>,
) -> nat
    decreases key.len(),
{
    if key.len() == 0 {
        0
    } else {
        correct_count(answers, key.drop_last()) + if is_correct(answers, key.last()) {
            1nat
        } else {
            0nat
        }
    }
}

/// The feedback line of the section: `<correct>/<total> correct`.
pub open spec fn tally_text(correct: nat, total: nat) -> Seq<char> {
    decimal_digits(correct) + "/"@ + decimal_digits(total) + " correct"@
}

/// The score of the multiple-choice section for `answers`: one mark for
/// each correct entry of the answer key, out of one mark for each entry.
pub open spec fn section_of(answers: Seq<(Seq<char>, Seq<char>)>) -> SectionScoreView {
    SectionScoreView {
        score: 1000 * (correct_count(answers, answer_key()) as int),
        max_score: 1000 * (answer_key().len() as int),
        feedback: tally_text(correct_count(answers, answer_key()), answer_key().len()),
    }
}

/// No more entries are correct than the key holds.
pub proof fn lemma_correct_count_bound(
    answers: Seq<(Seq<char>, Seq<char>)>,
    key: Seq<(Seq<char>, Seq<char>)>,
)
    ensures
        correct_count(answers, key) <= key.len(),
    decreases key.len(),
{
    if key.len() > 0 {
        lemma_correct_count_bound(answers, key.drop_last());
    }
}

/// The score depends on the choices alone, not on the order in which they
/// are listed: two lists that give every question the same letter score
/// the same.
pub proof fn lemma_score_depends_on_choices_only(
    first: Seq<(Seq<char>, Seq<char>)>,
    second: Seq<(Seq<char>, Seq<char>)>,
)
    requires
        forall|question: Seq<char>| chosen(first, question) == chosen(second, question),
    ensures
        section_of(first) == section_of(second),
{
    lemma_same_choices_same_count(first, second, answer_key());
}

/// Two lists that give every question the same letter have as many
/// entries of `key` correct.
pub proof fn lemma_same_choices_same_count(
    first: Seq<(Seq<char>, Seq<char>)>,
    second: Seq<(Seq<char>, Seq<char>)>,
    key: Seq<(Seq<char>, Seq<char>)>,
)
    requires
        forall|question: Seq<char>| chosen(first, question) == chosen(second, question),
    ensures
        correct_count(first, key) == correct_count(second, key),
    decreases key.len(),
{
    if key.len() > 0 {
        lemma_same_choices_same_count(first, second, key.drop_last());
        assert(chosen(first, key.last().0) == chosen(second, key.last().0));
    }
}

/// The answer key as owned strings.
pub fn answer_key_entries() -> (r: Vec<(String, String)>)
    ensures
        r@.len() == answer_key().len(),
        forall|i: int|
            0 <= i < r@.len() ==> (#[trigger] r@[i]).0@ == answer_key()[i].0 && r@[i].1@
                == answer_key()[i].1,
{
    let mut key: Vec<(String, String)> = Vec::new();
    key.push((String::from_str("q1"), String::from_str("D")));
    key.push((String::from_str("q2"), String::from_str("C")));
    key.push((String::from_str("q3"), String::from_str("B")));
    key.push((String::from_str("q4"), String::from_str("D")));
    key.push((String::from_str("q5"), String::from_str("D")));
    key.push((String::from_str("q6"), String::from_str("C")));
    key.push((String::from_str("q7"), String::from_str("A")));
    key.push((String::from_str("q8"), String::from_str("C")));
    key.push((String::from_str("q9"), String::from_str("C")));
    key.push((String::from_str("q10"), String::from_str("A")));
    key.push((String::from_str("q11"), String::from_str("C")));
    key.push((String::from_str("q12"), String::from_str("B")));
    key.push((String::from_str("q13"), String::from_str("A")));
    key.push((String::from_str("q14"), String::from_str("D")));
    key.push((String::from_str("q15"), String::from_str("B")));
    key.push((String::from_str("q16"), String::from_str("B")));
    key.push((String::from_str("q17"), String::from_str("A")));
    key.push((String::from_str("q18"), String::from_str("A")));
    key.push((String::from_str("q19"), String::from_str("B")));
    key.push((String::from_str("q20"), String::from_str("D")));
    key
}

/// The letter chosen for `question`, if the candidate answered it.
pub fn find_choice<'a>(answers: &'a Vec<(String, String)>, question: &String) -> (r: Option<&'a String>)
    ensures
        match r {
            Some(letter) => chosen(choices_view(answers@), question@) == Some(letter@),
            None => chosen(choices_view(answers@), question@) is None,
        },
{
    let ghost views = choices_view(answers@);
    let mut i: usize = 0;
    while i < answers.len() && answers[i].0 != *question
        invariant
            i <= answers.len(),
            views == choices_view(answers@),
            forall|j: int| 0 <= j < i ==> (#[trigger] views[j]).0 != question@,
        decreases answers.len() - i,
    {
        i += 1;
    }
    proof {
        lemma_position_named_found(views, question@, i as int);
    }
    if i < answers.len() {
        Some(&answers[i].1)
    } else {
        None
    }
}

/// Scores the multiple-choice answers against the answer key: one mark for
/// each question whose answer is exactly the expected letter.
pub fn grade_multiple_choice(responses: &Vec<(String, String)>) -> (r: SectionScore)
    ensures
        r@ == section_of(choices_view(responses@)),
        r@.score == 1000 * correct_count(choices_view(responses@), answer_key()),
        0 <= r@.score <= r@.max_score == 1000 * answer_key().len(),
        r.in_range(),
{
    let key = answer_key_entries();
    let ghost spec_key = answer_key();
    let mut correct: u32 = 0;
    let mut i: usize = 0;
    while i < key.len()
        invariant
            i <= key.len(),
            key@.len() == spec_key.len(),
            spec_key.len() == 20,
            forall|j: int|
                0 <= j < key@.len() ==> (#[trigger] key@[j]).0@ == spec_key[j].0 && key@[j].1@
                    == spec_key[j].1,
            correct == correct_count(choices_view(responses@), spec_key.take(i as int)),
            correct <= i,
        decreases key.len() - i,
    {
        let ghost longer = spec_key.take(i + 1);
        assert(longer.drop_last() =~= spec_key.take(i as int));
        assert(longer.last() == spec_key[i as int]);
        let found = find_choice(responses, &key[i].0);
        let hit = match found {
            Some(letter) => *letter == key[i].1,
            None => false,
        };
        assert(hit == is_correct(choices_view(responses@), spec_key[i as int]));
        if hit {
            correct += 1;
        }
        i += 1;
    }
    assert(spec_key.take(20) =~= spec_key);
    let total: u32 = 20;
    let mut feedback = String::new();
    push_decimal(&mut feedback, correct as u128);
    feedback.append("/");
    push_decimal(&mut feedback, total as u128);
    feedback.append(" correct");
    SectionScore { score: Decimal::whole(correct), max_score: Decimal::whole(total), feedback }
}

} // verus!
