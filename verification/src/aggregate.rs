//! Merging the section score and the feedback on every written answer into
//! the result of a submission.

use vstd::prelude::*;
use vstd::string::StringExecFns;
use crate::ai::{provider_name, Provider};
use crate::decimal::{tenths_numeral, Decimal, DECIMAL_LIMIT};
use crate::models::{
    entries_view, feedback_views, sections_view, GradingResults, GradingResultsView, QuestionFeedback,
    QuestionFeedbackView, SectionScore, SectionScoreView,
};
use crate::assoc::names_distinct;
use crate::text::{decimal_digits, lemma_decimal_digits_differ, push_decimal, views_of};

verus! {

/// The largest magnitude, in thousandths, of a total for which a report
/// works out a percentage. The totals of graded submissions stay within
/// it.
pub const TOTAL_LIMIT: i128 = 100_000_000_000_000_000_000_000_000_000_000_000;

/// The number of the first written question on the paper.
pub const FIRST_WRITTEN_QUESTION: u128 = 21;

/// The sum of the scores of `results`, in thousandths.
pub open spec fn score_sum(results: Seq<QuestionFeedbackView>) -> int
    decreases results.len(),
{
    if results.len() == 0 {
        0
    } else {
        score_sum(results.drop_last()) + results.last().score
    }
}

/// The sum of the maximum scores of `results`, in thousandths.
pub open spec fn max_score_sum(results: Seq<QuestionFeedbackView>) -> int
    decreases results.len(),
{
    if results.len() == 0 {
        0
    } else {
        max_score_sum(results.drop_last()) + results.last().max_score
    }
}

/// Both scores of `feedback` lie within `DECIMAL_LIMIT`.
pub open spec fn feedback_in_range(feedback: QuestionFeedbackView) -> bool {
    &&& -DECIMAL_LIMIT <= feedback.score <= DECIMAL_LIMIT
    &&& -DECIMAL_LIMIT <= feedback.max_score <= DECIMAL_LIMIT
}

/// Every feedback of `results` has its scores within `DECIMAL_LIMIT`.
pub open spec fn all_in_range(results: Seq<QuestionFeedbackView>) -> bool {
    forall|i: int| 0 <= i < results.len() ==> feedback_in_range(#[trigger] results[i])
}

/// Where no written answer scores above its maximum, their summed score
/// does not exceed their summed maximum: the section of written answers
/// then keeps its score within its maximum.
pub proof fn lemma_sum_within_max(results: Seq<QuestionFeedbackView>)
    requires
        forall|i: int| 0 <= i < results.len() ==> (#[trigger] results[i]).score <= results[i].max_score,
    ensures
        score_sum(results) <= max_score_sum(results),
        extended_section(results).score <= extended_section(results).max_score,
    decreases results.len(),
{
    if results.len() > 0 {
        let shorter = results.drop_last();
        assert forall|i: int| 0 <= i < shorter.len() implies (#[trigger] shorter[i]).score
            <= shorter[i].max_score by {
            assert(shorter[i] == results[i]);
        }
        lemma_sum_within_max(shorter);
        assert(results.last() == results[results.len() - 1]);
    }
}

/// The bands of overall performance, best first.
#[derive(Clone, Copy, Debug, PartialEq, Eq, Structural)]
pub enum PerformanceTier {
    Excellent,
    Strong,
    Good,
    Satisfactory,
    NeedsImprovement,
}

/// Whether `total` out of `max` is at least `threshold` percent. Out of a
/// negative maximum the quotient changes sign; out of zero only a positive
/// total is at least anything.
pub open spec fn percent_at_least(total: int, max: int, threshold: int) -> bool {
    if max > 0 {
        total * 100 >= threshold * max
    } else if max < 0 {
        total * 100 <= threshold * max
    } else {
        total > 0
    }
}

/// The band of `total` out of `max`: at least 90 percent is excellent, at
/// least 80 strong, at least 70 good, at least 60 satisfactory, and anything
/// less needs improvement.
pub open spec fn tier_of(total: int, max: int) -> PerformanceTier {
    if percent_at_least(total, max, 90) {
        PerformanceTier::Excellent
    } else if percent_at_least(total, max, 80) {
        PerformanceTier::Strong
    } else if percent_at_least(total, max, 70) {
        PerformanceTier::Good
    } else if percent_at_least(total, max, 60) {
        PerformanceTier::Satisfactory
    } else {
        PerformanceTier::NeedsImprovement
    }
}

/// The short name of a band.
pub open spec fn tier_label(tier: PerformanceTier) -> Seq<char> {
    match tier {
        PerformanceTier::Excellent => "excellent"@,
        PerformanceTier::Strong => "strong"@,
        PerformanceTier::Good => "good"@,
        PerformanceTier::Satisfactory => "satisfactory"@,
        PerformanceTier::NeedsImprovement => "needs improvement"@,
    }
}

/// The sentence that reports a band to the candidate.
pub open spec fn tier_sentence(tier: PerformanceTier) -> Seq<char> {
    match tier {
        PerformanceTier::Excellent => "Excellent performance demonstrating comprehensive understanding of chemistry concepts."@,
        PerformanceTier::Strong => "Strong performance with good understanding of most concepts."@,
        PerformanceTier::Good => "Good performance with solid understanding of key concepts."@,
        PerformanceTier::Satisfactory => "Satisfactory performance with basic understanding demonstrated."@,
        PerformanceTier::NeedsImprovement => "Performance indicates need for additional study and practice."@,
    }
}

/// The name of the multiple-choice section.
pub open spec fn multiple_choice_section() -> Seq<char> {
    "Section I - Multiple Choice"@
}

/// The name of the section of written answers.
pub open spec fn extended_response_section() -> Seq<char> {
    "Section II - Extended Response"@
}

/// The label under which the multiple-choice section stands among the
/// per-question feedback.
pub open spec fn multiple_choice_label() -> Seq<char> {
    "Multiple Choice"@
}

/// The label of the written answer at position `index`, counted from zero.
pub open spec fn question_label(index: nat) -> Seq<char> {
    "Question "@ + decimal_digits(index + FIRST_WRITTEN_QUESTION as nat)
}

/// The label of the providers that supplied the grading, given the
/// provider whose reply gave each feedback: the name of the one that gave
/// them all, both names with the primary first where each gave some, and
/// nothing where no answer was graded.
pub open spec fn provider_label(suppliers: Seq<Provider>) -> Seq<char> {
    if suppliers.contains(Provider::Primary) && suppliers.contains(Provider::Secondary) {
        provider_name(Provider::Primary) + ", "@ + provider_name(Provider::Secondary)
    } else if suppliers.contains(Provider::Primary) {
        provider_name(Provider::Primary)
    } else if suppliers.contains(Provider::Secondary) {
        provider_name(Provider::Secondary)
    } else {
        Seq::empty()
    }
}

/// The summary line of the section of written answers.
pub open spec fn extended_summary(score: int, max_score: int) -> Seq<char> {
    "Extended response: "@ + tenths_numeral(score) + "/"@ + tenths_numeral(max_score)
}

/// The section of written answers: the summed scores and their summary.
pub open spec fn extended_section(results: Seq<QuestionFeedbackView>) -> SectionScoreView {
    SectionScoreView {
        score: score_sum(results),
        max_score: max_score_sum(results),
        feedback: extended_summary(score_sum(results), max_score_sum(results)),
    }
}

/// The two sections of a result: multiple choice as it is, then the
/// written answers summed.
pub open spec fn section_scores_of(mc: SectionScoreView, results: Seq<QuestionFeedbackView>) -> Seq<
    (Seq<char>, SectionScoreView),
> {
    seq![(multiple_choice_section(), mc), (extended_response_section(), extended_section(results))]
}

/// The multiple-choice section put as a feedback entry.
pub open spec fn section_as_feedback(mc: SectionScoreView) -> QuestionFeedbackView {
    QuestionFeedbackView {
        score: mc.score,
        max_score: mc.max_score,
        feedback: mc.feedback,
        strengths: Seq::empty(),
        improvements: Seq::empty(),
        band_estimate: None,
    }
}

/// The per-question feedback of a result: first the multiple-choice
/// section as one entry, then each written answer under its label.
pub open spec fn question_entries_of(mc: SectionScoreView, results: Seq<QuestionFeedbackView>) -> Seq<
    (Seq<char>, QuestionFeedbackView),
> {
    Seq::new(
        results.len() + 1,
        |i: int|
            if i == 0 {
                (multiple_choice_label(), section_as_feedback(mc))
            } else {
                (question_label((i - 1) as nat), results[i - 1])
            },
    )
}

impl PerformanceTier {
    /// The short name of the band.
    pub fn label(&self) -> (r: String)
        ensures
            r@ == tier_label(*self),
    {
        match self {
            PerformanceTier::Excellent => String::from_str("excellent"),
            PerformanceTier::Strong => String::from_str("strong"),
            PerformanceTier::Good => String::from_str("good"),
            PerformanceTier::Satisfactory => String::from_str("satisfactory"),
            PerformanceTier::NeedsImprovement => String::from_str("needs improvement"),
        }
    }

    /// The sentence that reports the band to the candidate.
    pub fn sentence(&self) -> (r: String)
        ensures
            r@ == tier_sentence(*self),
    {
        match self {
            PerformanceTier::Excellent => String::from_str(
                "Excellent performance demonstrating comprehensive understanding of chemistry concepts.",
            ),
            PerformanceTier::Strong => String::from_str(
                "Strong performance with good understanding of most concepts.",
            ),
            PerformanceTier::Good => String::from_str(
                "Good performance with solid understanding of key concepts.",
            ),
            PerformanceTier::Satisfactory => String::from_str(
                "Satisfactory performance with basic understanding demonstrated.",
            ),
            PerformanceTier::NeedsImprovement => String::from_str(
                "Performance indicates need for additional study and practice.",
            ),
        }
    }
}

/// Whether `part` is at least `threshold` hundredths of `whole`, worked
/// out without a product that could overflow.
fn magnitude_reaches(part: u128, whole: u128, threshold: u128) -> (b: bool)
    requires
        threshold <= 100,
    ensures
        b == (part * 100 >= whole * threshold),
{
    let hundreds = whole / 100;
    let rest = whole % 100;
    assert(hundreds * threshold <= whole && rest * threshold <= 9900 && whole * threshold == 100 * (hundreds
        * threshold) + rest * threshold) by (nonlinear_arith)
        requires
            whole == 100 * hundreds + rest,
            rest < 100,
            threshold <= 100,
    ;
    let base = hundreds * threshold;
    let tail = rest * threshold;
    if part < base {
        false
    } else {
        let over = part - base;
        if over >= 99 {
            true
        } else {
            over * 100 >= tail
        }
    }
}

fn reaches(total_score: Decimal, max_score: Decimal, threshold: u128) -> (b: bool)
    requires
        threshold <= 100,
    ensures
        b == percent_at_least(
            total_score.thousandths as int,
            max_score.thousandths as int,
            threshold as int,
        ),
{
    let total = total_score.thousandths;
    let max = max_score.thousandths;
    if max > 0 {
        if total < 0 {
            assert(threshold * max >= 0) by (nonlinear_arith)
                requires
                    threshold >= 0,
                    max > 0,
            ;
            false
        } else {
            assert((max as u128) * threshold == threshold * max) by (nonlinear_arith)
                requires
                    max > 0,
            ;
            magnitude_reaches(total as u128, max as u128, threshold)
        }
    } else if max < 0 {
        if total > 0 {
            assert(threshold * max <= 0) by (nonlinear_arith)
                requires
                    threshold >= 0,
                    max < 0,
            ;
            false
        } else {
            let part = total_score.magnitude();
            let whole = max_score.magnitude();
            assert(threshold * max == -(whole * threshold)) by (nonlinear_arith)
                requires
                    whole == -(max as int),
            ;
            magnitude_reaches(part, whole, threshold)
        }
    } else {
        total > 0
    }
}

/// The band of `total_score` out of `max_score`.
pub fn performance_tier(total_score: Decimal, max_score: Decimal) -> (r: PerformanceTier)
    ensures
        r == tier_of(total_score.thousandths as int, max_score.thousandths as int),
{
    if reaches(total_score, max_score, 90) {
        PerformanceTier::Excellent
    } else if reaches(total_score, max_score, 80) {
        PerformanceTier::Strong
    } else if reaches(total_score, max_score, 70) {
        PerformanceTier::Good
    } else if reaches(total_score, max_score, 60) {
        PerformanceTier::Satisfactory
    } else {
        PerformanceTier::NeedsImprovement
    }
}

/// The overall feedback for `total_score` out of `max_score`: the sentence
/// of its band.
pub fn generate_overall_feedback(total_score: Decimal, max_score: Decimal) -> (r: String)
    ensures
        r@ == tier_sentence(tier_of(total_score.thousandths as int, max_score.thousandths as int)),
{
    performance_tier(total_score, max_score).sentence()
}

/// The summed score and the summed maximum of `results`.
pub fn sum_feedback(results: &Vec<QuestionFeedback>) -> (r: (Decimal, Decimal))
    requires
        all_in_range(feedback_views(results@)),
    ensures
        r.0.thousandths == score_sum(feedback_views(results@)),
        r.1.thousandths == max_score_sum(feedback_views(results@)),
        -(results@.len() * DECIMAL_LIMIT) <= r.0.thousandths <= results@.len() * DECIMAL_LIMIT,
        -(results@.len() * DECIMAL_LIMIT) <= r.1.thousandths <= results@.len() * DECIMAL_LIMIT,
{
    let mut score: i128 = 0;
    let mut max_score: i128 = 0;
    let mut i: usize = 0;
    while i < results.len()
        invariant
            i <= results.len(),
            all_in_range(feedback_views(results@)),
            score == score_sum(feedback_views(results@).take(i as int)),
            max_score == max_score_sum(feedback_views(results@).take(i as int)),
            -(i * DECIMAL_LIMIT) <= score <= i * DECIMAL_LIMIT,
            -(i * DECIMAL_LIMIT) <= max_score <= i * DECIMAL_LIMIT,
        decreases results.len() - i,
    {
        let ghost views = feedback_views(results@);
        let ghost longer = views.take(i + 1);
        assert(longer.drop_last() =~= views.take(i as int));
        assert(longer.last() == views[i as int]);
        assert(feedback_in_range(views[i as int]));
        score = score + results[i].score.thousandths;
        max_score = max_score + results[i].max_score.thousandths;
        i += 1;
    }
    assert(feedback_views(results@).take(results.len() as int) =~= feedback_views(results@));
    (Decimal { thousandths: score }, Decimal { thousandths: max_score })
}

/// The two sections of a result.
pub fn create_section_scores(mc_score: &SectionScore, ai_results: &Vec<QuestionFeedback>) -> (r: Vec<
    (String, SectionScore),
>)
    requires
        all_in_range(feedback_views(ai_results@)),
    ensures
        sections_view(r@) == section_scores_of(mc_score@, feedback_views(ai_results@)),
{
    let (extended_score, extended_max) = sum_feedback(ai_results);
    let mut summary = String::from_str("Extended response: ");
    extended_score.push_tenths(&mut summary);
    summary.append("/");
    extended_max.push_tenths(&mut summary);
    let mut sections: Vec<(String, SectionScore)> = Vec::new();
    sections.push((String::from_str("Section I - Multiple Choice"), mc_score.clone()));
    sections.push(
        (
            String::from_str("Section II - Extended Response"),
            SectionScore { score: extended_score, max_score: extended_max, feedback: summary },
        ),
    );
    assert(sections_view(sections@) =~= section_scores_of(mc_score@, feedback_views(ai_results@)));
    sections
}

/// The per-question feedback of a result.
pub fn create_question_feedback(mc_score: &SectionScore, ai_results: &Vec<QuestionFeedback>) -> (r: Vec<
    (String, QuestionFeedback),
>)
    ensures
        entries_view(r@) == question_entries_of(mc_score@, feedback_views(ai_results@)),
{
    let mut entries: Vec<(String, QuestionFeedback)> = Vec::new();
    let strengths: Vec<String> = Vec::new();
    let improvements: Vec<String> = Vec::new();
    proof {
        assert(views_of(strengths@) =~= Seq::<Seq<char>>::empty());
        assert(views_of(improvements@) =~= Seq::<Seq<char>>::empty());
    }
    entries.push(
        (
            String::from_str("Multiple Choice"),
            QuestionFeedback {
                score: mc_score.score,
                max_score: mc_score.max_score,
                feedback: mc_score.feedback.clone(),
                strengths,
                improvements,
                band_estimate: None,
            },
        ),
    );
    let ghost wanted = question_entries_of(mc_score@, feedback_views(ai_results@));
    let mut i: usize = 0;
    while i < ai_results.len()
        invariant
            i <= ai_results.len(),
            wanted == question_entries_of(mc_score@, feedback_views(ai_results@)),
            entries@.len() == i + 1,
            forall|j: int|
                0 <= j < entries@.len() ==> ((#[trigger] entries@[j]).0@, entries@[j].1@) == wanted[j],
        decreases ai_results.len() - i,
    {
        let mut label = String::from_str("Question ");
        push_decimal(&mut label, i as u128 + FIRST_WRITTEN_QUESTION);
        entries.push((label, ai_results[i].clone()));
        i += 1;
    }
    assert(entries_view(entries@) =~= wanted);
    entries
}

/// The result of a submission: the totals over both sections, the
/// sections, the per-question feedback and the overall feedback.
pub open spec fn results_of(
    mc: SectionScoreView,
    results: Seq<QuestionFeedbackView>,
    suppliers: Seq<Provider>,
    graded_at: int,
) -> GradingResultsView {
    GradingResultsView {
        total_score: mc.score + score_sum(results),
        max_score: mc.max_score + max_score_sum(results),
        section_scores: section_scores_of(mc, results),
        question_feedback: question_entries_of(mc, results),
        overall_feedback: tier_sentence(
            tier_of(mc.score + score_sum(results), mc.max_score + max_score_sum(results)),
        ),
        ai_provider_used: provider_label(suppliers),
        graded_at,
    }
}

/// The totals of a result are the multiple-choice score and maximum plus
/// the sums over the written answers, however many there are; without any
/// they are those of the multiple-choice section. They are also the sums
/// over the two sections.
pub proof fn lemma_totals_add_up(
    mc: SectionScoreView,
    results: Seq<QuestionFeedbackView>,
    suppliers: Seq<Provider>,
    graded_at: int,
)
    ensures
        ({
            let merged = results_of(mc, results, suppliers, graded_at);
            &&& merged.total_score == mc.score + score_sum(results)
            &&& merged.max_score == mc.max_score + max_score_sum(results)
            &&& results.len() == 0 ==> merged.total_score == mc.score && merged.max_score == mc.max_score
            &&& merged.section_scores.len() == 2
            &&& merged.total_score == merged.section_scores[0].1.score + merged.section_scores[1].1.score
            &&& merged.max_score == merged.section_scores[0].1.max_score
                + merged.section_scores[1].1.max_score
        }),
{
}

/// The label of the providers that supplied the grading.
pub fn label_providers(suppliers: &Vec<Provider>) -> (r: String)
    ensures
        r@ == provider_label(suppliers@),
{
    let mut primary = false;
    let mut secondary = false;
    let mut i: usize = 0;
    while i < suppliers.len()
        invariant
            i <= suppliers.len(),
            primary == suppliers@.take(i as int).contains(Provider::Primary),
            secondary == suppliers@.take(i as int).contains(Provider::Secondary),
        decreases suppliers.len() - i,
    {
        let ghost before = suppliers@.take(i as int);
        let ghost after = suppliers@.take(i + 1);
        proof {
            assert(after =~= before.push(suppliers@[i as int]));
            assert(after[i as int] == suppliers@[i as int]);
            assert forall|p: Provider| after.contains(p) == (before.contains(p) || p == suppliers@[i as int]) by {
                if before.contains(p) {
                    let j = choose|j: int| 0 <= j < before.len() && before[j] == p;
                    assert(after[j] == p);
                }
                if after.contains(p) && p != suppliers@[i as int] {
                    let j = choose|j: int| 0 <= j < after.len() && after[j] == p;
                    assert(before[j] == p);
                }
            }
        }
        match suppliers[i] {
            Provider::Primary => {
                primary = true;
            },
            Provider::Secondary => {
                secondary = true;
            },
        }
        i += 1;
    }
    proof {
        assert(suppliers@.take(suppliers.len() as int) =~= suppliers@);
    }
    if primary && secondary {
        let mut label = Provider::Primary.name();
        label.append(", ");
        let second = Provider::Secondary.name();
        label.append(second.as_str());
        label
    } else if primary {
        Provider::Primary.name()
    } else if secondary {
        Provider::Secondary.name()
    } else {
        String::new()
    }
}

/// The two sections have different names, and no two entries of the
/// per-question feedback have the same label.
pub proof fn lemma_names_are_distinct(mc: SectionScoreView, results: Seq<QuestionFeedbackView>)
    ensures
        names_distinct(section_scores_of(mc, results)),
        names_distinct(question_entries_of(mc, results)),
{
    reveal_strlit("Section I - Multiple Choice");
    reveal_strlit("Section II - Extended Response");
    reveal_strlit("Multiple Choice");
    reveal_strlit("Question ");
    let sections = section_scores_of(mc, results);
    assert(multiple_choice_section().len() != extended_response_section().len());
    assert(sections[0].0 != sections[1].0);
    let entries = question_entries_of(mc, results);
    assert forall|i: int, j: int| 0 <= i < j < entries.len() implies (#[trigger] entries[i]).0 != (
    #[trigger] entries[j]).0 by {
        let second = question_label((j - 1) as nat);
        assert(entries[j].0 == second);
        assert(second[0] == 'Q');
        if i == 0 {
            assert(entries[i].0 == multiple_choice_label());
            assert(multiple_choice_label()[0] == 'M');
        } else {
            let first = question_label((i - 1) as nat);
            assert(entries[i].0 == first);
            let a = (i - 1 + FIRST_WRITTEN_QUESTION) as nat;
            let b = (j - 1 + FIRST_WRITTEN_QUESTION) as nat;
            lemma_decimal_digits_differ(a, b);
            if first == second {
                assert(first.skip(9) =~= decimal_digits(a));
                assert(second.skip(9) =~= decimal_digits(b));
                assert(false);
            }
        }
    }
}

/// Merges the multiple-choice score and the feedback on the written
/// answers into the result of the submission, graded at `graded_at`.
/// `suppliers` holds the provider whose reply gave each feedback.
pub fn combine_results(
    mc_score: &SectionScore,
    ai_results: &Vec<QuestionFeedback>,
    suppliers: &Vec<Provider>,
    graded_at: i64,
) -> (r: GradingResults)
    requires
        mc_score.in_range(),
        all_in_range(feedback_views(ai_results@)),
    ensures
        r@ == results_of(mc_score@, feedback_views(ai_results@), suppliers@, graded_at as int),
        r@.total_score == mc_score@.score + score_sum(feedback_views(ai_results@)),
        r@.max_score == mc_score@.max_score + max_score_sum(feedback_views(ai_results@)),
        r.sections_add_up(),
        r.names_are_distinct(),
        -TOTAL_LIMIT <= r@.total_score <= TOTAL_LIMIT,
        -TOTAL_LIMIT <= r@.max_score <= TOTAL_LIMIT,
{
    proof {
        lemma_names_are_distinct(mc_score@, feedback_views(ai_results@));
    }
    let (extended_score, extended_max) = sum_feedback(ai_results);
    let count = ai_results.len();
    assert(count * DECIMAL_LIMIT <= 0xffff_ffff_ffff_ffff * DECIMAL_LIMIT) by (nonlinear_arith)
        requires
            count <= 0xffff_ffff_ffff_ffff,
    ;
    let total_score = Decimal { thousandths: mc_score.score.thousandths + extended_score.thousandths };
    let max_score = Decimal { thousandths: mc_score.max_score.thousandths + extended_max.thousandths };
    let section_scores = create_section_scores(mc_score, ai_results);
    let question_feedback = create_question_feedback(mc_score, ai_results);
    let overall_feedback = generate_overall_feedback(total_score, max_score);
    let ai_provider_used = label_providers(suppliers);
    proof {
        let sections = sections_view(section_scores@);
        assert(sections == section_scores_of(mc_score@, feedback_views(ai_results@)));
        assert(sections.len() == section_scores@.len());
        assert(sections.len() == 2);
        assert(sections[0].1 == mc_score@);
        assert(sections[1].1 == extended_section(feedback_views(ai_results@)));
    }
    GradingResults {
        total_score,
        max_score,
        section_scores,
        question_feedback,
        overall_feedback,
        ai_provider_used,
        graded_at,
    }
}

/// Whether every feedback of `results` has its scores within
/// `DECIMAL_LIMIT`.
pub fn all_within_range(results: &Vec<QuestionFeedback>) -> (b: bool)
    ensures
        b == all_in_range(feedback_views(results@)),
{
    let mut i: usize = 0;
    while i < results.len()
        invariant
            i <= results.len(),
            forall|j: int| 0 <= j < i ==> feedback_in_range(#[trigger] feedback_views(results@)[j]),
        decreases results.len() - i,
    {
        if !results[i].is_in_range() {
            assert(!feedback_in_range(feedback_views(results@)[i as int]));
            return false;
        }
        i += 1;
    }
    true
}

/// Merges the multiple-choice score and the feedback on the written
/// answers into the result of the submission, where every score lies
/// within `DECIMAL_LIMIT`; gives nothing where one does not.
pub fn try_combine_results(
    mc_score: &SectionScore,
    ai_results: &Vec<QuestionFeedback>,
    suppliers: &Vec<Provider>,
    graded_at: i64,
) -> (r: Option<GradingResults>)
    ensures
        match r {
            Some(merged) => mc_score.in_range() && all_in_range(feedback_views(ai_results@)) && merged@
                == results_of(mc_score@, feedback_views(ai_results@), suppliers@, graded_at as int),
            None => !(mc_score.in_range() && all_in_range(feedback_views(ai_results@))),
        },
{
    if mc_score.score.is_in_range() && mc_score.max_score.is_in_range() && all_within_range(ai_results) {
        Some(combine_results(mc_score, ai_results, suppliers, graded_at))
    } else {
        None
    }
}

} // verus!
