//! The records of an exam submission and of its grading.

use vstd::prelude::*;
use crate::decimal::Decimal;
use crate::assoc::{lemma_position_named_found, lemma_with_entry, names_distinct, with_entry};
use crate::json::{Json, JsonView};
use crate::text::{clone_texts, views_of};

verus! {

/// Where a submission stands in its grading.
#[derive(Debug, PartialEq, Eq)]
pub enum GradingStatus {
    Pending,
    InProgress,
    Completed,
    Failed { error: String },
}

/// A `GradingStatus` with the reason of a failure as plain text.
pub enum StatusView {
    Pending,
    InProgress,
    Completed,
    Failed(Seq<char>),
}

impl View for GradingStatus {
    type V = StatusView;

    open spec fn view(&self) -> StatusView {
        match self {
            GradingStatus::Pending => StatusView::Pending,
            GradingStatus::InProgress => StatusView::InProgress,
            GradingStatus::Completed => StatusView::Completed,
            GradingStatus::Failed { error } => StatusView::Failed(error@),
        }
    }
}

/// The only steps a status takes: from pending to in progress, and from in
/// progress to completed or to failed.
pub open spec fn status_step(from: StatusView, to: StatusView) -> bool {
    match from {
        StatusView::Pending => to is InProgress,
        StatusView::InProgress => to is Completed || to is Failed,
        StatusView::Completed => false,
        StatusView::Failed(_) => false,
    }
}

/// A status that nothing follows.
pub open spec fn status_is_terminal(status: StatusView) -> bool {
    status is Completed || status is Failed
}

/// The life of a status: a step leads from pending to in progress or from
/// in progress to an end, nothing follows an end, and no step leads from
/// pending to an end.
pub proof fn lemma_status_lifecycle(from: StatusView, to: StatusView)
    ensures
        status_step(from, to) <==> (from is Pending && to is InProgress) || (from is InProgress && (to
            is Completed || to is Failed)),
        status_is_terminal(from) ==> !status_step(from, to),
        from is Pending && status_is_terminal(to) ==> !status_step(from, to),
{
}

impl Clone for GradingStatus {
    fn clone(&self) -> (r: Self)
        ensures
            r@ == self@,
    {
        match self {
            GradingStatus::Pending => GradingStatus::Pending,
            GradingStatus::InProgress => GradingStatus::InProgress,
            GradingStatus::Completed => GradingStatus::Completed,
            GradingStatus::Failed { error } => GradingStatus::Failed { error: error.clone() },
        }
    }
}

impl GradingStatus {
    /// Whether grading has ended, well or not.
    pub fn is_terminal(&self) -> (b: bool)
        ensures
            b == status_is_terminal(self@),
    {
        match self {
            GradingStatus::Completed => true,
            GradingStatus::Failed { .. } => true,
            _ => false,
        }
    }

    /// Whether `next` may follow this status.
    pub fn can_become(&self, next: &GradingStatus) -> (b: bool)
        ensures
            b == status_step(self@, next@),
    {
        match self {
            GradingStatus::Pending => match next {
                GradingStatus::InProgress => true,
                _ => false,
            },
            GradingStatus::InProgress => match next {
                GradingStatus::Completed => true,
                GradingStatus::Failed { .. } => true,
                _ => false,
            },
            _ => false,
        }
    }
}

/// The score of one section of the paper.
#[derive(Debug, PartialEq, Eq)]
pub struct SectionScore {
    pub score: Decimal,
    pub max_score: Decimal,
    pub feedback: String,
}

/// A `SectionScore` as plain values, the scores in thousandths.
pub struct SectionScoreView {
    pub score: int,
    pub max_score: int,
    pub feedback: Seq<char>,
}

impl View for SectionScore {
    type V = SectionScoreView;

    open spec fn view(&self) -> SectionScoreView {
        SectionScoreView {
            score: self.score.thousandths as int,
            max_score: self.max_score.thousandths as int,
            feedback: self.feedback@,
        }
    }
}

impl Clone for SectionScore {
    fn clone(&self) -> (r: Self)
        ensures
            r@ == self@,
            r.score == self.score,
            r.max_score == self.max_score,
    {
        SectionScore { score: self.score, max_score: self.max_score, feedback: self.feedback.clone() }
    }
}

impl SectionScore {
    /// Both scores lie within `DECIMAL_LIMIT`.
    pub open spec fn in_range(&self) -> bool {
        self.score.in_range() && self.max_score.in_range()
    }
}

/// What the grader says of one answer.
#[derive(Debug, PartialEq, Eq)]
pub struct QuestionFeedback {
    pub score: Decimal,
    pub max_score: Decimal,
    pub feedback: String,
    pub strengths: Vec<String>,
    pub improvements: Vec<String>,
    pub band_estimate: Option<String>,
}

/// A `QuestionFeedback` as plain values, the scores in thousandths.
pub struct QuestionFeedbackView {
    pub score: int,
    pub max_score: int,
    pub feedback: Seq<char>,
    pub strengths: Seq<Seq<char>>,
    pub improvements: Seq<Seq<char>>,
    pub band_estimate: Option<Seq<char>>,
}

impl View for QuestionFeedback {
    type V = QuestionFeedbackView;

    open spec fn view(&self) -> QuestionFeedbackView {
        QuestionFeedbackView {
            score: self.score.thousandths as int,
            max_score: self.max_score.thousandths as int,
            feedback: self.feedback@,
            strengths: views_of(self.strengths@),
            improvements: views_of(self.improvements@),
            band_estimate: match self.band_estimate {
                Some(band) => Some(band@),
                None => None,
            },
        }
    }
}

impl Clone for QuestionFeedback {
    fn clone(&self) -> (r: Self)
        ensures
            r@ == self@,
            r.score == self.score,
            r.max_score == self.max_score,
    {
        QuestionFeedback {
            score: self.score,
            max_score: self.max_score,
            feedback: self.feedback.clone(),
            strengths: clone_texts(&self.strengths),
            improvements: clone_texts(&self.improvements),
            band_estimate: match &self.band_estimate {
                Some(band) => Some(band.clone()),
                None => None,
            },
        }
    }
}

impl QuestionFeedback {
    /// Both scores lie within `DECIMAL_LIMIT`.
    pub open spec fn in_range(&self) -> bool {
        self.score.in_range() && self.max_score.in_range()
    }

    /// Whether both scores lie within `DECIMAL_LIMIT`.
    pub fn is_in_range(&self) -> (b: bool)
        ensures
            b == self.in_range(),
    {
        self.score.is_in_range() && self.max_score.is_in_range()
    }
}

/// The feedback of `results` as plain values.
pub open spec fn feedback_views(results: Seq<QuestionFeedback>) -> Seq<QuestionFeedbackView> {
    Seq::new(results.len(), |i: int| results[i]@)
}

/// The sections of a result as plain values.
pub open spec fn sections_view(sections: Seq<(String, SectionScore)>) -> Seq<
    (Seq<char>, SectionScoreView),
> {
    Seq::new(sections.len(), |i: int| (sections[i].0@, sections[i].1@))
}

/// The per-question entries of a result as plain values.
pub open spec fn entries_view(entries: Seq<(String, QuestionFeedback)>) -> Seq<
    (Seq<char>, QuestionFeedbackView),
> {
    Seq::new(entries.len(), |i: int| (entries[i].0@, entries[i].1@))
}

/// The outcome of grading one submission.
#[derive(Debug, PartialEq, Eq)]
pub struct GradingResults {
    pub total_score: Decimal,
    pub max_score: Decimal,
    /// The sections by name, in the order of the paper.
    pub section_scores: Vec<(String, SectionScore)>,
    /// The feedback by question label.
    pub question_feedback: Vec<(String, QuestionFeedback)>,
    pub overall_feedback: String,
    pub ai_provider_used: String,
    /// Milliseconds since the Unix epoch.
    pub graded_at: i64,
}

/// A `GradingResults` as plain values, the scores in thousandths.
pub struct GradingResultsView {
    pub total_score: int,
    pub max_score: int,
    pub section_scores: Seq<(Seq<char>, SectionScoreView)>,
    pub question_feedback: Seq<(Seq<char>, QuestionFeedbackView)>,
    pub overall_feedback: Seq<char>,
    pub ai_provider_used: Seq<char>,
    pub graded_at: int,
}

impl View for GradingResults {
    type V = GradingResultsView;

    open spec fn view(&self) -> GradingResultsView {
        GradingResultsView {
            total_score: self.total_score.thousandths as int,
            max_score: self.max_score.thousandths as int,
            section_scores: sections_view(self.section_scores@),
            question_feedback: entries_view(self.question_feedback@),
            overall_feedback: self.overall_feedback@,
            ai_provider_used: self.ai_provider_used@,
            graded_at: self.graded_at as int,
        }
    }
}

impl Clone for GradingResults {
    fn clone(&self) -> (r: Self)
        ensures
            r@ == self@,
            r.section_scores@.len() == self.section_scores@.len(),
    {
        let mut section_scores: Vec<(String, SectionScore)> = Vec::new();
        let mut i: usize = 0;
        while i < self.section_scores.len()
            invariant
                i <= self.section_scores@.len(),
                section_scores@.len() == i,
                forall|j: int|
                    0 <= j < i ==> (#[trigger] section_scores@[j]).0@ == self.section_scores@[j].0@
                        && section_scores@[j].1@ == self.section_scores@[j].1@,
            decreases self.section_scores@.len() - i,
        {
            section_scores.push((self.section_scores[i].0.clone(), self.section_scores[i].1.clone()));
            i += 1;
        }
        let mut question_feedback: Vec<(String, QuestionFeedback)> = Vec::new();
        let mut k: usize = 0;
        while k < self.question_feedback.len()
            invariant
                k <= self.question_feedback@.len(),
                question_feedback@.len() == k,
                forall|j: int|
                    0 <= j < k ==> (#[trigger] question_feedback@[j]).0@ == self.question_feedback@[j].0@
                        && question_feedback@[j].1@ == self.question_feedback@[j].1@,
            decreases self.question_feedback@.len() - k,
        {
            question_feedback.push(
                (self.question_feedback[k].0.clone(), self.question_feedback[k].1.clone()),
            );
            k += 1;
        }
        proof {
            assert(sections_view(section_scores@) =~= sections_view(self.section_scores@));
            assert(entries_view(question_feedback@) =~= entries_view(self.question_feedback@));
        }
        GradingResults {
            total_score: self.total_score,
            max_score: self.max_score,
            section_scores,
            question_feedback,
            overall_feedback: self.overall_feedback.clone(),
            ai_provider_used: self.ai_provider_used.clone(),
            graded_at: self.graded_at,
        }
    }
}

impl GradingResults {
    /// No section name and no question label occurs twice: each list
    /// holds what a map from names would hold.
    pub open spec fn names_are_distinct(&self) -> bool {
        names_distinct(self@.section_scores) && names_distinct(self@.question_feedback)
    }

    /// There are exactly two sections, and the totals are the sums of
    /// their scores and of their maximum scores.
    pub open spec fn sections_add_up(&self) -> bool {
        &&& self.section_scores@.len() == 2
        &&& self@.total_score == self@.section_scores[0].1.score + self@.section_scores[1].1.score
        &&& self@.max_score == self@.section_scores[0].1.max_score
            + self@.section_scores[1].1.max_score
    }
}

/// The chosen letters by question id as plain values.
pub open spec fn choices_view(choices: Seq<(String, String)>) -> Seq<(Seq<char>, Seq<char>)> {
    Seq::new(choices.len(), |i: int| (choices[i].0@, choices[i].1@))
}

/// The written answers by question id as plain values.
pub open spec fn answers_view(answers: Seq<(String, Json)>) -> Seq<(Seq<char>, JsonView)> {
    Seq::new(answers.len(), |i: int| (answers[i].0@, answers[i].1@))
}

/// What a candidate handed in.
#[derive(Debug, PartialEq, Eq)]
pub struct ExamResponses {
    /// The chosen letter by question id.
    pub multiple_choice: Vec<(String, String)>,
    /// The written answer by question id.
    pub extended_response: Vec<(String, Json)>,
    pub time_taken_minutes: Decimal,
}

/// An `ExamResponses` as plain values, the time in thousandths of a minute.
pub struct ExamResponsesView {
    pub multiple_choice: Seq<(Seq<char>, Seq<char>)>,
    pub extended_response: Seq<(Seq<char>, JsonView)>,
    pub time_taken_minutes: int,
}

impl View for ExamResponses {
    type V = ExamResponsesView;

    open spec fn view(&self) -> ExamResponsesView {
        ExamResponsesView {
            multiple_choice: choices_view(self.multiple_choice@),
            extended_response: answers_view(self.extended_response@),
            time_taken_minutes: self.time_taken_minutes.thousandths as int,
        }
    }
}

impl Clone for ExamResponses {
    fn clone(&self) -> (r: Self)
        ensures
            r@ == self@,
    {
        let mut multiple_choice: Vec<(String, String)> = Vec::new();
        let mut i: usize = 0;
        while i < self.multiple_choice.len()
            invariant
                i <= self.multiple_choice@.len(),
                multiple_choice@.len() == i,
                forall|j: int|
                    0 <= j < i ==> (#[trigger] multiple_choice@[j]).0@ == self.multiple_choice@[j].0@
                        && multiple_choice@[j].1@ == self.multiple_choice@[j].1@,
            decreases self.multiple_choice@.len() - i,
        {
            multiple_choice.push((self.multiple_choice[i].0.clone(), self.multiple_choice[i].1.clone()));
            i += 1;
        }
        let mut extended_response: Vec<(String, Json)> = Vec::new();
        let mut k: usize = 0;
        while k < self.extended_response.len()
            invariant
                k <= self.extended_response@.len(),
                extended_response@.len() == k,
                forall|j: int|
                    0 <= j < k ==> (#[trigger] extended_response@[j]).0@ == self.extended_response@[j].0@
                        && extended_response@[j].1@ == self.extended_response@[j].1@,
            decreases self.extended_response@.len() - k,
        {
            extended_response.push(
                (self.extended_response[k].0.clone(), self.extended_response[k].1.clone()),
            );
            k += 1;
        }
        proof {
            assert(choices_view(multiple_choice@) =~= choices_view(self.multiple_choice@));
            assert(answers_view(extended_response@) =~= answers_view(self.extended_response@));
        }
        ExamResponses { multiple_choice, extended_response, time_taken_minutes: self.time_taken_minutes }
    }
}

/// No question id occurs twice in either part of `responses`.
pub open spec fn responses_wf(responses: ExamResponsesView) -> bool {
    names_distinct(responses.multiple_choice) && names_distinct(responses.extended_response)
}

impl ExamResponses {
    /// No question id occurs twice in either part.
    pub open spec fn wf(&self) -> bool {
        responses_wf(self@)
    }

    /// Responses without any answer yet.
    pub fn new(time_taken_minutes: Decimal) -> (r: Self)
        ensures
            r.wf(),
            r@.multiple_choice.len() == 0,
            r@.extended_response.len() == 0,
            r@.time_taken_minutes == time_taken_minutes.thousandths,
    {
        ExamResponses { multiple_choice: Vec::new(), extended_response: Vec::new(), time_taken_minutes }
    }

    /// Sets the letter chosen for `question`, in the place of an earlier
    /// choice where there is one.
    pub fn select(&mut self, question: String, letter: String)
        ensures
            final(self)@ == (ExamResponsesView {
                multiple_choice: with_entry(old(self)@.multiple_choice, question@, letter@),
                ..old(self)@
            }),
            old(self).wf() ==> final(self).wf(),
    {
        let ghost before = choices_view(self.multiple_choice@);
        let mut i: usize = 0;
        while i < self.multiple_choice.len() && self.multiple_choice[i].0 != question
            invariant
                i <= self.multiple_choice@.len(),
                *self == *old(self),
                before == choices_view(self.multiple_choice@),
                forall|j: int| 0 <= j < i ==> (#[trigger] before[j]).0 != question@,
            decreases self.multiple_choice@.len() - i,
        {
            i += 1;
        }
        proof {
            lemma_position_named_found(before, question@, i as int);
            lemma_with_entry(before, question@, letter@);
        }
        if i < self.multiple_choice.len() {
            self.multiple_choice[i] = (question, letter);
        } else {
            self.multiple_choice.push((question, letter));
        }
        assert(choices_view(self.multiple_choice@) =~= with_entry(before, question@, letter@));
    }

    /// Sets the written answer to `question`, in the place of an earlier
    /// answer where there is one.
    pub fn answer(&mut self, question: String, response: Json)
        ensures
            final(self)@ == (ExamResponsesView {
                extended_response: with_entry(old(self)@.extended_response, question@, response@),
                ..old(self)@
            }),
            old(self).wf() ==> final(self).wf(),
    {
        let ghost before = answers_view(self.extended_response@);
        let mut i: usize = 0;
        while i < self.extended_response.len() && self.extended_response[i].0 != question
            invariant
                i <= self.extended_response@.len(),
                *self == *old(self),
                before == answers_view(self.extended_response@),
                forall|j: int| 0 <= j < i ==> (#[trigger] before[j]).0 != question@,
            decreases self.extended_response@.len() - i,
        {
            i += 1;
        }
        proof {
            lemma_position_named_found(before, question@, i as int);
            lemma_with_entry(before, question@, response@);
        }
        if i < self.extended_response.len() {
            self.extended_response[i] = (question, response);
        } else {
            self.extended_response.push((question, response));
        }
        assert(answers_view(self.extended_response@) =~= with_entry(before, question@, response@));
    }
}

/// One exam attempt, identified by the code the candidate entered.
#[derive(Debug, PartialEq, Eq)]
pub struct Submission {
    pub id: u128,
    pub submission_code: String,
    pub responses: ExamResponses,
    /// Milliseconds since the Unix epoch.
    pub submitted_at: i64,
    pub grading_status: GradingStatus,
    pub results: Option<GradingResults>,
}

/// A `Submission` as plain values.
pub struct SubmissionView {
    pub id: int,
    pub submission_code: Seq<char>,
    pub responses: ExamResponsesView,
    pub submitted_at: int,
    pub grading_status: StatusView,
    pub results: Option<GradingResultsView>,
}

impl View for Submission {
    type V = SubmissionView;

    open spec fn view(&self) -> SubmissionView {
        SubmissionView {
            id: self.id as int,
            submission_code: self.submission_code@,
            responses: self.responses@,
            submitted_at: self.submitted_at as int,
            grading_status: self.grading_status@,
            results: match self.results {
                Some(results) => Some(results@),
                None => None,
            },
        }
    }
}

impl Clone for Submission {
    fn clone(&self) -> (r: Self)
        ensures
            r@ == self@,
    {
        Submission {
            id: self.id,
            submission_code: self.submission_code.clone(),
            responses: self.responses.clone(),
            submitted_at: self.submitted_at,
            grading_status: self.grading_status.clone(),
            results: match &self.results {
                Some(results) => Some(results.clone()),
                None => None,
            },
        }
    }
}

/// `submission` has results if and only if its grading is completed.
pub open spec fn submission_wf(submission: SubmissionView) -> bool {
    submission.results is Some <==> submission.grading_status is Completed
}

impl Submission {
    /// The submission has results if and only if its grading is completed.
    pub open spec fn wf(&self) -> bool {
        submission_wf(self@)
    }
}

} // verus!
