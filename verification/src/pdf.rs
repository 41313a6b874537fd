//! The report on a graded submission, as an HTML document.

use vstd::prelude::*;
use vstd::string::StringExecFns;
use crate::aggregate::TOTAL_LIMIT;
use crate::decimal::{magnitude, tenths_numeral, Decimal};
use crate::error::{AppError, AppErrorView};
use crate::models::{
    entries_view, sections_view, GradingResults, GradingResultsView, QuestionFeedback,
    QuestionFeedbackView, SectionScore, SectionScoreView, Submission, SubmissionView,
};
use crate::system::{current_time_millis, format_timestamp, timestamp_text};
use crate::text::{decimal_digits, digit_char, push_decimal, views_of};

verus! {

/// The renderer of reports.
#[derive(Clone, Copy, Debug, PartialEq, Eq, Structural)]
pub struct PDFService;

/// One section of the report.
pub open spec fn section_html(name: Seq<char>, score: SectionScoreView) -> Seq<char> {
    "\n                    <div class=\"section-score\">\n                        <h3>"@ + name + "</h3>\n                        <p class=\"score\">Score: "@ + tenths_numeral(score.score) + "/"@ + tenths_numeral(score.max_score) + "</p>\n                        <p>"@ + score.feedback + "</p>\n                    </div>\n                    "@
}

/// The sections of the report, one after the other, a line break between
/// two of them.
pub open spec fn sections_html(sections: Seq<(Seq<char>, SectionScoreView)>) -> Seq<char>
    decreases sections.len(),
{
    if sections.len() == 0 {
        Seq::empty()
    } else if sections.len() == 1 {
        section_html(sections[0].0, sections[0].1)
    } else {
        sections_html(sections.drop_last()) + "\n"@ + section_html(sections.last().0, sections.last().1)
    }
}

/// The items of a list, each as a list item.
pub open spec fn list_items_html(items: Seq<Seq<char>>) -> Seq<char>
    decreases items.len(),
{
    if items.len() == 0 {
        Seq::empty()
    } else {
        list_items_html(items.drop_last()) + "<li>"@ + items.last() + "</li>"@
    }
}

/// The strengths of an answer; nothing where none is listed.
pub open spec fn strengths_html(items: Seq<Seq<char>>) -> Seq<char> {
    if items.len() == 0 {
        Seq::empty()
    } else {
        "<div class='strengths'><strong>Strengths:</strong><ul>"@ + list_items_html(items) + "</ul></div>"@
    }
}

/// The improvements for an answer; nothing where none is listed.
pub open spec fn improvements_html(items: Seq<Seq<char>>) -> Seq<char> {
    if items.len() == 0 {
        Seq::empty()
    } else {
        "<div class='improvements'><strong>Areas for Improvement:</strong><ul>"@ + list_items_html(items)
            + "</ul></div>"@
    }
}

/// The band of an answer; nothing where none is given.
pub open spec fn band_html(band: Option<Seq<char>>) -> Seq<char> {
    match band {
        Some(text) => "<p><strong>Band Estimate:</strong> "@ + text + "</p>"@,
        None => Seq::empty(),
    }
}

/// The feedback on one question.
pub open spec fn question_html(label: Seq<char>, feedback: QuestionFeedbackView) -> Seq<char> {
    "\n                    <div class=\"question-feedback\">\n                        <h3>Question "@ + label + "</h3>\n                        <p class=\"score\">Score: "@ + tenths_numeral(feedback.score) + "/"@ + tenths_numeral(feedback.max_score) + "</p>\n                        "@ + band_html(feedback.band_estimate) + "\n                        <div class=\"feedback-content\">\n                            <p>"@ + feedback.feedback + "</p>\n                            "@ + strengths_html(feedback.strengths) + "\n                            "@ + improvements_html(feedback.improvements) + "\n                        </div>\n                    </div>\n                    "@
}

/// The feedback on every question, one after the other, a line break
/// between two of them.
pub open spec fn questions_html(entries: Seq<(Seq<char>, QuestionFeedbackView)>) -> Seq<char>
    decreases entries.len(),
{
    if entries.len() == 0 {
        Seq::empty()
    } else if entries.len() == 1 {
        question_html(entries[0].0, entries[0].1)
    } else {
        questions_html(entries.drop_last()) + "\n"@ + question_html(entries.last().0, entries.last().1)
    }
}

/// `total` out of `max` in tenths of a percent, rounded half away from
/// zero, without its sign. `max` is not zero.
pub open spec fn percent_tenths(total: int, max: int) -> nat {
    let scaled = magnitude(total) * 1000;
    let whole = scaled / magnitude(max);
    let rest = scaled % magnitude(max);
    if rest >= magnitude(max) - rest {
        whole + 1
    } else {
        whole
    }
}

/// `total` out of `max` as a percentage with one digit after the point.
/// Out of zero, a positive total gives `inf`, a negative one `-inf`, and
/// zero gives `NaN`.
pub open spec fn percent_numeral(total: int, max: int) -> Seq<char> {
    if max == 0 {
        if total > 0 {
            "inf"@
        } else if total < 0 {
            "-inf"@
        } else {
            "NaN"@
        }
    } else {
        let tenths = percent_tenths(total, max);
        let sign = if (total < 0) != (max < 0) && tenths > 0 {
            seq!['-']
        } else {
            Seq::<char>::empty()
        };
        sign + decimal_digits(tenths / 10).push('.').push(digit_char(tenths % 10))
    }
}

/// The form in which a report shows a time: date, time of day, and the
/// time zone, which is always UTC.
pub open spec fn report_time_form() -> Seq<char> {
    "%Y-%m-%d %H:%M:%S UTC"@
}

/// The text of a time in a report; empty for a time beyond the calendar.
pub open spec fn time_or_empty(millis: int) -> Seq<char> {
    match timestamp_text(millis, report_time_form()) {
        Some(text) => text,
        None => Seq::empty(),
    }
}

/// What a report shows.
pub struct ReportView {
    pub code: Seq<char>,
    pub submitted: Seq<char>,
    pub graded: Seq<char>,
    pub total_score: int,
    pub max_score: int,
    pub time_taken: int,
    pub provider: Seq<char>,
    pub overall_feedback: Seq<char>,
    pub sections: Seq<(Seq<char>, SectionScoreView)>,
    pub questions: Seq<(Seq<char>, QuestionFeedbackView)>,
    pub generated: Seq<char>,
}

/// What the report on `submission` shows, given its `results` and the time
/// `now` at which it is made.
pub open spec fn report_of(submission: SubmissionView, results: GradingResultsView, now: int) -> ReportView {
    report_with_times(
        submission,
        results,
        time_or_empty(submission.submitted_at),
        time_or_empty(results.graded_at),
        time_or_empty(now),
    )
}

/// What the report on `submission` shows, given its `results` and the
/// three times of the report as texts.
pub open spec fn report_with_times(
    submission: SubmissionView,
    results: GradingResultsView,
    submitted: Seq<char>,
    graded: Seq<char>,
    generated: Seq<char>,
) -> ReportView {
    ReportView {
        code: submission.submission_code,
        submitted,
        graded,
        total_score: results.total_score,
        max_score: results.max_score,
        time_taken: submission.responses.time_taken_minutes,
        provider: results.ai_provider_used,
        overall_feedback: results.overall_feedback,
        sections: results.section_scores,
        questions: results.question_feedback,
        generated,
    }
}

/// The report as an HTML document.
pub open spec fn report_html(report: ReportView) -> Seq<char> {
    "\n<!DOCTYPE html>\n<html>\n<head>\n    <meta charset=\"UTF-8\">\n    <title>HSC Chemistry Examination Results</title>\n    <style>\n        body {\n            font-family: 'Times New Roman', serif;\n            margin: 40px;\n            line-height: 1.6;\n        }\n        .header {\n            text-align: center;\n            border-bottom: 2px solid #333;\n            padding-bottom: 20px;\n            margin-bottom: 30px;\n        }\n        .score-summary {\n            background-color: #f8f9fa;\n            padding: 20px;\n            border-radius: 8px;\n            margin-bottom: 30px;\n        }\n        .question-feedback {\n            margin-bottom: 25px;\n            padding: 15px;\n            border-left: 4px solid #007bff;\n            background-color: #f8f9fa;\n        }\n        .score {\n            font-weight: bold;\n            color: #28a745;\n        }\n        .improvements {\n            color: #dc3545;\n        }\n        .strengths {\n            color: #28a745;\n        }\n        .footer {\n            margin-top: 40px;\n            text-align: center;\n            font-size: 12px;\n            color: #666;\n        }\n        @media print {\n            body { margin: 20px; }\n        }\n    </style>\n</head>\n<body>\n    <div class=\"header\">\n        <h1>NSW HSC Chemistry Examination Results</h1>\n        <p><strong>Submission Code:</strong> "@
        + report.code
        + "</p>\n        <p><strong>Submitted:</strong> "@
        + report.submitted
        + "</p>\n        <p><strong>Graded:</strong> "@
        + report.graded
        + "</p>\n    </div>\n\n    <div class=\"score-summary\">\n        <h2>Overall Performance</h2>\n        <p class=\"score\">Total Score: "@
        + tenths_numeral(report.total_score)
        + "/"@
        + tenths_numeral(report.max_score)
        + " ("@
        + percent_numeral(report.total_score, report.max_score)
        + "%)</p>\n        <p><strong>Time Taken:</strong> "@
        + tenths_numeral(report.time_taken)
        + " minutes</p>\n        <p><strong>AI Grading Provider:</strong> "@
        + report.provider
        + "</p>\n    </div>\n\n    <div class=\"overall-feedback\">\n        <h2>Overall Feedback</h2>\n        <p>"@
        + report.overall_feedback
        + "</p>\n    </div>\n\n    <div class=\"section-scores\">\n        <h2>Section Performance</h2>\n        "@
        + sections_html(report.sections)
        + "\n    </div>\n\n    <div class=\"question-by-question\">\n        <h2>Question-by-Question Feedback</h2>\n        "@
        + questions_html(report.questions)
        + "\n    </div>\n\n    <div class=\"footer\">\n        <p>This report was generated automatically using AI-powered grading technology.</p>\n        <p>Generated on: "@
        + report.generated
        + "</p>\n    </div>\n</body>\n</html>\n        "@
}

/// Whether the totals of `results` are small enough for a percentage to be
/// worked out.
pub open spec fn totals_within_limit(results: GradingResultsView) -> bool {
    &&& -TOTAL_LIMIT <= results.total_score <= TOTAL_LIMIT
    &&& -TOTAL_LIMIT <= results.max_score <= TOTAL_LIMIT
}

/// What is reported for a submission without results.
pub open spec fn no_results_note() -> Seq<char> {
    "No grading results available"@
}

/// What is reported for results whose totals are beyond the limit.
pub open spec fn totals_beyond_limit_note() -> Seq<char> {
    "Grading totals are out of range"@
}

/// The name of the file in which the report on `code` is handed out.
pub open spec fn report_file_name(code: Seq<char>) -> Seq<char> {
    "HSC_Chemistry_Results_"@ + code + ".pdf"@
}

/// The header value that hands out a file named `file_name`.
pub open spec fn attachment_of(file_name: Seq<char>) -> Seq<char> {
    "attachment; filename=\""@ + file_name + "\""@
}

fn push_percent(out: &mut String, total: Decimal, max: Decimal)
    requires
        -TOTAL_LIMIT <= total.thousandths <= TOTAL_LIMIT,
        -TOTAL_LIMIT <= max.thousandths <= TOTAL_LIMIT,
    ensures
        final(out)@ == old(out)@ + percent_numeral(total.thousandths as int, max.thousandths as int),
{
    let ghost before = out@;
    if max.thousandths == 0 {
        if total.thousandths > 0 {
            out.append("inf");
        } else if total.thousandths < 0 {
            out.append("-inf");
        } else {
            out.append("NaN");
        }
        return ;
    }
    let divisor = max.magnitude();
    let scaled: u128 = total.magnitude() * 1000;
    let whole = scaled / divisor;
    let rest = scaled % divisor;
    let tenths: u128 = if rest >= divisor - rest {
        whole + 1
    } else {
        whole
    };
    assert(tenths == percent_tenths(total.thousandths as int, max.thousandths as int));
    let negative = (total.thousandths < 0) != (max.thousandths < 0) && tenths > 0;
    if negative {
        out.push('-');
    }
    push_decimal(out, tenths / 10);
    out.push('.');
    push_decimal(out, tenths % 10);
    proof {
        assert(decimal_digits((tenths % 10) as nat) =~= seq![digit_char((tenths % 10) as nat)]);
        let sign = if negative {
            seq!['-']
        } else {
            Seq::<char>::empty()
        };
        assert(out@ =~= before + (sign + decimal_digits((tenths / 10) as nat).push('.').push(
            digit_char((tenths % 10) as nat),
        )));
    }
}

fn time_text(millis: i64) -> (r: String)
    ensures
        r@ == time_or_empty(millis as int),
{
    match format_timestamp(millis, "%Y-%m-%d %H:%M:%S UTC") {
        Some(text) => text,
        None => String::new(),
    }
}

/// The name of the file in which the report on `code` is handed out.
pub fn results_file_name(code: &str) -> (r: String)
    ensures
        r@ == report_file_name(code@),
{
    let mut name = String::from_str("HSC_Chemistry_Results_");
    name.append(code);
    name.append(".pdf");
    name
}

/// The header value that hands out a file named `file_name`.
pub fn attachment_header(file_name: &str) -> (r: String)
    ensures
        r@ == attachment_of(file_name@),
{
    let mut header = String::from_str("attachment; filename=\"");
    header.append(file_name);
    header.append("\"");
    header
}

fn push_list_items(out: &mut String, items: &Vec<String>)
    ensures
        final(out)@ == old(out)@ + list_items_html(views_of(items@)),
{
    let ghost before = out@;
    let ghost texts = views_of(items@);
    let mut i: usize = 0;
    while i < items.len()
        invariant
            i <= items@.len(),
            texts == views_of(items@),
            out@ == before + list_items_html(texts.take(i as int)),
        decreases items@.len() - i,
    {
        let ghost longer = texts.take(i + 1);
        assert(longer.drop_last() =~= texts.take(i as int));
        assert(longer.last() == items@[i as int]@);
        let ghost so_far = out@;
        out.append("<li>");
        out.append(items[i].as_str());
        out.append("</li>");
        assert(out@ =~= before + list_items_html(longer));
        i += 1;
    }
    assert(texts.take(items@.len() as int) =~= texts);
}

fn push_strengths(out: &mut String, items: &Vec<String>)
    ensures
        final(out)@ == old(out)@ + strengths_html(views_of(items@)),
{
    let ghost before = out@;
    if items.len() > 0 {
        out.append("<div class='strengths'><strong>Strengths:</strong><ul>");
        push_list_items(out, items);
        out.append("</ul></div>");
        assert(out@ =~= before + strengths_html(views_of(items@)));
    } else {
        assert(out@ =~= before + strengths_html(views_of(items@)));
    }
}

fn push_improvements(out: &mut String, items: &Vec<String>)
    ensures
        final(out)@ == old(out)@ + improvements_html(views_of(items@)),
{
    let ghost before = out@;
    if items.len() > 0 {
        out.append("<div class='improvements'><strong>Areas for Improvement:</strong><ul>");
        push_list_items(out, items);
        out.append("</ul></div>");
        assert(out@ =~= before + improvements_html(views_of(items@)));
    } else {
        assert(out@ =~= before + improvements_html(views_of(items@)));
    }
}

fn push_band(out: &mut String, band: &Option<String>)
    ensures
        final(out)@ == old(out)@ + band_html(
            match *band {
                Some(text) => Some(text@),
                None => None,
            },
        ),
{
    let ghost before = out@;
    match band {
        Some(text) => {
            out.append("<p><strong>Band Estimate:</strong> ");
            out.append(text.as_str());
            out.append("</p>");
            assert(out@ =~= before + ("<p><strong>Band Estimate:</strong> "@ + text@ + "</p>"@));
        },
        None => {
            assert(out@ =~= before + Seq::<char>::empty());
        },
    }
}

fn push_section(out: &mut String, name: &String, score: &SectionScore)
    ensures
        final(out)@ == old(out)@ + section_html(name@, score@),
{
    let mut piece = String::from_str("\n                    <div class=\"section-score\">\n                        <h3>");
    piece.append(name.as_str());
    piece.append("</h3>\n                        <p class=\"score\">Score: ");
    score.score.push_tenths(&mut piece);
    piece.append("/");
    score.max_score.push_tenths(&mut piece);
    piece.append("</p>\n                        <p>");
    piece.append(score.feedback.as_str());
    piece.append("</p>\n                    </div>\n                    ");
    out.append(piece.as_str());
}

fn push_question(out: &mut String, label: &String, feedback: &QuestionFeedback)
    ensures
        final(out)@ == old(out)@ + question_html(label@, feedback@),
{
    let mut piece = String::from_str("\n                    <div class=\"question-feedback\">\n                        <h3>Question ");
    piece.append(label.as_str());
    piece.append("</h3>\n                        <p class=\"score\">Score: ");
    feedback.score.push_tenths(&mut piece);
    piece.append("/");
    feedback.max_score.push_tenths(&mut piece);
    piece.append("</p>\n                        ");
    push_band(&mut piece, &feedback.band_estimate);
    piece.append("\n                        <div class=\"feedback-content\">\n                            <p>");
    piece.append(feedback.feedback.as_str());
    piece.append("</p>\n                            ");
    push_strengths(&mut piece, &feedback.strengths);
    piece.append("\n                            ");
    push_improvements(&mut piece, &feedback.improvements);
    piece.append("\n                        </div>\n                    </div>\n                    ");
    out.append(piece.as_str());
}

impl PDFService {
    /// A renderer.
    pub fn new() -> (r: Self)
        ensures
            r == PDFService,
    {
        PDFService
    }

    /// The sections of the report.
    pub fn generate_section_scores_html(&self, section_scores: &Vec<(String, SectionScore)>) -> (r: String)
        ensures
            r@ == sections_html(sections_view(section_scores@)),
    {
        let ghost wanted = sections_view(section_scores@);
        let mut out = String::new();
        let mut i: usize = 0;
        while i < section_scores.len()
            invariant
                i <= section_scores@.len(),
                wanted == sections_view(section_scores@),
                out@ == sections_html(wanted.take(i as int)),
            decreases section_scores@.len() - i,
        {
            let ghost longer = wanted.take(i + 1);
            assert(longer.drop_last() =~= wanted.take(i as int));
            assert(longer.last() == wanted[i as int]);
            assert(longer[0] == wanted[0]);
            if i > 0 {
                out.append("\n");
            }
            push_section(&mut out, &section_scores[i].0, &section_scores[i].1);
            assert(out@ =~= sections_html(longer));
            i += 1;
        }
        assert(wanted.take(section_scores@.len() as int) =~= wanted);
        out
    }

    /// The feedback on every question of the report.
    pub fn generate_question_feedback_html(&self, question_feedback: &Vec<(String, QuestionFeedback)>) -> (r:
        String)
        ensures
            r@ == questions_html(entries_view(question_feedback@)),
    {
        let ghost wanted = entries_view(question_feedback@);
        let mut out = String::new();
        let mut i: usize = 0;
        while i < question_feedback.len()
            invariant
                i <= question_feedback@.len(),
                wanted == entries_view(question_feedback@),
                out@ == questions_html(wanted.take(i as int)),
            decreases question_feedback@.len() - i,
        {
            let ghost longer = wanted.take(i + 1);
            assert(longer.drop_last() =~= wanted.take(i as int));
            assert(longer.last() == wanted[i as int]);
            assert(longer[0] == wanted[0]);
            if i > 0 {
                out.append("\n");
            }
            push_question(&mut out, &question_feedback[i].0, &question_feedback[i].1);
            assert(out@ =~= questions_html(longer));
            i += 1;
        }
        assert(wanted.take(question_feedback@.len() as int) =~= wanted);
        out
    }
    /// The report on `submission` with its `results`, made at the time
    /// `now`, in milliseconds since the Unix epoch.
    pub fn generate_html_report_at(&self, submission: &Submission, results: &GradingResults, now: i64) -> (r:
        String)
        requires
            totals_within_limit(results@),
        ensures
            r@ == report_html(report_of(submission@, results@, now as int)),
    {
        let submitted = time_text(submission.submitted_at);
        let graded = time_text(results.graded_at);
        let generated = time_text(now);
        self.generate_html_report_with(
            submission,
            results,
            submitted.as_str(),
            graded.as_str(),
            generated.as_str(),
        )
    }

    /// The report on `submission` with its `results`, given the time of
    /// the submission, of the grading and of the report as texts.
    pub fn generate_html_report_with(
        &self,
        submission: &Submission,
        results: &GradingResults,
        submitted: &str,
        graded: &str,
        generated: &str,
    ) -> (r: String)
        requires
            totals_within_limit(results@),
        ensures
            r@ == report_html(report_with_times(submission@, results@, submitted@, graded@, generated@)),
    {
        let sections = self.generate_section_scores_html(&results.section_scores);
        let questions = self.generate_question_feedback_html(&results.question_feedback);
        let mut out = String::from_str("\n<!DOCTYPE html>\n<html>\n<head>\n    <meta charset=\"UTF-8\">\n    <title>HSC Chemistry Examination Results</title>\n    <style>\n        body {\n            font-family: 'Times New Roman', serif;\n            margin: 40px;\n            line-height: 1.6;\n        }\n        .header {\n            text-align: center;\n            border-bottom: 2px solid #333;\n            padding-bottom: 20px;\n            margin-bottom: 30px;\n        }\n        .score-summary {\n            background-color: #f8f9fa;\n            padding: 20px;\n            border-radius: 8px;\n            margin-bottom: 30px;\n        }\n        .question-feedback {\n            margin-bottom: 25px;\n            padding: 15px;\n            border-left: 4px solid #007bff;\n            background-color: #f8f9fa;\n        }\n        .score {\n            font-weight: bold;\n            color: #28a745;\n        }\n        .improvements {\n            color: #dc3545;\n        }\n        .strengths {\n            color: #28a745;\n        }\n        .footer {\n            margin-top: 40px;\n            text-align: center;\n            font-size: 12px;\n            color: #666;\n        }\n        @media print {\n            body { margin: 20px; }\n        }\n    </style>\n</head>\n<body>\n    <div class=\"header\">\n        <h1>NSW HSC Chemistry Examination Results</h1>\n        <p><strong>Submission Code:</strong> ");
        out.append(submission.submission_code.as_str());
        out.append("</p>\n        <p><strong>Submitted:</strong> ");
        out.append(submitted);
        out.append("</p>\n        <p><strong>Graded:</strong> ");
        out.append(graded);
        out.append("</p>\n    </div>\n\n    <div class=\"score-summary\">\n        <h2>Overall Performance</h2>\n        <p class=\"score\">Total Score: ");
        results.total_score.push_tenths(&mut out);
        out.append("/");
        results.max_score.push_tenths(&mut out);
        out.append(" (");
        push_percent(&mut out, results.total_score, results.max_score);
        out.append("%)</p>\n        <p><strong>Time Taken:</strong> ");
        submission.responses.time_taken_minutes.push_tenths(&mut out);
        out.append(" minutes</p>\n        <p><strong>AI Grading Provider:</strong> ");
        out.append(results.ai_provider_used.as_str());
        out.append("</p>\n    </div>\n\n    <div class=\"overall-feedback\">\n        <h2>Overall Feedback</h2>\n        <p>");
        out.append(results.overall_feedback.as_str());
        out.append("</p>\n    </div>\n\n    <div class=\"section-scores\">\n        <h2>Section Performance</h2>\n        ");
        out.append(sections.as_str());
        out.append("\n    </div>\n\n    <div class=\"question-by-question\">\n        <h2>Question-by-Question Feedback</h2>\n        ");
        out.append(questions.as_str());
        out.append("\n    </div>\n\n    <div class=\"footer\">\n        <p>This report was generated automatically using AI-powered grading technology.</p>\n        <p>Generated on: ");
        out.append(generated);
        out.append("</p>\n    </div>\n</body>\n</html>\n        ");
        out
    }

    /// The report on `submission` with its `results`, made now.
    pub fn generate_html_report(&self, submission: &Submission, results: &GradingResults) -> (r: String)
        requires
            totals_within_limit(results@),
        ensures
            exists|now: int| r@ == report_html(report_of(submission@, results@, now)),
    {
        let now = current_time_millis();
        self.generate_html_report_at(submission, results, now)
    }

    /// The report on `submission`, made at the time `now`: an error where
    /// the submission has no results, or totals beyond `TOTAL_LIMIT`.
    pub fn generate_results_html_at(&self, submission: &Submission, now: i64) -> (r: Result<String, AppError>)
        ensures
            match r {
                Ok(html) => submission@.results matches Some(results) && totals_within_limit(results)
                    && html@ == report_html(report_of(submission@, results, now as int)),
                Err(e) => match submission@.results {
                    None => e@ == AppErrorView::Internal(no_results_note()),
                    Some(results) => !totals_within_limit(results) && e@ == AppErrorView::Internal(
                        totals_beyond_limit_note(),
                    ),
                },
            },
    {
        match &submission.results {
            None => Err(AppError::Internal(String::from_str("No grading results available"))),
            Some(results) => {
                if -TOTAL_LIMIT <= results.total_score.thousandths && results.total_score.thousandths
                    <= TOTAL_LIMIT && -TOTAL_LIMIT <= results.max_score.thousandths
                    && results.max_score.thousandths <= TOTAL_LIMIT {
                    Ok(self.generate_html_report_at(submission, results, now))
                } else {
                    Err(AppError::Internal(String::from_str("Grading totals are out of range")))
                }
            },
        }
    }

    /// The report on `submission`, made now: an error where the
    /// submission has no results, or totals beyond `TOTAL_LIMIT`.
    pub fn generate_results_html(&self, submission: &Submission) -> (r: Result<String, AppError>)
        ensures
            match r {
                Ok(html) => submission@.results matches Some(results) && totals_within_limit(results)
                    && exists|now: int| html@ == report_html(report_of(submission@, results, now)),
                Err(e) => match submission@.results {
                    None => e@ == AppErrorView::Internal(no_results_note()),
                    Some(results) => !totals_within_limit(results) && e@ == AppErrorView::Internal(
                        totals_beyond_limit_note(),
                    ),
                },
            },
    {
        let now = current_time_millis();
        self.generate_results_html_at(submission, now)
    }
}

} // verus!
