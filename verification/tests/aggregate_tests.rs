use exam_grading::aggregate::{
    all_within_range, combine_results, label_providers, create_question_feedback, create_section_scores,
    generate_overall_feedback, performance_tier, sum_feedback, try_combine_results, PerformanceTier,
    TOTAL_LIMIT,
};
use exam_grading::ai::Provider;
use exam_grading::decimal::{Decimal, DECIMAL_LIMIT};
use exam_grading::models::{QuestionFeedback, SectionScore};

fn marks(thousandths: i128) -> Decimal {
    Decimal { thousandths }
}

fn mc(score: u32) -> SectionScore {
    SectionScore { score: Decimal::whole(score), max_score: Decimal::whole(20), feedback: format!("{}/20 correct", score) }
}

fn feedback(score: i128, max_score: i128, text: &str) -> QuestionFeedback {
    QuestionFeedback {
        score: marks(score),
        max_score: marks(max_score),
        feedback: text.to_string(),
        strengths: vec!["s".to_string()],
        improvements: vec![],
        band_estimate: Some("Band 4".to_string()),
    }
}

fn tier(total: i128, max: i128) -> PerformanceTier {
    performance_tier(marks(total * 1000), marks(max * 1000))
}

#[test]
fn tiers_for_the_named_scores() {
    assert_eq!(tier(95, 100), PerformanceTier::Excellent);
    assert_eq!(tier(65, 100), PerformanceTier::Satisfactory);
    assert_eq!(tier(50, 100), PerformanceTier::NeedsImprovement);
    assert_eq!(tier(85, 100), PerformanceTier::Strong);
    assert_eq!(tier(75, 100), PerformanceTier::Good);
}

#[test]
fn thresholds_include_their_lower_bound() {
    assert_eq!(tier(90, 100), PerformanceTier::Excellent);
    assert_eq!(tier(80, 100), PerformanceTier::Strong);
    assert_eq!(tier(70, 100), PerformanceTier::Good);
    assert_eq!(tier(60, 100), PerformanceTier::Satisfactory);
    assert_eq!(performance_tier(marks(89_999), marks(100_000)), PerformanceTier::Strong);
    assert_eq!(performance_tier(marks(79_999), marks(100_000)), PerformanceTier::Good);
    assert_eq!(performance_tier(marks(69_999), marks(100_000)), PerformanceTier::Satisfactory);
    assert_eq!(performance_tier(marks(59_999), marks(100_000)), PerformanceTier::NeedsImprovement);
    assert_eq!(tier(27, 30), PerformanceTier::Excellent);
    assert_eq!(tier(18, 30), PerformanceTier::Satisfactory);
    assert_eq!(tier(100, 100), PerformanceTier::Excellent);
    assert_eq!(tier(0, 100), PerformanceTier::NeedsImprovement);
}

#[test]
fn tiers_out_of_a_maximum_that_is_not_positive() {
    assert_eq!(tier(1, 0), PerformanceTier::Excellent);
    assert_eq!(tier(0, 0), PerformanceTier::NeedsImprovement);
    assert_eq!(tier(-1, 0), PerformanceTier::NeedsImprovement);
    assert_eq!(tier(-9, -10), PerformanceTier::Excellent);
    assert_eq!(tier(-5, -10), PerformanceTier::NeedsImprovement);
    assert_eq!(tier(5, -10), PerformanceTier::NeedsImprovement);
}

#[test]
fn tiers_at_the_limit() {
    assert_eq!(performance_tier(marks(TOTAL_LIMIT), marks(TOTAL_LIMIT)), PerformanceTier::Excellent);
    assert_eq!(performance_tier(marks(-TOTAL_LIMIT), marks(TOTAL_LIMIT)), PerformanceTier::NeedsImprovement);
}

#[test]
fn tiers_of_the_largest_numbers() {
    let tenth: i128 = 10_000_000_000_000_000_000_000_000_000_000_000_000;
    assert_eq!(performance_tier(marks(i128::MAX), marks(i128::MAX)), PerformanceTier::Excellent);
    assert_eq!(performance_tier(marks(i128::MIN), marks(i128::MIN)), PerformanceTier::Excellent);
    assert_eq!(performance_tier(marks(i128::MAX), marks(i128::MIN)), PerformanceTier::NeedsImprovement);
    assert_eq!(performance_tier(marks(i128::MIN), marks(i128::MAX)), PerformanceTier::NeedsImprovement);
    assert_eq!(performance_tier(marks(9 * tenth), marks(10 * tenth)), PerformanceTier::Excellent);
    assert_eq!(performance_tier(marks(9 * tenth - 1), marks(10 * tenth)), PerformanceTier::Strong);
    assert_eq!(performance_tier(marks(8 * tenth), marks(10 * tenth)), PerformanceTier::Strong);
    assert_eq!(performance_tier(marks(8 * tenth - 1), marks(10 * tenth)), PerformanceTier::Good);
    assert_eq!(performance_tier(marks(7 * tenth), marks(10 * tenth + 1)), PerformanceTier::Satisfactory);
    assert_eq!(performance_tier(marks(6 * tenth), marks(10 * tenth + 1)), PerformanceTier::NeedsImprovement);
    assert_eq!(performance_tier(marks(-9 * tenth), marks(-10 * tenth)), PerformanceTier::Excellent);
    assert_eq!(performance_tier(marks(-9 * tenth + 1), marks(-10 * tenth)), PerformanceTier::Strong);
    assert_eq!(performance_tier(marks(1), marks(i128::MAX)), PerformanceTier::NeedsImprovement);
    assert_eq!(performance_tier(marks(i128::MAX), marks(1)), PerformanceTier::Excellent);
    assert_eq!(performance_tier(marks(89), marks(99)), PerformanceTier::Strong);
    assert_eq!(performance_tier(marks(90), marks(99)), PerformanceTier::Excellent);
    assert_eq!(performance_tier(marks(179), marks(199)), PerformanceTier::Strong);
    assert_eq!(performance_tier(marks(180), marks(199)), PerformanceTier::Excellent);
}

#[test]
fn tier_labels_and_sentences() {
    assert_eq!(PerformanceTier::Excellent.label(), "excellent");
    assert_eq!(PerformanceTier::Strong.label(), "strong");
    assert_eq!(PerformanceTier::Good.label(), "good");
    assert_eq!(PerformanceTier::Satisfactory.label(), "satisfactory");
    assert_eq!(PerformanceTier::NeedsImprovement.label(), "needs improvement");
    assert_eq!(
        generate_overall_feedback(marks(95_000), marks(100_000)),
        "Excellent performance demonstrating comprehensive understanding of chemistry concepts."
    );
    assert_eq!(
        generate_overall_feedback(marks(85_000), marks(100_000)),
        "Strong performance with good understanding of most concepts."
    );
    assert_eq!(
        generate_overall_feedback(marks(75_000), marks(100_000)),
        "Good performance with solid understanding of key concepts."
    );
    assert_eq!(
        generate_overall_feedback(marks(65_000), marks(100_000)),
        "Satisfactory performance with basic understanding demonstrated."
    );
    assert_eq!(
        generate_overall_feedback(marks(50_000), marks(100_000)),
        "Performance indicates need for additional study and practice."
    );
}

#[test]
fn sums_over_the_feedback() {
    let results = vec![feedback(2_500, 4_000, "a"), feedback(3_000, 3_000, "b"), feedback(-500, 1_000, "c")];
    assert_eq!(sum_feedback(&results), (marks(5_000), marks(8_000)));
    assert_eq!(sum_feedback(&Vec::new()), (marks(0), marks(0)));
}

#[test]
fn totals_are_the_section_plus_the_written_answers() {
    let results = vec![feedback(2_500, 4_000, "a"), feedback(3_000, 3_000, "b")];
    let combined = combine_results(&mc(15), &results, &vec![Provider::Primary, Provider::Primary], 1_700_000_000_000);
    assert_eq!(combined.total_score, marks(20_500));
    assert_eq!(combined.max_score, marks(27_000));
    assert_eq!(combined.graded_at, 1_700_000_000_000);
    assert_eq!(combined.ai_provider_used, "OpenAI o1-mini");
    assert_eq!(combined.overall_feedback, "Good performance with solid understanding of key concepts.");
    assert_eq!(combined.section_scores, create_section_scores(&mc(15), &results));
    assert_eq!(combined.question_feedback, create_question_feedback(&mc(15), &results));
}

#[test]
fn totals_without_written_answers_are_those_of_the_section() {
    let combined = combine_results(&mc(18), &Vec::new(), &Vec::new(), 5);
    assert_eq!(combined.total_score, marks(18_000));
    assert_eq!(combined.max_score, marks(20_000));
    assert_eq!(combined.ai_provider_used, "");
    assert_eq!(combined.overall_feedback, "Excellent performance demonstrating comprehensive understanding of chemistry concepts.");
    assert_eq!(combined.section_scores.len(), 2);
    assert_eq!(combined.section_scores[1].1.score, marks(0));
    assert_eq!(combined.section_scores[1].1.max_score, marks(0));
    assert_eq!(combined.section_scores[1].1.feedback, "Extended response: 0.0/0.0");
    assert_eq!(combined.question_feedback.len(), 1);
}

#[test]
fn totals_are_the_sums_of_the_two_sections() {
    let results: Vec<QuestionFeedback> = (0..50).map(|i| feedback(i * 100, 7_000, "x")).collect();
    let combined = combine_results(&mc(11), &results, &vec![Provider::Secondary; 50], 0);
    let sections = &combined.section_scores;
    assert_eq!(combined.total_score.thousandths, sections[0].1.score.thousandths + sections[1].1.score.thousandths);
    assert_eq!(combined.max_score.thousandths, sections[0].1.max_score.thousandths + sections[1].1.max_score.thousandths);
    assert_eq!(combined.total_score, marks(11_000 + 122_500));
    assert_eq!(combined.max_score, marks(20_000 + 350_000));
}

#[test]
fn there_are_exactly_two_sections() {
    let results = vec![feedback(2_500, 4_000, "a"), feedback(3_250, 3_000, "b")];
    let sections = create_section_scores(&mc(15), &results);
    assert_eq!(sections.len(), 2);
    assert_eq!(sections[0].0, "Section I - Multiple Choice");
    assert_eq!(sections[0].1, mc(15));
    assert_eq!(sections[1].0, "Section II - Extended Response");
    assert_eq!(
        sections[1].1,
        SectionScore { score: marks(5_750), max_score: marks(7_000), feedback: "Extended response: 5.8/7.0".to_string() }
    );
}

#[test]
fn question_feedback_has_one_entry_for_the_section_and_one_per_answer() {
    let results = vec![feedback(2_500, 4_000, "a"), feedback(3_000, 3_000, "b"), feedback(0, 1_000, "c")];
    let entries = create_question_feedback(&mc(15), &results);
    assert_eq!(entries.len(), 4);
    assert_eq!(entries[0].0, "Multiple Choice");
    assert_eq!(
        entries[0].1,
        QuestionFeedback {
            score: marks(15_000),
            max_score: marks(20_000),
            feedback: "15/20 correct".to_string(),
            strengths: vec![],
            improvements: vec![],
            band_estimate: None,
        }
    );
    assert_eq!(entries[1], ("Question 21".to_string(), results[0].clone()));
    assert_eq!(entries[2], ("Question 22".to_string(), results[1].clone()));
    assert_eq!(entries[3], ("Question 23".to_string(), results[2].clone()));
}

#[test]
fn cloned_results_equal_the_original() {
    let results = vec![feedback(2_500, 4_000, "a")];
    let combined = combine_results(&mc(15), &results, &vec![Provider::Primary], 9);
    assert_eq!(combined.clone(), combined);
}

#[test]
fn merging_turns_away_scores_beyond_the_limit() {
    let fine = vec![feedback(2_500, 4_000, "a"), feedback(DECIMAL_LIMIT, -DECIMAL_LIMIT, "b")];
    assert!(all_within_range(&fine));
    let both = vec![Provider::Secondary, Provider::Primary];
    assert_eq!(try_combine_results(&mc(15), &fine, &both, 3), Some(combine_results(&mc(15), &fine, &both, 3)));
    let beyond = vec![feedback(2_500, 4_000, "a"), feedback(DECIMAL_LIMIT + 1, 1_000, "b")];
    assert!(!all_within_range(&beyond));
    assert_eq!(try_combine_results(&mc(15), &beyond, &both, 3), None);
    let wide = SectionScore { score: marks(-DECIMAL_LIMIT - 1), max_score: marks(0), feedback: String::new() };
    assert_eq!(try_combine_results(&wide, &fine, &both, 3), None);
    assert!(all_within_range(&Vec::new()));
}

#[test]
fn results_name_the_providers_that_supplied_the_grading() {
    let primary = Provider::Primary;
    let secondary = Provider::Secondary;
    assert_eq!(primary.name(), "OpenAI o1-mini");
    assert_eq!(secondary.name(), "Gemini 2.5 Pro");
    assert_eq!(label_providers(&Vec::new()), "");
    assert_eq!(label_providers(&vec![primary]), "OpenAI o1-mini");
    assert_eq!(label_providers(&vec![primary, primary, primary]), "OpenAI o1-mini");
    assert_eq!(label_providers(&vec![secondary]), "Gemini 2.5 Pro");
    assert_eq!(label_providers(&vec![secondary, secondary]), "Gemini 2.5 Pro");
    assert_eq!(label_providers(&vec![primary, secondary]), "OpenAI o1-mini, Gemini 2.5 Pro");
    assert_eq!(label_providers(&vec![secondary, primary, secondary]), "OpenAI o1-mini, Gemini 2.5 Pro");
    let results = vec![feedback(2_500, 4_000, "a"), feedback(3_000, 3_000, "b")];
    let by_primary = combine_results(&mc(15), &results, &vec![primary, primary], 1);
    let by_secondary = combine_results(&mc(15), &results, &vec![secondary, secondary], 1);
    assert_eq!(by_primary.ai_provider_used, "OpenAI o1-mini");
    assert_eq!(by_secondary.ai_provider_used, "Gemini 2.5 Pro");
    assert_ne!(by_primary.ai_provider_used, by_secondary.ai_provider_used);
    assert_eq!(by_primary.total_score, by_secondary.total_score);
    assert_eq!(by_primary.question_feedback, by_secondary.question_feedback);
    assert_eq!(by_primary.section_scores, by_secondary.section_scores);
}
