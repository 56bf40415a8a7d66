use batch_grader::assignment::{manual_review_text, Assignment};
use batch_grader::kinds::{FileType, ProgramType, ReviewAction};
use batch_grader::matcher::best_match_index;
use batch_grader::problem::{first_existing, Problem};
use batch_grader::score::parse_score;
use batch_grader::NEEDS_REVIEW;

#[test]
fn first_variant_score_is_returned_unmodified() {
    // A picture deliverable that resolves on the very first candidate:
    // the operator-entered score comes back exactly.
    let problem = Problem::new("1", FileType::Pic, 20);
    let candidates = problem.candidate_files("S001");
    assert_eq!(candidates[0].0, "S001/1.JPG");
    let exists = vec![true, false, false, false];
    let resolved = first_existing(&exists);
    assert_eq!(resolved, Some(0));
    let score = parse_score("85\n");
    assert_eq!(Problem::grade_outcome(Some(score)), 85);
}

#[test]
fn missing_deliverable_returns_review_sentinel() {
    let problem = Problem::new("2", FileType::Doc, 30);
    let candidates = problem.candidate_files("S001");
    assert_eq!(candidates.len(), 4);
    let exists = vec![false; candidates.len()];
    assert_eq!(first_existing(&exists), None);
    assert_eq!(Problem::grade_outcome(None), NEEDS_REVIEW);
    assert_eq!(NEEDS_REVIEW, 101);
}

#[test]
fn missing_deliverable_flags_manual_review_in_comment() {
    let mut assignment = Assignment::new();
    assignment.add_entry(Problem::new("1", FileType::Pic, 40));
    assignment.add_entry(Problem::new("2", FileType::Doc, 60));
    let scores = vec![90, NEEDS_REVIEW];
    let comments = vec![String::new(), String::new()];
    let totals = assignment.grade_totals(&scores, &comments);
    assert!(totals.need_review);
    assert_eq!(totals.comment, "Need manual review");
    assert_eq!(manual_review_text(), "Need manual review");
}

#[test]
fn weighted_average_dilutes_missing_deliverables() {
    let mut assignment = Assignment::new();
    assignment.add_entry(Problem::new("1", FileType::Pic, 20));
    assignment.add_entry(Problem::new("1", FileType::Doc, 20));
    assignment.add_entry(Problem::new("2", FileType::Doc, 30));
    assignment.add_entry(Problem::new("3", FileType::Program(ProgramType::C, true), 15));
    assignment.add_entry(Problem::new("3", FileType::Pic, 15));
    let scores = vec![80, NEEDS_REVIEW, 90, 70, 100];
    let comments = vec![String::new(); 5];
    let totals = assignment.grade_totals(&scores, &comments);
    // 80*20 + 0*20 + 90*30 + 70*15 + 100*15
    assert_eq!(totals.weighted_sum, 6850);
    assert_eq!(totals.total_weight, 100);
    assert!(totals.need_review);
    let final_score = totals.weighted_sum as f64 / totals.total_weight as f64;
    assert_eq!(final_score, 68.5);
}

#[test]
fn comments_concatenate_in_declaration_order() {
    let mut assignment = Assignment::new();
    assignment.add_entry(Problem::new("1", FileType::Pic, 50));
    assignment.add_entry(Problem::new("2", FileType::Doc, 50));
    let scores = vec![90, 80];
    let comments = vec![String::from("nice"), String::new()];
    let totals = assignment.grade_totals(&scores, &comments);
    assert!(!totals.need_review);
    assert_eq!(totals.comment, "1: nice.");
    let comments = vec![String::from("nice"), String::from("late")];
    let totals = assignment.grade_totals(&scores, &comments);
    assert_eq!(totals.comment, "1: nice.2: late.");
}

#[test]
fn resolution_tries_upper_before_lower_in_declaration_order() {
    let problem = Problem::new("a", FileType::Doc, 10);
    let candidates = problem.candidate_files("dir");
    let names: Vec<&str> = candidates.iter().map(|c| c.0.as_str()).collect();
    assert_eq!(names, vec!["dir/a.TXT", "dir/a.txt", "dir/a.PDF", "dir/a.pdf"]);
    assert_eq!(candidates[1].1, "kate");
    assert_eq!(candidates[3].1, "evince");
    // `a.TXT` absent, `a.txt` present: the lowercase first-pair variant wins.
    let exists = vec![false, true, false, false];
    let resolved = first_existing(&exists).unwrap();
    assert_eq!(candidates[resolved].0, "dir/a.txt");
}

#[test]
fn program_and_patch_suffixes() {
    let program = Problem::new("3", FileType::Program(ProgramType::C, false), 15);
    let candidates = program.candidate_files("d");
    let names: Vec<&str> = candidates.iter().map(|c| c.0.as_str()).collect();
    assert_eq!(names, vec!["d/3.C", "d/3.c"]);
    assert_eq!(candidates[0].1, "cc");
    let patch = Problem::new("4", FileType::Patch(None), 10);
    let candidates = patch.candidate_files("d");
    let names: Vec<&str> = candidates.iter().map(|c| c.0.as_str()).collect();
    assert_eq!(names, vec!["d/4.PATCH", "d/4.patch"]);
    assert_eq!(candidates[0].1, "");
}

#[test]
fn review_actions_follow_the_kind() {
    assert!(matches!(FileType::Doc.review_action(), ReviewAction::Viewer));
    assert!(matches!(FileType::Pic.review_action(), ReviewAction::Viewer));
    assert!(matches!(
        FileType::Program(ProgramType::C, true).review_action(),
        ReviewAction::RawEditor
    ));
    assert!(matches!(
        FileType::Program(ProgramType::C, false).review_action(),
        ReviewAction::CompileAndRun
    ));
    assert!(matches!(
        FileType::Patch(Some("proj")).review_action(),
        ReviewAction::ApplyPatch("proj")
    ));
    assert!(matches!(FileType::Patch(None).review_action(), ReviewAction::RawEditor));
}

#[test]
fn fuzzy_match_picks_strictly_highest_candidate() {
    let candidates = vec![
        String::from("20230001_zhang"),
        String::from("20230002_li"),
    ];
    let best = best_match_index(&candidates, "20230001");
    assert_eq!(best, Some(0));
}

#[test]
fn fuzzy_tie_keeps_the_first_candidate() {
    // Identical candidates score identically; a later candidate must beat
    // the running best strictly, so the first one stays.
    let candidates = vec![String::from("s001_x"), String::from("s001_x")];
    assert_eq!(best_match_index(&candidates, "s001"), Some(0));
}

#[test]
fn fuzzy_match_returns_none_without_a_positive_score() {
    let candidates = vec![String::from("alpha"), String::from("beta")];
    assert_eq!(best_match_index(&candidates, "zzzz"), None);
    let empty: Vec<String> = vec![];
    assert_eq!(best_match_index(&empty, "anything"), None);
}

#[test]
fn fuzzy_match_prefers_the_closer_name() {
    let candidates = vec![
        String::from("S002_submission"),
        String::from("S001_submission"),
    ];
    let best = best_match_index(&candidates, "S001").unwrap();
    assert_eq!(candidates[best], "S001_submission");
}

#[test]
fn empty_assignment_has_zero_total_weight() {
    let assignment = Assignment::new();
    assert_eq!(assignment.total_weight(), 0);
    let totals = assignment.grade_totals(&vec![], &vec![]);
    assert_eq!(totals.weighted_sum, 0);
    assert_eq!(totals.total_weight, 0);
    assert!(!totals.need_review);
    assert_eq!(totals.comment, "");
}

#[test]
fn new_with_problems_keeps_the_order() {
    let problems = [
        Problem::new("1", FileType::Pic, 20),
        Problem::new("2", FileType::Doc, 80),
    ];
    let assignment = Assignment::new_with_problems(&problems);
    assert_eq!(assignment.total_weight(), 100);
    let scores = vec![50, 100];
    let comments = vec![String::new(), String::new()];
    let totals = assignment.grade_totals(&scores, &comments);
    assert_eq!(totals.weighted_sum, 50 * 20 + 100 * 80);
}
