use batch_grader::assignment::Assignment;
use batch_grader::kinds::FileType;
use batch_grader::locate::{resolve_student_dir, zip_candidate};
use batch_grader::problem::{first_existing, Problem};
use batch_grader::score::parse_score;
use batch_grader::session::{result_line, should_process};
use batch_grader::text::{ascii_lower, ascii_upper, path_join, trim_ascii};

#[test]
fn parse_score_reads_plain_integers() {
    assert_eq!(parse_score("85"), 85);
    assert_eq!(parse_score("85\n"), 85);
    assert_eq!(parse_score("  7\t"), 7);
    assert_eq!(parse_score("+7"), 7);
    assert_eq!(parse_score("0"), 0);
    assert_eq!(parse_score("101"), 101);
    assert_eq!(parse_score("4294967295"), 4294967295);
}

#[test]
fn parse_score_falls_back_to_zero_on_bad_input() {
    assert_eq!(parse_score(""), 0);
    assert_eq!(parse_score("\n"), 0);
    assert_eq!(parse_score("abc"), 0);
    assert_eq!(parse_score("8a"), 0);
    assert_eq!(parse_score("-3"), 0);
    assert_eq!(parse_score("+"), 0);
    assert_eq!(parse_score("8 5"), 0);
    assert_eq!(parse_score("4294967296"), 0);
    assert_eq!(parse_score("99999999999999999999"), 0);
}

#[test]
fn ascii_case_conversion() {
    assert_eq!(ascii_upper("b1234"), "B1234");
    assert_eq!(ascii_lower("B1234"), "b1234");
    assert_eq!(ascii_upper("mIx-9_z"), "MIX-9_Z");
    assert_eq!(ascii_lower("mIx-9_z"), "mix-9_z");
    assert_eq!(ascii_upper(""), "");
}

#[test]
fn trim_removes_surrounding_whitespace_only() {
    assert_eq!(trim_ascii("  spaced out \t\n"), "spaced out");
    assert_eq!(trim_ascii("plain"), "plain");
    assert_eq!(trim_ascii(" \t \n"), "");
}

#[test]
fn path_join_inserts_exactly_one_separator() {
    assert_eq!(path_join(".", "B1234"), "./B1234");
    assert_eq!(path_join("./", "B1234"), "./B1234");
    assert_eq!(path_join("", "B1234"), "B1234");
    assert_eq!(path_join("work/dir", "x.txt"), "work/dir/x.txt");
}

#[test]
fn student_dir_prefers_upper_then_lower_then_base() {
    // A working tree with `B1234/` but no `b1234/` resolves to `B1234/`.
    assert_eq!(resolve_student_dir(".", "b1234", true, false), "./B1234");
    assert_eq!(resolve_student_dir(".", "b1234", false, true), "./b1234");
    assert_eq!(resolve_student_dir(".", "b1234", true, true), "./B1234");
    assert_eq!(resolve_student_dir(".", "b1234", false, false), ".");
}

#[test]
fn zip_candidate_prefers_the_uppercase_archive() {
    assert_eq!(zip_candidate("./s001_dir", "s001", true), "./s001_dir/S001.zip");
    assert_eq!(zip_candidate("./s001_dir", "s001", false), "./s001_dir/s001.zip");
}

#[test]
fn result_line_is_tab_delimited() {
    assert_eq!(result_line("85", ""), "85\t\n");
    assert_eq!(result_line("68.5", "1: nice."), "68.5\t1: nice.\n");
    assert_eq!(result_line("-1", "Need manual review"), "-1\tNeed manual review\n");
}

#[test]
fn resume_skips_exactly_the_logged_rows() {
    assert!(!should_process(0, 2));
    assert!(!should_process(1, 2));
    assert!(should_process(2, 2));
    assert!(should_process(5, 2));
    assert!(should_process(0, 0));
}

#[test]
fn resume_leaves_earlier_log_lines_untouched() {
    // First run: two students graded.
    let mut log: Vec<String> = Vec::new();
    log.push(result_line("85", ""));
    log.push(result_line("-1", "Need manual review"));
    let before = log.clone();
    // Second run resumes at offset 2 and appends one more line.
    let offset = log.len();
    for row in 0..3usize {
        if should_process(row, offset) {
            log.push(result_line("70", "3: late."));
        }
    }
    assert_eq!(log.len(), 3);
    assert_eq!(&log[..offset], &before[..]);
}

#[test]
fn end_to_end_single_picture_problem() {
    // Roster row (id=7, "S001"); one Picture problem named "1", weight 100;
    // the submission holds `S001/1.png`; the operator types "85".
    let student_number = "S001";
    let mut assignment = Assignment::new();
    assignment.add_entry(Problem::new("1", FileType::Pic, 100));
    assert!(assignment.total_weight() > 0);

    // The matched directory holds no archive variant; the student directory
    // under the working tree is probed by case.
    let student_dir = resolve_student_dir(".", student_number, true, false);
    assert_eq!(student_dir, "./S001");

    let problem = assignment.problems[0];
    let candidates = problem.candidate_files(&student_dir);
    let names: Vec<&str> = candidates.iter().map(|c| c.0.as_str()).collect();
    assert_eq!(names, vec!["./S001/1.JPG", "./S001/1.jpg", "./S001/1.PNG", "./S001/1.png"]);
    // Only `1.png` exists on disk.
    let exists = vec![false, false, false, true];
    let resolved = first_existing(&exists).unwrap();
    assert_eq!(candidates[resolved].0, "./S001/1.png");
    assert_eq!(candidates[resolved].1, "feh");

    let score = Problem::grade_outcome(Some(parse_score("85\n")));
    let totals = assignment.grade_totals(&vec![score], &vec![String::new()]);
    assert_eq!(totals.weighted_sum, 8500);
    assert_eq!(totals.total_weight, 100);
    assert!(!totals.need_review);
    assert_eq!(totals.comment, "");

    let final_score = totals.weighted_sum as f64 / totals.total_weight as f64;
    let line = result_line(&format!("{final_score}"), &totals.comment);
    assert_eq!(line, "85\t\n");
}
