use extreme_secret_santa::grading::{ascii_case_equal, grade_open_response};
use extreme_secret_santa::question::{check_question, contains_option, grade, AnswerKind, Question};

fn open_question(expected: &str) -> Question {
    Question {
        id: 1,
        text: String::from("Capital of France?"),
        kind: AnswerKind::OpenResponse,
        correct_answer: expected.to_string(),
        image: None,
    }
}

fn choice_question(options: &[&str], expected: &str) -> Question {
    Question {
        id: 1,
        text: String::from("Which planet is closest to the sun?"),
        kind: AnswerKind::MultipleChoice(options.iter().map(|o| o.to_string()).collect()),
        correct_answer: expected.to_string(),
        image: None,
    }
}

#[test]
fn open_response_ignores_case_and_spaces() {
    let q = open_question("Paris");
    for a in ["Paris", " paris ", "PARIS"] {
        let a = a.to_string();
        assert!(grade(&q, Some(&a)));
    }
    let wrong = String::from("Pariss");
    assert!(!grade(&q, Some(&wrong)));
}

#[test]
fn open_response_missing_answer_is_incorrect() {
    let q = open_question("Paris");
    assert!(!grade(&q, None));
}

#[test]
fn multiple_choice_is_exact() {
    let q = choice_question(&["Venus", "Mercury", "Mars"], "Mercury");
    let right = String::from("Mercury");
    let lower = String::from("mercury");
    let padded = String::from(" Mercury");
    assert!(grade(&q, Some(&right)));
    assert!(!grade(&q, Some(&lower)));
    assert!(!grade(&q, Some(&padded)));
    assert!(!grade(&q, None));
}

#[test]
fn ascii_case_comparison() {
    assert!(ascii_case_equal("Slinky Dog Dash", "slinky dog DASH"));
    assert!(!ascii_case_equal("abc", "abd"));
    assert!(!ascii_case_equal("abc", "abcd"));
    assert!(ascii_case_equal("", ""));
    assert!(!ascii_case_equal("é", "É"));
}

#[test]
fn open_response_trims_tabs_and_newlines() {
    assert!(grade_open_response("\t6\n", "6"));
    assert!(!grade_open_response("6 6", "6"));
    assert!(!grade_open_response("   ", "6"));
}

#[test]
fn option_membership() {
    let options: Vec<String> = vec![String::from("A"), String::from("B")];
    assert!(contains_option(&options, &String::from("B")));
    assert!(!contains_option(&options, &String::from("C")));
    assert!(!contains_option(&Vec::new(), &String::from("A")));
}

#[test]
fn choice_question_validation() {
    assert!(!check_question(&choice_question(&["A", "B"], "C")));
    assert!(check_question(&choice_question(&["A", "B"], "B")));
    assert!(check_question(&open_question("anything")));
}
