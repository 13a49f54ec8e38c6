use vstd::prelude::*;
use crate::grading::{grade_open_response, open_response_correct};

verus! {

/// How a question is answered.
pub enum AnswerKind {
    /// A choice among the listed options, in display order.
    MultipleChoice(Vec<String>),
    /// A free-text answer.
    OpenResponse,
}

/// One quiz item.
pub struct Question {
    pub id: u64,
    pub text: String,
    pub kind: AnswerKind,
    pub correct_answer: String,
    /// Where the picture that goes with the question is found, if there is one.
    pub image: Option<String>,
}

/// The characters of each option, in order.
pub open spec fn options_view(options: Seq<String>) -> Seq<Seq<char>> {
    Seq::new(options.len(), |i: int| options[i]@)
}

/// A question is consistent when, for a multiple-choice question, the correct
/// answer is one of the options.
pub open spec fn question_valid(q: Question) -> bool {
    match q.kind {
        AnswerKind::MultipleChoice(options) => options_view(options@).contains(q.correct_answer@),
        AnswerKind::OpenResponse => true,
    }
}

/// Whether a submission (none, or the text that was given) is a correct answer.
pub open spec fn answer_correct(q: Question, submitted: Option<Seq<char>>) -> bool {
    match submitted {
        None => false,
        Some(s) => match q.kind {
            AnswerKind::MultipleChoice(_) => s == q.correct_answer@,
            AnswerKind::OpenResponse => open_response_correct(s, q.correct_answer@),
        },
    }
}

/// The characters of a submission, if there is one.
pub open spec fn text_of(submitted: Option<&String>) -> Option<Seq<char>> {
    match submitted {
        Some(s) => Some(s@),
        None => None,
    }
}

/// Grades one submission: a missing answer is incorrect, a choice must equal
/// the correct answer exactly, and free text is compared as `grade_open_response` does.
pub fn grade(question: &Question, submitted: Option<&String>) -> (r: bool)
    ensures
        r == answer_correct(*question, text_of(submitted)),
{
    match submitted {
        None => false,
        Some(s) => match &question.kind {
            AnswerKind::MultipleChoice(_) => *s == question.correct_answer,
            AnswerKind::OpenResponse => grade_open_response(s.as_str(), question.correct_answer.as_str()),
        },
    }
}

/// Whether some option equals `answer`.
pub fn contains_option(options: &Vec<String>, answer: &String) -> (r: bool)
    ensures
        r == options_view(options@).contains(answer@),
{
    let mut i: usize = 0;
    while i < options.len()
        invariant
            i <= options.len(),
            forall|j: int| 0 <= j < i ==> options@[j]@ != answer@,
        decreases options.len() - i,
    {
        if options[i] == *answer {
            assert(options_view(options@)[i as int] == answer@);
            return true;
        }
        i = i + 1;
    }
    proof {
        if options_view(options@).contains(answer@) {
            let k = choose|k: int| 0 <= k < options@.len() && options_view(options@)[k] == answer@;
            assert(options@[k]@ != answer@);
        }
    }
    false
}

/// Checks that a question is consistent (see `question_valid`).
pub fn check_question(question: &Question) -> (r: bool)
    ensures
        r == question_valid(*question),
{
    match &question.kind {
        AnswerKind::MultipleChoice(options) => contains_option(options, &question.correct_answer),
        AnswerKind::OpenResponse => true,
    }
}

} // verus!
