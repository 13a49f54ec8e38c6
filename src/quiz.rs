use vstd::prelude::*;
use crate::answers::{stored, AnswerStore};
use crate::question::{answer_correct, check_question, grade, question_valid, Question};

verus! {

/// Every question has a stored answer, and each of them is correct.
pub open spec fn all_answered_correctly(qs: Seq<Question>, m: Map<u64, Seq<char>>) -> bool {
    forall|i: int| 0 <= i < qs.len() ==> answer_correct(#[trigger] qs[i], stored(m, qs[i].id))
}

/// The completion check: true exactly when every question has a correct stored answer.
pub fn all_correct(questions: &Vec<Question>, answers: &AnswerStore) -> (r: bool)
    ensures
        r == all_answered_correctly(questions@, answers@),
{
    let mut i: usize = 0;
    while i < questions.len()
        invariant
            i <= questions.len(),
            forall|j: int|
                0 <= j < i ==> answer_correct(#[trigger] questions@[j], stored(answers@, questions@[j].id)),
        decreases questions.len() - i,
    {
        let q = &questions[i];
        if !grade(q, answers.get(q.id)) {
            return false;
        }
        i = i + 1;
    }
    true
}

/// Adding a question that has no stored answer makes the completion check fail.
pub proof fn lemma_unanswered_blocks_completion(qs: Seq<Question>, m: Map<u64, Seq<char>>, q: Question)
    requires
        !m.contains_key(q.id),
    ensures
        !all_answered_correctly(qs.push(q), m),
{
    assert(qs.push(q)[qs.len() as int] == q);
}

/// Each of the given questions is consistent.
pub open spec fn all_valid(qs: Seq<Question>) -> bool {
    forall|i: int| 0 <= i < qs.len() ==> question_valid(#[trigger] qs[i])
}

/// Why a set of questions was refused.
#[derive(Debug, Clone, Copy, PartialEq, Eq, Structural)]
pub enum ConfigError {
    /// The multiple-choice question at this position does not list its correct answer.
    AnswerNotAmongOptions { index: usize },
}

/// A checked, numbered, read-only list of questions.
pub struct Quiz {
    questions: Vec<Question>,
}

/// The questions numbered from one, in order, and otherwise unchanged.
pub open spec fn numbered(qs: Seq<Question>, renumbered: Seq<Question>) -> bool {
    &&& renumbered.len() == qs.len()
    &&& forall|i: int|
        0 <= i < qs.len() ==> {
            &&& (#[trigger] renumbered[i]).id == i + 1
            &&& renumbered[i].text == qs[i].text
            &&& renumbered[i].kind == qs[i].kind
            &&& renumbered[i].correct_answer == qs[i].correct_answer
            &&& renumbered[i].image == qs[i].image
        }
}

impl View for Quiz {
    type V = Seq<Question>;

    closed spec fn view(&self) -> Seq<Question> {
        self.questions@
    }
}

impl Quiz {
    /// Every question is consistent and carries its one-based position as identifier.
    pub open spec fn well_formed(&self) -> bool {
        &&& all_valid(self@)
        &&& forall|i: int| 0 <= i < self@.len() ==> (#[trigger] self@[i]).id == i + 1
    }

    /// Checks the questions and numbers them from one. The first multiple-choice
    /// question whose correct answer is not among its options is reported.
    pub fn new(questions: Vec<Question>) -> (r: Result<Quiz, ConfigError>)
        ensures
            r is Ok <==> all_valid(questions@),
            r matches Ok(quiz) ==> quiz.well_formed() && numbered(questions@, quiz@),
            r matches Err(ConfigError::AnswerNotAmongOptions { index }) ==> {
                &&& index < questions@.len()
                &&& !question_valid(questions@[index as int])
                &&& all_valid(questions@.subrange(0, index as int))
            },
    {
        let ghost orig = questions@;
        let mut qs = questions;
        let mut i: usize = 0;
        while i < qs.len()
            invariant
                i <= qs.len(),
                orig == questions@,
                qs@.len() == orig.len(),
                all_valid(orig.subrange(0, i as int)),
                forall|j: int| i <= j < orig.len() ==> qs@[j] == orig[j],
                forall|j: int|
                    0 <= j < i ==> {
                        &&& (#[trigger] qs@[j]).id == j + 1
                        &&& qs@[j].text == orig[j].text
                        &&& qs@[j].kind == orig[j].kind
                        &&& qs@[j].correct_answer == orig[j].correct_answer
                        &&& qs@[j].image == orig[j].image
                    },
            decreases qs.len() - i,
        {
            if !check_question(&qs[i]) {
                assert(qs@[i as int] == orig[i as int]);
                assert(!question_valid(orig[i as int]));
                return Err(ConfigError::AnswerNotAmongOptions { index: i });
            }
            qs[i].id = (i as u64) + 1;
            proof {
                assert forall|j: int| 0 <= j < i + 1 implies question_valid(
                    #[trigger] orig.subrange(0, i + 1)[j],
                ) by {
                    if j < i {
                        assert(orig.subrange(0, i as int)[j] == orig.subrange(0, i + 1)[j]);
                    }
                }
            }
            i = i + 1;
        }
        proof {
            assert(orig.subrange(0, orig.len() as int) =~= orig);
        }
        Ok(Quiz { questions: qs })
    }

    /// The questions, in display order.
    pub fn questions(&self) -> (r: &Vec<Question>)
        ensures
            r@ == self@,
    {
        &self.questions
    }

    /// Whether every question has a correct stored answer.
    pub fn is_complete(&self, answers: &AnswerStore) -> (r: bool)
        ensures
            r == all_answered_correctly(self@, answers@),
    {
        all_correct(&self.questions, answers)
    }

    /// The secret, once every question has a correct stored answer; nothing before.
    pub fn revealed_secret(&self, answers: &AnswerStore, secret: &str) -> (r: Option<String>)
        ensures
            r is Some <==> all_answered_correctly(self@, answers@),
            r matches Some(s) ==> s@ == secret@,
    {
        if self.is_complete(answers) {
            Some(String::from_str(secret))
        } else {
            None
        }
    }
}

} // verus!
