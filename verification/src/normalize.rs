//! Normalization: after it, every answer carries a vote.
//!
//! An answer that arrives without a vote gets the default one: the selection
//! `false`, tied to the answer's own key and to the key of its question. An
//! answer that already carries a vote keeps it untouched.

use vstd::prelude::*;
use crate::model::{Answer, AnswerModel, Question, QuestionModel, Vote, VoteModel};
use crate::model::{answers_view, questions_view};

verus! {

/// The wire form of the selection "not chosen".
pub open spec fn unselected() -> Seq<char> {
    seq!['f', 'a', 'l', 's', 'e']
}

/// The vote that an answer without a vote is given.
pub open spec fn default_vote(question_key: Seq<char>, answer_key: Seq<char>) -> VoteModel {
    VoteModel {
        vote: unselected(),
        answer_key: Some(answer_key),
        question_key: Some(question_key),
    }
}

/// An answer after normalization inside the question `question_key`.
pub open spec fn normalized_answer(question_key: Seq<char>, a: AnswerModel) -> AnswerModel {
    if a.vote is Some {
        a
    } else {
        AnswerModel { key: a.key, vote: Some(default_vote(question_key, a.key)) }
    }
}

/// The answers of the question `question_key` after normalization.
pub open spec fn normalized_answers(question_key: Seq<char>, answers: Seq<AnswerModel>) -> Seq<
    AnswerModel,
> {
    Seq::new(answers.len(), |j: int| normalized_answer(question_key, answers[j]))
}

/// A question after normalization: same key, same answers in the same order,
/// each of them normalized.
pub open spec fn normalized_question(q: QuestionModel) -> QuestionModel {
    QuestionModel { key: q.key, answers: normalized_answers(q.key, q.answers) }
}

/// A collection after normalization: the same questions in the same order,
/// each of them normalized.
pub open spec fn normalized(questions: Seq<QuestionModel>) -> Seq<QuestionModel> {
    Seq::new(questions.len(), |i: int| normalized_question(questions[i]))
}

/// Every answer of every question carries a vote.
pub open spec fn fully_voted(questions: Seq<QuestionModel>) -> bool {
    forall|i: int, j: int|
        0 <= i < questions.len() && 0 <= j < questions[i].answers.len()
            ==> (#[trigger] questions[i].answers[j]).vote is Some
}

/// Builds the default vote for the answer `answer_key` of the question
/// `question_key`.
pub fn make_default_vote(question_key: &String, answer_key: &String) -> (v: Vote)
    ensures
        v@ == default_vote(question_key@, answer_key@),
{
    let text = "false".to_owned();
    proof {
        reveal_strlit("false");
        assert(text@ =~= unselected());
    }
    Vote {
        vote: text,
        answer_key: Some(answer_key.clone()),
        question_key: Some(question_key.clone()),
    }
}

/// Gives `answer` the default vote if it has none.
pub fn normalize_answer(question_key: &String, answer: &mut Answer)
    ensures
        final(answer)@ == normalized_answer(question_key@, old(answer)@),
{
    if answer.vote.is_none() {
        answer.vote = Some(make_default_vote(question_key, &answer.key));
    }
}

/// Normalizes every answer of `question`.
pub fn normalize_question(question: &mut Question)
    ensures
        final(question)@ == normalized_question(old(question)@),
{
    let n = question.answers.len();
    let mut j: usize = 0;
    while j < n
        invariant
            j <= n,
            n == question.answers.len(),
            question.key == old(question).key,
            question.answers.len() == old(question).answers.len(),
            forall|k: int|
                0 <= k < j ==> (#[trigger] question.answers[k])@ == normalized_answer(
                    question.key@,
                    old(question).answers[k]@,
                ),
            forall|k: int|
                j <= k < n ==> (#[trigger] question.answers[k]) == old(question).answers[k],
        decreases n - j,
    {
        normalize_answer(&question.key, &mut question.answers[j]);
        j += 1;
    }
    assert(answers_view(question.answers@) =~= normalized_answers(
        question.key@,
        answers_view(old(question).answers@),
    ));
}

/// Normalizes a whole collection in place.
pub fn normalize(questions: &mut Vec<Question>)
    ensures
        questions_view(final(questions)@) == normalized(questions_view(old(questions)@)),
{
    let n = questions.len();
    let mut i: usize = 0;
    while i < n
        invariant
            i <= n,
            n == questions.len(),
            questions.len() == old(questions).len(),
            forall|k: int|
                0 <= k < i ==> (#[trigger] questions[k])@ == normalized_question(
                    old(questions)[k]@,
                ),
            forall|k: int| i <= k < n ==> (#[trigger] questions[k]) == old(questions)[k],
        decreases n - i,
    {
        normalize_question(&mut questions[i]);
        i += 1;
    }
    assert(questions_view(questions@) =~= normalized(questions_view(old(questions)@)));
}

} // verus!
