//! Flattening: the votes of a collection as one sequence.
//!
//! The votes come out question by question and, within a question, answer by
//! answer. An answer without a vote contributes nothing.

use vstd::prelude::*;
use crate::model::{AnswerModel, Question, QuestionModel, Vote, VoteModel};
use crate::model::{answers_view, questions_view, votes_view};

verus! {

/// What one answer contributes: its vote, if it has one.
pub open spec fn vote_of(a: AnswerModel) -> Seq<VoteModel> {
    match a.vote {
        Some(v) => seq![v],
        None => Seq::empty(),
    }
}

/// The votes carried by `answers`, in the order of the answers.
pub open spec fn answer_votes(answers: Seq<AnswerModel>) -> Seq<VoteModel>
    decreases answers.len(),
{
    if answers.len() == 0 {
        Seq::empty()
    } else {
        answer_votes(answers.drop_last()) + vote_of(answers.last())
    }
}

/// The votes carried by `questions`: those of the first question, then those
/// of the second, and so on.
pub open spec fn flattened(questions: Seq<QuestionModel>) -> Seq<VoteModel>
    decreases questions.len(),
{
    if questions.len() == 0 {
        Seq::empty()
    } else {
        flattened(questions.drop_last()) + answer_votes(questions.last().answers)
    }
}

/// Collects a copy of every vote in `questions`, in question-then-answer
/// order.
pub fn flatten_votes(questions: &Vec<Question>) -> (votes: Vec<Vote>)
    ensures
        votes_view(votes@) == flattened(questions_view(questions@)),
{
    let ghost qs = questions_view(questions@);
    let mut votes: Vec<Vote> = Vec::new();
    let mut i: usize = 0;
    assert(qs.take(0) =~= Seq::empty());
    assert(votes_view(votes@) =~= Seq::empty());
    while i < questions.len()
        invariant
            i <= questions.len(),
            qs == questions_view(questions@),
            votes_view(votes@) == flattened(qs.take(i as int)),
        decreases questions.len() - i,
    {
        let q = &questions[i];
        let ghost answers = answers_view(q.answers@);
        let ghost done = flattened(qs.take(i as int));
        let mut j: usize = 0;
        assert(answers.take(0) =~= Seq::empty());
        assert(done + answer_votes(answers.take(0)) =~= done);
        while j < q.answers.len()
            invariant
                j <= q.answers.len(),
                answers == answers_view(q.answers@),
                votes_view(votes@) == done + answer_votes(answers.take(j as int)),
            decreases q.answers.len() - j,
        {
            let ghost prior = votes_view(votes@);
            proof {
                assert(answers.take(j + 1).drop_last() =~= answers.take(j as int));
                assert(answers.take(j + 1).last() == q.answers[j as int]@);
            }
            match &q.answers[j].vote {
                Some(v) => {
                    votes.push(v.clone());
                    assert(votes_view(votes@) =~= prior + seq![v@]);
                },
                None => {},
            }
            assert(votes_view(votes@) =~= done + answer_votes(answers.take(j + 1)));
            j += 1;
        }
        proof {
            assert(answers.take(j as int) =~= answers);
            assert(qs.take(i + 1).drop_last() =~= qs.take(i as int));
            assert(qs.take(i + 1).last() == q@);
        }
        i += 1;
    }
    assert(qs.take(i as int) =~= qs);
    votes
}

} // verus!
