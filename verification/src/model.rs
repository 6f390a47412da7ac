//! The data of a polling session and its mathematical model.
//!
//! Every executable type has a view made of sequences of characters, so that
//! contracts speak of contents and never of allocations.

use vstd::prelude::*;

verus! {

/// What a [`Vote`] stands for.
pub struct VoteModel {
    /// The selection, in its wire form.
    pub vote: Seq<char>,
    /// Key of the answer the vote belongs to.
    pub answer_key: Option<Seq<char>>,
    /// Key of the question the answer belongs to.
    pub question_key: Option<Seq<char>>,
}

/// What an [`Answer`] stands for.
pub struct AnswerModel {
    pub key: Seq<char>,
    pub vote: Option<VoteModel>,
}

/// What a [`Question`] stands for.
pub struct QuestionModel {
    pub key: Seq<char>,
    pub answers: Seq<AnswerModel>,
}

/// The view of an optional string.
pub open spec fn opt_text(s: Option<String>) -> Option<Seq<char>> {
    match s {
        Some(t) => Some(t@),
        None => None,
    }
}

/// The view of an optional vote.
pub open spec fn opt_vote(v: Option<Vote>) -> Option<VoteModel> {
    match v {
        Some(w) => Some(w@),
        None => None,
    }
}

/// The views of a sequence of votes, in order.
pub open spec fn votes_view(s: Seq<Vote>) -> Seq<VoteModel> {
    s.map_values(|v: Vote| v@)
}

/// The views of a sequence of answers, in order.
pub open spec fn answers_view(s: Seq<Answer>) -> Seq<AnswerModel> {
    s.map_values(|a: Answer| a@)
}

/// The views of a sequence of questions, in order.
pub open spec fn questions_view(s: Seq<Question>) -> Seq<QuestionModel> {
    s.map_values(|q: Question| q@)
}

/// A selection together with the keys of the answer and question it is for.
#[derive(Debug, PartialEq, Eq)]
pub struct Vote {
    pub vote: String,
    pub answer_key: Option<String>,
    pub question_key: Option<String>,
}

/// One possible answer to a question, with the participant's vote on it.
#[derive(Debug, PartialEq, Eq)]
pub struct Answer {
    pub key: String,
    pub vote: Option<Vote>,
}

/// A question and its answers, in the order they are shown.
#[derive(Debug, PartialEq, Eq)]
pub struct Question {
    pub key: String,
    pub answers: Vec<Answer>,
}

/// An opaque token: the identifier of a polling session, or the
/// confirmation key the server returns for a submission.
#[derive(Debug, PartialEq, Eq)]
pub struct Session {
    pub session: String,
}

impl View for Vote {
    type V = VoteModel;

    open spec fn view(&self) -> VoteModel {
        VoteModel {
            vote: self.vote@,
            answer_key: opt_text(self.answer_key),
            question_key: opt_text(self.question_key),
        }
    }
}

impl View for Answer {
    type V = AnswerModel;

    open spec fn view(&self) -> AnswerModel {
        AnswerModel { key: self.key@, vote: opt_vote(self.vote) }
    }
}

impl View for Question {
    type V = QuestionModel;

    open spec fn view(&self) -> QuestionModel {
        QuestionModel { key: self.key@, answers: answers_view(self.answers@) }
    }
}

impl View for Session {
    type V = Seq<char>;

    open spec fn view(&self) -> Seq<char> {
        self.session@
    }
}

/// Copies an optional string.
pub fn copy_opt_text(s: &Option<String>) -> (r: Option<String>)
    ensures
        opt_text(r) == opt_text(*s),
{
    match s {
        Some(t) => Some(t.clone()),
        None => None,
    }
}

impl Clone for Vote {
    fn clone(&self) -> (r: Self)
        ensures
            r@ == self@,
    {
        Vote {
            vote: self.vote.clone(),
            answer_key: copy_opt_text(&self.answer_key),
            question_key: copy_opt_text(&self.question_key),
        }
    }
}

impl Clone for Answer {
    fn clone(&self) -> (r: Self)
        ensures
            r@ == self@,
    {
        let vote = match &self.vote {
            Some(v) => Some(v.clone()),
            None => None,
        };
        Answer { key: self.key.clone(), vote }
    }
}

impl Clone for Question {
    fn clone(&self) -> (r: Self)
        ensures
            r@ == self@,
    {
        let mut answers: Vec<Answer> = Vec::new();
        let mut i: usize = 0;
        while i < self.answers.len()
            invariant
                i <= self.answers.len(),
                answers.len() == i,
                forall|k: int| 0 <= k < i ==> (#[trigger] answers[k])@ == self.answers[k]@,
            decreases self.answers.len() - i,
        {
            answers.push(self.answers[i].clone());
            i += 1;
        }
        assert(answers_view(answers@) =~= answers_view(self.answers@));
        Question { key: self.key.clone(), answers }
    }
}

impl Clone for Session {
    fn clone(&self) -> (r: Self)
        ensures
            r@ == self@,
    {
        Session { session: self.session.clone() }
    }
}

/// Copies a whole collection of questions.
pub fn copy_questions(questions: &Vec<Question>) -> (r: Vec<Question>)
    ensures
        questions_view(r@) == questions_view(questions@),
{
    let mut out: Vec<Question> = Vec::new();
    let mut i: usize = 0;
    while i < questions.len()
        invariant
            i <= questions.len(),
            out.len() == i,
            forall|k: int| 0 <= k < i ==> (#[trigger] out[k])@ == questions[k]@,
        decreases questions.len() - i,
    {
        out.push(questions[i].clone());
        i += 1;
    }
    assert(questions_view(out@) =~= questions_view(questions@));
    out
}

} // verus!
