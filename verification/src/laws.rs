//! Properties that relate loading, editing and submitting.

use vstd::prelude::*;
use crate::model::{AnswerModel, QuestionModel};
use crate::normalize::{default_vote, fully_voted, normalized};
use crate::replace::{first_match, has_key, is_first_match, replaced};
use crate::flatten::{answer_votes, flattened, vote_of};
use crate::controller::{ControllerModel, EffectModel, MsgModel, Phase, SessionError};
use crate::controller::{after_change, after_load, after_reload, after_submit};
use crate::controller::{after_submit_failure, is_open, phase_of, step};

verus! {

/// All answers of a collection as one sequence: those of the first
/// question, then those of the second, and so on.
pub open spec fn all_answers(questions: Seq<QuestionModel>) -> Seq<AnswerModel>
    decreases questions.len(),
{
    if questions.len() == 0 {
        Seq::empty()
    } else {
        all_answers(questions.drop_last()) + questions.last().answers
    }
}

/// Normalizing is idempotent: a second pass over a normalized collection
/// changes nothing.
pub proof fn lemma_normalize_idempotent(questions: Seq<QuestionModel>)
    ensures
        normalized(normalized(questions)) == normalized(questions),
{
    let once = normalized(questions);
    let twice = normalized(once);
    assert forall|i: int| 0 <= i < once.len() implies twice[i] == once[i] by {
        assert(twice[i].answers =~= once[i].answers);
    }
    assert(twice =~= once);
}

/// Loading the same questions again yields the same collection, whatever
/// the controller held in between, and loading what a load produced yields
/// it once more.
pub proof fn lemma_load_twice(s: ControllerModel, t: ControllerModel, questions: Seq<QuestionModel>)
    ensures
        after_load(s, questions).state.questions == after_load(t, questions).state.questions,
        after_load(t, after_load(s, questions).state.questions).state.questions == after_load(
            s,
            questions,
        ).state.questions,
{
    lemma_normalize_idempotent(questions);
}

/// Normalizing keeps the shape of a collection and never overwrites a vote:
/// the questions and answers stay in number, order and key, and an answer
/// that carried a vote comes out as it went in.
pub proof fn lemma_normalize_keeps_votes(questions: Seq<QuestionModel>, i: int, j: int)
    requires
        0 <= i < questions.len(),
        0 <= j < questions[i].answers.len(),
    ensures
        normalized(questions).len() == questions.len(),
        normalized(questions)[i].key == questions[i].key,
        normalized(questions)[i].answers.len() == questions[i].answers.len(),
        normalized(questions)[i].answers[j].key == questions[i].answers[j].key,
        questions[i].answers[j].vote is Some ==> normalized(questions)[i].answers[j]
            == questions[i].answers[j],
{
}

/// After normalizing, every answer carries a vote; one that arrived without
/// carries the selection `false` and the keys of its answer and question.
pub proof fn lemma_normalize_default_votes(questions: Seq<QuestionModel>)
    ensures
        fully_voted(normalized(questions)),
        forall|i: int, j: int|
            0 <= i < questions.len() && 0 <= j < questions[i].answers.len()
                && questions[i].answers[j].vote is None ==> (#[trigger] normalized(
                questions,
            )[i].answers[j]).vote == Some(
                default_vote(questions[i].key, questions[i].answers[j].key),
            ),
{
}

/// After a load, every answer the controller holds carries a vote.
pub proof fn lemma_loaded_is_fully_voted(s: ControllerModel, questions: Seq<QuestionModel>)
    ensures
        fully_voted(step(s, MsgModel::LoadQuestions(questions)).state.questions),
{
    lemma_normalize_default_votes(questions);
}

/// An edit whose key is held keeps the length of the collection and every
/// other question in its place; the edited question stands where the first
/// question with its key stood.
pub proof fn lemma_replace_preserves_order(questions: Seq<QuestionModel>, question: QuestionModel)
    requires
        has_key(questions, question.key),
    ensures
        replaced(questions, question).len() == questions.len(),
        is_first_match(questions, question.key, first_match(questions, question.key)),
        replaced(questions, question)[first_match(questions, question.key)] == question,
        forall|k: int|
            0 <= k < questions.len() && k != first_match(questions, question.key)
                ==> #[trigger] replaced(questions, question)[k] == questions[k],
{
    let w = choose|i: int| 0 <= i < questions.len() && (#[trigger] questions[i]).key == question.key;
    lemma_some_first_match(questions, question.key, w);
}

/// Below any position that carries `key` there is a first one.
proof fn lemma_some_first_match(questions: Seq<QuestionModel>, key: Seq<char>, w: int)
    requires
        0 <= w < questions.len(),
        questions[w].key == key,
    ensures
        is_first_match(questions, key, first_match(questions, key)),
    decreases w,
{
    if forall|j: int| 0 <= j < w ==> (#[trigger] questions[j]).key != key {
        assert(is_first_match(questions, key, w));
    } else {
        let j = choose|j: int| 0 <= j < w && (#[trigger] questions[j]).key == key;
        lemma_some_first_match(questions, key, j);
    }
}

/// An edit whose key is held keeps the length of the controller's
/// collection and every other question in its place, whatever the phase;
/// nothing but the collection changes. Where the edit is taken, the edited
/// question stands where the first question with its key stood, and that
/// collection is what the application is asked to persist.
pub proof fn lemma_change_preserves_order(s: ControllerModel, question: QuestionModel)
    requires
        has_key(s.questions, question.key),
    ensures
        after_change(s, question).state.questions.len() == s.questions.len(),
        forall|k: int|
            0 <= k < s.questions.len() && k != first_match(s.questions, question.key)
                ==> #[trigger] after_change(s, question).state.questions[k] == s.questions[k],
        after_change(s, question).state == (ControllerModel {
            questions: after_change(s, question).state.questions,
            ..s
        }),
        is_open(s) ==> after_change(s, question).changed,
        is_open(s) ==> after_change(s, question).state.questions[first_match(
            s.questions,
            question.key,
        )] == question,
        is_open(s) ==> after_change(s, question).effect == EffectModel::Persist(
            after_change(s, question).state.questions,
        ),
{
    lemma_replace_preserves_order(s.questions, question);
}

/// An edit whose key is not held leaves the controller as it was, reports
/// no change and asks for nothing.
pub proof fn lemma_change_absent_key(s: ControllerModel, question: QuestionModel)
    requires
        !has_key(s.questions, question.key),
    ensures
        replaced(s.questions, question) == s.questions,
        step(s, MsgModel::ChangeVotes(question)).state == s,
        !step(s, MsgModel::ChangeVotes(question)).changed,
        step(s, MsgModel::ChangeVotes(question)).effect == EffectModel::Nothing,
{
}

/// Where every answer carries a vote, the votes of `answers` are exactly
/// the votes of its answers, one each and in their order.
pub proof fn lemma_answer_votes_complete(answers: Seq<AnswerModel>)
    requires
        forall|j: int| 0 <= j < answers.len() ==> (#[trigger] answers[j]).vote is Some,
    ensures
        answer_votes(answers).len() == answers.len(),
        forall|j: int|
            0 <= j < answers.len() ==> answers[j].vote == Some(#[trigger] answer_votes(answers)[j]),
    decreases answers.len(),
{
    if answers.len() > 0 {
        let front = answers.drop_last();
        assert forall|j: int| 0 <= j < front.len() implies (#[trigger] front[j]).vote is Some by {
            assert(front[j] == answers[j]);
        }
        lemma_answer_votes_complete(front);
        assert(answers.last() == answers[answers.len() - 1]);
        assert(vote_of(answers.last()).len() == 1);
        assert forall|j: int| 0 <= j < answers.len() implies answers[j].vote == Some(
            #[trigger] answer_votes(answers)[j],
        ) by {
            if j < front.len() {
                assert(front[j] == answers[j]);
            }
        }
    }
}

/// Where every answer carries a vote, flattening yields exactly one vote
/// per answer of the collection, in question-then-answer order.
pub proof fn lemma_flatten_complete(questions: Seq<QuestionModel>)
    requires
        fully_voted(questions),
    ensures
        flattened(questions).len() == all_answers(questions).len(),
        forall|k: int|
            0 <= k < all_answers(questions).len() ==> (#[trigger] all_answers(questions)[k]).vote
                == Some(flattened(questions)[k]),
    decreases questions.len(),
{
    if questions.len() > 0 {
        let front = questions.drop_last();
        let tail = questions.last().answers;
        assert(fully_voted(front)) by {
            assert forall|i: int, j: int|
                0 <= i < front.len() && 0 <= j < front[i].answers.len() implies (
            #[trigger] front[i].answers[j]).vote is Some by {
                assert(front[i] == questions[i]);
                assert(questions[i].answers[j].vote is Some);
            }
        }
        lemma_flatten_complete(front);
        assert forall|j: int| 0 <= j < tail.len() implies (#[trigger] tail[j]).vote is Some by {
            assert(questions[questions.len() - 1].answers[j].vote is Some);
        }
        lemma_answer_votes_complete(tail);
        assert forall|k: int| 0 <= k < all_answers(questions).len() implies (
        #[trigger] all_answers(questions)[k]).vote == Some(flattened(questions)[k]) by {
            let n = all_answers(front).len();
            if k < n {
                assert(all_answers(questions)[k] == all_answers(front)[k]);
                assert(flattened(questions)[k] == flattened(front)[k]);
            } else {
                assert(all_answers(questions)[k] == tail[k - n]);
                assert(flattened(questions)[k] == answer_votes(tail)[k - n]);
            }
        }
    }
}

/// A submission that is taken sends exactly one vote per answer held, in
/// question-then-answer order, provided every answer carries a vote.
pub proof fn lemma_submit_complete(s: ControllerModel)
    requires
        is_open(s),
        fully_voted(s.questions),
    ensures
        after_submit(s).changed,
        after_submit(s).effect == EffectModel::SubmitVotes(s.session, flattened(s.questions)),
        flattened(s.questions).len() == all_answers(s.questions).len(),
        forall|k: int|
            0 <= k < all_answers(s.questions).len() ==> (#[trigger] all_answers(
                s.questions,
            )[k]).vote == Some(flattened(s.questions)[k]),
{
    lemma_flatten_complete(s.questions);
}

/// Right after a load every answer carries a vote, so a submission taken
/// then sends one vote per answer.
pub proof fn lemma_submit_after_load(s: ControllerModel, questions: Seq<QuestionModel>)
    requires
        !s.submitting,
    ensures
        is_open(after_load(s, questions).state),
        fully_voted(after_load(s, questions).state.questions),
        after_submit(after_load(s, questions).state).effect == EffectModel::SubmitVotes(
            s.session,
            flattened(normalized(questions)),
        ),
        flattened(normalized(questions)).len() == all_answers(normalized(questions)).len(),
{
    lemma_normalize_default_votes(questions);
    lemma_submit_complete(after_load(s, questions).state);
}

/// No event changes the identifier of the session.
pub proof fn lemma_session_is_fixed(s: ControllerModel, msg: MsgModel)
    ensures
        step(s, msg).state.session == s.session,
{
}

/// Only a confirmation from the server changes the confirmation held: an
/// edit, a load, a new submission or a failure leaves it as it is.
pub proof fn lemma_confirmation_is_kept(s: ControllerModel, msg: MsgModel)
    requires
        !(msg is ReceiveSession),
    ensures
        step(s, msg).state.confirmation == s.confirmation,
{
}

/// A confirmation from the server replaces whatever confirmation was held
/// and ends the submission; the questions stay as they are.
pub proof fn lemma_confirmation_replaces(s: ControllerModel, key: Seq<char>)
    ensures
        step(s, MsgModel::ReceiveSession(key)).state.confirmation == Some(key),
        step(s, MsgModel::ReceiveSession(key)).state.questions == s.questions,
        !step(s, MsgModel::ReceiveSession(key)).state.submitting,
        s.loaded ==> phase_of(step(s, MsgModel::ReceiveSession(key)).state) == Phase::Confirmed,
{
}

/// A failure leaves the questions, the votes and the confirmation
/// untouched and goes on record.
pub proof fn lemma_failure_keeps_data(s: ControllerModel, e: SessionError)
    ensures
        step(s, MsgModel::LoadFailed(e)).state.questions == s.questions,
        step(s, MsgModel::LoadFailed(e)).state.confirmation == s.confirmation,
        step(s, MsgModel::LoadFailed(e)).state.error == Some(e),
        step(s, MsgModel::SubmitFailed(e)).state.questions == s.questions,
        step(s, MsgModel::SubmitFailed(e)).state.confirmation == s.confirmation,
        step(s, MsgModel::SubmitFailed(e)).state.error == Some(e),
{
}

/// A failed submission puts an open controller back where it was before
/// the submission started, so that the submission can be tried again.
pub proof fn lemma_failed_submission_can_be_retried(s: ControllerModel, e: SessionError)
    requires
        is_open(s),
    ensures
        phase_of(after_submit(s).state) == Phase::Submitting,
        phase_of(after_submit_failure(after_submit(s).state, e).state) == phase_of(s),
        after_submit(after_submit_failure(after_submit(s).state, e).state).effect == after_submit(
            s,
        ).effect,
{
}

/// While a request is under way, a second one of its kind is refused and
/// changes nothing.
pub proof fn lemma_one_request_at_a_time(s: ControllerModel)
    ensures
        s.submitting ==> step(s, MsgModel::Submit).state == s && !step(s, MsgModel::Submit).changed
            && step(s, MsgModel::Submit).effect == EffectModel::Nothing,
        s.fetching ==> step(s, MsgModel::Reload).state == s && !step(s, MsgModel::Reload).changed
            && step(s, MsgModel::Reload).effect == EffectModel::Nothing,
        after_submit(s).changed ==> after_submit(s).state.submitting,
        after_reload(s).changed ==> after_reload(s).state.fetching,
{
}

} // verus!
