//! Substituting an edited question for the stored question of the same key.
//!
//! Keys are meant to be unique within a collection. Should a collection hold
//! a key twice all the same, the first question that carries it is the one
//! replaced.

use vstd::prelude::*;
use crate::model::{Question, QuestionModel, questions_view};

verus! {

/// Some question of the collection carries `key`.
pub open spec fn has_key(questions: Seq<QuestionModel>, key: Seq<char>) -> bool {
    exists|i: int| 0 <= i < questions.len() && (#[trigger] questions[i]).key == key
}

/// `i` is the position of the first question that carries `key`.
pub open spec fn is_first_match(questions: Seq<QuestionModel>, key: Seq<char>, i: int) -> bool {
    &&& 0 <= i < questions.len()
    &&& questions[i].key == key
    &&& forall|j: int| 0 <= j < i ==> (#[trigger] questions[j]).key != key
}

/// The position of the first question that carries `key`, where there is one.
pub open spec fn first_match(questions: Seq<QuestionModel>, key: Seq<char>) -> int {
    choose|i: int| is_first_match(questions, key, i)
}

/// The collection after `question` has taken the place of the first question
/// with its key; the collection itself where no question has that key.
pub open spec fn replaced(questions: Seq<QuestionModel>, question: QuestionModel) -> Seq<
    QuestionModel,
> {
    if has_key(questions, question.key) {
        questions.update(first_match(questions, question.key), question)
    } else {
        questions
    }
}

/// A first match is the only first match: `first_match` names it.
pub proof fn lemma_first_match_unique(questions: Seq<QuestionModel>, key: Seq<char>, i: int)
    requires
        is_first_match(questions, key, i),
    ensures
        has_key(questions, key),
        first_match(questions, key) == i,
{
    let c = first_match(questions, key);
    assert(is_first_match(questions, key, c));
    if c < i {
        assert(questions[c].key != key);
    }
    if i < c {
        assert(questions[i].key != key);
    }
}

/// Puts `question` in the place of the first stored question that has its
/// key, and says whether there was one. The other questions keep their
/// places; without a match nothing changes.
pub fn replace_question(questions: &mut Vec<Question>, question: Question) -> (changed: bool)
    ensures
        changed == has_key(questions_view(old(questions)@), question@.key),
        questions_view(final(questions)@) == replaced(questions_view(old(questions)@), question@),
{
    let ghost before = questions_view(questions@);
    let n = questions.len();
    let mut i: usize = 0;
    while i < n
        invariant
            i <= n,
            n == questions.len(),
            *questions == *old(questions),
            before == questions_view(questions@),
            forall|k: int| 0 <= k < i ==> (#[trigger] before[k]).key != question@.key,
        decreases n - i,
    {
        if questions[i].key == question.key {
            proof {
                assert(before[i as int] == questions[i as int]@);
                lemma_first_match_unique(before, question@.key, i as int);
            }
            questions[i] = question;
            assert(questions_view(questions@) =~= before.update(i as int, question@));
            return true;
        }
        assert(before[i as int] == questions[i as int]@);
        i += 1;
    }
    assert(!has_key(before, question@.key));
    false
}

} // verus!
