use poll_session::{Answer, Effect, Msg, Phase, Question, Session, SessionError, Vote};
use poll_session::{ViewQuestions, ViewQuestionsProps, VOTE_KEY};
use poll_session::flatten::flatten_votes;
use poll_session::model::copy_questions;
use poll_session::normalize::{make_default_vote, normalize, normalize_answer, normalize_question};
use poll_session::replace::replace_question;

fn vote(value: &str, answer: &str, question: &str) -> Vote {
    Vote {
        vote: value.to_string(),
        answer_key: Some(answer.to_string()),
        question_key: Some(question.to_string()),
    }
}

fn answer(key: &str, vote: Option<Vote>) -> Answer {
    Answer { key: key.to_string(), vote }
}

fn question(key: &str, answers: Vec<Answer>) -> Question {
    Question { key: key.to_string(), answers }
}

fn token(text: &str) -> Session {
    Session { session: text.to_string() }
}

fn controller(session: &str) -> ViewQuestions {
    ViewQuestions::create(&ViewQuestionsProps { session: session.to_string() }).0
}

fn sample() -> Vec<Question> {
    vec![
        question("q1", vec![answer("a1", None), answer("a2", Some(vote("true", "a2", "q1")))]),
        question("q2", vec![]),
        question("q3", vec![answer("a1", None)]),
    ]
}

fn sample_normalized() -> Vec<Question> {
    vec![
        question(
            "q1",
            vec![
                answer("a1", Some(vote("false", "a1", "q1"))),
                answer("a2", Some(vote("true", "a2", "q1"))),
            ],
        ),
        question("q2", vec![]),
        question("q3", vec![answer("a1", Some(vote("false", "a1", "q3")))]),
    ]
}

#[test]
fn create_starts_idle_and_asks_for_the_questions() {
    let (c, effect) = ViewQuestions::create(&ViewQuestionsProps { session: "s-42".to_string() });
    assert_eq!(effect, Effect::FetchQuestions("s-42".to_string()));
    assert!(c.questions().is_empty());
    assert_eq!(c.session(), &token("s-42"));
    assert_eq!(c.confirmation(), None);
    assert_eq!(c.error(), None);
    assert_eq!(c.phase(), Phase::Idle);
    assert!(c.is_fetching());
}

#[test]
fn reload_is_refused_while_a_fetch_is_under_way() {
    let mut c = controller("s");
    let (changed, effect) = c.update(Msg::Reload);
    assert!(!changed);
    assert_eq!(effect, Effect::Nothing);
    assert!(c.is_fetching());
}

#[test]
fn reload_after_a_failed_fetch_asks_again() {
    let mut c = controller("s-3");
    c.load_failed(SessionError::Transport);
    assert!(!c.is_fetching());
    let (changed, effect) = c.update(Msg::Reload);
    assert!(changed);
    assert_eq!(effect, Effect::FetchQuestions("s-3".to_string()));
    assert!(c.is_fetching());
    assert_eq!(c.error(), None);
    assert_eq!(c.phase(), Phase::Idle);
}

#[test]
fn reload_after_load_keeps_questions_until_the_answer_comes() {
    let mut c = controller("s");
    c.load_questions(sample());
    assert!(!c.is_fetching());
    let (changed, effect) = c.reload();
    assert!(changed);
    assert_eq!(effect, Effect::FetchQuestions("s".to_string()));
    assert_eq!(c.questions(), &sample_normalized());
    assert_eq!(c.phase(), Phase::Loaded);
    c.load_questions(vec![question("only", vec![answer("a", None)])]);
    assert!(!c.is_fetching());
    assert_eq!(
        c.questions(),
        &vec![question("only", vec![answer("a", Some(vote("false", "a", "only")))])]
    );
}

#[test]
fn default_vote_is_false_with_both_keys() {
    let v = make_default_vote(&"q9".to_string(), &"a7".to_string());
    assert_eq!(v.vote, "false");
    assert_eq!(v.answer_key, Some("a7".to_string()));
    assert_eq!(v.question_key, Some("q9".to_string()));
}

#[test]
fn normalize_answer_fills_a_missing_vote_only() {
    let mut a = answer("a1", None);
    normalize_answer(&"q1".to_string(), &mut a);
    assert_eq!(a, answer("a1", Some(vote("false", "a1", "q1"))));

    let mut b = answer("a2", Some(vote("true", "elsewhere", "other")));
    normalize_answer(&"q1".to_string(), &mut b);
    assert_eq!(b, answer("a2", Some(vote("true", "elsewhere", "other"))));
}

#[test]
fn normalize_question_keeps_key_and_order() {
    let mut q = question("q1", vec![answer("b", None), answer("a", None)]);
    normalize_question(&mut q);
    assert_eq!(
        q,
        question(
            "q1",
            vec![
                answer("b", Some(vote("false", "b", "q1"))),
                answer("a", Some(vote("false", "a", "q1"))),
            ],
        )
    );
}

#[test]
fn normalize_collection() {
    let mut qs = sample();
    normalize(&mut qs);
    assert_eq!(qs, sample_normalized());
}

#[test]
fn normalize_is_idempotent() {
    let mut once = sample();
    normalize(&mut once);
    let mut twice = copy_questions(&once);
    normalize(&mut twice);
    assert_eq!(once, twice);
}

#[test]
fn normalize_empty_collection() {
    let mut qs: Vec<Question> = vec![];
    normalize(&mut qs);
    assert!(qs.is_empty());
}

#[test]
fn load_twice_gives_the_same_collection() {
    let mut a = controller("s");
    let mut b = controller("s");
    assert!(a.load_questions(sample()));
    assert!(b.load_questions(sample()));
    assert!(b.load_questions(sample()));
    assert_eq!(a.questions(), b.questions());
    assert_eq!(a.questions(), &sample_normalized());
}

#[test]
fn reload_does_not_overwrite_votes() {
    let mut c = controller("s");
    c.load_questions(sample());
    let edited = question(
        "q3",
        vec![answer("a1", Some(vote("true", "a1", "q3")))],
    );
    assert!(c.change_vote(edited.clone()).0);
    let held = copy_questions(c.questions());
    c.load_questions(copy_questions(&held));
    assert_eq!(c.questions(), &held);
    assert_eq!(c.questions()[2], edited);
}

#[test]
fn load_moves_to_loaded_and_asks_for_nothing() {
    let mut c = controller("s");
    let (changed, effect) = c.update(Msg::LoadQuestions(sample()));
    assert!(changed);
    assert_eq!(effect, Effect::Nothing);
    assert_eq!(c.phase(), Phase::Loaded);
    assert_eq!(c.questions(), &sample_normalized());
    assert_eq!(c.confirmation(), None);
}

#[test]
fn every_answer_has_a_vote_after_load() {
    let mut c = controller("s");
    c.load_questions(sample());
    for q in c.questions() {
        for a in &q.answers {
            assert!(a.vote.is_some());
        }
    }
}

#[test]
fn replace_question_in_place() {
    let mut qs = sample_normalized();
    let edited = question("q2", vec![answer("x", Some(vote("true", "x", "q2")))]);
    assert!(replace_question(&mut qs, edited.clone()));
    let before = sample_normalized();
    assert_eq!(qs.len(), 3);
    assert_eq!(qs[0], before[0]);
    assert_eq!(qs[1], edited);
    assert_eq!(qs[2], before[2]);
}

#[test]
fn replace_question_without_match_changes_nothing() {
    let mut qs = sample_normalized();
    assert!(!replace_question(&mut qs, question("q4", vec![])));
    assert_eq!(qs, sample_normalized());
}

#[test]
fn replace_question_in_empty_collection() {
    let mut qs: Vec<Question> = vec![];
    assert!(!replace_question(&mut qs, question("q1", vec![])));
    assert!(qs.is_empty());
}

#[test]
fn replace_question_first_match_wins() {
    let mut qs = vec![
        question("a", vec![]),
        question("dup", vec![answer("first", None)]),
        question("dup", vec![answer("second", None)]),
    ];
    let edited = question("dup", vec![answer("new", None)]);
    assert!(replace_question(&mut qs, edited.clone()));
    assert_eq!(
        qs,
        vec![question("a", vec![]), edited, question("dup", vec![answer("second", None)])]
    );
}

#[test]
fn change_vote_persists_the_whole_collection() {
    let mut c = controller("s");
    c.load_questions(sample());
    let edited = question(
        "q1",
        vec![
            answer("a1", Some(vote("true", "a1", "q1"))),
            answer("a2", Some(vote("true", "a2", "q1"))),
        ],
    );
    let (changed, effect) = c.update(Msg::ChangeVotes(edited.clone()));
    assert!(changed);
    let mut expected = sample_normalized();
    expected[0] = edited;
    assert_eq!(c.questions(), &expected);
    assert_eq!(effect, Effect::Persist(expected));
    assert_eq!(c.phase(), Phase::Loaded);
}

#[test]
fn change_vote_with_absent_key_reports_no_change() {
    let mut c = controller("s");
    c.load_questions(sample());
    let (changed, effect) = c.update(Msg::ChangeVotes(question("nope", vec![])));
    assert!(!changed);
    assert_eq!(effect, Effect::Nothing);
    assert_eq!(c.questions(), &sample_normalized());
    assert_eq!(c.phase(), Phase::Loaded);
}

#[test]
fn change_vote_before_load_reports_no_change() {
    let mut c = controller("s");
    let (changed, effect) = c.change_vote(question("q1", vec![]));
    assert!(!changed);
    assert_eq!(effect, Effect::Nothing);
    assert!(c.questions().is_empty());
    assert_eq!(c.phase(), Phase::Idle);
}

#[test]
fn change_vote_while_submitting_is_refused() {
    let mut c = controller("s");
    c.load_questions(sample());
    assert!(c.submit().0);
    let (changed, effect) = c.change_vote(question("q1", vec![]));
    assert!(!changed);
    assert_eq!(effect, Effect::Nothing);
    assert_eq!(c.questions(), &sample_normalized());
    assert_eq!(c.phase(), Phase::Submitting);
}

#[test]
fn change_vote_after_confirmation_keeps_the_confirmation() {
    let mut c = controller("s");
    c.load_questions(sample());
    c.submit();
    c.receive_session(token("k1"));
    let edited = question("q3", vec![answer("a1", Some(vote("true", "a1", "q3")))]);
    let (changed, _) = c.change_vote(edited.clone());
    assert!(changed);
    assert_eq!(c.questions()[2], edited);
    assert_eq!(c.confirmation(), Some(&token("k1")));
    assert_eq!(c.phase(), Phase::Confirmed);
}

#[test]
fn flatten_votes_in_question_then_answer_order() {
    let votes = flatten_votes(&sample_normalized());
    assert_eq!(
        votes,
        vec![vote("false", "a1", "q1"), vote("true", "a2", "q1"), vote("false", "a1", "q3")]
    );
}

#[test]
fn flatten_votes_skips_answers_without_a_vote() {
    let votes = flatten_votes(&sample());
    assert_eq!(votes, vec![vote("true", "a2", "q1")]);
}

#[test]
fn flatten_votes_of_nothing() {
    assert!(flatten_votes(&vec![]).is_empty());
    assert!(flatten_votes(&vec![question("q", vec![])]).is_empty());
}

#[test]
fn flatten_has_one_vote_per_answer_after_load() {
    let mut c = controller("s");
    c.load_questions(sample());
    let answers: usize = c.questions().iter().map(|q| q.answers.len()).sum();
    let votes = flatten_votes(c.questions());
    assert_eq!(votes.len(), answers);
    assert_eq!(votes.len(), 3);
}

#[test]
fn submit_sends_the_flattened_votes() {
    let mut c = controller("s-7");
    c.load_questions(sample());
    let (changed, effect) = c.update(Msg::Submit);
    assert!(changed);
    assert_eq!(
        effect,
        Effect::SubmitVotes(
            "s-7".to_string(),
            vec![vote("false", "a1", "q1"), vote("true", "a2", "q1"), vote("false", "a1", "q3")],
        )
    );
    assert_eq!(c.phase(), Phase::Submitting);
    assert_eq!(c.questions(), &sample_normalized());
}

#[test]
fn submit_before_load_is_refused() {
    let mut c = controller("s");
    let (changed, effect) = c.submit();
    assert!(!changed);
    assert_eq!(effect, Effect::Nothing);
    assert_eq!(c.phase(), Phase::Idle);
}

#[test]
fn second_submit_while_one_is_under_way_is_refused() {
    let mut c = controller("s");
    c.load_questions(sample());
    assert!(c.submit().0);
    let (changed, effect) = c.submit();
    assert!(!changed);
    assert_eq!(effect, Effect::Nothing);
    assert_eq!(c.phase(), Phase::Submitting);
}

#[test]
fn receive_session_stores_the_confirmation() {
    let mut c = controller("s");
    c.load_questions(sample());
    c.submit();
    let (changed, effect) = c.update(Msg::ReceiveSession(token("k1")));
    assert!(changed);
    assert_eq!(effect, Effect::Nothing);
    assert_eq!(c.confirmation(), Some(&token("k1")));
    assert_eq!(c.phase(), Phase::Confirmed);
    assert_eq!(c.questions(), &sample_normalized());
}

#[test]
fn resubmission_overwrites_the_confirmation() {
    let mut c = controller("s");
    c.load_questions(sample());
    c.submit();
    c.receive_session(token("k1"));
    assert!(c.submit().0);
    assert_eq!(c.confirmation(), Some(&token("k1")));
    c.receive_session(token("k2"));
    assert_eq!(c.confirmation(), Some(&token("k2")));
    assert_eq!(c.phase(), Phase::Confirmed);
}

#[test]
fn failed_fetch_is_on_record_and_leaves_the_controller_idle() {
    let mut c = controller("s");
    let (changed, effect) = c.update(Msg::LoadFailed(SessionError::Transport));
    assert!(changed);
    assert_eq!(effect, Effect::Nothing);
    assert_eq!(c.error(), Some(SessionError::Transport));
    assert_eq!(c.phase(), Phase::Idle);
    assert!(c.questions().is_empty());
    c.load_questions(sample());
    assert_eq!(c.error(), None);
    assert_eq!(c.phase(), Phase::Loaded);
}

#[test]
fn failed_submission_keeps_questions_and_can_be_retried() {
    let mut c = controller("s");
    c.load_questions(sample());
    c.submit();
    let (changed, effect) = c.update(Msg::SubmitFailed(SessionError::Deserialization));
    assert!(changed);
    assert_eq!(effect, Effect::Nothing);
    assert_eq!(c.error(), Some(SessionError::Deserialization));
    assert_eq!(c.phase(), Phase::Loaded);
    assert_eq!(c.questions(), &sample_normalized());
    assert_eq!(c.confirmation(), None);
    let (again, retry) = c.submit();
    assert!(again);
    assert!(matches!(retry, Effect::SubmitVotes(_, _)));
    assert_eq!(c.error(), None);
}

#[test]
fn failed_resubmission_keeps_the_earlier_confirmation() {
    let mut c = controller("s");
    c.load_questions(sample());
    c.submit();
    c.receive_session(token("k1"));
    c.submit();
    c.submit_failed(SessionError::Transport);
    assert_eq!(c.confirmation(), Some(&token("k1")));
    assert_eq!(c.phase(), Phase::Confirmed);
    assert_eq!(c.error(), Some(SessionError::Transport));
}

#[test]
fn copies_equal_what_they_copy() {
    let qs = sample_normalized();
    assert_eq!(copy_questions(&qs), qs);
    assert_eq!(qs[0].clone(), qs[0]);
    assert_eq!(qs[0].answers[1].clone(), qs[0].answers[1]);
    assert_eq!(vote("true", "a", "q").clone(), vote("true", "a", "q"));
    assert_eq!(token("k").clone(), token("k"));
    let props = ViewQuestionsProps { session: "s".to_string() };
    assert_eq!(props.clone(), props);
}

#[test]
fn store_key_is_fixed() {
    assert_eq!(VOTE_KEY, "votes");
}

#[test]
fn load_edit_submit_scenario() {
    let (mut c, _) = ViewQuestions::create(&ViewQuestionsProps { session: "poll".to_string() });

    c.update(Msg::LoadQuestions(vec![question("q1", vec![answer("a1", None)])]));
    assert_eq!(
        c.questions(),
        &vec![question("q1", vec![answer("a1", Some(vote("false", "a1", "q1")))])]
    );

    let edited = question("q1", vec![answer("a1", Some(vote("true", "a1", "q1")))]);
    let (changed, effect) = c.update(Msg::ChangeVotes(edited.clone()));
    assert!(changed);
    assert_eq!(c.questions(), &vec![edited.clone()]);
    assert_eq!(effect, Effect::Persist(vec![edited]));

    let (changed, effect) = c.update(Msg::Submit);
    assert!(changed);
    assert_eq!(
        effect,
        Effect::SubmitVotes("poll".to_string(), vec![vote("true", "a1", "q1")])
    );
}
