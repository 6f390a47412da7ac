//! The session controller: a state machine over the events of one polling
//! session.
//!
//! The controller performs no I/O. Creating it and handing it an event each
//! yield an [`Effect`]: a request that the embedding application carries
//! out, reporting the outcome as the next event. One event is handled to
//! completion before the next.
//!
//! At most one fetch and one submission are under way at a time: a request
//! for another is refused until the first has been answered.
//!
//! A failed request never touches the questions, the votes or a confirmation
//! already held: it puts the controller back into the phase it was in before
//! the request and leaves the failure on record until a request succeeds or
//! a new one starts.
//!
//! The store is written on every edit and never read: a session always
//! starts from what the server sends.

use vstd::prelude::*;
use crate::model::{Question, QuestionModel, Session, Vote, VoteModel};
use crate::model::{copy_questions, questions_view, votes_view};
use crate::normalize::{normalize, normalized};
use crate::replace::{has_key, replace_question, replaced};
use crate::flatten::{flatten_votes, flattened};

verus! {

/// The key under which the application's store keeps the persisted
/// collection.
pub const VOTE_KEY: &'static str = "votes";

/// Why a request failed.
#[derive(Clone, Copy, Debug, PartialEq, Eq, Structural)]
pub enum SessionError {
    /// The request did not get through, or no answer came in time.
    Transport,
    /// An answer came, but not in the expected shape.
    Deserialization,
}

/// Where the controller stands in the life of a session.
#[derive(Clone, Copy, Debug, PartialEq, Eq, Structural)]
pub enum Phase {
    /// No questions have been loaded yet.
    Idle,
    /// Questions are loaded; no submission has been confirmed.
    Loaded,
    /// A submission is under way.
    Submitting,
    /// Questions are loaded and a confirmation key is held.
    Confirmed,
}

/// What the application is asked to do after an event.
#[derive(Debug, PartialEq, Eq)]
pub enum Effect {
    /// Nothing.
    Nothing,
    /// Fetch the questions of the session with this identifier and answer
    /// with [`Msg::LoadQuestions`] or [`Msg::LoadFailed`].
    FetchQuestions(String),
    /// Write this collection to the store under [`VOTE_KEY`], before the
    /// next event is dispatched.
    Persist(Vec<Question>),
    /// Send these votes for the session with this identifier and answer
    /// with [`Msg::ReceiveSession`] or [`Msg::SubmitFailed`].
    SubmitVotes(String, Vec<Vote>),
}

/// The events the controller reacts to.
#[derive(Debug, PartialEq, Eq)]
pub enum Msg {
    /// The questions of the session have arrived.
    LoadQuestions(Vec<Question>),
    /// The participant edited this question.
    ChangeVotes(Question),
    /// The participant asks to submit the votes.
    Submit,
    /// The server confirmed a submission with this key.
    ReceiveSession(Session),
    /// Fetching the questions failed.
    LoadFailed(SessionError),
    /// Submitting the votes failed.
    SubmitFailed(SessionError),
    /// The participant asks to fetch the questions again.
    Reload,
}

/// What the controller is created from.
#[derive(Debug, PartialEq, Eq)]
pub struct ViewQuestionsProps {
    /// Identifier of the polling session.
    pub session: String,
}

impl Clone for ViewQuestionsProps {
    fn clone(&self) -> (r: Self)
        ensures
            r.session@ == self.session@,
    {
        ViewQuestionsProps { session: self.session.clone() }
    }
}

/// The controller of one polling session.
#[derive(Debug)]
pub struct ViewQuestions {
    questions: Vec<Question>,
    session: Session,
    vote_key: Option<Session>,
    loaded: bool,
    fetching: bool,
    submitting: bool,
    error: Option<SessionError>,
}

/// What an [`Effect`] stands for.
pub enum EffectModel {
    Nothing,
    FetchQuestions(Seq<char>),
    Persist(Seq<QuestionModel>),
    SubmitVotes(Seq<char>, Seq<VoteModel>),
}

/// What a [`Msg`] stands for.
pub enum MsgModel {
    LoadQuestions(Seq<QuestionModel>),
    ChangeVotes(QuestionModel),
    Submit,
    ReceiveSession(Seq<char>),
    LoadFailed(SessionError),
    SubmitFailed(SessionError),
    Reload,
}

/// What a [`ViewQuestions`] stands for.
pub struct ControllerModel {
    /// The questions, in order.
    pub questions: Seq<QuestionModel>,
    /// Identifier of the session; fixed at creation.
    pub session: Seq<char>,
    /// The confirmation key of the latest confirmed submission.
    pub confirmation: Option<Seq<char>>,
    /// Questions have been loaded at least once.
    pub loaded: bool,
    /// A fetch of the questions is under way.
    pub fetching: bool,
    /// A submission is under way.
    pub submitting: bool,
    /// The failure of the latest request, if it failed.
    pub error: Option<SessionError>,
}

/// What handling one event amounts to.
pub struct StepModel {
    /// The controller after the event.
    pub state: ControllerModel,
    /// Whether anything changed that is worth rendering again.
    pub changed: bool,
    /// What the application is asked to do.
    pub effect: EffectModel,
}

impl View for Effect {
    type V = EffectModel;

    open spec fn view(&self) -> EffectModel {
        match *self {
            Effect::Nothing => EffectModel::Nothing,
            Effect::FetchQuestions(s) => EffectModel::FetchQuestions(s@),
            Effect::Persist(q) => EffectModel::Persist(questions_view(q@)),
            Effect::SubmitVotes(s, v) => EffectModel::SubmitVotes(s@, votes_view(v@)),
        }
    }
}

impl View for Msg {
    type V = MsgModel;

    open spec fn view(&self) -> MsgModel {
        match *self {
            Msg::LoadQuestions(q) => MsgModel::LoadQuestions(questions_view(q@)),
            Msg::ChangeVotes(q) => MsgModel::ChangeVotes(q@),
            Msg::Submit => MsgModel::Submit,
            Msg::ReceiveSession(s) => MsgModel::ReceiveSession(s@),
            Msg::LoadFailed(e) => MsgModel::LoadFailed(e),
            Msg::SubmitFailed(e) => MsgModel::SubmitFailed(e),
            Msg::Reload => MsgModel::Reload,
        }
    }
}

/// The view of an optional confirmation key.
pub open spec fn opt_session(s: Option<Session>) -> Option<Seq<char>> {
    match s {
        Some(k) => Some(k@),
        None => None,
    }
}

impl View for ViewQuestions {
    type V = ControllerModel;

    closed spec fn view(&self) -> ControllerModel {
        ControllerModel {
            questions: questions_view(self.questions@),
            session: self.session@,
            confirmation: opt_session(self.vote_key),
            loaded: self.loaded,
            fetching: self.fetching,
            submitting: self.submitting,
            error: self.error,
        }
    }
}

/// The controller right after creation: no questions, no confirmation, no
/// failure, and the first fetch under way.
pub open spec fn initial(session: Seq<char>) -> ControllerModel {
    ControllerModel {
        questions: Seq::empty(),
        session,
        confirmation: None,
        loaded: false,
        fetching: true,
        submitting: false,
        error: None,
    }
}

/// The phase a controller is in.
pub open spec fn phase_of(s: ControllerModel) -> Phase {
    if s.submitting {
        Phase::Submitting
    } else if !s.loaded {
        Phase::Idle
    } else if s.confirmation is Some {
        Phase::Confirmed
    } else {
        Phase::Loaded
    }
}

/// Edits and submissions are taken in the phases `Loaded` and `Confirmed`
/// only.
pub open spec fn is_open(s: ControllerModel) -> bool {
    phase_of(s) == Phase::Loaded || phase_of(s) == Phase::Confirmed
}

/// After the questions `questions` have arrived: they replace the
/// collection, normalized, and the fetch is over.
pub open spec fn after_load(s: ControllerModel, questions: Seq<QuestionModel>) -> StepModel {
    StepModel {
        state: ControllerModel {
            questions: normalized(questions),
            loaded: true,
            fetching: false,
            error: None,
            ..s
        },
        changed: true,
        effect: EffectModel::Nothing,
    }
}

/// An edit of `question` is taken: the controller is open and holds a
/// question with that key.
pub open spec fn edit_applies(s: ControllerModel, question: QuestionModel) -> bool {
    is_open(s) && has_key(s.questions, question.key)
}

/// After the participant edited `question`: it takes the place of the
/// stored question with its key and the whole collection is to be
/// persisted; an edit that is not taken changes nothing.
pub open spec fn after_change(s: ControllerModel, question: QuestionModel) -> StepModel {
    if edit_applies(s, question) {
        StepModel {
            state: ControllerModel { questions: replaced(s.questions, question), ..s },
            changed: true,
            effect: EffectModel::Persist(replaced(s.questions, question)),
        }
    } else {
        StepModel { state: s, changed: false, effect: EffectModel::Nothing }
    }
}

/// After a request to submit: an open controller starts a submission of its
/// flattened votes; any other refuses and stays as it is.
pub open spec fn after_submit(s: ControllerModel) -> StepModel {
    if is_open(s) {
        StepModel {
            state: ControllerModel { submitting: true, error: None, ..s },
            changed: true,
            effect: EffectModel::SubmitVotes(s.session, flattened(s.questions)),
        }
    } else {
        StepModel { state: s, changed: false, effect: EffectModel::Nothing }
    }
}

/// After the server confirmed a submission with `key`: the key replaces any
/// earlier one and the submission is over.
pub open spec fn after_confirmation(s: ControllerModel, key: Seq<char>) -> StepModel {
    StepModel {
        state: ControllerModel { confirmation: Some(key), submitting: false, error: None, ..s },
        changed: true,
        effect: EffectModel::Nothing,
    }
}

/// After fetching the questions failed: the fetch is over, the failure is
/// on record, all else is as before.
pub open spec fn after_load_failure(s: ControllerModel, e: SessionError) -> StepModel {
    StepModel {
        state: ControllerModel { fetching: false, error: Some(e), ..s },
        changed: true,
        effect: EffectModel::Nothing,
    }
}

/// After a submission failed: it is over, the failure is on record, all
/// else is as before.
pub open spec fn after_submit_failure(s: ControllerModel, e: SessionError) -> StepModel {
    StepModel {
        state: ControllerModel { submitting: false, error: Some(e), ..s },
        changed: true,
        effect: EffectModel::Nothing,
    }
}

/// After a request to fetch the questions again: a controller with no
/// fetch under way starts one; any other refuses and stays as it is.
pub open spec fn after_reload(s: ControllerModel) -> StepModel {
    if !s.fetching {
        StepModel {
            state: ControllerModel { fetching: true, error: None, ..s },
            changed: true,
            effect: EffectModel::FetchQuestions(s.session),
        }
    } else {
        StepModel { state: s, changed: false, effect: EffectModel::Nothing }
    }
}

/// The transition function: what the event `msg` does to the controller
/// `s`.
pub open spec fn step(s: ControllerModel, msg: MsgModel) -> StepModel {
    match msg {
        MsgModel::LoadQuestions(q) => after_load(s, q),
        MsgModel::ChangeVotes(q) => after_change(s, q),
        MsgModel::Submit => after_submit(s),
        MsgModel::ReceiveSession(k) => after_confirmation(s, k),
        MsgModel::LoadFailed(e) => after_load_failure(s, e),
        MsgModel::SubmitFailed(e) => after_submit_failure(s, e),
        MsgModel::Reload => after_reload(s),
    }
}

impl ViewQuestions {
    /// Creates the controller of the session named in `props` and asks for
    /// its questions to be fetched.
    pub fn create(props: &ViewQuestionsProps) -> (r: (ViewQuestions, Effect))
        ensures
            r.0@ == initial(props.session@),
            r.1@ == EffectModel::FetchQuestions(props.session@),
    {
        let controller = ViewQuestions {
            questions: Vec::new(),
            session: Session { session: props.session.clone() },
            vote_key: None,
            loaded: false,
            fetching: true,
            submitting: false,
            error: None,
        };
        assert(questions_view(controller.questions@) =~= Seq::empty());
        (controller, Effect::FetchQuestions(props.session.clone()))
    }

    /// The questions, for rendering.
    pub fn questions(&self) -> (r: &Vec<Question>)
        ensures
            questions_view(r@) == self@.questions,
    {
        &self.questions
    }

    /// The identifier of the session.
    pub fn session(&self) -> (r: &Session)
        ensures
            r@ == self@.session,
    {
        &self.session
    }

    /// The confirmation key of the latest confirmed submission.
    pub fn confirmation(&self) -> (r: Option<&Session>)
        ensures
            r is Some == self@.confirmation is Some,
            r is Some ==> self@.confirmation == Some(r->0@),
    {
        match &self.vote_key {
            Some(k) => Some(k),
            None => None,
        }
    }

    /// The failure of the latest request, if it failed.
    pub fn error(&self) -> (r: Option<SessionError>)
        ensures
            r == self@.error,
    {
        self.error
    }

    /// Whether a fetch of the questions is under way.
    pub fn is_fetching(&self) -> (r: bool)
        ensures
            r == self@.fetching,
    {
        self.fetching
    }

    /// The phase the controller is in.
    pub fn phase(&self) -> (r: Phase)
        ensures
            r == phase_of(self@),
    {
        if self.submitting {
            Phase::Submitting
        } else if !self.loaded {
            Phase::Idle
        } else if self.vote_key.is_some() {
            Phase::Confirmed
        } else {
            Phase::Loaded
        }
    }

    /// Takes `questions` as the new collection, giving every answer that
    /// has no vote the default one.
    pub fn load_questions(&mut self, questions: Vec<Question>) -> (changed: bool)
        ensures
            final(self)@ == after_load(old(self)@, questions_view(questions@)).state,
            changed,
    {
        let mut questions = questions;
        normalize(&mut questions);
        self.questions = questions;
        self.loaded = true;
        self.fetching = false;
        self.error = None;
        true
    }

    /// Replaces the stored question that has the key of `question` and asks
    /// for the collection to be persisted. Reports `false`, and changes
    /// nothing, where no stored question has that key or the controller is
    /// not open.
    pub fn change_vote(&mut self, question: Question) -> (r: (bool, Effect))
        ensures
            final(self)@ == after_change(old(self)@, question@).state,
            r.0 == edit_applies(old(self)@, question@),
            r.1@ == after_change(old(self)@, question@).effect,
    {
        if !self.loaded || self.submitting {
            return (false, Effect::Nothing);
        }
        if replace_question(&mut self.questions, question) {
            let copy = copy_questions(&self.questions);
            (true, Effect::Persist(copy))
        } else {
            (false, Effect::Nothing)
        }
    }

    /// Starts a submission of all votes, in question-then-answer order.
    /// Reports `false`, and changes nothing, where the controller is not
    /// open.
    pub fn submit(&mut self) -> (r: (bool, Effect))
        ensures
            final(self)@ == after_submit(old(self)@).state,
            r.0 == is_open(old(self)@),
            r.1@ == after_submit(old(self)@).effect,
    {
        if !self.loaded || self.submitting {
            return (false, Effect::Nothing);
        }
        let votes = flatten_votes(&self.questions);
        self.submitting = true;
        self.error = None;
        (true, Effect::SubmitVotes(self.session.session.clone(), votes))
    }

    /// Stores `key` as the current confirmation.
    pub fn receive_session(&mut self, key: Session) -> (changed: bool)
        ensures
            final(self)@ == after_confirmation(old(self)@, key@).state,
            changed,
    {
        self.vote_key = Some(key);
        self.submitting = false;
        self.error = None;
        true
    }

    /// Records that fetching the questions failed.
    pub fn load_failed(&mut self, e: SessionError) -> (changed: bool)
        ensures
            final(self)@ == after_load_failure(old(self)@, e).state,
            changed,
    {
        self.fetching = false;
        self.error = Some(e);
        true
    }

    /// Records that the submission under way failed.
    pub fn submit_failed(&mut self, e: SessionError) -> (changed: bool)
        ensures
            final(self)@ == after_submit_failure(old(self)@, e).state,
            changed,
    {
        self.submitting = false;
        self.error = Some(e);
        true
    }

    /// Starts a new fetch of the questions. Reports `false`, and changes
    /// nothing, while a fetch is under way.
    pub fn reload(&mut self) -> (r: (bool, Effect))
        ensures
            final(self)@ == after_reload(old(self)@).state,
            r.0 == !old(self)@.fetching,
            r.1@ == after_reload(old(self)@).effect,
    {
        if self.fetching {
            return (false, Effect::Nothing);
        }
        self.fetching = true;
        self.error = None;
        (true, Effect::FetchQuestions(self.session.session.clone()))
    }

    /// Handles one event: the controller moves as [`step`] says, and the
    /// result tells whether to render again and what the application is to
    /// do next.
    pub fn update(&mut self, msg: Msg) -> (r: (bool, Effect))
        ensures
            final(self)@ == step(old(self)@, msg@).state,
            r.0 == step(old(self)@, msg@).changed,
            r.1@ == step(old(self)@, msg@).effect,
    {
        match msg {
            Msg::LoadQuestions(q) => (self.load_questions(q), Effect::Nothing),
            Msg::ChangeVotes(q) => self.change_vote(q),
            Msg::Submit => self.submit(),
            Msg::ReceiveSession(s) => (self.receive_session(s), Effect::Nothing),
            Msg::LoadFailed(e) => (self.load_failed(e), Effect::Nothing),
            Msg::SubmitFailed(e) => (self.submit_failed(e), Effect::Nothing),
            Msg::Reload => self.reload(),
        }
    }
}

} // verus!
