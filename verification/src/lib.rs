//! Voting-session controller for a polling client.
//!
//! The controller owns the questions of one polling session, the votes a
//! participant has selected, and the confirmation key the server hands back
//! after a submission. It never performs I/O itself: every event is handled
//! to completion and answered with an [`controller::Effect`] that the
//! embedding application carries out.
//!
//! * [`model`]: the data (`Question`, `Answer`, `Vote`, `Session`) and the
//!   mathematical values they stand for.
//! * [`normalize`]: giving every answer a vote.
//! * [`replace`]: substituting an edited question for the stored one.
//! * [`flatten`]: collecting the votes of a collection in order.
//! * [`controller`]: the state machine built from the three.
//! * [`laws`]: properties that relate these operations.

pub mod model;
pub mod normalize;
pub mod replace;
pub mod flatten;
pub mod controller;
pub mod laws;

pub use controller::{Effect, Msg, Phase, SessionError, ViewQuestions, ViewQuestionsProps, VOTE_KEY};
pub use model::{Answer, Question, Session, Vote};
