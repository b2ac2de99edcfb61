//! The logic of a classroom backend. At its centre is a code execution
//! engine: language dispatch, per-invocation plans with uniquely named
//! temporary artifacts, and the write-compile-run-clean-up protocol as a
//! state machine whose actions the caller carries out. Around it stand the
//! service's smaller rules: bearer tokens, password checks, ebook file
//! naming, and questionnaire grading.
pub mod text;
pub mod language;
pub mod outcome;
pub mod plan;
pub mod session;
pub mod models;
pub mod auth;
pub mod ebook;
pub mod quiz;
pub mod accounts;

pub use language::{resolve_language, Language};
pub use outcome::{finish, ExecutionResult, FailureKind, Outcome};
pub use session::{start, start_with_id, Action, Event, Session, Start};
