//! What one execution produced, and the uniform result handed to callers.
use vstd::prelude::*;
use crate::text::joined;

verus! {

/// Why an execution did not succeed.
#[derive(Clone, Copy, Debug, PartialEq, Eq, Structural)]
pub enum FailureKind {
    /// The language identifier names no supported runtime.
    UnsupportedLanguage,
    /// A file could not be written, or a process could not be started.
    LaunchFailure,
    /// The compiler ran and exited unsuccessfully.
    CompileFailure,
    /// The program or interpreter ran and exited unsuccessfully.
    RuntimeFailure,
}

/// How one execution ended: captured output, or a failure with its text.
#[derive(Debug)]
pub enum Outcome {
    Success(String),
    Failure(FailureKind, String),
}

/// The mathematical value of an [`Outcome`].
pub enum OutcomeView {
    Success(Seq<char>),
    Failure(FailureKind, Seq<char>),
}

impl View for Outcome {
    type V = OutcomeView;

    open spec fn view(&self) -> OutcomeView {
        match self {
            Outcome::Success(s) => OutcomeView::Success(s@),
            Outcome::Failure(k, m) => OutcomeView::Failure(*k, m@),
        }
    }
}

impl Outcome {
    /// A copy of this outcome.
    pub fn duplicate(&self) -> (r: Outcome)
        ensures
            r@ == self@,
    {
        match self {
            Outcome::Success(s) => Outcome::Success(s.clone()),
            Outcome::Failure(k, m) => Outcome::Failure(*k, m.clone()),
        }
    }
}

/// The result of one call of the engine.
#[derive(Debug)]
pub struct ExecutionResult {
    /// Captured standard output; empty unless the run succeeded.
    pub output: String,
    /// Milliseconds the engine spent on the call.
    pub execution_time_ms: u128,
    pub success: bool,
    /// Captured standard error or a diagnostic; present only on failure.
    pub error: Option<String>,
}

/// The mathematical value of an [`ExecutionResult`].
pub struct ExecutionResultView {
    pub output: Seq<char>,
    pub execution_time_ms: u128,
    pub success: bool,
    pub error: Option<Seq<char>>,
}

impl View for ExecutionResult {
    type V = ExecutionResultView;

    open spec fn view(&self) -> ExecutionResultView {
        ExecutionResultView {
            output: self.output@,
            execution_time_ms: self.execution_time_ms,
            success: self.success,
            error: match self.error {
                Some(e) => Some(e@),
                None => None,
            },
        }
    }
}

/// The result reported for an outcome after `elapsed_ms` milliseconds.
pub open spec fn result_of(o: OutcomeView, elapsed_ms: u128) -> ExecutionResultView {
    match o {
        OutcomeView::Success(out) => ExecutionResultView {
            output: out,
            execution_time_ms: elapsed_ms,
            success: true,
            error: None,
        },
        OutcomeView::Failure(_, msg) => ExecutionResultView {
            output: Seq::empty(),
            execution_time_ms: elapsed_ms,
            success: false,
            error: Some(msg),
        },
    }
}

/// The result reported for an identifier that names no supported language.
/// No time is measured on this path: the engine reports zero.
pub open spec fn unsupported_result(language: Seq<char>) -> ExecutionResultView {
    ExecutionResultView {
        output: Seq::empty(),
        execution_time_ms: 0,
        success: false,
        error: Some("Unsupported language: "@ + language),
    }
}

/// Turns an outcome into the uniform result, with the time the engine spent.
pub fn finish(outcome: Outcome, elapsed_ms: u128) -> (r: ExecutionResult)
    ensures
        r@ == result_of(outcome@, elapsed_ms),
        r.execution_time_ms == elapsed_ms,
        r.success <==> outcome@ is Success,
        r.success <==> r.error is None,
{
    match outcome {
        Outcome::Success(output) => ExecutionResult {
            output,
            execution_time_ms: elapsed_ms,
            success: true,
            error: None,
        },
        Outcome::Failure(_, message) => ExecutionResult {
            output: String::new(),
            execution_time_ms: elapsed_ms,
            success: false,
            error: Some(message),
        },
    }
}

/// The result for an identifier that names no supported language.
pub fn unsupported(language: &str) -> (r: ExecutionResult)
    ensures
        r@ == unsupported_result(language@),
{
    let message = joined("Unsupported language: ", language);
    let r = ExecutionResult {
        output: String::new(),
        execution_time_ms: 0,
        success: false,
        error: Some(message),
    };
    assert(r@.output =~= Seq::<char>::empty());
    r
}

} // verus!
