//! The course of one run: a request is made from the user's words, the engine
//! is asked once, and its answer is printed. The caller does the asking and
//! the printing; what to do next is decided here.

use vstd::prelude::*;
use crate::params::{RawSelections, UsageError};
use crate::render::{render, rendered, ShapeMismatch};
use crate::request::{EngineResult, GenerationRequest, OutputFormat};

verus! {

/// The engine's own account of why it produced no maze.
#[derive(Debug)]
pub struct EngineError {
    pub message: String,
}

/// Why a run ends without output.
#[derive(Debug)]
pub enum Failure {
    /// The user's words make no request; the engine was not asked.
    Usage(UsageError),
    /// The engine reported a failure.
    Engine(EngineError),
    /// The engine answered in a shape that was not asked for.
    Shape(ShapeMismatch),
}

/// What the caller does next.
#[derive(Debug)]
pub enum Step {
    /// Ask the engine for a maze.
    Generate(GenerationRequest),
    /// Print the text and end the run with success.
    Print(String),
    /// Report the failure and end the run without output.
    Fail(Failure),
}

/// What a run prints for an answer of the engine, if anything.
pub open spec fn printed(format: OutputFormat, outcome: Result<EngineResult, EngineError>) -> Option<
    Seq<char>,
> {
    match outcome {
        Ok(result) => match rendered(format, result) {
            Ok(text) => Some(text),
            Err(_) => None,
        },
        Err(_) => None,
    }
}

/// The first step of a run: ask the engine where the words make a request,
/// fail with the usage error where they do not.
pub fn begin(raw: &RawSelections) -> (step: Step)
    ensures
        match raw.request() {
            Ok(request) => step == Step::Generate(request) && request.wf(),
            Err(e) => step == Step::Fail(Failure::Usage(e)),
        },
{
    match raw.resolve() {
        Ok(request) => Step::Generate(request),
        Err(e) => Step::Fail(Failure::Usage(e)),
    }
}

/// The last step of a run: print the rendered answer, or fail where the engine
/// failed or answered in the wrong shape. Nothing is printed on a failure.
pub fn finish(request: &GenerationRequest, outcome: Result<EngineResult, EngineError>) -> (step:
    Step)
    ensures
        match outcome {
            Err(e) => step == Step::Fail(Failure::Engine(e)),
            Ok(result) => match rendered(request.output_format, result) {
                Ok(text) => step matches Step::Print(s) && s@ == text,
                Err(mismatch) => step == Step::Fail(Failure::Shape(mismatch)),
            },
        },
        match printed(request.output_format, outcome) {
            Some(text) => step matches Step::Print(s) && s@ == text,
            None => step is Fail,
        },
{
    match outcome {
        Err(e) => Step::Fail(Failure::Engine(e)),
        Ok(result) => match render(request.output_format, &result) {
            Ok(text) => Step::Print(text),
            Err(mismatch) => Step::Fail(Failure::Shape(mismatch)),
        },
    }
}

} // verus!
