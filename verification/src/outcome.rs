//! Outcomes: how an invocation and how a dispatch can end, and the one
//! text that either shows as.

use crate::protocol::{Cause, FaultView, OutcomeView};
use crate::runtime::{error_message, error_text};
use vstd::prelude::*;

verus! {

/// A failed invocation: where it failed and what the runtime said.
#[derive(Debug, PartialEq, Eq)]
pub struct Fault {
    pub cause: Cause,
    pub message: String,
}

impl View for Fault {
    type V = FaultView;

    open spec fn view(&self) -> FaultView {
        FaultView { cause: self.cause, message: self.message@ }
    }
}

/// How a dispatch ended. Both variants are shown to the user in the same
/// way, as their text.
#[derive(Debug, PartialEq, Eq)]
pub enum Outcome {
    /// The command ran and returned this text. A command has no other way
    /// to answer: one that wants to report a failure returns a text that
    /// says so, and nothing tells that text from a result.
    Done(String),
    /// The dispatch stopped for the given cause, with this message.
    Error(Cause, String),
}

impl View for Outcome {
    type V = OutcomeView;

    open spec fn view(&self) -> OutcomeView {
        match self {
            Outcome::Done(text) => OutcomeView::Done(text@),
            Outcome::Error(cause, message) => OutcomeView::Error(*cause, message@),
        }
    }
}

/// What an invocation handed back, as contracts speak of it.
pub open spec fn invoked(result: Result<String, Fault>) -> Result<Seq<char>, FaultView> {
    match result {
        Ok(text) => Ok(text@),
        Err(fault) => Err(fault@),
    }
}

/// What the loader handed back, as contracts speak of it.
pub open spec fn loaded(result: Result<Vec<u8>, String>) -> Result<Seq<u8>, Seq<char>> {
    match result {
        Ok(bytecode) => Ok(bytecode@),
        Err(message) => Err(message@),
    }
}

/// The outcome that an invocation amounts to.
pub open spec fn outcome_of(result: Result<Seq<char>, FaultView>) -> OutcomeView {
    match result {
        Ok(text) => OutcomeView::Done(text),
        Err(fault) => OutcomeView::Error(fault.cause, fault.message),
    }
}

impl Outcome {
    /// The outcome of an invocation: its text where the command returned,
    /// else the fault with its cause.
    pub fn of(result: Result<String, Fault>) -> (out: Outcome)
        ensures
            out@ == outcome_of(invoked(result)),
    {
        match result {
            Ok(text) => Outcome::Done(text),
            Err(fault) => Outcome::Error(fault.cause, fault.message),
        }
    }

    /// The text shown to the user.
    pub fn text(self) -> (text: String)
        ensures
            text@ == self@.text(),
    {
        match self {
            Outcome::Done(text) => text,
            Outcome::Error(_, message) => message,
        }
    }

    /// Whether the dispatch ended in an error.
    pub fn is_error(&self) -> (failed: bool)
        ensures
            failed == (self@ is Error),
    {
        match self {
            Outcome::Done(_) => false,
            Outcome::Error(_, _) => true,
        }
    }
}

/// The fault of the given cause that `error` reports.
pub fn fault(cause: Cause, error: &anyhow::Error) -> (fault: Fault)
    ensures
        fault.cause == cause,
        fault.message@ == error_message(*error),
{
    Fault { cause, message: error_text(error) }
}

/// The fault of a guest whose export cannot be had with the required type:
/// the type is another where the guest exports a function of that name, and
/// the export is missing where it does not.
pub fn unusable(error: &anyhow::Error, exported: bool) -> (fault: Fault)
    ensures
        exported ==> fault.cause == Cause::SignatureMismatch,
        !exported ==> fault.cause == Cause::MissingExport,
        fault.message@ == error_message(*error),
{
    if exported {
        self::fault(Cause::SignatureMismatch, error)
    } else {
        self::fault(Cause::MissingExport, error)
    }
}

/// What a call of a command's export amounts to: the text that the command
/// returned, or a fault of the invocation with what the runtime said.
pub open spec fn returned_as(called: Result<String, anyhow::Error>) -> Result<Seq<char>, FaultView> {
    match called {
        Ok(text) => Ok(text@),
        Err(error) => Err(FaultView { cause: Cause::Invocation, message: error_message(error) }),
    }
}

/// What a call of the loader's export amounts to: the bytecode that the
/// loader delivered, else the loader's own message where it reported an
/// error, else what the runtime said of the call.
pub open spec fn answered_as(called: Result<Result<Vec<u8>, String>, anyhow::Error>) -> Result<
    Seq<u8>,
    Seq<char>,
> {
    match called {
        Ok(Ok(bytecode)) => Ok(bytecode@),
        Ok(Err(message)) => Err(message@),
        Err(error) => Err(error_message(error)),
    }
}

/// Settles a call of a command's export: the text that the command
/// returned, or the fault that the runtime reported.
pub fn returned(called: Result<String, anyhow::Error>) -> (result: Result<String, Fault>)
    ensures
        invoked(result) == returned_as(called),
{
    match called {
        Ok(text) => Ok(text),
        Err(error) => Err(fault(Cause::Invocation, &error)),
    }
}

/// Settles a call of the loader's export: the bytecode, or the message
/// that says why there is none.
pub fn answered(called: Result<Result<Vec<u8>, String>, anyhow::Error>) -> (result: Result<
    Vec<u8>,
    String,
>)
    ensures
        loaded(result) == answered_as(called),
{
    match called {
        Ok(answer) => answer,
        Err(error) => Err(error_text(&error)),
    }
}

} // verus!
