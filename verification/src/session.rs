//! One turn of the interactive session: from what the line editor handed
//! back to what the session does next.
//!
//! The session itself, which prompts, reads and prints, lives outside this
//! library. It hands each reading to [`Evaluator::answer`] and does what the
//! reply says.

use crate::evaluator::Evaluator;
use crate::input::{exit_token, parse, parsed, words, Input, InputView};
use crate::protocol::outcome;
use vstd::prelude::*;

verus! {

/// What the line editor handed back for one prompt.
#[derive(Debug, PartialEq, Eq)]
pub enum Event {
    /// A line of input, without its line end.
    Line(String),
    /// The input has ended.
    EndOfInput,
    /// The user interrupted the prompt.
    Interrupted,
    /// The line editor failed, with this message.
    Failed(String),
}

/// The mathematical value of an [`Event`].
pub enum EventView {
    Line(Seq<char>),
    EndOfInput,
    Interrupted,
    Failed(Seq<char>),
}

impl View for Event {
    type V = EventView;

    open spec fn view(&self) -> EventView {
        match self {
            Event::Line(line) => EventView::Line(line@),
            Event::EndOfInput => EventView::EndOfInput,
            Event::Interrupted => EventView::Interrupted,
            Event::Failed(message) => EventView::Failed(message@),
        }
    }
}

/// What the session does next.
#[derive(Debug, PartialEq, Eq)]
pub enum Reply {
    /// Print the text and prompt again.
    Print(String),
    /// Prompt again.
    Nothing,
    /// End the session with success.
    Leave,
    /// End the session with a failure, with this message.
    Abort(String),
}

/// The mathematical value of a [`Reply`].
pub enum ReplyView {
    Print(Seq<char>),
    Nothing,
    Leave,
    Abort(Seq<char>),
}

impl View for Reply {
    type V = ReplyView;

    open spec fn view(&self) -> ReplyView {
        match self {
            Reply::Print(text) => ReplyView::Print(text@),
            Reply::Nothing => ReplyView::Nothing,
            Reply::Leave => ReplyView::Leave,
            Reply::Abort(message) => ReplyView::Abort(message@),
        }
    }
}

/// The command that the event asks to dispatch, with its arguments: there
/// is one only for a line that holds a word and does not start with the
/// exit token.
pub open spec fn request(event: EventView) -> Option<(Seq<char>, Seq<Seq<char>>)> {
    match event {
        EventView::Line(line) => match parsed(line) {
            InputView::Command(name, args) => Some((name, args)),
            _ => None,
        },
        _ => None,
    }
}

/// The reply to an event that asks for no dispatch: the end of the input,
/// an interrupt and the exit token end the session with success; a blank
/// line does nothing; a failure of the line editor ends the session with
/// that failure.
pub open spec fn quiet_reply(event: EventView) -> ReplyView {
    match event {
        EventView::Line(line) => match parsed(line) {
            InputView::Exit => ReplyView::Leave,
            _ => ReplyView::Nothing,
        },
        EventView::EndOfInput => ReplyView::Leave,
        EventView::Interrupted => ReplyView::Leave,
        EventView::Failed(message) => ReplyView::Abort(message),
    }
}

impl Evaluator {
    /// Takes one turn of the session.
    ///
    /// A line that names a command is dispatched and its outcome is to be
    /// printed, error or not: no failure of a command ends the session.
    /// Every other event leaves the dispatcher untouched.
    pub fn answer(&mut self, event: Event) -> (reply: Reply)
        requires
            old(self).wf(),
        ensures
            final(self).wf(),
            request(event@) is None ==> reply@ == quiet_reply(event@) && old(self).untouched(
                final(self),
            ),
            request(event@) matches Some((name, args)) ==> old(self).dispatched(
                final(self),
                name,
                args,
            ) && reply@ == ReplyView::Print(outcome(final(self).journal().last().steps).text()),
    {
        match event {
            Event::EndOfInput => Reply::Leave,
            Event::Interrupted => Reply::Leave,
            Event::Failed(message) => Reply::Abort(message),
            Event::Line(line) => match parse(line.as_str()) {
                Input::Exit => Reply::Leave,
                Input::Empty => Reply::Nothing,
                Input::Command(cmd, args) => Reply::Print(self.eval(cmd, args)),
            },
        }
    }
}

/// The session ends on the end of the input and on the exit token: either
/// ends it with success, and neither reaches the dispatcher.
pub proof fn law_session_termination(event: EventView)
    requires
        event is EndOfInput || (event matches EventView::Line(line) && words(line).len() > 0
            && words(line)[0] == exit_token()),
    ensures
        request(event) is None,
        quiet_reply(event) == ReplyView::Leave,
{
}

/// A blank line is a no-op: it is answered by the next prompt.
pub proof fn law_blank_line_does_nothing(line: Seq<char>)
    requires
        forall|i: int| 0 <= i < line.len() ==> line[i] == ' ',
    ensures
        words(line).len() == 0,
        request(EventView::Line(line)) is None,
        quiet_reply(EventView::Line(line)) == ReplyView::Nothing,
{
    crate::input::lemma_blank_has_no_words(line);
}

} // verus!
