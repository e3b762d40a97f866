//! The handling of one input line, as a machine that decides and a driver
//! that acts.
//!
//! The machine never parses, runs a command, takes a lock or writes to a
//! stream. It is told what happened ([`Event`]) and answers what to do next
//! ([`Action`]); whoever drives it does the work in between.
//! [`crate::handler::dispatched`] says what one whole dispatch comes to.

use vstd::prelude::*;
use crate::cache::CompletionCache;
use crate::command::{render_mode, render_mode_of, CommandResult, RenderMode, ResultView};
use crate::completion::{refreshed, update_completion_cache, LockAttempt};
use crate::key::KeyView;

verus! {

/// What the handler tells the loop that called it.
#[derive(Clone, Copy, Debug, PartialEq, Eq, Structural)]
pub enum Verdict {
    /// Read the next line.
    Continue,
    /// Leave the shell.
    Terminate,
}

/// What an [`Event`] stands for.
pub enum EventView {
    ParseRejected { message: Seq<char> },
    ParseAccepted { json: bool },
    ExecutionFailed { message: Seq<char> },
    ExecutionSucceeded { result: ResultView },
}

/// What the driver reports back to the machine.
#[derive(Debug, PartialEq, Eq)]
pub enum Event {
    /// The parser refused the tokens, with this message.
    ParseRejected { message: String },
    /// The parser made a command of the tokens; `json` is set where the line
    /// asked for machine-readable output.
    ParseAccepted { json: bool },
    /// The command ran and failed, with this message.
    ExecutionFailed { message: String },
    /// The command ran and gave this result.
    ExecutionSucceeded { result: CommandResult },
}

impl View for Event {
    type V = EventView;

    open spec fn view(&self) -> EventView {
        match self {
            Event::ParseRejected { message } => EventView::ParseRejected { message: message@ },
            Event::ParseAccepted { json } => EventView::ParseAccepted { json: *json },
            Event::ExecutionFailed { message } => EventView::ExecutionFailed { message: message@ },
            Event::ExecutionSucceeded { result } => EventView::ExecutionSucceeded {
                result: result@,
            },
        }
    }
}

/// What an [`Action`] stands for.
pub enum ActionView {
    Execute,
    Refresh,
    Report { line: Seq<char> },
    Print { mode: RenderMode },
    Ignore,
}

/// What the machine asks the driver to do.
#[derive(Debug, PartialEq, Eq)]
pub enum Action {
    /// Run the parsed command against the session context, wait until it has
    /// finished, and report how it ended.
    Execute,
    /// Try to lock the completion cache for writing and hand the attempt,
    /// with the cache, to [`Dispatch::refresh`].
    Refresh,
    /// Write `line` to the error stream. The dispatch is over.
    Report { line: String },
    /// Write the command's result to standard output in `mode`. The dispatch
    /// is over.
    Print { mode: RenderMode },
    /// Do nothing: the event did not answer what the machine was waiting for.
    Ignore,
}

impl View for Action {
    type V = ActionView;

    open spec fn view(&self) -> ActionView {
        match self {
            Action::Execute => ActionView::Execute,
            Action::Refresh => ActionView::Refresh,
            Action::Report { line } => ActionView::Report { line: line@ },
            Action::Print { mode } => ActionView::Print { mode: *mode },
            Action::Ignore => ActionView::Ignore,
        }
    }
}

/// What a [`Dispatch`] stands for.
pub enum DispatchView {
    Parsing,
    Executing { json: bool },
    Refreshing { json: bool, result: ResultView },
    Done,
}

/// How far the handling of one input line has come.
#[derive(Debug, PartialEq, Eq)]
pub enum Dispatch {
    /// The tokens are with the parser.
    Parsing,
    /// The command is running.
    Executing { json: bool },
    /// The command succeeded; the cache is yet to be brought up to date.
    Refreshing { json: bool, result: CommandResult },
    /// Nothing is left to do.
    Done,
}

impl View for Dispatch {
    type V = DispatchView;

    open spec fn view(&self) -> DispatchView {
        match self {
            Dispatch::Parsing => DispatchView::Parsing,
            Dispatch::Executing { json } => DispatchView::Executing { json: *json },
            Dispatch::Refreshing { json, result } => DispatchView::Refreshing {
                json: *json,
                result: result@,
            },
            Dispatch::Done => DispatchView::Done,
        }
    }
}

/// The line that reports a failure with this message.
pub open spec fn error_line(message: Seq<char>) -> Seq<char> {
    message.push('\n')
}

/// The state that follows `state` on `event`, and what is to be done then.
pub open spec fn step_of(state: DispatchView, event: EventView) -> (DispatchView, ActionView) {
    match (state, event) {
        (DispatchView::Parsing, EventView::ParseRejected { message }) => (
            DispatchView::Done,
            ActionView::Report { line: error_line(message) },
        ),
        (DispatchView::Parsing, EventView::ParseAccepted { json }) => (
            DispatchView::Executing { json },
            ActionView::Execute,
        ),
        (DispatchView::Executing { json }, EventView::ExecutionFailed { message }) => (
            DispatchView::Done,
            ActionView::Report { line: error_line(message) },
        ),
        (DispatchView::Executing { json }, EventView::ExecutionSucceeded { result }) => (
            DispatchView::Refreshing { json, result },
            ActionView::Refresh,
        ),
        _ => (state, ActionView::Ignore),
    }
}

/// The state that follows `state` once the lock on the cache was tried, the
/// cache as it is then, and what is to be done then.
pub open spec fn refresh_of(
    state: DispatchView,
    attempt: LockAttempt,
    cache: Map<KeyView, Seq<Seq<char>>>,
) -> (DispatchView, Map<KeyView, Seq<Seq<char>>>, ActionView) {
    match state {
        DispatchView::Refreshing { json, result } => (
            DispatchView::Done,
            refreshed(cache, attempt, result),
            ActionView::Print { mode: render_mode_of(json) },
        ),
        _ => (state, cache, ActionView::Ignore),
    }
}

/// What a dispatch in `state` tells the loop: nothing while work is left,
/// and after that always to go on.
pub open spec fn verdict_of(state: DispatchView) -> Option<Verdict> {
    if state is Done {
        Some(Verdict::Continue)
    } else {
        None
    }
}

/// The line that reports a failure with this message: the message, then a
/// line feed.
pub fn failure_line(message: String) -> (line: String)
    ensures
        line@ == error_line(message@),
{
    proof {
        reveal_strlit("\n");
    }
    let line = message.concat("\n");
    assert(line@ =~= error_line(message@));
    line
}

impl Dispatch {
    /// The dispatch of a line that was just handed to the parser.
    pub fn new() -> (state: Dispatch)
        ensures
            state@ == DispatchView::Parsing,
    {
        Dispatch::Parsing
    }

    /// Takes in what the driver reports and decides what comes next.
    ///
    /// A rejected parse and a failed command each end the dispatch with one
    /// line for the error stream. An event that does not answer what the
    /// machine was waiting for changes nothing.
    pub fn step(self, event: Event) -> (next: (Dispatch, Action))
        ensures
            (next.0@, next.1@) == step_of(self@, event@),
    {
        match self {
            Dispatch::Parsing => match event {
                Event::ParseRejected { message } => (
                    Dispatch::Done,
                    Action::Report { line: failure_line(message) },
                ),
                Event::ParseAccepted { json } => (Dispatch::Executing { json }, Action::Execute),
                _ => (Dispatch::Parsing, Action::Ignore),
            },
            Dispatch::Executing { json } => match event {
                Event::ExecutionFailed { message } => (
                    Dispatch::Done,
                    Action::Report { line: failure_line(message) },
                ),
                Event::ExecutionSucceeded { result } => (
                    Dispatch::Refreshing { json, result },
                    Action::Refresh,
                ),
                _ => (Dispatch::Executing { json }, Action::Ignore),
            },
            other => (other, Action::Ignore),
        }
    }

    /// Takes in how the attempt to lock the cache ended, brings the cache up
    /// to date if it was acquired, and asks for the result to be printed
    /// either way: a lock that could not be had is no failure of the line.
    ///
    /// `cache` is the map that the lock guards. After a failed attempt, and
    /// in any state that is not waiting for the cache, it is left as it is.
    pub fn refresh(self, attempt: LockAttempt, cache: &mut CompletionCache) -> (next: (
        Dispatch,
        Action,
    ))
        ensures
            (next.0@, final(cache)@, next.1@) == refresh_of(self@, attempt, old(cache)@),
    {
        match self {
            Dispatch::Refreshing { json, result } => {
                update_completion_cache(cache, attempt, &result);
                (Dispatch::Done, Action::Print { mode: render_mode(json) })
            },
            other => (other, Action::Ignore),
        }
    }

    /// What to tell the loop: nothing while work is left, and after that
    /// always to go on.
    pub fn verdict(&self) -> (verdict: Option<Verdict>)
        ensures
            verdict == verdict_of(self@),
    {
        match self {
            Dispatch::Done => Some(Verdict::Continue),
            _ => None,
        }
    }
}

} // verus!
