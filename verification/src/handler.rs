//! One whole dispatch: the machine of [`crate::dispatch`] together with a
//! driver that does what it asks, and what holds of every such dispatch.

use vstd::prelude::*;
use crate::command::{render_mode_of, RenderMode, ResultView};
use crate::completion::{refreshed, stored_under, LockAttempt};
use crate::dispatch::{
    error_line, refresh_of, step_of, verdict_of, ActionView, DispatchView, EventView, Verdict,
};
use crate::key::KeyView;

verus! {

/// What a dispatch can reach: the session context, the completion cache, and
/// what was written to the error stream and to standard output so far.
pub struct World<C> {
    pub context: C,
    pub cache: Map<KeyView, Seq<Seq<char>>>,
    pub errors: Seq<Seq<char>>,
    pub printed: Seq<RenderMode>,
}

/// How the parser, the command and the lock answer during one dispatch.
pub struct Answers<C> {
    /// The flag for machine-readable output of the parsed line, or the
    /// parser's message.
    pub parse: Result<bool, Seq<char>>,
    /// The command's result, or its message.
    pub execution: Result<ResultView, Seq<char>>,
    /// The session context as the command leaves it, failed or not.
    pub context_after: C,
    /// How the attempt to lock the cache ends.
    pub lock: LockAttempt,
}

impl<C> Answers<C> {
    /// The event that reports the parser's answer.
    pub open spec fn parse_event(self) -> EventView {
        match self.parse {
            Ok(json) => EventView::ParseAccepted { json },
            Err(message) => EventView::ParseRejected { message },
        }
    }

    /// The event that reports the command's answer.
    pub open spec fn execution_event(self) -> EventView {
        match self.execution {
            Ok(result) => EventView::ExecutionSucceeded { result },
            Err(message) => EventView::ExecutionFailed { message },
        }
    }
}

/// How many more actions can follow `action` at most.
pub open spec fn actions_left(action: ActionView) -> nat {
    match action {
        ActionView::Execute => 2,
        ActionView::Refresh => 1,
        _ => 0,
    }
}

/// The driver: does what `action` asks, reports back, and goes on with what
/// the machine asks next, until the machine asks for nothing more.
pub open spec fn driven<C>(
    world: World<C>,
    answers: Answers<C>,
    state: DispatchView,
    action: ActionView,
) -> (World<C>, DispatchView)
    decreases actions_left(action),
{
    match action {
        ActionView::Execute => {
            let (next, then) = step_of(state, answers.execution_event());
            driven(World { context: answers.context_after, ..world }, answers, next, then)
        },
        ActionView::Refresh => {
            let (next, cache, then) = refresh_of(state, answers.lock, world.cache);
            driven(World { cache, ..world }, answers, next, then)
        },
        ActionView::Report { line } => (World { errors: world.errors.push(line), ..world }, state),
        ActionView::Print { mode } => (World { printed: world.printed.push(mode), ..world }, state),
        ActionView::Ignore => (world, state),
    }
}

/// One dispatch from the parser's answer on: the world it leaves, and the
/// state in which the machine ends.
pub open spec fn dispatched<C>(world: World<C>, answers: Answers<C>) -> (World<C>, DispatchView) {
    let (next, then) = step_of(DispatchView::Parsing, answers.parse_event());
    driven(world, answers, next, then)
}

/// What a dispatch comes to, case by case. A line that the parser rejects
/// costs one line on the error stream and nothing else. A command that fails
/// costs one line on the error stream and leaves the context as the command
/// left it. A command that succeeds leaves the context as it left it, the
/// cache refreshed from its result if the lock was acquired, and one result on
/// standard output. Every dispatch ends, and tells the loop to go on.
pub proof fn dispatch_outcome<C>(world: World<C>, answers: Answers<C>)
    ensures
        dispatched(world, answers).1 == DispatchView::Done,
        verdict_of(dispatched(world, answers).1) == Some(Verdict::Continue),
        dispatched(world, answers).0 == match (answers.parse, answers.execution) {
            (Err(message), _) => World { errors: world.errors.push(error_line(message)), ..world },
            (Ok(_), Err(message)) => World {
                context: answers.context_after,
                errors: world.errors.push(error_line(message)),
                ..world
            },
            (Ok(json), Ok(result)) => World {
                context: answers.context_after,
                cache: refreshed(world.cache, answers.lock, result),
                printed: world.printed.push(render_mode_of(json)),
                ..world
            },
        },
{
    reveal_with_fuel(driven, 3);
}

/// A line that the parser rejects leaves the session context and the
/// completion cache as they were, prints no result, and reports one line
/// that is not empty.
pub proof fn rejected_line_changes_nothing<C>(world: World<C>, answers: Answers<C>)
    requires
        answers.parse is Err,
    ensures
        dispatched(world, answers).0.context == world.context,
        dispatched(world, answers).0.cache == world.cache,
        dispatched(world, answers).0.printed == world.printed,
        dispatched(world, answers).0.errors == world.errors.push(
            error_line(answers.parse->Err_0),
        ),
        error_line(answers.parse->Err_0).len() > 0,
        verdict_of(dispatched(world, answers).1) == Some(Verdict::Continue),
{
    dispatch_outcome(world, answers);
}

/// A command that fails leaves the completion cache as it was, prints no
/// result, and reports one line that is not empty.
pub proof fn failed_command_leaves_cache<C>(world: World<C>, answers: Answers<C>)
    requires
        answers.parse is Ok,
        answers.execution is Err,
    ensures
        dispatched(world, answers).0.cache == world.cache,
        dispatched(world, answers).0.printed == world.printed,
        dispatched(world, answers).0.errors == world.errors.push(
            error_line(answers.execution->Err_0),
        ),
        error_line(answers.execution->Err_0).len() > 0,
        verdict_of(dispatched(world, answers).1) == Some(Verdict::Continue),
{
    dispatch_outcome(world, answers);
}

/// Storing the same candidates under the same keys a second time changes
/// nothing.
pub proof fn stored_under_twice(
    cache: Map<KeyView, Seq<Seq<char>>>,
    keys: Seq<KeyView>,
    candidates: Seq<Seq<char>>,
)
    ensures
        stored_under(stored_under(cache, keys, candidates), keys, candidates) == stored_under(
            cache,
            keys,
            candidates,
        ),
{
    assert(stored_under(stored_under(cache, keys, candidates), keys, candidates) =~= stored_under(
        cache,
        keys,
        candidates,
    ));
}

/// Dispatching the same line twice in a row, with the same answers, leaves
/// the cache as dispatching it once does.
pub proof fn dispatching_twice_keeps_cache<C>(world: World<C>, answers: Answers<C>)
    ensures
        dispatched(dispatched(world, answers).0, answers).0.cache == dispatched(
            world,
            answers,
        ).0.cache,
{
    dispatch_outcome(world, answers);
    dispatch_outcome(dispatched(world, answers).0, answers);
    if answers.parse is Ok && answers.execution is Ok && answers.lock is Acquired {
        let result = answers.execution->Ok_0;
        stored_under_twice(world.cache, result.keys(), result.candidates());
    }
}

/// A lock that cannot be had leaves every cached value as it was and puts
/// nothing on the error stream that the line would not have put there with
/// the lock: the result of a successful command is printed all the same, and
/// the loop is told to go on.
pub proof fn lock_failure_is_silent<C>(world: World<C>, answers: Answers<C>)
    requires
        answers.lock is Failed,
    ensures
        dispatched(world, answers).0.cache == world.cache,
        dispatched(world, answers).0.errors == dispatched(
            world,
            Answers { lock: LockAttempt::Acquired, ..answers },
        ).0.errors,
        dispatched(world, answers).0.printed == dispatched(
            world,
            Answers { lock: LockAttempt::Acquired, ..answers },
        ).0.printed,
        answers.parse is Ok && answers.execution is Ok ==> dispatched(world, answers).0.errors
            == world.errors,
        verdict_of(dispatched(world, answers).1) == Some(Verdict::Continue),
{
    dispatch_outcome(world, answers);
    dispatch_outcome(world, Answers { lock: LockAttempt::Acquired, ..answers });
}

/// The world after the lines of a session were dispatched one after the
/// other, each with its own answers.
pub open spec fn session<C>(world: World<C>, lines: Seq<Answers<C>>) -> World<C>
    decreases lines.len(),
{
    if lines.len() == 0 {
        world
    } else {
        dispatched(session(world, lines.drop_last()), lines.last()).0
    }
}

/// Whether the line writes the cache entry of `key`: its command succeeded,
/// the lock was acquired, and the key is registered for the kind of result.
pub open spec fn fills<C>(line: Answers<C>, key: KeyView) -> bool {
    &&& line.parse is Ok
    &&& line.execution is Ok
    &&& line.lock is Acquired
    &&& line.execution->Ok_0.keys().contains(key)
}

/// What one dispatch does to the entry of one key: a line that fills the key
/// stores the display strings of its result there, and any other line leaves
/// the entry as it was.
pub proof fn dispatch_touches_filled_keys_only<C>(
    world: World<C>,
    line: Answers<C>,
    key: KeyView,
)
    ensures
        fills(line, key) ==> {
            &&& dispatched(world, line).0.cache.contains_key(key)
            &&& dispatched(world, line).0.cache[key] == line.execution->Ok_0.candidates()
        },
        !fills(line, key) ==> {
            &&& dispatched(world, line).0.cache.contains_key(key) == world.cache.contains_key(key)
            &&& world.cache.contains_key(key) ==> dispatched(world, line).0.cache[key]
                == world.cache[key]
        },
{
    dispatch_outcome(world, line);
}

/// A key that no line of the session fills is at the end as it was at the
/// start. So a cache that starts empty never holds an entry that no
/// successful command produced.
pub proof fn unfilled_key_is_unchanged<C>(world: World<C>, lines: Seq<Answers<C>>, key: KeyView)
    requires
        forall|i: int| 0 <= i < lines.len() ==> !fills(#[trigger] lines[i], key),
    ensures
        session(world, lines).cache.contains_key(key) == world.cache.contains_key(key),
        world.cache.contains_key(key) ==> session(world, lines).cache[key] == world.cache[key],
    decreases lines.len(),
{
    if lines.len() > 0 {
        let earlier = lines.drop_last();
        assert forall|i: int| 0 <= i < earlier.len() implies !fills(#[trigger] earlier[i], key) by {
            assert(earlier[i] == lines[i]);
        }
        unfilled_key_is_unchanged(world, earlier, key);
        assert(!fills(lines[lines.len() - 1], key));
        dispatch_touches_filled_keys_only(session(world, earlier), lines.last(), key);
    }
}

/// A key holds at the end of the session what the last line that filled it
/// stored: here the line at `last`, after which no line fills the key.
pub proof fn filled_key_holds_last_result<C>(
    world: World<C>,
    lines: Seq<Answers<C>>,
    key: KeyView,
    last: int,
)
    requires
        0 <= last < lines.len(),
        fills(lines[last], key),
        forall|i: int| last < i < lines.len() ==> !fills(#[trigger] lines[i], key),
    ensures
        session(world, lines).cache.contains_key(key),
        session(world, lines).cache[key] == lines[last].execution->Ok_0.candidates(),
    decreases lines.len(),
{
    let earlier = lines.drop_last();
    dispatch_touches_filled_keys_only(session(world, earlier), lines.last(), key);
    if last < lines.len() - 1 {
        assert(earlier[last] == lines[last]);
        assert forall|i: int| last < i < earlier.len() implies !fills(
            #[trigger] earlier[i],
            key,
        ) by {
            assert(earlier[i] == lines[i]);
        }
        filled_key_holds_last_result(world, earlier, key, last);
        assert(!fills(lines[lines.len() - 1], key));
    }
}

} // verus!
