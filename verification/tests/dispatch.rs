use wallet_shell::cache::CompletionCache;
use wallet_shell::command::{CommandResult, ObjectRef, RenderMode};
use wallet_shell::completion::LockAttempt;
use wallet_shell::dispatch::{failure_line, Action, Dispatch, Event, Verdict};
use wallet_shell::key::CacheKey;

fn texts(items: &[&str]) -> Vec<String> {
    items.iter().map(|s| s.to_string()).collect()
}

/// What the driver wrote and did during one dispatch.
struct Trace {
    executed: bool,
    errors: Vec<String>,
    printed: Vec<RenderMode>,
    verdict: Option<Verdict>,
}

/// Drives one dispatch to its end with the answers given.
fn drive(
    parse: Result<bool, &str>,
    execution: Result<CommandResult, &str>,
    lock: LockAttempt,
    cache: &mut CompletionCache,
) -> Trace {
    let mut trace = Trace { executed: false, errors: vec![], printed: vec![], verdict: None };
    let parsed = match parse {
        Ok(json) => Event::ParseAccepted { json },
        Err(message) => Event::ParseRejected { message: message.to_string() },
    };
    let (mut state, mut action) = Dispatch::new().step(parsed);
    let mut execution = Some(execution);
    loop {
        match action {
            Action::Execute => {
                trace.executed = true;
                let event = match execution.take().expect("asked to execute twice") {
                    Ok(result) => Event::ExecutionSucceeded { result },
                    Err(message) => Event::ExecutionFailed { message: message.to_string() },
                };
                (state, action) = state.step(event);
            }
            Action::Refresh => {
                (state, action) = state.refresh(lock, cache);
            }
            Action::Report { line } => {
                trace.errors.push(line);
                break;
            }
            Action::Print { mode } => {
                trace.printed.push(mode);
                break;
            }
            Action::Ignore => break,
        }
    }
    trace.verdict = state.verdict();
    trace
}

#[test]
fn rejected_line_is_reported_and_nothing_runs() {
    let mut cache = CompletionCache::new();
    cache.set(CacheKey::flag("--to"), texts(&["0xA1"]));
    let trace = drive(
        Err("error: Found argument '--bogus' which wasn't expected"),
        Ok(CommandResult::Addresses(texts(&["0xFF"]))),
        LockAttempt::Acquired,
        &mut cache,
    );
    assert!(!trace.executed);
    assert_eq!(
        trace.errors,
        texts(&["error: Found argument '--bogus' which wasn't expected\n"])
    );
    assert!(trace.printed.is_empty());
    assert_eq!(trace.verdict, Some(Verdict::Continue));
    assert_eq!(cache.get(&CacheKey::flag("--to")), Some(&texts(&["0xA1"])));
    assert_eq!(cache.get(&CacheKey::flag("--address")), None);
}

#[test]
fn rejected_line_with_empty_message_still_reports_a_line() {
    let mut cache = CompletionCache::new();
    let trace = drive(Err(""), Ok(CommandResult::Other), LockAttempt::Acquired, &mut cache);
    assert_eq!(trace.errors, texts(&["\n"]));
    assert!(!trace.errors[0].is_empty());
    assert!(!trace.executed);
    assert!(cache.is_empty());
    assert_eq!(trace.verdict, Some(Verdict::Continue));
}

#[test]
fn failed_command_is_reported_and_the_cache_is_left() {
    let mut cache = CompletionCache::new();
    cache.set(CacheKey::flag("--gas"), texts(&["0x1"]));
    let trace = drive(Ok(false), Err("Gas object not found"), LockAttempt::Acquired, &mut cache);
    assert!(trace.executed);
    assert_eq!(trace.errors, texts(&["Gas object not found\n"]));
    assert!(trace.printed.is_empty());
    assert_eq!(trace.verdict, Some(Verdict::Continue));
    assert_eq!(cache.get(&CacheKey::flag("--gas")), Some(&texts(&["0x1"])));
    assert_eq!(cache.get(&CacheKey::flag("--address")), None);
    assert_eq!(cache.get(&CacheKey::flag("--to")), None);
}

#[test]
fn successful_address_list_refreshes_and_prints() {
    let mut cache = CompletionCache::new();
    cache.set(CacheKey::flag("--to"), texts(&["0xOLD"]));
    let trace = drive(
        Ok(false),
        Ok(CommandResult::Addresses(texts(&["0xA1", "0xB2"]))),
        LockAttempt::Acquired,
        &mut cache,
    );
    assert!(trace.executed);
    assert!(trace.errors.is_empty());
    assert_eq!(trace.printed, vec![RenderMode::Formatted]);
    assert_eq!(trace.verdict, Some(Verdict::Continue));
    assert_eq!(cache.get(&CacheKey::flag("--address")), Some(&texts(&["0xA1", "0xB2"])));
    assert_eq!(cache.get(&CacheKey::flag("--to")), Some(&texts(&["0xA1", "0xB2"])));
}

#[test]
fn successful_object_list_refreshes_and_prints_structured() {
    let mut cache = CompletionCache::new();
    let objects = CommandResult::Objects(vec![
        ObjectRef { id: "0x1".to_string(), version: 3, digest: vec![0xAB; 32] },
        ObjectRef { id: "0x2".to_string(), version: 4, digest: vec![0xCD; 32] },
    ]);
    let trace = drive(Ok(true), Ok(objects), LockAttempt::Acquired, &mut cache);
    assert!(trace.errors.is_empty());
    assert_eq!(trace.printed, vec![RenderMode::Structured]);
    assert_eq!(trace.verdict, Some(Verdict::Continue));
    assert_eq!(cache.get(&CacheKey::new("object", "--id")), Some(&texts(&["0x1", "0x2"])));
    assert_eq!(cache.get(&CacheKey::flag("--gas")), Some(&texts(&["0x1", "0x2"])));
    assert_eq!(cache.get(&CacheKey::flag("--object-id")), Some(&texts(&["0x1", "0x2"])));
}

#[test]
fn other_result_is_printed_and_the_cache_is_left() {
    let mut cache = CompletionCache::new();
    let trace = drive(Ok(false), Ok(CommandResult::Other), LockAttempt::Acquired, &mut cache);
    assert!(trace.executed);
    assert!(trace.errors.is_empty());
    assert_eq!(trace.printed, vec![RenderMode::Formatted]);
    assert!(cache.is_empty());
}

#[test]
fn lock_failure_is_not_an_error_and_changes_nothing() {
    let mut cache = CompletionCache::new();
    cache.set(CacheKey::flag("--address"), texts(&["0xOLD"]));
    let trace = drive(
        Ok(false),
        Ok(CommandResult::Addresses(texts(&["0xA1", "0xB2"]))),
        LockAttempt::Failed,
        &mut cache,
    );
    assert!(trace.executed);
    assert!(trace.errors.is_empty());
    assert_eq!(trace.printed, vec![RenderMode::Formatted]);
    assert_eq!(trace.verdict, Some(Verdict::Continue));
    assert_eq!(cache.get(&CacheKey::flag("--address")), Some(&texts(&["0xOLD"])));
    assert_eq!(cache.get(&CacheKey::flag("--to")), None);
}

#[test]
fn dispatching_twice_leaves_the_cache_of_dispatching_once() {
    let mut once = CompletionCache::new();
    let mut twice = CompletionCache::new();
    let result = CommandResult::Addresses(texts(&["0xA1", "0xB2"]));
    drive(Ok(false), Ok(result.clone()), LockAttempt::Acquired, &mut once);
    drive(Ok(false), Ok(result.clone()), LockAttempt::Acquired, &mut twice);
    drive(Ok(false), Ok(result), LockAttempt::Acquired, &mut twice);
    for key in [CacheKey::flag("--address"), CacheKey::flag("--to"), CacheKey::flag("--gas")].iter()
    {
        assert_eq!(once.get(key), twice.get(key));
    }
    assert_eq!(twice.get(&CacheKey::flag("--address")), Some(&texts(&["0xA1", "0xB2"])));
}

#[test]
fn the_session_goes_on_after_failures() {
    let mut cache = CompletionCache::new();
    let first = drive(Err("bad input"), Ok(CommandResult::Other), LockAttempt::Acquired, &mut cache);
    let second = drive(Ok(false), Err("boom"), LockAttempt::Acquired, &mut cache);
    let third = drive(
        Ok(false),
        Ok(CommandResult::Addresses(texts(&["0xA1"]))),
        LockAttempt::Acquired,
        &mut cache,
    );
    assert_eq!(first.verdict, Some(Verdict::Continue));
    assert_eq!(second.verdict, Some(Verdict::Continue));
    assert_eq!(third.verdict, Some(Verdict::Continue));
    assert_eq!(cache.get(&CacheKey::flag("--to")), Some(&texts(&["0xA1"])));
}

#[test]
fn steps_of_a_successful_dispatch() {
    let state = Dispatch::new();
    assert_eq!(state, Dispatch::Parsing);
    assert_eq!(state.verdict(), None);
    let (state, action) = state.step(Event::ParseAccepted { json: true });
    assert_eq!(state, Dispatch::Executing { json: true });
    assert_eq!(action, Action::Execute);
    assert_eq!(state.verdict(), None);
    let result = CommandResult::Addresses(texts(&["0xA1"]));
    let (state, action) = state.step(Event::ExecutionSucceeded { result: result.clone() });
    assert_eq!(state, Dispatch::Refreshing { json: true, result });
    assert_eq!(action, Action::Refresh);
    assert_eq!(state.verdict(), None);
    let mut cache = CompletionCache::new();
    let (state, action) = state.refresh(LockAttempt::Acquired, &mut cache);
    assert_eq!(state, Dispatch::Done);
    assert_eq!(action, Action::Print { mode: RenderMode::Structured });
    assert_eq!(state.verdict(), Some(Verdict::Continue));
    assert_eq!(cache.get(&CacheKey::flag("--address")), Some(&texts(&["0xA1"])));
}

#[test]
fn steps_of_a_rejected_and_of_a_failed_dispatch() {
    let (state, action) =
        Dispatch::new().step(Event::ParseRejected { message: "no such command".to_string() });
    assert_eq!(state, Dispatch::Done);
    assert_eq!(action, Action::Report { line: "no such command\n".to_string() });
    let (state, action) = Dispatch::Executing { json: false }
        .step(Event::ExecutionFailed { message: "boom".to_string() });
    assert_eq!(state, Dispatch::Done);
    assert_eq!(action, Action::Report { line: "boom\n".to_string() });
}

#[test]
fn events_out_of_turn_are_ignored() {
    let result = CommandResult::Addresses(texts(&["0xA1"]));
    let out_of_turn = [
        (Dispatch::Parsing, Event::ExecutionFailed { message: "x".to_string() }),
        (Dispatch::Parsing, Event::ExecutionSucceeded { result: result.clone() }),
        (Dispatch::Executing { json: true }, Event::ParseAccepted { json: false }),
        (Dispatch::Executing { json: true }, Event::ParseRejected { message: "x".to_string() }),
        (
            Dispatch::Refreshing { json: false, result: result.clone() },
            Event::ParseAccepted { json: true },
        ),
        (
            Dispatch::Refreshing { json: false, result: result.clone() },
            Event::ExecutionSucceeded { result: CommandResult::Other },
        ),
        (Dispatch::Done, Event::ParseAccepted { json: true }),
        (Dispatch::Done, Event::ParseRejected { message: "x".to_string() }),
        (Dispatch::Done, Event::ExecutionFailed { message: "x".to_string() }),
        (Dispatch::Done, Event::ExecutionSucceeded { result: result.clone() }),
    ];
    let unchanged = [
        Dispatch::Parsing,
        Dispatch::Parsing,
        Dispatch::Executing { json: true },
        Dispatch::Executing { json: true },
        Dispatch::Refreshing { json: false, result: result.clone() },
        Dispatch::Refreshing { json: false, result: result.clone() },
        Dispatch::Done,
        Dispatch::Done,
        Dispatch::Done,
        Dispatch::Done,
    ];
    for ((state, event), expected) in out_of_turn.into_iter().zip(unchanged.into_iter()) {
        let (next, action) = state.step(event);
        assert_eq!(next, expected);
        assert_eq!(action, Action::Ignore);
    }
}

#[test]
fn refresh_out_of_turn_is_ignored() {
    let states = [
        (Dispatch::Parsing, Dispatch::Parsing),
        (Dispatch::Executing { json: false }, Dispatch::Executing { json: false }),
        (Dispatch::Done, Dispatch::Done),
    ];
    for (state, expected) in states.into_iter() {
        let mut cache = CompletionCache::new();
        cache.set(CacheKey::flag("--to"), texts(&["0xA1"]));
        let (next, action) = state.refresh(LockAttempt::Acquired, &mut cache);
        assert_eq!(next, expected);
        assert_eq!(action, Action::Ignore);
        assert_eq!(cache.get(&CacheKey::flag("--to")), Some(&texts(&["0xA1"])));
        assert_eq!(cache.get(&CacheKey::flag("--address")), None);
    }
}

#[test]
fn failure_line_ends_the_message_with_a_line_feed() {
    assert_eq!(failure_line("Invalid address".to_string()), "Invalid address\n");
    assert_eq!(failure_line(String::new()), "\n");
    assert_eq!(failure_line("two\nlines".to_string()), "two\nlines\n");
}
