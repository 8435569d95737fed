use ark::console::{
    on_console_input, r_polled_events, r_read_console, r_write_console, ConsoleAction,
    ConsoleEvent, ConsoleReader, LineError, Stream,
};

// Follows the runtime lock through a list of actions: `None` where an action
// is out of place, else whether the lock is held at the end.
fn lock_through(mut held: bool, script: &[ConsoleAction]) -> Option<bool> {
    for action in script {
        held = match action {
            ConsoleAction::PublishPrompt(_) => held,
            ConsoleAction::ReleaseLock if held => false,
            ConsoleAction::AcquireLock if !held => true,
            ConsoleAction::AwaitReply if !held => false,
            ConsoleAction::ProcessEvents
            | ConsoleAction::WriteLine(_)
            | ConsoleAction::Reject(_)
            | ConsoleAction::Return
                if held =>
            {
                true
            },
            _ => return None,
        };
    }
    Some(held)
}

#[test]
fn save_workspace_is_answered_with_n() {
    let (reader, script) = r_read_console("Save workspace image? [y/n/c]: ", 4096);
    assert_eq!(script, vec![ConsoleAction::WriteLine(b"n\n".to_vec()), ConsoleAction::Return]);
    assert!(!reader.waiting);
    assert_eq!(reader.buflen, 4096);
}

#[test]
fn prompt_is_published_and_lock_released_for_the_wait() {
    let (reader, script) = r_read_console("> ", 4096);
    assert_eq!(
        script,
        vec![
            ConsoleAction::PublishPrompt("> ".to_string()),
            ConsoleAction::ReleaseLock,
            ConsoleAction::AwaitReply
        ]
    );
    assert!(reader.waiting);
    assert_eq!(reader.buflen, 4096);
}

#[test]
fn prompt_that_only_mentions_save_workspace_is_published() {
    let (reader, script) = r_read_console("Do not Save workspace", 16);
    assert_eq!(script.len(), 3);
    assert!(reader.waiting);
}

#[test]
fn reply_with_input_writes_the_line_and_returns() {
    let (mut reader, _) = r_read_console("> ", 4096);
    let script = reader.resume(ConsoleEvent::Reply(Some("1 + 1".to_string())));
    assert_eq!(
        script,
        vec![
            ConsoleAction::AcquireLock,
            ConsoleAction::WriteLine(b"1 + 1\n".to_vec()),
            ConsoleAction::Return
        ]
    );
    assert!(!reader.waiting);
}

#[test]
fn no_more_input_returns_without_further_polling() {
    let (mut reader, _) = r_read_console("> ", 4096);
    let script = reader.resume(ConsoleEvent::Reply(None));
    assert_eq!(script, vec![ConsoleAction::AcquireLock, ConsoleAction::Return]);
    assert!(!reader.waiting);
    assert!(!script.contains(&ConsoleAction::AwaitReply));
    assert!(!script.contains(&ConsoleAction::ProcessEvents));
}

#[test]
fn no_more_input_returns_after_any_number_of_timeouts() {
    let (mut reader, _) = r_read_console("> ", 64);
    for _ in 0..5 {
        let script = reader.resume(ConsoleEvent::Timeout);
        assert_eq!(script.last(), Some(&ConsoleAction::AwaitReply));
    }
    let script = reader.resume(ConsoleEvent::Reply(None));
    assert_eq!(script, vec![ConsoleAction::AcquireLock, ConsoleAction::Return]);
}

#[test]
fn timeout_pumps_events_once_and_waits_again() {
    let (mut reader, _) = r_read_console("> ", 4096);
    let script = reader.resume(ConsoleEvent::Timeout);
    assert_eq!(
        script,
        vec![
            ConsoleAction::AcquireLock,
            ConsoleAction::ProcessEvents,
            ConsoleAction::ReleaseLock,
            ConsoleAction::AwaitReply
        ]
    );
    assert!(reader.waiting);
    assert_eq!(reader.buflen, 4096);
}

#[test]
fn disconnected_returns() {
    let (mut reader, _) = r_read_console("> ", 4096);
    let script = reader.resume(ConsoleEvent::Disconnected);
    assert_eq!(script, vec![ConsoleAction::AcquireLock, ConsoleAction::Return]);
    assert!(!reader.waiting);
}

#[test]
fn resume_after_return_does_nothing() {
    let (mut reader, _) = r_read_console("> ", 4096);
    reader.resume(ConsoleEvent::Reply(None));
    assert_eq!(reader.resume(ConsoleEvent::Timeout), Vec::new());
    assert_eq!(reader.resume(ConsoleEvent::Reply(Some("x".to_string()))), Vec::new());
    assert!(!reader.waiting);
}

#[test]
fn resume_of_a_read_that_answered_itself_does_nothing() {
    let (mut reader, _) = r_read_console("Save workspace image? [y/n/c]: ", 4096);
    assert_eq!(reader.resume(ConsoleEvent::Timeout), Vec::new());
}

#[test]
fn input_too_large_is_rejected() {
    let mut reader = ConsoleReader { waiting: true, buflen: 3 };
    let script = reader.resume(ConsoleEvent::Reply(Some("abc".to_string())));
    assert_eq!(
        script,
        vec![
            ConsoleAction::AcquireLock,
            ConsoleAction::Reject(LineError::TooLarge),
            ConsoleAction::Return
        ]
    );
    assert!(!reader.waiting);
}

#[test]
fn line_that_fills_the_buffer_is_accepted() {
    assert_eq!(on_console_input(4, "abc".to_string()), Ok(b"abc\n".to_vec()));
    assert_eq!(on_console_input(3, "abc".to_string()), Err(LineError::TooLarge));
    assert_eq!(on_console_input(1, String::new()), Ok(b"\n".to_vec()));
    assert_eq!(on_console_input(0, String::new()), Err(LineError::TooLarge));
}

#[test]
fn line_is_measured_in_bytes() {
    assert_eq!(on_console_input(3, "é".to_string()), Ok(vec![0xC3u8, 0xA9, 10]));
    assert_eq!(on_console_input(2, "é".to_string()), Err(LineError::TooLarge));
}

#[test]
fn interior_nul_is_rejected() {
    assert_eq!(on_console_input(16, "a\0b".to_string()), Err(LineError::InteriorNul));
    let mut reader = ConsoleReader { waiting: true, buflen: 16 };
    let script = reader.resume(ConsoleEvent::Reply(Some("a\0b".to_string())));
    assert_eq!(
        script,
        vec![
            ConsoleAction::AcquireLock,
            ConsoleAction::Reject(LineError::InteriorNul),
            ConsoleAction::Return
        ]
    );
}

#[test]
fn too_large_comes_before_interior_nul() {
    assert_eq!(on_console_input(2, "a\0b".to_string()), Err(LineError::TooLarge));
}

#[test]
fn polled_events_do_nothing_without_pending_tasks() {
    assert_eq!(r_polled_events(false), Vec::new());
}

#[test]
fn polled_events_yield_the_lock_for_pending_tasks() {
    assert_eq!(
        r_polled_events(true),
        vec![ConsoleAction::ReleaseLock, ConsoleAction::AcquireLock]
    );
}

#[test]
fn write_console_tags_the_stream() {
    let out = r_write_console("[1] 2\n", 0);
    assert_eq!(out.stream, Stream::Stdout);
    assert_eq!(out.content, "[1] 2\n");
    let err = r_write_console("Warning message:\n", 1);
    assert_eq!(err.stream, Stream::Stderr);
    assert_eq!(err.content, "Warning message:\n");
    assert_eq!(r_write_console("", -1).stream, Stream::Stderr);
}

#[test]
fn scripts_respect_the_runtime_lock() {
    let (mut reader, script) = r_read_console("> ", 8);
    assert_eq!(lock_through(true, &script), Some(false));
    let script = reader.resume(ConsoleEvent::Timeout);
    assert_eq!(lock_through(false, &script), Some(false));
    let script = reader.resume(ConsoleEvent::Reply(Some("x".to_string())));
    assert_eq!(lock_through(false, &script), Some(true));

    let (_, script) = r_read_console("Save workspace image? ", 8);
    assert_eq!(lock_through(true, &script), Some(true));

    let mut reader = ConsoleReader { waiting: true, buflen: 1 };
    let script = reader.resume(ConsoleEvent::Reply(Some("too long".to_string())));
    assert_eq!(lock_through(false, &script), Some(true));
    let mut reader = ConsoleReader { waiting: true, buflen: 1 };
    assert_eq!(lock_through(false, &reader.resume(ConsoleEvent::Disconnected)), Some(true));
    let mut reader = ConsoleReader { waiting: true, buflen: 1 };
    assert_eq!(lock_through(false, &reader.resume(ConsoleEvent::Reply(None))), Some(true));

    assert_eq!(lock_through(true, &r_polled_events(true)), Some(true));
    assert_eq!(lock_through(true, &r_polled_events(false)), Some(true));
}
