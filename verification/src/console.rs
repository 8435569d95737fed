//! The console callbacks of the interpreter.
//!
//! The interpreter calls back when it wants a line of input, when it has
//! output, and when it is idle. Nothing here touches the interpreter or the
//! runtime lock: each function decides, from plain values, what the thread
//! that owns the interpreter has to do, and returns that as a list of actions.

use crate::text::starts_with;
use vstd::prelude::*;
use vstd::string::StrSliceExecFns;
use vstd::utf8::encode_utf8;

verus! {

/// Why a line of console input was not handed to the interpreter.
#[derive(Clone, Copy, Debug, PartialEq, Eq, Structural)]
pub enum LineError {
    /// The line does not fit the interpreter's buffer.
    TooLarge,
    /// The line holds a NUL byte, which would end it early.
    InteriorNul,
}

/// The bytes of a line of input: its text in UTF-8, then a line feed.
pub open spec fn line_bytes(input: Seq<char>) -> Seq<u8> {
    encode_utf8(input).push(10u8)
}

/// What becomes of the input `input` for a buffer of `buflen` bytes: its
/// line, unless the line is longer than the buffer or holds a NUL byte.
pub open spec fn console_line(buflen: usize, input: Seq<char>) -> Result<Seq<u8>, LineError> {
    let line = line_bytes(input);
    if line.len() > buflen {
        Err(LineError::TooLarge)
    } else if line.contains(0u8) {
        Err(LineError::InteriorNul)
    } else {
        Ok(line)
    }
}

/// Prepares the line that answers the interpreter's request for input.
pub fn on_console_input(buflen: usize, input: String) -> (line: Result<Vec<u8>, LineError>)
    ensures
        match line {
            Ok(bytes) => console_line(buflen, input@) == Ok::<Seq<u8>, LineError>(bytes@),
            Err(e) => console_line(buflen, input@) == Err::<Seq<u8>, LineError>(e),
        },
{
    let mut bytes = input.as_str().as_bytes_vec();
    bytes.push(10u8);
    assert(bytes@ == line_bytes(input@));
    if bytes.len() > buflen {
        return Err(LineError::TooLarge);
    }
    let mut i: usize = 0;
    while i < bytes.len()
        invariant
            i <= bytes.len(),
            bytes.len() <= buflen,
            bytes@ == line_bytes(input@),
            forall|j: int| 0 <= j < i ==> bytes@[j] != 0u8,
        decreases bytes.len() - i,
    {
        if bytes[i] == 0u8 {
            assert(bytes@.contains(0u8));
            return Err(LineError::InteriorNul);
        }
        i = i + 1;
    }
    Ok(bytes)
}

/// One thing that the thread that owns the interpreter does while it serves
/// a console callback. A callback hands back a list of these, to be carried
/// out in order.
#[derive(Debug, PartialEq)]
pub enum ConsoleAction {
    /// Send the prompt to the coordinator.
    PublishPrompt(String),
    /// Give up the runtime lock.
    ReleaseLock,
    /// Wait, for a bounded time, for a reply with console input.
    AwaitReply,
    /// Take the runtime lock back.
    AcquireLock,
    /// Let the interpreter process its pending events, once.
    ProcessEvents,
    /// Copy the line into the interpreter's buffer.
    WriteLine(Vec<u8>),
    /// Report that the input could not be handed over.
    Reject(LineError),
    /// Return to the interpreter.
    Return,
}

/// A `ConsoleAction` as plain values.
pub enum ConsoleActionView {
    PublishPrompt(Seq<char>),
    ReleaseLock,
    AwaitReply,
    AcquireLock,
    ProcessEvents,
    WriteLine(Seq<u8>),
    Reject(LineError),
    Return,
}

impl View for ConsoleAction {
    type V = ConsoleActionView;

    open spec fn view(&self) -> ConsoleActionView {
        match *self {
            ConsoleAction::PublishPrompt(prompt) => ConsoleActionView::PublishPrompt(prompt@),
            ConsoleAction::ReleaseLock => ConsoleActionView::ReleaseLock,
            ConsoleAction::AwaitReply => ConsoleActionView::AwaitReply,
            ConsoleAction::AcquireLock => ConsoleActionView::AcquireLock,
            ConsoleAction::ProcessEvents => ConsoleActionView::ProcessEvents,
            ConsoleAction::WriteLine(line) => ConsoleActionView::WriteLine(line@),
            ConsoleAction::Reject(e) => ConsoleActionView::Reject(e),
            ConsoleAction::Return => ConsoleActionView::Return,
        }
    }
}

/// A list of actions as plain values.
pub open spec fn script_view(script: Seq<ConsoleAction>) -> Seq<ConsoleActionView> {
    script.map_values(|a: ConsoleAction| a@)
}

/// What ended a wait for console input.
#[derive(Debug, PartialEq)]
pub enum ConsoleEvent {
    /// A reply came: a line of input, or `None` for "no more input".
    Reply(Option<String>),
    /// The wait timed out.
    Timeout,
    /// Nobody is left to reply.
    Disconnected,
}

/// The interpreter asks on exit whether to save the workspace. The kernel
/// answers that itself, with "n".
pub open spec fn answers_itself(prompt: Seq<char>) -> bool {
    "Save workspace"@.is_prefix_of(prompt)
}

/// What a read of the console begins with: the answer "n" to the question
/// about the workspace; for any other prompt its publication, after which the
/// lock is released for the wait.
pub open spec fn read_console_script(prompt: Seq<char>) -> Seq<ConsoleActionView> {
    if answers_itself(prompt) {
        seq![ConsoleActionView::WriteLine(seq![110u8, 10u8]), ConsoleActionView::Return]
    } else {
        seq![
            ConsoleActionView::PublishPrompt(prompt),
            ConsoleActionView::ReleaseLock,
            ConsoleActionView::AwaitReply,
        ]
    }
}

/// What follows the end of a wait, for a buffer of `buflen` bytes. The lock is
/// taken back first. A reply ends the read, with its line where it has one
/// that fits; so does the loss of the other side. After a timeout the
/// interpreter processes its events once and the wait begins again.
pub open spec fn resume_script(buflen: usize, event: ConsoleEvent) -> Seq<ConsoleActionView> {
    match event {
        ConsoleEvent::Reply(Some(input)) => match console_line(buflen, input@) {
            Ok(line) => seq![
                ConsoleActionView::AcquireLock,
                ConsoleActionView::WriteLine(line),
                ConsoleActionView::Return,
            ],
            Err(e) => seq![
                ConsoleActionView::AcquireLock,
                ConsoleActionView::Reject(e),
                ConsoleActionView::Return,
            ],
        },
        ConsoleEvent::Reply(None) => seq![
            ConsoleActionView::AcquireLock,
            ConsoleActionView::Return,
        ],
        ConsoleEvent::Timeout => seq![
            ConsoleActionView::AcquireLock,
            ConsoleActionView::ProcessEvents,
            ConsoleActionView::ReleaseLock,
            ConsoleActionView::AwaitReply,
        ],
        ConsoleEvent::Disconnected => seq![
            ConsoleActionView::AcquireLock,
            ConsoleActionView::Return,
        ],
    }
}

/// A read of the console that is under way.
#[derive(Clone, Copy, Debug, PartialEq, Eq, Structural)]
pub struct ConsoleReader {
    /// Whether the read waits for a reply. While it does, the runtime lock is
    /// released.
    pub waiting: bool,
    /// The size of the interpreter's buffer.
    pub buflen: usize,
}

/// Begins a read of the console: the interpreter has shown `prompt` and offers
/// a buffer of `buflen` bytes for the answer.
pub fn r_read_console(prompt: &str, buflen: usize) -> (started: (ConsoleReader, Vec<ConsoleAction>))
    ensures
        started.0.waiting == !answers_itself(prompt@),
        started.0.buflen == buflen,
        script_view(started.1@) == read_console_script(prompt@),
{
    let mut script: Vec<ConsoleAction> = Vec::new();
    if starts_with(prompt, "Save workspace") {
        script.push(ConsoleAction::WriteLine(vec![110u8, 10u8]));
        script.push(ConsoleAction::Return);
        assert(script_view(script@) =~= read_console_script(prompt@));
        (ConsoleReader { waiting: false, buflen }, script)
    } else {
        script.push(ConsoleAction::PublishPrompt(prompt.to_owned()));
        script.push(ConsoleAction::ReleaseLock);
        script.push(ConsoleAction::AwaitReply);
        assert(script_view(script@) =~= read_console_script(prompt@));
        (ConsoleReader { waiting: true, buflen }, script)
    }
}

impl ConsoleReader {
    /// Goes on with the read after its wait has ended in `event`. A read that
    /// does not wait has returned: nothing is left to do for it.
    pub fn resume(&mut self, event: ConsoleEvent) -> (script: Vec<ConsoleAction>)
        ensures
            final(self).buflen == old(self).buflen,
            final(self).waiting == (old(self).waiting && event is Timeout),
            script_view(script@) == if old(self).waiting {
                resume_script(old(self).buflen, event)
            } else {
                Seq::empty()
            },
    {
        let mut script: Vec<ConsoleAction> = Vec::new();
        if !self.waiting {
            assert(script_view(script@) =~= Seq::empty());
            return script;
        }
        script.push(ConsoleAction::AcquireLock);
        match event {
            ConsoleEvent::Reply(Some(input)) => {
                match on_console_input(self.buflen, input) {
                    Ok(line) => script.push(ConsoleAction::WriteLine(line)),
                    Err(e) => script.push(ConsoleAction::Reject(e)),
                }
                script.push(ConsoleAction::Return);
                self.waiting = false;
            },
            ConsoleEvent::Reply(None) => {
                script.push(ConsoleAction::Return);
                self.waiting = false;
            },
            ConsoleEvent::Timeout => {
                script.push(ConsoleAction::ProcessEvents);
                script.push(ConsoleAction::ReleaseLock);
                script.push(ConsoleAction::AwaitReply);
            },
            ConsoleEvent::Disconnected => {
                script.push(ConsoleAction::Return);
                self.waiting = false;
            },
        }
        assert(script_view(script@) =~= resume_script(old(self).buflen, event));
        script
    }
}

/// What the interpreter's idle callback does: nothing, unless work of other
/// threads is pending; then the lock is released and taken back at once, so
/// that they get their turn.
pub open spec fn polled_events_script(tasks_pending: bool) -> Seq<ConsoleActionView> {
    if tasks_pending {
        seq![ConsoleActionView::ReleaseLock, ConsoleActionView::AcquireLock]
    } else {
        Seq::empty()
    }
}

/// Serves the interpreter's idle callback.
pub fn r_polled_events(tasks_pending: bool) -> (script: Vec<ConsoleAction>)
    ensures
        script_view(script@) == polled_events_script(tasks_pending),
{
    let mut script: Vec<ConsoleAction> = Vec::new();
    if tasks_pending {
        script.push(ConsoleAction::ReleaseLock);
        script.push(ConsoleAction::AcquireLock);
    }
    assert(script_view(script@) =~= polled_events_script(tasks_pending));
    script
}

/// The stream that console output belongs to.
#[derive(Clone, Copy, Debug, PartialEq, Eq, Structural)]
pub enum Stream {
    Stdout,
    Stderr,
}

/// A piece of console output on its way to the front end.
#[derive(Debug, PartialEq)]
pub struct ConsoleOutput {
    pub stream: Stream,
    pub content: String,
}

/// The stream of output of the type `otype`: 0 is ordinary output, anything
/// else is a warning or an error.
pub open spec fn stream_of(otype: i32) -> Stream {
    if otype == 0 {
        Stream::Stdout
    } else {
        Stream::Stderr
    }
}

/// Tags the output that the interpreter wrote to the console with its stream.
pub fn r_write_console(content: &str, otype: i32) -> (output: ConsoleOutput)
    ensures
        output.stream == stream_of(otype),
        output.content@ == content@,
{
    let stream = if otype == 0 {
        Stream::Stdout
    } else {
        Stream::Stderr
    };
    ConsoleOutput { stream, content: content.to_owned() }
}

/// Whether the runtime lock is held after `action`, given whether it is held
/// before; `None` where the action is out of place. The lock can be released
/// only where it is held and taken only where it is not. The thread never
/// waits for input with the lock in hand, and enters the interpreter (to have
/// it process events, to fill its buffer, to return to it) only with it.
pub open spec fn lock_after(held: bool, action: ConsoleActionView) -> Option<bool> {
    match action {
        ConsoleActionView::PublishPrompt(_) => Some(held),
        ConsoleActionView::ReleaseLock => if held {
            Some(false)
        } else {
            None
        },
        ConsoleActionView::AcquireLock => if held {
            None
        } else {
            Some(true)
        },
        ConsoleActionView::AwaitReply => if held {
            None
        } else {
            Some(false)
        },
        _ => if held {
            Some(true)
        } else {
            None
        },
    }
}

/// Whether the runtime lock is held after the actions of `script`, carried
/// out in order; `None` where one of them is out of place.
pub open spec fn lock_through(held: bool, script: Seq<ConsoleActionView>) -> Option<bool>
    decreases script.len(),
{
    if script.len() == 0 {
        Some(held)
    } else {
        match lock_after(held, script[0]) {
            Some(after) => lock_through(after, script.drop_first()),
            None => None,
        }
    }
}

/// A read of the console begins with the lock held. Every action of its
/// first list is in place, and the lock is released after it exactly when the
/// read waits.
pub proof fn lemma_read_console_respects_lock(prompt: Seq<char>)
    ensures
        lock_through(true, read_console_script(prompt)) == Some(answers_itself(prompt)),
{
    let script = read_console_script(prompt);
    reveal_with_fuel(lock_through, 4);
    if answers_itself(prompt) {
        assert(script.drop_first() =~= seq![ConsoleActionView::Return]);
        assert(script.drop_first().drop_first() =~= Seq::empty());
    } else {
        let rest = seq![ConsoleActionView::ReleaseLock, ConsoleActionView::AwaitReply];
        assert(script.drop_first() =~= rest);
        assert(rest.drop_first() =~= seq![ConsoleActionView::AwaitReply]);
        assert(rest.drop_first().drop_first() =~= Seq::empty());
    }
}

/// A wait ends with the lock released. Every action that follows is in
/// place, and the lock is held after them unless the wait begins again.
pub proof fn lemma_resume_respects_lock(buflen: usize, event: ConsoleEvent)
    ensures
        lock_through(false, resume_script(buflen, event)) == Some(!(event is Timeout)),
{
    let script = resume_script(buflen, event);
    reveal_with_fuel(lock_through, 5);
    let second = script.drop_first();
    let third = second.drop_first();
    match event {
        ConsoleEvent::Reply(Some(input)) => {
            assert(second.len() == 2 && second[0] == script[1] && second[1] == script[2]);
            assert(third.len() == 1 && third[0] == script[2]);
            assert(third.drop_first() =~= Seq::empty());
        },
        ConsoleEvent::Timeout => {
            let fourth = third.drop_first();
            assert(second.len() == 3 && second[0] == script[1]);
            assert(third.len() == 2 && third[0] == script[2]);
            assert(fourth.len() == 1 && fourth[0] == script[3]);
            assert(fourth.drop_first() =~= Seq::empty());
        },
        _ => {
            assert(second.len() == 1 && second[0] == script[1]);
            assert(third =~= Seq::empty());
        },
    }
}

/// The idle callback runs with the lock held and leaves it held, whether or
/// not it let other threads have their turn.
pub proof fn lemma_polled_events_respects_lock(tasks_pending: bool)
    ensures
        lock_through(true, polled_events_script(tasks_pending)) == Some(true),
{
    let script = polled_events_script(tasks_pending);
    reveal_with_fuel(lock_through, 3);
    if tasks_pending {
        assert(script.drop_first().len() == 1 && script.drop_first()[0] == script[1]);
        assert(script.drop_first().drop_first() =~= Seq::empty());
    }
}

/// The reply "no more input" ends the read at once: the thread takes the
/// lock and returns, without another wait, without having the interpreter
/// process events, and without a line.
pub proof fn lemma_no_more_input_returns(buflen: usize)
    ensures
        ({
            let script = resume_script(buflen, ConsoleEvent::Reply(None));
            &&& script.last() == ConsoleActionView::Return
            &&& forall|i: int|
                0 <= i < script.len() ==> script[i] != ConsoleActionView::AwaitReply && script[i]
                    != ConsoleActionView::ProcessEvents && !(script[i] is WriteLine)
        }),
{
}

/// A timeout has the interpreter process its events exactly once, under the
/// lock, before the wait begins again.
pub proof fn lemma_timeout_pumps_once(buflen: usize)
    ensures
        resume_script(buflen, ConsoleEvent::Timeout).filter(
            |a: ConsoleActionView| a == ConsoleActionView::ProcessEvents,
        ).len() == 1,
        resume_script(buflen, ConsoleEvent::Timeout).last() == ConsoleActionView::AwaitReply,
{
    let script = resume_script(buflen, ConsoleEvent::Timeout);
    let pumps = |a: ConsoleActionView| a == ConsoleActionView::ProcessEvents;
    reveal_with_fuel(Seq::filter, 5);
    let three = script.drop_last();
    let two = three.drop_last();
    let one = two.drop_last();
    assert(three.len() == 3 && three.last() == script[2]);
    assert(two.len() == 2 && two.last() == script[1]);
    assert(one.len() == 1 && one.last() == script[0]);
    assert(one.drop_last().len() == 0);
}

/// Whether a read still waits after the waits that ended in `events`, one
/// after the other, and all that was done on the way. What comes after the
/// event that ended the read is not looked at.
pub open spec fn read_through(buflen: usize, waiting: bool, events: Seq<ConsoleEvent>) -> (
    bool,
    Seq<ConsoleActionView>,
)
    decreases events.len(),
{
    if events.len() == 0 {
        (waiting, Seq::empty())
    } else {
        let (before, done) = read_through(buflen, waiting, events.drop_last());
        if before {
            (events.last() is Timeout, done + resume_script(buflen, events.last()))
        } else {
            (false, done)
        }
    }
}

proof fn lemma_lock_through_concat(
    held: bool,
    first: Seq<ConsoleActionView>,
    second: Seq<ConsoleActionView>,
)
    ensures
        lock_through(held, first + second) == match lock_through(held, first) {
            Some(between) => lock_through(between, second),
            None => None,
        },
    decreases first.len(),
{
    if first.len() == 0 {
        assert(first + second =~= second);
    } else {
        assert((first + second).drop_first() =~= first.drop_first() + second);
        match lock_after(held, first[0]) {
            Some(after) => lemma_lock_through_concat(after, first.drop_first(), second),
            None => {},
        }
    }
}

/// A whole read of the console respects the runtime lock, however long it
/// waits and whatever ends it: the thread never waits with the lock in
/// hand and never enters the interpreter without it, and it holds the lock
/// again when the read has returned.
pub proof fn lemma_read_respects_lock(prompt: Seq<char>, buflen: usize, events: Seq<ConsoleEvent>)
    ensures
        ({
            let (waiting, done) = read_through(buflen, !answers_itself(prompt), events);
            lock_through(true, read_console_script(prompt) + done) == Some(!waiting)
        }),
    decreases events.len(),
{
    let begun = read_console_script(prompt);
    lemma_read_console_respects_lock(prompt);
    if events.len() == 0 {
        assert(begun + Seq::<ConsoleActionView>::empty() =~= begun);
    } else {
        let (before, done) = read_through(buflen, !answers_itself(prompt), events.drop_last());
        lemma_read_respects_lock(prompt, buflen, events.drop_last());
        if before {
            let more = resume_script(buflen, events.last());
            lemma_resume_respects_lock(buflen, events.last());
            lemma_lock_through_concat(true, begun + done, more);
            assert(begun + (done + more) =~= (begun + done) + more);
        }
    }
}

/// A read does not outlast a reply: whatever came before, it has returned
/// once a wait ended in anything but a timeout.
pub proof fn lemma_reply_ends_the_read(buflen: usize, waiting: bool, events: Seq<ConsoleEvent>)
    requires
        events.len() > 0,
        !(events.last() is Timeout),
    ensures
        !read_through(buflen, waiting, events).0,
{
}

} // verus!
