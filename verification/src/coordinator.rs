//! The execution coordinator: one request at a time, in the order of
//! submission, each evaluation followed to the prompt that ends it.
//!
//! The coordinator is a state machine. It does not run the interpreter: it is
//! told what happened (a request came, the interpreter prompted, the user
//! replied) and answers with what has to be done.

use crate::request::{
    completion_at, completion_for, is_continuation, originator_of, Completion, CompletionView,
    Request,
};
use std::collections::VecDeque;
use vstd::prelude::*;

verus! {

/// Where the coordinator stands.
#[derive(Clone, Copy, Debug, PartialEq, Eq, Structural)]
pub enum Phase {
    /// The interpreter has not prompted yet.
    Starting,
    /// No request is being evaluated.
    Idle,
    /// A request is being evaluated.
    Running,
    /// The request that is being evaluated waits for a line from the user.
    AwaitingInput,
    /// No more requests will come.
    Stopped,
}

/// What the coordinator is told.
#[derive(Debug, PartialEq)]
pub enum CoordinatorEvent {
    /// The interpreter has shown `prompt`. `default_prompt` is its configured
    /// top-level prompt, or `None` where that could not be read.
    Prompt { prompt: String, default_prompt: Option<String> },
    /// A request was submitted.
    Request(Request),
    /// The user's reply to a request for input reached the interpreter.
    InputReply,
    /// Nobody is left to submit requests.
    Disconnected,
}

/// What the coordinator wants done.
#[derive(Debug, PartialEq)]
pub enum CoordinatorAction {
    /// Tell the kernel that the interpreter is up.
    CompleteInitialization,
    /// Hand the request to the interpreter.
    Fulfill(Request),
    /// Tell the kernel how the request that is being evaluated stands.
    Notify(Completion),
    /// Drop the console input that has not been read.
    DiscardConsoleInput,
    /// Leave the loop.
    Stop,
}

/// A `CoordinatorAction` as plain values.
pub enum CoordinatorActionView {
    CompleteInitialization,
    Fulfill(Request),
    Notify(CompletionView),
    DiscardConsoleInput,
    Stop,
}

impl View for CoordinatorAction {
    type V = CoordinatorActionView;

    open spec fn view(&self) -> CoordinatorActionView {
        match *self {
            CoordinatorAction::CompleteInitialization => {
                CoordinatorActionView::CompleteInitialization
            },
            CoordinatorAction::Fulfill(request) => CoordinatorActionView::Fulfill(request),
            CoordinatorAction::Notify(done) => CoordinatorActionView::Notify(done@),
            CoordinatorAction::DiscardConsoleInput => CoordinatorActionView::DiscardConsoleInput,
            CoordinatorAction::Stop => CoordinatorActionView::Stop,
        }
    }
}

/// A list of actions as plain values.
pub open spec fn action_views(actions: Seq<CoordinatorAction>) -> Seq<CoordinatorActionView> {
    actions.map_values(|a: CoordinatorAction| a@)
}

/// The state of the coordinator as plain values.
pub struct CoordinatorState {
    pub phase: Phase,
    /// The originator of the request that is being evaluated.
    pub originator: Seq<u8>,
    /// The requests that wait, oldest first.
    pub queue: Seq<Request>,
}

/// The state of a new coordinator.
pub open spec fn initial_state() -> CoordinatorState {
    CoordinatorState { phase: Phase::Starting, originator: Seq::empty(), queue: Seq::empty() }
}

/// Whether a request is being evaluated.
pub open spec fn busy(phase: Phase) -> bool {
    phase == Phase::Running || phase == Phase::AwaitingInput
}

/// Takes the oldest waiting request, where the coordinator is idle and one
/// waits. A request to evaluate code is then being evaluated; any other
/// request is only passed on.
pub open spec fn begin_next(s: CoordinatorState) -> (CoordinatorState, Option<Request>) {
    if s.phase == Phase::Idle && s.queue.len() > 0 {
        let request = s.queue[0];
        if request is ExecuteCode {
            (
                CoordinatorState {
                    phase: Phase::Running,
                    originator: originator_of(request),
                    queue: s.queue.drop_first(),
                },
                Some(request),
            )
        } else {
            (CoordinatorState { queue: s.queue.drop_first(), ..s }, Some(request))
        }
    } else {
        (s, None)
    }
}

/// Takes waiting requests for as long as `begin_next` takes one: up to and
/// including the first that asks to evaluate code.
pub open spec fn begin_all(s: CoordinatorState) -> (CoordinatorState, Seq<CoordinatorActionView>)
    decreases s.queue.len(),
{
    if s.phase == Phase::Idle && s.queue.len() > 0 {
        let (after, more) = begin_all(begin_next(s).0);
        (after, seq![CoordinatorActionView::Fulfill(s.queue[0])] + more)
    } else {
        (s, Seq::empty())
    }
}

/// `first`, then whatever `begin_all` adds in the state `s`.
pub open spec fn then_begin(s: CoordinatorState, first: Seq<CoordinatorActionView>) -> (
    CoordinatorState,
    Seq<CoordinatorActionView>,
) {
    (begin_all(s).0, first + begin_all(s).1)
}

/// What a prompt of the interpreter leads to. The first prompt says that the
/// interpreter is up. While a request is being evaluated, the prompt decides
/// how it stands: at a continuation prompt it ends as incomplete and the
/// unread console input is dropped; at the default prompt it ends as
/// finished; at any other prompt the user is asked for input. Once a request
/// has ended, the next is taken. In any other phase a prompt changes nothing.
pub open spec fn after_prompt(
    s: CoordinatorState,
    prompt: Seq<char>,
    default_prompt: Option<Seq<char>>,
) -> (CoordinatorState, Seq<CoordinatorActionView>) {
    let idle = CoordinatorState { phase: Phase::Idle, ..s };
    match s.phase {
        Phase::Starting => then_begin(idle, seq![CoordinatorActionView::CompleteInitialization]),
        Phase::Running => {
            let done = completion_at(s.originator, prompt, default_prompt);
            match done {
                CompletionView::Incomplete => then_begin(
                    idle,
                    seq![
                        CoordinatorActionView::Notify(done),
                        CoordinatorActionView::DiscardConsoleInput,
                    ],
                ),
                CompletionView::InputRequested { .. } => (
                    CoordinatorState { phase: Phase::AwaitingInput, ..s },
                    seq![CoordinatorActionView::Notify(done)],
                ),
                CompletionView::Finished => then_begin(
                    idle,
                    seq![CoordinatorActionView::Notify(done)],
                ),
            }
        },
        _ => (s, Seq::empty()),
    }
}

/// The text of an optional string.
pub open spec fn text_of_string(s: Option<String>) -> Option<Seq<char>> {
    match s {
        Some(t) => Some(t@),
        None => None,
    }
}

/// The state after `event`, and what is to be done. A submitted request joins
/// the queue, and is taken at once where the coordinator is idle. The user's
/// reply lets a request that waited for it run again. Once nobody is left to
/// submit requests, a coordinator that evaluates none stops.
pub open spec fn coordinator_step(s: CoordinatorState, event: CoordinatorEvent) -> (
    CoordinatorState,
    Seq<CoordinatorActionView>,
) {
    match event {
        CoordinatorEvent::Prompt { prompt, default_prompt } => after_prompt(
            s,
            prompt@,
            text_of_string(default_prompt),
        ),
        CoordinatorEvent::Request(request) => then_begin(
            CoordinatorState { queue: s.queue.push(request), ..s },
            Seq::empty(),
        ),
        CoordinatorEvent::InputReply => if s.phase == Phase::AwaitingInput {
            (CoordinatorState { phase: Phase::Running, ..s }, Seq::empty())
        } else {
            (s, Seq::empty())
        },
        CoordinatorEvent::Disconnected => if s.phase == Phase::Starting || s.phase == Phase::Idle {
            (CoordinatorState { phase: Phase::Stopped, ..s }, seq![CoordinatorActionView::Stop])
        } else {
            (s, Seq::empty())
        },
    }
}

/// The execution coordinator.
#[derive(Debug)]
pub struct ExecutionCoordinator {
    phase: Phase,
    originator: Vec<u8>,
    queue: VecDeque<Request>,
}

impl View for ExecutionCoordinator {
    type V = CoordinatorState;

    closed spec fn view(&self) -> CoordinatorState {
        CoordinatorState { phase: self.phase, originator: self.originator@, queue: self.queue@ }
    }
}

impl ExecutionCoordinator {
    /// A coordinator that waits for the interpreter's first prompt.
    pub fn new() -> (coordinator: Self)
        ensures
            coordinator@ == initial_state(),
    {
        ExecutionCoordinator {
            phase: Phase::Starting,
            originator: Vec::new(),
            queue: VecDeque::new(),
        }
    }

    /// Where the coordinator stands.
    pub fn phase(&self) -> (phase: Phase)
        ensures
            phase == self@.phase,
    {
        self.phase
    }

    /// The number of requests that wait.
    pub fn pending(&self) -> (n: usize)
        ensures
            n == self@.queue.len(),
    {
        self.queue.len()
    }

    /// Puts `request` at the end of the queue, and nothing else.
    pub fn submit(&mut self, request: Request)
        ensures
            final(self)@ == (CoordinatorState {
                queue: old(self)@.queue.push(request),
                ..old(self)@
            }),
    {
        self.queue.push_back(request);
    }
}

/// Takes the oldest waiting request, if the coordinator is idle and one
/// waits, and returns it for the interpreter.
pub fn handle_r_request(coordinator: &mut ExecutionCoordinator) -> (request: Option<Request>)
    ensures
        final(coordinator)@ == begin_next(old(coordinator)@).0,
        request == begin_next(old(coordinator)@).1,
{
    if coordinator.phase != Phase::Idle {
        return None;
    }
    match coordinator.queue.pop_front() {
        Some(request) => {
            match &request {
                Request::ExecuteCode(_, originator) => {
                    coordinator.originator = originator.clone();
                    coordinator.phase = Phase::Running;
                },
                _ => {},
            }
            assert(coordinator.queue@ == old(coordinator)@.queue.drop_first());
            Some(request)
        },
        None => None,
    }
}

/// Takes waiting requests until one asks to evaluate code, and adds each
/// to `actions`.
fn begin_requests(coordinator: &mut ExecutionCoordinator, actions: &mut Vec<CoordinatorAction>)
    ensures
        final(coordinator)@ == begin_all(old(coordinator)@).0,
        action_views(final(actions)@) == action_views(old(actions)@) + begin_all(old(coordinator)@).1,
{
    loop
        invariant
            begin_all(old(coordinator)@).0 == begin_all(coordinator@).0,
            action_views(old(actions)@) + begin_all(old(coordinator)@).1 == action_views(actions@)
                + begin_all(coordinator@).1,
        decreases coordinator@.queue.len(),
    {
        let ghost before = coordinator@;
        let ghost sofar = action_views(actions@);
        match handle_r_request(coordinator) {
            Some(request) => {
                actions.push(CoordinatorAction::Fulfill(request));
                assert(action_views(actions@) =~= sofar.push(
                    CoordinatorActionView::Fulfill(request),
                ));
                assert(action_views(actions@) + begin_all(coordinator@).1 =~= sofar + begin_all(
                    before,
                ).1);
            },
            None => {
                assert(action_views(actions@) + begin_all(coordinator@).1 =~= action_views(actions@));
                return ;
            },
        }
    }
}

/// Tells the coordinator what happened, and returns what is to be done, in
/// order.
pub fn listen(coordinator: &mut ExecutionCoordinator, event: CoordinatorEvent) -> (actions: Vec<
    CoordinatorAction,
>)
    ensures
        final(coordinator)@ == coordinator_step(old(coordinator)@, event).0,
        action_views(actions@) == coordinator_step(old(coordinator)@, event).1,
{
    let mut actions: Vec<CoordinatorAction> = Vec::new();
    assert(action_views(actions@) =~= Seq::empty());
    match event {
        CoordinatorEvent::Prompt { prompt, default_prompt } => {
            match coordinator.phase {
                Phase::Starting => {
                    coordinator.phase = Phase::Idle;
                    actions.push(CoordinatorAction::CompleteInitialization);
                    assert(action_views(actions@) =~= seq![
                        CoordinatorActionView::CompleteInitialization,
                    ]);
                    begin_requests(coordinator, &mut actions);
                },
                Phase::Running => {
                    let default = match &default_prompt {
                        Some(text) => Some(text.as_str()),
                        None => None,
                    };
                    let done = completion_for(&coordinator.originator, prompt.as_str(), default);
                    let ghost seen = done@;
                    match done {
                        Completion::Incomplete => {
                            coordinator.phase = Phase::Idle;
                            actions.push(CoordinatorAction::Notify(done));
                            actions.push(CoordinatorAction::DiscardConsoleInput);
                            assert(action_views(actions@) =~= seq![
                                CoordinatorActionView::Notify(seen),
                                CoordinatorActionView::DiscardConsoleInput,
                            ]);
                            begin_requests(coordinator, &mut actions);
                        },
                        Completion::InputRequested { .. } => {
                            coordinator.phase = Phase::AwaitingInput;
                            actions.push(CoordinatorAction::Notify(done));
                            assert(action_views(actions@) =~= seq![
                                CoordinatorActionView::Notify(seen),
                            ]);
                        },
                        Completion::Finished => {
                            coordinator.phase = Phase::Idle;
                            actions.push(CoordinatorAction::Notify(done));
                            assert(action_views(actions@) =~= seq![
                                CoordinatorActionView::Notify(seen),
                            ]);
                            begin_requests(coordinator, &mut actions);
                        },
                    }
                },
                _ => {},
            }
        },
        CoordinatorEvent::Request(request) => {
            coordinator.submit(request);
            begin_requests(coordinator, &mut actions);
            assert(action_views(actions@) =~= begin_all(
                CoordinatorState { queue: old(coordinator)@.queue.push(request), ..old(coordinator)@ },
            ).1);
        },
        CoordinatorEvent::InputReply => {
            if coordinator.phase == Phase::AwaitingInput {
                coordinator.phase = Phase::Running;
            }
        },
        CoordinatorEvent::Disconnected => {
            if coordinator.phase == Phase::Starting || coordinator.phase == Phase::Idle {
                coordinator.phase = Phase::Stopped;
                actions.push(CoordinatorAction::Stop);
                assert(action_views(actions@) =~= seq![CoordinatorActionView::Stop]);
            }
        },
    }
    actions
}

/// The state that a new coordinator reaches through `events`, and all that it
/// wanted done on the way, in order.
pub open spec fn run(events: Seq<CoordinatorEvent>) -> (
    CoordinatorState,
    Seq<CoordinatorActionView>,
)
    decreases events.len(),
{
    if events.len() == 0 {
        (initial_state(), Seq::empty())
    } else {
        let (s, done) = run(events.drop_last());
        let (after, more) = coordinator_step(s, events.last());
        (after, done + more)
    }
}

/// The requests submitted in `events`, in order.
pub open spec fn submitted(events: Seq<CoordinatorEvent>) -> Seq<Request>
    decreases events.len(),
{
    if events.len() == 0 {
        Seq::empty()
    } else {
        let before = submitted(events.drop_last());
        match events.last() {
            CoordinatorEvent::Request(request) => before.push(request),
            _ => before,
        }
    }
}

/// The requests that `actions` hand to the interpreter, in order.
pub open spec fn fulfilled(actions: Seq<CoordinatorActionView>) -> Seq<Request>
    decreases actions.len(),
{
    if actions.len() == 0 {
        Seq::empty()
    } else {
        let before = fulfilled(actions.drop_last());
        match actions.last() {
            CoordinatorActionView::Fulfill(request) => before.push(request),
            _ => before,
        }
    }
}

/// Whether a request is being evaluated after `actions`, given whether one is
/// before; `None` where an action is out of place. A request is handed to the
/// interpreter only while none is being evaluated, and is then being
/// evaluated if it asks to evaluate code. A notification comes only while a
/// request is being evaluated, and ends the evaluation unless it asks the
/// user for input.
pub open spec fn evaluating_after(busy: bool, actions: Seq<CoordinatorActionView>) -> Option<bool>
    decreases actions.len(),
{
    if actions.len() == 0 {
        Some(busy)
    } else {
        match evaluating_after(busy, actions.drop_last()) {
            Some(before) => match actions.last() {
                CoordinatorActionView::Fulfill(request) => if before {
                    None
                } else {
                    Some(request is ExecuteCode)
                },
                CoordinatorActionView::Notify(done) => if before {
                    Some(done is InputRequested)
                } else {
                    None
                },
                _ => Some(before),
            },
            None => None,
        }
    }
}

proof fn lemma_fulfilled_concat(a: Seq<CoordinatorActionView>, b: Seq<CoordinatorActionView>)
    ensures
        fulfilled(a + b) == fulfilled(a) + fulfilled(b),
    decreases b.len(),
{
    if b.len() == 0 {
        assert(a + b =~= a);
        assert(fulfilled(a) + fulfilled(b) =~= fulfilled(a));
    } else {
        lemma_fulfilled_concat(a, b.drop_last());
        assert((a + b).drop_last() =~= a + b.drop_last());
        assert((a + b).last() == b.last());
        assert(fulfilled(a + b) =~= fulfilled(a) + fulfilled(b));
    }
}

proof fn lemma_evaluating_concat(
    busy: bool,
    a: Seq<CoordinatorActionView>,
    b: Seq<CoordinatorActionView>,
)
    ensures
        evaluating_after(busy, a + b) == match evaluating_after(busy, a) {
            Some(between) => evaluating_after(between, b),
            None => None,
        },
    decreases b.len(),
{
    if b.len() == 0 {
        assert(a + b =~= a);
    } else {
        lemma_evaluating_concat(busy, a, b.drop_last());
        assert((a + b).drop_last() =~= a + b.drop_last());
        assert((a + b).last() == b.last());
    }
}

proof fn lemma_one_action(busy: bool, action: CoordinatorActionView)
    ensures
        fulfilled(seq![action]) == match action {
            CoordinatorActionView::Fulfill(request) => seq![request],
            _ => Seq::empty(),
        },
        evaluating_after(busy, seq![action]) == match action {
            CoordinatorActionView::Fulfill(request) => if busy {
                None
            } else {
                Some(request is ExecuteCode)
            },
            CoordinatorActionView::Notify(done) => if busy {
                Some(done is InputRequested)
            } else {
                None
            },
            _ => Some(busy),
        },
{
    let one = seq![action];
    assert(one.drop_last() =~= Seq::empty());
    assert(one.last() == action);
    reveal_with_fuel(fulfilled, 2);
    reveal_with_fuel(evaluating_after, 2);
    match action {
        CoordinatorActionView::Fulfill(request) => {
            assert(fulfilled(one) =~= seq![request]);
        },
        _ => {},
    }
}

/// Taking waiting requests hands them to the interpreter in the order of the
/// queue and leaves the rest waiting; it ends with a request being evaluated
/// or with none left to take.
proof fn lemma_begin_all(s: CoordinatorState)
    ensures
        fulfilled(begin_all(s).1) + begin_all(s).0.queue == s.queue,
        !busy(s.phase) ==> evaluating_after(false, begin_all(s).1) == Some(
            busy(begin_all(s).0.phase),
        ),
        busy(s.phase) ==> begin_all(s) == (s, Seq::<CoordinatorActionView>::empty()),
    decreases s.queue.len(),
{
    if s.phase == Phase::Idle && s.queue.len() > 0 {
        let next = begin_next(s).0;
        let first = seq![CoordinatorActionView::Fulfill(s.queue[0])];
        let (after, more) = begin_all(next);
        lemma_begin_all(next);
        lemma_one_action(false, first[0]);
        lemma_fulfilled_concat(first, more);
        lemma_evaluating_concat(false, first, more);
        assert(fulfilled(first + more) + after.queue =~= seq![s.queue[0]] + (fulfilled(more)
            + after.queue));
        assert(seq![s.queue[0]] + s.queue.drop_first() =~= s.queue);
    } else {
        assert(fulfilled(begin_all(s).1) + s.queue =~= s.queue);
    }
}

/// One step of the coordinator keeps every request, in order, and keeps the
/// notifications in step with the evaluations.
proof fn lemma_step(s: CoordinatorState, event: CoordinatorEvent)
    ensures
        fulfilled(coordinator_step(s, event).1) + coordinator_step(s, event).0.queue == match event {
            CoordinatorEvent::Request(request) => s.queue.push(request),
            _ => s.queue,
        },
        evaluating_after(busy(s.phase), coordinator_step(s, event).1) == Some(
            busy(coordinator_step(s, event).0.phase),
        ),
{
    let (after, actions) = coordinator_step(s, event);
    let nothing = Seq::<CoordinatorActionView>::empty();
    assert(fulfilled(nothing) + s.queue =~= s.queue);
    match event {
        CoordinatorEvent::Prompt { prompt, default_prompt } => {
            let idle = CoordinatorState { phase: Phase::Idle, ..s };
            lemma_begin_all(idle);
            let more = begin_all(idle).1;
            match s.phase {
                Phase::Starting => {
                    let first = seq![CoordinatorActionView::CompleteInitialization];
                    lemma_one_action(false, first[0]);
                    lemma_fulfilled_concat(first, more);
                    lemma_evaluating_concat(false, first, more);
                    assert(fulfilled(first) + fulfilled(more) =~= fulfilled(more));
                },
                Phase::Running => {
                    let done = completion_at(s.originator, prompt@, text_of_string(default_prompt));
                    let notify = seq![CoordinatorActionView::Notify(done)];
                    lemma_one_action(true, notify[0]);
                    match done {
                        CompletionView::Incomplete => {
                            let discard = seq![CoordinatorActionView::DiscardConsoleInput];
                            let first = seq![
                                CoordinatorActionView::Notify(done),
                                CoordinatorActionView::DiscardConsoleInput,
                            ];
                            assert(first =~= notify + discard);
                            lemma_one_action(false, discard[0]);
                            lemma_fulfilled_concat(notify, discard);
                            lemma_evaluating_concat(true, notify, discard);
                            lemma_fulfilled_concat(first, more);
                            lemma_evaluating_concat(true, first, more);
                            assert(fulfilled(first) + fulfilled(more) =~= fulfilled(more));
                        },
                        CompletionView::InputRequested { .. } => {
                            assert(fulfilled(notify) + s.queue =~= s.queue);
                        },
                        CompletionView::Finished => {
                            lemma_fulfilled_concat(notify, more);
                            lemma_evaluating_concat(true, notify, more);
                            assert(fulfilled(notify) + fulfilled(more) =~= fulfilled(more));
                        },
                    }
                },
                _ => {},
            }
        },
        CoordinatorEvent::Request(request) => {
            let queued = CoordinatorState { queue: s.queue.push(request), ..s };
            lemma_begin_all(queued);
            assert(nothing + begin_all(queued).1 =~= begin_all(queued).1);
        },
        CoordinatorEvent::InputReply => {},
        CoordinatorEvent::Disconnected => {
            if s.phase == Phase::Starting || s.phase == Phase::Idle {
                lemma_one_action(false, CoordinatorActionView::Stop);
                assert(fulfilled(seq![CoordinatorActionView::Stop]) + s.queue =~= s.queue);
            }
        },
    }
}

/// Requests are served one at a time, in the order of submission. Whatever
/// the coordinator is told: the requests that it has handed to the
/// interpreter, followed by those that wait, are the requests that were
/// submitted, in that order; and a request is handed over only after the
/// evaluation before it has ended, with the one notification (incomplete, or
/// finished) that ends it.
pub proof fn lemma_requests_complete_in_order(events: Seq<CoordinatorEvent>)
    ensures
        fulfilled(run(events).1) + run(events).0.queue == submitted(events),
        evaluating_after(false, run(events).1) == Some(busy(run(events).0.phase)),
    decreases events.len(),
{
    if events.len() == 0 {
        assert(fulfilled(run(events).1) + run(events).0.queue =~= submitted(events));
    } else {
        let (s, done) = run(events.drop_last());
        let (after, more) = coordinator_step(s, events.last());
        lemma_requests_complete_in_order(events.drop_last());
        lemma_step(s, events.last());
        lemma_fulfilled_concat(done, more);
        lemma_evaluating_concat(false, done, more);
        assert(fulfilled(done + more) + after.queue =~= fulfilled(done) + (fulfilled(more)
            + after.queue));
        match events.last() {
            CoordinatorEvent::Request(request) => {
                assert(fulfilled(done) + s.queue.push(request) =~= (fulfilled(done)
                    + s.queue).push(request));
            },
            _ => {},
        }
    }
}

/// Taking waiting requests hands requests to the interpreter and does
/// nothing else.
proof fn lemma_begin_all_fulfills(s: CoordinatorState)
    ensures
        forall|i: int| 0 <= i < begin_all(s).1.len() ==> begin_all(s).1[i] is Fulfill,
    decreases s.queue.len(),
{
    if s.phase == Phase::Idle && s.queue.len() > 0 {
        lemma_begin_all_fulfills(begin_next(s).0);
    }
}

/// At a continuation prompt the request that is being evaluated is reported
/// as incomplete, and as nothing else: no input is asked for, and the request
/// is not reported as finished.
pub proof fn lemma_continuation_reports_incomplete_only(
    s: CoordinatorState,
    prompt: Seq<char>,
    default_prompt: Option<Seq<char>>,
)
    requires
        s.phase == Phase::Running,
        is_continuation(prompt),
    ensures
        ({
            let (after, actions) = after_prompt(s, prompt, default_prompt);
            &&& actions[0] == CoordinatorActionView::Notify(CompletionView::Incomplete)
            &&& actions[1] == CoordinatorActionView::DiscardConsoleInput
            &&& forall|i: int| 1 <= i < actions.len() ==> !(actions[i] is Notify)
            &&& after.phase != Phase::AwaitingInput
        }),
{
    let idle = CoordinatorState { phase: Phase::Idle, ..s };
    lemma_begin_all_fulfills(idle);
    lemma_begin_all_phase(idle);
}

/// Taking waiting requests leaves the coordinator idle or running.
proof fn lemma_begin_all_phase(s: CoordinatorState)
    requires
        s.phase == Phase::Idle,
    ensures
        begin_all(s).0.phase == Phase::Idle || begin_all(s).0.phase == Phase::Running,
    decreases s.queue.len(),
{
    if s.queue.len() > 0 {
        let next = begin_next(s).0;
        if next.phase == Phase::Idle {
            lemma_begin_all_phase(next);
        }
    }
}

/// A request that waits for input is finished only after the reply: until
/// then a prompt changes nothing and leads to nothing.
pub proof fn lemma_no_completion_before_the_reply(
    s: CoordinatorState,
    prompt: Seq<char>,
    default_prompt: Option<Seq<char>>,
)
    requires
        s.phase == Phase::AwaitingInput,
    ensures
        after_prompt(s, prompt, default_prompt) == (s, Seq::<CoordinatorActionView>::empty()),
{
}

} // verus!
