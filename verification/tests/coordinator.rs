use ark::coordinator::{
    handle_r_request, listen, CoordinatorAction, CoordinatorEvent, ExecutionCoordinator, Phase,
};
use ark::request::{Completion, ExecuteRequest, Request};

fn execute_code(code: &str, originator: &[u8]) -> Request {
    Request::ExecuteCode(
        ExecuteRequest {
            code: code.to_string(),
            silent: false,
            store_history: true,
            allow_stdin: true,
            stop_on_error: false,
        },
        originator.to_vec(),
    )
}

fn prompt(text: &str) -> CoordinatorEvent {
    CoordinatorEvent::Prompt { prompt: text.to_string(), default_prompt: Some("> ".to_string()) }
}

fn started() -> ExecutionCoordinator {
    let mut coordinator = ExecutionCoordinator::new();
    assert_eq!(
        listen(&mut coordinator, prompt("> ")),
        vec![CoordinatorAction::CompleteInitialization]
    );
    coordinator
}

#[test]
fn new_coordinator_waits_for_the_first_prompt() {
    let coordinator = ExecutionCoordinator::new();
    assert_eq!(coordinator.phase(), Phase::Starting);
    assert_eq!(coordinator.pending(), 0);
}

#[test]
fn first_prompt_completes_initialization() {
    let mut coordinator = ExecutionCoordinator::new();
    let actions = listen(&mut coordinator, prompt("> "));
    assert_eq!(actions, vec![CoordinatorAction::CompleteInitialization]);
    assert_eq!(coordinator.phase(), Phase::Idle);
}

#[test]
fn request_before_the_first_prompt_waits() {
    let mut coordinator = ExecutionCoordinator::new();
    assert_eq!(
        listen(&mut coordinator, CoordinatorEvent::Request(execute_code("1", b"a"))),
        Vec::new()
    );
    assert_eq!(coordinator.phase(), Phase::Starting);
    assert_eq!(coordinator.pending(), 1);
    assert_eq!(
        listen(&mut coordinator, prompt("> ")),
        vec![
            CoordinatorAction::CompleteInitialization,
            CoordinatorAction::Fulfill(execute_code("1", b"a"))
        ]
    );
    assert_eq!(coordinator.phase(), Phase::Running);
    assert_eq!(coordinator.pending(), 0);
}

#[test]
fn continuation_prompt_reports_incomplete_only() {
    let mut coordinator = started();
    assert_eq!(
        listen(&mut coordinator, CoordinatorEvent::Request(execute_code("f <- function(", b"r1"))),
        vec![CoordinatorAction::Fulfill(execute_code("f <- function(", b"r1"))]
    );
    assert_eq!(coordinator.phase(), Phase::Running);
    let actions = listen(&mut coordinator, prompt("+ "));
    assert_eq!(
        actions,
        vec![
            CoordinatorAction::Notify(Completion::Incomplete),
            CoordinatorAction::DiscardConsoleInput
        ]
    );
    assert_eq!(coordinator.phase(), Phase::Idle);
    assert_eq!(listen(&mut coordinator, prompt("> ")), Vec::new());
    assert_eq!(listen(&mut coordinator, CoordinatorEvent::InputReply), Vec::new());
    assert_eq!(coordinator.phase(), Phase::Idle);
}

#[test]
fn nested_prompt_asks_for_input_then_finishes_after_the_reply() {
    let mut coordinator = started();
    let request = execute_code("readline('Name: ')", b"origin-8");
    listen(&mut coordinator, CoordinatorEvent::Request(request));
    let actions = listen(&mut coordinator, prompt("Name: "));
    assert_eq!(
        actions,
        vec![CoordinatorAction::Notify(Completion::InputRequested {
            originator: b"origin-8".to_vec(),
            prompt: "Name: ".to_string()
        })]
    );
    assert_eq!(coordinator.phase(), Phase::AwaitingInput);

    // No reply yet: a prompt finishes nothing.
    assert_eq!(listen(&mut coordinator, prompt("> ")), Vec::new());
    assert_eq!(coordinator.phase(), Phase::AwaitingInput);

    assert_eq!(listen(&mut coordinator, CoordinatorEvent::InputReply), Vec::new());
    assert_eq!(coordinator.phase(), Phase::Running);
    assert_eq!(
        listen(&mut coordinator, prompt("> ")),
        vec![CoordinatorAction::Notify(Completion::Finished)]
    );
    assert_eq!(coordinator.phase(), Phase::Idle);
}

#[test]
fn input_can_be_asked_for_more_than_once() {
    let mut coordinator = started();
    listen(&mut coordinator, CoordinatorEvent::Request(execute_code("two_questions()", b"o")));
    for question in ["First: ", "Second: "] {
        assert_eq!(
            listen(&mut coordinator, prompt(question)),
            vec![CoordinatorAction::Notify(Completion::InputRequested {
                originator: b"o".to_vec(),
                prompt: question.to_string()
            })]
        );
        listen(&mut coordinator, CoordinatorEvent::InputReply);
    }
    assert_eq!(
        listen(&mut coordinator, prompt("> ")),
        vec![CoordinatorAction::Notify(Completion::Finished)]
    );
}

#[test]
fn requests_complete_in_submission_order() {
    let mut coordinator = started();
    let mut log = Vec::new();
    log.extend(listen(&mut coordinator, CoordinatorEvent::Request(execute_code("a", b"1"))));
    log.extend(listen(&mut coordinator, CoordinatorEvent::Request(execute_code("b(", b"2"))));
    log.extend(listen(&mut coordinator, CoordinatorEvent::Request(execute_code("c", b"3"))));
    assert_eq!(coordinator.pending(), 2);
    log.extend(listen(&mut coordinator, prompt("> ")));
    log.extend(listen(&mut coordinator, prompt("+ ")));
    log.extend(listen(&mut coordinator, prompt("> ")));
    assert_eq!(
        log,
        vec![
            CoordinatorAction::Fulfill(execute_code("a", b"1")),
            CoordinatorAction::Notify(Completion::Finished),
            CoordinatorAction::Fulfill(execute_code("b(", b"2")),
            CoordinatorAction::Notify(Completion::Incomplete),
            CoordinatorAction::DiscardConsoleInput,
            CoordinatorAction::Fulfill(execute_code("c", b"3")),
            CoordinatorAction::Notify(Completion::Finished),
        ]
    );
    assert_eq!(coordinator.phase(), Phase::Idle);
    assert_eq!(coordinator.pending(), 0);
}

#[test]
fn interrupt_and_shutdown_are_passed_on_without_a_prompt() {
    let mut coordinator = started();
    assert_eq!(
        listen(&mut coordinator, CoordinatorEvent::Request(Request::Interrupt)),
        vec![CoordinatorAction::Fulfill(Request::Interrupt)]
    );
    assert_eq!(coordinator.phase(), Phase::Idle);
    assert_eq!(
        listen(&mut coordinator, CoordinatorEvent::Request(Request::Shutdown)),
        vec![CoordinatorAction::Fulfill(Request::Shutdown)]
    );
    assert_eq!(coordinator.phase(), Phase::Idle);
}

#[test]
fn requests_behind_an_evaluation_wait_for_its_end() {
    let mut coordinator = started();
    listen(&mut coordinator, CoordinatorEvent::Request(execute_code("Sys.sleep(1)", b"1")));
    assert_eq!(listen(&mut coordinator, CoordinatorEvent::Request(Request::Interrupt)), Vec::new());
    assert_eq!(
        listen(&mut coordinator, CoordinatorEvent::Request(execute_code("2", b"2"))),
        Vec::new()
    );
    assert_eq!(coordinator.pending(), 2);
    assert_eq!(
        listen(&mut coordinator, prompt("> ")),
        vec![
            CoordinatorAction::Notify(Completion::Finished),
            CoordinatorAction::Fulfill(Request::Interrupt),
            CoordinatorAction::Fulfill(execute_code("2", b"2")),
        ]
    );
    assert_eq!(coordinator.phase(), Phase::Running);
    assert_eq!(coordinator.pending(), 0);
}

#[test]
fn coordinator_finishes_at_an_unreadable_default_prompt() {
    let mut coordinator = started();
    listen(&mut coordinator, CoordinatorEvent::Request(execute_code("x", b"1")));
    let actions = listen(&mut coordinator, CoordinatorEvent::Prompt {
        prompt: "Name: ".to_string(),
        default_prompt: None,
    });
    assert_eq!(actions, vec![CoordinatorAction::Notify(Completion::Finished)]);
}

#[test]
fn disconnection_stops_an_idle_coordinator() {
    let mut coordinator = started();
    assert_eq!(
        listen(&mut coordinator, CoordinatorEvent::Disconnected),
        vec![CoordinatorAction::Stop]
    );
    assert_eq!(coordinator.phase(), Phase::Stopped);
    assert_eq!(listen(&mut coordinator, CoordinatorEvent::Disconnected), Vec::new());
    assert_eq!(listen(&mut coordinator, prompt("> ")), Vec::new());
    assert_eq!(
        listen(&mut coordinator, CoordinatorEvent::Request(execute_code("x", b"1"))),
        Vec::new()
    );
    assert_eq!(coordinator.phase(), Phase::Stopped);
}

#[test]
fn disconnection_waits_for_the_evaluation_to_end() {
    let mut coordinator = started();
    listen(&mut coordinator, CoordinatorEvent::Request(execute_code("x", b"1")));
    assert_eq!(listen(&mut coordinator, CoordinatorEvent::Disconnected), Vec::new());
    assert_eq!(coordinator.phase(), Phase::Running);
    assert_eq!(
        listen(&mut coordinator, prompt("> ")),
        vec![CoordinatorAction::Notify(Completion::Finished)]
    );
    assert_eq!(
        listen(&mut coordinator, CoordinatorEvent::Disconnected),
        vec![CoordinatorAction::Stop]
    );
}

#[test]
fn submit_only_enqueues() {
    let mut coordinator = started();
    coordinator.submit(execute_code("a", b"1"));
    coordinator.submit(Request::Interrupt);
    assert_eq!(coordinator.phase(), Phase::Idle);
    assert_eq!(coordinator.pending(), 2);
}

#[test]
fn handle_r_request_takes_one_request_at_a_time() {
    let mut coordinator = started();
    coordinator.submit(Request::Interrupt);
    coordinator.submit(execute_code("a", b"1"));
    coordinator.submit(execute_code("b", b"2"));
    assert_eq!(handle_r_request(&mut coordinator), Some(Request::Interrupt));
    assert_eq!(coordinator.phase(), Phase::Idle);
    assert_eq!(handle_r_request(&mut coordinator), Some(execute_code("a", b"1")));
    assert_eq!(coordinator.phase(), Phase::Running);
    assert_eq!(handle_r_request(&mut coordinator), None);
    assert_eq!(coordinator.pending(), 1);
}

#[test]
fn handle_r_request_takes_nothing_before_the_first_prompt() {
    let mut coordinator = ExecutionCoordinator::new();
    coordinator.submit(execute_code("a", b"1"));
    assert_eq!(handle_r_request(&mut coordinator), None);
    assert_eq!(coordinator.pending(), 1);
}

#[test]
fn input_request_carries_the_originator_of_the_current_request() {
    let mut coordinator = started();
    listen(&mut coordinator, CoordinatorEvent::Request(execute_code("a", b"first")));
    listen(&mut coordinator, CoordinatorEvent::Request(execute_code("readline()", b"second")));
    listen(&mut coordinator, prompt("> "));
    assert_eq!(
        listen(&mut coordinator, prompt("? ")),
        vec![CoordinatorAction::Notify(Completion::InputRequested {
            originator: b"second".to_vec(),
            prompt: "? ".to_string()
        })]
    );
}
