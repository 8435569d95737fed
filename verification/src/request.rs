//! Execution requests, and what a prompt of the interpreter says about the
//! request that is being evaluated.

use crate::text::same_text;
use vstd::prelude::*;
use vstd::string::StrSliceExecFns;

verus! {

/// The request of the front end to evaluate a piece of code.
#[derive(Debug, PartialEq)]
pub struct ExecuteRequest {
    /// The code to evaluate.
    pub code: String,
    /// Whether to evaluate as quietly as possible.
    pub silent: bool,
    /// Whether the code is recorded in the history.
    pub store_history: bool,
    /// Whether the code may prompt the user for input.
    pub allow_stdin: bool,
    /// Whether an error drops the requests queued behind this one.
    pub stop_on_error: bool,
}

/// A request to the execution coordinator.
#[derive(Debug, PartialEq)]
pub enum Request {
    /// Evaluate code on behalf of the front-end request named by the
    /// originator (the second field).
    ExecuteCode(ExecuteRequest, Vec<u8>),
    /// Interrupt the interpreter.
    Interrupt,
    /// Shut the interpreter down.
    Shutdown,
}

/// The originator of `request`: empty for a request that carries none.
pub open spec fn originator_of(request: Request) -> Seq<u8> {
    match request {
        Request::ExecuteCode(_, originator) => originator@,
        _ => Seq::empty(),
    }
}

/// What a prompt says about the state of the interpreter.
#[derive(Clone, Copy, Debug, PartialEq, Eq, Structural)]
pub enum PromptKind {
    /// The interpreter wants the rest of an incomplete input.
    Continuation,
    /// The top-level prompt: the interpreter is ready.
    Default,
    /// Any other prompt: code that runs is asking for a line of input.
    Other,
}

/// A continuation prompt begins with `+`.
pub open spec fn is_continuation(prompt: Seq<char>) -> bool {
    prompt.len() > 0 && prompt[0] == '+'
}

/// The kind of `prompt`, where `default_prompt` is the configured top-level
/// prompt, or `None` where it could not be read. A continuation prompt is
/// recognised first; a prompt that cannot be held against the default counts
/// as the default.
pub open spec fn prompt_kind(prompt: Seq<char>, default_prompt: Option<Seq<char>>) -> PromptKind {
    if is_continuation(prompt) {
        PromptKind::Continuation
    } else if default_prompt is Some && default_prompt->0 != prompt {
        PromptKind::Other
    } else {
        PromptKind::Default
    }
}

/// The text of an optional string slice.
pub open spec fn text_of(s: Option<&str>) -> Option<Seq<char>> {
    match s {
        Some(t) => Some(t@),
        None => None,
    }
}

/// Classifies a prompt of the interpreter.
pub fn classify_prompt(prompt: &str, default_prompt: Option<&str>) -> (kind: PromptKind)
    ensures
        kind == prompt_kind(prompt@, text_of(default_prompt)),
{
    if !prompt.is_empty() && prompt.get_char(0) == '+' {
        return PromptKind::Continuation;
    }
    match default_prompt {
        Some(default) => {
            if same_text(default, prompt) {
                PromptKind::Default
            } else {
                PromptKind::Other
            }
        },
        None => PromptKind::Default,
    }
}

/// How the evaluation of a request stands once the interpreter has prompted.
#[derive(Debug, PartialEq)]
pub enum Completion {
    /// The code was incomplete: the request ends here.
    Incomplete,
    /// Code that runs asks the user for a line: the prompt goes to the front
    /// end, under the originator of the request.
    InputRequested { originator: Vec<u8>, prompt: String },
    /// The interpreter is back at its top-level prompt: the request ends here.
    Finished,
}

/// A `Completion` as plain values.
pub enum CompletionView {
    Incomplete,
    InputRequested { originator: Seq<u8>, prompt: Seq<char> },
    Finished,
}

impl View for Completion {
    type V = CompletionView;

    open spec fn view(&self) -> CompletionView {
        match *self {
            Completion::Incomplete => CompletionView::Incomplete,
            Completion::InputRequested { originator, prompt } => CompletionView::InputRequested {
                originator: originator@,
                prompt: prompt@,
            },
            Completion::Finished => CompletionView::Finished,
        }
    }
}

/// The standing of a request of the given originator at `prompt`:
/// incomplete at a continuation prompt, waiting for input at a prompt that
/// differs from the default, finished at the default prompt.
pub open spec fn completion_at(
    originator: Seq<u8>,
    prompt: Seq<char>,
    default_prompt: Option<Seq<char>>,
) -> CompletionView {
    match prompt_kind(prompt, default_prompt) {
        PromptKind::Continuation => CompletionView::Incomplete,
        PromptKind::Other => CompletionView::InputRequested { originator, prompt },
        PromptKind::Default => CompletionView::Finished,
    }
}

/// Decides how the evaluation of the request of the given originator stands,
/// now that the interpreter has shown `prompt`.
pub fn completion_for(originator: &Vec<u8>, prompt: &str, default_prompt: Option<&str>) -> (done:
    Completion)
    ensures
        done@ == completion_at(originator@, prompt@, text_of(default_prompt)),
{
    match classify_prompt(prompt, default_prompt) {
        PromptKind::Continuation => Completion::Incomplete,
        PromptKind::Other => Completion::InputRequested {
            originator: originator.clone(),
            prompt: prompt.to_owned(),
        },
        PromptKind::Default => Completion::Finished,
    }
}

/// Decides how the evaluation of `req` stands, now that the interpreter has
/// shown `prompt`. A request without an originator asks for input under the
/// empty originator.
pub fn complete_execute_request(req: &Request, prompt: &str, default_prompt: Option<&str>) -> (done:
    Completion)
    ensures
        done@ == completion_at(originator_of(*req), prompt@, text_of(default_prompt)),
{
    match req {
        Request::ExecuteCode(_, originator) => completion_for(originator, prompt, default_prompt),
        _ => {
            let originator: Vec<u8> = Vec::new();
            completion_for(&originator, prompt, default_prompt)
        },
    }
}

} // verus!
