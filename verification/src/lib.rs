//! The core of a kernel that runs an R interpreter for a front end.
//!
//! The interpreter has one thread and cannot be entered twice. Around it the
//! kernel keeps three things in order, and this library holds the rules of
//! each of them:
//!
//! - `coordinator`, `request` and `console`: requests are handed to the
//!   interpreter one at a time; the prompts of the interpreter tell when a
//!   request has ended; the thread that owns the interpreter lends the
//!   runtime lock to the other threads whenever it waits.
//! - `comm`, `comm_channel`, `comm_msg` and `frontend`: a comm is a
//!   conversation with the front end, with a queue for each direction; the
//!   relay of a comm passes events on and answers requests.
//! - `methods`: the table that says which function of the interpreter
//!   answers a generic question about the values of a class.
//!
//! The library waits for nothing and calls nothing in the interpreter. Where
//! waiting and calling alternate with deciding, it decides: it is told what
//! happened and returns what is to be done.

pub mod comm;
pub mod comm_channel;
pub mod comm_msg;
pub mod console;
pub mod coordinator;
pub mod frontend;
pub mod methods;
pub mod request;
pub mod text;
