//! A pinentry that asks for the secret with `rofi`: the interpreter of the
//! Assuan requests that the agent sends, the options it gathers for the
//! picker, and the replies it gives.
//!
//! The library holds the protocol's logic and does no input or output. It
//! collects its replies in a [`Writer`], and where a request needs work from
//! outside (running the picker, escaping a text for markup, exporting a
//! variable) it says so in a [`Pending`] and takes the outcome back.

pub mod command;
pub mod laws;
pub mod picker;
pub mod session;
pub mod store;
pub mod text;
pub mod writer;

pub use command::{finish_setdesc, handle_command, CommandError, Environment, Pending};
pub use picker::{classify, finish_getpin, PickerOutcome};
pub use session::{initial_args, parse_request, Phase, Session};
pub use store::ArgStore;
pub use writer::Writer;
