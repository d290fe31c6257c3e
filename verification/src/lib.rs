//! Turns a synchronous function definition into an asynchronous Tauri command.
//!
//! The generated command has the name, parameter list and return type of the
//! function it was made from. Its body hands that function's body to Tauri's
//! blocking-task runner, awaits the task, and forwards either the body's own
//! outcome or, when the task did not run to completion, the failure as a
//! string.
//!
//! Everything here works on source text. [`generate_async_wrapper`] is the
//! generator proper: it takes the four facets of a function and lays out the
//! command. [`async_wrapper`] starts from the text of an item, which `syn`
//! parses, and fails with the parser's diagnostic when the item is not a
//! function.

pub mod expand;
pub mod generate;
pub mod item;
pub mod layout;
pub mod shape;

pub use expand::{async_wrapper, expand_parsed, SyntaxError};
pub use generate::generate_async_wrapper;
pub use item::{FnItem, FnText};
