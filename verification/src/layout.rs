use vstd::prelude::*;
use crate::item::FnText;

verus! {

/// The marker that registers the function that follows as a Tauri command.
pub open spec fn command_marker() -> Seq<char> {
    "#[tauri::command]"@
}

/// A function's name, parenthesised parameter list and return type, as they
/// follow the keyword `fn`.
pub open spec fn signature(f: FnText) -> Seq<char> {
    f.name + "("@ + f.inputs + ") "@ + f.output
}

/// The header of the generated command: public, asynchronous, and with the
/// signature of the function it was made from.
pub open spec fn header(f: FnText) -> Seq<char> {
    "pub async fn "@ + signature(f)
}

/// The unit of work that is handed to the runner: a closure that takes
/// ownership of the parameters and holds the function's body, braces and all.
pub open spec fn work_item(f: FnText) -> Seq<char> {
    "move || {\n        "@ + f.body + "\n    }"@
}

/// The call that submits the work item to Tauri's blocking-task runner.
pub open spec fn submission(f: FnText) -> Seq<char> {
    "tauri::async_runtime::spawn_blocking("@ + work_item(f) + ")"@
}

/// Suspends the command until the submitted task has ended.
pub open spec fn await_step() -> Seq<char> {
    ".await"@
}

/// Turns the failure of a task that did not run to completion into a string.
pub open spec fn error_mapping() -> Seq<char> {
    ".map_err(|e| e.to_string())"@
}

/// Unwraps the task's outcome: a failure of the task ends the command with
/// that failure, otherwise the body's own outcome is the command's.
pub open spec fn unwrap_step() -> Seq<char> {
    "?"@
}

/// The body of the generated command.
pub open spec fn wrapper_body(f: FnText) -> Seq<char> {
    "{\n    "@ + submission(f) + "\n    "@ + await_step() + "\n    "@ + error_mapping()
        + unwrap_step() + "\n}"@
}

/// The whole text of the command generated for `f`.
pub open spec fn wrapper_text(f: FnText) -> Seq<char> {
    command_marker() + "\n"@ + header(f) + " "@ + wrapper_body(f) + "\n"@
}

} // verus!
