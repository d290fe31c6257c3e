use vstd::prelude::*;
use vstd::string::StringExecFns;
use crate::item::FnItem;
use crate::layout::wrapper_text;

verus! {

/// Generates the asynchronous command for a function.
///
/// The command keeps the function's name, parameters and return type. Its
/// body moves the function's body into a closure, submits the closure to
/// Tauri's blocking-task runner, awaits the task, and forwards the outcome:
/// the body's own result, or the task's failure as a string.
///
/// The facets are not inspected. In particular the return type is not
/// checked to accept a string as its error: a command whose return type does
/// not is rejected when it is compiled.
pub fn generate_async_wrapper(input: &FnItem) -> (text: String)
    ensures
        text@ == wrapper_text(input@),
{
    let mut text = String::new();
    text.append("#[tauri::command]");
    text.append("\n");
    text.append("pub async fn ");
    text.append(input.name.as_str());
    text.append("(");
    text.append(input.inputs.as_str());
    text.append(") ");
    text.append(input.output.as_str());
    text.append(" ");
    text.append("{\n    ");
    text.append("tauri::async_runtime::spawn_blocking(");
    text.append("move || {\n        ");
    text.append(input.body.as_str());
    text.append("\n    }");
    text.append(")");
    text.append("\n    ");
    text.append(".await");
    text.append("\n    ");
    text.append(".map_err(|e| e.to_string())");
    text.append("?");
    text.append("\n}");
    text.append("\n");
    text
}

} // verus!
