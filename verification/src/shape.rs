use vstd::prelude::*;
use crate::item::FnText;
use crate::layout::{
    await_step, command_marker, error_mapping, header, signature, submission, unwrap_step,
    work_item, wrapper_body, wrapper_text,
};

verus! {

/// `piece` stands in `text`, character for character, from offset `at` on.
pub open spec fn occurs_at(text: Seq<char>, piece: Seq<char>, at: int) -> bool {
    &&& 0 <= at
    &&& at + piece.len() <= text.len()
    &&& text.subrange(at, at + piece.len()) == piece
}

/// Each of `pieces` stands in `text` at the offset that `starts` gives for
/// it, and each ends before the next one starts.
pub open spec fn laid_out(text: Seq<char>, pieces: Seq<Seq<char>>, starts: Seq<int>) -> bool {
    &&& starts.len() == pieces.len()
    &&& forall|i: int|
        0 <= i < pieces.len() ==> occurs_at(text, #[trigger] pieces[i], starts[i])
    &&& forall|i: int, j: int|
        #![trigger starts[i], starts[j]]
        0 <= i < j < pieces.len() ==> starts[i] + pieces[i].len() <= starts[j]
}

/// `text` holds all of `pieces`, in the order given and without overlap.
pub open spec fn contains_in_order(text: Seq<char>, pieces: Seq<Seq<char>>) -> bool {
    exists|starts: Seq<int>| laid_out(text, pieces, starts)
}

/// Where the header of a generated command starts: on the line after the
/// command marker.
pub open spec fn header_at() -> int {
    18
}

/// Where the signature starts: right after `pub async fn `.
pub open spec fn signature_at() -> int {
    31
}

/// Where the parameter list starts: after the name and the opening
/// parenthesis.
pub open spec fn inputs_at(f: FnText) -> int {
    signature_at() + f.name.len() + 1
}

/// Where the return type starts: after the parameter list, the closing
/// parenthesis and a space.
pub open spec fn output_at(f: FnText) -> int {
    inputs_at(f) + f.inputs.len() + 2
}

/// Where the call that submits the work item starts: on the first line of
/// the command's body.
pub open spec fn submission_at(f: FnText) -> int {
    output_at(f) + f.output.len() + 7
}

/// Where the work item starts: after the runner's name and the opening
/// parenthesis.
pub open spec fn work_item_at(f: FnText) -> int {
    submission_at(f) + 37
}

/// Where the function's body starts: on the line after the closure's
/// opening brace.
pub open spec fn body_at(f: FnText) -> int {
    work_item_at(f) + 18
}

/// Where the command awaits the task.
pub open spec fn await_at(f: FnText) -> int {
    body_at(f) + f.body.len() + 12
}

/// Where the task's failure is turned into a string.
pub open spec fn error_mapping_at(f: FnText) -> int {
    await_at(f) + 11
}

/// Where the task's outcome is unwrapped.
pub open spec fn unwrap_at(f: FnText) -> int {
    error_mapping_at(f) + 27
}

/// The pieces that every generated command is made of, in the order in which
/// they stand in it: the marker that registers it, its header, the call that
/// submits the work item, the step that awaits the task, the expression that
/// turns the task's failure into a string, and the step that unwraps the
/// outcome.
pub open spec fn command_pieces(f: FnText) -> Seq<Seq<char>> {
    seq![
        command_marker(),
        header(f),
        submission(f),
        await_step(),
        error_mapping(),
        unwrap_step(),
    ]
}

/// Where each of the pieces starts.
pub open spec fn command_offsets(f: FnText) -> Seq<int> {
    seq![0, header_at(), submission_at(f), await_at(f), error_mapping_at(f), unwrap_at(f)]
}

/// The lengths of the fixed parts of a generated command.
proof fn lemma_fixed_lengths()
    ensures
        command_marker().len() == 17,
        "\n"@.len() == 1,
        "pub async fn "@.len() == 13,
        "("@.len() == 1,
        ") "@.len() == 2,
        " "@.len() == 1,
        "{\n    "@.len() == 6,
        "tauri::async_runtime::spawn_blocking("@.len() == 37,
        "move || {\n        "@.len() == 18,
        "\n    }"@.len() == 6,
        ")"@.len() == 1,
        "\n    "@.len() == 5,
        await_step().len() == 6,
        error_mapping().len() == 27,
        unwrap_step().len() == 1,
        "\n}"@.len() == 2,
{
    reveal_strlit("#[tauri::command]");
    reveal_strlit("\n");
    reveal_strlit("pub async fn ");
    reveal_strlit("(");
    reveal_strlit(") ");
    reveal_strlit(" ");
    reveal_strlit("{\n    ");
    reveal_strlit("tauri::async_runtime::spawn_blocking(");
    reveal_strlit("move || {\n        ");
    reveal_strlit("\n    }");
    reveal_strlit(")");
    reveal_strlit("\n    ");
    reveal_strlit(".await");
    reveal_strlit(".map_err(|e| e.to_string())");
    reveal_strlit("?");
    reveal_strlit("\n}");
}

/// A piece stands in a text where the text before it ends.
proof fn lemma_occurs_between(before: Seq<char>, piece: Seq<char>, after: Seq<char>)
    ensures
        occurs_at(before + piece + after, piece, before.len() as int),
{
    let text = before + piece + after;
    let at = before.len() as int;
    assert(text.subrange(at, at + piece.len()) =~= piece);
}

/// The generated command has the function's signature: right after
/// `pub async fn ` stands the name, then the parameter list in parentheses,
/// then the return type, each spelled exactly as the function has it.
pub proof fn lemma_signature_preserved(f: FnText)
    ensures
        occurs_at(wrapper_text(f), header(f), header_at()),
        occurs_at(wrapper_text(f), signature(f), signature_at()),
        occurs_at(wrapper_text(f), f.name, signature_at()),
        occurs_at(wrapper_text(f), f.inputs, inputs_at(f)),
        occurs_at(wrapper_text(f), f.output, output_at(f)),
{
    lemma_fixed_lengths();
    let text = wrapper_text(f);
    let lead = command_marker() + "\n"@;
    let rest = " "@ + wrapper_body(f) + "\n"@;
    let keywords = lead + "pub async fn "@;
    assert(text =~= lead + header(f) + rest);
    lemma_occurs_between(lead, header(f), rest);
    assert(text =~= keywords + signature(f) + rest);
    lemma_occurs_between(keywords, signature(f), rest);
    let after_name = "("@ + f.inputs + ") "@ + f.output + rest;
    assert(text =~= keywords + f.name + after_name);
    lemma_occurs_between(keywords, f.name, after_name);
    let before_inputs = keywords + f.name + "("@;
    let after_inputs = ") "@ + f.output + rest;
    assert(text =~= before_inputs + f.inputs + after_inputs);
    lemma_occurs_between(before_inputs, f.inputs, after_inputs);
    let before_output = before_inputs + f.inputs + ") "@;
    assert(text =~= before_output + f.output + rest);
    lemma_occurs_between(before_output, f.output, rest);
}

/// The function's body stands unchanged in the generated command, inside
/// the work item, which stands inside the call that submits it to the
/// runner.
pub proof fn lemma_body_contained(f: FnText)
    ensures
        occurs_at(wrapper_text(f), submission(f), submission_at(f)),
        occurs_at(wrapper_text(f), work_item(f), work_item_at(f)),
        occurs_at(wrapper_text(f), f.body, body_at(f)),
        submission_at(f) < work_item_at(f) < body_at(f),
        body_at(f) + f.body.len() < work_item_at(f) + work_item(f).len(),
        work_item_at(f) + work_item(f).len() < submission_at(f) + submission(f).len(),
{
    lemma_fixed_lengths();
    let text = wrapper_text(f);
    let before_call = command_marker() + "\n"@ + header(f) + " "@ + "{\n    "@;
    let after_call = "\n    "@ + await_step() + "\n    "@ + error_mapping() + unwrap_step()
        + "\n}"@ + "\n"@;
    assert(text =~= before_call + submission(f) + after_call);
    lemma_occurs_between(before_call, submission(f), after_call);
    let before_item = before_call + "tauri::async_runtime::spawn_blocking("@;
    let after_item = ")"@ + after_call;
    assert(text =~= before_item + work_item(f) + after_item);
    lemma_occurs_between(before_item, work_item(f), after_item);
    let before_body = before_item + "move || {\n        "@;
    let after_body = "\n    }"@ + after_item;
    assert(text =~= before_body + f.body + after_body);
    lemma_occurs_between(before_body, f.body, after_body);
}

/// Every generated command holds, in this order and without overlap, the
/// command marker, the asynchronous header with the function's signature,
/// the submission of the work item, the await, the mapping of the task's
/// failure to a string, and the unwrapping of the outcome.
pub proof fn lemma_pieces_in_order(f: FnText)
    ensures
        laid_out(wrapper_text(f), command_pieces(f), command_offsets(f)),
        contains_in_order(wrapper_text(f), command_pieces(f)),
{
    lemma_fixed_lengths();
    lemma_signature_preserved(f);
    lemma_body_contained(f);
    let text = wrapper_text(f);
    let after_marker = "\n"@ + header(f) + " "@ + wrapper_body(f) + "\n"@;
    assert(text =~= Seq::<char>::empty() + command_marker() + after_marker);
    lemma_occurs_between(Seq::<char>::empty(), command_marker(), after_marker);

    let before_await = command_marker() + "\n"@ + header(f) + " "@ + "{\n    "@ + submission(f)
        + "\n    "@;
    let after_await = "\n    "@ + error_mapping() + unwrap_step() + "\n}"@ + "\n"@;
    assert(text =~= before_await + await_step() + after_await);
    lemma_occurs_between(before_await, await_step(), after_await);

    let before_mapping = before_await + await_step() + "\n    "@;
    let after_mapping = unwrap_step() + "\n}"@ + "\n"@;
    assert(text =~= before_mapping + error_mapping() + after_mapping);
    lemma_occurs_between(before_mapping, error_mapping(), after_mapping);

    let before_unwrap = before_mapping + error_mapping();
    let after_unwrap = "\n}"@ + "\n"@;
    assert(text =~= before_unwrap + unwrap_step() + after_unwrap);
    lemma_occurs_between(before_unwrap, unwrap_step(), after_unwrap);

}

/// Generation has no hidden state: functions that agree in every facet,
/// character for character, get the same command, character for character.
pub proof fn lemma_same_input_same_text(first: FnText, second: FnText)
    requires
        first.name == second.name,
        first.inputs == second.inputs,
        first.output == second.output,
        first.body == second.body,
    ensures
        wrapper_text(first) == wrapper_text(second),
{
}

} // verus!
