use quote::ToTokens;
use vstd::prelude::*;
use crate::generate::generate_async_wrapper;
use crate::item::{FnItem, FnText};
use crate::layout::wrapper_text;

verus! {

/// `syn::Error`, the parser's own error. It is carried from the call that
/// parses to the call that reads its message, and nothing is known of it.
#[verifier::external_type_specification]
#[verifier::external_body]
pub struct ExSynError(syn::Error);

/// Why an item could not be expanded: it is not a function definition. The
/// message is the parser's diagnostic.
#[derive(Debug, Clone, PartialEq, Eq)]
pub struct SyntaxError {
    pub message: String,
}

impl View for SyntaxError {
    type V = Seq<char>;

    open spec fn view(&self) -> Seq<char> {
        self.message@
    }
}

/// Trusted: calls `syn::parse_str` to parse `source` as a `syn::ItemFn`, and
/// renders the name, the parameters, the return type and the block of what
/// was parsed as text, each through its own `ToTokens` or `Display` impl.
///
/// Nothing is claimed of the result: which texts are function definitions is
/// `syn`'s grammar, and how tokens are spelled is up to `proc-macro2`, which
/// hands the work to the compiler when it runs inside a procedural macro.
#[verifier::external_body]
fn parse_item_fn(source: &str) -> (parsed: Result<FnItem, syn::Error>) {
    match syn::parse_str::<syn::ItemFn>(source) {
        Ok(item) => Ok(
            FnItem {
                name: item.sig.ident.to_string(),
                inputs: item.sig.inputs.to_token_stream().to_string(),
                output: item.sig.output.to_token_stream().to_string(),
                body: item.block.to_token_stream().to_string(),
            },
        ),
        Err(error) => Err(error),
    }
}

/// Trusted: the message of a `syn::Error`, as its `Display` impl writes it.
/// Nothing is claimed of the text.
#[verifier::external_body]
fn diagnostic_message(error: &syn::Error) -> (message: String) {
    error.to_string()
}

/// Decides what an expansion yields once the item has been parsed.
///
/// For a function it is the generated command. For anything else it is the
/// parser's diagnostic, unchanged: no command is made up for an item that is
/// not a function.
pub fn expand_parsed(parsed: Result<FnItem, SyntaxError>) -> (expansion: Result<
    String,
    SyntaxError,
>)
    ensures
        match parsed {
            Ok(item) => expansion matches Ok(text) && text@ == wrapper_text(item@),
            Err(error) => expansion == Err::<String, SyntaxError>(error),
        },
{
    match parsed {
        Ok(item) => Ok(generate_async_wrapper(&item)),
        Err(error) => Err(error),
    }
}

/// Expands the attribute on `item`, the source text of the item it was put
/// on. The attribute's own arguments, `_attr`, are accepted and ignored.
///
/// `syn` decides whether `item` is a function definition and what its facets
/// are. Whatever it finds, a text that comes back is the command generated
/// for some function, and never anything else.
pub fn async_wrapper(_attr: &str, item: &str) -> (expansion: Result<String, SyntaxError>)
    ensures
        expansion matches Ok(text) ==> exists|f: FnText| text@ == wrapper_text(f),
{
    let parsed = match parse_item_fn(item) {
        Ok(function) => Ok(function),
        Err(error) => Err(SyntaxError { message: diagnostic_message(&error) }),
    };
    expand_parsed(parsed)
}

} // verus!
