use vstd::prelude::*;

verus! {

/// The facets of a function definition that generation reads, each as source
/// text. None of them is inspected: they are carried into the generated
/// command as they are.
#[derive(Debug, Clone, PartialEq, Eq)]
pub struct FnItem {
    /// The function's name.
    pub name: String,
    /// The parameter list, without the surrounding parentheses.
    pub inputs: String,
    /// The return type with its arrow, or nothing where the function
    /// returns no value.
    pub output: String,
    /// The body block, braces included.
    pub body: String,
}

/// A function's facets as sequences of characters.
pub struct FnText {
    pub name: Seq<char>,
    pub inputs: Seq<char>,
    pub output: Seq<char>,
    pub body: Seq<char>,
}

impl View for FnItem {
    type V = FnText;

    open spec fn view(&self) -> FnText {
        FnText { name: self.name@, inputs: self.inputs@, output: self.output@, body: self.body@ }
    }
}

} // verus!
