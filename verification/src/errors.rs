//! What can go wrong at the bridge, and how it is put into words.

use crate::host_value::{HostModel, HostValue};
use vstd::prelude::*;

verus! {

/// A failure of one of the bridge's operations.
///
/// The first, second and fifth carry the text drawn from the exception that
/// the scripting runtime raised. The others are found by the bridge itself,
/// before the runtime is asked to do anything.
#[derive(Debug)]
pub enum BridgeError {
    /// Evaluating source text raised an exception.
    EvalError(String),
    /// Loading a module's source raised an exception.
    ModuleLoadError(String),
    /// No module of this name has been loaded.
    ModuleNotFound(String),
    /// The module has no attribute of this name.
    AttributeNotFound { module: String, attribute: String },
    /// The called function raised an exception.
    CallError(String),
    /// This keyword occurs twice among the keyword arguments.
    DuplicateKeyword(String),
}

/// Whether `part` occurs in `text` as a run of consecutive characters.
pub open spec fn has_infix(text: Seq<char>, part: Seq<char>) -> bool {
    exists|at: int| 0 <= at && at + part.len() <= text.len() && #[trigger] text.subrange(at, at + part.len()) == part
}

impl BridgeError {
    /// The message of the error.
    pub open spec fn message_spec(&self) -> Seq<char> {
        match self {
            BridgeError::EvalError(text) => text@,
            BridgeError::ModuleLoadError(text) => text@,
            BridgeError::ModuleNotFound(name) => "Module not found: "@ + name@,
            BridgeError::AttributeNotFound { module, attribute } => "Attribute not found: "@
                + module@ + "."@ + attribute@,
            BridgeError::CallError(text) => text@,
            BridgeError::DuplicateKeyword(key) => "Duplicate keyword: "@ + key@,
        }
    }

    /// The text that a host is shown for the error: a fixed marker, then the
    /// message.
    pub open spec fn rendering(&self) -> Seq<char> {
        "Error: "@ + self.message_spec()
    }

    /// The message of the error.
    pub fn message(&self) -> (r: String)
        ensures
            r@ == self.message_spec(),
    {
        match self {
            BridgeError::EvalError(text) => text.clone(),
            BridgeError::ModuleLoadError(text) => text.clone(),
            BridgeError::ModuleNotFound(name) => {
                let mut r = String::from_str("Module not found: ");
                r.append(name.as_str());
                r
            },
            BridgeError::AttributeNotFound { module, attribute } => {
                let mut r = String::from_str("Attribute not found: ");
                r.append(module.as_str());
                r.append(".");
                r.append(attribute.as_str());
                r
            },
            BridgeError::CallError(text) => text.clone(),
            BridgeError::DuplicateKeyword(key) => {
                let mut r = String::from_str("Duplicate keyword: ");
                r.append(key.as_str());
                r
            },
        }
    }

    /// The text that a host is shown for the error.
    pub fn render(&self) -> (r: String)
        ensures
            r@ == self.rendering(),
    {
        let mut r = String::from_str("Error: ");
        let message = self.message();
        r.append(message.as_str());
        r
    }

    /// The error as a host value: the text that `render` gives.
    pub fn to_host_value(&self) -> (r: HostValue)
        ensures
            r@ == HostModel::Text(self.rendering()),
    {
        HostValue::Text(self.render())
    }
}

/// A text occurs in whatever is put after a prefix.
pub proof fn lemma_suffix_is_infix(prefix: Seq<char>, rest: Seq<char>)
    ensures
        has_infix(prefix + rest, rest),
        has_infix(prefix + rest, prefix),
{
    let whole = prefix + rest;
    assert(whole.subrange(prefix.len() as int, (prefix.len() + rest.len()) as int) =~= rest);
    assert(whole.subrange(0, 0 + prefix.len() as int) =~= prefix);
}

/// What occurs in a part of a text occurs in the text.
pub proof fn lemma_infix_of_infix(text: Seq<char>, part: Seq<char>, inner: Seq<char>)
    requires
        has_infix(text, part),
        has_infix(part, inner),
    ensures
        has_infix(text, inner),
{
    let a = choose|at: int| 0 <= at && at + part.len() <= text.len() && #[trigger] text.subrange(at, at + part.len()) == part;
    let b = choose|at: int| 0 <= at && at + inner.len() <= part.len() && #[trigger] part.subrange(at, at + inner.len()) == inner;
    assert(text.subrange(a + b, a + b + inner.len()) =~= text.subrange(a, a + part.len()).subrange(
        b,
        b + inner.len(),
    ));
}

/// The rendering of a missing module says "Module not found" and names the
/// module that was asked for.
pub proof fn lemma_module_not_found_names_the_module(name: String)
    ensures
        has_infix(BridgeError::ModuleNotFound(name).rendering(), "Module not found"@),
        has_infix(BridgeError::ModuleNotFound(name).rendering(), name@),
        has_infix(BridgeError::ModuleNotFound(name).message_spec(), "Module not found"@),
        has_infix(BridgeError::ModuleNotFound(name).message_spec(), name@),
{
    let lead = "Module not found: "@;
    let words = "Module not found"@;
    let message = BridgeError::ModuleNotFound(name).message_spec();
    let shown = BridgeError::ModuleNotFound(name).rendering();
    reveal_strlit("Module not found: ");
    reveal_strlit("Module not found");
    assert(lead.subrange(0, 0 + words.len() as int) =~= words);
    assert(has_infix(lead, words));
    lemma_suffix_is_infix(lead, name@);
    lemma_infix_of_infix(message, lead, words);
    lemma_suffix_is_infix("Error: "@, message);
    lemma_infix_of_infix(shown, message, words);
    lemma_infix_of_infix(shown, message, name@);
}

} // verus!
