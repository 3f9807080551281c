//! Putting a scripting exception into words.

use crate::script::{
    debug_text, exception_args, script_class_is_fixed, script_text, try_text,
};
use rustpython_vm::builtins::PyBaseException;
use rustpython_vm::{PyObjectRef, PyRef, VirtualMachine};
use vstd::prelude::*;

verus! {

/// The characters of each text in `parts`, in order.
pub open spec fn texts(parts: Seq<String>) -> Seq<Seq<char>> {
    Seq::new(parts.len(), |i: int| parts[i]@)
}

/// The parts written one after another, each followed by a line end.
pub open spec fn lines_of(parts: Seq<Seq<char>>) -> Seq<char>
    decreases parts.len(),
{
    if parts.len() == 0 {
        Seq::<char>::empty()
    } else {
        lines_of(parts.drop_last()) + parts.last() + "\n"@
    }
}

/// Whether `obj` is a text for certain: it holds a text, and its class
/// cannot be replaced, so the runtime reads it as the text that it holds.
pub open spec fn is_plain_text(obj: PyObjectRef) -> bool {
    script_class_is_fixed(obj) && script_text(obj) is Some
}

/// Whether `parts` put the arguments `args` of an exception into words: one
/// part for each argument, in order, and for an argument that is a text for
/// certain, the text itself. What stands for any other argument is not
/// fixed; it is how the runtime shows the object to a developer.
pub open spec fn describes(args: Seq<PyObjectRef>, parts: Seq<Seq<char>>) -> bool {
    &&& parts.len() == args.len()
    &&& forall|i: int|
        0 <= i < args.len() ==> (is_plain_text(#[trigger] args[i]) ==> parts[i] == script_text(
            args[i],
        )->0)
}

/// Whether `text` is the message of an exception whose arguments are
/// `args`: the arguments, put into words one after another, each followed
/// by a line end.
pub open spec fn is_message_of(args: Seq<PyObjectRef>, text: Seq<char>) -> bool {
    exists|parts: Seq<Seq<char>>| #[trigger] describes(args, parts) && text == lines_of(parts)
}

/// Whether `text` is the message of some exception.
pub open spec fn is_message(text: Seq<char>) -> bool {
    exists|args: Seq<PyObjectRef>| #[trigger] is_message_of(args, text)
}

/// Writes the parts one after another, each followed by a line end.
pub fn join_lines(parts: &Vec<String>) -> (r: String)
    ensures
        r@ == lines_of(texts(parts@)),
{
    let mut r = String::new();
    let mut i: usize = 0;
    while i < parts.len()
        invariant
            i <= parts@.len(),
            r@ == lines_of(texts(parts@).take(i as int)),
        decreases parts@.len() - i,
    {
        proof {
            let before = texts(parts@).take(i as int);
            let after = texts(parts@).take(i + 1);
            assert(after.drop_last() =~= before);
            assert(after.last() == parts@[i as int]@);
        }
        r.append(parts[i].as_str());
        r.append("\n");
        i += 1;
    }
    proof {
        assert(texts(parts@).take(parts@.len() as int) =~= texts(parts@));
    }
    r
}

/// Puts each argument of an exception into words: a text as it is, any
/// other object as the runtime shows it to a developer.
pub fn describe_arguments(vm: &VirtualMachine, args: &Vec<PyObjectRef>) -> (r: Vec<String>)
    ensures
        describes(args@, texts(r@)),
{
    let mut parts: Vec<String> = Vec::new();
    let mut i: usize = 0;
    while i < args.len()
        invariant
            i <= args@.len(),
            parts@.len() == i,
            forall|k: int|
                0 <= k < i ==> (is_plain_text(#[trigger] args@[k]) ==> parts@[k]@ == script_text(
                    args@[k],
                )->0),
        decreases args@.len() - i,
    {
        let part = match try_text(vm, &args[i]) {
            Some(text) => text,
            None => debug_text(&args[i]),
        };
        parts.push(part);
        i += 1;
    }
    parts
}

/// The message of an exception whose arguments are `args`: each argument
/// put into words and followed by a line end, in the order of the
/// arguments.
pub fn render_arguments(vm: &VirtualMachine, args: &Vec<PyObjectRef>) -> (r: String)
    ensures
        is_message_of(args@, r@),
{
    let parts = describe_arguments(vm, args);
    let r = join_lines(&parts);
    assert(describes(args@, texts(parts@)));
    r
}

/// What the runtime gave, with the arguments of the exception in place of
/// the exception: the arguments that it holds at the moment of the call,
/// in order.
pub fn raised_arguments(outcome: Result<PyObjectRef, PyRef<PyBaseException>>) -> (r: Result<
    PyObjectRef,
    Vec<PyObjectRef>,
>)
    ensures
        outcome matches Ok(value) ==> r == Ok::<PyObjectRef, Vec<PyObjectRef>>(value),
        outcome is Err ==> r is Err,
{
    match outcome {
        Ok(value) => Ok(value),
        Err(error) => Err(exception_args(&error)),
    }
}

/// The message of a scripting exception: its arguments, as they are at the
/// moment of the call, each put into words and followed by a line end.
pub fn unwrap_error(vm: &VirtualMachine, error: PyRef<PyBaseException>) -> (r: String)
    ensures
        is_message(r@),
{
    let args = exception_args(&error);
    let r = render_arguments(vm, &args);
    assert(is_message_of(args@, r@));
    r
}

/// Where every argument is a text for certain, the message is those texts
/// as they are, each followed by a line end.
pub proof fn lemma_text_arguments_are_taken_as_they_are(args: Seq<PyObjectRef>, parts: Seq<Seq<char>>)
    requires
        describes(args, parts),
        forall|i: int| 0 <= i < args.len() ==> is_plain_text(#[trigger] args[i]),
    ensures
        parts == Seq::new(args.len(), |i: int| script_text(args[i])->0),
{
    assert(parts =~= Seq::new(args.len(), |i: int| script_text(args[i])->0));
}

} // verus!
