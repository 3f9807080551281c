//! Conversion between scripting objects and host values.
//!
//! From the scripting side the bridge has no tag to go by: an object is read
//! in a fixed order of attempts, and the first reading that the object accepts
//! decides. From the host side every value carries its tag, and conversion is
//! a plain dispatch on it.

use crate::errors::BridgeError;
use crate::host_value::{
    lemma_mapping_view, lemma_sequence_view, models, pair_models, HostModel, HostValue,
};
use crate::script::{
    call_keywords, call_positional, dict_entries, exception_object, is_float, keyword_names,
    keyword_view, list_items, made_class, made_items, made_message, new_bool, new_bytes,
    new_call_args, new_dict, new_int, new_list, new_name_error, new_native_function, new_none,
    new_plain_exception, new_syntax_error, new_text, new_type_error, no_reading, script_bool,
    script_class_is_fixed, script_int, script_is_dict, script_is_float, script_is_list,
    script_is_none, script_text, script_truth, set_item, split_call_args, try_bool, try_int,
    try_text,
};
use rustpython_vm::builtins::PyBaseException;
use rustpython_vm::function::FuncArgs;
use rustpython_vm::{PyObjectRef, PyRef, VirtualMachine};
use vstd::prelude::*;

verus! {

/// How many levels of nested sequences and mappings `to_host` follows: as
/// many as the machine can count. What lies deeper is read as `Nil`.
pub const DEPTH_LIMIT: usize = usize::MAX;

/// The readings of a scripting object, in the order in which they are
/// attempted.
pub enum Reading {
    Integer,
    Float,
    Text,
    Boolean,
    Sequence,
    Mapping,
    /// No reading accepts the object.
    Unrecognized,
}

/// The first reading that is there, in the fixed order: integer, float,
/// text, boolean, sequence, mapping. `Unrecognized` where none is there.
pub open spec fn first_of(integer: bool, float: bool, text: bool, boolean: bool, list: bool, dict: bool) -> Reading {
    if integer {
        Reading::Integer
    } else if float {
        Reading::Float
    } else if text {
        Reading::Text
    } else if boolean {
        Reading::Boolean
    } else if list {
        Reading::Sequence
    } else if dict {
        Reading::Mapping
    } else {
        Reading::Unrecognized
    }
}

/// The first reading, in the fixed order, that what `obj` holds allows.
///
/// The order decides for objects that allow more than one reading: `True`
/// and `False` hold integers, so they are read as `1` and `0`. An integer
/// too large for 64 bits is no float and no text, and is read as the
/// boolean that says whether it is zero.
pub open spec fn reading_of(obj: PyObjectRef) -> Reading {
    first_of(
        script_int(obj) is Some,
        script_is_float(obj),
        script_text(obj) is Some,
        script_bool(obj) is Some,
        script_is_list(obj),
        script_is_dict(obj),
    )
}

/// The reading that decides, given what each of the six attempts on an
/// object gave: the first, in the fixed order, that succeeded.
pub fn first_reading(
    integer: &Option<i64>,
    float: bool,
    text: &Option<String>,
    boolean: &Option<bool>,
    list: bool,
    dict: bool,
) -> (r: Reading)
    ensures
        r == first_of(*integer is Some, float, *text is Some, *boolean is Some, list, dict),
{
    if integer.is_some() {
        Reading::Integer
    } else if float {
        Reading::Float
    } else if text.is_some() {
        Reading::Text
    } else if boolean.is_some() {
        Reading::Boolean
    } else if list {
        Reading::Sequence
    } else if dict {
        Reading::Mapping
    } else {
        Reading::Unrecognized
    }
}

/// Whether `m` is a host value that reading can give at all, with `depth`
/// levels of nesting still to be followed: it holds no bytes, no callable
/// and no error, each float in it holds a float, and it is nested no deeper
/// than `depth`.
pub open spec fn readable(depth: nat, m: HostModel) -> bool
    decreases depth,
{
    match m {
        HostModel::Nil => true,
        HostModel::Bool(_) => true,
        HostModel::Int(i) => i64::MIN <= i <= i64::MAX,
        HostModel::Float(handle) => script_is_float(handle),
        HostModel::Text(_) => true,
        HostModel::Sequence(items) => depth > 0 && forall|i: int|
            0 <= i < items.len() ==> readable((depth - 1) as nat, #[trigger] items[i]),
        HostModel::Mapping(entries) => depth > 0 && forall|i: int|
            0 <= i < entries.len() ==> readable((depth - 1) as nat, (#[trigger] entries[i]).0)
                && readable((depth - 1) as nat, entries[i].1),
        HostModel::Bytes(_) => false,
        HostModel::Callable(_) => false,
        HostModel::Error { .. } => false,
    }
}

/// Whether what `obj` holds allows reading it as `r`: an integer, a text or
/// a boolean is the one that `obj` holds, a float is `obj` itself, and a
/// sequence or mapping comes from a list or dictionary.
pub open spec fn supports(obj: PyObjectRef, r: HostModel) -> bool {
    match r {
        HostModel::Nil => true,
        HostModel::Bool(b) => script_bool(obj) == Some(b),
        HostModel::Int(i) => script_int(obj) is Some && script_int(obj)->0 == i,
        HostModel::Float(handle) => handle == obj && script_is_float(obj),
        HostModel::Text(s) => script_text(obj) == Some(s),
        HostModel::Sequence(_) => script_is_list(obj),
        HostModel::Mapping(_) => script_is_dict(obj),
        HostModel::Bytes(_) => false,
        HostModel::Callable(_) => false,
        HostModel::Error { .. } => false,
    }
}

/// Whether `r` is a host value that reading `obj` may give, with `depth`
/// levels of nesting still to be followed.
///
/// Whatever is given is readable and is allowed by what `obj` holds. It is
/// the first reading in the fixed order, with two reservations. An object
/// that holds an integer, a float or a text is read as that for certain
/// only where its class cannot be replaced: the runtime asks the class
/// first, and a script may have given the object a class that says no. And
/// of a sequence or mapping this fixes the tag only: the elements of a list
/// and the entries of a dictionary are whatever the runtime holds at the
/// moment of reading. `read_items` and `read_entries` say what becomes of
/// them once they are handed out, and `first_reading` says which reading
/// decides for every outcome of the attempts.
pub open spec fn host_image(obj: PyObjectRef, depth: nat, r: HostModel) -> bool {
    &&& readable(depth, r)
    &&& supports(obj, r)
    &&& match reading_of(obj) {
        Reading::Integer => script_class_is_fixed(obj) ==> r is Int,
        Reading::Float => script_class_is_fixed(obj) ==> r is Float,
        Reading::Text => script_class_is_fixed(obj) ==> r is Text,
        Reading::Boolean => r is Bool,
        Reading::Sequence => if depth == 0 {
            r == HostModel::Nil
        } else {
            r is Sequence
        },
        Reading::Mapping => if depth == 0 {
            r == HostModel::Nil
        } else {
            r is Mapping
        },
        Reading::Unrecognized => r == HostModel::Nil,
    }
}

/// Whether `obj` is the scripting object that stands for the host value
/// `v`: `None` for `Nil`, `True` or `False` for a boolean, an `int` that is
/// no boolean for an integer, a `str` for a text, and a list made with the
/// objects that stand for its items, in order, for a sequence. A float and
/// a callable are the objects that they hold. Of the dictionary for a
/// mapping this fixes only that it is one: a dictionary is filled entry by
/// entry, and `pair_objects` says which pairs are stored.
pub open spec fn scripting_image(v: HostModel, obj: PyObjectRef) -> bool
    decreases v,
{
    match v {
        HostModel::Nil => script_is_none(obj) && no_reading(obj),
        HostModel::Bool(b) => {
            &&& script_truth(obj) == Some(b)
            &&& script_int(obj) == Some(if b { 1i64 } else { 0i64 })
            &&& script_class_is_fixed(obj)
        },
        HostModel::Int(i) => {
            &&& script_int(obj) is Some
            &&& script_int(obj)->0 == i
            &&& script_truth(obj) is None
            &&& script_class_is_fixed(obj)
        },
        HostModel::Float(handle) => obj == handle,
        HostModel::Text(s) => {
            &&& reading_of(obj) == Reading::Text
            &&& script_text(obj) == Some(s)
            &&& script_class_is_fixed(obj)
        },
        HostModel::Sequence(items) => {
            &&& reading_of(obj) == Reading::Sequence
            &&& made_items(obj).len() == items.len()
            &&& forall|i: int|
                0 <= i < items.len() ==> scripting_image(items[i], #[trigger] made_items(obj)[i])
        },
        HostModel::Mapping(_) => reading_of(obj) == Reading::Mapping,
        HostModel::Bytes(_) => reading_of(obj) == Reading::Unrecognized,
        HostModel::Callable(handle) => obj == handle,
        HostModel::Error { .. } => reading_of(obj) == Reading::Unrecognized,
    }
}

/// Reads a scripting object as a host value, following nested sequences and
/// mappings for `depth` levels.
///
/// Each of the six attempts only looks at the object, so all are made, and
/// `first_reading` says which of those that succeeded decides.
pub fn to_host_within(vm: &VirtualMachine, obj: &PyObjectRef, depth: usize) -> (r: HostValue)
    ensures
        host_image(*obj, depth as nat, r@),
    decreases depth, 0nat,
{
    let integer = try_int(vm, obj);
    let float = is_float(vm, obj);
    let text = try_text(vm, obj);
    let boolean = try_bool(vm, obj);
    let items = list_items(obj);
    let entries = dict_entries(obj);
    match first_reading(&integer, float, &text, &boolean, items.is_some(), entries.is_some()) {
        Reading::Integer => HostValue::Int(integer.unwrap()),
        Reading::Float => HostValue::Float(obj.clone()),
        Reading::Text => HostValue::Text(text.unwrap()),
        Reading::Boolean => HostValue::Bool(boolean.unwrap()),
        Reading::Sequence => {
            if depth == 0 {
                HostValue::Nil
            } else {
                let parts = read_items(vm, &items.unwrap(), depth - 1);
                proof {
                    lemma_sequence_view(parts);
                }
                HostValue::Sequence(parts)
            }
        },
        Reading::Mapping => {
            if depth == 0 {
                HostValue::Nil
            } else {
                let parts = read_entries(vm, &entries.unwrap(), depth - 1);
                proof {
                    lemma_mapping_view(parts);
                }
                HostValue::Mapping(parts)
            }
        },
        Reading::Unrecognized => HostValue::Nil,
    }
}

/// Reads the elements that a list handed out, each as a host value, in
/// order, following nesting for `depth` levels in each.
pub fn read_items(vm: &VirtualMachine, items: &Vec<PyObjectRef>, depth: usize) -> (r: Vec<HostValue>)
    ensures
        r@.len() == items@.len(),
        forall|i: int| 0 <= i < items@.len() ==> host_image(items@[i], depth as nat, #[trigger] r@[i]@),
    decreases depth, 1nat,
{
    let mut out: Vec<HostValue> = Vec::new();
    let mut i: usize = 0;
    while i < items.len()
        invariant
            i <= items@.len(),
            out@.len() == i,
            forall|k: int| 0 <= k < i ==> host_image(items@[k], depth as nat, #[trigger] out@[k]@),
        decreases items@.len() - i,
    {
        let part = to_host_within(vm, &items[i], depth);
        out.push(part);
        i += 1;
    }
    out
}

/// Reads the entries that a dictionary handed out, key and value each as a
/// host value, in order, following nesting for `depth` levels in each.
pub fn read_entries(vm: &VirtualMachine, entries: &Vec<(PyObjectRef, PyObjectRef)>, depth: usize) -> (r:
    Vec<(HostValue, HostValue)>)
    ensures
        r@.len() == entries@.len(),
        forall|i: int|
            0 <= i < entries@.len() ==> host_image(entries@[i].0, depth as nat, (#[trigger] r@[i]).0@)
                && host_image(entries@[i].1, depth as nat, r@[i].1@),
    decreases depth, 1nat,
{
    let mut out: Vec<(HostValue, HostValue)> = Vec::new();
    let mut i: usize = 0;
    while i < entries.len()
        invariant
            i <= entries@.len(),
            out@.len() == i,
            forall|k: int|
                0 <= k < i ==> host_image(entries@[k].0, depth as nat, (#[trigger] out@[k]).0@)
                    && host_image(entries@[k].1, depth as nat, out@[k].1@),
        decreases entries@.len() - i,
    {
        let key = to_host_within(vm, &entries[i].0, depth);
        let value = to_host_within(vm, &entries[i].1, depth);
        out.push((key, value));
        i += 1;
    }
    out
}

/// Reads a scripting object as a host value.
///
/// The readings are attempted in this order, and the first that the object
/// accepts decides: integer, float, text, boolean, sequence, mapping. An
/// object that accepts none of them is read as `Nil`.
pub fn to_host(vm: &VirtualMachine, obj: &PyObjectRef) -> (r: HostValue)
    ensures
        host_image(*obj, DEPTH_LIMIT as nat, r@),
{
    to_host_within(vm, obj, DEPTH_LIMIT)
}

/// Whether two texts hold the same characters.
pub fn same_text(a: &str, b: &str) -> (r: bool)
    ensures
        r == (a@ == b@),
{
    a.to_owned() == b.to_owned()
}

/// The classes of the scripting exceptions that stand for host errors.
#[derive(Debug, Clone, Copy, PartialEq, Eq)]
pub enum ExceptionClass {
    TypeError,
    NameError,
    SyntaxError,
    Exception,
}

impl ExceptionClass {
    /// The name of the class in the scripting language.
    pub open spec fn name(self) -> Seq<char> {
        match self {
            ExceptionClass::TypeError => "TypeError"@,
            ExceptionClass::NameError => "NameError"@,
            ExceptionClass::SyntaxError => "SyntaxError"@,
            ExceptionClass::Exception => "Exception"@,
        }
    }
}

/// The scripting exception class that stands for a host error of the kind
/// called `kind`.
pub open spec fn exception_class_of(kind: Seq<char>) -> ExceptionClass {
    if kind == "TypeError"@ {
        ExceptionClass::TypeError
    } else if kind == "ReferenceError"@ {
        ExceptionClass::NameError
    } else if kind == "SyntaxError"@ {
        ExceptionClass::SyntaxError
    } else {
        ExceptionClass::Exception
    }
}

/// The scripting exception class that stands for a host error of the kind
/// called `kind`: a type error stays a type error, a reference error
/// becomes a name error, a syntax error stays a syntax error, and every
/// other kind becomes a plain exception.
pub fn exception_class_for(kind: &str) -> (r: ExceptionClass)
    ensures
        r == exception_class_of(kind@),
{
    if same_text(kind, "TypeError") {
        ExceptionClass::TypeError
    } else if same_text(kind, "ReferenceError") {
        ExceptionClass::NameError
    } else if same_text(kind, "SyntaxError") {
        ExceptionClass::SyntaxError
    } else {
        ExceptionClass::Exception
    }
}

/// Turns a host error into a scripting exception of the matching class with
/// `message` as its only argument.
pub fn host_error_to_exception(vm: &VirtualMachine, kind: &str, message: &str) -> (r: PyRef<
    PyBaseException,
>)
    ensures
        made_class(r) == exception_class_of(kind@).name(),
        made_message(r) == message@,
{
    match exception_class_for(kind) {
        ExceptionClass::TypeError => new_type_error(vm, message),
        ExceptionClass::NameError => new_name_error(vm, message),
        ExceptionClass::SyntaxError => new_syntax_error(vm, message),
        ExceptionClass::Exception => new_plain_exception(vm, message),
    }
}

/// Turns a host value into a scripting object, by its tag.
///
/// `Nil` becomes `None`. A float and a callable are the scripting objects
/// that they hold. Bytes become a `bytes` object. A sequence becomes a list
/// of the objects for its items. The entries of a mapping are stored in a
/// dictionary in order; an entry whose key the runtime cannot hash is left
/// out, and of two entries with equal keys the value of the later one
/// stays, at the place of the earlier one. An error becomes an exception
/// object of the class that `exception_class_for` names.
pub fn to_scripting(vm: &VirtualMachine, value: &HostValue) -> (r: PyObjectRef)
    ensures
        scripting_image(value@, r),
    decreases value,
{
    match value {
        HostValue::Nil => new_none(vm),
        HostValue::Bool(b) => new_bool(vm, *b),
        HostValue::Int(i) => new_int(vm, *i),
        HostValue::Float(handle) => handle.clone(),
        HostValue::Text(s) => new_text(vm, s.as_str()),
        HostValue::Sequence(items) => {
            proof {
                assert(decreases_to!(*value => value->Sequence_0));
                lemma_sequence_view(*items);
            }
            let objects = positional_arguments(vm, items);
            new_list(vm, objects)
        },
        HostValue::Mapping(entries) => {
            proof {
                assert(decreases_to!(*value => value->Mapping_0));
            }
            let pairs = pair_objects(vm, entries);
            let dict = new_dict(vm);
            let mut i: usize = 0;
            while i < pairs.len()
                invariant
                    i <= pairs@.len(),
                decreases pairs@.len() - i,
            {
                let _ = set_item(vm, &dict, &pairs[i].0, pairs[i].1.clone());
                i += 1;
            }
            dict
        },
        HostValue::Bytes(bytes) => new_bytes(vm, bytes.clone()),
        HostValue::Callable(handle) => handle.clone(),
        HostValue::Error { kind, message } => {
            exception_object(host_error_to_exception(vm, kind.as_str(), message.as_str()))
        },
    }
}

/// Turns the pairs of a mapping into pairs of scripting objects, in order:
/// for each pair the object that stands for the key and the object that
/// stands for the value.
pub fn pair_objects(vm: &VirtualMachine, entries: &Vec<(HostValue, HostValue)>) -> (r: Vec<
    (PyObjectRef, PyObjectRef),
>)
    ensures
        r@.len() == entries@.len(),
        forall|i: int|
            0 <= i < entries@.len() ==> scripting_image(entries@[i].0@, (#[trigger] r@[i]).0)
                && scripting_image(entries@[i].1@, r@[i].1),
    decreases entries,
{
    let mut out: Vec<(PyObjectRef, PyObjectRef)> = Vec::new();
    let mut i: usize = 0;
    while i < entries.len()
        invariant
            i <= entries@.len(),
            out@.len() == i,
            forall|k: int|
                0 <= k < i ==> scripting_image(entries@[k].0@, (#[trigger] out@[k]).0)
                    && scripting_image(entries@[k].1@, out@[k].1),
        decreases entries@.len() - i,
    {
        proof {
            assert(decreases_to!(*entries => entries[i as int]));
            assert(decreases_to!(entries[i as int] => entries[i as int].0));
            assert(decreases_to!(entries[i as int] => entries[i as int].1));
        }
        let key = to_scripting(vm, &entries[i].0);
        let item = to_scripting(vm, &entries[i].1);
        out.push((key, item));
        i += 1;
    }
    out
}

/// The keys of `entries`, in order.
pub open spec fn host_keyword_names(entries: Seq<(String, HostValue)>) -> Seq<Seq<char>> {
    Seq::new(entries.len(), |i: int| entries[i].0@)
}

/// Whether the key at place `j` also stands at an earlier place.
pub open spec fn repeats_earlier(names: Seq<Seq<char>>, j: int) -> bool {
    exists|i: int| 0 <= i < j && #[trigger] names[i] == names[j]
}

/// Whether `j` is the first place whose key also stands at an earlier place.
pub open spec fn first_repeat(names: Seq<Seq<char>>, j: int) -> bool {
    &&& 0 <= j < names.len()
    &&& repeats_earlier(names, j)
    &&& forall|k: int| 0 <= k < j ==> !repeats_earlier(names, k)
}

/// Whether `e` is the failure for the first key of `names` that is used
/// again: a `DuplicateKeyword` that carries that key.
pub open spec fn reports_repeat(names: Seq<Seq<char>>, e: BridgeError) -> bool {
    &&& e matches BridgeError::DuplicateKeyword(key)
    &&& exists|j: int| first_repeat(names, j) && #[trigger] names[j] == key@
}

/// Keys without a repeat are distinct, and keys with one are not.
pub proof fn lemma_repeats_and_duplicates(names: Seq<Seq<char>>)
    ensures
        names.no_duplicates() <==> forall|j: int| 0 <= j < names.len() ==> !repeats_earlier(names, j),
{
    if names.no_duplicates() {
        assert forall|j: int| 0 <= j < names.len() implies !repeats_earlier(names, j) by {
            if repeats_earlier(names, j) {
                let i = choose|i: int| 0 <= i < j && #[trigger] names[i] == names[j];
                assert(names[i] != names[j]);
            }
        }
    }
    if forall|j: int| 0 <= j < names.len() ==> !repeats_earlier(names, j) {
        assert forall|i: int, j: int| 0 <= i < names.len() && 0 <= j < names.len() && i != j implies names[i]
            != names[j] by {
            if names[i] == names[j] {
                if i < j {
                    assert(repeats_earlier(names, j));
                } else {
                    assert(repeats_earlier(names, i));
                }
            }
        }
    }
}

/// The first place among the keyword arguments whose key was used before.
pub fn find_duplicate_keyword(kwargs: &Vec<(String, HostValue)>) -> (r: Option<usize>)
    ensures
        match r {
            Some(j) => first_repeat(host_keyword_names(kwargs@), j as int),
            None => host_keyword_names(kwargs@).no_duplicates(),
        },
{
    let ghost names = host_keyword_names(kwargs@);
    let mut j: usize = 0;
    while j < kwargs.len()
        invariant
            j <= kwargs@.len(),
            names == host_keyword_names(kwargs@),
            forall|k: int| 0 <= k < j ==> !repeats_earlier(names, k),
        decreases kwargs@.len() - j,
    {
        let mut i: usize = 0;
        while i < j
            invariant
                i <= j,
                j < kwargs@.len(),
                names == host_keyword_names(kwargs@),
                forall|k: int| 0 <= k < j ==> !repeats_earlier(names, k),
                forall|k: int| 0 <= k < i ==> names[k] != names[j as int],
            decreases j - i,
        {
            if kwargs[i].0 == kwargs[j].0 {
                proof {
                    assert(names[i as int] == names[j as int]);
                    assert(repeats_earlier(names, j as int));
                }
                return Some(j);
            }
            i += 1;
        }
        j += 1;
    }
    proof {
        lemma_repeats_and_duplicates(names);
    }
    None
}

/// Turns host values into the scripting objects that stand for them, in
/// order: the positional arguments of a call, or the items of a sequence.
pub fn positional_arguments(vm: &VirtualMachine, args: &Vec<HostValue>) -> (r: Vec<PyObjectRef>)
    ensures
        r@.len() == args@.len(),
        forall|i: int| 0 <= i < args@.len() ==> scripting_image(#[trigger] args@[i]@, r@[i]),
    decreases args,
{
    let mut out: Vec<PyObjectRef> = Vec::new();
    let mut i: usize = 0;
    while i < args.len()
        invariant
            i <= args@.len(),
            out@.len() == i,
            forall|k: int| 0 <= k < i ==> scripting_image(#[trigger] args@[k]@, out@[k]),
        decreases args@.len() - i,
    {
        proof {
            assert(decreases_to!(*args => args[i as int]));
        }
        let part = to_scripting(vm, &args[i]);
        out.push(part);
        i += 1;
    }
    out
}

/// Whether `entries` are the keyword arguments `kwargs` as scripting
/// objects: the same keys in the same order, each with an object that
/// stands for its value.
pub open spec fn keywords_image(kwargs: Seq<(String, HostValue)>, entries: Seq<(String, PyObjectRef)>) -> bool {
    &&& entries.len() == kwargs.len()
    &&& forall|i: int|
        0 <= i < kwargs.len() ==> (#[trigger] entries[i]).0@ == kwargs[i].0@ && scripting_image(
            kwargs[i].1@,
            entries[i].1,
        )
}

/// Turns the keyword arguments of a call into scripting objects, in order.
///
/// A key may be used once. Where a key is used again, nothing is converted,
/// and the failure names the key at the first place where that happens.
pub fn keyword_arguments(vm: &VirtualMachine, kwargs: &Vec<(String, HostValue)>) -> (r: Result<
    Vec<(String, PyObjectRef)>,
    BridgeError,
>)
    ensures
        match r {
            Ok(entries) => host_keyword_names(kwargs@).no_duplicates() && keywords_image(kwargs@, entries@),
            Err(e) => reports_repeat(host_keyword_names(kwargs@), e),
        },
{
    match find_duplicate_keyword(kwargs) {
        Some(j) => {
            proof {
                assert(host_keyword_names(kwargs@)[j as int] == kwargs@[j as int].0@);
            }
            Err(BridgeError::DuplicateKeyword(kwargs[j].0.clone()))
        },
        None => {
            let mut out: Vec<(String, PyObjectRef)> = Vec::new();
            let mut i: usize = 0;
            while i < kwargs.len()
                invariant
                    i <= kwargs@.len(),
                    out@.len() == i,
                    forall|k: int|
                        0 <= k < i ==> (#[trigger] out@[k]).0@ == kwargs@[k].0@ && scripting_image(
                            kwargs@[k].1@,
                            out@[k].1,
                        ),
                decreases kwargs@.len() - i,
            {
                let part = to_scripting(vm, &kwargs[i].1);
                out.push((kwargs[i].0.clone(), part));
                i += 1;
            }
            Ok(out)
        },
    }
}

/// Whether `args` are the arguments of a call with the positional arguments
/// `positional` and the keyword arguments `kwargs`.
pub open spec fn call_image(positional: Seq<HostValue>, kwargs: Seq<(String, HostValue)>, args: FuncArgs) -> bool {
    &&& call_positional(args).len() == positional.len()
    &&& forall|i: int|
        0 <= i < positional.len() ==> scripting_image(#[trigger] positional[i]@, call_positional(args)[i])
    &&& call_keywords(args).len() == kwargs.len()
    &&& forall|i: int|
        0 <= i < kwargs.len() ==> (#[trigger] call_keywords(args)[i]).0 == kwargs[i].0@ && scripting_image(
            kwargs[i].1@,
            call_keywords(args)[i].1,
        )
}

/// Turns the arguments of a call into the form that the runtime takes: the
/// positional arguments in order, then the keyword arguments in order.
/// Fails, with the key, where a keyword is used twice.
pub fn call_arguments(vm: &VirtualMachine, positional: &Vec<HostValue>, kwargs: &Vec<(String, HostValue)>) -> (r:
    Result<FuncArgs, BridgeError>)
    ensures
        match r {
            Ok(args) => host_keyword_names(kwargs@).no_duplicates() && call_image(positional@, kwargs@, args),
            Err(e) => reports_repeat(host_keyword_names(kwargs@), e),
        },
{
    match keyword_arguments(vm, kwargs) {
        Ok(entries) => {
            let objects = positional_arguments(vm, positional);
            proof {
                assert(keyword_names(entries@) =~= host_keyword_names(kwargs@));
            }
            let args = new_call_args(objects, entries);
            proof {
                assert forall|i: int| 0 <= i < kwargs@.len() implies (#[trigger] call_keywords(args)[i]).0
                    == kwargs@[i].0@ && scripting_image(kwargs@[i].1@, call_keywords(args)[i].1) by {
                    assert(call_keywords(args)[i] == keyword_view(entries@)[i]);
                    assert(entries@[i].0@ == kwargs@[i].0@);
                }
            }
            Ok(args)
        },
        Err(e) => Err(e),
    }
}

/// Whether `f` may be called with every list of positional arguments and
/// every list of keyword arguments.
pub open spec fn accepts_every_call<F>(f: F) -> bool where
    F: Fn(&VirtualMachine, Vec<HostValue>, Vec<(String, HostValue)>) -> Result<HostValue, HostValue>,
 {
    forall|vm: &VirtualMachine, args: Vec<HostValue>, kwargs: Vec<(String, HostValue)>|
        call_requires(f, (vm, args, kwargs))
}

/// Whether `args` and `kwargs` are what reading the arguments of a call
/// gives: each positional argument read in order, and each keyword argument
/// read under its key, in order.
pub open spec fn arguments_read(call: FuncArgs, args: Seq<HostValue>, kwargs: Seq<(String, HostValue)>) -> bool {
    &&& args.len() == call_positional(call).len()
    &&& forall|i: int|
        0 <= i < args.len() ==> host_image(call_positional(call)[i], DEPTH_LIMIT as nat, #[trigger] args[i]@)
    &&& kwargs.len() == call_keywords(call).len()
    &&& forall|i: int|
        0 <= i < kwargs.len() ==> (#[trigger] kwargs[i]).0@ == call_keywords(call)[i].0 && host_image(
            call_keywords(call)[i].1,
            DEPTH_LIMIT as nat,
            kwargs[i].1@,
        )
}

/// Reads the arguments of a call as host values.
pub fn read_arguments(vm: &VirtualMachine, call: FuncArgs) -> (r: (Vec<HostValue>, Vec<(String, HostValue)>))
    ensures
        arguments_read(call, r.0@, r.1@),
{
    let (positional, keywords) = split_call_args(call);
    let mut args: Vec<HostValue> = Vec::new();
    let mut i: usize = 0;
    while i < positional.len()
        invariant
            i <= positional@.len(),
            args@.len() == i,
            forall|k: int|
                0 <= k < i ==> host_image(positional@[k], DEPTH_LIMIT as nat, #[trigger] args@[k]@),
        decreases positional@.len() - i,
    {
        let part = to_host(vm, &positional[i]);
        args.push(part);
        i += 1;
    }
    let mut kwargs: Vec<(String, HostValue)> = Vec::new();
    let mut j: usize = 0;
    while j < keywords.len()
        invariant
            j <= keywords@.len(),
            kwargs@.len() == j,
            forall|k: int|
                0 <= k < j ==> (#[trigger] kwargs@[k]).0@ == keywords@[k].0@ && host_image(
                    keywords@[k].1,
                    DEPTH_LIMIT as nat,
                    kwargs@[k].1@,
                ),
        decreases keywords@.len() - j,
    {
        let part = to_host(vm, &keywords[j].1);
        kwargs.push((keywords[j].0.clone(), part));
        j += 1;
    }
    proof {
        assert forall|k: int| 0 <= k < kwargs@.len() implies (#[trigger] kwargs@[k]).0@ == call_keywords(
            call,
        )[k].0 && host_image(call_keywords(call)[k].1, DEPTH_LIMIT as nat, kwargs@[k].1@) by {
            assert(keyword_view(keywords@)[k] == call_keywords(call)[k]);
        }
    }
    (args, kwargs)
}

/// The scripting exception that stands for what a host function failed
/// with: the exception of the matching class for an error, a plain
/// exception with the text for a text, and a plain exception without a
/// message for any other value.
pub fn host_failure_to_exception(vm: &VirtualMachine, failure: &HostValue) -> (r: PyRef<PyBaseException>)
    ensures
        made_class(r) == exception_class_of(failure_words_of(failure@).0).name(),
        made_message(r) == failure_words_of(failure@).1,
{
    let (kind, message) = failure_words(failure);
    host_error_to_exception(vm, kind, message)
}

/// The kind and the message of the error that stands for the failure `v`
/// of a host function: those of an error, no kind and the text for a text,
/// and no kind and no message for any other value.
pub open spec fn failure_words_of(v: HostModel) -> (Seq<char>, Seq<char>) {
    match v {
        HostModel::Error { kind, message } => (kind, message),
        HostModel::Text(text) => (""@, text),
        _ => (""@, ""@),
    }
}

/// The kind and the message of the error that stands for what a host
/// function failed with.
pub fn failure_words(failure: &HostValue) -> (r: (&str, &str))
    ensures
        r.0@ == failure_words_of(failure@).0,
        r.1@ == failure_words_of(failure@).1,
{
    match failure {
        HostValue::Error { kind, message } => (kind.as_str(), message.as_str()),
        HostValue::Text(text) => ("", text.as_str()),
        _ => ("", ""),
    }
}

/// Whether `r` raises the exception that stands for the failure `failure`
/// of a host function: an exception made with the class and the message
/// that `failure_words_of` and `exception_class_of` give.
pub open spec fn raises(r: Result<PyObjectRef, PyRef<PyBaseException>>, failure: HostModel) -> bool {
    &&& r matches Err(error)
    &&& made_class(error) == exception_class_of(failure_words_of(failure).0).name()
    &&& made_message(error) == failure_words_of(failure).1
}

/// Calls the host function `f` on behalf of a script: the arguments of the
/// call are read as host values, `f` is called once with them and with the
/// virtual machine, and what it returns is turned into a scripting object.
/// Where `f` fails, the failure is raised as the scripting exception that
/// `host_failure_to_exception` makes of it.
pub fn invoke_host_function<F>(vm: &VirtualMachine, f: &F, call: FuncArgs) -> (r: Result<
    PyObjectRef,
    PyRef<PyBaseException>,
>) where F: Fn(&VirtualMachine, Vec<HostValue>, Vec<(String, HostValue)>) -> Result<HostValue, HostValue>
    requires
        accepts_every_call(*f),
    ensures
        exists|args: Vec<HostValue>, kwargs: Vec<(String, HostValue)>, given: Result<HostValue, HostValue>|
            {
                &&& arguments_read(call, args@, kwargs@)
                &&& #[trigger] call_ensures(*f, (vm, args, kwargs), given)
                &&& given matches Ok(value) ==> (r matches Ok(obj) && scripting_image(value@, obj))
                &&& given matches Err(failure) ==> raises(r, failure@)
            },
{
    let (args, kwargs) = read_arguments(vm, call);
    let ghost seen_args = args;
    let ghost seen_kwargs = kwargs;
    let given = f(vm, args, kwargs);
    let r = match &given {
        Ok(value) => Ok(to_scripting(vm, value)),
        Err(failure) => Err(host_failure_to_exception(vm, failure)),
    };
    proof {
        assert(call_ensures(*f, (vm, seen_args, seen_kwargs), given));
    }
    r
}

/// Makes the scripting callable called `name` that reaches the host
/// function `f`, as `invoke_host_function` says. Read back as a host
/// value, the callable is `Nil`.
pub fn make_callable<F>(vm: &VirtualMachine, name: &str, f: F) -> (r: PyObjectRef) where
    F: Fn(&VirtualMachine, Vec<HostValue>, Vec<(String, HostValue)>) -> Result<HostValue, HostValue> + 'static,

    requires
        accepts_every_call(f),
    ensures
        reading_of(r) == Reading::Unrecognized,
{
    new_native_function(
        vm,
        name,
        move |vm: &VirtualMachine, call: FuncArgs| -> (r: Result<PyObjectRef, PyRef<PyBaseException>>)
            { invoke_host_function(vm, &f, call) },
    )
}

/// Whether a host value is one that a host may hand over: an integer fits
/// in 64 bits, and a float holds an object of the class `float` itself,
/// whose class cannot be replaced.
pub open spec fn handed_over(v: HostModel) -> bool {
    &&& v matches HostModel::Int(i) ==> i64::MIN <= i <= i64::MAX
    &&& v matches HostModel::Float(handle) ==> script_class_is_fixed(handle) && reading_of(handle)
        == Reading::Float
}

/// A host value that is turned into a scripting object and read back.
///
/// An integer, a float and a text come back as they went. `Nil` comes back
/// as `Nil`. A boolean comes back as the integer one or zero, because the
/// runtime's booleans hold integers and the integer reading comes first.
/// Bytes and an error come back as `Nil`, because no reading accepts what
/// they become. A sequence comes back as a sequence and a mapping as a
/// mapping, as long as there is a level of nesting left to follow; of their
/// parts nothing is said, because a list or dictionary may change between
/// the two conversions.
pub proof fn lemma_round_trip(v: HostModel, obj: PyObjectRef, depth: nat, back: HostModel)
    requires
        handed_over(v),
        scripting_image(v, obj),
        host_image(obj, depth, back),
    ensures
        v is Int || v is Float || v is Text || v is Nil ==> back == v,
        v is Bytes || v is Error ==> back == HostModel::Nil,
        v matches HostModel::Bool(b) ==> back == HostModel::Int(if b { 1int } else { 0int }),
        v is Sequence && depth > 0 ==> back is Sequence,
        v is Mapping && depth > 0 ==> back is Mapping,
{
}

/// Turning a host value into a scripting object goes by the tag alone: a
/// boolean never becomes an integer that is no boolean, an integer never
/// becomes a boolean, `Nil` becomes `None` and nothing else does, and a
/// sequence of `n` items becomes a list made with `n` elements.
pub proof fn lemma_tagged_dispatch(v: HostModel, obj: PyObjectRef)
    requires
        scripting_image(v, obj),
    ensures
        v matches HostModel::Bool(b) ==> script_truth(obj) == Some(b),
        v is Int ==> script_truth(obj) is None && script_int(obj) is Some,
        v is Nil ==> script_is_none(obj),
        v is Text ==> script_text(obj) is Some && script_int(obj) is None,
        v matches HostModel::Sequence(items) ==> script_is_list(obj) && made_items(obj).len()
            == items.len(),
        v is Mapping ==> script_is_dict(obj),
{
}

} // verus!
