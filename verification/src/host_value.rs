//! Values on the host's side of the bridge.

use rustpython_vm::PyObjectRef;
use vstd::prelude::*;

verus! {

/// A value as the host sees it: one tag for each kind of value that can
/// cross the bridge.
///
/// The library never computes with a floating-point number, so it does not
/// hold one: a float crosses the bridge as the scripting object that holds it,
/// and the host reads or makes that object. A callable is held the same way,
/// as the scripting object that `make_callable` made for a host function.
#[derive(Debug)]
pub enum HostValue {
    /// The host's empty value: nil, null or undefined.
    Nil,
    Bool(bool),
    Int(i64),
    /// A floating-point number, as the scripting `float` object that holds it.
    Float(PyObjectRef),
    Text(String),
    /// An ordered collection.
    Sequence(Vec<HostValue>),
    /// An ordered collection of key and value pairs.
    Mapping(Vec<(HostValue, HostValue)>),
    /// A buffer of bytes.
    Bytes(Vec<u8>),
    /// A host function, as the scripting callable that reaches it.
    Callable(PyObjectRef),
    /// A host error: the name of its kind and its message.
    Error { kind: String, message: String },
}

/// What a `HostValue` stands for.
pub enum HostModel {
    Nil,
    Bool(bool),
    Int(int),
    Float(PyObjectRef),
    Text(Seq<char>),
    Sequence(Seq<HostModel>),
    Mapping(Seq<(HostModel, HostModel)>),
    Bytes(Seq<u8>),
    Callable(PyObjectRef),
    Error { kind: Seq<char>, message: Seq<char> },
}

/// The model of `value`.
pub open spec fn host_model(value: HostValue) -> HostModel
    decreases value,
{
    match value {
        HostValue::Nil => HostModel::Nil,
        HostValue::Bool(b) => HostModel::Bool(b),
        HostValue::Int(i) => HostModel::Int(i as int),
        HostValue::Float(o) => HostModel::Float(o),
        HostValue::Text(s) => HostModel::Text(s@),
        HostValue::Sequence(items) => HostModel::Sequence(
            Seq::new(
                items@.len(),
                |i: int|
                    if 0 <= i < items@.len() {
                        host_model(items@[i])
                    } else {
                        HostModel::Nil
                    },
            ),
        ),
        HostValue::Mapping(entries) => HostModel::Mapping(
            Seq::new(
                entries@.len(),
                |i: int|
                    if 0 <= i < entries@.len() {
                        (host_model(entries@[i].0), host_model(entries@[i].1))
                    } else {
                        (HostModel::Nil, HostModel::Nil)
                    },
            ),
        ),
        HostValue::Bytes(bytes) => HostModel::Bytes(bytes@),
        HostValue::Callable(o) => HostModel::Callable(o),
        HostValue::Error { kind, message } => HostModel::Error { kind: kind@, message: message@ },
    }
}

impl View for HostValue {
    type V = HostModel;

    open spec fn view(&self) -> HostModel {
        host_model(*self)
    }
}

/// The models of the values in `items`, in order.
pub open spec fn models(items: Seq<HostValue>) -> Seq<HostModel> {
    Seq::new(items.len(), |i: int| items[i]@)
}

/// The models of the pairs in `entries`, in order.
pub open spec fn pair_models(entries: Seq<(HostValue, HostValue)>) -> Seq<(HostModel, HostModel)> {
    Seq::new(entries.len(), |i: int| (entries[i].0@, entries[i].1@))
}

/// The view of a sequence is the sequence of the views of its items.
pub proof fn lemma_sequence_view(items: Vec<HostValue>)
    ensures
        HostValue::Sequence(items)@ == HostModel::Sequence(models(items@)),
{
    let a = HostValue::Sequence(items)@->Sequence_0;
    assert(a =~= models(items@));
}

/// The view of a mapping is the sequence of the views of its pairs.
pub proof fn lemma_mapping_view(entries: Vec<(HostValue, HostValue)>)
    ensures
        HostValue::Mapping(entries)@ == HostModel::Mapping(pair_models(entries@)),
{
    let a = HostValue::Mapping(entries)@->Mapping_0;
    assert(a =~= pair_models(entries@));
}

} // verus!
