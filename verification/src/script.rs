//! The scripting runtime as the bridge sees it.
//!
//! Everything the library knows about the interpreter is written down in this
//! module: the runtime's types are declared opaque, and each call into the
//! runtime goes through one function whose contract is taken on trust. The
//! rest of the library is proved against these contracts alone.
//!
//! What a scripting object *is* can only be observed through the runtime. The
//! `script_*` functions give names to what an object holds and keeps for as
//! long as it lives: the type of its payload and the immutable value in it.
//!
//! What the runtime *reads* an object as is another matter for three of the
//! readings. Before it looks at the payload of an integer, a float or a text,
//! the runtime asks whether the object's class descends from `int`, `float`
//! or `str`, and a script can give an instance of a class of its own making
//! another such class. So the contracts of `try_int`, `is_float` and
//! `try_text` say in full what they return only for an object whose class
//! cannot be replaced (`script_class_is_fixed`), and for every other object
//! only that a reading which succeeds gives what the payload holds. The
//! readings as a boolean, a list and a dictionary look at the payload alone.
//!
//! The elements of a list, the entries of a dictionary and the arguments of
//! an exception can change while the object lives; they have no name, and the
//! contracts say of them only what holds whatever the runtime hands back.
//!
//! Four more kinds of name stand for what a value was made with and keeps:
//! `call_positional` and `call_keywords` for the arguments of a call,
//! `module_def_name` and `module_def_functions` for a module definition,
//! `made_class` and `made_message` for an exception that the bridge makes,
//! and `made_items` for a list that the bridge makes.

use indexmap::IndexMap;
use rustpython_vm::builtins::{PyBaseException, PyDict, PyFloat, PyList, PyModuleDef};
use rustpython_vm::compiler::Mode;
use rustpython_vm::convert::TryFromObject;
use rustpython_vm::function::{FuncArgs, KwArgs, PyMethodDef, PyMethodFlags};
use rustpython_vm::{Context, Interpreter, PyObjectRef, PyRef, VirtualMachine};
use std::io::Write;
use std::rc::Rc;
use vstd::prelude::*;

verus! {

#[verifier::external_type_specification]
#[verifier::external_body]
pub struct ExPyObjectRef(PyObjectRef);

#[verifier::external_type_specification]
#[verifier::external_body]
#[verifier::reject_recursive_types(T)]
pub struct ExPyRef<T>(PyRef<T>);

#[verifier::external_type_specification]
#[verifier::external_body]
pub struct ExPyBaseException(PyBaseException);

#[verifier::external_type_specification]
#[verifier::external_body]
pub struct ExVirtualMachine(VirtualMachine);

#[verifier::external_type_specification]
#[verifier::external_body]
pub struct ExInterpreter(Interpreter);

#[verifier::external_type_specification]
#[verifier::external_body]
pub struct ExFuncArgs(FuncArgs);

#[verifier::external_type_specification]
#[verifier::external_body]
pub struct ExPyModuleDef(PyModuleDef);

/// The integer that `obj` holds, where its payload is that of an `int` (as
/// that of `True` and `False` is) and the value fits in 64 bits; `None` for
/// every other object.
pub uninterp spec fn script_int(obj: PyObjectRef) -> Option<i64>;

/// Whether the payload of `obj` is that of a `float`.
pub uninterp spec fn script_is_float(obj: PyObjectRef) -> bool;

/// The characters that `obj` holds, where its payload is that of a `str` and
/// holds valid Unicode; `None` for every other object.
pub uninterp spec fn script_text(obj: PyObjectRef) -> Option<Seq<char>>;

/// Whether the class of `obj` cannot be replaced: it is one of the runtime's
/// own classes, which are flagged immutable, and no class of modules. The
/// runtime refuses to give an instance of such a class another class, and
/// to give such a class to an instance of another.
pub uninterp spec fn script_class_is_fixed(obj: PyObjectRef) -> bool;

/// The boolean that `obj` is, where it is one of the two objects `True` and
/// `False`; `None` for every other object.
pub uninterp spec fn script_truth(obj: PyObjectRef) -> Option<bool>;

/// Whether `obj` is the object `None`.
pub uninterp spec fn script_is_none(obj: PyObjectRef) -> bool;

/// The elements that a list was made with, in order. A script can change
/// what the list holds later; this is what it held when it was made.
pub uninterp spec fn made_items(list: PyObjectRef) -> Seq<PyObjectRef>;

/// The truth value that reading `obj` as a boolean gives: `Some` for an
/// object with an integer payload (`true` where it is not zero), `None` for
/// every other object.
pub uninterp spec fn script_bool(obj: PyObjectRef) -> Option<bool>;

/// Whether `obj` has the payload of a `list`.
pub uninterp spec fn script_is_list(obj: PyObjectRef) -> bool;

/// Whether `obj` has the payload of a `dict`.
pub uninterp spec fn script_is_dict(obj: PyObjectRef) -> bool;

/// The positional arguments that a call carries, in call order.
pub uninterp spec fn call_positional(args: FuncArgs) -> Seq<PyObjectRef>;

/// The keyword arguments that a call carries, in insertion order.
pub uninterp spec fn call_keywords(args: FuncArgs) -> Seq<(Seq<char>, PyObjectRef)>;

/// The name of the module that a definition defines.
pub uninterp spec fn module_def_name(def: PyModuleDef) -> Seq<char>;

/// The names of the functions that a definition gives its module, in order.
pub uninterp spec fn module_def_functions(def: PyModuleDef) -> Seq<Seq<char>>;

/// The name of the class that an exception was made an instance of. A
/// script cannot give an instance of a built-in exception class another
/// class.
pub uninterp spec fn made_class(error: PyRef<PyBaseException>) -> Seq<char>;

/// The message that an exception was made with, as its only argument. A
/// script can give the exception other arguments later; this is what it
/// had when it was made.
pub uninterp spec fn made_message(error: PyRef<PyBaseException>) -> Seq<char>;

/// Whether no reading accepts `obj`: it is no integer, no float, no text, no
/// boolean, no list and no dictionary.
pub open spec fn no_reading(obj: PyObjectRef) -> bool {
    &&& script_int(obj) is None
    &&& !script_is_float(obj)
    &&& script_text(obj) is None
    &&& script_bool(obj) is None
    &&& !script_is_list(obj)
    &&& !script_is_dict(obj)
}

/// The keys of `entries`, in order.
pub open spec fn keyword_names(entries: Seq<(String, PyObjectRef)>) -> Seq<Seq<char>> {
    Seq::new(entries.len(), |i: int| entries[i].0@)
}

/// The entries of `entries` with each key taken by its characters.
pub open spec fn keyword_view(entries: Seq<(String, PyObjectRef)>) -> Seq<(Seq<char>, PyObjectRef)> {
    Seq::new(entries.len(), |i: int| (entries[i].0@, entries[i].1))
}

/// `Interpreter::enter` runs `f` once, to completion, with the interpreter's
/// virtual machine, and returns what `f` returned. Nothing is claimed about
/// which virtual machine `f` is given.
pub assume_specification<F, R>[ Interpreter::enter::<F, R> ](interp: &Interpreter, f: F) -> (r: R)
    where F: FnOnce(&VirtualMachine) -> R
    requires
        forall|vm: &VirtualMachine| call_requires(f, (vm,)),
    ensures
        exists|vm: &VirtualMachine| call_ensures(f, (vm,), r),
;

/// `Interpreter::builder(..)`, `add_native_module` and `build`: a fresh
/// interpreter with the modules that are built into the runtime and the
/// native module that `module` defines. Nothing is claimed about it.
#[verifier::external_body]
pub(crate) fn new_interpreter(module: &'static PyModuleDef) -> Interpreter {
    Interpreter::builder(Default::default()).add_native_module(module).build()
}

/// A `PyModuleDef` over two `PyMethodDef::new_const`: the definition of a
/// native module called `name` with two functions of one text argument,
/// called `first_name` and `second_name`, which hand the text to `first`
/// and to `second`. The definition lives until the process ends, and
/// nothing can change it. The runtime refuses a call with any other
/// arguments before the function is reached.
#[verifier::external_body]
pub(crate) fn new_module_def<F: Fn(String) + 'static, G: Fn(String) + 'static>(
    name: &'static str,
    first_name: &'static str,
    first: F,
    second_name: &'static str,
    second: G,
) -> (r: &'static PyModuleDef)
    requires
        forall|text: String| call_requires(first, (text,)),
        forall|text: String| call_requires(second, (text,)),
    ensures
        module_def_name(*r) == name@,
        module_def_functions(*r) == seq![first_name@, second_name@],
{
    let methods = vec![
        PyMethodDef::new_const(first_name, move |text: String| first(text), PyMethodFlags::empty(), None),
        PyMethodDef::new_const(second_name, move |text: String| second(text), PyMethodFlags::empty(), None),
    ];
    let name = Context::genesis().intern_str(name);
    Box::leak(Box::new(PyModuleDef { name, doc: None, methods: methods.leak(), slots: Default::default() }))
}

/// `PyObjectRef::clone` gives another reference to the same object; the
/// object itself is not copied.
pub assume_specification[ <PyObjectRef as Clone>::clone ](obj: &PyObjectRef) -> (r: PyObjectRef)
    ensures
        r == *obj,
;

/// `i64::try_from_object`: the integer that `obj` holds, where its class
/// descends from `int`, its payload is that of an `int` and the value fits
/// in 64 bits. A class that cannot be replaced has the payload of an `int`
/// only where it descends from `int`.
#[verifier::external_body]
pub(crate) fn try_int(vm: &VirtualMachine, obj: &PyObjectRef) -> (r: Option<i64>)
    ensures
        r is Some ==> r == script_int(*obj),
        script_class_is_fixed(*obj) ==> r == script_int(*obj),
{
    i64::try_from_object(vm, obj.clone()).ok()
}

/// `PyRef::<PyFloat>::try_from_object`: whether the class of `obj` descends
/// from `float` and its payload is that of a `float`, which is the test that
/// reading it as a float consists of. A class that cannot be replaced has
/// the payload of a `float` only where it descends from `float`.
#[verifier::external_body]
pub(crate) fn is_float(vm: &VirtualMachine, obj: &PyObjectRef) -> (r: bool)
    ensures
        r ==> script_is_float(*obj),
        script_class_is_fixed(*obj) ==> r == script_is_float(*obj),
{
    PyRef::<PyFloat>::try_from_object(vm, obj.clone()).is_ok()
}

/// `String::try_from_object`: a copy of the text that `obj` holds, where its
/// class descends from `str` and its payload is that of a `str` of valid
/// Unicode. A class that cannot be replaced has the payload of a `str` only
/// where it descends from `str`.
#[verifier::external_body]
pub(crate) fn try_text(vm: &VirtualMachine, obj: &PyObjectRef) -> (r: Option<String>)
    ensures
        r matches Some(s) ==> script_text(*obj) == Some(s@),
        script_class_is_fixed(*obj) && r is None ==> script_text(*obj) is None,
{
    String::try_from_object(vm, obj.clone()).ok()
}

/// `bool::try_from_object`: whether the integer payload of `obj` is not zero,
/// where it has one.
#[verifier::external_body]
pub(crate) fn try_bool(vm: &VirtualMachine, obj: &PyObjectRef) -> (r: Option<bool>)
    ensures
        r == script_bool(*obj),
{
    bool::try_from_object(vm, obj.clone()).ok()
}

/// `PyObject::downcast_ref::<PyList>` and `PyList::borrow_vec`: the elements
/// that the list holds at the moment of the call, in order, where `obj` is a
/// list. Which elements they are is not claimed.
#[verifier::external_body]
pub(crate) fn list_items(obj: &PyObjectRef) -> (r: Option<Vec<PyObjectRef>>)
    ensures
        r is Some <==> script_is_list(*obj),
{
    obj.downcast_ref::<PyList>().map(|list| list.borrow_vec().to_vec())
}

/// `PyObject::downcast_ref::<PyDict>` and the dictionary's iterator: the
/// entries that the dictionary holds at the moment of the call, in insertion
/// order, where `obj` is a dictionary. Which entries they are is not claimed.
#[verifier::external_body]
pub(crate) fn dict_entries(obj: &PyObjectRef) -> (r: Option<Vec<(PyObjectRef, PyObjectRef)>>)
    ensures
        r is Some <==> script_is_dict(*obj),
{
    obj.downcast_ref::<PyDict>().map(|dict| dict.into_iter().collect())
}

/// `Context::none`: the `None` object, which no reading accepts.
#[verifier::external_body]
pub(crate) fn new_none(vm: &VirtualMachine) -> (r: PyObjectRef)
    ensures
        script_is_none(r),
        script_int(r) is None,
        !script_is_float(r),
        script_text(r) is None,
        script_bool(r) is None,
        !script_is_list(r),
        !script_is_dict(r),
{
    vm.ctx.none()
}

/// `Context::new_bool`: the object `True` or the object `False`. Both hold
/// an integer, one and zero, and their class, `bool`, cannot be replaced.
#[verifier::external_body]
pub(crate) fn new_bool(vm: &VirtualMachine, value: bool) -> (r: PyObjectRef)
    ensures
        script_truth(r) == Some(value),
        script_int(r) == Some(if value { 1i64 } else { 0i64 }),
        script_class_is_fixed(r),
{
    vm.ctx.new_bool(value).into()
}

/// `Context::new_int`: an object of the class `int` that holds `value`. It
/// is neither `True` nor `False`, and its class cannot be replaced.
#[verifier::external_body]
pub(crate) fn new_int(vm: &VirtualMachine, value: i64) -> (r: PyObjectRef)
    ensures
        script_int(r) == Some(value),
        script_truth(r) is None,
        script_class_is_fixed(r),
{
    vm.ctx.new_int(value).into()
}

/// `Context::new_str`: an object of the class `str` that holds the
/// characters of `value`. It is neither an integer nor a float, and its
/// class cannot be replaced.
#[verifier::external_body]
pub(crate) fn new_text(vm: &VirtualMachine, value: &str) -> (r: PyObjectRef)
    ensures
        script_int(r) is None,
        !script_is_float(r),
        script_text(r) == Some(value@),
        script_class_is_fixed(r),
{
    vm.ctx.new_str(value).into()
}

/// `Context::new_bytes`: a new `bytes` object. No reading accepts it.
#[verifier::external_body]
pub(crate) fn new_bytes(vm: &VirtualMachine, bytes: Vec<u8>) -> (r: PyObjectRef)
    ensures
        script_int(r) is None,
        !script_is_float(r),
        script_text(r) is None,
        script_bool(r) is None,
        !script_is_list(r),
        !script_is_dict(r),
{
    vm.ctx.new_bytes(bytes).into()
}

/// `Context::new_list`: a new `list` object made with `items` as its
/// elements, in order. It is no scalar.
#[verifier::external_body]
pub(crate) fn new_list(vm: &VirtualMachine, items: Vec<PyObjectRef>) -> (r: PyObjectRef)
    ensures
        made_items(r) == items@,
        script_int(r) is None,
        !script_is_float(r),
        script_text(r) is None,
        script_bool(r) is None,
        script_is_list(r),
{
    vm.ctx.new_list(items).into()
}

/// `Context::new_dict`: a new, empty `dict` object. It is neither a scalar
/// nor a list.
#[verifier::external_body]
pub(crate) fn new_dict(vm: &VirtualMachine) -> (r: PyObjectRef)
    ensures
        script_int(r) is None,
        !script_is_float(r),
        script_text(r) is None,
        script_bool(r) is None,
        !script_is_list(r),
        script_is_dict(r),
{
    vm.ctx.new_dict().into()
}

/// `PyObject::set_item`: stores `value` under `key` in the mapping `target`.
/// Returns whether the runtime accepted the entry; it refuses a key that
/// cannot be hashed.
#[verifier::external_body]
pub(crate) fn set_item(
    vm: &VirtualMachine,
    target: &PyObjectRef,
    key: &PyObjectRef,
    value: PyObjectRef,
) -> (r: bool) {
    target.set_item(&**key, value, vm).is_ok()
}

/// `VirtualMachine::new_exception_msg` on the class `TypeError`: a type
/// error whose only argument is `message`.
#[verifier::external_body]
pub(crate) fn new_type_error(vm: &VirtualMachine, message: &str) -> (r: PyRef<PyBaseException>)
    ensures
        made_class(r) == "TypeError"@,
        made_message(r) == message@,
{
    vm.new_exception_msg(vm.ctx.exceptions.type_error.to_owned(), message.into())
}

/// `VirtualMachine::new_exception_msg` on the class `NameError`: a name
/// error whose only argument is `message`.
#[verifier::external_body]
pub(crate) fn new_name_error(vm: &VirtualMachine, message: &str) -> (r: PyRef<PyBaseException>)
    ensures
        made_class(r) == "NameError"@,
        made_message(r) == message@,
{
    vm.new_exception_msg(vm.ctx.exceptions.name_error.to_owned(), message.into())
}

/// `VirtualMachine::new_exception_msg` on the class `SyntaxError`: a syntax
/// error whose only argument is `message`.
#[verifier::external_body]
pub(crate) fn new_syntax_error(vm: &VirtualMachine, message: &str) -> (r: PyRef<PyBaseException>)
    ensures
        made_class(r) == "SyntaxError"@,
        made_message(r) == message@,
{
    vm.new_exception_msg(vm.ctx.exceptions.syntax_error.to_owned(), message.into())
}

/// `VirtualMachine::new_exception_msg` on the class `Exception`: a plain
/// exception whose only argument is `message`.
#[verifier::external_body]
pub(crate) fn new_plain_exception(vm: &VirtualMachine, message: &str) -> (r: PyRef<PyBaseException>)
    ensures
        made_class(r) == "Exception"@,
        made_message(r) == message@,
{
    vm.new_exception_msg(vm.ctx.exceptions.exception_type.to_owned(), message.into())
}

/// `PyRef::<PyBaseException>::into`: the exception as a plain object. No
/// reading accepts it.
#[verifier::external_body]
pub(crate) fn exception_object(error: PyRef<PyBaseException>) -> (r: PyObjectRef)
    ensures
        script_int(r) is None,
        !script_is_float(r),
        script_text(r) is None,
        script_bool(r) is None,
        !script_is_list(r),
        !script_is_dict(r),
{
    error.into()
}

/// `PyBaseException::args`: the arguments that the exception holds at the
/// moment of the call, in order.
#[verifier::external_body]
pub(crate) fn exception_args(error: &PyRef<PyBaseException>) -> (r: Vec<PyObjectRef>) {
    error.args().as_slice().to_vec()
}

/// The `Debug` rendering of a scripting object.
#[verifier::external_body]
pub(crate) fn debug_text(obj: &PyObjectRef) -> (r: String) {
    format!("{:?}", obj)
}

/// `VirtualMachine::compile` in the mode of an interactive session, then
/// `VirtualMachine::run_code_obj` in a fresh scope that holds the built-ins.
/// Returns the value of the last statement of `source` where that is an
/// expression and `None` where it is not, or the exception that compiling or
/// running raised. In this mode the runtime hands the value of every
/// expression statement to `sys.displayhook` on the way.
#[verifier::external_body]
pub(crate) fn run_interactive(vm: &VirtualMachine, source: &str) -> (r: Result<
    PyObjectRef,
    PyRef<PyBaseException>,
>) {
    let code = vm.compile(source, Mode::Single, "<embedded>".to_owned()).map_err(
        |error| vm.new_syntax_error(&error, Some(source)),
    )?;
    vm.run_code_obj(code, vm.new_scope_with_builtins())
}

/// The field `sys_module` of the virtual machine: the module `sys`.
#[verifier::external_body]
pub(crate) fn sys_module(vm: &VirtualMachine) -> (r: PyObjectRef) {
    vm.sys_module.clone().into()
}

/// `VirtualMachine::new_function`: a scripting callable of one argument that
/// does nothing and returns `None`.
#[verifier::external_body]
pub(crate) fn new_silent_function(vm: &VirtualMachine, name: &'static str) -> (r: PyObjectRef) {
    vm.new_function(name, |_value: PyObjectRef| {}).into()
}

/// `import::import_source`: compiles `source`, runs it as the body of a
/// module called `name`, and enters the module in the runtime's own module
/// table. Returns the module, or the exception raised on the way. What it
/// returns on success is the new module object itself, which no reading
/// accepts.
#[verifier::external_body]
pub(crate) fn import_source(vm: &VirtualMachine, name: &str, source: &str) -> (r: Result<
    PyObjectRef,
    PyRef<PyBaseException>,
>)
    ensures
        r matches Ok(module) ==> no_reading(module),
{
    rustpython_vm::import::import_source(vm, name, source)
}

/// `PyObject::get_attr`: the attribute `name` of `obj`, or the exception that
/// the lookup raised.
#[verifier::external_body]
pub(crate) fn get_attr(vm: &VirtualMachine, obj: &PyObjectRef, name: &str) -> (r: Result<
    PyObjectRef,
    PyRef<PyBaseException>,
>) {
    obj.get_attr(&vm.ctx.new_str(name), vm)
}

/// `PyObject::set_attr`: sets the attribute `name` of `obj`. Returns whether
/// the runtime accepted it.
#[verifier::external_body]
pub(crate) fn set_attr(vm: &VirtualMachine, obj: &PyObjectRef, name: &str, value: PyObjectRef) -> (r:
    bool) {
    obj.set_attr(&vm.ctx.new_str(name), value, vm).is_ok()
}

/// `PyObject::del_attr`: removes the attribute `name` of `obj`. Returns
/// whether the runtime accepted it.
#[verifier::external_body]
pub(crate) fn del_attr(vm: &VirtualMachine, obj: &PyObjectRef, name: &str) -> (r: bool) {
    obj.del_attr(&vm.ctx.new_str(name), vm).is_ok()
}

/// `PyObject::call_with_args`: calls `callable` with `args`. Returns what the
/// call returned, or the exception that it raised.
#[verifier::external_body]
pub(crate) fn call_with_args(vm: &VirtualMachine, callable: &PyObjectRef, args: FuncArgs) -> (r:
    Result<PyObjectRef, PyRef<PyBaseException>>) {
    callable.call_with_args(args, vm)
}

/// `FuncArgs::new` over `KwArgs::new`: the arguments of a call. The
/// positional arguments keep their order. The keyword arguments keep theirs
/// where no key occurs twice; the map behind them holds each key once.
#[verifier::external_body]
pub(crate) fn new_call_args(positional: Vec<PyObjectRef>, keywords: Vec<(String, PyObjectRef)>) -> (r:
    FuncArgs)
    ensures
        call_positional(r) == positional@,
        keyword_names(keywords@).no_duplicates() ==> call_keywords(r) == keyword_view(keywords@),
{
    FuncArgs::new(positional, KwArgs::new(keywords.into_iter().collect::<IndexMap<_, _>>()))
}

/// The two public fields of `FuncArgs`, taken apart: the positional arguments
/// in call order and the keyword arguments in insertion order.
#[verifier::external_body]
pub(crate) fn split_call_args(args: FuncArgs) -> (r: (Vec<PyObjectRef>, Vec<(String, PyObjectRef)>))
    ensures
        r.0@ == call_positional(args),
        keyword_view(r.1@) == call_keywords(args),
{
    (args.args, args.kwargs.into_iter().collect())
}

/// `VirtualMachine::new_module` with a fresh dictionary: a new, empty module
/// object called `name`. It is entered in no module table.
#[verifier::external_body]
pub(crate) fn new_module(vm: &VirtualMachine, name: &str) -> (r: PyObjectRef) {
    vm.new_module(name, vm.ctx.new_dict(), None).into()
}

/// `VirtualMachine::new_function`: a scripting callable of one text argument
/// that hands the text to `f`. The runtime refuses a call with any other
/// arguments before `f` is reached.
#[verifier::external_body]
pub(crate) fn new_text_function<F: Fn(String) + 'static>(
    vm: &VirtualMachine,
    name: &'static str,
    f: F,
) -> (r: PyObjectRef)
    requires
        forall|text: String| call_requires(f, (text,)),
{
    vm.new_function(name, move |text: String| f(text)).into()
}

/// `VirtualMachine::new_function`: a scripting callable called `name` that
/// hands the arguments of each call to `f`, with the virtual machine, and
/// returns or raises what `f` gives. No reading accepts the callable.
#[verifier::external_body]
pub(crate) fn new_native_function<F>(vm: &VirtualMachine, name: &str, f: F) -> (r: PyObjectRef) where
    F: Fn(&VirtualMachine, FuncArgs) -> Result<PyObjectRef, PyRef<PyBaseException>> + 'static,

    requires
        forall|vm: &VirtualMachine, args: FuncArgs| call_requires(f, (vm, args)),
    ensures
        script_int(r) is None,
        !script_is_float(r),
        script_text(r) is None,
        script_bool(r) is None,
        !script_is_list(r),
        !script_is_dict(r),
{
    let name = vm.ctx.intern_str(name).as_str();
    vm.new_function(name, move |args: FuncArgs, vm: &VirtualMachine| f(vm, args)).into()
}

/// Writes `text` and a line end to the standard output of the process.
/// A failure to write is dropped.
#[verifier::external_body]
pub(crate) fn console_print(text: &str) {
    let _ = writeln!(std::io::stdout(), "{}", text);
}

/// Writes `text` and a line end to the standard error of the process.
/// A failure to write is dropped.
#[verifier::external_body]
pub(crate) fn console_error(text: &str) {
    let _ = writeln!(std::io::stderr(), "{}", text);
}

/// `Rc::clone`: another pointer to the same value.
#[verifier::external_body]
pub(crate) fn share_rc<T>(shared: &Rc<T>) -> (r: Rc<T>)
    ensures
        r == *shared,
{
    Rc::clone(shared)
}

} // verus!
