//! The output bridge: where the text that scripts print goes.
//!
//! The runtime's standard output and standard error are replaced by stream
//! objects that collect what is written to them and hand each finished line
//! to a function of one text argument. Those functions are provided here:
//! the two default sinks of the `rust_stdout` module, which write to the
//! console of the process, and the two methods of a `RustStdout`, which hand
//! the text to the sink that the host attached.

use crate::script::{
    console_error, console_print, module_def_functions, module_def_name, new_module,
    new_module_def, new_text_function, set_attr, share_rc,
};
use rustpython_vm::builtins::PyModuleDef;
use rustpython_vm::{PyObjectRef, VirtualMachine};
use std::rc::Rc;
use vstd::prelude::*;

verus! {

/// Whether `f` may be called with every text.
pub open spec fn accepts_every_text<F: Fn(String)>(f: F) -> bool {
    forall|text: String| call_requires(f, (text,))
}

/// Two slots for host sinks, one for standard output and one for standard
/// error. Each is empty until a sink is set, and setting a sink replaces the
/// one that was there.
pub struct RustStdoutFns<F: Fn(String)> {
    stdout_fn: Option<F>,
    stderr_fn: Option<F>,
}

impl<F: Fn(String)> RustStdoutFns<F> {
    #[verifier::type_invariant]
    spec fn sinks_accept_every_text(self) -> bool {
        &&& self.stdout_fn matches Some(f) ==> accepts_every_text(f)
        &&& self.stderr_fn matches Some(f) ==> accepts_every_text(f)
    }

    /// The sink attached for standard output.
    pub closed spec fn stdout_sink(&self) -> Option<F> {
        self.stdout_fn
    }

    /// The sink attached for standard error.
    pub closed spec fn stderr_sink(&self) -> Option<F> {
        self.stderr_fn
    }

    /// Two empty slots.
    pub fn new() -> (r: Self)
        ensures
            r.stdout_sink() is None,
            r.stderr_sink() is None,
    {
        RustStdoutFns { stdout_fn: None, stderr_fn: None }
    }

    /// Attaches `f` as the sink for standard output.
    pub fn set_stdout_fn(&mut self, f: F)
        requires
            accepts_every_text(f),
        ensures
            final(self).stdout_sink() == Some(f),
            final(self).stderr_sink() == old(self).stderr_sink(),
    {
        proof {
            use_type_invariant(&*self);
        }
        self.stdout_fn = Some(f);
    }

    /// Attaches `f` as the sink for standard error.
    pub fn set_stderr_fn(&mut self, f: F)
        requires
            accepts_every_text(f),
        ensures
            final(self).stderr_sink() == Some(f),
            final(self).stdout_sink() == old(self).stdout_sink(),
    {
        proof {
            use_type_invariant(&*self);
        }
        self.stderr_fn = Some(f);
    }

    /// Hands `text` to the sink for standard output. Returns whether a sink
    /// was attached; where none was, nothing is done.
    pub fn emit_stdout(&self, text: String) -> (r: bool)
        ensures
            r == self.stdout_sink() is Some,
            self.stdout_sink() matches Some(f) ==> call_ensures(f, (text,), ()),
    {
        proof {
            use_type_invariant(self);
        }
        match &self.stdout_fn {
            Some(f) => {
                f(text);
                true
            },
            None => false,
        }
    }

    /// Hands `text` to the sink for standard error. Returns whether a sink
    /// was attached; where none was, nothing is done.
    pub fn emit_stderr(&self, text: String) -> (r: bool)
        ensures
            r == self.stderr_sink() is Some,
            self.stderr_sink() matches Some(f) ==> call_ensures(f, (text,), ()),
    {
        proof {
            use_type_invariant(self);
        }
        match &self.stderr_fn {
            Some(f) => {
                f(text);
                true
            },
            None => false,
        }
    }
}

/// The bridge object that scripts print through: it holds the host's sinks
/// and falls back to the console of the process where none is attached.
pub struct RustStdout<F: Fn(String)> {
    fns: RustStdoutFns<F>,
}

impl<F: Fn(String)> RustStdout<F> {
    /// The sinks that the bridge holds.
    pub closed spec fn sinks(&self) -> RustStdoutFns<F> {
        self.fns
    }

    /// A bridge with no sink attached.
    pub fn new() -> (r: Self)
        ensures
            r.sinks().stdout_sink() is None,
            r.sinks().stderr_sink() is None,
    {
        RustStdout { fns: RustStdoutFns::new() }
    }

    /// Attaches `f` as the sink for standard output.
    pub fn set_stdout_fn(&mut self, f: F)
        requires
            accepts_every_text(f),
        ensures
            final(self).sinks().stdout_sink() == Some(f),
            final(self).sinks().stderr_sink() == old(self).sinks().stderr_sink(),
    {
        self.fns.set_stdout_fn(f);
    }

    /// Attaches `f` as the sink for standard error.
    pub fn set_stderr_fn(&mut self, f: F)
        requires
            accepts_every_text(f),
        ensures
            final(self).sinks().stderr_sink() == Some(f),
            final(self).sinks().stdout_sink() == old(self).sinks().stdout_sink(),
    {
        self.fns.set_stderr_fn(f);
    }

    /// Prints `args` to standard output: through the attached sink, which
    /// is called once with `args`, or on the console where none is attached.
    pub fn rs_print(&self, args: String)
        ensures
            self.sinks().stdout_sink() matches Some(f) ==> call_ensures(f, (args,), ()),
    {
        let shown = args.clone();
        if !self.fns.emit_stdout(args) {
            console_print(shown.as_str());
        }
    }

    /// Prints `args` to standard error: through the attached sink, which is
    /// called once with `args`, or on the console where none is attached.
    pub fn rs_print_err(&self, args: String)
        ensures
            self.sinks().stderr_sink() matches Some(f) ==> call_ensures(f, (args,), ()),
    {
        let shown = args.clone();
        if !self.fns.emit_stderr(args) {
            console_print(shown.as_str());
        }
    }
}

/// The name of the native module that holds the default sinks.
pub const RUST_STDOUT_NAME: &'static str = "rust_stdout";

/// The name of the function, and of the bridge's method, that prints to
/// standard output.
pub const PRINT_NAME: &'static str = "rs_print";

/// The name of the function, and of the bridge's method, that prints to
/// standard error.
pub const PRINT_ERROR_NAME: &'static str = "rs_print_err";

/// Whether `def` defines the native module of the default sinks: a module
/// called `rust_stdout` with exactly two functions, `rs_print` and
/// `rs_print_err`, in that order.
pub open spec fn defines_rust_stdout(def: PyModuleDef) -> bool {
    &&& module_def_name(def) == RUST_STDOUT_NAME@
    &&& module_def_functions(def) == seq![PRINT_NAME@, PRINT_ERROR_NAME@]
}

/// The default sink for standard output: the console of the process.
pub fn rs_print(args: String) {
    console_print(args.as_str());
}

/// The default sink for standard error: the error console of the process.
pub fn rs_print_err(args: String) {
    console_error(args.as_str());
}

/// The definition of a native module `rust_stdout` whose functions
/// `rs_print` and `rs_print_err` hand their text to `out` and to `err`.
///
/// The two sinks become part of a definition that lives until the process
/// ends, so they cannot hold anything: a sink that captures a value is
/// refused when the program is built.
pub fn create_rust_stdout_with<O, E>(out: O, err: E) -> (r: &'static PyModuleDef) where
    O: Fn(String) + 'static,
    E: Fn(String) + 'static,

    requires
        accepts_every_text(out),
        accepts_every_text(err),
    ensures
        defines_rust_stdout(*r),
{
    new_module_def(RUST_STDOUT_NAME, PRINT_NAME, out, PRINT_ERROR_NAME, err)
}

/// The definition of the native module `rust_stdout`, whose functions
/// `rs_print` and `rs_print_err` are the two default sinks.
pub fn create_rust_stdout() -> (r: &'static PyModuleDef)
    ensures
        defines_rust_stdout(*r),
{
    create_rust_stdout_with(|text: String| rs_print(text), |text: String| rs_print_err(text))
}

/// Makes the scripting object that stands for `bridge`: an object whose
/// attributes `rs_print` and `rs_print_err` are callables of one text
/// argument that reach the two methods of `bridge`.
pub fn bridge_object<F: Fn(String) + 'static>(vm: &VirtualMachine, bridge: RustStdout<F>) -> (r:
    PyObjectRef) {
    let shared = Rc::new(bridge);
    let for_out = share_rc(&shared);
    let out = new_text_function(vm, "rs_print", move |text: String| for_out.rs_print(text));
    let err = new_text_function(vm, "rs_print_err", move |text: String| shared.rs_print_err(text));
    let object = new_module(vm, "RustStdout");
    let _ = set_attr(vm, &object, "rs_print", out);
    let _ = set_attr(vm, &object, "rs_print_err", err);
    object
}

} // verus!
