//! The interpreter and the operations that go through it.

pub mod python_converter;
pub mod rust_stdout;

use crate::errors::BridgeError;
use crate::registry::ModuleRegistry;
use crate::script::{
    call_with_args, console_print, del_attr, get_attr, import_source, new_call_args, new_interpreter,
    new_silent_function, new_text, no_reading, run_interactive, script_int, script_is_float,
    script_text, set_attr, sys_module,
};
use python_converter::{is_message, is_message_of, raised_arguments, render_arguments};
use rust_stdout::{
    accepts_every_text, bridge_object, create_rust_stdout, create_rust_stdout_with, RustStdout,
};
use rustpython_vm::builtins::{PyBaseException, PyModuleDef};
use rustpython_vm::function::FuncArgs;
use rustpython_vm::{Interpreter, PyObjectRef, PyRef, VirtualMachine};
use vstd::prelude::*;

verus! {

/// The name under which the bootstrap module is held.
pub const BOOTSTRAP_NAME: &'static str = "stdout_override";

/// The source of the bootstrap module. It defines a stream that collects
/// what is written to it and, when a write consists of a line end alone and
/// the collected text is not empty, hands the text to a callback and starts
/// again; it installs two such streams as the runtime's standard output and
/// standard error, over the two default sinks; and it defines the function
/// that installs them over the sinks of a bridge object. The stream for
/// standard error puts every line between colour markers.
pub const BOOTSTRAP_SOURCE: &'static str = r#"
import sys
from rust_stdout import rs_print, rs_print_err

class CustomStream:

  def __init__(self, callback, start="", end=""):
    self.callback = callback
    self.buffer = start
    self.start = start
    self.end = end


  def write(self, message):
    self.buffer += message
    if "\n" == message:
      self.buffer += self.end
      self.flush()


  def flush(self):
    if self.buffer:
      self.callback(self.buffer)
      self.buffer = self.start


def set_rust_stdout(rstd):
  # Set the custom stream as the new stdout
  sys.stdout = CustomStream(rstd.rs_print)
  sys.stderr = CustomStream(
    rstd.rs_print_err, start="[color=red]", end="[/color]"
  )


sys.stdout = CustomStream(rs_print)
sys.stderr = CustomStream(rs_print_err, start="[color=red]", end="[/color]")
"#;

/// What an operation of the bridge gives: a scripting object, or the failure.
pub type BridgeResult = Result<PyObjectRef, BridgeError>;

/// One interpreter and the modules that were loaded into it.
///
/// Every operation enters the interpreter once, does its work there, and
/// leaves it before it returns.
pub struct CommonPythonVM {
    pub interpreter: Interpreter,
    modules: ModuleRegistry,
}

/// Runs the bootstrap source. Returns the bootstrap module, or, where
/// running the source raised an exception, a text object that holds what is
/// shown for the failure; the same text is written to the console.
fn bootstrap(vm: &VirtualMachine) -> (r: PyObjectRef)
    ensures
        bootstrap_result(r),
{
    bootstrap_outcome(vm, raised_arguments(import_source(vm, BOOTSTRAP_NAME, BOOTSTRAP_SOURCE)))
}

/// Whether `obj` is a text object that holds what is shown for a failure to
/// load a module.
pub open spec fn holds_load_failure(obj: PyObjectRef) -> bool {
    &&& script_int(obj) is None
    &&& !script_is_float(obj)
    &&& exists|e: BridgeError| load_result(Err(e)) && script_text(obj) == Some(#[trigger] e.rendering())
}

/// Whether `obj` is what running the bootstrap source can leave to be held
/// under the bootstrap name: the bootstrap module, which no reading
/// accepts, or a text object that holds what is shown for the failure.
pub open spec fn bootstrap_result(obj: PyObjectRef) -> bool {
    no_reading(obj) || holds_load_failure(obj)
}

/// What running the bootstrap source gave, as the object that is held under
/// the bootstrap name: the module itself, or, for an exception with the
/// arguments `args`, a text object that holds what is shown for a
/// `ModuleLoadError` with their message. In that case the text is also
/// written to the console, and nothing is raised.
pub fn bootstrap_outcome(vm: &VirtualMachine, outcome: Result<PyObjectRef, Vec<PyObjectRef>>) -> (r:
    PyObjectRef)
    ensures
        outcome matches Ok(module) ==> r == module,
        outcome matches Err(args) ==> holds_load_failure(r) && exists|text: String|
            is_message_of(args@, text@) && script_text(r) == Some(
                #[trigger] BridgeError::ModuleLoadError(text).rendering(),
            ),
{
    match outcome {
        Ok(module) => module,
        Err(args) => {
            let text = render_arguments(vm, &args);
            let ghost words = text;
            let failure = BridgeError::ModuleLoadError(text);
            let shown = failure.render();
            console_print(shown.as_str());
            let r = new_text(vm, shown.as_str());
            assert(load_result(Err(failure)) && script_text(r) == Some(failure.rendering()));
            assert(is_message_of(args@, words@) && script_text(r) == Some(
                BridgeError::ModuleLoadError(words).rendering(),
            ));
            r
        },
    }
}

/// Runs `source` in a fresh scope that holds the built-ins and returns the
/// value of its last statement, where that is an expression, and `None`
/// where it is not.
///
/// The runtime would show the value of every expression statement on
/// standard output, as an interactive session does. For as long as the
/// source runs, the hook that does the showing is replaced by one that does
/// nothing; afterwards the hook that was there is put back, and where none
/// was there, there is none again.
pub fn run_block(vm: &VirtualMachine, source: &str) -> (r: Result<PyObjectRef, PyRef<PyBaseException>>) {
    // `VirtualMachine::run_block_expr` would do this in one call, but in this version of the
    // runtime it cannot be given every source: the compiler leaves out a last statement that is
    // a literal and still takes an instruction away for it, and evaluating `'text'` then stops
    // the process ("tried to pop from empty stack"). The mode of an interactive session
    // compiles every last expression. It gives `None` where the last statement defines a
    // function or a class, where `run_block_expr` would give the function or the class.
    let sys = sys_module(vm);
    let shown = get_attr(vm, &sys, "displayhook");
    let _ = set_attr(vm, &sys, "displayhook", new_silent_function(vm, "displayhook"));
    let outcome = run_interactive(vm, source);
    match shown {
        Ok(hook) => {
            let _ = set_attr(vm, &sys, "displayhook", hook);
        },
        Err(_) => {
            let _ = del_attr(vm, &sys, "displayhook");
        },
    }
    outcome
}

/// What evaluating source text gave, as the result of the bridge: the
/// value, or, for an exception with the arguments `args`, an `EvalError`
/// with their message.
pub fn eval_outcome(vm: &VirtualMachine, outcome: Result<PyObjectRef, Vec<PyObjectRef>>) -> (r: Result<
    PyObjectRef,
    BridgeError,
>)
    ensures
        outcome matches Ok(value) ==> r == Ok::<PyObjectRef, BridgeError>(value),
        outcome matches Err(args) ==> (r matches Err(BridgeError::EvalError(text)) && is_message_of(
            args@,
            text@,
        )),
{
    match outcome {
        Ok(value) => Ok(value),
        Err(args) => Err(BridgeError::EvalError(render_arguments(vm, &args))),
    }
}

/// What loading a module's source gave, as the result of the bridge: the
/// module, or, for an exception with the arguments `args`, a
/// `ModuleLoadError` with their message.
pub fn load_outcome(vm: &VirtualMachine, outcome: Result<PyObjectRef, Vec<PyObjectRef>>) -> (r: Result<
    PyObjectRef,
    BridgeError,
>)
    ensures
        outcome matches Ok(value) ==> r == Ok::<PyObjectRef, BridgeError>(value),
        outcome matches Err(args) ==> (r matches Err(BridgeError::ModuleLoadError(text))
            && is_message_of(args@, text@)),
{
    match outcome {
        Ok(value) => Ok(value),
        Err(args) => Err(BridgeError::ModuleLoadError(render_arguments(vm, &args))),
    }
}

/// Whether `e` is a failure that a call of `function_name` in the module
/// `module_name` can end in, once the module is found: the module has no
/// such attribute, or the call raised an exception.
pub open spec fn call_failure(e: BridgeError, module_name: Seq<char>, function_name: Seq<char>) -> bool {
    match e {
        BridgeError::CallError(text) => is_message(text@),
        BridgeError::AttributeNotFound { module, attribute } => module@ == module_name && attribute@
            == function_name,
        _ => false,
    }
}

/// Whether `r` is a success or an `EvalError` with the message of an
/// exception.
pub open spec fn eval_result(r: BridgeResult) -> bool {
    r matches Err(e) ==> (e matches BridgeError::EvalError(text) && is_message(text@))
}

/// Whether `r` is a success or a `ModuleLoadError` with the message of an
/// exception.
pub open spec fn load_result(r: BridgeResult) -> bool {
    r matches Err(e) ==> (e matches BridgeError::ModuleLoadError(text) && is_message(text@))
}

/// Calls the attribute `function_name` of `module` with `f_args`.
///
/// Where the module has no such attribute, the failure names the module and
/// the attribute, and nothing is called. Where the call raises an
/// exception, the failure carries its message.
pub fn call_attribute(
    vm: &VirtualMachine,
    module: &PyObjectRef,
    module_name: &String,
    function_name: &String,
    f_args: FuncArgs,
) -> (r: Result<PyObjectRef, BridgeError>)
    ensures
        r matches Err(e) ==> call_failure(e, module_name@, function_name@),
{
    let found = get_attr(vm, module, function_name.as_str());
    match attribute_outcome(found, module_name, function_name) {
        Ok(function) => call_outcome(vm, raised_arguments(call_with_args(vm, &function, f_args))),
        Err(e) => Err(e),
    }
}

/// What looking up the attribute `function_name` of the module
/// `module_name` gave, as the result of the bridge: the attribute, or, for
/// any exception, the failure that names the module and the attribute.
pub fn attribute_outcome(
    found: Result<PyObjectRef, PyRef<PyBaseException>>,
    module_name: &String,
    function_name: &String,
) -> (r: Result<PyObjectRef, BridgeError>)
    ensures
        found matches Ok(function) ==> r == Ok::<PyObjectRef, BridgeError>(function),
        found is Err ==> (r matches Err(BridgeError::AttributeNotFound { module, attribute }) && module@
            == module_name@ && attribute@ == function_name@),
{
    match found {
        Ok(function) => Ok(function),
        Err(_) => Err(
            BridgeError::AttributeNotFound {
                module: module_name.clone(),
                attribute: function_name.clone(),
            },
        ),
    }
}

/// What calling a function gave, as the result of the bridge: what the
/// function returned, or, for an exception with the arguments `args`, a
/// `CallError` with their message.
pub fn call_outcome(vm: &VirtualMachine, outcome: Result<PyObjectRef, Vec<PyObjectRef>>) -> (r: Result<
    PyObjectRef,
    BridgeError,
>)
    ensures
        outcome matches Ok(value) ==> r == Ok::<PyObjectRef, BridgeError>(value),
        outcome matches Err(args) ==> (r matches Err(BridgeError::CallError(text)) && is_message_of(
            args@,
            text@,
        )),
{
    match outcome {
        Ok(value) => Ok(value),
        Err(args) => Err(BridgeError::CallError(render_arguments(vm, &args))),
    }
}

impl CommonPythonVM {
    /// The modules that are loaded, by name.
    pub closed spec fn loaded(&self) -> Map<Seq<char>, PyObjectRef> {
        self.modules@
    }

    /// Makes an interpreter that has the default sinks as its native module
    /// `rust_stdout`, and runs the bootstrap source, which routes the
    /// runtime's standard output and standard error to those sinks. What
    /// running the source gave is held under the bootstrap name, and no
    /// other module is loaded.
    pub fn init() -> (r: Self)
        ensures
            r.loaded().dom() == set![BOOTSTRAP_NAME@],
            bootstrap_result(r.loaded()[BOOTSTRAP_NAME@]),
    {
        Self::init_with(create_rust_stdout())
    }

    /// As `init`, with `out` and `err` in place of the default sinks: a host
    /// with a console of its own passes the functions that write to it.
    /// The sinks cannot hold anything, as `create_rust_stdout_with` says.
    pub fn init_with_sinks<O, E>(out: O, err: E) -> (r: Self) where
        O: Fn(String) + 'static,
        E: Fn(String) + 'static,

        requires
            accepts_every_text(out),
            accepts_every_text(err),
        ensures
            r.loaded().dom() == set![BOOTSTRAP_NAME@],
            bootstrap_result(r.loaded()[BOOTSTRAP_NAME@]),
    {
        Self::init_with(create_rust_stdout_with(out, err))
    }

    /// Makes an interpreter over the native module that `sinks` defines and
    /// runs the bootstrap source in it.
    fn init_with(sinks: &'static PyModuleDef) -> (r: Self)
        ensures
            r.loaded().dom() == set![BOOTSTRAP_NAME@],
            bootstrap_result(r.loaded()[BOOTSTRAP_NAME@]),
    {
        let interpreter = new_interpreter(sinks);
        let module = interpreter.enter(
            |vm: &VirtualMachine| -> (m: PyObjectRef)
                ensures
                    bootstrap_result(m)
                { bootstrap(vm) },
        );
        let mut modules = ModuleRegistry::new();
        modules.insert(String::from_str(BOOTSTRAP_NAME), module);
        let r = CommonPythonVM { interpreter, modules };
        assert(r.loaded().dom() =~= set![BOOTSTRAP_NAME@]);
        r
    }

    /// Runs `operation` inside the interpreter and returns what it returned.
    /// This is the one way in: the operation has the virtual machine for
    /// as long as it runs, and for no longer.
    pub fn enter<F, R>(&self, operation: F) -> (r: R) where F: FnOnce(&VirtualMachine) -> R
        requires
            forall|vm: &VirtualMachine| call_requires(operation, (vm,)),
        ensures
            exists|vm: &VirtualMachine| call_ensures(operation, (vm,), r),
    {
        self.interpreter.enter(operation)
    }

    /// Routes the runtime's standard output and standard error through a new
    /// bridge whose sink for standard output is `closure`. The bridge has no
    /// sink for standard error, so what scripts write there goes to the
    /// console, between the colour markers. The loaded modules stay as they
    /// are.
    pub fn setup_stdout<T>(&mut self, closure: T) where T: Fn(String) + 'static
        requires
            accepts_every_text(closure),
        ensures
            final(self).loaded() == old(self).loaded(),
    {
        let mut rust_stdout = RustStdout::new();
        rust_stdout.set_stdout_fn(closure);
        let bootstrap_name = String::from_str(BOOTSTRAP_NAME);
        match self.modules.get(&bootstrap_name) {
            Some(module) => {
                self.interpreter.enter(
                    |vm: &VirtualMachine|
                        {
                            match get_attr(vm, module, "set_rust_stdout") {
                                Ok(installer) => {
                                    let mut args: Vec<PyObjectRef> = Vec::new();
                                    args.push(bridge_object(vm, rust_stdout));
                                    let _ = call_with_args(
                                        vm,
                                        &installer,
                                        new_call_args(args, Vec::new()),
                                    );
                                },
                                Err(_) => {},
                            }
                        },
                );
            },
            None => {},
        }
    }

    /// Evaluates `code` in a fresh scope that holds the built-ins and
    /// returns the value of its last expression. An exception raised on the
    /// way is returned as an `EvalError` with its message.
    pub fn eval(&self, code: String) -> (r: Result<PyObjectRef, BridgeError>)
        ensures
            eval_result(r),
    {
        self.interpreter.enter(
            |vm: &VirtualMachine| -> (r: BridgeResult)
                ensures
                    eval_result(r)
                { eval_outcome(vm, raised_arguments(run_block(vm, code.as_str()))) },
        )
    }

    /// Runs `module_code` as the body of a module called `module_name`.
    ///
    /// On success the module is held under its name from then on, in place
    /// of a module that was held under that name before, and it is
    /// returned. On failure the loaded modules stay as they are, and the
    /// exception is returned as a `ModuleLoadError` with its message.
    pub fn load_module(&mut self, module_name: String, module_code: String) -> (r: Result<
        PyObjectRef,
        BridgeError,
    >)
        ensures
            r matches Ok(module) ==> final(self).loaded() == old(self).loaded().insert(
                module_name@,
                module,
            ),
            r is Err ==> final(self).loaded() == old(self).loaded(),
            load_result(r),
    {
        let outcome = self.interpreter.enter(
            |vm: &VirtualMachine| -> (r: BridgeResult)
                ensures
                    load_result(r)
                {
                    load_outcome(
                        vm,
                        raised_arguments(
                            import_source(vm, module_name.as_str(), module_code.as_str()),
                        ),
                    )
                },
        );
        match outcome {
            Ok(module) => {
                self.modules.insert(module_name, module.clone());
                Ok(module)
            },
            Err(e) => Err(e),
        }
    }

    /// The module held under `module_name`.
    pub fn module(&self, module_name: &String) -> (r: Option<&PyObjectRef>)
        ensures
            match r {
                Some(module) => self.loaded().dom().contains(module_name@) && self.loaded()[module_name@]
                    == *module,
                None => !self.loaded().dom().contains(module_name@),
            },
    {
        self.modules.get(module_name)
    }

    /// Calls the function `function_name` of the module held under
    /// `module_name` with `f_args`.
    ///
    /// Where no module is held under that name, the failure is
    /// `ModuleNotFound` with the name, and the interpreter is not entered.
    /// Otherwise the function is looked up and called on the module that is
    /// held under the name at the time, as `call_attribute` says.
    pub fn call_python_function(
        &self,
        module_name: String,
        function_name: String,
        f_args: FuncArgs,
    ) -> (r: Result<PyObjectRef, BridgeError>)
        ensures
            !self.loaded().dom().contains(module_name@) ==> (r matches Err(
                BridgeError::ModuleNotFound(name),
            ) && name@ == module_name@),
            self.loaded().dom().contains(module_name@) ==> (r matches Err(e) ==> call_failure(
                e,
                module_name@,
                function_name@,
            )),
    {
        match self.modules.get(&module_name) {
            Some(module) => self.interpreter.enter(
                |vm: &VirtualMachine| -> (r: BridgeResult)
                    ensures
                        (r matches Err(e) ==> call_failure(e, module_name@, function_name@))
                    { call_attribute(vm, module, &module_name, &function_name, f_args) },
            ),
            None => Err(BridgeError::ModuleNotFound(module_name)),
        }
    }
}

/// Loading a module under a name that is taken replaces the module that
/// was there: after two loads under one name the name stands for the module
/// of the second load, exactly as if the first load had never happened, and
/// every other name stands for what it stood for before.
pub proof fn lemma_reload_replaces(
    loaded: Map<Seq<char>, PyObjectRef>,
    name: Seq<char>,
    first: PyObjectRef,
    second: PyObjectRef,
)
    ensures
        loaded.insert(name, first).insert(name, second) == loaded.insert(name, second),
        loaded.insert(name, first).insert(name, second)[name] == second,
        forall|other: Seq<char>|
            other != name && loaded.dom().contains(other) ==> #[trigger] loaded.insert(name, first).insert(
                name,
                second,
            )[other] == loaded[other],
        forall|other: Seq<char>|
            other != name ==> (loaded.insert(name, first).insert(name, second).dom().contains(other)
                <==> loaded.dom().contains(other)),
{
    assert(loaded.insert(name, first).insert(name, second) =~= loaded.insert(name, second));
}

} // verus!
