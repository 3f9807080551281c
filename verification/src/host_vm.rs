//! The bridge as a host sees it: every operation takes host values and gives
//! a host value back, and a failure comes back as a text.

use crate::convert::{
    call_arguments, call_image, host_image, host_keyword_names, readable, reports_repeat, to_host,
    DEPTH_LIMIT,
};
use crate::errors::BridgeError;
use crate::host_value::{HostModel, HostValue};
use crate::python_vm_common::rust_stdout::accepts_every_text;
use crate::python_vm_common::{
    call_failure, eval_result, load_result, BridgeResult, CommonPythonVM, BOOTSTRAP_NAME,
};
use rustpython_vm::function::FuncArgs;
use rustpython_vm::{PyObjectRef, VirtualMachine};
use vstd::prelude::*;

verus! {

/// What loading a module gives a host on success.
pub const SUCCESS: &'static str = "Success";

/// Reads `value` as a host value, inside the interpreter of `common_vm`.
pub fn to_host_common(common_vm: &CommonPythonVM, value: &PyObjectRef) -> (r: HostValue)
    ensures
        host_image(*value, DEPTH_LIMIT as nat, r@),
{
    common_vm.enter(
        |vm: &VirtualMachine| -> (r: HostValue)
            ensures
                host_image(*value, DEPTH_LIMIT as nat, r@)
            { to_host(vm, value) },
    )
}

/// What the arguments of a call give, as `call_arguments` says, inside the
/// interpreter of `common_vm`.
pub open spec fn arguments_outcome(
    positional: Seq<HostValue>,
    kwargs: Seq<(String, HostValue)>,
    r: Result<FuncArgs, BridgeError>,
) -> bool {
    match r {
        Ok(args) => host_keyword_names(kwargs).no_duplicates() && call_image(positional, kwargs, args),
        Err(e) => reports_repeat(host_keyword_names(kwargs), e),
    }
}

/// Turns the arguments of a call into the form that the runtime takes,
/// inside the interpreter of `common_vm`.
pub fn call_arguments_common(
    common_vm: &CommonPythonVM,
    positional: &Vec<HostValue>,
    kwargs: &Vec<(String, HostValue)>,
) -> (r: Result<FuncArgs, BridgeError>)
    ensures
        arguments_outcome(positional@, kwargs@, r),
{
    common_vm.enter(
        |vm: &VirtualMachine| -> (r: Result<FuncArgs, BridgeError>)
            ensures
                arguments_outcome(positional@, kwargs@, r)
            { call_arguments(vm, positional, kwargs) },
    )
}

/// The result of an operation as a host value: the value read as a host
/// value, or the failure as the text that is shown for it.
pub fn outcome_to_host(common_vm: &CommonPythonVM, outcome: BridgeResult) -> (r: HostValue)
    ensures
        match outcome {
            Ok(value) => host_image(value, DEPTH_LIMIT as nat, r@),
            Err(e) => r@ == HostModel::Text(e.rendering()),
        },
{
    match outcome {
        Ok(value) => to_host_common(common_vm, &value),
        Err(e) => e.to_host_value(),
    }
}

/// Whether `r` is what reading some scripting object gives.
pub open spec fn is_image(r: HostModel) -> bool {
    exists|obj: PyObjectRef| #[trigger] host_image(obj, DEPTH_LIMIT as nat, r)
}

/// Whether `r` is what evaluating source text can give a host: what the
/// value of the source is read as, or the text that is shown for an
/// `EvalError` with the message of an exception.
pub open spec fn eval_gives(r: HostModel) -> bool {
    ||| is_image(r)
    ||| exists|e: BridgeError| eval_result(Err(e)) && r == HostModel::Text(#[trigger] e.rendering())
}

/// Whether `r` is what a call can give a host once its arguments are
/// accepted and its module is found: what the returned object is read as,
/// or the text that is shown for the failure of the call.
pub open spec fn call_gives(r: HostModel, module_name: Seq<char>, function_name: Seq<char>) -> bool {
    ||| is_image(r)
    ||| exists|e: BridgeError|
        call_failure(e, module_name, function_name) && r == HostModel::Text(#[trigger] e.rendering())
}

/// Whether `r` is what loading a module can give a host: the text
/// `Success`, or the text that is shown for a `ModuleLoadError` with the
/// message of an exception.
pub open spec fn load_gives(r: HostModel) -> bool {
    ||| r == HostModel::Text(SUCCESS@)
    ||| exists|e: BridgeError| load_result(Err(e)) && r == HostModel::Text(#[trigger] e.rendering())
}

/// What loading a module gave, as a host value: the text `Success` for the
/// module, whatever it is, and for a failure the text that is shown for
/// it.
pub fn load_to_host(outcome: BridgeResult) -> (r: HostValue)
    ensures
        match outcome {
            Ok(_) => r@ == HostModel::Text(SUCCESS@),
            Err(e) => r@ == HostModel::Text(e.rendering()),
        },
{
    match outcome {
        Ok(_) => HostValue::Text(String::from_str(SUCCESS)),
        Err(e) => e.to_host_value(),
    }
}

/// One interpreter behind operations on host values.
pub struct HostPythonVM {
    common_vm: CommonPythonVM,
}

impl HostPythonVM {
    /// The modules that are loaded, by name.
    pub closed spec fn loaded(&self) -> Map<Seq<char>, PyObjectRef> {
        self.common_vm.loaded()
    }

    /// A new interpreter, as `CommonPythonVM::init` makes it.
    pub fn init() -> (r: Self)
        ensures
            r.loaded().dom() == set![BOOTSTRAP_NAME@],
    {
        HostPythonVM { common_vm: CommonPythonVM::init() }
    }

    /// A new interpreter with `out` and `err` in place of the default sinks,
    /// as `CommonPythonVM::init_with_sinks` makes it.
    pub fn init_with_sinks<O, E>(out: O, err: E) -> (r: Self) where
        O: Fn(String) + 'static,
        E: Fn(String) + 'static,

        requires
            accepts_every_text(out),
            accepts_every_text(err),
        ensures
            r.loaded().dom() == set![BOOTSTRAP_NAME@],
    {
        HostPythonVM { common_vm: CommonPythonVM::init_with_sinks(out, err) }
    }

    /// The interpreter behind the operations.
    pub fn common_vm(&self) -> (r: &CommonPythonVM)
        ensures
            r.loaded() == self.loaded(),
    {
        &self.common_vm
    }

    /// Routes what scripts print to standard output to `callback`, one call
    /// for each line.
    pub fn setup_stdout<T>(&mut self, callback: T) where T: Fn(String) + 'static
        requires
            accepts_every_text(callback),
        ensures
            final(self).loaded() == old(self).loaded(),
    {
        self.common_vm.setup_stdout(callback);
    }

    /// Evaluates `code` and gives its value as a host value. A failure is
    /// given as the text that is shown for an `EvalError`.
    pub fn eval(&self, code: String) -> (r: HostValue)
        ensures
            eval_gives(r@),
            readable(DEPTH_LIMIT as nat, r@),
    {
        let outcome = self.common_vm.eval(code);
        let ghost given = outcome;
        let r = outcome_to_host(&self.common_vm, outcome);
        proof {
            match given {
                Ok(value) => {
                    assert(host_image(value, DEPTH_LIMIT as nat, r@));
                },
                Err(e) => {
                    assert(eval_result(Err(e)) && r@ == HostModel::Text(e.rendering()));
                },
            }
        }
        r
    }

    /// Loads `module_code` as the module `module_name`.
    ///
    /// On success the result is the text `Success`, and the module is held
    /// under its name from then on. On failure the result is the text that
    /// is shown for a `ModuleLoadError`, and the loaded modules stay as they
    /// are. (A module whose loading fails with a message that makes the
    /// shown text read `Success` cannot occur: the shown text begins with
    /// the error marker.)
    pub fn load_module(&mut self, module_name: String, module_code: String) -> (r: HostValue)
        ensures
            load_gives(r@),
            r@ == HostModel::Text(SUCCESS@) ==> final(self).loaded().dom() == old(self).loaded().dom().insert(
                module_name@,
            ),
            r@ != HostModel::Text(SUCCESS@) ==> final(self).loaded() == old(self).loaded(),
    {
        let ghost name = module_name@;
        let outcome = self.common_vm.load_module(module_name, module_code);
        let ghost given = outcome;
        let r = load_to_host(outcome);
        proof {
            match given {
                Ok(module) => {
                    assert(self.loaded().dom() =~= old(self).loaded().dom().insert(name));
                },
                Err(e) => {
                    lemma_rendering_is_not_success(e);
                    assert(load_result(Err(e)) && r@ == HostModel::Text(e.rendering()));
                },
            }
        }
        r
    }

    /// Calls the function `function_name` of the module `module_name` with
    /// the positional arguments `args` and the keyword arguments `kwargs`,
    /// and gives what it returns as a host value.
    ///
    /// Where a keyword is used twice, nothing is called, and the result is
    /// the text that is shown for a `DuplicateKeyword` with the first key
    /// that is used again. Otherwise, where no module is held under
    /// `module_name`, nothing is called, and the result is the text that is
    /// shown for a `ModuleNotFound` with that name. A failure of the call
    /// itself is given as the text that is shown for it.
    pub fn call_python_function(
        &self,
        module_name: String,
        function_name: String,
        args: Vec<HostValue>,
        kwargs: Vec<(String, HostValue)>,
    ) -> (r: HostValue)
        ensures
            readable(DEPTH_LIMIT as nat, r@),
            !host_keyword_names(kwargs@).no_duplicates() ==> exists|e: BridgeError|
                reports_repeat(host_keyword_names(kwargs@), e) && r@ == HostModel::Text(
                    #[trigger] e.rendering(),
                ),
            host_keyword_names(kwargs@).no_duplicates() && !self.loaded().dom().contains(module_name@) ==> r@
                == HostModel::Text(BridgeError::ModuleNotFound(module_name).rendering()),
            host_keyword_names(kwargs@).no_duplicates() && self.loaded().dom().contains(module_name@)
                ==> call_gives(r@, module_name@, function_name@),
    {
        let ghost module = module_name@;
        let ghost function = function_name@;
        match call_arguments_common(&self.common_vm, &args, &kwargs) {
            Ok(f_args) => {
                let outcome = self.common_vm.call_python_function(module_name, function_name, f_args);
                let ghost given = outcome;
                let r = outcome_to_host(&self.common_vm, outcome);
                proof {
                    if self.loaded().dom().contains(module) {
                        match given {
                            Ok(value) => {
                                assert(host_image(value, DEPTH_LIMIT as nat, r@));
                            },
                            Err(e) => {
                                assert(call_failure(e, module, function) && r@ == HostModel::Text(
                                    e.rendering(),
                                ));
                            },
                        }
                    }
                }
                r
            },
            Err(e) => e.to_host_value(),
        }
    }
}

/// The text shown for a failure begins with the error marker, so it is
/// never the text that stands for success.
pub proof fn lemma_rendering_is_not_success(e: BridgeError)
    ensures
        e.rendering() != SUCCESS@,
{
    reveal_strlit("Error: ");
    reveal_strlit("Success");
    assert(e.rendering()[0] == 'E');
    assert(SUCCESS@[0] == 'S');
}

} // verus!
