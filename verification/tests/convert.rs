use godot_python::convert::{
    call_arguments, exception_class_for, find_duplicate_keyword, first_reading, keyword_arguments,
    make_callable, pair_objects, positional_arguments, read_entries, read_items, same_text,
    to_host, to_host_within, to_scripting, ExceptionClass, Reading, DEPTH_LIMIT,
};
use godot_python::errors::BridgeError;
use godot_python::host_value::HostValue;
use godot_python::python_vm_common::CommonPythonVM;
use rustpython_vm::builtins::{PyBaseException, PyDict, PyList};
use rustpython_vm::convert::TryFromObject;
use rustpython_vm::function::{FuncArgs, KwArgs};
use rustpython_vm::{AsObject, PyObjectRef, VirtualMachine};
use std::cell::RefCell;
use std::rc::Rc;

fn read(source: &str) -> String {
    let common_vm = CommonPythonVM::init();
    let value = common_vm.eval(source.to_string()).unwrap();
    let host = common_vm.enter(|vm| to_host(vm, &value));
    format!("{:?}", host)
}

fn text(s: &str) -> HostValue {
    HostValue::Text(s.to_string())
}

fn decided(outcomes: (bool, bool, bool, bool, bool, bool)) -> &'static str {
    let (integer, float, text, boolean, list, dict) = outcomes;
    let reading = first_reading(
        &integer.then_some(1),
        float,
        &text.then_some("t".to_string()),
        &boolean.then_some(true),
        list,
        dict,
    );
    match reading {
        Reading::Integer => "integer",
        Reading::Float => "float",
        Reading::Text => "text",
        Reading::Boolean => "boolean",
        Reading::Sequence => "sequence",
        Reading::Mapping => "mapping",
        Reading::Unrecognized => "unrecognized",
    }
}

#[test]
fn the_first_attempt_that_succeeded_decides() {
    assert_eq!(decided((false, false, false, false, false, false)), "unrecognized");
    assert_eq!(decided((true, true, true, true, true, true)), "integer");
    assert_eq!(decided((true, false, false, true, false, false)), "integer");
    assert_eq!(decided((false, true, true, true, true, true)), "float");
    assert_eq!(decided((false, false, true, true, true, true)), "text");
    assert_eq!(decided((false, false, false, true, true, true)), "boolean");
    assert_eq!(decided((false, false, false, false, true, true)), "sequence");
    assert_eq!(decided((false, false, false, false, false, true)), "mapping");
    assert_eq!(decided((false, true, false, false, false, false)), "float");
    assert_eq!(decided((false, false, true, false, false, true)), "text");
}

#[test]
fn an_integer_is_read_as_an_integer() {
    assert_eq!(read("42"), "Int(42)");
    assert_eq!(read("-42"), "Int(-42)");
    assert_eq!(read("0"), "Int(0)");
    assert_eq!(read("2**63 - 1"), "Int(9223372036854775807)");
    assert_eq!(read("-2**63"), "Int(-9223372036854775808)");
}

#[test]
fn a_float_is_read_as_the_object_that_holds_it() {
    let common_vm = CommonPythonVM::init();
    let value = common_vm.eval("42.5".to_string()).unwrap();
    common_vm.enter(|vm| match to_host(vm, &value) {
        HostValue::Float(handle) => {
            assert_eq!(f64::try_from_object(vm, handle).unwrap(), 42.5);
        }
        other => panic!("unexpected value: {:?}", other),
    });
    let whole = common_vm.eval("42.0".to_string()).unwrap();
    common_vm.enter(|vm| assert!(matches!(to_host(vm, &whole), HostValue::Float(_))));
}

#[test]
fn a_text_is_read_as_a_text() {
    assert_eq!(read("'hello'"), "Text(\"hello\")");
    assert_eq!(read("''"), "Text(\"\")");
    assert_eq!(read("'1'"), "Text(\"1\")");
}

#[test]
fn a_boolean_is_read_as_the_integer_it_is() {
    assert_eq!(read("True"), "Int(1)");
    assert_eq!(read("False"), "Int(0)");
}

#[test]
fn an_integer_beyond_64_bits_is_read_as_its_truth() {
    assert_eq!(read("2**63"), "Bool(true)");
    assert_eq!(read("-2**70"), "Bool(true)");
}

#[test]
fn none_and_what_is_not_recognised_are_read_as_nil() {
    assert_eq!(read("None"), "Nil");
    assert_eq!(read("len"), "Nil");
    assert_eq!(read("(1, 2)"), "Nil");
    assert_eq!(read("b'bytes'"), "Nil");
    assert_eq!(read("def f():\n  pass\nf"), "Nil");
}

#[test]
fn a_list_is_read_as_a_sequence_in_order() {
    assert_eq!(read("[]"), "Sequence([])");
    assert_eq!(
        read("[1, 'a', [2, None], True]"),
        "Sequence([Int(1), Text(\"a\"), Sequence([Int(2), Nil]), Int(1)])"
    );
}

#[test]
fn a_dictionary_is_read_as_a_mapping_in_insertion_order() {
    assert_eq!(read("{}"), "Mapping([])");
    assert_eq!(
        read("{'b': 1, 'a': [2], 3: 'c'}"),
        "Mapping([(Text(\"b\"), Int(1)), (Text(\"a\"), Sequence([Int(2)])), (Int(3), Text(\"c\"))])"
    );
}

fn depth_of(value: &HostValue) -> usize {
    match value {
        HostValue::Sequence(items) => 1 + items.iter().map(depth_of).max().unwrap_or(0),
        _ => 0,
    }
}

#[test]
fn nesting_is_followed_to_the_depth_given_and_no_further() {
    assert_eq!(DEPTH_LIMIT, usize::MAX);
    let common_vm = CommonPythonVM::init();
    let shallow = common_vm
        .eval("x = 7\nfor i in range(64):\n  x = [x]\nx".to_string())
        .unwrap();
    let deep = common_vm
        .eval("x = 7\nfor i in range(65):\n  x = [x]\nx".to_string())
        .unwrap();
    common_vm.enter(|vm| {
        for mut value in [to_host_within(vm, &shallow, 64), to_host(vm, &shallow)] {
            assert_eq!(depth_of(&value), 64);
            for _ in 0..64 {
                value = match value {
                    HostValue::Sequence(mut items) => items.pop().unwrap(),
                    other => panic!("unexpected value: {:?}", other),
                };
            }
            assert!(matches!(value, HostValue::Int(7)));
        }

        let mut value = to_host_within(vm, &deep, 64);
        assert_eq!(depth_of(&value), 64);
        for _ in 0..64 {
            value = match value {
                HostValue::Sequence(mut items) => items.pop().unwrap(),
                other => panic!("unexpected value: {:?}", other),
            };
        }
        assert!(matches!(value, HostValue::Nil));
        assert_eq!(depth_of(&to_host(vm, &deep)), 65);

        assert!(matches!(to_host_within(vm, &shallow, 0), HostValue::Nil));
        assert_eq!(
            format!("{:?}", to_host_within(vm, &shallow, 1)),
            "Sequence([Nil])"
        );
    });
}

#[test]
fn a_list_that_holds_itself_is_read_to_the_depth_given() {
    let common_vm = CommonPythonVM::init();
    let value = common_vm.eval("a = [1]\na.append(a)\na".to_string()).unwrap();
    common_vm.enter(|vm| {
        let host = to_host_within(vm, &value, 64);
        assert_eq!(depth_of(&host), 64);
        assert_eq!(
            format!("{:?}", to_host_within(vm, &value, 2)),
            "Sequence([Int(1), Sequence([Int(1), Nil])])"
        );
    });
}

#[test]
fn handed_out_elements_and_entries_are_read_one_by_one() {
    let common_vm = CommonPythonVM::init();
    let list = common_vm.eval("[1.5, 'a', [2], True]".to_string()).unwrap();
    let dict = common_vm.eval("{'k': 1.5, 'l': 'v'}".to_string()).unwrap();
    common_vm.enter(|vm| {
        let items = list.downcast_ref::<PyList>().unwrap().borrow_vec().to_vec();
        let parts = read_items(vm, &items, 1);
        assert_eq!(parts.len(), 4);
        match &parts[0] {
            HostValue::Float(handle) => {
                assert!(handle.is(&items[0]));
                assert_eq!(f64::try_from_object(vm, handle.clone()).unwrap(), 1.5);
            }
            other => panic!("unexpected value: {:?}", other),
        }
        assert_eq!(format!("{:?}", &parts[1..]), "[Text(\"a\"), Sequence([Int(2)]), Int(1)]");
        assert_eq!(format!("{:?}", read_items(vm, &items, 0)[2]), "Nil");
        assert!(read_items(vm, &vec![], 3).is_empty());

        let entries: Vec<(PyObjectRef, PyObjectRef)> =
            dict.downcast_ref::<PyDict>().unwrap().into_iter().collect();
        let pairs = read_entries(vm, &entries, 0);
        assert_eq!(pairs.len(), 2);
        assert_eq!(format!("{:?}", pairs[0].0), "Text(\"k\")");
        assert!(matches!(pairs[0].1, HostValue::Float(ref h) if h.is(&entries[0].1)));
        assert_eq!(format!("{:?}", pairs[1]), "(Text(\"l\"), Text(\"v\"))");
    });
}

#[test]
fn pairs_become_pairs_of_objects_in_order() {
    let common_vm = CommonPythonVM::init();
    common_vm.enter(|vm| {
        let float: PyObjectRef = vm.ctx.new_float(42.5).into();
        let pairs = pair_objects(
            vm,
            &vec![
                (text("key1"), text("value1")),
                (text("key3"), HostValue::Float(float.clone())),
                (HostValue::Sequence(vec![]), HostValue::Int(0)),
                (text("key4"), HostValue::Bool(true)),
            ],
        );
        assert_eq!(pairs.len(), 4);
        assert_eq!(String::try_from_object(vm, pairs[0].0.clone()).unwrap(), "key1");
        assert_eq!(String::try_from_object(vm, pairs[0].1.clone()).unwrap(), "value1");
        assert!(pairs[1].1.is(&float));
        assert_eq!(class_name(&pairs[2].0), "list");
        assert!(pairs[3].1.is(&vm.ctx.true_value));
        assert!(pair_objects(vm, &vec![]).is_empty());
    });
}

#[test]
fn a_mapping_is_stored_in_order_without_what_the_runtime_refuses() {
    let common_vm = CommonPythonVM::init();
    common_vm.enter(|vm| {
        let float: PyObjectRef = vm.ctx.new_float(42.5).into();
        let dict = to_scripting(
            vm,
            &HostValue::Mapping(vec![
                (text("key1"), text("value1")),
                (text("key3"), HostValue::Float(float.clone())),
                (HostValue::Sequence(vec![]), HostValue::Int(0)),
                (text("key4"), HostValue::Bool(true)),
            ]),
        );
        let entries: Vec<(PyObjectRef, PyObjectRef)> =
            dict.downcast_ref::<PyDict>().unwrap().into_iter().collect();
        assert_eq!(entries.len(), 3);
        assert_eq!(String::try_from_object(vm, entries[0].0.clone()).unwrap(), "key1");
        assert_eq!(String::try_from_object(vm, entries[1].0.clone()).unwrap(), "key3");
        assert!(entries[1].1.is(&float));
        assert_eq!(String::try_from_object(vm, entries[2].0.clone()).unwrap(), "key4");
        assert!(entries[2].1.is(&vm.ctx.true_value));
    });
}

const CLASSES: &str = r#"
class Number(float):
  pass

class Bag(set):
  pass

class Word(str):
  pass

class Row(list):
  pass

def number():
  return Number(2.5)

def word():
  return Word("abc")

def into_bag(x):
  x.__class__ = Bag

def into_row(x):
  x.__class__ = Row
"#;

fn made_by(common_vm: &CommonPythonVM, function: &str) -> PyObjectRef {
    common_vm
        .call_python_function("classes".to_string(), function.to_string(), FuncArgs::default())
        .unwrap()
}

fn changed_by(common_vm: &CommonPythonVM, function: &str, x: &PyObjectRef) {
    common_vm
        .call_python_function(
            "classes".to_string(),
            function.to_string(),
            FuncArgs::new(vec![x.clone()], KwArgs::default()),
        )
        .unwrap();
}

#[test]
fn an_object_is_read_by_the_class_it_has_at_the_time() {
    let mut common_vm = CommonPythonVM::init();
    common_vm.load_module("classes".to_string(), CLASSES.to_string()).unwrap();

    let number = made_by(&common_vm, "number");
    assert!(matches!(
        common_vm.enter(|vm| to_host(vm, &number)),
        HostValue::Float(ref h) if h.is(&number)
    ));
    changed_by(&common_vm, "into_bag", &number);
    assert!(matches!(common_vm.enter(|vm| to_host(vm, &number)), HostValue::Nil));

    let word = made_by(&common_vm, "word");
    assert!(matches!(
        common_vm.enter(|vm| to_host(vm, &word)),
        HostValue::Text(ref s) if s == "abc"
    ));
    changed_by(&common_vm, "into_row", &word);
    assert!(matches!(common_vm.enter(|vm| to_host(vm, &word)), HostValue::Nil));
}

#[test]
fn the_class_of_what_the_bridge_makes_cannot_be_replaced() {
    let mut common_vm = CommonPythonVM::init();
    common_vm.load_module("classes".to_string(), CLASSES.to_string()).unwrap();
    let made = common_vm.enter(|vm| {
        vec![
            to_scripting(vm, &text("abc")),
            to_scripting(vm, &HostValue::Int(7)),
            to_scripting(vm, &HostValue::Bool(true)),
        ]
    });
    for x in &made {
        for function in ["into_bag", "into_row"] {
            let r = common_vm.call_python_function(
                "classes".to_string(),
                function.to_string(),
                FuncArgs::new(vec![x.clone()], KwArgs::default()),
            );
            assert!(matches!(r, Err(BridgeError::CallError(_))));
        }
    }
    common_vm.enter(|vm| {
        assert_eq!(format!("{:?}", to_host(vm, &made[0])), "Text(\"abc\")");
        assert_eq!(format!("{:?}", to_host(vm, &made[1])), "Int(7)");
        assert_eq!(format!("{:?}", to_host(vm, &made[2])), "Int(1)");
    });
}

fn class_name(obj: &PyObjectRef) -> String {
    obj.class().name().to_string()
}

#[test]
fn host_values_become_scripting_objects_by_their_tag() {
    let common_vm = CommonPythonVM::init();
    common_vm.enter(|vm| {
        let none = to_scripting(vm, &HostValue::Nil);
        assert!(vm.is_none(&none));

        let yes = to_scripting(vm, &HostValue::Bool(true));
        assert_eq!(class_name(&yes), "bool");
        assert!(yes.is(&vm.ctx.true_value));
        let no = to_scripting(vm, &HostValue::Bool(false));
        assert!(no.is(&vm.ctx.false_value));

        let int = to_scripting(vm, &HostValue::Int(-7));
        assert_eq!(class_name(&int), "int");
        assert_eq!(i64::try_from_object(vm, int).unwrap(), -7);

        let s = to_scripting(vm, &text("test"));
        assert_eq!(class_name(&s), "str");
        assert_eq!(String::try_from_object(vm, s).unwrap(), "test");

        let float: PyObjectRef = vm.ctx.new_float(1.5).into();
        let same = to_scripting(vm, &HostValue::Float(float.clone()));
        assert!(same.is(&float));

        let bytes = to_scripting(vm, &HostValue::Bytes(vec![0, 1, 255]));
        assert_eq!(class_name(&bytes), "bytes");
        assert_eq!(format!("{:?}", to_host(vm, &bytes)), "Nil");
        let length: PyObjectRef = vm.builtins.get_attr("len", vm).unwrap();
        let size = length.call((bytes,), vm).unwrap();
        assert_eq!(i64::try_from_object(vm, size).unwrap(), 3);

        let callable: PyObjectRef = vm.builtins.get_attr("len", vm).unwrap();
        let same = to_scripting(vm, &HostValue::Callable(callable.clone()));
        assert!(same.is(&callable));

        let list = to_scripting(
            vm,
            &HostValue::Sequence(vec![HostValue::Int(1), text("a"), HostValue::Sequence(vec![])]),
        );
        let items = list.downcast_ref::<PyList>().unwrap().borrow_vec().to_vec();
        assert_eq!(items.len(), 3);
        assert_eq!(i64::try_from_object(vm, items[0].clone()).unwrap(), 1);
        assert_eq!(String::try_from_object(vm, items[1].clone()).unwrap(), "a");
        assert!(items[2].downcast_ref::<PyList>().unwrap().borrow_vec().is_empty());

        let dict = to_scripting(
            vm,
            &HostValue::Mapping(vec![
                (text("key1"), text("value1")),
                (text("key2"), HostValue::Int(42)),
                (text("key1"), text("later")),
                (HostValue::Sequence(vec![]), HostValue::Int(0)),
            ]),
        );
        let entries: Vec<(PyObjectRef, PyObjectRef)> =
            dict.downcast_ref::<PyDict>().unwrap().into_iter().collect();
        assert_eq!(entries.len(), 2);
        assert_eq!(String::try_from_object(vm, entries[0].0.clone()).unwrap(), "key1");
        assert_eq!(String::try_from_object(vm, entries[0].1.clone()).unwrap(), "later");
        assert_eq!(String::try_from_object(vm, entries[1].0.clone()).unwrap(), "key2");
        assert_eq!(i64::try_from_object(vm, entries[1].1.clone()).unwrap(), 42);
    });
}

fn raised(kind: &str) -> (String, String) {
    let common_vm = CommonPythonVM::init();
    common_vm.enter(|vm| {
        let error = to_scripting(
            vm,
            &HostValue::Error { kind: kind.to_string(), message: "went wrong".to_string() },
        );
        assert!(matches!(to_host(vm, &error), HostValue::Nil));
        let class = class_name(&error);
        let exception = error.downcast::<PyBaseException>().unwrap();
        let args = exception.args();
        assert_eq!(args.len(), 1);
        (class, String::try_from_object(vm, args.as_slice()[0].clone()).unwrap())
    })
}

#[test]
fn a_host_error_becomes_an_exception_of_the_matching_class() {
    assert_eq!(raised("TypeError"), ("TypeError".to_string(), "went wrong".to_string()));
    assert_eq!(raised("ReferenceError"), ("NameError".to_string(), "went wrong".to_string()));
    assert_eq!(raised("SyntaxError"), ("SyntaxError".to_string(), "went wrong".to_string()));
    assert_eq!(raised("RangeError"), ("Exception".to_string(), "went wrong".to_string()));
    assert_eq!(raised(""), ("Exception".to_string(), "went wrong".to_string()));
}

#[test]
fn exception_classes_by_kind() {
    assert_eq!(exception_class_for("TypeError"), ExceptionClass::TypeError);
    assert_eq!(exception_class_for("ReferenceError"), ExceptionClass::NameError);
    assert_eq!(exception_class_for("SyntaxError"), ExceptionClass::SyntaxError);
    assert_eq!(exception_class_for("Error"), ExceptionClass::Exception);
    assert_eq!(exception_class_for("typeerror"), ExceptionClass::Exception);
    assert_eq!(exception_class_for(""), ExceptionClass::Exception);
    assert!(same_text("abc", "abc"));
    assert!(!same_text("abc", "abd"));
    assert!(!same_text("abc", "ab"));
    assert!(same_text("", ""));
}

#[test]
fn primitives_come_back_as_they_went() {
    let common_vm = CommonPythonVM::init();
    common_vm.enter(|vm| {
        for i in [0i64, 1, -1, 42, i64::MAX, i64::MIN] {
            let back = to_host(vm, &to_scripting(vm, &HostValue::Int(i)));
            assert!(matches!(back, HostValue::Int(j) if j == i));
        }
        for s in ["", "test", "1", "True", "line\nbreak", "\u{e9}\u{4e16}"] {
            let back = to_host(vm, &to_scripting(vm, &text(s)));
            assert!(matches!(back, HostValue::Text(ref t) if t == s));
        }
        for x in [0.0f64, -0.0, 42.5, 42.0, f64::INFINITY, f64::MIN_POSITIVE] {
            let handle: PyObjectRef = vm.ctx.new_float(x).into();
            let back = to_host(vm, &to_scripting(vm, &HostValue::Float(handle)));
            match back {
                HostValue::Float(h) => {
                    assert_eq!(f64::try_from_object(vm, h).unwrap().to_bits(), x.to_bits())
                }
                other => panic!("unexpected value: {:?}", other),
            }
        }
        let back = to_host(vm, &to_scripting(vm, &HostValue::Nil));
        assert!(matches!(back, HostValue::Nil));
    });
}

#[test]
fn a_boolean_comes_back_as_one_or_zero() {
    let common_vm = CommonPythonVM::init();
    common_vm.enter(|vm| {
        let back = to_host(vm, &to_scripting(vm, &HostValue::Bool(true)));
        assert!(matches!(back, HostValue::Int(1)));
        let back = to_host(vm, &to_scripting(vm, &HostValue::Bool(false)));
        assert!(matches!(back, HostValue::Int(0)));
    });
}

#[test]
fn collections_of_primitives_come_back_part_by_part() {
    let common_vm = CommonPythonVM::init();
    common_vm.enter(|vm| {
        let value = HostValue::Sequence(vec![
            HostValue::Int(42),
            text("a"),
            HostValue::Mapping(vec![(text("k"), HostValue::Int(1)), (text("l"), text("v"))]),
        ]);
        let back = to_host(vm, &to_scripting(vm, &value));
        assert_eq!(format!("{:?}", back), format!("{:?}", value));
    });
}

#[test]
fn positional_arguments_keep_their_order() {
    let common_vm = CommonPythonVM::init();
    common_vm.enter(|vm| {
        let empty = positional_arguments(vm, &vec![]);
        assert!(empty.is_empty());
        let args = positional_arguments(
            vm,
            &vec![HostValue::Int(42), HostValue::Bool(true), text("test")],
        );
        assert_eq!(args.len(), 3);
        assert_eq!(i64::try_from_object(vm, args[0].clone()).unwrap(), 42);
        assert!(args[1].is(&vm.ctx.true_value));
        assert_eq!(String::try_from_object(vm, args[2].clone()).unwrap(), "test");
    });
}

fn kwargs_of(keys: &[&str]) -> Vec<(String, HostValue)> {
    keys.iter().enumerate().map(|(i, k)| (k.to_string(), HostValue::Int(i as i64))).collect()
}

#[test]
fn the_first_keyword_used_again_is_found() {
    assert_eq!(find_duplicate_keyword(&kwargs_of(&[])), None);
    assert_eq!(find_duplicate_keyword(&kwargs_of(&["a"])), None);
    assert_eq!(find_duplicate_keyword(&kwargs_of(&["a", "b", "c"])), None);
    assert_eq!(find_duplicate_keyword(&kwargs_of(&["a", "a"])), Some(1));
    assert_eq!(find_duplicate_keyword(&kwargs_of(&["a", "b", "a", "b"])), Some(2));
    assert_eq!(find_duplicate_keyword(&kwargs_of(&["a", "b", "b", "a"])), Some(2));
    assert_eq!(find_duplicate_keyword(&kwargs_of(&["", "x", ""])), Some(2));
}

#[test]
fn keyword_arguments_keep_their_order_and_refuse_a_key_used_twice() {
    let common_vm = CommonPythonVM::init();
    common_vm.enter(|vm| {
        let entries = keyword_arguments(
            vm,
            &vec![
                ("bool".to_string(), HostValue::Bool(true)),
                ("str".to_string(), text("test")),
                ("num".to_string(), HostValue::Int(42)),
            ],
        )
        .unwrap();
        assert_eq!(entries.len(), 3);
        assert_eq!(entries[0].0, "bool");
        assert!(entries[0].1.is(&vm.ctx.true_value));
        assert_eq!(entries[1].0, "str");
        assert_eq!(String::try_from_object(vm, entries[1].1.clone()).unwrap(), "test");
        assert_eq!(entries[2].0, "num");
        assert_eq!(i64::try_from_object(vm, entries[2].1.clone()).unwrap(), 42);

        let r = keyword_arguments(vm, &kwargs_of(&["n", "m", "n", "m"]));
        assert!(matches!(r, Err(BridgeError::DuplicateKeyword(ref key)) if key == "n"));
        let r = call_arguments(vm, &vec![HostValue::Int(1)], &kwargs_of(&["m", "n", "o", "o"]));
        match r {
            Err(e) => {
                assert!(matches!(e, BridgeError::DuplicateKeyword(ref key) if key == "o"));
                assert_eq!(e.message(), "Duplicate keyword: o");
                assert_eq!(e.render(), "Error: Duplicate keyword: o");
            }
            Ok(_) => panic!("a key used twice was accepted"),
        }

        let args = call_arguments(vm, &vec![HostValue::Int(1), text("two")], &kwargs_of(&["z", "a"]))
            .unwrap();
        assert_eq!(args.args.len(), 2);
        assert_eq!(String::try_from_object(vm, args.args[1].clone()).unwrap(), "two");
        let keys: Vec<&String> = args.kwargs.keys().collect();
        assert_eq!(keys, vec!["z", "a"]);
        assert_eq!(i64::try_from_object(vm, args.kwargs["a"].clone()).unwrap(), 1);
    });
}

const APPLY: &str = r#"
def apply(f):
  return f(1, "two", [3], k=4, l="five")

def attempt(f):
  try:
    f()
  except Exception as e:
    return type(e).__name__ + ":" + str(e)
  return "nothing raised"
"#;

#[test]
fn a_host_function_is_called_with_the_arguments_read_as_host_values() {
    let mut common_vm = CommonPythonVM::init();
    common_vm.load_module("applier".to_string(), APPLY.to_string()).unwrap();
    let seen: Rc<RefCell<Vec<String>>> = Rc::new(RefCell::new(Vec::new()));
    let log = seen.clone();
    let callable = common_vm.enter(|vm| {
        make_callable(vm, "host_function", move |_vm: &VirtualMachine, args, kwargs| {
            log.borrow_mut().push(format!("{:?} {:?}", args, kwargs));
            Ok(HostValue::Sequence(vec![HostValue::Int(args.len() as i64), text("done")]))
        })
    });
    assert!(format!("{:?}", callable).contains("host_function"));
    assert!(matches!(common_vm.enter(|vm| to_host(vm, &callable)), HostValue::Nil));
    let r = common_vm.enter(|vm| {
        let args = call_arguments(vm, &vec![HostValue::Callable(callable.clone())], &vec![]).unwrap();
        let r = common_vm
            .call_python_function("applier".to_string(), "apply".to_string(), args)
            .unwrap();
        format!("{:?}", to_host(vm, &r))
    });
    assert_eq!(r, "Sequence([Int(3), Text(\"done\")])");
    assert_eq!(
        *seen.borrow(),
        vec![
            "[Int(1), Text(\"two\"), Sequence([Int(3)])] [(\"k\", Int(4)), (\"l\", Text(\"five\"))]"
                .to_string()
        ]
    );
}

fn failing_with(failure: fn() -> HostValue) -> String {
    let mut common_vm = CommonPythonVM::init();
    common_vm.load_module("applier".to_string(), APPLY.to_string()).unwrap();
    common_vm.enter(|vm| {
        let callable =
            make_callable(vm, "host_function", move |_vm: &VirtualMachine, _args, _kwargs| Err(failure()));
        let args = call_arguments(vm, &vec![HostValue::Callable(callable)], &vec![]).unwrap();
        let r = common_vm
            .call_python_function("applier".to_string(), "attempt".to_string(), args)
            .unwrap();
        String::try_from_object(vm, r).unwrap()
    })
}

#[test]
fn a_host_function_can_use_the_machine_it_is_given() {
    let mut common_vm = CommonPythonVM::init();
    common_vm
        .load_module("halver".to_string(), "def half(f):\n  return f() / 2\n".to_string())
        .unwrap();
    common_vm.enter(|vm| {
        let callable = make_callable(vm, "seven", move |vm: &VirtualMachine, _args, _kwargs| {
            Ok(HostValue::Float(vm.ctx.new_float(7.0).into()))
        });
        let args = call_arguments(vm, &vec![HostValue::Callable(callable)], &vec![]).unwrap();
        let r = common_vm
            .call_python_function("halver".to_string(), "half".to_string(), args)
            .unwrap();
        assert_eq!(f64::try_from_object(vm, r).unwrap(), 3.5);
    });
}

#[test]
fn a_failing_host_function_raises_in_the_script() {
    assert_eq!(
        failing_with(|| HostValue::Error {
            kind: "TypeError".to_string(),
            message: "not a number".to_string()
        }),
        "TypeError:not a number"
    );
    assert_eq!(
        failing_with(|| HostValue::Error {
            kind: "ReferenceError".to_string(),
            message: "x is not defined".to_string()
        }),
        "NameError:x is not defined"
    );
    assert_eq!(failing_with(|| HostValue::Text("plain".to_string())), "Exception:plain");
    assert_eq!(failing_with(|| HostValue::Int(3)), "Exception:");
}
