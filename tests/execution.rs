use wasm_vm::compile::{compile, compile_result, native_table, CompilerErr};
use wasm_vm::native::NativeFunction;
use wasm_vm::native::{marshal_args, IntoNative, JsNativeFn, NativeImpl};
use wasm_vm::value::{HostValue, JsConvert, Value};
use wasm_vm::vm::{Output, RuntimeError, VmState, WasmVm};

fn err(message: &str) -> RuntimeError {
    RuntimeError { message: message.to_string() }
}

#[test]
fn output_constructors() {
    let ok = Output::successful();
    assert!(ok.finished());
    assert_eq!(ok.runtime_error(), None);
    let more = Output::unfinished();
    assert!(!more.finished());
    assert_eq!(more.runtime_error(), None);
    let failed = Output::runtime_err(err("division by zero"));
    assert!(failed.finished());
    assert_eq!(failed.runtime_error(), Some("division by zero".to_string()));
}

#[test]
fn new_vm_is_ready() {
    let vm = WasmVm::new(5u32);
    assert_eq!(vm.state(), VmState::Ready);
    assert!(!vm.is_finished());
}

#[test]
fn interpret_success() {
    let mut vm = WasmVm::new(());
    let out = vm.interpret(Ok(()));
    assert!(out.finished());
    assert_eq!(out.runtime_error(), None);
    assert!(vm.is_finished());
}

#[test]
fn interpret_runtime_error() {
    let mut vm = WasmVm::new(());
    let out = vm.interpret(Err(err("undefined variable 'x'")));
    assert!(out.finished());
    assert_eq!(out.runtime_error(), Some("undefined variable 'x'".to_string()));
    assert_eq!(vm.state(), VmState::Finished);
}

#[test]
fn error_on_third_step() {
    let mut vm = WasmVm::new(());
    let first = vm.step(Ok(true));
    assert!(!first.finished());
    assert_eq!(first.runtime_error(), None);
    assert_eq!(vm.state(), VmState::Suspended);
    let second = vm.step(Ok(true));
    assert!(!second.finished());
    assert_eq!(second.runtime_error(), None);
    let third = vm.step(Err(err("type error")));
    assert!(third.finished());
    assert_eq!(third.runtime_error(), Some("type error".to_string()));
    assert!(vm.is_finished());
}

#[test]
fn last_step_finishes_normally() {
    let mut vm = WasmVm::new(());
    assert!(!vm.step(Ok(true)).finished());
    let last = vm.step(Ok(false));
    assert!(last.finished());
    assert_eq!(last.runtime_error(), None);
    assert!(vm.is_finished());
}

#[test]
fn run_and_stepping_agree() {
    let mut run = WasmVm::new(());
    let by_run = run.interpret(Err(err("boom")));
    let mut stepped = WasmVm::new(());
    let mut out = stepped.step(Ok(true));
    while !out.finished() {
        out = stepped.step(Err(err("boom")));
    }
    assert_eq!(by_run, out);
    assert_eq!(run.state(), stepped.state());
}

#[test]
fn interpreter_mut_reaches_program() {
    let mut vm = WasmVm::new(vec![1u8]);
    vm.interpreter_mut().push(2);
    assert_eq!(*vm.interpreter_mut(), vec![1u8, 2]);
    assert_eq!(vm.state(), VmState::Ready);
}

#[test]
fn compile_success_gives_program_once() {
    let mut result = compile("print 1;", Vec::<JsNativeFn<u8>>::new(), |_, _| Ok::<u32, Vec<CompilerErr>>(7));
    assert!(result.success());
    assert!(result.take_compile_errors().is_none());
    let mut vm = result.take_interpreter().unwrap();
    assert_eq!(vm.state(), VmState::Ready);
    assert_eq!(*vm.interpreter_mut(), 7);
    assert!(result.take_interpreter().is_none());
    assert!(result.success());
}

#[test]
fn invalid_source_gives_diagnostics_once() {
    let diagnostics = vec![
        CompilerErr::new(1, 4, 2, "Expected expression.".to_string()),
        CompilerErr::new(3, 0, 1, "Unexpected token.".to_string()),
    ];
    let mut result = compile("print (;", Vec::<JsNativeFn<u8>>::new(), |_, _| Err::<u32, _>(diagnostics));
    assert!(!result.success());
    assert!(result.take_interpreter().is_none());
    let errors = result.take_compile_errors().unwrap();
    assert_eq!(errors.len(), 2);
    assert!(errors[0].line >= 1);
    assert_eq!(errors[0].start, 4);
    assert_eq!(errors[0].len, 2);
    assert_eq!(errors[0].message(), "Expected expression.");
    assert_eq!(errors[1].line, 3);
    assert!(result.take_compile_errors().is_none());
    assert!(result.take_interpreter().is_none());
}

#[test]
fn native_fn_into_native() {
    let f = JsNativeFn::new("add".to_string(), 2, 11u32);
    let n = f.into_native();
    assert_eq!(n.name, "add");
    assert_eq!(n.arity, 2);
    assert_eq!(n.function, NativeImpl::Host(11u32));
}

#[test]
fn table_always_ends_with_time() {
    let table = native_table::<u32>(vec![]);
    assert_eq!(table.len(), 1);
    assert_eq!(table[0].name, "time");
    assert_eq!(table[0].arity, 0);
    assert_eq!(table[0].function, NativeImpl::Clock);
}

#[test]
fn table_keeps_registration_order() {
    let natives = vec![
        JsNativeFn::new("b".to_string(), 1, 1u32),
        JsNativeFn::new("a".to_string(), 3, 2u32),
        JsNativeFn::new("time".to_string(), 0, 3u32),
    ];
    let table = native_table(natives);
    let names: Vec<&str> = table.iter().map(|n| n.name.as_str()).collect();
    assert_eq!(names, vec!["b", "a", "time", "time"]);
    assert_eq!(table[0].arity, 1);
    assert_eq!(table[1].arity, 3);
    assert_eq!(table[1].function, NativeImpl::Host(2u32));
    assert_eq!(table[2].function, NativeImpl::Host(3u32));
    assert_eq!(table[3].function, NativeImpl::Clock);
}

#[test]
fn native_add_sees_its_arguments() {
    let add = |args: &[f64]| args[0] + args[1];
    let table = native_table(vec![JsNativeFn::new("add".to_string(), 2, add)]);
    assert_eq!(table[0].name, "add");
    assert_eq!(table[0].arity, 2);
    let vals = vec![Value::Number(2.0f64.to_bits()), Value::Number(3.0f64.to_bits())];
    let js = marshal_args(&vals).unwrap();
    let seen: Vec<f64> = js.iter().map(|h| f64::from_bits(h.number.unwrap())).collect();
    assert_eq!(seen, vec![2.0, 3.0]);
    let result = match &table[0].function {
        NativeImpl::Host(f) => f(&seen),
        NativeImpl::Clock => unreachable!(),
    };
    let back = HostValue { null: false, undefined: false, number: Some(result.to_bits()), boolean: None, string: None };
    assert_eq!(Value::from_js(back), Some(Value::Number(5.0f64.to_bits())));
    let mut vm = compile_result::<()>(Ok(())).take_interpreter().unwrap();
    let out = vm.interpret(Ok(()));
    assert!(out.finished());
    assert_eq!(out.runtime_error(), None);
}

#[test]
fn compile_hands_engine_source_and_table() {
    let natives = vec![JsNativeFn::new("add".to_string(), 2, 1u8)];
    let mut result = compile("add(2, 3);", natives, |source: &str, table: Vec<NativeFunction<u8>>| {
        assert_eq!(source, "add(2, 3);");
        let names: Vec<(String, u8)> = table.iter().map(|n| (n.name.clone(), n.arity)).collect();
        assert_eq!(names, vec![("add".to_string(), 2), ("time".to_string(), 0)]);
        assert_eq!(table[1].function, NativeImpl::Clock);
        Ok::<usize, Vec<CompilerErr>>(table.len())
    });
    assert!(result.success());
    let mut vm = result.take_interpreter().unwrap();
    assert_eq!(*vm.interpreter_mut(), 2);
}

#[test]
fn compile_result_failure_keeps_all_diagnostics() {
    let mut result = compile_result::<u8>(Err(vec![
        CompilerErr::new(2, 0, 3, "a".to_string()),
        CompilerErr::new(2, 5, 1, "b".to_string()),
        CompilerErr::new(4, 1, 1, "c".to_string()),
    ]));
    assert!(!result.success());
    let messages: Vec<String> = result.take_compile_errors().unwrap().iter().map(|e| e.message()).collect();
    assert_eq!(messages, vec!["a", "b", "c"]);
}
