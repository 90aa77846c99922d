use vstd::prelude::*;

use crate::native::{IntoNative, JsNativeFn, NativeFunction, NativeImpl};
use crate::vm::{VmState, WasmVm};

verus! {

/// One compile diagnostic: the 1-based line, the 0-based offset and the
/// length of the span, and a message.
#[derive(Debug, PartialEq)]
pub struct CompilerErr {
    pub line: usize,
    pub start: usize,
    pub len: usize,
    message: String,
}

impl CompilerErr {
    pub closed spec fn spec_line(&self) -> usize {
        self.line
    }

    pub closed spec fn spec_start(&self) -> usize {
        self.start
    }

    pub closed spec fn spec_len(&self) -> usize {
        self.len
    }

    pub closed spec fn spec_message(&self) -> String {
        self.message
    }

    pub fn new(line: usize, start: usize, len: usize, message: String) -> (r: CompilerErr)
        ensures
            r.spec_line() == line,
            r.spec_start() == start,
            r.spec_len() == len,
            r.spec_message() == message,
    {
        CompilerErr { line, start, len, message }
    }

    pub fn message(&self) -> (r: String)
        ensures
            r == self.spec_message(),
    {
        self.message.clone()
    }
}

/// Whether `e` is the entry of the native table that reads the clock: named
/// `time`, of arity 0.
pub open spec fn is_clock_entry<F>(e: NativeFunction<F>) -> bool {
    &&& e.name@ == seq!['t', 'i', 'm', 'e']
    &&& e.arity == 0
    &&& e.function is Clock
}

/// Whether `table` is the native table for the host's functions `natives`:
/// each of them in its order, then the clock.
pub open spec fn is_native_table<F>(natives: Seq<JsNativeFn<F>>, table: Seq<NativeFunction<F>>) -> bool {
    &&& table.len() == natives.len() + 1
    &&& forall|i: int| 0 <= i < natives.len() ==> table[i] == (#[trigger] natives[i]).native_spec()
    &&& is_clock_entry(table[natives.len() as int])
}

/// The native table that a program is compiled against: the host's functions
/// in the order given, and after them the clock, `time`.
pub fn native_table<F>(natives: Vec<JsNativeFn<F>>) -> (r: Vec<NativeFunction<F>>)
    requires
        natives@.len() < usize::MAX,
    ensures
        is_native_table(natives@, r@),
{
    let ghost given = natives@;
    let mut table: Vec<NativeFunction<F>> = Vec::new();
    for native in it: natives.into_iter()
        invariant
            it.seq() == given,
            table@.len() == it.index(),
            forall|j: int| 0 <= j < table@.len() ==> table@[j] == (#[trigger] given[j]).native_spec(),
    {
        table.push(native.into_native());
    }
    let time = NativeFunction { name: "time".to_owned(), arity: 0, function: NativeImpl::Clock };
    proof {
        reveal_strlit("time");
    }
    assert(table@.len() == given.len());
    assert(time.name@ == seq!['t', 'i', 'm', 'e']);
    table.push(time);
    assert(is_clock_entry(table@[given.len() as int]));
    table
}

/// The result of a compile: a program ready to run, or the diagnostics.
///
/// Each of the two can be taken once; after that the slot is empty.
#[derive(Debug)]
pub struct CompileResult<P> {
    success: bool,
    vm: Option<WasmVm<P>>,
    compile_errors: Option<Vec<CompilerErr>>,
}

impl<P> CompileResult<P> {
    pub closed spec fn spec_success(&self) -> bool {
        self.success
    }

    pub closed spec fn spec_vm(&self) -> Option<WasmVm<P>> {
        self.vm
    }

    pub closed spec fn spec_compile_errors(&self) -> Option<Vec<CompilerErr>> {
        self.compile_errors
    }

    /// The result once the program has been taken from it.
    pub closed spec fn without_vm(self) -> CompileResult<P> {
        CompileResult { vm: None, ..self }
    }

    /// The result once the diagnostics have been taken from it.
    pub closed spec fn without_compile_errors(self) -> CompileResult<P> {
        CompileResult { compile_errors: None, ..self }
    }

    pub fn success(&self) -> (r: bool)
        ensures
            r == self.spec_success(),
    {
        self.success
    }

    /// The program, the first time; `None` after that.
    pub fn take_interpreter(&mut self) -> (r: Option<WasmVm<P>>)
        ensures
            r == old(self).spec_vm(),
            *final(self) == old(self).without_vm(),
            final(self).spec_vm() is None,
            final(self).spec_success() == old(self).spec_success(),
            final(self).spec_compile_errors() == old(self).spec_compile_errors(),
    {
        self.vm.take()
    }

    /// The diagnostics, the first time; `None` after that.
    pub fn take_compile_errors(&mut self) -> (r: Option<Vec<CompilerErr>>)
        ensures
            r == old(self).spec_compile_errors(),
            *final(self) == old(self).without_compile_errors(),
            final(self).spec_compile_errors() is None,
            final(self).spec_success() == old(self).spec_success(),
            final(self).spec_vm() == old(self).spec_vm(),
    {
        self.compile_errors.take()
    }

    fn new_success(interpreter: P) -> (r: CompileResult<P>)
        ensures
            r.spec_success(),
            r.spec_vm() matches Some(vm) && vm.spec_state() == VmState::Ready
                && vm.spec_interpreter() == interpreter,
            r.spec_compile_errors() is None,
    {
        CompileResult { success: true, vm: Some(WasmVm::new(interpreter)), compile_errors: None }
    }

    fn new_failure(errors: Vec<CompilerErr>) -> (r: CompileResult<P>)
        ensures
            !r.spec_success(),
            r.spec_vm() is None,
            r.spec_compile_errors() == Some(errors),
    {
        CompileResult { success: false, vm: None, compile_errors: Some(errors) }
    }
}

/// Whether `r` is the result of a compile on which the engine gave `outcome`:
/// on a program, success with that program ready to run and no diagnostics;
/// on diagnostics, failure with all of them and no program.
pub open spec fn compiled_from<P>(r: CompileResult<P>, outcome: Result<P, Vec<CompilerErr>>) -> bool {
    match outcome {
        Ok(p) => {
            &&& r.spec_success()
            &&& r.spec_vm() matches Some(vm) && vm.spec_state() == VmState::Ready
                && vm.spec_interpreter() == p
            &&& r.spec_compile_errors() is None
        },
        Err(errors) => {
            &&& !r.spec_success()
            &&& r.spec_vm() is None
            &&& r.spec_compile_errors() == Some(errors)
        },
    }
}

/// The result of a compile, from what the engine's compiler gave.
pub fn compile_result<P>(outcome: Result<P, Vec<CompilerErr>>) -> (r: CompileResult<P>)
    ensures
        compiled_from(r, outcome),
{
    match outcome {
        Ok(interpreter) => CompileResult::new_success(interpreter),
        Err(compiler_errors) => CompileResult::new_failure(compiler_errors),
    }
}

/// Compiles `source` with the engine's compiler `engine`, against the native
/// table of the host's functions `natives`: the result is what `engine` gave
/// for the source and that table.
pub fn compile<F, P, C>(source: &str, natives: Vec<JsNativeFn<F>>, engine: C) -> (r: CompileResult<P>)
    where
        C: FnOnce(&str, Vec<NativeFunction<F>>) -> Result<P, Vec<CompilerErr>>,
    requires
        natives@.len() < usize::MAX,
        forall|table: Vec<NativeFunction<F>>|
            is_native_table(natives@, table@) ==> engine.requires((source, table)),
    ensures
        exists|table: Vec<NativeFunction<F>>, outcome: Result<P, Vec<CompilerErr>>|
            is_native_table(natives@, table@) && engine.ensures((source, table), outcome)
                && compiled_from(r, outcome),
{
    let table = native_table(natives);
    let outcome = engine(source, table);
    compile_result(outcome)
}

/// A compile yields either a program and no diagnostics, or no program and
/// a batch of diagnostics that is not empty, wherever the engine reports at
/// least one diagnostic when it fails.
pub proof fn compile_yields_one_of_two<P>(
    r: CompileResult<P>,
    outcome: Result<P, Vec<CompilerErr>>,
)
    requires
        compiled_from(r, outcome),
        outcome matches Err(errors) ==> errors@.len() > 0,
    ensures
        r.spec_success() ==> r.spec_vm() is Some && r.spec_compile_errors() is None,
        !r.spec_success() ==> r.spec_vm() is None && (r.spec_compile_errors() matches Some(
            errors,
        ) && errors@.len() > 0),
{
}

/// Taking the program or the diagnostics a second time yields nothing, and
/// leaves the result as the first take left it.
pub proof fn second_take_is_empty<P>(r: CompileResult<P>)
    ensures
        r.without_vm().spec_vm() is None,
        r.without_vm().without_vm() == r.without_vm(),
        r.without_compile_errors().spec_compile_errors() is None,
        r.without_compile_errors().without_compile_errors() == r.without_compile_errors(),
{
}

} // verus!
