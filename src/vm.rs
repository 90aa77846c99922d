use vstd::prelude::*;

verus! {

/// The failure that ends one execution of a program.
#[derive(Debug, PartialEq)]
pub struct RuntimeError {
    pub message: String,
}

/// What one `run` or `step` reports: whether the program is done, and the
/// message of the runtime error that ended it, if one did.
#[derive(Debug, PartialEq)]
pub struct Output {
    finished: bool,
    runtime_error: Option<String>,
}

/// An outcome as the host sees it: finished or not, and the error message.
pub type Outcome = (bool, Option<Seq<char>>);

impl View for Output {
    type V = Outcome;

    closed spec fn view(&self) -> Outcome {
        (
            self.finished,
            match self.runtime_error {
                Some(m) => Some(m@),
                None => None,
            },
        )
    }
}

impl Output {
    pub fn finished(&self) -> (r: bool)
        ensures
            r == self@.0,
    {
        self.finished
    }

    pub fn runtime_error(&self) -> (r: Option<String>)
        ensures
            r is Some <==> self@.1 is Some,
            r matches Some(m) ==> self@.1 == Some(m@),
    {
        match &self.runtime_error {
            Some(m) => Some(m.clone()),
            None => None,
        }
    }

    /// The program ran to its end.
    pub fn successful() -> (r: Output)
        ensures
            r@ == (true, None::<Seq<char>>),
    {
        Output { finished: true, runtime_error: None }
    }

    /// The program was ended by a runtime error.
    pub fn runtime_err(err: RuntimeError) -> (r: Output)
        ensures
            r@ == (true, Some(err.message@)),
    {
        Output { finished: true, runtime_error: Some(err.message) }
    }

    /// The program has instructions left.
    pub fn unfinished() -> (r: Output)
        ensures
            r@ == (false, None::<Seq<char>>),
    {
        Output { finished: false, runtime_error: None }
    }
}

/// Where an execution stands.
#[derive(PartialEq, Eq, Structural, Clone, Copy, Debug)]
pub enum VmState {
    /// Compiled, and not yet run or stepped.
    Ready,
    /// Stepped at least once, with instructions left.
    Suspended,
    /// Ended, normally or by a runtime error; it takes no more calls.
    Finished,
}

/// What the host is told after the engine ran a program to its end.
pub open spec fn run_outcome(res: Result<(), RuntimeError>) -> Outcome {
    match res {
        Ok(_) => (true, None),
        Err(e) => (true, Some(e.message@)),
    }
}

/// What the host is told after the engine ran one instruction; `Ok(true)`
/// from the engine means that instructions remain.
pub open spec fn step_outcome(res: Result<bool, RuntimeError>) -> Outcome {
    match res {
        Ok(more) => (!more, None),
        Err(e) => (true, Some(e.message@)),
    }
}

/// The state after a step that reported the given outcome.
pub open spec fn state_after(out: Outcome) -> VmState {
    if out.0 {
        VmState::Finished
    } else {
        VmState::Suspended
    }
}

/// The engine's results for the steps of one whole execution: instructions
/// remain after every step but the last.
pub open spec fn is_step_trace(t: Seq<Result<bool, RuntimeError>>) -> bool {
    &&& t.len() > 0
    &&& forall|i: int| 0 <= i < t.len() - 1 ==> #[trigger] t[i] == Ok::<bool, RuntimeError>(true)
    &&& t.last() != Ok::<bool, RuntimeError>(true)
}

/// Whether every step of `t`, taken in turn from state `s`, is allowed.
pub open spec fn steps_allowed(s: VmState, t: Seq<Result<bool, RuntimeError>>) -> bool
    decreases t.len(),
{
    t.len() == 0 || (s != VmState::Finished && steps_allowed(
        state_after(step_outcome(t[0])),
        t.drop_first(),
    ))
}

/// The state after taking the steps of `t` in turn from state `s`.
pub open spec fn state_after_steps(s: VmState, t: Seq<Result<bool, RuntimeError>>) -> VmState
    decreases t.len(),
{
    if t.len() == 0 {
        s
    } else {
        state_after_steps(state_after(step_outcome(t[0])), t.drop_first())
    }
}

/// Whether the engine's result for running a program to its end agrees with
/// the result of its last step.
pub open spec fn run_agrees(run: Result<(), RuntimeError>, last: Result<bool, RuntimeError>) -> bool {
    match run {
        Ok(_) => last == Ok::<bool, RuntimeError>(false),
        Err(e) => last == Err::<bool, RuntimeError>(e),
    }
}

/// Stepping through a whole execution from a state that takes calls: each
/// step is allowed, every step but the last reports that the program is not
/// finished, the last reports that it is, and the execution is then finished
/// and allows no further step.
pub proof fn stepping_finishes_once(s: VmState, t: Seq<Result<bool, RuntimeError>>)
    requires
        s != VmState::Finished,
        is_step_trace(t),
    ensures
        steps_allowed(s, t),
        forall|i: int| 0 <= i < t.len() - 1 ==> !(#[trigger] step_outcome(t[i])).0,
        step_outcome(t.last()).0,
        state_after_steps(s, t) == VmState::Finished,
        forall|next: Result<bool, RuntimeError>| !steps_allowed(s, #[trigger] t.push(next)),
    decreases t.len(),
{
    if t.len() > 1 {
        assert(t[0] == Ok::<bool, RuntimeError>(true));
        let rest = t.drop_first();
        assert forall|i: int| 0 <= i < rest.len() - 1 implies #[trigger] rest[i] == Ok::<
            bool,
            RuntimeError,
        >(true) by {
            assert(rest[i] == t[i + 1]);
        }
        stepping_finishes_once(VmState::Suspended, rest);
        assert forall|next: Result<bool, RuntimeError>| !steps_allowed(s, #[trigger] t.push(next)) by {
            assert(t.push(next)[0] == t[0]);
            assert(t.push(next).drop_first() == rest.push(next));
            assert(!steps_allowed(VmState::Suspended, rest.push(next)));
        }
    } else {
        let after = state_after(step_outcome(t[0]));
        assert(after == VmState::Finished);
        assert(t.drop_first().len() == 0);
        assert(steps_allowed(after, t.drop_first()));
        assert(state_after_steps(after, t.drop_first()) == after);
        assert forall|next: Result<bool, RuntimeError>| !steps_allowed(s, #[trigger] t.push(next)) by {
            let u = t.push(next);
            assert(u[0] == t[0]);
            assert(u.drop_first() == seq![next]);
            assert(!steps_allowed(after, seq![next]));
        }
    }
}

/// Running a program to its end and stepping it through to its end tell the
/// host the same outcome and leave the execution in the same state, wherever
/// the engine's result for the run agrees with that of its last step.
pub proof fn run_matches_stepping(
    s: VmState,
    t: Seq<Result<bool, RuntimeError>>,
    run: Result<(), RuntimeError>,
)
    requires
        s != VmState::Finished,
        is_step_trace(t),
        run_agrees(run, t.last()),
    ensures
        run_outcome(run) == step_outcome(t.last()),
        state_after_steps(s, t) == VmState::Finished,
{
    stepping_finishes_once(s, t);
}

/// A compiled program and the state of its execution.
#[derive(Debug)]
pub struct WasmVm<P> {
    interpreter: P,
    state: VmState,
}

impl<P> WasmVm<P> {
    pub closed spec fn spec_interpreter(&self) -> P {
        self.interpreter
    }

    pub closed spec fn spec_state(&self) -> VmState {
        self.state
    }

    /// An execution of a freshly compiled program.
    pub fn new(interpreter: P) -> (r: WasmVm<P>)
        ensures
            r.spec_interpreter() == interpreter,
            r.spec_state() == VmState::Ready,
    {
        WasmVm { interpreter, state: VmState::Ready }
    }

    pub fn state(&self) -> (r: VmState)
        ensures
            r == self.spec_state(),
    {
        self.state
    }

    pub fn is_finished(&self) -> (r: bool)
        ensures
            r == (self.spec_state() == VmState::Finished),
    {
        self.state == VmState::Finished
    }

    /// The program, for the engine to run; the state is left as it is.
    pub fn interpreter_mut(&mut self) -> (r: &mut P)
        ensures
            *r == old(self).spec_interpreter(),
            final(self).spec_interpreter() == *final(r),
            final(self).spec_state() == old(self).spec_state(),
    {
        &mut self.interpreter
    }

    /// Records that the engine ran the program to its end, with the given
    /// result.
    pub fn interpret(&mut self, res: Result<(), RuntimeError>) -> (r: Output)
        requires
            old(self).spec_state() != VmState::Finished,
        ensures
            r@ == run_outcome(res),
            final(self).spec_state() == VmState::Finished,
            final(self).spec_interpreter() == old(self).spec_interpreter(),
    {
        self.state = VmState::Finished;
        match res {
            Ok(_) => Output::successful(),
            Err(runtime_error) => Output::runtime_err(runtime_error),
        }
    }

    /// Records that the engine ran one instruction, with the given result.
    pub fn step(&mut self, res: Result<bool, RuntimeError>) -> (r: Output)
        requires
            old(self).spec_state() != VmState::Finished,
        ensures
            r@ == step_outcome(res),
            final(self).spec_state() == state_after(r@),
            final(self).spec_interpreter() == old(self).spec_interpreter(),
    {
        let out = match res {
            Ok(not_finished) => {
                if not_finished {
                    Output::unfinished()
                } else {
                    Output::successful()
                }
            },
            Err(runtime_error) => Output::runtime_err(runtime_error),
        };
        self.state = if out.finished() {
            VmState::Finished
        } else {
            VmState::Suspended
        };
        out
    }
}

} // verus!
