//! The evaluator: an abstract machine over compiled code, persistent
//! environments and a dump of suspended callers.
//!
//! The machine does no input or output of its own. A step is handed the byte
//! it may read and says which byte, if any, is to be written.

use crate::ast::{valid, Prog};
use crate::ir::{
    clone_code, code_model, compile, compile_model, lemma_push_front, Code, Env, Frame, Instr, Prim,
    State, Value,
};
use crate::model::{ErrorModel, InstrModel, MachineModel, ValueModel};
use crate::num::Positive;
use crate::semantics::{
    call_model, church_false_model, church_model, church_true_model, emitted, identity_model,
    initial_model, reads_input, run_model, seed_model, step_model,
};
use std::collections::VecDeque;
use vstd::prelude::*;

verus! {

/// The machine.
pub struct VM {
    state: State,
}

/// A fault that stops evaluation.
#[derive(Debug, PartialEq)]
pub enum RuntimeError {
    /// An application named an index deeper than the environment.
    IndexOutOfBounds(Positive),
    /// A return or the end of the program found the environment empty.
    IllegalState,
    /// `Succ` or `Out` was applied to something other than a character.
    NotAChar(Value),
}

/// What a successful step asks of whoever drives the machine.
#[derive(Clone, Copy, Debug, PartialEq, Eq)]
pub enum Outcome {
    /// Nothing: take the next step.
    Continue,
    /// Write this byte, then take the next step.
    Emit(u8),
    /// The program is over.
    Halt,
}

/// How a bounded run ended without a fault.
#[derive(Clone, Copy, Debug, PartialEq, Eq)]
pub struct Run {
    /// Whether the machine halted. If not, the steps ran out first.
    pub halted: bool,
    /// How many bytes of the input were read.
    pub consumed: usize,
}

impl View for RuntimeError {
    type V = ErrorModel;

    open spec fn view(&self) -> ErrorModel {
        match *self {
            RuntimeError::IndexOutOfBounds(k) => ErrorModel::IndexOutOfBounds(k@),
            RuntimeError::IllegalState => ErrorModel::IllegalState,
            RuntimeError::NotAChar(v) => ErrorModel::NotAChar(v@),
        }
    }
}

impl View for VM {
    type V = MachineModel;

    closed spec fn view(&self) -> MachineModel {
        self.state@
    }
}

/// `λx.x`.
pub fn identity() -> (r: Value)
    ensures
        r@ == identity_model(),
{
    let code: Code = VecDeque::new();
    let r = Value::Closure { code, env: Env::nil() };
    assert(r@->code =~= Seq::empty());
    r
}

/// `λa.λb.b`.
pub fn church_false() -> (r: Value)
    ensures
        r@ == church_false_model(),
{
    let body: Code = VecDeque::new();
    let mut code: Code = VecDeque::new();
    code.push_back(Instr::Abs { arity: Positive::one(), body });
    let r = Value::Closure { code, env: Env::nil() };
    assert(code_model(body) =~= Seq::empty());
    assert(r@->code =~= church_false_model()->code);
    r
}

/// `λa.λb.a`.
pub fn church_true() -> (r: Value)
    ensures
        r@ == church_true_model(),
{
    let three = Positive::new(3).unwrap();
    let two = Positive::new(2).unwrap();
    let mut body: Code = VecDeque::new();
    body.push_back(Instr::App { func_idx: three, arg_idx: two });
    let mut code: Code = VecDeque::new();
    code.push_back(Instr::Abs { arity: Positive::one(), body });
    let env = Env::nil().push(identity());
    let r = Value::Closure { code, env };
    assert(code_model(body) =~= seq![InstrModel::App { func: 3, arg: 2 }]);
    assert(r@->code =~= church_true_model()->code);
    r
}

impl VM {
    /// The machine about to run the program `prog`.
    pub fn new(prog: &Prog) -> (vm: VM)
        requires
            valid(prog@),
        ensures
            vm@ == initial_model(compile_model(prog@)),
    {
        VM::from_code(compile(prog).unwrap())
    }

    /// The machine about to run `code0`, in the seeded environment and with
    /// one empty frame on the dump.
    pub fn from_code(code0: Code) -> (vm: VM)
        ensures
            vm@ == initial_model(code_model(code0)),
    {
        let env0 = Env::nil().push(Value::Prim(Prim::Out)).push(Value::Prim(Prim::Succ)).push(
            Value::Char(119),
        ).push(Value::Prim(Prim::In));
        let mut dump0: Vec<Frame> = Vec::new();
        let empty: Code = VecDeque::new();
        dump0.push(Frame { code: empty, env: Env::nil() });
        let vm = VM { state: State { code: code0, env: env0, dump: dump0 } };
        assert(vm@.env =~= seed_model());
        assert(code_model(empty) =~= Seq::empty());
        assert(vm@.dump =~= initial_model(code_model(code0)).dump);
        vm
    }

    /// The machine in the given state.
    pub fn from_state(state: State) -> (vm: VM)
        ensures
            vm@ == state@,
    {
        VM { state }
    }

    /// The state of the machine.
    pub fn state(&self) -> (s: &State)
        ensures
            s@ == self@,
    {
        &self.state
    }

    /// Whether the next step reads a byte of input.
    pub fn wants_input(&self) -> (b: bool)
        ensures
            b == reads_input(self@),
    {
        if self.state.code.len() == 0 {
            return false;
        }
        match &self.state.code[0] {
            Instr::App { func_idx, arg_idx } => {
                match self.state.env.get(*func_idx) {
                    Some(Value::Prim(Prim::In)) => self.state.env.get(*arg_idx).is_some(),
                    _ => false,
                }
            },
            Instr::Abs { .. } => false,
        }
    }

    /// Applies `func` to `arg`. The code of the machine is what follows the
    /// application. `input` is the byte that `In` reads, `None` at the end
    /// of the input. A fault leaves the machine as it was.
    pub fn call(&mut self, func: Value, arg: Value, input: Option<u8>) -> (r: Result<
        Outcome,
        RuntimeError,
    >)
        ensures
            match r {
                Ok(o) => call_model(old(self)@, func@, arg@, input) == Ok::<
                    (MachineModel, Outcome),
                    ErrorModel,
                >((final(self)@, o)),
                Err(e) => call_model(old(self)@, func@, arg@, input) == Err::<
                    (MachineModel, Outcome),
                    ErrorModel,
                >(e@) && final(self)@ == old(self)@,
            },
            func@ matches ValueModel::Char(b) ==> r == Ok::<Outcome, RuntimeError>(
                Outcome::Continue,
            ) && final(self)@ == old(self)@.bind(church_model(arg@ == ValueModel::Char(b))),
            arg@ matches ValueModel::Char(b) ==> (func@ == ValueModel::Prim(Prim::Succ) ==> r == Ok::<
                Outcome,
                RuntimeError,
            >(Outcome::Continue) && final(self)@ == old(self)@.bind(
                ValueModel::Char(((b + 1) % 256) as u8),
            )),
            arg@ matches ValueModel::Char(b) ==> (func@ == ValueModel::Prim(Prim::Out) ==> r == Ok::<
                Outcome,
                RuntimeError,
            >(Outcome::Emit(b)) && final(self)@ == old(self)@.bind(ValueModel::Char(b))),
    {
        match func {
            Value::Char(expected) => {
                let same = match arg {
                    Value::Char(actual) => actual == expected,
                    _ => false,
                };
                let rv = if same {
                    church_true()
                } else {
                    church_false()
                };
                self.state.env = self.state.env.push(rv);
                Ok(Outcome::Continue)
            },
            Value::Closure { code, env } => {
                let mut code = code;
                std::mem::swap(&mut self.state.code, &mut code);
                let frame = Frame { code, env: self.state.env.clone() };
                self.state.dump.push(frame);
                self.state.env = env.push(arg);
                assert(self@.dump =~= old(self)@.dump.push(frame@));
                Ok(Outcome::Continue)
            },
            Value::Prim(Prim::In) => {
                let rv = match input {
                    Some(b) => Value::Char(b),
                    None => arg,
                };
                self.state.env = self.state.env.push(rv);
                Ok(Outcome::Continue)
            },
            Value::Prim(Prim::Succ) => match arg {
                Value::Char(b) => {
                    self.state.env = self.state.env.push(Value::Char(b.wrapping_add(1)));
                    Ok(Outcome::Continue)
                },
                other => Err(RuntimeError::NotAChar(other)),
            },
            Value::Prim(Prim::Out) => match arg {
                Value::Char(b) => {
                    self.state.env = self.state.env.push(Value::Char(b));
                    Ok(Outcome::Emit(b))
                },
                other => Err(RuntimeError::NotAChar(other)),
            },
        }
    }

    /// Takes one step. `input` is the byte that the step reads if it applies
    /// `In`, `None` at the end of the input; no other step looks at it. A
    /// fault leaves the machine as it was.
    pub fn step(&mut self, input: Option<u8>) -> (r: Result<Outcome, RuntimeError>)
        ensures
            match r {
                Ok(o) => step_model(old(self)@, input) == Ok::<(MachineModel, Outcome), ErrorModel>(
                    (final(self)@, o),
                ),
                Err(e) => step_model(old(self)@, input) == Err::<
                    (MachineModel, Outcome),
                    ErrorModel,
                >(e@) && final(self)@ == old(self)@,
            },
    {
        match self.state.code.pop_front() {
            Some(Instr::App { func_idx, arg_idx }) => {
                assert(code_model(self.state.code) =~= old(self)@.code.drop_first());
                let result = match self.state.env.get(func_idx) {
                    None => Err(RuntimeError::IndexOutOfBounds(func_idx)),
                    Some(f) => match self.state.env.get(arg_idx) {
                        None => Err(RuntimeError::IndexOutOfBounds(arg_idx)),
                        Some(a) => {
                            let func = f.clone();
                            let arg = a.clone();
                            self.call(func, arg, input)
                        },
                    },
                };
                if result.is_err() {
                    let ghost rest = self.state.code;
                    self.state.code.push_front(Instr::App { func_idx, arg_idx });
                    proof {
                        lemma_push_front(rest, self.state.code, Instr::App { func_idx, arg_idx });
                        assert(code_model(self.state.code) =~= old(self)@.code);
                    }
                }
                result
            },
            Some(Instr::Abs { arity, body }) => {
                assert(code_model(self.state.code) =~= old(self)@.code.drop_first());
                let env = self.state.env.clone();
                let closure = if arity.get() == 1 {
                    Value::Closure { code: body, env }
                } else {
                    let smaller = Positive::new(arity.get() - 1).unwrap();
                    let mut code: Code = VecDeque::new();
                    code.push_back(Instr::Abs { arity: smaller, body });
                    assert(code_model(code) =~= seq![
                        InstrModel::Abs { arity: (arity@ - 1) as nat, body: code_model(body) },
                    ]);
                    Value::Closure { code, env }
                };
                self.state.env = self.state.env.push(closure);
                Ok(Outcome::Continue)
            },
            None => {
                let rv = match self.state.env.get(Positive::one()) {
                    None => {
                        return Err(RuntimeError::IllegalState);
                    },
                    Some(v) => v.clone(),
                };
                match self.state.dump.pop() {
                    Some(frame) => {
                        assert(self@.dump =~= old(self)@.dump.drop_last());
                        self.state.code = frame.code;
                        self.state.env = frame.env.push(rv);
                        Ok(Outcome::Continue)
                    },
                    None => {
                        match rv {
                            Value::Closure { code, env } => {
                                let itself = Value::Closure {
                                    code: clone_code(&code),
                                    env: env.clone(),
                                };
                                self.state.code = code;
                                self.state.env = env.push(itself);
                                Ok(Outcome::Continue)
                            },
                            _ => Ok(Outcome::Halt),
                        }
                    },
                }
            },
        }
    }

    /// Runs the machine for at most `fuel` steps. Bytes that `In` reads come
    /// from `input`, in order; bytes that `Out` writes are appended to
    /// `output`. The run ends when the machine halts, when a step fails, or
    /// when the steps run out. After a fault `output` holds what was written
    /// before it.
    pub fn run(&mut self, input: &[u8], output: &mut Vec<u8>, fuel: usize) -> (r: Result<
        Run,
        RuntimeError,
    >)
        ensures
            final(self)@ == run_model(old(self)@, input@, fuel as nat).machine,
            final(output)@ == old(output)@ + run_model(old(self)@, input@, fuel as nat).output,
            match r {
                Ok(run) => {
                    &&& run_model(old(self)@, input@, fuel as nat).end == Ok::<bool, ErrorModel>(
                        run.halted,
                    )
                    &&& run.consumed == run_model(old(self)@, input@, fuel as nat).consumed
                },
                Err(e) => run_model(old(self)@, input@, fuel as nat).end == Err::<bool, ErrorModel>(
                    e@,
                ),
            },
    {
        let ghost whole = run_model(old(self)@, input@, fuel as nat);
        let mut left: usize = fuel;
        let mut pos: usize = 0;
        assert(input@.skip(0) =~= input@);
        while left > 0
            invariant
                pos <= input@.len(),
                whole == run_model(old(self)@, input@, fuel as nat),
                whole.machine == run_model(self@, input@.skip(pos as int), left as nat).machine,
                whole.output == (output@.skip(old(output)@.len() as int) + run_model(
                    self@,
                    input@.skip(pos as int),
                    left as nat,
                ).output),
                whole.consumed == pos + run_model(
                    self@,
                    input@.skip(pos as int),
                    left as nat,
                ).consumed,
                whole.end == run_model(self@, input@.skip(pos as int), left as nat).end,
                output@.len() >= old(output)@.len(),
                output@.take(old(output)@.len() as int) == old(output)@,
            decreases left,
        {
            let reads = self.wants_input();
            let took = reads && pos < input.len();
            let byte = if pos < input.len() {
                Some(input[pos])
            } else {
                None
            };
            match self.step(byte) {
                Err(e) => {
                    return Err(e);
                },
                Ok(Outcome::Halt) => {
                    return Ok(Run { halted: true, consumed: pos });
                },
                Ok(Outcome::Emit(b)) => {
                    output.push(b);
                },
                Ok(Outcome::Continue) => {},
            }
            assert(took ==> input@.skip(pos as int).drop_first() =~= input@.skip(pos + 1));
            if took {
                pos += 1;
            }
            left -= 1;
        }
        Ok(Run { halted: false, consumed: pos })
    }
}

} // verus!
