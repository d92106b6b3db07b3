//! What the machine does, stated on models: the values the evaluator builds
//! for itself, the call protocol, one step, and a bounded run.

use crate::ir::Prim;
use crate::model::{extend, lookup, ErrorModel, FrameModel, InstrModel, MachineModel, ValueModel};
use crate::vm::Outcome;
use vstd::prelude::*;

verus! {

/// `λx.x`: a closure with no code and no bindings. Entered with an argument,
/// it returns at once, and what it returns is the value at index 1: the
/// argument.
pub open spec fn identity_model() -> ValueModel {
    ValueModel::Closure { code: Seq::empty(), env: Seq::empty() }
}

/// `λa.λb.b`.
pub open spec fn church_false_model() -> ValueModel {
    ValueModel::Closure {
        code: seq![InstrModel::Abs { arity: 1, body: Seq::empty() }],
        env: Seq::empty(),
    }
}

/// `λa.λb.a`: in the inner body index 3 is the captured identity and index 2
/// is the first argument.
pub open spec fn church_true_model() -> ValueModel {
    ValueModel::Closure {
        code: seq![
            InstrModel::Abs { arity: 1, body: seq![InstrModel::App { func: 3, arg: 2 }] },
        ],
        env: seq![identity_model()],
    }
}

/// The Church boolean for `b`.
pub open spec fn church_model(b: bool) -> ValueModel {
    if b {
        church_true_model()
    } else {
        church_false_model()
    }
}

/// The closure that an abstraction of the given arity and body forms in
/// `env`. With arity 1 the closure runs the body. With a larger arity it takes
/// one argument and forms the abstraction of the next smaller arity around it.
pub open spec fn closure_model(arity: nat, body: Seq<InstrModel>, env: Seq<ValueModel>)
    -> ValueModel {
    if arity <= 1 {
        ValueModel::Closure { code: body, env }
    } else {
        ValueModel::Closure {
            code: seq![InstrModel::Abs { arity: (arity - 1) as nat, body }],
            env,
        }
    }
}

/// The environment every program starts in: `In` at index 1, the letter `w`
/// at 2, `Succ` at 3 and `Out` at 4.
pub open spec fn seed_model() -> Seq<ValueModel> {
    seq![
        ValueModel::Prim(Prim::In),
        ValueModel::Char(119),
        ValueModel::Prim(Prim::Succ),
        ValueModel::Prim(Prim::Out),
    ]
}

/// The machine about to run `code`: the seeded environment, and a dump that
/// holds one frame with no code and no bindings.
pub open spec fn initial_model(code: Seq<InstrModel>) -> MachineModel {
    MachineModel {
        code,
        env: seed_model(),
        dump: seq![FrameModel { code: Seq::empty(), env: Seq::empty() }],
    }
}

/// Applies `func` to `arg` in machine `m`, whose code is what remains after
/// the application. `input` is the byte that `In` reads, `None` at the end of
/// the input; nothing else looks at it.
pub open spec fn call_model(
    m: MachineModel,
    func: ValueModel,
    arg: ValueModel,
    input: Option<u8>,
) -> Result<(MachineModel, Outcome), ErrorModel> {
    match func {
        ValueModel::Char(expected) => Ok(
            (m.bind(church_model(arg == ValueModel::Char(expected))), Outcome::Continue),
        ),
        ValueModel::Closure { code, env } => Ok(
            (
                MachineModel {
                    code,
                    env: extend(env, arg),
                    dump: m.dump.push(FrameModel { code: m.code, env: m.env }),
                },
                Outcome::Continue,
            ),
        ),
        ValueModel::Prim(Prim::In) => match input {
            Some(b) => Ok((m.bind(ValueModel::Char(b)), Outcome::Continue)),
            None => Ok((m.bind(arg), Outcome::Continue)),
        },
        ValueModel::Prim(Prim::Succ) => match arg {
            ValueModel::Char(b) => Ok(
                (m.bind(ValueModel::Char(((b + 1) % 256) as u8)), Outcome::Continue),
            ),
            _ => Err(ErrorModel::NotAChar(arg)),
        },
        ValueModel::Prim(Prim::Out) => match arg {
            ValueModel::Char(b) => Ok((m.bind(arg), Outcome::Emit(b))),
            _ => Err(ErrorModel::NotAChar(arg)),
        },
    }
}

/// One step of the machine.
///
/// With code left, the front instruction runs. With no code but a frame on
/// the dump, the value at index 1 is returned to that frame. With neither,
/// the value at index 1 decides: a closure is applied to itself, anything
/// else halts the machine.
pub open spec fn step_model(m: MachineModel, input: Option<u8>) -> Result<
    (MachineModel, Outcome),
    ErrorModel,
> {
    if m.code.len() > 0 {
        let rest = MachineModel { code: m.code.drop_first(), ..m };
        match m.code[0] {
            InstrModel::App { func, arg } => match lookup(m.env, func) {
                None => Err(ErrorModel::IndexOutOfBounds(func)),
                Some(f) => match lookup(m.env, arg) {
                    None => Err(ErrorModel::IndexOutOfBounds(arg)),
                    Some(a) => call_model(rest, f, a, input),
                },
            },
            InstrModel::Abs { arity, body } => Ok(
                (rest.bind(closure_model(arity, body, m.env)), Outcome::Continue),
            ),
        }
    } else if m.dump.len() > 0 {
        match lookup(m.env, 1) {
            None => Err(ErrorModel::IllegalState),
            Some(rv) => Ok(
                (
                    MachineModel {
                        code: m.dump.last().code,
                        env: extend(m.dump.last().env, rv),
                        dump: m.dump.drop_last(),
                    },
                    Outcome::Continue,
                ),
            ),
        }
    } else {
        match lookup(m.env, 1) {
            None => Err(ErrorModel::IllegalState),
            Some(rv) => match rv {
                ValueModel::Closure { code, env } => Ok(
                    (MachineModel { code, env: extend(env, rv), dump: m.dump }, Outcome::Continue),
                ),
                _ => Ok((m, Outcome::Halt)),
            },
        }
    }
}

/// Whether the next step reads a byte: it applies `In`, and both of its
/// operands are bound.
pub open spec fn reads_input(m: MachineModel) -> bool {
    &&& m.code.len() > 0
    &&& m.code[0] matches InstrModel::App { func, arg }
    &&& lookup(m.env, func) == Some(ValueModel::Prim(Prim::In))
    &&& lookup(m.env, arg) is Some
}

/// The bytes that a step with this outcome writes.
pub open spec fn emitted(outcome: Outcome) -> Seq<u8> {
    match outcome {
        Outcome::Emit(b) => seq![b],
        _ => Seq::empty(),
    }
}

/// Where a bounded run ended.
pub struct RunModel {
    /// The machine as the run left it.
    pub machine: MachineModel,
    /// The bytes written, in order.
    pub output: Seq<u8>,
    /// How many bytes of the input were read.
    pub consumed: nat,
    /// `Ok(true)` when the machine halted, `Ok(false)` when the steps ran
    /// out first, and the fault when a step failed.
    pub end: Result<bool, ErrorModel>,
}

/// Runs `m` for at most `fuel` steps. A step that reads takes the next byte
/// of `input`, or learns that none is left.
pub open spec fn run_model(m: MachineModel, input: Seq<u8>, fuel: nat) -> RunModel
    decreases fuel,
{
    if fuel == 0 {
        RunModel { machine: m, output: Seq::empty(), consumed: 0, end: Ok(false) }
    } else {
        let byte = if input.len() > 0 {
            Some(input[0])
        } else {
            None
        };
        match step_model(m, byte) {
            Err(e) => RunModel { machine: m, output: Seq::empty(), consumed: 0, end: Err(e) },
            Ok((next, Outcome::Halt)) => RunModel {
                machine: next,
                output: Seq::empty(),
                consumed: 0,
                end: Ok(true),
            },
            Ok((next, outcome)) => {
                let took = reads_input(m) && input.len() > 0;
                let rest = run_model(
                    next,
                    if took {
                        input.drop_first()
                    } else {
                        input
                    },
                    (fuel - 1) as nat,
                );
                RunModel {
                    machine: rest.machine,
                    output: emitted(outcome) + rest.output,
                    consumed: rest.consumed + if took {
                        1nat
                    } else {
                        0nat
                    },
                    end: rest.end,
                }
            },
        }
    }
}

} // verus!
