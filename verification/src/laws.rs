//! What holds of the machine for all programs and values, proved from the
//! semantics.

use crate::ir::Prim;
use crate::model::{extend, lookup, ErrorModel, FrameModel, InstrModel, MachineModel, ValueModel};
use crate::semantics::{
    call_model, church_false_model, church_model, church_true_model, closure_model, emitted,
    identity_model, initial_model, reads_input, run_model, step_model, RunModel,
};
use crate::vm::Outcome;
use vstd::prelude::*;

verus! {

/// The machine after `n` steps that read nothing and write nothing, or
/// `None` if one of them fails, writes or halts.
pub open spec fn advance(m: MachineModel, n: nat) -> Option<MachineModel>
    decreases n,
{
    if n == 0 {
        Some(m)
    } else {
        match step_model(m, None) {
            Ok((next, Outcome::Continue)) => advance(next, (n - 1) as nat),
            _ => None,
        }
    }
}

/// The machine that has just entered a closure with code `code` and
/// environment `env` on the argument `arg`, called from `m`.
pub open spec fn entered(
    m: MachineModel,
    code: Seq<InstrModel>,
    env: Seq<ValueModel>,
    arg: ValueModel,
) -> MachineModel {
    MachineModel {
        code,
        env: extend(env, arg),
        dump: m.dump.push(FrameModel { code: m.code, env: m.env }),
    }
}

/// A step never empties the environment, so a machine whose environment
/// holds a value takes every step without finding it empty.
pub proof fn law_environment_stays_inhabited(m: MachineModel, input: Option<u8>)
    requires
        m.env.len() >= 1,
    ensures
        step_model(m, input) matches Ok((next, _)) ==> next.env.len() >= 1,
        step_model(m, input) != Err::<(MachineModel, Outcome), ErrorModel>(
            ErrorModel::IllegalState,
        ),
{
}

/// A run that starts with a value in the environment never ends in
/// `IllegalState`. Every program starts so.
pub proof fn law_run_never_finds_environment_empty(m: MachineModel, input: Seq<u8>, fuel: nat)
    requires
        m.env.len() >= 1,
    ensures
        run_model(m, input, fuel).machine.env.len() >= 1,
        run_model(m, input, fuel).end != Err::<bool, ErrorModel>(ErrorModel::IllegalState),
    decreases fuel,
{
    if fuel > 0 {
        let byte = if input.len() > 0 {
            Some(input[0])
        } else {
            None
        };
        law_environment_stays_inhabited(m, byte);
        if let Ok((next, outcome)) = step_model(m, byte) {
            if outcome != Outcome::Halt {
                let took = reads_input(m) && input.len() > 0;
                law_run_never_finds_environment_empty(
                    next,
                    if took {
                        input.drop_first()
                    } else {
                        input
                    },
                    (fuel - 1) as nat,
                );
            }
        }
    }
}

/// A run can be taken in two parts. If the first `a` steps neither halt nor
/// fail, then `b` more steps from where they ended, on the input they left,
/// end as `a + b` steps at once do: in the same state and with the same
/// verdict, having written and read what the two parts wrote and read
/// together.
pub proof fn law_run_resumes(m: MachineModel, input: Seq<u8>, a: nat, b: nat)
    requires
        run_model(m, input, a).end == Ok::<bool, ErrorModel>(false),
    ensures
        ({
            let first = run_model(m, input, a);
            let second = run_model(first.machine, input.skip(first.consumed as int), b);
            let whole = run_model(m, input, a + b);
            &&& first.consumed <= input.len()
            &&& whole.machine == second.machine
            &&& whole.end == second.end
            &&& whole.output == first.output + second.output
            &&& whole.consumed == first.consumed + second.consumed
        }),
    decreases a,
{
    if a == 0 {
        assert(input.skip(0) =~= input);
    } else {
        let byte = if input.len() > 0 {
            Some(input[0])
        } else {
            None
        };
        let next = step_model(m, byte)->Ok_0.0;
        let rest = if reads_input(m) && input.len() > 0 {
            input.drop_first()
        } else {
            input
        };
        law_run_resumes(next, rest, (a - 1) as nat, b);
        let read_later = run_model(next, rest, (a - 1) as nat).consumed;
        let read = run_model(m, input, a).consumed;
        assert(rest.skip(read_later as int) =~= input.skip(read as int));
    }
}

/// After a push, index 1 holds the pushed value, and every index `k + 1`
/// holds what index `k` held before.
pub proof fn law_lookup_after_push(env: Seq<ValueModel>, v: ValueModel, k: nat)
    requires
        k >= 1,
    ensures
        lookup(extend(env, v), 1) == Some(v),
        lookup(extend(env, v), k + 1) == lookup(env, k),
{
}

/// An abstraction of arity 2 or more is evaluated in one step: the code
/// after it and the dump stay, and the environment gains a closure over
/// itself whose code is the same abstraction with one argument fewer.
pub proof fn law_abstraction_unfolds(
    arity: nat,
    body: Seq<InstrModel>,
    m: MachineModel,
    input: Option<u8>,
)
    requires
        arity >= 2,
        m.code.len() > 0,
        m.code[0] == (InstrModel::Abs { arity, body }),
    ensures
        step_model(m, input) == Ok::<(MachineModel, Outcome), ErrorModel>(
            (
                MachineModel {
                    code: m.code.drop_first(),
                    env: extend(
                        m.env,
                        ValueModel::Closure {
                            code: seq![InstrModel::Abs { arity: (arity - 1) as nat, body }],
                            env: m.env,
                        },
                    ),
                    dump: m.dump,
                },
                Outcome::Continue,
            ),
        ),
{
}

/// Applying the closure of an abstraction of arity 2 or more to one argument
/// returns, two steps after the call, the closure of the abstraction with one
/// argument fewer, formed in the environment that holds the argument. The
/// caller goes on where it was.
pub proof fn law_partial_application(
    arity: nat,
    body: Seq<InstrModel>,
    captured: Seq<ValueModel>,
    arg: ValueModel,
    m: MachineModel,
    input: Option<u8>,
)
    requires
        arity >= 2,
    ensures
        call_model(m, closure_model(arity, body, captured), arg, input) matches Ok((called, out))
            && out == Outcome::Continue && advance(called, 2) == Some(
            m.bind(closure_model((arity - 1) as nat, body, extend(captured, arg))),
        ),
{
    let code = seq![InstrModel::Abs { arity: (arity - 1) as nat, body }];
    let called = entered(m, code, captured, arg);
    let inner = closure_model((arity - 1) as nat, body, extend(captured, arg));
    let formed = MachineModel { code: code.drop_first(), ..called }.bind(inner);
    assert(formed.dump.drop_last() =~= m.dump);
    reveal_with_fuel(advance, 3);
}

/// Applying the closure of an abstraction of arity 1 enters the body itself,
/// in the captured environment with the argument at index 1, and suspends the
/// caller.
pub proof fn law_last_application(
    body: Seq<InstrModel>,
    captured: Seq<ValueModel>,
    arg: ValueModel,
    m: MachineModel,
    input: Option<u8>,
)
    ensures
        call_model(m, closure_model(1, body, captured), arg, input) == Ok::<
            (MachineModel, Outcome),
            ErrorModel,
        >((entered(m, body, captured, arg), Outcome::Continue)),
{
}

/// The environment that holds `args`, bound in order, on top of `env`.
pub open spec fn bind_all(env: Seq<ValueModel>, args: Seq<ValueModel>) -> Seq<ValueModel>
    decreases args.len(),
{
    if args.len() == 0 {
        env
    } else {
        extend(bind_all(env, args.drop_last()), args.last())
    }
}

/// Multi-arity unfolding, stage by stage. Let an abstraction of arity `n`
/// with body `body` have formed its closure in `captured`, and let
/// `args[0..i]` have been handed to it one at a time. What is then at hand is
/// the closure of the abstraction of arity `n - i` in the environment that
/// holds those arguments. Applying it to `args[i]` yields the closure for
/// stage `i + 1` while fewer than `n - 1` arguments have been handed over, and
/// enters `body`, with all `n` arguments bound, at the last stage.
pub proof fn law_unfolding_stage(
    n: nat,
    body: Seq<InstrModel>,
    captured: Seq<ValueModel>,
    args: Seq<ValueModel>,
    i: nat,
    m: MachineModel,
    input: Option<u8>,
)
    requires
        n >= 1,
        args.len() == n,
        i < n,
    ensures
        ({
            let at_hand = closure_model(
                (n - i) as nat,
                body,
                bind_all(captured, args.take(i as int)),
            );
            let bound = bind_all(captured, args.take(i as int + 1));
            if i + 1 < n {
                call_model(m, at_hand, args[i as int], input) matches Ok((called, out)) && out
                    == Outcome::Continue && advance(called, 2) == Some(
                    m.bind(closure_model((n - i - 1) as nat, body, bound)),
                )
            } else {
                call_model(m, at_hand, args[i as int], input) == Ok::<
                    (MachineModel, Outcome),
                    ErrorModel,
                >(
                    (
                        MachineModel {
                            code: body,
                            env: bind_all(captured, args),
                            dump: m.dump.push(FrameModel { code: m.code, env: m.env }),
                        },
                        Outcome::Continue,
                    ),
                )
            }
        }),
{
    let before = bind_all(captured, args.take(i as int));
    let next = args.take(i as int + 1);
    assert(next.drop_last() =~= args.take(i as int));
    if i + 1 < n {
        law_partial_application((n - i) as nat, body, before, args[i as int], m, input);
    } else {
        law_last_application(body, before, args[i as int], m, input);
    }
}

/// Applying a character to a value binds Church true if the value is that
/// same character, and Church false if it is anything else.
pub proof fn law_char_equality(m: MachineModel, b: u8, v: ValueModel, input: Option<u8>)
    ensures
        call_model(m, ValueModel::Char(b), v, input) == Ok::<(MachineModel, Outcome), ErrorModel>(
            (
                m.bind(
                    if v == ValueModel::Char(b) {
                        church_true_model()
                    } else {
                        church_false_model()
                    },
                ),
                Outcome::Continue,
            ),
        ),
{
}

/// `Succ` binds the next character, and after 255 comes 0.
pub proof fn law_succ_wraps(m: MachineModel, b: u8, input: Option<u8>)
    ensures
        call_model(m, ValueModel::Prim(Prim::Succ), ValueModel::Char(b), input) == Ok::<
            (MachineModel, Outcome),
            ErrorModel,
        >((m.bind(ValueModel::Char(((b + 1) % 256) as u8)), Outcome::Continue)),
        b == 255 ==> ((b + 1) % 256) as u8 == 0,
        b < 255 ==> ((b + 1) % 256) as u8 == b + 1,
{
}

/// `Out` on a character asks for exactly that one byte to be written, and
/// binds the character it was given.
pub proof fn law_out_writes_one_byte(m: MachineModel, b: u8, input: Option<u8>)
    ensures
        call_model(m, ValueModel::Prim(Prim::Out), ValueModel::Char(b), input) == Ok::<
            (MachineModel, Outcome),
            ErrorModel,
        >((m.bind(ValueModel::Char(b)), Outcome::Emit(b))),
        emitted(Outcome::Emit(b)) == seq![b],
{
}

/// `Succ` and `Out` fail on a value that is no character, and the fault
/// names the value.
pub proof fn law_not_a_char(m: MachineModel, v: ValueModel, input: Option<u8>)
    requires
        !(v is Char),
    ensures
        call_model(m, ValueModel::Prim(Prim::Succ), v, input) == Err::<
            (MachineModel, Outcome),
            ErrorModel,
        >(ErrorModel::NotAChar(v)),
        call_model(m, ValueModel::Prim(Prim::Out), v, input) == Err::<
            (MachineModel, Outcome),
            ErrorModel,
        >(ErrorModel::NotAChar(v)),
{
}

/// `In` binds the byte it read, and at the end of the input the argument it
/// was given.
pub proof fn law_in_reflects_at_end(m: MachineModel, arg: ValueModel, b: u8)
    ensures
        call_model(m, ValueModel::Prim(Prim::In), arg, Some(b)) == Ok::<
            (MachineModel, Outcome),
            ErrorModel,
        >((m.bind(ValueModel::Char(b)), Outcome::Continue)),
        call_model(m, ValueModel::Prim(Prim::In), arg, None) == Ok::<
            (MachineModel, Outcome),
            ErrorModel,
        >((m.bind(arg), Outcome::Continue)),
{
}

/// Writing a character and then comparing what `Out` bound with that same
/// character binds Church true.
pub proof fn law_written_byte_compares_equal(m: MachineModel, b: u8, input: Option<u8>)
    ensures
        call_model(m, ValueModel::Prim(Prim::Out), ValueModel::Char(b), input) matches Ok(
            (written, _),
        ) && lookup(written.env, 1) matches Some(bound) && call_model(
            written,
            ValueModel::Char(b),
            bound,
            input,
        ) == Ok::<(MachineModel, Outcome), ErrorModel>(
            (written.bind(church_true_model()), Outcome::Continue),
        ),
{
}

/// The identity closure returns its argument: one step after the call the
/// caller goes on with the argument bound.
pub proof fn law_identity_returns_argument(m: MachineModel, arg: ValueModel, input: Option<u8>)
    ensures
        call_model(m, identity_model(), arg, input) matches Ok((called, out)) && out
            == Outcome::Continue && advance(called, 1) == Some(m.bind(arg)),
{
    let called = entered(m, Seq::empty(), Seq::empty(), arg);
    assert(called.dump.drop_last() =~= m.dump);
    reveal_with_fuel(advance, 2);
}

/// What a Church boolean becomes when it is given its first argument.
pub open spec fn chosen(b: bool, first: ValueModel) -> ValueModel {
    if b {
        ValueModel::Closure {
            code: seq![InstrModel::App { func: 3, arg: 2 }],
            env: seq![first, identity_model()],
        }
    } else {
        ValueModel::Closure { code: Seq::empty(), env: seq![first] }
    }
}

/// A Church boolean applied to a first argument returns, two steps after the
/// call, a closure that holds that argument.
pub proof fn law_church_takes_first(b: bool, first: ValueModel, m: MachineModel, input: Option<u8>)
    ensures
        call_model(m, church_model(b), first, input) matches Ok((called, out)) && out
            == Outcome::Continue && advance(called, 2) == Some(m.bind(chosen(b, first))),
{
    let code = church_model(b)->code;
    let captured = church_model(b)->env;
    let called = entered(m, code, captured, first);
    assert(extend(captured, first) =~= chosen(b, first)->env);
    let formed = MachineModel { code: code.drop_first(), ..called }.bind(chosen(b, first));
    assert(formed.dump.drop_last() =~= m.dump);
    reveal_with_fuel(advance, 3);
}

/// Church true, given its two arguments, returns the first: three steps after
/// the second call the caller goes on with the first argument bound.
pub proof fn law_church_true_selects_first(
    first: ValueModel,
    second: ValueModel,
    m: MachineModel,
    input: Option<u8>,
)
    ensures
        call_model(m, chosen(true, first), second, input) matches Ok((called, out)) && out
            == Outcome::Continue && advance(called, 3) == Some(m.bind(first)),
{
    let code = seq![InstrModel::App { func: 3, arg: 2 }];
    let env = seq![first, identity_model()];
    let called = entered(m, code, env, second);
    assert(code.drop_first() =~= Seq::empty());
    let inner = MachineModel { code: Seq::empty(), ..called };
    let in_identity = entered(inner, Seq::empty(), Seq::empty(), first);
    assert(in_identity.dump.drop_last() =~= inner.dump);
    assert(inner.dump.drop_last() =~= m.dump);
    reveal_with_fuel(advance, 4);
}

/// Church false, given its two arguments, returns the second: one step after
/// the second call the caller goes on with the second argument bound.
pub proof fn law_church_false_selects_second(
    first: ValueModel,
    second: ValueModel,
    m: MachineModel,
    input: Option<u8>,
)
    ensures
        call_model(m, chosen(false, first), second, input) matches Ok((called, out)) && out
            == Outcome::Continue && advance(called, 1) == Some(m.bind(second)),
{
    let called = entered(m, Seq::empty(), seq![first], second);
    assert(called.dump.drop_last() =~= m.dump);
    reveal_with_fuel(advance, 2);
}

/// The program that applies `Succ` to the letter `w` and does nothing else
/// halts on its third step, whatever the input: it reads and writes nothing,
/// and leaves the letter `x` alone in the environment.
pub proof fn law_succ_of_w_halts_with_x(input: Seq<u8>, fuel: nat)
    requires
        fuel >= 3,
    ensures
        run_model(initial_model(seq![InstrModel::App { func: 3, arg: 2 }]), input, fuel)
            == (RunModel {
            machine: MachineModel {
                code: Seq::empty(),
                env: seq![ValueModel::Char(120)],
                dump: Seq::empty(),
            },
            output: Seq::empty(),
            consumed: 0,
            end: Ok(true),
        }),
{
    let start = initial_model(seq![InstrModel::App { func: 3, arg: 2 }]);
    let applied = MachineModel { code: Seq::empty(), ..start }.bind(ValueModel::Char(120));
    assert(start.code.drop_first() =~= Seq::empty());
    assert(applied.dump.drop_last() =~= Seq::empty());
    reveal_with_fuel(run_model, 4);
}

} // verus!
