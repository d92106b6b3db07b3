//! The compiled form of a program and the data the machine works on:
//! instructions, values, persistent environments, frames and machine state.

use crate::ast::{abs_valid, app_valid, top_valid, valid, Abs, App, Prog, Top, TopModel};
use crate::model::{extend, lookup, FrameModel, InstrModel, MachineModel, ValueModel};
use crate::num::Positive;
use std::collections::VecDeque;
use std::rc::Rc;
use vstd::prelude::*;

verus! {

/// One instruction of compiled code.
#[derive(Debug, PartialEq)]
pub enum Instr {
    /// Apply the value at `func_idx` to the value at `arg_idx`.
    App { func_idx: Positive, arg_idx: Positive },
    /// Form a closure taking `arity` arguments one at a time.
    Abs { arity: Positive, body: Code },
}

/// A sequence of instructions, executed front to back.
pub type Code = VecDeque<Instr>;

/// The primitive operations.
#[derive(Clone, Copy, Debug, PartialEq, Eq)]
pub enum Prim {
    In,
    Succ,
    Out,
}

/// A value of the machine.
#[derive(Debug, PartialEq)]
pub enum Value {
    Char(u8),
    Closure { code: Code, env: Rc<Env> },
    Prim(Prim),
}

/// A persistent list of values. A push allocates one node and shares the
/// rest; no node is written after it is made.
#[derive(Debug, PartialEq)]
pub enum Env {
    Empty,
    Node(Value, Rc<Env>),
}

/// A suspended caller.
#[derive(Debug, PartialEq)]
pub struct Frame {
    pub code: Code,
    pub env: Rc<Env>,
}

/// The state of the machine: current code, current environment, and the stack
/// of suspended callers with its top at the end.
#[derive(Debug, PartialEq)]
pub struct State {
    pub code: Code,
    pub env: Rc<Env>,
    pub dump: Vec<Frame>,
}

/// The model of an instruction.
pub open spec fn instr_model(i: Instr) -> InstrModel
    decreases i,
{
    match i {
        Instr::App { func_idx, arg_idx } => InstrModel::App { func: func_idx@, arg: arg_idx@ },
        Instr::Abs { arity, body } => InstrModel::Abs { arity: arity@, body: code_model(body) },
    }
}

/// The model of a code sequence: the models of its instructions, in order.
pub open spec fn code_model(c: Code) -> Seq<InstrModel>
    decreases c,
{
    Seq::new(
        c@.len(),
        |k: int|
            if 0 <= k < c@.len() {
                instr_model(c@[k])
            } else {
                arbitrary()
            },
    )
}

/// The model of a value.
pub open spec fn value_model(v: Value) -> ValueModel
    decreases v,
{
    match v {
        Value::Char(b) => ValueModel::Char(b),
        Value::Closure { code, env } => ValueModel::Closure {
            code: code_model(code),
            env: env_model(*env),
        },
        Value::Prim(p) => ValueModel::Prim(p),
    }
}

/// The model of an environment: its values from the head on, so that index 1
/// of the environment is position 0 of the sequence.
pub open spec fn env_model(e: Env) -> Seq<ValueModel>
    decreases e,
{
    match e {
        Env::Empty => Seq::empty(),
        Env::Node(v, next) => extend(env_model(*next), value_model(v)),
    }
}

impl View for Instr {
    type V = InstrModel;

    open spec fn view(&self) -> InstrModel {
        instr_model(*self)
    }
}

impl View for Value {
    type V = ValueModel;

    open spec fn view(&self) -> ValueModel {
        value_model(*self)
    }
}

impl View for Env {
    type V = Seq<ValueModel>;

    open spec fn view(&self) -> Seq<ValueModel> {
        env_model(*self)
    }
}

impl View for Frame {
    type V = FrameModel;

    open spec fn view(&self) -> FrameModel {
        FrameModel { code: code_model(self.code), env: self.env@ }
    }
}

impl View for State {
    type V = MachineModel;

    open spec fn view(&self) -> MachineModel {
        MachineModel {
            code: code_model(self.code),
            env: self.env@,
            dump: self.dump@.map_values(|f: Frame| f@),
        }
    }
}

/// Putting an instruction in front of a code sequence puts its model in front
/// of the model.
pub proof fn lemma_push_front(rest: Code, whole: Code, first: Instr)
    requires
        whole@ == seq![first] + rest@,
    ensures
        code_model(whole) == seq![first@] + code_model(rest),
{
    assert forall|k: int| 0 <= k < whole@.len() implies code_model(whole)[k] == (seq![first@]
        + code_model(rest))[k] by {}
}

/// A copy of `code` with the same model.
pub fn clone_code(code: &Code) -> (r: Code)
    ensures
        code_model(r) == code_model(*code),
    decreases code,
{
    let mut out: Code = VecDeque::new();
    let mut i: usize = 0;
    while i < code.len()
        invariant
            i <= code.len(),
            out@.len() == i,
            forall|k: int| 0 <= k < i ==> (#[trigger] out@[k])@ == code@[k]@,
        decreases code.len() - i,
    {
        let item = clone_instr(&code[i]);
        out.push_back(item);
        i += 1;
    }
    out
}

/// A copy of `instr` with the same model.
pub fn clone_instr(instr: &Instr) -> (r: Instr)
    ensures
        r@ == instr@,
    decreases instr,
{
    match instr {
        Instr::App { func_idx, arg_idx } => Instr::App { func_idx: *func_idx, arg_idx: *arg_idx },
        Instr::Abs { arity, body } => Instr::Abs { arity: *arity, body: clone_code(body) },
    }
}

impl Clone for Instr {
    fn clone(&self) -> (r: Self)
        ensures
            r@ == self@,
    {
        clone_instr(self)
    }
}

impl Clone for Value {
    /// Copies a value. The code of a closure is copied; its environment is
    /// shared.
    fn clone(&self) -> (r: Self)
        ensures
            r@ == self@,
    {
        match self {
            Value::Char(b) => Value::Char(*b),
            Value::Closure { code, env } => Value::Closure {
                code: clone_code(code),
                env: env.clone(),
            },
            Value::Prim(p) => Value::Prim(*p),
        }
    }
}

impl Clone for Frame {
    fn clone(&self) -> (r: Self)
        ensures
            r@ == self@,
    {
        Frame { code: clone_code(&self.code), env: self.env.clone() }
    }
}

impl Clone for State {
    fn clone(&self) -> (r: Self)
        ensures
            r@ == self@,
    {
        let mut dump: Vec<Frame> = Vec::new();
        let mut i: usize = 0;
        while i < self.dump.len()
            invariant
                i <= self.dump.len(),
                dump@.len() == i,
                forall|k: int| 0 <= k < i ==> (#[trigger] dump@[k])@ == self.dump@[k]@,
            decreases self.dump.len() - i,
        {
            dump.push(self.dump[i].clone());
            i += 1;
        }
        let r = State { code: clone_code(&self.code), env: self.env.clone(), dump };
        assert(r@.dump =~= self@.dump);
        r
    }
}

impl Default for Env {
    /// The empty environment.
    fn default() -> (r: Self)
        ensures
            r@ == Seq::<ValueModel>::empty(),
    {
        Env::Empty
    }
}

impl Env {
    /// The empty environment.
    pub fn nil() -> (r: Rc<Env>)
        ensures
            r@ == Seq::<ValueModel>::empty(),
    {
        Rc::new(Env::Empty)
    }

    /// A new environment with `v` at index 1 and `self`, shared, behind it.
    pub fn push(self: &Rc<Self>, v: Value) -> (r: Rc<Env>)
        ensures
            r@ == extend(self@, v@),
    {
        Rc::new(Env::Node(v, self.clone()))
    }

    /// The value at the 1-based index `idx`, or `None` when the environment
    /// holds fewer than `idx` values.
    pub fn get(self: &Rc<Self>, idx: Positive) -> (r: Option<&Value>)
        ensures
            match r {
                Some(v) => lookup(self@, idx@) == Some(v@),
                None => lookup(self@, idx@) is None,
            },
    {
        let n: usize = idx.get();
        let mut env: &Env = &**self;
        let mut i: usize = 1;
        while i < n
            invariant
                n == idx@,
                1 <= i <= n,
                i - 1 <= self@.len(),
                env@ == self@.skip(i - 1),
            decreases n - i,
        {
            match env {
                Env::Empty => {
                    return None;
                },
                Env::Node(_, next) => {
                    assert(self@.skip(i - 1).skip(1) =~= self@.skip(i as int));
                    env = &**next;
                },
            }
            i += 1;
        }
        match env {
            Env::Empty => {
                None
            },
            Env::Node(v, _) => {
                assert(env@[0] == v@);
                Some(v)
            },
        }
    }
}

/// The instruction for an application.
pub open spec fn lower_app(app: App) -> InstrModel {
    InstrModel::App { func: app.func_idx as nat, arg: app.arg_idx as nat }
}

/// The instruction for a top-level item.
pub open spec fn lower_top(top: TopModel) -> InstrModel {
    match top {
        TopModel::Abs(abs) => InstrModel::Abs {
            arity: abs.arity as nat,
            body: abs.body.map_values(|a: App| lower_app(a)),
        },
        TopModel::App(app) => lower_app(app),
    }
}

/// The code for a program: one instruction for each item, in order, and in
/// each abstraction one for each application of its body.
pub open spec fn compile_model(prog: Seq<TopModel>) -> Seq<InstrModel> {
    prog.map_values(|t: TopModel| lower_top(t))
}

impl Instr {
    /// The instruction for `app`, or `None` if one of its indices is zero.
    pub fn from_app(app: &App) -> (r: Option<Instr>)
        ensures
            r is Some <==> app_valid(*app),
            r matches Some(i) ==> i@ == lower_app(*app),
    {
        match Positive::new(app.func_idx) {
            Some(func_idx) => match Positive::new(app.arg_idx) {
                Some(arg_idx) => Some(Instr::App { func_idx, arg_idx }),
                None => None,
            },
            None => None,
        }
    }

    /// The instruction for `abs`, or `None` if its arity or an index in its
    /// body is zero.
    pub fn from_abs(abs: &Abs) -> (r: Option<Instr>)
        ensures
            r is Some <==> abs_valid(abs@),
            r matches Some(i) ==> i@ == lower_top(TopModel::Abs(abs@)),
    {
        let arity = match Positive::new(abs.arity) {
            Some(arity) => arity,
            None => {
                return None;
            },
        };
        let mut body: Code = VecDeque::new();
        let mut j: usize = 0;
        while j < abs.body.len()
            invariant
                j <= abs.body.len(),
                body@.len() == j,
                forall|k: int| 0 <= k < j ==> app_valid(#[trigger] abs.body@[k]),
                forall|k: int| 0 <= k < j ==> (#[trigger] body@[k])@ == lower_app(abs.body@[k]),
            decreases abs.body.len() - j,
        {
            match Instr::from_app(&abs.body[j]) {
                Some(instr) => {
                    body.push_back(instr);
                },
                None => {
                    return None;
                },
            }
            j += 1;
        }
        assert(code_model(body) =~= abs.body@.map_values(|a: App| lower_app(a)));
        Some(Instr::Abs { arity, body })
    }

    /// The instruction for `top`, or `None` if one of its counts is zero.
    pub fn from_top(top: &Top) -> (r: Option<Instr>)
        ensures
            r is Some <==> top_valid(top@),
            r matches Some(i) ==> i@ == lower_top(top@),
    {
        match top {
            Top::Abs(abs) => Instr::from_abs(abs),
            Top::App(app) => Instr::from_app(app),
        }
    }
}

/// Compiles a program, keeping the order of its items. The result is `None`
/// if an arity or an index of the program is zero.
pub fn compile(prog: &Prog) -> (r: Option<Code>)
    ensures
        r is Some <==> valid(prog@),
        r matches Some(code) ==> code_model(code) == compile_model(prog@),
{
    let mut code: Code = VecDeque::new();
    let mut i: usize = 0;
    while i < prog.items.len()
        invariant
            i <= prog.items.len(),
            code@.len() == i,
            forall|k: int| 0 <= k < i ==> top_valid(#[trigger] prog@[k]),
            forall|k: int| 0 <= k < i ==> (#[trigger] code@[k])@ == lower_top(prog@[k]),
        decreases prog.items.len() - i,
    {
        match Instr::from_top(&prog.items[i]) {
            Some(instr) => {
                code.push_back(instr);
            },
            None => {
                assert(!top_valid(prog@[i as int]));
                return None;
            },
        }
        i += 1;
    }
    Some(code)
}

} // verus!
