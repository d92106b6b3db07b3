//! Short renderings of machine data, for traces.
//!
//! A code sequence and an environment show their first three entries and
//! stand `...` for the rest, so that a line of trace stays readable however
//! deep the data is nested.

use crate::ir::{code_model, Code, Env, Frame, Instr, Prim, State, Value};
use crate::model::{FrameModel, InstrModel, MachineModel, ValueModel};
use std::rc::Rc;
use vstd::prelude::*;
use vstd::string::*;

verus! {

/// What is to be rendered.
pub struct PP<'a, T>(pub &'a T);

/// The text that the standard library's `Debug` impl of `char` gives for the
/// character with code `b`: the character between single quotes, escaped
/// where it cannot stand for itself.
pub uninterp spec fn char_debug(b: u8) -> Seq<char>;

/// The decimal digit for `d`.
pub open spec fn digit(d: nat) -> char {
    ((48 + d) as u8) as char
}

/// `n` in decimal digits.
pub open spec fn decimal(n: nat) -> Seq<char>
    decreases n,
{
    if n < 10 {
        seq![digit(n)]
    } else {
        decimal(n / 10).push(digit(n % 10))
    }
}

/// What stands before the entry at position `k` of a list.
pub open spec fn lead(k: nat) -> Seq<char> {
    if k == 0 {
        Seq::empty()
    } else {
        ", "@
    }
}

/// The text of a primitive: its name.
pub open spec fn prim_text(p: Prim) -> Seq<char> {
    match p {
        Prim::In => "In"@,
        Prim::Succ => "Succ"@,
        Prim::Out => "Out"@,
    }
}

/// The text of an instruction.
pub open spec fn instr_text(i: InstrModel) -> Seq<char>
    decreases i, 0nat,
{
    match i {
        InstrModel::App { func, arg } => "_App_("@ + decimal(func) + ", "@ + decimal(arg) + ")"@,
        InstrModel::Abs { arity, body } => "_Abs_("@ + decimal(arity) + ", "@ + code_text(body)
            + ")"@,
    }
}

/// The entries of a code sequence from position `k` on: those before
/// position 3 in full, and `...` for the rest if there is one.
pub open spec fn code_entries(c: Seq<InstrModel>, k: nat) -> Seq<char>
    decreases c, c.len() - k,
{
    if k >= c.len() {
        Seq::empty()
    } else if k >= 3 {
        lead(k) + "..."@
    } else {
        lead(k) + instr_text(c[k as int]) + code_entries(c, k + 1)
    }
}

/// The text of a code sequence.
pub open spec fn code_text(c: Seq<InstrModel>) -> Seq<char>
    decreases c, c.len() + 1,
{
    "["@ + code_entries(c, 0) + "]"@
}

/// The text of a value.
pub open spec fn value_text(v: ValueModel) -> Seq<char>
    decreases v, 0nat,
{
    match v {
        ValueModel::Char(b) => char_debug(b),
        ValueModel::Closure { code, env } => "Closure { code: "@ + code_text(code) + ", env: "@
            + env_text(env) + " }"@,
        ValueModel::Prim(p) => prim_text(p),
    }
}

/// The entries of an environment from position `k` on, each with its index
/// before it: those before position 3 in full, and `...` for the rest if
/// there is one.
pub open spec fn env_entries(e: Seq<ValueModel>, k: nat) -> Seq<char>
    decreases e, e.len() - k,
{
    if k >= e.len() {
        Seq::empty()
    } else if k >= 3 {
        lead(k) + "..."@
    } else {
        lead(k) + decimal(k + 1) + ": "@ + value_text(e[k as int]) + env_entries(e, k + 1)
    }
}

/// The text of an environment.
pub open spec fn env_text(e: Seq<ValueModel>) -> Seq<char>
    decreases e, e.len() + 1,
{
    "["@ + env_entries(e, 0) + "]"@
}

/// The text of a frame.
pub open spec fn frame_text(f: FrameModel) -> Seq<char> {
    "Frame { code: "@ + code_text(f.code) + ", env: "@ + env_text(f.env) + " }"@
}

/// The frames of a dump from position `k` on, all of them.
pub open spec fn dump_entries(d: Seq<FrameModel>, k: nat) -> Seq<char>
    decreases d.len() - k,
{
    if k >= d.len() {
        Seq::empty()
    } else {
        lead(k) + frame_text(d[k as int]) + dump_entries(d, k + 1)
    }
}

/// The text of a dump.
pub open spec fn dump_text(d: Seq<FrameModel>) -> Seq<char> {
    "["@ + dump_entries(d, 0) + "]"@
}

/// The text of a machine state.
pub open spec fn state_text(m: MachineModel) -> Seq<char> {
    "State { code: "@ + code_text(m.code) + ", env: "@ + env_text(m.env) + ", dump: "@
        + dump_text(m.dump) + " }"@
}

/// Calls `format!` with `{:?}` on the character with code `b`, which runs
/// the `Debug` impl of `char` in the standard library. Trusted, not proved:
/// the contract gives the text the name `char_debug(b)`, as it depends on
/// the character alone, and claims nothing else of it.
#[verifier::external_body]
fn quoted(b: u8) -> (r: String)
    ensures
        r@ == char_debug(b),
{
    format!("{:?}", b as char)
}

/// The digit for `d`.
fn digit_of(d: usize) -> (r: &'static str)
    requires
        d < 10,
    ensures
        r@ == seq![digit(d as nat)],
{
    proof {
        reveal_strlit("0");
        reveal_strlit("1");
        reveal_strlit("2");
        reveal_strlit("3");
        reveal_strlit("4");
        reveal_strlit("5");
        reveal_strlit("6");
        reveal_strlit("7");
        reveal_strlit("8");
        reveal_strlit("9");
    }
    if d == 0 {
        "0"
    } else if d == 1 {
        "1"
    } else if d == 2 {
        "2"
    } else if d == 3 {
        "3"
    } else if d == 4 {
        "4"
    } else if d == 5 {
        "5"
    } else if d == 6 {
        "6"
    } else if d == 7 {
        "7"
    } else if d == 8 {
        "8"
    } else {
        "9"
    }
}

/// `n` in decimal digits.
pub fn number(n: usize) -> (r: String)
    ensures
        r@ == decimal(n as nat),
    decreases n,
{
    if n < 10 {
        String::from_str(digit_of(n))
    } else {
        let mut r = number(n / 10);
        r.append(digit_of(n % 10));
        r
    }
}

/// Appends what stands before the entry at position `k` of a list.
fn lead_to(out: &mut String, k: usize)
    ensures
        final(out)@ == old(out)@ + lead(k as nat),
{
    if k > 0 {
        out.append(", ");
    }
}

/// Renders a primitive.
fn render_prim(p: Prim) -> (r: String)
    ensures
        r@ == prim_text(p),
{
    match p {
        Prim::In => String::from_str("In"),
        Prim::Succ => String::from_str("Succ"),
        Prim::Out => String::from_str("Out"),
    }
}

/// Renders an instruction.
fn render_instr(i: &Instr) -> (r: String)
    ensures
        r@ == instr_text(i@),
    decreases i, 0nat,
{
    match i {
        Instr::App { func_idx, arg_idx } => {
            let mut r = String::from_str("_App_(");
            r.append(number(func_idx.get()).as_str());
            r.append(", ");
            r.append(number(arg_idx.get()).as_str());
            r.append(")");
            r
        },
        Instr::Abs { arity, body } => {
            let mut r = String::from_str("_Abs_(");
            r.append(number(arity.get()).as_str());
            r.append(", ");
            r.append(render_code(body).as_str());
            r.append(")");
            r
        },
    }
}

/// Renders the entries of `c` from position `k` on.
fn render_code_entries(c: &Code, k: usize) -> (r: String)
    requires
        k <= c.len(),
    ensures
        r@ == code_entries(code_model(*c), k as nat),
    decreases c, c.len() - k,
{
    let mut r = String::new();
    if k < c.len() {
        lead_to(&mut r, k);
        if k >= 3 {
            r.append("...");
        } else {
            r.append(render_instr(&c[k]).as_str());
            r.append(render_code_entries(c, k + 1).as_str());
        }
    }
    r
}

/// Renders a code sequence.
fn render_code(c: &Code) -> (r: String)
    ensures
        r@ == code_text(code_model(*c)),
    decreases c, c.len() + 1,
{
    let mut r = String::from_str("[");
    r.append(render_code_entries(c, 0).as_str());
    r.append("]");
    r
}

/// Renders a value.
fn render_value(v: &Value) -> (r: String)
    ensures
        r@ == value_text(v@),
    decreases v, 0nat,
{
    match v {
        Value::Char(b) => quoted(*b),
        Value::Closure { code, env } => {
            let mut r = String::from_str("Closure { code: ");
            r.append(render_code(code).as_str());
            r.append(", env: ");
            r.append(render_env(env).as_str());
            r.append(" }");
            r
        },
        Value::Prim(p) => render_prim(*p),
    }
}

/// Renders the entries of `whole` from position `k` on; `rest` is what
/// `whole` holds from there.
fn render_env_entries(whole: Ghost<Seq<ValueModel>>, rest: &Env, k: usize) -> (r: String)
    requires
        k <= 3,
        k <= whole@.len(),
        rest@ == whole@.skip(k as int),
    ensures
        r@ == env_entries(whole@, k as nat),
    decreases rest, 0nat,
{
    let mut r = String::new();
    match rest {
        Env::Empty => {},
        Env::Node(v, next) => {
            assert(v@ == whole@.skip(k as int)[0]);
            lead_to(&mut r, k);
            if k >= 3 {
                r.append("...");
            } else {
                assert(next@ =~= rest@.skip(1));
                assert(whole@.skip(k as int).skip(1) =~= whole@.skip(k + 1));
                r.append(number(k + 1).as_str());
                r.append(": ");
                r.append(render_value(v).as_str());
                r.append(render_env_entries(whole, &**next, k + 1).as_str());
            }
        },
    }
    r
}

/// Renders an environment.
fn render_env(e: &Rc<Env>) -> (r: String)
    ensures
        r@ == env_text(e@),
    decreases e, 1nat,
{
    let mut r = String::from_str("[");
    assert(e@.skip(0) =~= e@);
    r.append(render_env_entries(Ghost(e@), &**e, 0).as_str());
    r.append("]");
    r
}

/// Renders a frame.
fn render_frame(f: &Frame) -> (r: String)
    ensures
        r@ == frame_text(f@),
{
    let mut r = String::from_str("Frame { code: ");
    r.append(render_code(&f.code).as_str());
    r.append(", env: ");
    r.append(render_env(&f.env).as_str());
    r.append(" }");
    r
}

/// Renders a dump.
fn render_dump(d: &Vec<Frame>) -> (r: String)
    ensures
        r@ == dump_text(d@.map_values(|f: Frame| f@)),
{
    let ghost frames = d@.map_values(|f: Frame| f@);
    let mut r = String::from_str("[");
    let mut k: usize = 0;
    while k < d.len()
        invariant
            k <= d.len(),
            frames == d@.map_values(|f: Frame| f@),
            "["@ + dump_entries(frames, 0) == r@ + dump_entries(frames, k as nat),
        decreases d.len() - k,
    {
        lead_to(&mut r, k);
        r.append(render_frame(&d[k]).as_str());
        k += 1;
    }
    r.append("]");
    r
}

impl<'a> PP<'a, Prim> {
    /// The name of the primitive.
    pub fn render(&self) -> (r: String)
        ensures
            r@ == prim_text(*self.0),
    {
        render_prim(*self.0)
    }
}

impl<'a> PP<'a, Instr> {
    /// `_App_(f, a)` or `_Abs_(n, body)`.
    pub fn render(&self) -> (r: String)
        ensures
            r@ == instr_text(self.0@),
    {
        render_instr(self.0)
    }
}

impl<'a> PP<'a, Code> {
    /// The first three instructions between brackets, and `...` if there
    /// are more.
    pub fn render(&self) -> (r: String)
        ensures
            r@ == code_text(code_model(*self.0)),
    {
        render_code(self.0)
    }
}

impl<'a> PP<'a, Value> {
    /// A character as `{:?}` shows it, a closure with its code and
    /// environment, a primitive by its name.
    pub fn render(&self) -> (r: String)
        ensures
            r@ == value_text(self.0@),
    {
        render_value(self.0)
    }
}

impl<'a> PP<'a, Rc<Env>> {
    /// The first three values between brackets, each behind its index, and
    /// `...` if there are more.
    pub fn render(&self) -> (r: String)
        ensures
            r@ == env_text(self.0@),
    {
        render_env(self.0)
    }
}

impl<'a> PP<'a, Frame> {
    /// The code and the environment of the frame.
    pub fn render(&self) -> (r: String)
        ensures
            r@ == frame_text(self.0@),
    {
        render_frame(self.0)
    }
}

impl<'a> PP<'a, Vec<Frame>> {
    /// Every frame, the bottom of the stack first.
    pub fn render(&self) -> (r: String)
        ensures
            r@ == dump_text(self.0@.map_values(|f: Frame| f@)),
    {
        render_dump(self.0)
    }
}

impl<'a> PP<'a, State> {
    /// The code, the environment and the dump of the state.
    pub fn render(&self) -> (r: String)
        ensures
            r@ == state_text(self.0@),
    {
        let mut r = String::from_str("State { code: ");
        r.append(render_code(&self.0.code).as_str());
        r.append(", env: ");
        r.append(render_env(&self.0.env).as_str());
        r.append(", dump: ");
        r.append(render_dump(&self.0.dump).as_str());
        r.append(" }");
        r
    }
}

} // verus!
