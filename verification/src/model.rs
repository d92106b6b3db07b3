//! Mathematical models of the machine's data.
//!
//! Executable values hold reference-counted lists and double-ended queues;
//! contracts speak of them through these models, in which code and
//! environments are plain sequences.

use crate::ir::Prim;
use vstd::prelude::*;

verus! {

/// An instruction: an application of two environment indices, or an
/// abstraction with an arity and a body.
pub enum InstrModel {
    App { func: nat, arg: nat },
    Abs { arity: nat, body: Seq<InstrModel> },
}

/// A value. The environment of a closure lists its bindings innermost first:
/// position 0 of the sequence is index 1 of the environment.
pub enum ValueModel {
    Char(u8),
    Closure { code: Seq<InstrModel>, env: Seq<ValueModel> },
    Prim(Prim),
}

/// A suspended caller: the code left to run and the environment to return to.
pub struct FrameModel {
    pub code: Seq<InstrModel>,
    pub env: Seq<ValueModel>,
}

/// The whole machine. The last element of `dump` is the top of the stack.
pub struct MachineModel {
    pub code: Seq<InstrModel>,
    pub env: Seq<ValueModel>,
    pub dump: Seq<FrameModel>,
}

/// A runtime fault.
pub enum ErrorModel {
    IndexOutOfBounds(nat),
    IllegalState,
    NotAChar(ValueModel),
}

/// The environment with `v` bound at index 1 and every older binding moved
/// one index up.
pub open spec fn extend(env: Seq<ValueModel>, v: ValueModel) -> Seq<ValueModel> {
    seq![v] + env
}

/// The value at the 1-based index `k`, if the environment is that deep.
pub open spec fn lookup(env: Seq<ValueModel>, k: nat) -> Option<ValueModel> {
    if 1 <= k <= env.len() {
        Some(env[k - 1])
    } else {
        None
    }
}

impl MachineModel {
    /// The machine with `v` pushed on its current environment.
    pub open spec fn bind(self, v: ValueModel) -> MachineModel {
        MachineModel { env: extend(self.env, v), ..self }
    }
}

} // verus!
