//! An interpreter for Grass, a functional language written with three
//! glyphs: `w`, `W` and `v`.
//!
//! A program text is parsed ([`parser`], to the grammar in [`grammar`]) into
//! a syntax tree ([`ast`]), compiled into instructions ([`ir`]) and run by an
//! abstract machine ([`vm`]) with persistent environments and a dump of
//! suspended callers. The machine reads and writes nothing itself: each step
//! is handed the byte it may read, and says which byte is to be written.
//!
//! Contracts speak of the data through mathematical models ([`model`]).
//! What the machine does is stated on those models ([`semantics`]), and what
//! holds of it for every program is proved there too ([`laws`]).

pub mod ast;
pub mod grammar;
pub mod ir;
pub mod laws;
pub mod model;
pub mod num;
pub mod parser;
pub mod pp;
pub mod semantics;
pub mod vm;
