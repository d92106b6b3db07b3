use rusty_grass::ast::{Abs, App, Prog, SourcePosition, SourceRange, Top};
use rusty_grass::ir::{compile, Code, Instr};
use rusty_grass::num::Positive;
use rusty_grass::vm::VM;

fn n(k: usize) -> Positive {
    Positive::new(k).unwrap()
}

fn nowhere() -> SourceRange {
    let p = SourcePosition { line: 1, column: 1 };
    SourceRange { start: p, end: p }
}

fn app(f: usize, a: usize) -> App {
    App { func_idx: f, arg_idx: a, range: nowhere() }
}

fn abs(arity: usize, body: Vec<App>) -> Abs {
    Abs { arity, body, range: nowhere() }
}

fn iapp(f: usize, a: usize) -> Instr {
    Instr::App { func_idx: n(f), arg_idx: n(a) }
}

fn iabs(arity: usize, body: Vec<Instr>) -> Instr {
    Instr::Abs { arity: n(arity), body: Code::from(body) }
}

#[test]
fn items_are_compiled_in_order() {
    let prog = Prog {
        items: vec![
            Top::Abs(abs(2, vec![app(1, 2), app(3, 4)])),
            Top::App(app(5, 6)),
            Top::Abs(abs(1, vec![])),
            Top::App(app(1, 1)),
        ],
    };
    let expected = Code::from(vec![
        iabs(2, vec![iapp(1, 2), iapp(3, 4)]),
        iapp(5, 6),
        iabs(1, vec![]),
        iapp(1, 1),
    ]);
    assert_eq!(compile(&prog), Some(expected));
}

#[test]
fn empty_program_compiles_to_no_code() {
    assert_eq!(compile(&Prog { items: vec![] }), Some(Code::new()));
}

#[test]
fn zero_counts_are_rejected() {
    assert_eq!(compile(&Prog { items: vec![Top::App(app(0, 1))] }), None);
    assert_eq!(compile(&Prog { items: vec![Top::App(app(1, 0))] }), None);
    assert_eq!(compile(&Prog { items: vec![Top::Abs(abs(0, vec![]))] }), None);
    assert_eq!(compile(&Prog { items: vec![Top::Abs(abs(1, vec![app(1, 1), app(0, 2)]))] }), None);
    assert_eq!(compile(&Prog { items: vec![Top::Abs(abs(1, vec![app(2, 0)]))] }), None);
    let late = Prog { items: vec![Top::Abs(abs(1, vec![])), Top::App(app(3, 2)), Top::App(app(0, 0))] };
    assert_eq!(compile(&late), None);
}

#[test]
fn single_items_compile() {
    assert_eq!(Instr::from_app(&app(3, 2)), Some(iapp(3, 2)));
    assert_eq!(Instr::from_app(&app(0, 2)), None);
    assert_eq!(Instr::from_abs(&abs(4, vec![app(1, 1)])), Some(iabs(4, vec![iapp(1, 1)])));
    assert_eq!(Instr::from_abs(&abs(0, vec![app(1, 1)])), None);
    assert_eq!(Instr::from_top(&Top::App(app(9, 8))), Some(iapp(9, 8)));
    assert_eq!(Instr::from_top(&Top::Abs(abs(1, vec![]))), Some(iabs(1, vec![])));
    assert_eq!(Instr::from_top(&Top::Abs(abs(1, vec![app(1, 0)]))), None);
}

#[test]
fn new_machine_runs_the_compiled_program() {
    let prog = Prog { items: vec![Top::Abs(abs(1, vec![app(5, 3)])), Top::App(app(4, 3))] };
    let vm = VM::new(&prog);
    assert_eq!(vm.state().code, compile(&prog).unwrap());
    assert_eq!(vm.state().code, VM::from_code(compile(&prog).unwrap()).state().code);
    assert_eq!(vm.state().env, VM::from_code(Code::new()).state().env);
    assert_eq!(vm.state().dump, VM::from_code(Code::new()).state().dump);
}

#[test]
fn syntax_trees_are_copied_with_their_contents() {
    let prog = Prog {
        items: vec![Top::Abs(abs(2, vec![app(1, 2), app(3, 4)])), Top::App(app(5, 6))],
    };
    assert_eq!(prog.clone(), prog);
}
