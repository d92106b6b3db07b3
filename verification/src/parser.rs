//! The parser: from a text to a syntax tree.
//!
//! Each parser computes one production of the grammar, from a cursor into the
//! text to the item that stands there and the cursor behind it.

use crate::ast::{valid, Abs, AbsModel, App, Prog, SourcePosition, SourceRange, Top, TopModel};
use crate::grammar;
use crate::grammar::{glyph, glyph_at, more, remaining, room};
use vstd::prelude::*;

verus! {

/// Why a text is no program.
#[derive(Clone, Copy, Debug, PartialEq, Eq)]
pub enum ParseError {
    /// A glyph stands where the grammar has no use for it.
    UnexpectedParse,
    /// The text ends where the grammar wants a glyph.
    Eoi,
}

/// The three significant glyphs.
#[derive(Clone, Copy, Debug, PartialEq, Eq, Structural)]
pub enum Glyph {
    Lower,
    Upper,
    Sep,
}

/// A place in a text: how many characters lie before it, and its line and
/// column.
#[derive(Clone, Copy, Debug, PartialEq, Eq)]
pub struct Cursor {
    pub index: usize,
    pub position: SourcePosition,
}

impl Cursor {
    /// The cursor at the start of a text: line 1, column 1.
    pub fn start() -> (r: Cursor)
        ensures
            r@ == grammar::start(),
    {
        Cursor { index: 0, position: SourcePosition::origin() }
    }
}

/// The glyph that `c` stands for, or `None` for noise.
pub fn glyph_of(c: char) -> (r: Option<Glyph>)
    ensures
        r == glyph(c),
{
    if c == 'w' || c == '\u{ff57}' {
        Some(Glyph::Lower)
    } else if c == 'W' || c == '\u{ff37}' {
        Some(Glyph::Upper)
    } else if c == 'v' || c == '\u{ff56}' {
        Some(Glyph::Sep)
    } else {
        None
    }
}

/// The characters of `text`, in order.
pub fn chars(text: &str) -> (r: Vec<char>)
    ensures
        r@ == text@,
{
    let mut out: Vec<char> = Vec::new();
    for c in it: text.chars()
        invariant
            out@ == it.seq().take(it.index() as int),
            it.seq() == text@,
    {
        out.push(c);
    }
    out
}

/// Whether the cursor stands at a glyph of `kind`.
fn at_glyph(input: &[char], at: Cursor, kind: Glyph) -> (b: bool)
    ensures
        b == (glyph_at(input@, at@) == Some(kind)),
{
    if at.index < input.len() {
        match glyph_of(input[at.index]) {
            Some(g) => g == kind,
            None => false,
        }
    } else {
        false
    }
}

/// Moves the cursor over the character it stands at.
fn advance(input: &[char], at: Cursor) -> (r: Cursor)
    requires
        more(input@, at@),
        room(input@, at@),
    ensures
        r@ == grammar::bump(input@, at@),
        room(input@, r@),
{
    let position = if input[at.index] == '\n' {
        SourcePosition { line: at.position.line + 1, column: 1 }
    } else {
        SourcePosition { line: at.position.line, column: at.position.column + 1 }
    };
    Cursor { index: at.index + 1, position }
}

/// Moves the cursor over the noise it stands at.
fn skip_noise(input: &[char], at: Cursor) -> (r: Cursor)
    requires
        room(input@, at@),
    ensures
        r@ == grammar::skip_noise(input@, at@),
        room(input@, r@),
{
    let mut cur = at;
    while cur.index < input.len() && glyph_of(input[cur.index]).is_none()
        invariant
            room(input@, cur@),
            grammar::skip_noise(input@, cur@) == grammar::skip_noise(input@, at@),
        decreases input.len() - cur.index,
    {
        cur = advance(input, cur);
    }
    cur
}

/// Moves the cursor to the first lower glyph, or to the end of the text.
fn skip_to_lower(input: &[char], at: Cursor) -> (r: Cursor)
    requires
        room(input@, at@),
    ensures
        r@ == grammar::skip_to_lower(input@, at@),
        room(input@, r@),
{
    let mut cur = at;
    while cur.index < input.len() && !at_glyph(input, cur, Glyph::Lower)
        invariant
            room(input@, cur@),
            grammar::skip_to_lower(input@, cur@) == grammar::skip_to_lower(input@, at@),
        decreases input.len() - cur.index,
    {
        cur = advance(input, cur);
    }
    cur
}

/// Reads the run of `kind` at the cursor: the number of its glyphs, and the
/// cursor behind it.
fn run(input: &[char], at: Cursor, kind: Glyph) -> (r: (usize, Cursor))
    requires
        room(input@, at@),
    ensures
        r.0 == grammar::run(input@, at@, kind).0,
        r.1@ == grammar::run(input@, at@, kind).1,
        room(input@, r.1@),
{
    if !at_glyph(input, at, kind) {
        return (0, at);
    }
    let first = advance(input, at);
    let mut cur = first;
    let mut count: usize = 1;
    while cur.index < input.len()
        invariant
            room(input@, cur@),
            1 <= count <= cur.index,
            grammar::run_rest(input@, first@, kind).0 == count - 1 + grammar::run_rest(
                input@,
                cur@,
                kind,
            ).0,
            grammar::run_rest(input@, first@, kind).1 == grammar::run_rest(input@, cur@, kind).1,
        ensures
            grammar::run_rest(input@, cur@, kind) == (0nat, cur@),
        decreases input.len() - cur.index,
    {
        match glyph_of(input[cur.index]) {
            None => {
                cur = advance(input, cur);
            },
            Some(g) => {
                if g == kind {
                    count += 1;
                    cur = advance(input, cur);
                } else {
                    break ;
                }
            },
        }
    }
    (count, cur)
}

/// Reads an application.
pub fn app(input: &[char], at: Cursor) -> (r: Result<(App, Cursor), ParseError>)
    requires
        room(input@, at@),
    ensures
        match r {
            Ok((app, end)) => grammar::app_at(input@, at@) == Ok::<
                (App, grammar::Place),
                ParseError,
            >((app, end@)) && room(input@, end@),
            Err(e) => grammar::app_at(input@, at@) == Err::<(App, grammar::Place), ParseError>(e),
        },
{
    let (func_idx, mid) = run(input, at, Glyph::Upper);
    if func_idx == 0 {
        return Err(failure(input, at));
    }
    let (arg_idx, end) = run(input, mid, Glyph::Lower);
    if arg_idx == 0 {
        return Err(failure(input, mid));
    }
    let range = SourceRange { start: at.position, end: end.position };
    Ok((App { func_idx, arg_idx, range }, end))
}

/// What to report when the glyph that is wanted is not at the cursor.
fn failure(input: &[char], at: Cursor) -> (e: ParseError)
    ensures
        e == grammar::failure(input@, at@),
{
    if at.index < input.len() {
        ParseError::UnexpectedParse
    } else {
        ParseError::Eoi
    }
}

/// Reads the applications at the cursor, as many as there are.
fn apps(input: &[char], at: Cursor) -> (r: Result<(Vec<App>, Cursor), ParseError>)
    requires
        room(input@, at@),
    ensures
        match r {
            Ok((body, end)) => grammar::apps_at(input@, at@) == Ok::<
                (Seq<App>, grammar::Place),
                ParseError,
            >((body@, end@)) && room(input@, end@),
            Err(e) => grammar::apps_at(input@, at@) == Err::<
                (Seq<App>, grammar::Place),
                ParseError,
            >(e),
        },
{
    let mut body: Vec<App> = Vec::new();
    let mut cur = at;
    while at_glyph(input, cur, Glyph::Upper)
        invariant
            room(input@, cur@),
            match grammar::apps_at(input@, cur@) {
                Ok((rest, end)) => grammar::apps_at(input@, at@) == Ok::<
                    (Seq<App>, grammar::Place),
                    ParseError,
                >((body@ + rest, end)),
                Err(e) => grammar::apps_at(input@, at@) == Err::<
                    (Seq<App>, grammar::Place),
                    ParseError,
                >(e),
            },
        decreases remaining(input@, cur@),
    {
        proof {
            grammar::lemma_run_advances(input@, cur@, Glyph::Upper);
            grammar::lemma_run_advances(
                input@,
                grammar::run(input@, cur@, Glyph::Upper).1,
                Glyph::Lower,
            );
        }
        match app(input, cur) {
            Err(e) => {
                return Err(e);
            },
            Ok((item, next)) => {
                let ghost before = body@;
                body.push(item);
                proof {
                    if let Ok((rest, _)) = grammar::apps_at(input@, next@) {
                        assert(before + (seq![item] + rest) =~= body@ + rest);
                    }
                }
                cur = next;
            },
        }
    }
    Ok((body, cur))
}

/// Reads an abstraction.
pub fn abs(input: &[char], at: Cursor) -> (r: Result<(Abs, Cursor), ParseError>)
    requires
        room(input@, at@),
    ensures
        match r {
            Ok((abs, end)) => grammar::abs_at(input@, at@) == Ok::<
                (AbsModel, grammar::Place),
                ParseError,
            >((abs@, end@)) && room(input@, end@),
            Err(e) => grammar::abs_at(input@, at@) == Err::<
                (AbsModel, grammar::Place),
                ParseError,
            >(e),
        },
{
    let (arity, mid) = run(input, at, Glyph::Lower);
    if arity == 0 {
        return Err(failure(input, at));
    }
    match apps(input, mid) {
        Err(e) => Err(e),
        Ok((body, end)) => {
            let range = SourceRange { start: at.position, end: end.position };
            Ok((Abs { arity, body, range }, end))
        },
    }
}

/// Reads a top-level item.
fn top(input: &[char], at: Cursor) -> (r: Result<(Top, Cursor), ParseError>)
    requires
        room(input@, at@),
    ensures
        match r {
            Ok((top, end)) => grammar::top_at(input@, at@) == Ok::<
                (TopModel, grammar::Place),
                ParseError,
            >((top@, end@)) && room(input@, end@),
            Err(e) => grammar::top_at(input@, at@) == Err::<(TopModel, grammar::Place), ParseError>(
                e,
            ),
        },
{
    if at_glyph(input, at, Glyph::Lower) {
        match abs(input, at) {
            Err(e) => Err(e),
            Ok((item, end)) => Ok((Top::Abs(item), end)),
        }
    } else {
        match app(input, at) {
            Err(e) => Err(e),
            Ok((item, end)) => Ok((Top::App(item), end)),
        }
    }
}

/// Reads a program: the abstraction at the first lower glyph and every item
/// behind it, to the end of the text.
pub fn prog(input: &[char], at: Cursor) -> (r: Result<(Prog, Cursor), ParseError>)
    requires
        room(input@, at@),
    ensures
        match r {
            Ok((prog, end)) => grammar::prog_at(input@, at@) == Ok::<
                (Seq<TopModel>, grammar::Place),
                ParseError,
            >((prog@, end@)) && room(input@, end@),
            Err(e) => grammar::prog_at(input@, at@) == Err::<
                (Seq<TopModel>, grammar::Place),
                ParseError,
            >(e),
        },
{
    let head_at = skip_to_lower(input, at);
    let (head, after_head) = match abs(input, head_at) {
        Err(e) => {
            return Err(e);
        },
        Ok(found) => found,
    };
    let mut items: Vec<Top> = Vec::new();
    items.push(Top::Abs(head));
    let mut cur = after_head;
    let ghost mut tail: Seq<TopModel> = Seq::empty();
    while cur.index < input.len() && glyph_of(input[cur.index]).is_some()
        invariant
            room(input@, cur@),
            grammar::abs_at(input@, grammar::skip_to_lower(input@, at@)) == Ok::<
                (AbsModel, grammar::Place),
                ParseError,
            >((head@, after_head@)),
            items@.map_values(|t: Top| t@) == seq![TopModel::Abs(head@)] + tail,
            match grammar::items_at(input@, cur@) {
                Ok((rest, end)) => grammar::items_at(input@, after_head@) == Ok::<
                    (Seq<TopModel>, grammar::Place),
                    ParseError,
                >((tail + rest, end)),
                Err(e) => grammar::items_at(input@, after_head@) == Err::<
                    (Seq<TopModel>, grammar::Place),
                    ParseError,
                >(e),
            },
        decreases remaining(input@, cur@),
    {
        let item_at = if at_glyph(input, cur, Glyph::Sep) {
            let behind = advance(input, cur);
            skip_noise(input, behind)
        } else {
            cur
        };
        proof {
            grammar::lemma_skip_noise_advances(input@, grammar::bump(input@, cur@));
            grammar::lemma_top_advances(input@, item_at@);
        }
        match top(input, item_at) {
            Err(e) => {
                return Err(e);
            },
            Ok((item, next)) => {
                let ghost before = items@.map_values(|t: Top| t@);
                items.push(item);
                proof {
                    assert(before.push(item@) =~= seq![TopModel::Abs(head@)] + tail.push(item@));
                    if let Ok((rest, _)) = grammar::items_at(input@, next@) {
                        assert(tail + (seq![item@] + rest) =~= tail.push(item@) + rest);
                    }
                    tail = tail.push(item@);
                }
                cur = next;
            },
        }
    }
    Ok((Prog { items }, cur))
}

/// Parses a program text. A text is a program if, behind the noise before
/// its first lower glyph, it is an abstraction followed by items to its very
/// end; the tree of a program starts with that abstraction, and every arity
/// and index in it is positive.
pub fn parse_prog(input: &str) -> (r: Result<Prog, ParseError>)
    requires
        input@.len() < i32::MAX,
    ensures
        match r {
            Ok(prog) => grammar::parse_model(input@) == Ok::<Seq<TopModel>, ParseError>(prog@),
            Err(e) => grammar::parse_model(input@) == Err::<Seq<TopModel>, ParseError>(e),
        },
        r matches Ok(prog) ==> prog@.len() >= 1 && prog@[0] is Abs && valid(prog@),
{
    let text = chars(input);
    proof {
        grammar::law_programs_are_valid(input@);
    }
    match prog(text.as_slice(), Cursor::start()) {
        Err(e) => Err(e),
        Ok((prog, _)) => Ok(prog),
    }
}

} // verus!
