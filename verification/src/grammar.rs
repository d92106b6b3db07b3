//! The grammar of the surface syntax.
//!
//! Three glyphs matter, each in a half-width and a full-width form: the lower
//! `w`, the upper `W` and the separator `v`. Every other character is noise.
//! An application is a run of `W` followed by a run of `w`; an abstraction is
//! a run of `w` followed by any number of applications; a program is an
//! abstraction followed by abstractions and applications, each of which a
//! separator may precede. Before the first lower glyph everything is noise.
//!
//! The productions are functions on a sequence of characters and a place in
//! it. Each says what stands at the place and where it ends, or why nothing
//! of its kind stands there.

use crate::ast::{
    app_valid, origin, top_valid, valid, AbsModel, App, SourcePosition, SourceRange, TopModel,
};
use crate::parser::{Cursor, Glyph, ParseError};
use vstd::prelude::*;

verus! {

/// The model of a cursor. Its index is not bounded by the machine.
pub struct Place {
    pub index: nat,
    pub position: SourcePosition,
}

impl View for Cursor {
    type V = Place;

    open spec fn view(&self) -> Place {
        Place { index: self.index as nat, position: self.position }
    }
}

/// The glyph that a character stands for, or `None` for noise.
pub open spec fn glyph(c: char) -> Option<Glyph> {
    if c == 'w' || c == '\u{ff57}' {
        Some(Glyph::Lower)
    } else if c == 'W' || c == '\u{ff37}' {
        Some(Glyph::Upper)
    } else if c == 'v' || c == '\u{ff56}' {
        Some(Glyph::Sep)
    } else {
        None
    }
}

/// Whether the cursor stands before the end of the text.
pub open spec fn more(s: Seq<char>, at: Place) -> bool {
    at.index < s.len()
}

/// The glyph at the cursor; `None` at noise and at the end of the text.
pub open spec fn glyph_at(s: Seq<char>, at: Place) -> Option<Glyph> {
    if more(s, at) {
        glyph(s[at.index as int])
    } else {
        None
    }
}

/// The number of characters from the cursor to the end of the text.
pub open spec fn remaining(s: Seq<char>, at: Place) -> nat {
    if more(s, at) {
        (s.len() - at.index) as nat
    } else {
        0
    }
}

/// Lines and columns can be counted to the end of the text without leaving
/// the range of their type.
pub open spec fn room(s: Seq<char>, at: Place) -> bool {
    &&& remaining(s, at) <= i32::MAX
    &&& at.position.line + remaining(s, at) <= i32::MAX
    &&& at.position.column + remaining(s, at) <= i32::MAX
}

/// The place after a character: a line feed starts the next line at column
/// 1, any other character moves one column on.
pub open spec fn after(p: SourcePosition, c: char) -> SourcePosition {
    if c == '\n' {
        SourcePosition { line: (p.line + 1) as i32, column: 1 }
    } else {
        SourcePosition { line: p.line, column: (p.column + 1) as i32 }
    }
}

/// The cursor moved over the character it stands at.
pub open spec fn bump(s: Seq<char>, at: Place) -> Place {
    Place { index: at.index + 1, position: after(at.position, s[at.index as int]) }
}

/// The cursor moved over the noise it stands at: it ends at a glyph or at
/// the end of the text.
pub open spec fn skip_noise(s: Seq<char>, at: Place) -> Place
    decreases remaining(s, at),
{
    if more(s, at) && glyph_at(s, at) is None {
        skip_noise(s, bump(s, at))
    } else {
        at
    }
}

/// The cursor moved over everything that is no lower glyph.
pub open spec fn skip_to_lower(s: Seq<char>, at: Place) -> Place
    decreases remaining(s, at),
{
    if more(s, at) && glyph_at(s, at) != Some(Glyph::Lower) {
        skip_to_lower(s, bump(s, at))
    } else {
        at
    }
}

/// The rest of a run of `kind`, read from behind one of its glyphs: how many
/// more glyphs of that kind follow, with noise anywhere among and behind
/// them, and where the run ends. It ends at a glyph of another kind or at the
/// end of the text.
pub open spec fn run_rest(s: Seq<char>, at: Place, kind: Glyph) -> (nat, Place)
    decreases remaining(s, at),
{
    if !more(s, at) {
        (0, at)
    } else if glyph_at(s, at) is None {
        run_rest(s, bump(s, at), kind)
    } else if glyph_at(s, at) == Some(kind) {
        let (n, end) = run_rest(s, bump(s, at), kind);
        (n + 1, end)
    } else {
        (0, at)
    }
}

/// The run of `kind` at the cursor: its number of glyphs, which is 0 when
/// the cursor does not stand at a glyph of that kind, and where it ends.
pub open spec fn run(s: Seq<char>, at: Place, kind: Glyph) -> (nat, Place) {
    if glyph_at(s, at) == Some(kind) {
        let (n, end) = run_rest(s, bump(s, at), kind);
        (n + 1, end)
    } else {
        (0, at)
    }
}

/// Skipping noise does not move the cursor back.
pub proof fn lemma_skip_noise_advances(s: Seq<char>, at: Place)
    ensures
        remaining(s, skip_noise(s, at)) <= remaining(s, at),
        skip_noise(s, at).index >= at.index,
    decreases remaining(s, at),
{
    if more(s, at) && glyph_at(s, at) is None {
        lemma_skip_noise_advances(s, bump(s, at));
    }
}

/// The rest of a run does not move the cursor back.
pub proof fn lemma_run_rest_advances(s: Seq<char>, at: Place, kind: Glyph)
    ensures
        remaining(s, run_rest(s, at, kind).1) <= remaining(s, at),
        run_rest(s, at, kind).1.index >= at.index,
    decreases remaining(s, at),
{
    if more(s, at) && (glyph_at(s, at) is None || glyph_at(s, at) == Some(kind)) {
        lemma_run_rest_advances(s, bump(s, at), kind);
    }
}

/// A run that is not empty moves the cursor on; an empty one leaves it.
pub proof fn lemma_run_advances(s: Seq<char>, at: Place, kind: Glyph)
    ensures
        run(s, at, kind).0 > 0 ==> remaining(s, run(s, at, kind).1) < remaining(s, at),
        run(s, at, kind).0 == 0 ==> run(s, at, kind).1 == at,
        remaining(s, run(s, at, kind).1) <= remaining(s, at),
        run(s, at, kind).1.index >= at.index,
{
    if glyph_at(s, at) == Some(kind) {
        lemma_run_rest_advances(s, bump(s, at), kind);
    }
}

/// What is reported when the glyph that the grammar wants is not at the
/// cursor.
pub open spec fn failure(s: Seq<char>, at: Place) -> ParseError {
    if more(s, at) {
        ParseError::UnexpectedParse
    } else {
        ParseError::Eoi
    }
}

/// An application at the cursor: a run of upper glyphs, whose number is the
/// index of the function, then a run of lower glyphs, whose number is the
/// index of the argument.
pub open spec fn app_at(s: Seq<char>, at: Place) -> Result<(App, Place), ParseError> {
    let (func, mid) = run(s, at, Glyph::Upper);
    let (arg, end) = run(s, mid, Glyph::Lower);
    if func == 0 {
        Err(failure(s, at))
    } else if arg == 0 {
        Err(failure(s, mid))
    } else {
        Ok(
            (
                App {
                    func_idx: func as usize,
                    arg_idx: arg as usize,
                    range: SourceRange { start: at.position, end: end.position },
                },
                end,
            ),
        )
    }
}

/// The applications at the cursor, as many as there are. An application
/// starts at every upper glyph, so one that starts and does not end well
/// fails them all.
pub open spec fn apps_at(s: Seq<char>, at: Place) -> Result<(Seq<App>, Place), ParseError>
    decreases remaining(s, at),
{
    if glyph_at(s, at) == Some(Glyph::Upper) {
        match app_at(s, at) {
            Err(e) => Err(e),
            Ok((app, next)) => {
                proof {
                    lemma_run_advances(s, at, Glyph::Upper);
                    lemma_run_advances(s, run(s, at, Glyph::Upper).1, Glyph::Lower);
                }
                match apps_at(s, next) {
                    Err(e) => Err(e),
                    Ok((rest, end)) => Ok((seq![app] + rest, end)),
                }
            },
        }
    } else {
        Ok((Seq::empty(), at))
    }
}

/// Applications do not move the cursor back.
pub proof fn lemma_apps_advance(s: Seq<char>, at: Place)
    ensures
        apps_at(s, at) matches Ok((_, end)) ==> remaining(s, end) <= remaining(s, at),
    decreases remaining(s, at),
{
    if glyph_at(s, at) == Some(Glyph::Upper) {
        lemma_run_advances(s, at, Glyph::Upper);
        lemma_run_advances(s, run(s, at, Glyph::Upper).1, Glyph::Lower);
        if let Ok((_, next)) = app_at(s, at) {
            lemma_apps_advance(s, next);
        }
    }
}

/// An abstraction at the cursor: a run of lower glyphs, whose number is the
/// arity, then the applications of the body.
pub open spec fn abs_at(s: Seq<char>, at: Place) -> Result<(AbsModel, Place), ParseError> {
    let (arity, mid) = run(s, at, Glyph::Lower);
    if arity == 0 {
        Err(failure(s, at))
    } else {
        match apps_at(s, mid) {
            Err(e) => Err(e),
            Ok((body, end)) => Ok(
                (
                    AbsModel {
                        arity: arity as usize,
                        body,
                        range: SourceRange { start: at.position, end: end.position },
                    },
                    end,
                ),
            ),
        }
    }
}

/// A top-level item at the cursor: an abstraction at a lower glyph, an
/// application at an upper one.
pub open spec fn top_at(s: Seq<char>, at: Place) -> Result<(TopModel, Place), ParseError> {
    if glyph_at(s, at) == Some(Glyph::Lower) {
        match abs_at(s, at) {
            Err(e) => Err(e),
            Ok((abs, end)) => Ok((TopModel::Abs(abs), end)),
        }
    } else {
        match app_at(s, at) {
            Err(e) => Err(e),
            Ok((app, end)) => Ok((TopModel::App(app), end)),
        }
    }
}

/// An item moves the cursor on.
pub proof fn lemma_top_advances(s: Seq<char>, at: Place)
    ensures
        top_at(s, at) matches Ok((_, end)) ==> remaining(s, end) < remaining(s, at),
{
    if glyph_at(s, at) == Some(Glyph::Lower) {
        lemma_run_advances(s, at, Glyph::Lower);
        lemma_apps_advance(s, run(s, at, Glyph::Lower).1);
    } else {
        lemma_run_advances(s, at, Glyph::Upper);
        lemma_run_advances(s, run(s, at, Glyph::Upper).1, Glyph::Lower);
    }
}

/// The items at the cursor, as many as there are. A separator may stand
/// before an item, and what follows a separator has to be an item. The items
/// end where neither a glyph nor a separator starts another: at the end of
/// the text.
pub open spec fn items_at(s: Seq<char>, at: Place) -> Result<(Seq<TopModel>, Place), ParseError>
    decreases remaining(s, at),
{
    if glyph_at(s, at) is None {
        Ok((Seq::empty(), at))
    } else {
        let start = if glyph_at(s, at) == Some(Glyph::Sep) {
            skip_noise(s, bump(s, at))
        } else {
            at
        };
        match top_at(s, start) {
            Err(e) => Err(e),
            Ok((top, next)) => {
                proof {
                    lemma_skip_noise_advances(s, bump(s, at));
                    lemma_top_advances(s, start);
                }
                match items_at(s, next) {
                    Err(e) => Err(e),
                    Ok((rest, end)) => Ok((seq![top] + rest, end)),
                }
            },
        }
    }
}

/// A program at the cursor: noise up to the first lower glyph, the
/// abstraction that starts there, and the items behind it.
pub open spec fn prog_at(s: Seq<char>, at: Place) -> Result<(Seq<TopModel>, Place), ParseError> {
    match abs_at(s, skip_to_lower(s, at)) {
        Err(e) => Err(e),
        Ok((head, next)) => match items_at(s, next) {
            Err(e) => Err(e),
            Ok((tail, end)) => Ok((seq![TopModel::Abs(head)] + tail, end)),
        },
    }
}

/// The cursor at the start of a text.
pub open spec fn start() -> Place {
    Place { index: 0, position: origin() }
}

/// The program that a text stands for, or why it stands for none.
pub open spec fn parse_model(s: Seq<char>) -> Result<Seq<TopModel>, ParseError> {
    match prog_at(s, start()) {
        Err(e) => Err(e),
        Ok((items, _)) => Ok(items),
    }
}

/// A run counts at least the glyph it starts at, and no more glyphs than the
/// text has characters.
pub proof fn lemma_run_rest_bounded(s: Seq<char>, at: Place, kind: Glyph)
    ensures
        run_rest(s, at, kind).0 <= remaining(s, at),
    decreases remaining(s, at),
{
    if more(s, at) && (glyph_at(s, at) is None || glyph_at(s, at) == Some(kind)) {
        lemma_run_rest_bounded(s, bump(s, at), kind);
    }
}

/// Every application that the grammar reads has positive indices.
pub proof fn lemma_apps_are_valid(s: Seq<char>, at: Place)
    requires
        s.len() <= usize::MAX,
    ensures
        app_at(s, at) matches Ok((app, _)) ==> app_valid(app),
        apps_at(s, at) matches Ok((body, _)) ==> forall|j: int|
            0 <= j < body.len() ==> app_valid(#[trigger] body[j]),
    decreases remaining(s, at),
{
    let (func, mid) = run(s, at, Glyph::Upper);
    let (arg, end) = run(s, mid, Glyph::Lower);
    lemma_run_advances(s, at, Glyph::Upper);
    lemma_run_advances(s, mid, Glyph::Lower);
    if glyph_at(s, at) == Some(Glyph::Upper) {
        lemma_run_rest_bounded(s, bump(s, at), Glyph::Upper);
    }
    if glyph_at(s, mid) == Some(Glyph::Lower) {
        lemma_run_rest_bounded(s, bump(s, mid), Glyph::Lower);
    }
    if glyph_at(s, at) == Some(Glyph::Upper) {
        if let Ok((app, next)) = app_at(s, at) {
            lemma_apps_are_valid(s, next);
        }
    }
}

/// Every item that the grammar reads is valid.
pub proof fn lemma_items_are_valid(s: Seq<char>, at: Place)
    requires
        s.len() <= usize::MAX,
    ensures
        top_at(s, at) matches Ok((top, _)) ==> top_valid(top),
        items_at(s, at) matches Ok((items, _)) ==> valid(items),
    decreases remaining(s, at), 1nat,
{
    lemma_apps_are_valid(s, at);
    if glyph_at(s, at) == Some(Glyph::Lower) {
        let (arity, mid) = run(s, at, Glyph::Lower);
        lemma_run_rest_bounded(s, bump(s, at), Glyph::Lower);
        lemma_apps_are_valid(s, mid);
    }
    if glyph_at(s, at) is Some {
        let start = if glyph_at(s, at) == Some(Glyph::Sep) {
            skip_noise(s, bump(s, at))
        } else {
            at
        };
        lemma_skip_noise_advances(s, bump(s, at));
        lemma_top_advances(s, start);
        if let Ok((top, next)) = top_at(s, start) {
            lemma_item_is_valid(s, start);
            lemma_items_are_valid(s, next);
        }
    }
}

/// The item that the grammar reads at a place is valid.
pub proof fn lemma_item_is_valid(s: Seq<char>, at: Place)
    requires
        s.len() <= usize::MAX,
    ensures
        top_at(s, at) matches Ok((top, _)) ==> top_valid(top),
{
    lemma_apps_are_valid(s, at);
    if glyph_at(s, at) == Some(Glyph::Lower) {
        let (arity, mid) = run(s, at, Glyph::Lower);
        lemma_run_rest_bounded(s, bump(s, at), Glyph::Lower);
        lemma_apps_are_valid(s, mid);
    }
}

/// A text that is a program starts, behind its noise, with an abstraction,
/// and every arity and index in it is positive.
pub proof fn law_programs_are_valid(s: Seq<char>)
    requires
        s.len() <= usize::MAX,
    ensures
        parse_model(s) matches Ok(prog) ==> prog.len() >= 1 && prog[0] is Abs && valid(prog),
{
    let at = skip_to_lower(s, start());
    if let Ok((head, next)) = abs_at(s, at) {
        lemma_item_is_valid(s, at);
        lemma_items_are_valid(s, next);
    }
}

/// The cursor stands at a glyph or at the end of the text: no noise is left
/// to skip.
pub open spec fn settled(s: Seq<char>, at: Place) -> bool {
    !more(s, at) || glyph_at(s, at) is Some
}

/// Skipping noise settles the cursor.
pub proof fn lemma_skip_noise_settles(s: Seq<char>, at: Place)
    ensures
        settled(s, skip_noise(s, at)),
    decreases remaining(s, at),
{
    if more(s, at) && glyph_at(s, at) is None {
        lemma_skip_noise_settles(s, bump(s, at));
    }
}

/// Skipping to the first lower glyph settles the cursor.
pub proof fn lemma_skip_to_lower_settles(s: Seq<char>, at: Place)
    ensures
        settled(s, skip_to_lower(s, at)),
    decreases remaining(s, at),
{
    if more(s, at) && glyph_at(s, at) != Some(Glyph::Lower) {
        lemma_skip_to_lower_settles(s, bump(s, at));
    }
}

/// The rest of a run ends at a settled cursor.
pub proof fn lemma_run_rest_settles(s: Seq<char>, at: Place, kind: Glyph)
    ensures
        settled(s, run_rest(s, at, kind).1),
    decreases remaining(s, at),
{
    if more(s, at) && (glyph_at(s, at) is None || glyph_at(s, at) == Some(kind)) {
        lemma_run_rest_settles(s, bump(s, at), kind);
    }
}

/// Applications read from a settled cursor end at a settled cursor.
pub proof fn lemma_apps_settle(s: Seq<char>, at: Place)
    requires
        settled(s, at),
    ensures
        app_at(s, at) matches Ok((_, end)) ==> settled(s, end),
        apps_at(s, at) matches Ok((_, end)) ==> settled(s, end),
    decreases remaining(s, at),
{
    if glyph_at(s, at) == Some(Glyph::Upper) {
        let mid = run(s, at, Glyph::Upper).1;
        lemma_run_rest_settles(s, bump(s, at), Glyph::Upper);
        if glyph_at(s, mid) == Some(Glyph::Lower) {
            lemma_run_rest_settles(s, bump(s, mid), Glyph::Lower);
        }
        lemma_run_advances(s, at, Glyph::Upper);
        lemma_run_advances(s, mid, Glyph::Lower);
        if let Ok((_, next)) = app_at(s, at) {
            lemma_apps_settle(s, next);
        }
    }
}

/// An item read from a settled cursor ends at a settled cursor.
pub proof fn lemma_top_settles(s: Seq<char>, at: Place)
    requires
        settled(s, at),
    ensures
        top_at(s, at) matches Ok((_, end)) ==> settled(s, end),
{
    lemma_apps_settle(s, at);
    if glyph_at(s, at) == Some(Glyph::Lower) {
        lemma_run_rest_settles(s, bump(s, at), Glyph::Lower);
        lemma_apps_settle(s, run(s, at, Glyph::Lower).1);
    }
}

/// Items read from a settled cursor end at the end of the text.
pub proof fn lemma_items_read_to_the_end(s: Seq<char>, at: Place)
    requires
        settled(s, at),
    ensures
        items_at(s, at) matches Ok((_, end)) ==> !more(s, end),
    decreases remaining(s, at),
{
    if glyph_at(s, at) is Some {
        let start = if glyph_at(s, at) == Some(Glyph::Sep) {
            skip_noise(s, bump(s, at))
        } else {
            at
        };
        lemma_skip_noise_settles(s, bump(s, at));
        lemma_skip_noise_advances(s, bump(s, at));
        lemma_top_advances(s, start);
        lemma_top_settles(s, start);
        if let Ok((_, next)) = top_at(s, start) {
            lemma_items_read_to_the_end(s, next);
        }
    }
}

/// A program takes up its whole text: where one has been read, nothing is
/// left behind it.
pub proof fn law_programs_take_the_whole_text(s: Seq<char>, at: Place)
    ensures
        prog_at(s, at) matches Ok((_, end)) ==> !more(s, end),
{
    let head_at = skip_to_lower(s, at);
    lemma_skip_to_lower_settles(s, at);
    if let Ok((_, next)) = abs_at(s, head_at) {
        lemma_top_settles(s, head_at);
        lemma_items_read_to_the_end(s, next);
    }
}

} // verus!
