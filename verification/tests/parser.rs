use rusty_grass::ast::{Abs, App, SourcePosition, SourceRange, Top};
use rusty_grass::ir::compile;
use rusty_grass::parser::{
    abs, app, chars, glyph_of, parse_prog, prog, Cursor, Glyph, ParseError,
};

fn at(line: i32, column: i32) -> SourcePosition {
    SourcePosition { line, column }
}

fn span(from: i32, to: i32) -> SourceRange {
    SourceRange { start: at(1, from), end: at(1, to) }
}

#[test]
fn test_app() {
    let input = "WWWwwww";
    let result = app(&chars(input), Cursor::start());
    assert!(result.is_ok());
    let (app, _) = result.unwrap();
    assert_eq!(
        app,
        App {
            func_idx: 3,
            arg_idx: 4,
            range: SourceRange {
                start: SourcePosition { line: 1, column: 1 },
                end: SourcePosition { line: 1, column: 8 },
            },
        }
    );
}

#[test]
fn test_abs() {
    let input = "wwwwwWWwwwwWwww";
    let result = abs(&chars(input), Cursor::start());
    assert!(result.is_ok());
    let (abs, _) = result.unwrap();
    assert_eq!(
        abs,
        Abs {
            arity: 5,
            body: vec![
                App {
                    func_idx: 2,
                    arg_idx: 4,
                    range: SourceRange {
                        start: SourcePosition { line: 1, column: 6 },
                        end: SourcePosition { line: 1, column: 12 },
                    },
                },
                App {
                    func_idx: 1,
                    arg_idx: 3,
                    range: SourceRange {
                        start: SourcePosition { line: 1, column: 12 },
                        end: SourcePosition { line: 1, column: 16 },
                    },
                },
            ],
            range: SourceRange {
                start: SourcePosition { line: 1, column: 1 },
                end: SourcePosition { line: 1, column: 16 },
            },
        }
    );
}

#[test]
fn test_prog() {
    let input = "wWWwwwvWWWWwwwwwWWwvwwWwwWWWwwwwwWWWWWwwwwww";
    let result = prog(&chars(input), Cursor::start());
    assert!(result.is_ok());
    let (prog, _) = result.unwrap();
    assert_eq!(prog.items.len(), 4);
    assert_eq!(
        prog.items[0],
        Top::Abs(Abs {
            arity: 1,
            body: vec![App { func_idx: 2, arg_idx: 3, range: span(2, 7) }],
            range: span(1, 7),
        })
    );
    assert_eq!(prog.items[1], Top::App(App { func_idx: 4, arg_idx: 5, range: span(8, 17) }));
    assert_eq!(prog.items[2], Top::App(App { func_idx: 2, arg_idx: 1, range: span(17, 20) }));
    assert_eq!(
        prog.items[3],
        Top::Abs(Abs {
            arity: 2,
            body: vec![
                App { func_idx: 1, arg_idx: 2, range: span(23, 26) },
                App { func_idx: 3, arg_idx: 5, range: span(26, 34) },
                App { func_idx: 5, arg_idx: 6, range: span(34, 45) },
            ],
            range: span(21, 45),
        })
    );
}

fn place(line: i32, column: i32, to_line: i32, to_column: i32) -> SourceRange {
    SourceRange { start: at(line, column), end: at(to_line, to_column) }
}

fn parsed(text: &str) -> Vec<Top> {
    parse_prog(text).unwrap().items
}

#[test]
fn smallest_program() {
    assert_eq!(parsed("w"), vec![Top::Abs(Abs { arity: 1, body: vec![], range: span(1, 2) })]);
}

#[test]
fn full_width_glyphs_count_as_their_half_width_forms() {
    assert_eq!(
        parsed("\u{ff57}\u{ff37}\u{ff57}"),
        vec![Top::Abs(Abs {
            arity: 1,
            body: vec![App { func_idx: 1, arg_idx: 1, range: span(2, 4) }],
            range: span(1, 4),
        })]
    );
    assert_eq!(
        parsed("w\u{ff57}W\u{ff37}\u{ff57}w\u{ff56}\u{ff37}w"),
        vec![
            Top::Abs(Abs {
                arity: 2,
                body: vec![App { func_idx: 2, arg_idx: 2, range: span(3, 7) }],
                range: span(1, 7),
            }),
            Top::App(App { func_idx: 1, arg_idx: 1, range: span(8, 10) }),
        ]
    );
}

#[test]
fn noise_is_skipped_and_counted_in_positions() {
    assert_eq!(
        parsed("  w\nWW w"),
        vec![Top::Abs(Abs {
            arity: 1,
            body: vec![App { func_idx: 2, arg_idx: 1, range: place(2, 1, 2, 5) }],
            range: place(1, 3, 2, 5),
        })]
    );
    assert_eq!(
        parsed("x\ny w W\n\tw v Ww v w w"),
        vec![
            Top::Abs(Abs {
                arity: 1,
                body: vec![App { func_idx: 1, arg_idx: 1, range: place(2, 5, 3, 4) }],
                range: place(2, 3, 3, 4),
            }),
            Top::App(App { func_idx: 1, arg_idx: 1, range: place(3, 6, 3, 9) }),
            Top::Abs(Abs { arity: 2, body: vec![], range: place(3, 11, 3, 14) }),
        ]
    );
}

#[test]
fn glyphs_before_the_first_lower_glyph_are_noise() {
    assert_eq!(
        parsed("Wv W\n w v\n\nWw\n"),
        vec![
            Top::Abs(Abs { arity: 1, body: vec![], range: place(2, 2, 2, 4) }),
            Top::App(App { func_idx: 1, arg_idx: 1, range: place(4, 1, 5, 1) }),
        ]
    );
    assert_eq!(parsed("WWWvvvWvWw"), vec![Top::Abs(Abs { arity: 1, body: vec![], range: span(10, 11) })]);
}

#[test]
fn separator_is_optional_between_items() {
    let with = parsed("wvWwvWw");
    let without = parsed("wWwWw");
    assert_eq!(
        with,
        vec![
            Top::Abs(Abs { arity: 1, body: vec![], range: span(1, 2) }),
            Top::App(App { func_idx: 1, arg_idx: 1, range: span(3, 5) }),
            Top::App(App { func_idx: 1, arg_idx: 1, range: span(6, 8) }),
        ]
    );
    assert_eq!(
        without,
        vec![Top::Abs(Abs {
            arity: 1,
            body: vec![
                App { func_idx: 1, arg_idx: 1, range: span(2, 4) },
                App { func_idx: 1, arg_idx: 1, range: span(4, 6) },
            ],
            range: span(1, 6),
        })]
    );
    assert_eq!(
        parsed("wvWwWw"),
        vec![
            Top::Abs(Abs { arity: 1, body: vec![], range: span(1, 2) }),
            Top::App(App { func_idx: 1, arg_idx: 1, range: span(3, 5) }),
            Top::App(App { func_idx: 1, arg_idx: 1, range: span(5, 7) }),
        ]
    );
}

#[test]
fn text_without_a_lower_glyph_is_no_program() {
    assert_eq!(parse_prog(""), Err(ParseError::Eoi));
    assert_eq!(parse_prog("W"), Err(ParseError::Eoi));
    assert_eq!(parse_prog(" \n"), Err(ParseError::Eoi));
    assert_eq!(parse_prog("WWvvWW hello"), Err(ParseError::Eoi));
}

#[test]
fn upper_run_needs_a_lower_run() {
    assert_eq!(parse_prog("wW"), Err(ParseError::Eoi));
    assert_eq!(parse_prog("wWwW"), Err(ParseError::Eoi));
    assert_eq!(parse_prog("wWv"), Err(ParseError::UnexpectedParse));
    assert_eq!(parse_prog("wWWvw"), Err(ParseError::UnexpectedParse));
    assert_eq!(parse_prog("wWwWv"), Err(ParseError::UnexpectedParse));
    assert_eq!(parse_prog("wvW"), Err(ParseError::Eoi));
    assert_eq!(parse_prog("wvWvw"), Err(ParseError::UnexpectedParse));
}

#[test]
fn separator_needs_an_item_behind_it() {
    assert_eq!(parse_prog("wv"), Err(ParseError::Eoi));
    assert_eq!(parse_prog("w v"), Err(ParseError::Eoi));
    assert_eq!(parse_prog("w W w v  "), Err(ParseError::Eoi));
    assert_eq!(parse_prog("wvv"), Err(ParseError::UnexpectedParse));
    assert_eq!(parse_prog("wvvw"), Err(ParseError::UnexpectedParse));
    assert_eq!(parse_prog("wvwv\u{ff56}w"), Err(ParseError::UnexpectedParse));
}

#[test]
fn parsers_start_where_the_cursor_stands() {
    let text = chars("wvWWw w\nw");
    let from = Cursor { index: 2, position: at(1, 3) };
    let (found, end) = app(&text, from).unwrap();
    assert_eq!(found, App { func_idx: 2, arg_idx: 3, range: place(1, 3, 2, 2) });
    assert_eq!(end, Cursor { index: 9, position: at(2, 2) });
    let from = Cursor { index: 4, position: at(7, 40) };
    let (found, end) = abs(&text, from).unwrap();
    assert_eq!(found, Abs { arity: 3, body: vec![], range: place(7, 40, 8, 2) });
    assert_eq!(end, Cursor { index: 9, position: at(8, 2) });
}

#[test]
fn parsers_report_what_is_missing() {
    let text = chars("vWw");
    assert_eq!(app(&text, Cursor::start()), Err(ParseError::UnexpectedParse));
    assert_eq!(abs(&text, Cursor::start()), Err(ParseError::UnexpectedParse));
    let end = Cursor { index: 3, position: at(1, 4) };
    assert_eq!(app(&text, end), Err(ParseError::Eoi));
    assert_eq!(abs(&text, end), Err(ParseError::Eoi));
    let beyond = Cursor { index: 17, position: at(1, 4) };
    assert_eq!(app(&text, beyond), Err(ParseError::Eoi));
    assert_eq!(prog(&text, beyond), Err(ParseError::Eoi));
    let upper = Cursor { index: 1, position: at(1, 2) };
    assert_eq!(abs(&text, upper), Err(ParseError::UnexpectedParse));
    assert_eq!(
        prog(&text, upper).map(|(p, _)| p.items),
        Ok(vec![Top::Abs(Abs { arity: 1, body: vec![], range: span(3, 4) })])
    );
}

#[test]
fn glyphs_are_told_from_noise() {
    assert_eq!(glyph_of('w'), Some(Glyph::Lower));
    assert_eq!(glyph_of('\u{ff57}'), Some(Glyph::Lower));
    assert_eq!(glyph_of('W'), Some(Glyph::Upper));
    assert_eq!(glyph_of('\u{ff37}'), Some(Glyph::Upper));
    assert_eq!(glyph_of('v'), Some(Glyph::Sep));
    assert_eq!(glyph_of('\u{ff56}'), Some(Glyph::Sep));
    for c in ['V', 'x', ' ', '\n', '\0', '\u{ff36}', '\u{ff58}', '\u{1f33f}'] {
        assert_eq!(glyph_of(c), None);
    }
}

#[test]
fn characters_of_a_text() {
    assert_eq!(chars(""), Vec::<char>::new());
    assert_eq!(chars("w\u{ff37}\n\u{1f33f}v"), vec!['w', '\u{ff37}', '\n', '\u{1f33f}', 'v']);
}

#[test]
fn parsed_programs_compile() {
    for text in ["w", "wWWwwwvWWWWwwwwwWWwvwwWwwWWWwwwwwWWWWWwwwwww", "  w\nWW w", "wvWwvWw"] {
        let prog = parse_prog(text).unwrap();
        let code = compile(&prog).unwrap();
        assert_eq!(code.len(), prog.items.len());
    }
}
