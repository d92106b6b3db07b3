use combine::error::StringStreamError;
use combine::stream::position::{SourcePosition as Place, Stream as Text};
use combine::{many, many1, none_of, one_of, optional, position, skip_many, Parser, Stream};
use rusty_grass::ast::{Abs, App, Prog, SourcePosition, SourceRange, Top};
use rusty_grass::parser::{abs, app, chars, parse_prog, prog, Cursor, ParseError};

// The grammar once more, put together from parser combinators. The parsers
// of the library have to agree with it on every text: on the tree, on the
// place where they stop, and on the reason when there is no tree.

fn noise<Input>() -> impl Parser<Input, Output = ()>
where
    Input: Stream<Token = char>,
{
    skip_many(none_of("wWv\u{ff57}\u{ff37}\u{ff56}".chars()))
}

fn head_noise<Input>() -> impl Parser<Input, Output = ()>
where
    Input: Stream<Token = char>,
{
    skip_many(none_of("w\u{ff57}".chars()))
}

fn lower<Input>() -> impl Parser<Input, Output = char>
where
    Input: Stream<Token = char>,
{
    one_of("w\u{ff57}".chars()).skip(noise()).map(|_| 'w')
}

fn upper<Input>() -> impl Parser<Input, Output = char>
where
    Input: Stream<Token = char>,
{
    one_of("W\u{ff37}".chars()).skip(noise()).map(|_| 'W')
}

fn sep<Input>() -> impl Parser<Input, Output = char>
where
    Input: Stream<Token = char>,
{
    one_of("v\u{ff56}".chars()).skip(noise()).map(|_| 'v')
}

fn place(p: Place) -> SourcePosition {
    SourcePosition { line: p.line, column: p.column }
}

fn app_rule<'a>() -> impl Parser<Text<&'a str, Place>, Output = App> {
    let func_idx = many1::<Vec<_>, _, _>(upper()).map(|ws| ws.len());
    let arg_idx = many1::<Vec<_>, _, _>(lower()).map(|ws| ws.len());
    (position(), func_idx, arg_idx, position()).map(|(start, func_idx, arg_idx, end)| App {
        func_idx,
        arg_idx,
        range: SourceRange { start: place(start), end: place(end) },
    })
}

fn abs_rule<'a>() -> impl Parser<Text<&'a str, Place>, Output = Abs> {
    let arity = many1::<Vec<_>, _, _>(lower()).map(|ws| ws.len());
    let body = many(app_rule());
    (position(), arity, body, position()).map(|(start, arity, body, end)| Abs {
        arity,
        body,
        range: SourceRange { start: place(start), end: place(end) },
    })
}

fn prog_rule<'a>() -> impl Parser<Text<&'a str, Place>, Output = Prog> {
    let head = abs_rule().map(Top::Abs);
    let top = abs_rule().map(Top::Abs).or(app_rule().map(Top::App));
    let tail = many::<Vec<_>, _, _>(optional(sep()).with(top));
    (head_noise(), head, tail).map(|(_, head, tail)| {
        let mut items = vec![head];
        items.extend(tail);
        Prog { items }
    })
}

fn reason(e: StringStreamError) -> ParseError {
    match e {
        StringStreamError::UnexpectedParse => ParseError::UnexpectedParse,
        StringStreamError::Eoi => ParseError::Eoi,
        StringStreamError::CharacterBoundary => panic!("texts are read character by character"),
    }
}

fn stop<'a>(text: &'a str, rest: Text<&'a str, Place>) -> Cursor {
    Cursor {
        index: text.chars().count() - rest.input.chars().count(),
        position: place(rest.positioner),
    }
}

fn agree_on(text: &str) {
    let cs = chars(text);
    let expected = app_rule().parse(Text::new(text)).map(|(a, rest)| (a, stop(text, rest)));
    assert_eq!(app(&cs, Cursor::start()), expected.map_err(reason), "application in {:?}", text);
    let expected = abs_rule().parse(Text::new(text)).map(|(a, rest)| (a, stop(text, rest)));
    assert_eq!(abs(&cs, Cursor::start()), expected.map_err(reason), "abstraction in {:?}", text);
    let expected = prog_rule().parse(Text::new(text)).map(|(p, rest)| (p, stop(text, rest)));
    assert_eq!(prog(&cs, Cursor::start()), expected.map_err(reason), "program in {:?}", text);
    let expected = prog_rule().parse(Text::new(text)).map(|(p, _)| p);
    assert_eq!(parse_prog(text), expected.map_err(reason), "text {:?}", text);
}

const SYMBOLS: [char; 8] = ['w', 'W', 'v', ' ', '\n', '\u{ff57}', '\u{ff37}', '\u{ff56}'];

fn text_number(mut k: usize, len: usize) -> String {
    let mut text = String::new();
    for _ in 0..len {
        text.push(SYMBOLS[k % SYMBOLS.len()]);
        k /= SYMBOLS.len();
    }
    text
}

#[test]
fn agrees_on_every_text_of_up_to_four_symbols() {
    let mut count = 1;
    for len in 0..=4 {
        for k in 0..count {
            agree_on(&text_number(k, len));
        }
        count *= SYMBOLS.len();
    }
}

#[test]
fn agrees_on_texts_of_five_symbols_that_start_a_program() {
    let count = SYMBOLS.len().pow(4);
    for k in 0..count {
        let mut text = String::from("w");
        text.push_str(&text_number(k, 4));
        agree_on(&text);
        let mut text = String::from("wW");
        text.push_str(&text_number(k, 4));
        agree_on(&text);
    }
}

#[test]
fn agrees_on_longer_texts() {
    let symbols = ['w', 'w', 'w', 'W', 'W', 'W', 'v', ' ', '\n', 'x', '\u{ff57}', '\u{ff37}', '\u{ff56}'];
    let mut seed: u64 = 0x2545_f491_4f6c_dd1d;
    let mut next = move || {
        seed ^= seed << 13;
        seed ^= seed >> 7;
        seed ^= seed << 17;
        seed
    };
    for _ in 0..2000 {
        let len = 5 + (next() % 60) as usize;
        let mut text = String::new();
        for _ in 0..len {
            text.push(symbols[(next() % symbols.len() as u64) as usize]);
        }
        agree_on(&text);
    }
}

#[test]
fn agrees_on_well_formed_programs() {
    let mut seed: u64 = 0x9e37_79b9_7f4a_7c15;
    let mut next = move || {
        seed ^= seed << 13;
        seed ^= seed >> 7;
        seed ^= seed << 17;
        seed
    };
    for _ in 0..500 {
        let mut text = String::new();
        let items = 1 + next() % 6;
        for i in 0..items {
            if i > 0 && next() % 3 != 0 {
                text.push_str("v ");
            }
            if i == 0 || next() % 2 == 0 {
                for _ in 0..1 + next() % 4 {
                    text.push('w');
                }
                for _ in 0..next() % 4 {
                    for _ in 0..1 + next() % 5 {
                        text.push('W');
                    }
                    if next() % 4 == 0 {
                        text.push('\n');
                    }
                    for _ in 0..1 + next() % 5 {
                        text.push('w');
                    }
                }
            } else {
                for _ in 0..1 + next() % 5 {
                    text.push('W');
                }
                for _ in 0..1 + next() % 5 {
                    text.push('w');
                }
            }
        }
        agree_on(&text);
        assert!(parse_prog(&text).is_ok(), "text {:?}", text);
    }
}
