use bumpalo::Bump;
use roc_parse::literal::{byte, two_bytes, word};
use roc_parse::parser::{ParseResult, Parser, Progress};
use roc_parse::region::Position;
use roc_parse::sequence::{and, and_then, between, skip_first, skip_second, then_with};
use roc_parse::state::State;
use roc_parse::transform::{self, backtrackable, succeed};

#[derive(Debug, PartialEq)]
enum Problem {
    NotFound(Position),
    OddChar(Position),
}

fn letter<'a>(_arena: &'a Bump, state: State<'a>, _min_indent: u32) -> ParseResult<'a, u8, Problem> {
    match state.bytes().first() {
        Some(b) if b.is_ascii_lowercase() => {
            let b = *b;
            Ok((Progress::MadeProgress, b, state.advance(1)))
        }
        _ => Err((Progress::NoProgress, Problem::NotFound(state.pos()))),
    }
}

#[test]
fn and_pairs_both_outputs() {
    let arena = Bump::new();
    let parser = and(letter, byte(b',', Problem::NotFound));
    let (progress, output, state) = parser.parse(&arena, State::new(b"h, world"), 0).unwrap();
    assert_eq!(progress, Progress::MadeProgress);
    assert_eq!(output, (b'h', ()));
    assert_eq!(state.pos().offset, 2);
}

#[test]
fn and_failure_of_second_reports_progress_of_first() {
    let arena = Bump::new();
    let parser = and(two_bytes(b'h', b'e', Problem::NotFound), byte(b',', Problem::NotFound));
    let (progress, err) = parser.parse(&arena, State::new(b"he! world"), 0).unwrap_err();
    assert_eq!(progress, Progress::MadeProgress);
    assert_eq!(err, Problem::NotFound(Position::new(2)));
}

#[test]
fn and_failure_of_first_passes_through() {
    let arena = Bump::new();
    let parser = and(byte(b'h', Problem::NotFound), byte(b',', Problem::NotFound));
    let (progress, err) = parser.parse(&arena, State::new(b"bye"), 0).unwrap_err();
    assert_eq!(progress, Progress::NoProgress);
    assert_eq!(err, Problem::NotFound(Position::zero()));
}

#[test]
fn and_without_any_progress_reports_none() {
    let arena = Bump::new();
    let parser = and::<_, _, u8, u8, Problem>(succeed::<u8>(1), succeed::<u8>(2));
    let res: ParseResult<(u8, u8), Problem> = parser.parse(&arena, State::new(b"abc"), 0);
    let (progress, output, state) = res.unwrap();
    assert_eq!(progress, Progress::NoProgress);
    assert_eq!(output, (1, 2));
    assert_eq!(state.pos().offset, 0);
}

#[test]
fn and_progress_of_second_alone_counts() {
    let arena = Bump::new();
    let parser = and(succeed::<u8>(1), byte(b'a', Problem::NotFound));
    let (progress, output, state) = parser.parse(&arena, State::new(b"abc"), 0).unwrap();
    assert_eq!(progress, Progress::MadeProgress);
    assert_eq!(output, (1, ()));
    assert_eq!(state.pos().offset, 1);
}

#[test]
fn skip_first_keeps_second_output() {
    let arena = Bump::new();
    let parser = skip_first(byte(b'(', Problem::NotFound), letter);
    let (progress, output, state) = parser.parse(&arena, State::new(b"(x)"), 0).unwrap();
    assert_eq!(progress, Progress::MadeProgress);
    assert_eq!(output, b'x');
    assert_eq!(state.pos().offset, 2);

    let (progress, err) = parser.parse(&arena, State::new(b"(1)"), 0).unwrap_err();
    assert_eq!(progress, Progress::MadeProgress);
    assert_eq!(err, Problem::NotFound(Position::new(1)));
}

#[test]
fn skip_second_keeps_first_output() {
    let arena = Bump::new();
    let parser = skip_second(letter, byte(b')', Problem::NotFound));
    let (progress, output, state) = parser.parse(&arena, State::new(b"x)"), 0).unwrap();
    assert_eq!(progress, Progress::MadeProgress);
    assert_eq!(output, b'x');
    assert_eq!(state.pos().offset, 2);

    let (progress, err) = parser.parse(&arena, State::new(b"xy"), 0).unwrap_err();
    assert_eq!(progress, Progress::MadeProgress);
    assert_eq!(err, Problem::NotFound(Position::new(1)));

    let (progress, err) = parser.parse(&arena, State::new(b"1)"), 0).unwrap_err();
    assert_eq!(progress, Progress::NoProgress);
    assert_eq!(err, Problem::NotFound(Position::zero()));
}

#[test]
fn between_keeps_the_middle() {
    let arena = Bump::new();
    let parser = between(
        byte(b'(', Problem::NotFound),
        word("hello", Problem::NotFound),
        skip_first(byte(b' ', Problem::NotFound), byte(b')', Problem::NotFound)),
    );
    let (progress, output, state) =
        parser.parse(&arena, State::new(b"(hello ), world"), 0).unwrap();
    assert_eq!(progress, Progress::MadeProgress);
    assert_eq!(output, ());
    assert_eq!(state.pos().offset, 8);
}

#[test]
fn and_then_runs_the_parser_made_from_the_output() {
    let arena = Bump::new();
    // A letter, then the same letter again.
    let parser = and_then(letter, |_progress: Progress, b: u8| byte(b, Problem::NotFound));
    let (progress, output, state) = parser.parse(&arena, State::new(b"aab"), 0).unwrap();
    assert_eq!(progress, Progress::MadeProgress);
    assert_eq!(output, ());
    assert_eq!(state.pos(), Position::new(2));
}

#[test]
fn and_then_failure_is_that_of_the_second_parser() {
    let arena = Bump::new();
    let parser = and_then(letter, |_progress: Progress, b: u8| byte(b, Problem::NotFound));
    let (progress, problem) = parser.parse(&arena, State::new(b"ab"), 0).unwrap_err();
    assert_eq!(progress, Progress::NoProgress);
    assert_eq!(problem, Problem::NotFound(Position::new(1)));
}

#[test]
fn and_then_hands_over_the_progress() {
    let arena = Bump::new();
    let parser = and_then(backtrackable(letter), |progress: Progress, _b: u8| {
        transform::map::<_, _, u8, Progress, ()>(succeed::<u8>(0), move |_| progress)
    });
    let res: ParseResult<Progress, ()> = parser.parse(&arena, State::new(b"ab"), 0);
    let (_, seen, state) = res.unwrap();
    assert_eq!(seen, Progress::NoProgress);
    assert_eq!(state.pos(), Position::new(1));
}

/// Accepts what ended at an even offset.
fn even_only<'a>(
    _arena: &'a Bump,
    new_state: State<'a>,
    progress: Progress,
    output: (),
) -> ParseResult<'a, (), Problem> {
    if new_state.pos().offset % 2 == 0 {
        Ok((progress, output, new_state))
    } else {
        Err((Progress::NoProgress, Problem::OddChar(new_state.pos())))
    }
}

#[test]
fn then_with_decides_the_outcome() {
    let arena = Bump::new();
    let parser = then_with(two_bytes(b'h', b'e', Problem::NotFound), even_only);
    let (progress, _, state) = parser.parse(&arena, State::new(b"hello"), 0).unwrap();
    assert_eq!(progress, Progress::MadeProgress);
    assert_eq!(state.pos().offset, 2);

    let odd = then_with(byte(b'h', Problem::NotFound), even_only);
    let (progress, err) = odd.parse(&arena, State::new(b"hello"), 0).unwrap_err();
    assert_eq!(progress, Progress::NoProgress);
    assert_eq!(err, Problem::OddChar(Position::new(1)));
}

/// Fails after progress, whatever it is given.
fn never<'a>(
    _arena: &'a Bump,
    new_state: State<'a>,
    _progress: Progress,
    _output: (),
) -> ParseResult<'a, (), Problem> {
    Err((Progress::MadeProgress, Problem::OddChar(new_state.pos())))
}

#[test]
fn then_with_is_not_asked_when_the_parser_fails() {
    let arena = Bump::new();
    let parser = then_with(byte(b'h', Problem::NotFound), never);
    let (progress, err) = parser.parse(&arena, State::new(b"bye"), 0).unwrap_err();
    assert_eq!(progress, Progress::NoProgress);
    assert_eq!(err, Problem::NotFound(Position::zero()));
    let (progress, err) = parser.parse(&arena, State::new(b"hi"), 0).unwrap_err();
    assert_eq!(progress, Progress::MadeProgress);
    assert_eq!(err, Problem::OddChar(Position::new(1)));
}
