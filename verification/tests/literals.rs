use bumpalo::Bump;
use roc_parse::literal::{byte, byte_indent, keyword, three_bytes, two_bytes, word};
use roc_parse::parser::{Parser, Progress};
use roc_parse::region::Position;
use roc_parse::state::State;

#[derive(Debug, PartialEq)]
enum Problem {
    NotFound(Position),
    WrongIndentLevel(Position),
}

#[test]
fn word_rejects_longer_identifier() {
    let arena = Bump::new();
    let parser = word("when", Problem::NotFound);
    let (progress, err) = parser.parse(&arena, State::new(b"whence"), 0).unwrap_err();
    assert_eq!(progress, Progress::NoProgress);
    assert_eq!(err, Problem::NotFound(Position::zero()));
}

#[test]
fn word_followed_by_space_consumes_the_word_only() {
    let arena = Bump::new();
    let parser = word("when", Problem::NotFound);
    let (progress, output, state) = parser.parse(&arena, State::new(b"when "), 0).unwrap();
    assert_eq!(progress, Progress::MadeProgress);
    assert_eq!(output, ());
    assert_eq!(state.pos(), Position::new(4));
    assert_eq!(state.bytes(), b" ");
}

#[test]
fn word_at_end_of_input_matches() {
    let arena = Bump::new();
    let parser = word("when", Problem::NotFound);
    let (progress, _, state) = parser.parse(&arena, State::new(b"when"), 0).unwrap();
    assert_eq!(progress, Progress::MadeProgress);
    assert_eq!(state.pos(), Position::new(4));
    assert!(state.has_reached_end());
}

#[test]
fn word_ends_before_comment_and_line_breaks() {
    let arena = Bump::new();
    let parser = word("is", Problem::NotFound);
    for input in [&b"is#c"[..], &b"is\nx"[..], &b"is\r\n"[..], &b"is x"[..]] {
        let (progress, _, state) = parser.parse(&arena, State::new(input), 0).unwrap();
        assert_eq!(progress, Progress::MadeProgress);
        assert_eq!(state.pos(), Position::new(2));
    }
    for input in [&b"is,"[..], &b"isx"[..], &b"is("[..], &b"is\t"[..], &b"i"[..], &b""[..]] {
        let (progress, err) = parser.parse(&arena, State::new(input), 0).unwrap_err();
        assert_eq!(progress, Progress::NoProgress);
        assert_eq!(err, Problem::NotFound(Position::zero()));
    }
}

#[test]
fn word_reports_error_at_the_cursor() {
    let arena = Bump::new();
    let parser = word("bye", Problem::NotFound);
    let state = State::new(b"hello bye").advance(3);
    let (progress, err) = parser.parse(&arena, state, 0).unwrap_err();
    assert_eq!(progress, Progress::NoProgress);
    assert_eq!(err, Problem::NotFound(Position::new(3)));
}

#[test]
fn keyword_matches_whole_words_only() {
    let arena = Bump::new();
    let parser = keyword("when", Problem::NotFound);

    let (progress, output, state) = parser.parse(&arena, State::new(b"when"), 0).unwrap();
    assert_eq!(progress, Progress::MadeProgress);
    assert_eq!(output, ());
    assert_eq!(state.pos().offset, 4);

    let (progress, err) = parser.parse(&arena, State::new(b"whence"), 0).unwrap_err();
    assert_eq!(progress, Progress::NoProgress);
    assert_eq!(err, Problem::NotFound(Position::zero()));
}

#[test]
fn byte_matches_first_byte() {
    let arena = Bump::new();
    let parser = byte(b'h', Problem::NotFound);

    let (progress, output, state) = parser.parse(&arena, State::new(b"hello, world"), 0).unwrap();
    assert_eq!(progress, Progress::MadeProgress);
    assert_eq!(output, ());
    assert_eq!(state.pos(), Position::new(1));

    let (progress, problem) = parser.parse(&arena, State::new(b"bye, world"), 0).unwrap_err();
    assert_eq!(progress, Progress::NoProgress);
    assert_eq!(problem, Problem::NotFound(Position::zero()));
}

#[test]
fn byte_fails_on_empty_input() {
    let arena = Bump::new();
    let parser = byte(b'h', Problem::NotFound);
    let (progress, problem) = parser.parse(&arena, State::new(b""), 0).unwrap_err();
    assert_eq!(progress, Progress::NoProgress);
    assert_eq!(problem, Problem::NotFound(Position::zero()));
}

#[test]
fn byte_ignores_min_indent() {
    let arena = Bump::new();
    let parser = byte(b'h', Problem::NotFound);
    let (progress, _, state) = parser.parse(&arena, State::new(b"hello"), 9).unwrap();
    assert_eq!(progress, Progress::MadeProgress);
    assert_eq!(state.pos(), Position::new(1));
}

#[test]
fn byte_indent_matches_at_sufficient_column() {
    let arena = Bump::new();
    let parser = byte_indent(b'h', Problem::WrongIndentLevel);
    let (progress, output, state) = parser.parse(&arena, State::new(b"hello, world"), 0).unwrap();
    assert_eq!(progress, Progress::MadeProgress);
    assert_eq!(output, ());
    assert_eq!(state.pos(), Position::new(1));
}

#[test]
fn byte_indent_rejects_token_left_of_threshold() {
    let arena = Bump::new();
    let parser = byte_indent(b'h', Problem::WrongIndentLevel);
    // The token stands at column 2; the threshold is 5.
    let state = State::new(b"  hello").advance(2);
    assert_eq!(state.column(), 2);
    let (progress, problem) = parser.parse(&arena, state, 5).unwrap_err();
    assert_eq!(progress, Progress::NoProgress);
    assert_eq!(problem, Problem::WrongIndentLevel(Position::new(2)));
}

#[test]
fn byte_indent_rejection_does_not_depend_on_the_byte() {
    let arena = Bump::new();
    let matching = byte_indent(b'h', Problem::WrongIndentLevel);
    let other = byte_indent(b'x', Problem::WrongIndentLevel);
    let a = matching.parse(&arena, State::new(b"  hello").advance(2), 5).unwrap_err();
    let b = other.parse(&arena, State::new(b"  hello").advance(2), 5).unwrap_err();
    assert_eq!(a, b);
}

#[test]
fn byte_indent_accepts_token_at_or_right_of_threshold() {
    let arena = Bump::new();
    let parser = byte_indent(b'h', Problem::WrongIndentLevel);
    let at = State::new(b"     hello").advance(5);
    assert_eq!(at.column(), 5);
    let (progress, _, state) = parser.parse(&arena, at, 5).unwrap();
    assert_eq!(progress, Progress::MadeProgress);
    assert_eq!(state.pos(), Position::new(6));

    let right = State::new(b"        hello").advance(8);
    let (progress, _, state) = parser.parse(&arena, right, 5).unwrap();
    assert_eq!(progress, Progress::MadeProgress);
    assert_eq!(state.pos(), Position::new(9));
}

#[test]
fn byte_indent_counts_columns_from_the_line_start() {
    let arena = Bump::new();
    let parser = byte_indent(b'h', Problem::WrongIndentLevel);
    // Offset 9, but column 1 on the second line.
    let state = State::new(b"1234567\n hello").advance(7).advance_newline().advance(1);
    assert_eq!(state.column(), 1);
    let (progress, problem) = parser.parse(&arena, state.clone(), 2).unwrap_err();
    assert_eq!(progress, Progress::NoProgress);
    assert_eq!(problem, Problem::WrongIndentLevel(Position::new(9)));
    assert!(parser.parse(&arena, state, 1).is_ok());
}

#[test]
fn byte_indent_at_sufficient_column_still_needs_the_byte() {
    let arena = Bump::new();
    let parser = byte_indent(b'h', Problem::WrongIndentLevel);
    let (progress, problem) = parser.parse(&arena, State::new(b"bye"), 0).unwrap_err();
    assert_eq!(progress, Progress::NoProgress);
    assert_eq!(problem, Problem::WrongIndentLevel(Position::zero()));
}

#[test]
fn two_bytes_matches_both_or_nothing() {
    let arena = Bump::new();
    let parser = two_bytes(b'h', b'e', Problem::NotFound);

    let (progress, output, state) = parser.parse(&arena, State::new(b"hello, world"), 0).unwrap();
    assert_eq!(progress, Progress::MadeProgress);
    assert_eq!(output, ());
    assert_eq!(state.pos(), Position::new(2));

    let (progress, problem) = parser.parse(&arena, State::new(b"hi, world"), 0).unwrap_err();
    assert_eq!(progress, Progress::NoProgress);
    assert_eq!(problem, Problem::NotFound(Position::zero()));

    let (progress, _) = parser.parse(&arena, State::new(b"h"), 0).unwrap_err();
    assert_eq!(progress, Progress::NoProgress);
}

#[test]
fn three_bytes_matches_all_or_nothing() {
    let arena = Bump::new();
    let parser = three_bytes(b'h', b'e', b'l', Problem::NotFound);

    let (progress, output, state) = parser.parse(&arena, State::new(b"hello, world"), 0).unwrap();
    assert_eq!(progress, Progress::MadeProgress);
    assert_eq!(output, ());
    assert_eq!(state.pos(), Position::new(3));

    let (progress, err) = parser.parse(&arena, State::new(b"hi, world"), 0).unwrap_err();
    assert_eq!(progress, Progress::NoProgress);
    assert_eq!(err, Problem::NotFound(Position::zero()));

    let (progress, _) = parser.parse(&arena, State::new(b"hex"), 0).unwrap_err();
    assert_eq!(progress, Progress::NoProgress);
    let (progress, _) = parser.parse(&arena, State::new(b"he"), 0).unwrap_err();
    assert_eq!(progress, Progress::NoProgress);
}
