use bumpalo::Bump;
use roc_parse::choice::{either, one_of, optional};
use roc_parse::literal::{byte, two_bytes, word};
use roc_parse::parser::{Either, ParseResult, Parser, Progress};
use roc_parse::region::Position;
use roc_parse::sequence::and;
use roc_parse::state::State;
use roc_parse::transform::{self, backtrackable, specialize_err};

#[derive(Debug, PartialEq)]
enum Problem {
    NotFound(Position),
    NoA(Position),
    NoB(Position),
}

/// A parser that succeeds with 1 on `a`, fails without progress on anything but
/// `a`, and fails with progress on `a!`.
fn alt_a<'a>(_arena: &'a Bump, state: State<'a>, _min: u32) -> ParseResult<'a, u8, Problem> {
    let bytes = state.bytes();
    if bytes.starts_with(b"a!") {
        Err((Progress::MadeProgress, Problem::NoA(Position::new(state.pos().offset + 1))))
    } else if bytes.starts_with(b"a") {
        Ok((Progress::MadeProgress, 1, state.advance(1)))
    } else {
        Err((Progress::NoProgress, Problem::NoA(state.pos())))
    }
}

/// A parser that succeeds with 2 on `a` or `b`, fails with progress on `b!`, and
/// fails without progress on anything else.
fn alt_b<'a>(_arena: &'a Bump, state: State<'a>, _min: u32) -> ParseResult<'a, u8, Problem> {
    let bytes = state.bytes();
    if bytes.starts_with(b"b!") {
        Err((Progress::MadeProgress, Problem::NoB(Position::new(state.pos().offset + 1))))
    } else if bytes.starts_with(b"a") || bytes.starts_with(b"b") {
        Ok((Progress::MadeProgress, 2, state.advance(1)))
    } else {
        Err((Progress::NoProgress, Problem::NoB(state.pos())))
    }
}

#[test]
fn one_of_first_success_wins() {
    let arena = Bump::new();
    let (progress, out, state) = one_of(alt_a, alt_b).parse(&arena, State::new(b"a"), 0).unwrap();
    assert_eq!((progress, out, state.pos().offset), (Progress::MadeProgress, 1, 1));
    // With the order swapped the other alternative wins on the same input.
    let (_, out, _) = one_of(alt_b, alt_a).parse(&arena, State::new(b"a"), 0).unwrap();
    assert_eq!(out, 2);
}

#[test]
fn one_of_tries_second_after_failure_without_progress() {
    let arena = Bump::new();
    let (progress, out, state) = one_of(alt_a, alt_b).parse(&arena, State::new(b"b"), 0).unwrap();
    assert_eq!((progress, out, state.pos().offset), (Progress::MadeProgress, 2, 1));
}

#[test]
fn one_of_second_alternative_starts_from_the_original_state() {
    let arena = Bump::new();
    let state = State::new(b"xxb").advance(2);
    let (_, out, state) = one_of(alt_a, alt_b).parse(&arena, state, 0).unwrap();
    assert_eq!(out, 2);
    assert_eq!(state.pos().offset, 3);
}

#[test]
fn one_of_stops_at_failure_with_progress() {
    let arena = Bump::new();
    // `alt_b` would succeed on `a!`, but `alt_a` has consumed input before it failed.
    let (progress, err) = one_of(alt_a, alt_b).parse(&arena, State::new(b"a!"), 0).unwrap_err();
    assert_eq!(progress, Progress::MadeProgress);
    assert_eq!(err, Problem::NoA(Position::new(1)));
}

#[test]
fn one_of_returns_the_last_failure_when_none_applies() {
    let arena = Bump::new();
    let (progress, err) = one_of(alt_a, alt_b).parse(&arena, State::new(b"c"), 0).unwrap_err();
    assert_eq!(progress, Progress::NoProgress);
    assert_eq!(err, Problem::NoB(Position::zero()));
}

#[test]
fn one_of_second_failure_with_progress_is_returned() {
    let arena = Bump::new();
    let (progress, err) = one_of(alt_a, alt_b).parse(&arena, State::new(b"b!"), 0).unwrap_err();
    assert_eq!(progress, Progress::MadeProgress);
    assert_eq!(err, Problem::NoB(Position::new(1)));
}

#[test]
fn one_of_agrees_with_trying_by_hand_in_all_combinations() {
    let arena = Bump::new();
    for input in [&b"a"[..], &b"b"[..], &b"a!"[..], &b"b!"[..], &b"c"[..], &b""[..]] {
        let by_hand = match alt_a(&arena, State::new(input), 0) {
            Ok(ok) => Ok(ok),
            Err((Progress::MadeProgress, fail)) => Err((Progress::MadeProgress, fail)),
            Err((Progress::NoProgress, _)) => alt_b(&arena, State::new(input), 0),
        };
        let combined = one_of(alt_a, alt_b).parse(&arena, State::new(input), 0);
        match (by_hand, combined) {
            (Ok((p1, o1, s1)), Ok((p2, o2, s2))) => {
                assert_eq!((p1, o1, s1.pos()), (p2, o2, s2.pos()));
            }
            (Err(e1), Err(e2)) => assert_eq!(e1, e2),
            _ => panic!("outcomes differ on {:?}", input),
        }
    }
}

#[test]
fn one_of_nests_to_more_alternatives() {
    let arena = Bump::new();
    let parser = one_of(
        transform::map(word("hello", Problem::NotFound), |_| 1u8),
        one_of(
            transform::map(byte(b'h', Problem::NotFound), |_| 2u8),
            transform::map(byte(b'x', Problem::NotFound), |_| 3u8),
        ),
    );
    let (_, out, state) = parser.parse(&arena, State::new(b"hello world"), 0).unwrap();
    assert_eq!((out, state.pos().offset), (1, 5));
    let (_, out, state) = parser.parse(&arena, State::new(b"hello! world"), 0).unwrap();
    assert_eq!((out, state.pos().offset), (2, 1));
    let (_, out, state) = parser.parse(&arena, State::new(b"xyz"), 0).unwrap();
    assert_eq!((out, state.pos().offset), (3, 1));
    let (progress, err) = parser.parse(&arena, State::new(b"later"), 0).unwrap_err();
    assert_eq!(progress, Progress::NoProgress);
    assert_eq!(err, Problem::NotFound(Position::zero()));
}

#[test]
fn backtrackable_reports_no_progress_on_success_and_failure() {
    let arena = Bump::new();
    let parser = backtrackable(two_bytes(b'h', b'e', Problem::NotFound));

    let (progress, output, state) = parser.parse(&arena, State::new(b"hello, world"), 0).unwrap();
    assert_eq!(progress, Progress::NoProgress);
    assert_eq!(output, ());
    assert_eq!(state.pos().offset, 2);

    let (progress, err) = parser.parse(&arena, State::new(b"bye, world"), 0).unwrap_err();
    assert_eq!(progress, Progress::NoProgress);
    assert_eq!(err, ());
}

#[test]
fn backtrackable_drops_the_error_of_a_late_failure() {
    let arena = Bump::new();
    // `alt_a` fails on `a!` after progress, with an error of its own.
    assert_eq!(
        alt_a(&arena, State::new(b"a!"), 0).unwrap_err(),
        (Progress::MadeProgress, Problem::NoA(Position::new(1)))
    );
    let parser = backtrackable(alt_a);
    let late = parser.parse(&arena, State::new(b"a!"), 0).unwrap_err();
    assert_eq!(late, (Progress::NoProgress, ()));
    // A failure at the start looks the same.
    let early = parser.parse(&arena, State::new(b"x"), 0).unwrap_err();
    assert_eq!(early, late);
}

/// The error of a probe that found nothing.
fn no_probe(_dropped: (), pos: Position) -> Problem {
    Problem::NotFound(pos)
}

#[test]
fn backtrackable_lets_choice_try_the_sibling() {
    let arena = Bump::new();
    // Without the wrapper the choice is cut.
    assert!(one_of(alt_a, alt_b).parse(&arena, State::new(b"a!"), 0).is_err());
    // With it the sibling is tried from the start.
    let probe = specialize_err(no_probe, backtrackable(alt_a));
    let (progress, out, state) =
        one_of(probe, alt_b).parse(&arena, State::new(b"a!"), 0).unwrap();
    assert_eq!((progress, out, state.pos().offset), (Progress::MadeProgress, 2, 1));
}

#[test]
fn backtrackable_choice_between_probes() {
    let arena = Bump::new();
    // Both alternatives are probes: the error of the choice says nothing.
    let parser = one_of(backtrackable(alt_a), backtrackable(alt_b));
    let (progress, out, state) = parser.parse(&arena, State::new(b"a!"), 0).unwrap();
    assert_eq!((progress, out, state.pos().offset), (Progress::NoProgress, 2, 1));
    let (progress, err) = parser.parse(&arena, State::new(b"b!"), 0).unwrap_err();
    assert_eq!((progress, err), (Progress::NoProgress, ()));
}

#[test]
fn backtrackable_probe_of_a_sequence() {
    let arena = Bump::new();
    let long = transform::map(
        and(byte(b'<', Problem::NotFound), byte(b'-', Problem::NotFound)),
        |_| 1u8,
    );
    let short = transform::map(byte(b'<', Problem::NotFound), |_| 2u8);
    let parser = one_of(specialize_err(no_probe, backtrackable(long)), short);
    let (_, out, state) = parser.parse(&arena, State::new(b"<="), 0).unwrap();
    assert_eq!((out, state.pos().offset), (2, 1));
    let (_, out, state) = parser.parse(&arena, State::new(b"<-"), 0).unwrap();
    assert_eq!((out, state.pos().offset), (1, 2));
    let (progress, err) = parser.parse(&arena, State::new(b"="), 0).unwrap_err();
    assert_eq!((progress, err), (Progress::NoProgress, Problem::NotFound(Position::zero())));
}

#[test]
fn either_marks_the_side() {
    let arena = Bump::new();
    let parser = either(word("hello", Problem::NotFound), transform::map(word("bye", Problem::NotFound), |_| 7u8));

    let (progress, output, state) = parser.parse(&arena, State::new(b"hello world"), 0).unwrap();
    assert_eq!(progress, Progress::MadeProgress);
    assert_eq!(output, Either::First(()));
    assert_eq!(state.pos().offset, 5);

    let (progress, output, state) = parser.parse(&arena, State::new(b"bye world"), 0).unwrap();
    assert_eq!(progress, Progress::MadeProgress);
    assert_eq!(output, Either::Second(7));
    assert_eq!(state.pos().offset, 3);

    let (progress, err) = parser.parse(&arena, State::new(b"later, world"), 0).unwrap_err();
    assert_eq!(progress, Progress::NoProgress);
    assert_eq!(err, Problem::NotFound(Position::zero()));
}

#[test]
fn either_is_cut_by_progress() {
    let arena = Bump::new();
    let parser = either(alt_a, alt_b);
    let (progress, err) = parser.parse(&arena, State::new(b"a!"), 0).unwrap_err();
    assert_eq!(progress, Progress::MadeProgress);
    assert_eq!(err, Problem::NoA(Position::new(1)));
    let (_, out, _) = parser.parse(&arena, State::new(b"b"), 0).unwrap();
    assert_eq!(out, Either::Second(2));
}

#[test]
fn optional_wraps_success() {
    let arena = Bump::new();
    let parser = optional(word("hello", Problem::NotFound));
    let (progress, output, state) = parser.parse(&arena, State::new(b"hello world"), 0).unwrap();
    assert_eq!(progress, Progress::MadeProgress);
    assert_eq!(output, Some(()));
    assert_eq!(state.pos().offset, 5);
}

#[test]
fn optional_restores_state_when_nothing_is_found() {
    let arena = Bump::new();
    let parser = optional(word("hello", Problem::NotFound));
    let (progress, output, state) = parser.parse(&arena, State::new(b"bye, world"), 0).unwrap();
    assert_eq!(progress, Progress::NoProgress);
    assert_eq!(output, None);
    assert_eq!(state.pos().offset, 0);
    assert_eq!(state.bytes(), b"bye, world");
}

#[test]
fn optional_does_not_swallow_failure_with_progress() {
    let arena = Bump::new();
    let parser = optional(alt_a);
    let (progress, err) = parser.parse(&arena, State::new(b"a!"), 0).unwrap_err();
    assert_eq!(progress, Progress::MadeProgress);
    assert_eq!(err, Problem::NoA(Position::new(1)));
}
