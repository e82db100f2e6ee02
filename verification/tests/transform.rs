use bumpalo::Bump;
use roc_parse::literal::{byte, three_bytes, two_bytes};
use roc_parse::parser::{ParseResult, Parser, Progress};
use roc_parse::region::{Loc, Position, Region};
use roc_parse::sequence::and;
use roc_parse::state::State;
use roc_parse::transform::{
    self, allocated, fail, fail_when, loc, map_with_arena, specialize_err, specialize_err_ref,
    succeed,
};

#[derive(Debug, PartialEq)]
enum Problem {
    NotFound(Position),
    OtherProblem(Position),
}

#[derive(Debug, PartialEq)]
enum Outer<'a> {
    Inner(&'a Problem, Position),
    Owned(Problem, Position),
}

#[test]
fn map_transforms_the_output() {
    let arena = Bump::new();
    let parser = transform::map(two_bytes(b'h', b'e', Problem::NotFound), |_output| "new output!");

    let (progress, output, state) = parser.parse(&arena, State::new(b"hello, world"), 0).unwrap();
    assert_eq!(progress, Progress::MadeProgress);
    assert_eq!(output, "new output!");
    assert_eq!(state.pos(), Position::new(2));

    let (progress, err) = parser.parse(&arena, State::new(b"bye, world"), 0).unwrap_err();
    assert_eq!(progress, Progress::NoProgress);
    assert_eq!(err, Problem::NotFound(Position::zero()));
}

/// Builds its result in the arena.
fn answer<'a>(arena: &'a Bump, _output: ()) -> &'a u32 {
    arena.alloc(41 + 1)
}

#[test]
fn map_with_arena_may_allocate() {
    let arena = Bump::new();
    let parser = map_with_arena(three_bytes(b'h', b'e', b'l', Problem::NotFound), answer);
    let (progress, output, state) = parser.parse(&arena, State::new(b"hello, world"), 0).unwrap();
    assert_eq!(progress, Progress::MadeProgress);
    assert_eq!(*output, 42);
    assert_eq!(state.pos(), Position::new(3));

    let (progress, err) = parser.parse(&arena, State::new(b"bye, world"), 0).unwrap_err();
    assert_eq!(progress, Progress::NoProgress);
    assert_eq!(err, Problem::NotFound(Position::zero()));
}

#[test]
fn specialize_err_tags_with_the_starting_position() {
    let arena = Bump::new();
    let inner = and(byte(b'h', Problem::NotFound), byte(b'!', Problem::NotFound));
    let parser = specialize_err(Outer::Owned, inner);
    let state = State::new(b"..hello").advance(2);
    let (progress, err) = parser.parse(&arena, state, 0).unwrap_err();
    assert_eq!(progress, Progress::MadeProgress);
    // The inner error points behind `h`; the outer one at where the construct began.
    assert_eq!(err, Outer::Owned(Problem::NotFound(Position::new(3)), Position::new(2)));
}

#[test]
fn specialize_err_leaves_success_alone() {
    let arena = Bump::new();
    let parser = specialize_err(Outer::Owned, byte(b'h', Problem::NotFound));
    let (progress, output, state) = parser.parse(&arena, State::new(b"hello"), 0).unwrap();
    assert_eq!(progress, Progress::MadeProgress);
    assert_eq!(output, ());
    assert_eq!(state.pos(), Position::new(1));
}

#[test]
fn specialize_err_may_replace_the_error() {
    let arena = Bump::new();
    let parser = specialize_err(
        |_prev_err: Problem, pos| Problem::OtherProblem(pos),
        byte(b'b', Problem::NotFound),
    );
    let (progress, err) = parser.parse(&arena, State::new(b"hello, world"), 0).unwrap_err();
    assert_eq!(progress, Progress::NoProgress);
    assert_eq!(err, Problem::OtherProblem(Position::new(0)));
}

#[test]
fn specialize_err_ref_keeps_the_inner_error_in_the_arena() {
    let arena = Bump::new();
    let inner = and(byte(b'h', Problem::NotFound), byte(b'!', Problem::NotFound));
    let parser = specialize_err_ref(Outer::Inner, inner);
    let (progress, err) = parser.parse(&arena, State::new(b"hello"), 0).unwrap_err();
    assert_eq!(progress, Progress::MadeProgress);
    assert_eq!(err, Outer::Inner(&Problem::NotFound(Position::new(1)), Position::zero()));
}

#[test]
fn allocated_hands_back_a_reference_to_the_output() {
    let arena = Bump::new();
    let parser = allocated(transform::map(byte(b'h', Problem::NotFound), |_| 17u64));

    let (progress, output, state) = parser.parse(&arena, State::new(b"hello, world"), 0).unwrap();
    assert_eq!(progress, Progress::MadeProgress);
    assert_eq!(output, &17u64);
    assert_eq!(state.pos(), Position::new(1));
    // The value lives in the arena, not on the stack of the call.
    let (_, second, _) = parser.parse(&arena, State::new(b"hello, world"), 0).unwrap();
    assert!(!std::ptr::eq(output, second));
    assert_eq!(*output, *second);
    assert!(arena.allocated_bytes() >= 16);

    let (progress, err) = parser.parse(&arena, State::new(b"bye, world"), 0).unwrap_err();
    assert_eq!(progress, Progress::NoProgress);
    assert_eq!(err, Problem::NotFound(Position::zero()));
}

#[test]
fn loc_attaches_the_consumed_span() {
    let arena = Bump::new();
    let parser = loc(three_bytes(b'l', b'l', b'o', Problem::NotFound));
    let state = State::new(b"hello, world").advance(2);
    let (progress, output, state) = parser.parse(&arena, state, 0).unwrap();
    assert_eq!(progress, Progress::MadeProgress);
    assert_eq!(output, Loc::new(2, 5, ()));
    assert_eq!(output.region, Region::new(Position::new(2), Position::new(5)));
    assert_eq!(state.pos().offset, 5);
}

#[test]
fn loc_of_an_empty_match_is_an_empty_region() {
    let arena = Bump::new();
    let parser = loc::<_, u8, Problem>(succeed::<u8>(9));
    let res: ParseResult<Loc<u8>, Problem> = parser.parse(&arena, State::new(b"abc").advance(1), 0);
    let (progress, output, _) = res.unwrap();
    assert_eq!(progress, Progress::NoProgress);
    assert_eq!(output, Loc::new(1, 1, 9));
    assert!(output.region.is_empty());
}

#[test]
fn loc_passes_failure_through() {
    let arena = Bump::new();
    let parser = loc(byte(b'x', Problem::NotFound));
    let (progress, err) = parser.parse(&arena, State::new(b"abc"), 0).unwrap_err();
    assert_eq!(progress, Progress::NoProgress);
    assert_eq!(err, Problem::NotFound(Position::zero()));
}

#[test]
fn succeed_consumes_nothing() {
    let arena = Bump::new();
    let parser = succeed("different");
    let res: ParseResult<&str, ()> = parser.parse(&arena, State::new(b"hello, world"), 0);
    let (progress, output, state) = res.unwrap();
    assert_eq!(progress, Progress::NoProgress);
    assert_eq!(output, "different");
    assert_eq!(state.pos().offset, 0);
}

#[test]
fn succeed_hands_out_a_clone_each_time() {
    let arena = Bump::new();
    let parser = succeed(String::from("again"));
    let first: ParseResult<String, ()> = parser.parse(&arena, State::new(b"x"), 0);
    let second: ParseResult<String, ()> = parser.parse(&arena, State::new(b"x"), 0);
    let (progress, output, state) = first.unwrap();
    assert_eq!(progress, Progress::NoProgress);
    assert_eq!(output, "again");
    assert_eq!(state.pos().offset, 0);
    assert_eq!(second.unwrap().1, "again");
}

#[test]
fn fail_always_fails_without_progress() {
    let arena = Bump::new();
    let parser = fail(Problem::NotFound);
    let res: ParseResult<(), Problem> = parser.parse(&arena, State::new(b"hello, world"), 0);
    let (progress, err) = res.unwrap_err();
    assert_eq!(progress, Progress::NoProgress);
    assert_eq!(err, Problem::NotFound(Position::new(0)));
}

#[test]
fn fail_when_turns_success_into_failure_with_progress() {
    let arena = Bump::new();
    let parser = fail_when(Problem::OtherProblem, two_bytes(b'h', b'e', Problem::NotFound));

    let res: ParseResult<(), Problem> = parser.parse(&arena, State::new(b"hello, world"), 0);
    let (progress, err) = res.unwrap_err();
    assert_eq!(progress, Progress::MadeProgress);
    assert_eq!(err, Problem::OtherProblem(Position::new(0)));

    let res: ParseResult<(), Problem> = parser.parse(&arena, State::new(b"bye, world"), 0);
    let (progress, err) = res.unwrap_err();
    assert_eq!(progress, Progress::NoProgress);
    assert_eq!(err, Problem::NotFound(Position::new(0)));
}

#[test]
fn trace_leaves_the_parser_as_it_is() {
    let arena = Bump::new();
    let parser = byte(b'h', Problem::NotFound).trace("h");
    let (progress, _, state) = parser.parse(&arena, State::new(b"hello"), 0).unwrap();
    assert_eq!(progress, Progress::MadeProgress);
    assert_eq!(state.pos().offset, 1);
    let (progress, err) = parser.parse(&arena, State::new(b"bye"), 0).unwrap_err();
    assert_eq!(progress, Progress::NoProgress);
    assert_eq!(err, Problem::NotFound(Position::zero()));
}
