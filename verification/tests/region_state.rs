use roc_parse::region::{Loc, Position, Region};
use roc_parse::state::State;

#[test]
fn position_zero_and_new_agree() {
    assert_eq!(Position::zero(), Position::new(0));
    assert_eq!(Position::new(7).offset, 7);
    assert_eq!(Position::new(7).bump_column(3), Position::new(10));
    assert_eq!(Position::new(7).byte_offset(), 7usize);
}

#[test]
fn region_measures_its_span() {
    let r = Region::new(Position::new(2), Position::new(9));
    assert_eq!(r.start(), Position::new(2));
    assert_eq!(r.end(), Position::new(9));
    assert_eq!(r.len(), 7);
    assert!(!r.is_empty());
    assert_eq!(Region::between(Position::new(2), Position::new(9)), r);
}

#[test]
fn region_may_be_empty() {
    let r = Region::new(Position::new(4), Position::new(4));
    assert!(r.is_empty());
    assert_eq!(r.len(), 0);
    assert_eq!(Region::zero(), Region::new(Position::zero(), Position::zero()));
}

#[test]
fn region_contains_and_spans() {
    let outer = Region::new(Position::new(1), Position::new(10));
    let inner = Region::new(Position::new(3), Position::new(5));
    assert!(outer.contains(&inner));
    assert!(!inner.contains(&outer));
    assert!(outer.contains(&outer));
    let later = Region::new(Position::new(8), Position::new(12));
    assert_eq!(
        Region::span_across(&inner, &later),
        Region::new(Position::new(3), Position::new(12))
    );
}

#[test]
fn loc_keeps_region_and_value() {
    let l = Loc::new(0, 5, "hello");
    assert_eq!(l.region, Region::new(Position::new(0), Position::new(5)));
    assert_eq!(l.value, "hello");
    assert_eq!(Loc::at(l.region, "hello"), l);
    assert_eq!(Loc::at_zero(1u8).region, Region::zero());
    assert_eq!(l.with_value(3u8), Loc::new(0, 5, 3u8));
}

#[test]
fn state_starts_at_the_beginning() {
    let state = State::new(b"hello");
    assert_eq!(state.pos(), Position::zero());
    assert_eq!(state.column(), 0);
    assert_eq!(state.line_indent(), 0);
    assert_eq!(state.bytes(), b"hello");
    assert_eq!(state.original_bytes(), b"hello");
    assert!(!state.has_reached_end());
    assert!(State::new(b"").has_reached_end());
}

#[test]
fn state_advance_moves_cursor_along_the_line() {
    let state = State::new(b"hello, world").advance(7);
    assert_eq!(state.pos(), Position::new(7));
    assert_eq!(state.column(), 7);
    assert_eq!(state.bytes(), b"world");
    assert_eq!(state.original_bytes(), b"hello, world");
    let end = state.advance(5);
    assert!(end.has_reached_end());
    assert_eq!(end.bytes(), b"");
}

#[test]
fn state_newline_starts_a_line() {
    // "ab\n  cd": the second line starts at offset 3, its first token at offset 5.
    let state = State::new(b"ab\n  cd").advance(2).advance_newline();
    assert_eq!(state.pos(), Position::new(3));
    assert_eq!(state.column(), 0);
    assert_eq!(state.line_indent(), 0);
    let state = state.advance(2).mark_current_indent();
    assert_eq!(state.column(), 2);
    assert_eq!(state.line_indent(), 2);
    let state = state.advance(1);
    assert_eq!(state.column(), 3);
    assert_eq!(state.line_indent(), 2);
}

#[test]
fn state_clone_is_the_same_cursor() {
    let state = State::new(b"abc").advance(1);
    let copy = state.clone();
    assert_eq!(copy.pos(), state.pos());
    assert_eq!(copy.bytes(), state.bytes());
    assert_eq!(copy.column(), state.column());
}

#[test]
fn state_starts_with_compares_the_prefix() {
    let state = State::new(b"when x").advance(0);
    assert!(state.starts_with(b"when"));
    assert!(state.starts_with(b""));
    assert!(!state.starts_with(b"whence"));
    assert!(!state.starts_with(b"when x is"));
    assert!(state.advance(5).starts_with(b"x"));
}
