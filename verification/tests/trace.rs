use bumpalo::Bump;
use roc_parse::literal::{byte, two_bytes};
use roc_parse::parser::{Parser, Progress};
use roc_parse::region::Position;
use roc_parse::sequence::and;
use roc_parse::state::State;
use roc_parse::trace::{
    attempt_line, indent_text, outcome_line, traced, TraceLine, Tracer, MAX_TRACE_DEPTH,
};
use std::cell::RefCell;
use std::fmt::Debug;

#[derive(Debug, PartialEq)]
enum Problem {
    NotFound(Position),
}

/// Keeps every report it gets, as text.
struct Recorder<'r> {
    log: &'r RefCell<Vec<String>>,
}

impl<'r> Tracer for Recorder<'r> {
    fn attempt(&self, line: &TraceLine) {
        self.log.borrow_mut().push(format!("try {} @{}", line.message, line.pos.offset));
    }

    fn outcome<O: Debug, E: Debug>(&self, line: &TraceLine, value: Result<&O, &E>) {
        self.log.borrow_mut().push(format!(
            "end {} @{} {:?} {:?}",
            line.message,
            line.pos.offset,
            line.progress.unwrap(),
            value
        ));
    }
}

#[test]
fn traced_parser_reports_attempt_and_success() {
    let arena = Bump::new();
    let log = RefCell::new(Vec::new());
    let parser = traced(two_bytes(b'h', b'e', Problem::NotFound), "he", Recorder { log: &log });
    let (progress, _, state) = parser.parse(&arena, State::new(b"hello"), 0).unwrap();
    assert_eq!(progress, Progress::MadeProgress);
    assert_eq!(state.pos().offset, 2);
    assert_eq!(*log.borrow(), vec!["try he @0", "end he @2 MadeProgress Ok(())"]);
}

#[test]
fn traced_parser_reports_failure_at_the_start() {
    let arena = Bump::new();
    let log = RefCell::new(Vec::new());
    let inner = and(byte(b'h', Problem::NotFound), byte(b'x', Problem::NotFound));
    let parser = traced(inner, "hx", Recorder { log: &log });
    let state = State::new(b"..hello").advance(2);
    let (progress, err) = parser.parse(&arena, state, 0).unwrap_err();
    assert_eq!(progress, Progress::MadeProgress);
    assert_eq!(err, Problem::NotFound(Position::new(3)));
    assert_eq!(
        *log.borrow(),
        vec!["try hx @2", "end hx @2 MadeProgress Err(NotFound(Position { offset: 3 }))"]
    );
}

#[test]
fn traced_parsers_nest() {
    let arena = Bump::new();
    let log = RefCell::new(Vec::new());
    let h = traced(byte(b'h', Problem::NotFound), "h", Recorder { log: &log });
    let e = traced(byte(b'e', Problem::NotFound), "e", Recorder { log: &log });
    let parser = traced(and(h, e), "both", Recorder { log: &log });
    assert!(parser.parse(&arena, State::new(b"he"), 0).is_ok());
    assert_eq!(
        *log.borrow(),
        vec![
            "try both @0",
            "try h @0",
            "end h @1 MadeProgress Ok(())",
            "try e @1",
            "end e @2 MadeProgress Ok(())",
            "end both @2 MadeProgress Ok(((), ()))",
        ]
    );
}

#[test]
fn tracing_does_not_change_outcomes() {
    let arena = Bump::new();
    let log = RefCell::new(Vec::new());
    for input in [&b"he"[..], &b"hx"[..], &b"x"[..], &b""[..]] {
        let plain = and(byte(b'h', Problem::NotFound), byte(b'e', Problem::NotFound));
        let watched = traced(
            and(byte(b'h', Problem::NotFound), byte(b'e', Problem::NotFound)),
            "he",
            Recorder { log: &log },
        );
        match (plain.parse(&arena, State::new(input), 0), watched.parse(&arena, State::new(input), 0))
        {
            (Ok((p1, o1, s1)), Ok((p2, o2, s2))) => {
                assert_eq!((p1, o1, s1.pos()), (p2, o2, s2.pos()))
            }
            (Err(e1), Err(e2)) => assert_eq!(e1, e2),
            _ => panic!("outcomes differ on {:?}", input),
        }
    }
    assert_eq!(log.borrow().len(), 8);
}

#[test]
fn attempt_and_outcome_lines_carry_the_positions() {
    let before = State::new(b"abcdef").advance(1);
    let line = attempt_line("rule", &before);
    assert_eq!(line, TraceLine { message: "rule", pos: Position::new(1), progress: None });

    let ok: Result<_, (Progress, ())> = Ok((Progress::MadeProgress, 7u8, State::new(b"abcdef").advance(4)));
    let line = outcome_line("rule", &before, &ok);
    assert_eq!(
        line,
        TraceLine { message: "rule", pos: Position::new(4), progress: Some(Progress::MadeProgress) }
    );

    let err: Result<(Progress, u8, State), _> = Err((Progress::NoProgress, ()));
    let line = outcome_line("rule", &before, &err);
    assert_eq!(
        line,
        TraceLine { message: "rule", pos: Position::new(1), progress: Some(Progress::NoProgress) }
    );
}

#[test]
fn indent_text_gives_two_columns_per_level() {
    assert_eq!(indent_text(0), "");
    assert_eq!(indent_text(1), "| ");
    assert_eq!(indent_text(2), "| ; ");
    assert_eq!(indent_text(4), "| ; : ! ");
    assert_eq!(indent_text(5), "| ; : ! | ");
    assert_eq!(indent_text(MAX_TRACE_DEPTH).len(), 72);
    assert!(indent_text(MAX_TRACE_DEPTH).ends_with(": ! "));
}
