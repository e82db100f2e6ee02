use roc_parse::error::{
    BadInputError, EExpr, EHeader, ENumber, EPattern, ERecord, ESingleQuote, EString, EType,
    ETypeAbilityImpl, FileError, SourceError, SpaceProblem, SyntaxError,
};
use roc_parse::region::{Position, Region};
use roc_parse::state::State;
use std::path::PathBuf;

#[test]
fn space_problem_builds_the_space_variant() {
    let pos = Position::new(4);
    assert_eq!(
        EExpr::space_problem(BadInputError::HasTab, pos),
        EExpr::Space(BadInputError::HasTab, pos)
    );
    assert_eq!(
        EType::space_problem(BadInputError::BadUtf8, pos),
        EType::Space(BadInputError::BadUtf8, pos)
    );
    assert_eq!(
        EHeader::space_problem(BadInputError::HasAsciiControl, pos),
        EHeader::Space(BadInputError::HasAsciiControl, pos)
    );
    assert_eq!(
        EPattern::space_problem(BadInputError::HasMisplacedCarriageReturn, pos),
        EPattern::Space(BadInputError::HasMisplacedCarriageReturn, pos)
    );
}

#[test]
fn record_error_converts_variant_by_variant() {
    let p = Position::new(3);
    assert_eq!(ETypeAbilityImpl::from(ERecord::End(p)), ETypeAbilityImpl::End(p));
    assert_eq!(ETypeAbilityImpl::from(ERecord::Open(p)), ETypeAbilityImpl::Open(p));
    assert_eq!(ETypeAbilityImpl::from(ERecord::Field(p)), ETypeAbilityImpl::Field(p));
    assert_eq!(ETypeAbilityImpl::from(ERecord::Colon(p)), ETypeAbilityImpl::Colon(p));
    assert_eq!(ETypeAbilityImpl::from(ERecord::Arrow(p)), ETypeAbilityImpl::Arrow(p));
    assert_eq!(
        ETypeAbilityImpl::from(ERecord::Space(BadInputError::HasTab, p)),
        ETypeAbilityImpl::Space(BadInputError::HasTab, p)
    );
    assert_eq!(ETypeAbilityImpl::from(ERecord::Updateable(p)), ETypeAbilityImpl::Updateable(p));
    assert_eq!(
        ETypeAbilityImpl::from(ERecord::QuestionMark(p)),
        ETypeAbilityImpl::QuestionMark(p)
    );
    assert_eq!(ETypeAbilityImpl::from(ERecord::Ampersand(p)), ETypeAbilityImpl::Ampersand(p));
    let inner = EExpr::Start(Position::new(1));
    assert_eq!(
        ETypeAbilityImpl::from(ERecord::Expr(&inner, p)),
        ETypeAbilityImpl::Expr(&inner, p)
    );
}

#[test]
fn errors_nest_from_construct_to_token() {
    let leaf = EString::EndlessSingleLine(Position::new(12));
    let expr = EExpr::Str(leaf.clone(), Position::new(10));
    let whole = SyntaxError::Expr(expr.clone(), Position::new(0));
    match &whole {
        SyntaxError::Expr(EExpr::Str(EString::EndlessSingleLine(at), began), start) => {
            assert_eq!((*at, *began, *start), (Position::new(12), Position::new(10), Position::zero()));
        }
        other => panic!("unexpected {:?}", other),
    }
    assert_eq!(whole, SyntaxError::Expr(expr, Position::new(0)));
    assert_ne!(whole, SyntaxError::Eof(Region::zero()));
}

#[test]
fn small_error_sets_compare() {
    assert_eq!(ENumber::End, ENumber::End);
    assert_ne!(ESingleQuote::Empty, ESingleQuote::TooLong);
    assert_ne!(ESingleQuote::TooLong, ESingleQuote::InterpolationNotAllowed);
    assert_ne!(BadInputError::HasTab, BadInputError::BadUtf8);
    let copy = BadInputError::HasAsciiControl;
    let again = copy;
    assert_eq!(copy, again);
}

#[test]
fn source_error_keeps_the_whole_input() {
    let state = State::new(b"hello, world").advance(7);
    let e = SourceError::new(ENumber::End, &state);
    assert_eq!(e.problem, ENumber::End);
    assert_eq!(e.bytes, b"hello, world");
}

#[test]
fn source_error_map_problem_keeps_the_bytes() {
    let state = State::new(b"1x");
    let e = SourceError::new(ENumber::End, &state);
    let mapped = e.map_problem(|n| EExpr::Number(n, Position::new(1)));
    assert_eq!(mapped.problem, EExpr::Number(ENumber::End, Position::new(1)));
    assert_eq!(mapped.bytes, b"1x");
}

#[test]
fn source_error_into_file_error_adds_the_name() {
    let state = State::new(b"1x");
    let e: FileError<ENumber> =
        SourceError::new(ENumber::End, &state).into_file_error(PathBuf::from("main.roc"));
    assert_eq!(e.filename, PathBuf::from("main.roc"));
    assert_eq!(e.problem.problem, ENumber::End);
    assert_eq!(e.problem.bytes, b"1x");
}

#[test]
fn syntax_error_into_source_and_file_error() {
    let state = State::new(b"when").advance(4);
    let e = SyntaxError::Todo.into_source_error(&state);
    assert_eq!(e.problem, SyntaxError::Todo);
    assert_eq!(e.bytes, b"when");

    let f = SyntaxError::NotEndOfFile(Position::new(4))
        .into_file_error(PathBuf::from("a/b.roc"), &state);
    assert_eq!(f.filename, PathBuf::from("a/b.roc"));
    assert_eq!(f.problem.problem, SyntaxError::NotEndOfFile(Position::new(4)));
    assert_eq!(f.problem.bytes, b"when");
}
