//! The syntax errors: one closed set of variants per grammar rule. A leaf variant holds
//! the position where parsing stopped; a composite variant holds the error of the rule
//! below it and the position where its own construct began, so that a failure reads as
//! a path from the outermost construct down to the failing token.
use vstd::prelude::*;
use crate::region::{Position, Region};
use crate::state::State;

verus! {

/// A failure of a whole parse, by the kind of construct that failed.
#[derive(Debug, Clone, PartialEq, Eq)]
pub enum SyntaxError<'a> {
    Unexpected(Region),
    OutdentedTooFar,
    Eof(Region),
    InvalidPattern,
    BadUtf8,
    ReservedKeyword(Region),
    ArgumentsBeforeEquals(Region),
    NotYetImplemented(String),
    Todo,
    Type(EType<'a>),
    Pattern(EPattern<'a>),
    Expr(EExpr<'a>, Position),
    Header(EHeader<'a>),
    Space(BadInputError),
    NotEndOfFile(Position),
}

/// What can go wrong in a module header.
#[derive(Debug, Clone, PartialEq, Eq)]
pub enum EHeader<'a> {
    Provides(EProvides<'a>, Position),
    Exposes(EExposes, Position),
    Imports(EImports, Position),
    Requires(ERequires<'a>, Position),
    Packages(EPackages<'a>, Position),
    Generates(EGenerates, Position),
    GeneratesWith(EGeneratesWith, Position),
    Space(BadInputError, Position),
    Start(Position),
    ModuleName(Position),
    AppName(EString<'a>, Position),
    PackageName(EPackageName<'a>, Position),
    PlatformName(EPackageName<'a>, Position),
    IndentStart(Position),
    InconsistentModuleName(Region),
}

/// What can go wrong in the `provides` part of a header.
#[derive(Debug, Clone, PartialEq, Eq)]
pub enum EProvides<'a> {
    Provides(Position),
    Open(Position),
    To(Position),
    IndentProvides(Position),
    IndentTo(Position),
    IndentListStart(Position),
    IndentPackage(Position),
    ListStart(Position),
    ListEnd(Position),
    Identifier(Position),
    Package(EPackageName<'a>, Position),
    Space(BadInputError, Position),
}

/// What can go wrong in the `exposes` part of a header.
#[derive(Debug, Clone, Copy, PartialEq, Eq)]
pub enum EExposes {
    Exposes(Position),
    Open(Position),
    IndentExposes(Position),
    IndentListStart(Position),
    ListStart(Position),
    ListEnd(Position),
    Identifier(Position),
    Space(BadInputError, Position),
}

/// What can go wrong in the `requires` part of a header.
#[derive(Debug, Clone, PartialEq, Eq)]
pub enum ERequires<'a> {
    Requires(Position),
    Open(Position),
    IndentRequires(Position),
    IndentListStart(Position),
    ListStart(Position),
    ListEnd(Position),
    TypedIdent(ETypedIdent<'a>, Position),
    Rigid(Position),
    Space(BadInputError, Position),
}

/// What can go wrong in an identifier with its type.
#[derive(Debug, Clone, PartialEq, Eq)]
pub enum ETypedIdent<'a> {
    Space(BadInputError, Position),
    HasType(Position),
    IndentHasType(Position),
    Name(Position),
    Type(EType<'a>, Position),
    IndentType(Position),
    Identifier(Position),
}

/// What can go wrong in the `packages` part of a header.
#[derive(Debug, Clone, PartialEq, Eq)]
pub enum EPackages<'a> {
    Open(Position),
    Space(BadInputError, Position),
    Packages(Position),
    IndentPackages(Position),
    ListStart(Position),
    ListEnd(Position),
    IndentListStart(Position),
    IndentListEnd(Position),
    PackageEntry(EPackageEntry<'a>, Position),
}

/// What can go wrong in the name of a package.
#[derive(Debug, Clone, PartialEq, Eq)]
pub enum EPackageName<'a> {
    BadPath(EString<'a>, Position),
    Escapes(Position),
    Multiline(Position),
}

/// What can go wrong in one entry of the package list.
#[derive(Debug, Clone, PartialEq, Eq)]
pub enum EPackageEntry<'a> {
    BadPackage(EPackageName<'a>, Position),
    Shorthand(Position),
    Colon(Position),
    IndentPackage(Position),
    Space(BadInputError, Position),
}

/// What can go wrong in the `imports` part of a header.
#[derive(Debug, Clone, Copy, PartialEq, Eq)]
pub enum EImports {
    Open(Position),
    Imports(Position),
    IndentImports(Position),
    IndentListStart(Position),
    IndentListEnd(Position),
    ListStart(Position),
    ListEnd(Position),
    Identifier(Position),
    ExposingDot(Position),
    ShorthandDot(Position),
    Shorthand(Position),
    ModuleName(Position),
    Space(BadInputError, Position),
    IndentSetStart(Position),
    SetStart(Position),
    SetEnd(Position),
    TypedIdent(Position),
    AsKeyword(Position),
    StrLiteral(Position),
}

/// What can go wrong in the `generates` part of a header.
#[derive(Debug, Clone, Copy, PartialEq, Eq)]
pub enum EGenerates {
    Open(Position),
    Generates(Position),
    IndentGenerates(Position),
    Identifier(Position),
    Space(BadInputError, Position),
    IndentTypeStart(Position),
    IndentTypeEnd(Position),
}

/// What can go wrong in the `with` part that follows `generates`.
#[derive(Debug, Clone, Copy, PartialEq, Eq)]
pub enum EGeneratesWith {
    Open(Position),
    With(Position),
    IndentWith(Position),
    IndentListStart(Position),
    IndentListEnd(Position),
    ListStart(Position),
    ListEnd(Position),
    Identifier(Position),
    Space(BadInputError, Position),
}

/// Input that no rule accepts, whatever the construct.
#[derive(Debug, Clone, Copy, PartialEq, Eq, Structural)]
pub enum BadInputError {
    HasTab,
    HasMisplacedCarriageReturn,
    HasAsciiControl,
    BadUtf8,
}

/// What can go wrong in an expression.
#[derive(Debug, Clone, PartialEq, Eq)]
pub enum EExpr<'a> {
    TrailingOperator(Position),
    Start(Position),
    End(Position),
    BadExprEnd(Position),
    Space(BadInputError, Position),
    Dot(Position),
    Access(Position),
    UnaryNot(Position),
    UnaryNegate(Position),
    BadOperator(&'a str, Position),
    DefMissingFinalExpr(Position),
    DefMissingFinalExpr2(&'a EExpr<'a>, Position),
    Type(EType<'a>, Position),
    Pattern(&'a EPattern<'a>, Position),
    Ability(EAbility<'a>, Position),
    IndentDefBody(Position),
    IndentEquals(Position),
    IndentAnnotation(Position),
    Equals(Position),
    Colon(Position),
    DoubleColon(Position),
    Ident(Position),
    ElmStyleFunction(Region, Position),
    MalformedPattern(Position),
    QualifiedTag(Position),
    BackpassComma(Position),
    BackpassArrow(Position),
    When(EWhen<'a>, Position),
    If(EIf<'a>, Position),
    Expect(EExpect<'a>, Position),
    Dbg(EExpect<'a>, Position),
    Closure(EClosure<'a>, Position),
    Underscore(Position),
    Crash(Position),
    InParens(EInParens<'a>, Position),
    Record(ERecord<'a>, Position),
    OptionalValueInRecordBuilder(Region),
    RecordUpdateBuilder(Region),
    Str(EString<'a>, Position),
    Number(ENumber, Position),
    List(EList<'a>, Position),
    IndentStart(Position),
    IndentEnd(Position),
    UnexpectedComma(Position),
}

/// What can go wrong in a number literal.
#[derive(Debug, Clone, PartialEq, Eq, Structural)]
pub enum ENumber {
    End,
}

/// What can go wrong in a string literal.
#[derive(Debug, Clone, PartialEq, Eq)]
pub enum EString<'a> {
    Open(Position),
    CodePtOpen(Position),
    CodePtEnd(Position),
    InvalidSingleQuote(ESingleQuote, Position),
    Space(BadInputError, Position),
    EndlessSingleLine(Position),
    EndlessMultiLine(Position),
    EndlessSingleQuote(Position),
    UnknownEscape(Position),
    Format(&'a EExpr<'a>, Position),
    FormatEnd(Position),
    MultilineInsufficientIndent(Position),
    ExpectedDoubleQuoteGotSingleQuote(Position),
}

/// What can go wrong in a single-quoted literal.
#[derive(Debug, Clone, Copy, PartialEq, Eq, Structural)]
pub enum ESingleQuote {
    Empty,
    TooLong,
    InterpolationNotAllowed,
}

/// What can go wrong in a record expression.
#[derive(Debug, Clone, PartialEq, Eq)]
pub enum ERecord<'a> {
    End(Position),
    Open(Position),
    Updateable(Position),
    Field(Position),
    Colon(Position),
    QuestionMark(Position),
    Arrow(Position),
    Ampersand(Position),
    Expr(&'a EExpr<'a>, Position),
    Space(BadInputError, Position),
}

/// What can go wrong in a parenthesised expression.
#[derive(Debug, Clone, PartialEq, Eq)]
pub enum EInParens<'a> {
    End(Position),
    Open(Position),
    Empty(Position),
    Expr(&'a EExpr<'a>, Position),
    Space(BadInputError, Position),
}

/// What can go wrong in a closure.
#[derive(Debug, Clone, PartialEq, Eq)]
pub enum EClosure<'a> {
    Space(BadInputError, Position),
    Start(Position),
    Arrow(Position),
    Comma(Position),
    Arg(Position),
    Pattern(EPattern<'a>, Position),
    Body(&'a EExpr<'a>, Position),
    IndentArrow(Position),
    IndentBody(Position),
    IndentArg(Position),
}

/// What can go wrong in a list expression.
#[derive(Debug, Clone, PartialEq, Eq)]
pub enum EList<'a> {
    Open(Position),
    End(Position),
    Space(BadInputError, Position),
    Expr(&'a EExpr<'a>, Position),
}

/// What can go wrong in a `when` expression.
#[derive(Debug, Clone, PartialEq, Eq)]
pub enum EWhen<'a> {
    Space(BadInputError, Position),
    When(Position),
    Is(Position),
    Pattern(EPattern<'a>, Position),
    Arrow(Position),
    Bar(Position),
    IfToken(Position),
    IfGuard(&'a EExpr<'a>, Position),
    Condition(&'a EExpr<'a>, Position),
    Branch(&'a EExpr<'a>, Position),
    IndentCondition(Position),
    IndentPattern(Position),
    IndentArrow(Position),
    IndentBranch(Position),
    IndentIfGuard(Position),
    PatternAlignment(u32, Position),
}

/// What can go wrong in an ability definition.
#[derive(Debug, Clone, PartialEq, Eq)]
pub enum EAbility<'a> {
    Space(BadInputError, Position),
    Type(EType<'a>, Position),
    DemandAlignment(i32, Position),
    DemandName(Position),
    DemandColon(Position),
}

/// What can go wrong in an `if` expression.
#[derive(Debug, Clone, PartialEq, Eq)]
pub enum EIf<'a> {
    Space(BadInputError, Position),
    If(Position),
    Then(Position),
    Else(Position),
    Condition(&'a EExpr<'a>, Position),
    ThenBranch(&'a EExpr<'a>, Position),
    ElseBranch(&'a EExpr<'a>, Position),
    IndentCondition(Position),
    IndentIf(Position),
    IndentThenToken(Position),
    IndentElseToken(Position),
    IndentThenBranch(Position),
    IndentElseBranch(Position),
}

/// What can go wrong in an `expect` or `dbg` statement.
#[derive(Debug, Clone, PartialEq, Eq)]
pub enum EExpect<'a> {
    Space(BadInputError, Position),
    Dbg(Position),
    Expect(Position),
    Condition(&'a EExpr<'a>, Position),
    Continuation(&'a EExpr<'a>, Position),
    IndentCondition(Position),
}

/// What can go wrong in a pattern.
#[derive(Debug, Clone, PartialEq, Eq)]
pub enum EPattern<'a> {
    Record(PRecord<'a>, Position),
    List(PList<'a>, Position),
    AsKeyword(Position),
    AsIdentifier(Position),
    Underscore(Position),
    NotAPattern(Position),
    Start(Position),
    End(Position),
    Space(BadInputError, Position),
    PInParens(PInParens<'a>, Position),
    NumLiteral(ENumber, Position),
    IndentStart(Position),
    IndentEnd(Position),
    AsIndentStart(Position),
    AccessorFunction(Position),
}

/// What can go wrong in a record pattern.
#[derive(Debug, Clone, PartialEq, Eq)]
pub enum PRecord<'a> {
    End(Position),
    Open(Position),
    Field(Position),
    Colon(Position),
    Optional(Position),
    Pattern(&'a EPattern<'a>, Position),
    Expr(&'a EExpr<'a>, Position),
    Space(BadInputError, Position),
}

/// What can go wrong in a list pattern.
#[derive(Debug, Clone, PartialEq, Eq)]
pub enum PList<'a> {
    End(Position),
    Open(Position),
    Rest(Position),
    Pattern(&'a EPattern<'a>, Position),
    Space(BadInputError, Position),
}

/// What can go wrong in a parenthesised pattern.
#[derive(Debug, Clone, PartialEq, Eq)]
pub enum PInParens<'a> {
    Empty(Position),
    End(Position),
    Open(Position),
    Pattern(&'a EPattern<'a>, Position),
    Space(BadInputError, Position),
}

/// What can go wrong in a type annotation.
#[derive(Debug, Clone, PartialEq, Eq)]
pub enum EType<'a> {
    Space(BadInputError, Position),
    UnderscoreSpacing(Position),
    TRecord(ETypeRecord<'a>, Position),
    TTagUnion(ETypeTagUnion<'a>, Position),
    TInParens(ETypeInParens<'a>, Position),
    TApply(ETypeApply, Position),
    TInlineAlias(ETypeInlineAlias, Position),
    TBadTypeVariable(Position),
    TWildcard(Position),
    TInferred(Position),
    TStart(Position),
    TEnd(Position),
    TFunctionArgument(Position),
    TWhereBar(Position),
    TImplementsClause(Position),
    TAbilityImpl(ETypeAbilityImpl<'a>, Position),
    TIndentStart(Position),
    TIndentEnd(Position),
    TAsIndentStart(Position),
}

/// What can go wrong in a record type.
#[derive(Debug, Clone, PartialEq, Eq)]
pub enum ETypeRecord<'a> {
    End(Position),
    Open(Position),
    Field(Position),
    Colon(Position),
    Optional(Position),
    Type(&'a EType<'a>, Position),
    Space(BadInputError, Position),
    IndentOpen(Position),
    IndentColon(Position),
    IndentOptional(Position),
    IndentEnd(Position),
}

/// What can go wrong in a tag union type.
#[derive(Debug, Clone, PartialEq, Eq)]
pub enum ETypeTagUnion<'a> {
    End(Position),
    Open(Position),
    Type(&'a EType<'a>, Position),
    Space(BadInputError, Position),
}

/// What can go wrong in a parenthesised type.
#[derive(Debug, Clone, PartialEq, Eq)]
pub enum ETypeInParens<'a> {
    Empty(Position),
    End(Position),
    Open(Position),
    Type(&'a EType<'a>, Position),
    Space(BadInputError, Position),
    IndentOpen(Position),
    IndentEnd(Position),
}

/// What can go wrong in the application of a type constructor.
#[derive(Debug, Clone, PartialEq, Eq)]
pub enum ETypeApply {
    StartNotUppercase(Position),
    End(Position),
    Space(BadInputError, Position),
    DoubleDot(Position),
    TrailingDot(Position),
    StartIsNumber(Position),
}

/// What can go wrong in an inline type alias.
#[derive(Debug, Clone, PartialEq, Eq)]
pub enum ETypeInlineAlias {
    NotAnAlias(Position),
    Qualified(Position),
    ArgumentNotLowercase(Position),
}

/// What can go wrong in the implementation list of an ability.
#[derive(Debug, Clone, PartialEq, Eq)]
pub enum ETypeAbilityImpl<'a> {
    End(Position),
    Open(Position),
    Field(Position),
    Colon(Position),
    Arrow(Position),
    Optional(Position),
    Type(&'a EType<'a>, Position),
    Space(BadInputError, Position),
    Updateable(Position),
    QuestionMark(Position),
    Ampersand(Position),
    Expr(&'a EExpr<'a>, Position),
    IndentBar(Position),
    IndentAmpersand(Position),
}

/// An error type that can report bad input met between tokens.
pub trait SpaceProblem: core::fmt::Debug + Sized {
    /// The error that stands for bad input `e` met at `pos`.
    spec fn space_problem_spec(e: BadInputError, pos: Position) -> Self;

    fn space_problem(e: BadInputError, pos: Position) -> (r: Self)
        ensures
            r == Self::space_problem_spec(e, pos),
    ;
}

impl<'a> SpaceProblem for EExpect<'a> {
    open spec fn space_problem_spec(e: BadInputError, pos: Position) -> Self {
        EExpect::Space(e, pos)
    }

    fn space_problem(e: BadInputError, pos: Position) -> (r: Self) {
        EExpect::Space(e, pos)
    }
}

impl SpaceProblem for EExposes {
    open spec fn space_problem_spec(e: BadInputError, pos: Position) -> Self {
        EExposes::Space(e, pos)
    }

    fn space_problem(e: BadInputError, pos: Position) -> (r: Self) {
        EExposes::Space(e, pos)
    }
}

impl<'a> SpaceProblem for EExpr<'a> {
    open spec fn space_problem_spec(e: BadInputError, pos: Position) -> Self {
        EExpr::Space(e, pos)
    }

    fn space_problem(e: BadInputError, pos: Position) -> (r: Self) {
        EExpr::Space(e, pos)
    }
}

impl SpaceProblem for EGenerates {
    open spec fn space_problem_spec(e: BadInputError, pos: Position) -> Self {
        EGenerates::Space(e, pos)
    }

    fn space_problem(e: BadInputError, pos: Position) -> (r: Self) {
        EGenerates::Space(e, pos)
    }
}

impl SpaceProblem for EGeneratesWith {
    open spec fn space_problem_spec(e: BadInputError, pos: Position) -> Self {
        EGeneratesWith::Space(e, pos)
    }

    fn space_problem(e: BadInputError, pos: Position) -> (r: Self) {
        EGeneratesWith::Space(e, pos)
    }
}

impl<'a> SpaceProblem for EHeader<'a> {
    open spec fn space_problem_spec(e: BadInputError, pos: Position) -> Self {
        EHeader::Space(e, pos)
    }

    fn space_problem(e: BadInputError, pos: Position) -> (r: Self) {
        EHeader::Space(e, pos)
    }
}

impl<'a> SpaceProblem for EIf<'a> {
    open spec fn space_problem_spec(e: BadInputError, pos: Position) -> Self {
        EIf::Space(e, pos)
    }

    fn space_problem(e: BadInputError, pos: Position) -> (r: Self) {
        EIf::Space(e, pos)
    }
}

impl SpaceProblem for EImports {
    open spec fn space_problem_spec(e: BadInputError, pos: Position) -> Self {
        EImports::Space(e, pos)
    }

    fn space_problem(e: BadInputError, pos: Position) -> (r: Self) {
        EImports::Space(e, pos)
    }
}

impl<'a> SpaceProblem for EInParens<'a> {
    open spec fn space_problem_spec(e: BadInputError, pos: Position) -> Self {
        EInParens::Space(e, pos)
    }

    fn space_problem(e: BadInputError, pos: Position) -> (r: Self) {
        EInParens::Space(e, pos)
    }
}

impl<'a> SpaceProblem for EClosure<'a> {
    open spec fn space_problem_spec(e: BadInputError, pos: Position) -> Self {
        EClosure::Space(e, pos)
    }

    fn space_problem(e: BadInputError, pos: Position) -> (r: Self) {
        EClosure::Space(e, pos)
    }
}

impl<'a> SpaceProblem for EList<'a> {
    open spec fn space_problem_spec(e: BadInputError, pos: Position) -> Self {
        EList::Space(e, pos)
    }

    fn space_problem(e: BadInputError, pos: Position) -> (r: Self) {
        EList::Space(e, pos)
    }
}

impl<'a> SpaceProblem for EPackageEntry<'a> {
    open spec fn space_problem_spec(e: BadInputError, pos: Position) -> Self {
        EPackageEntry::Space(e, pos)
    }

    fn space_problem(e: BadInputError, pos: Position) -> (r: Self) {
        EPackageEntry::Space(e, pos)
    }
}

impl<'a> SpaceProblem for EPackages<'a> {
    open spec fn space_problem_spec(e: BadInputError, pos: Position) -> Self {
        EPackages::Space(e, pos)
    }

    fn space_problem(e: BadInputError, pos: Position) -> (r: Self) {
        EPackages::Space(e, pos)
    }
}

impl<'a> SpaceProblem for EPattern<'a> {
    open spec fn space_problem_spec(e: BadInputError, pos: Position) -> Self {
        EPattern::Space(e, pos)
    }

    fn space_problem(e: BadInputError, pos: Position) -> (r: Self) {
        EPattern::Space(e, pos)
    }
}

impl<'a> SpaceProblem for EProvides<'a> {
    open spec fn space_problem_spec(e: BadInputError, pos: Position) -> Self {
        EProvides::Space(e, pos)
    }

    fn space_problem(e: BadInputError, pos: Position) -> (r: Self) {
        EProvides::Space(e, pos)
    }
}

impl<'a> SpaceProblem for ERecord<'a> {
    open spec fn space_problem_spec(e: BadInputError, pos: Position) -> Self {
        ERecord::Space(e, pos)
    }

    fn space_problem(e: BadInputError, pos: Position) -> (r: Self) {
        ERecord::Space(e, pos)
    }
}

impl<'a> SpaceProblem for ERequires<'a> {
    open spec fn space_problem_spec(e: BadInputError, pos: Position) -> Self {
        ERequires::Space(e, pos)
    }

    fn space_problem(e: BadInputError, pos: Position) -> (r: Self) {
        ERequires::Space(e, pos)
    }
}

impl<'a> SpaceProblem for EString<'a> {
    open spec fn space_problem_spec(e: BadInputError, pos: Position) -> Self {
        EString::Space(e, pos)
    }

    fn space_problem(e: BadInputError, pos: Position) -> (r: Self) {
        EString::Space(e, pos)
    }
}

impl<'a> SpaceProblem for EType<'a> {
    open spec fn space_problem_spec(e: BadInputError, pos: Position) -> Self {
        EType::Space(e, pos)
    }

    fn space_problem(e: BadInputError, pos: Position) -> (r: Self) {
        EType::Space(e, pos)
    }
}

impl<'a> SpaceProblem for ETypeInParens<'a> {
    open spec fn space_problem_spec(e: BadInputError, pos: Position) -> Self {
        ETypeInParens::Space(e, pos)
    }

    fn space_problem(e: BadInputError, pos: Position) -> (r: Self) {
        ETypeInParens::Space(e, pos)
    }
}

impl<'a> SpaceProblem for ETypeRecord<'a> {
    open spec fn space_problem_spec(e: BadInputError, pos: Position) -> Self {
        ETypeRecord::Space(e, pos)
    }

    fn space_problem(e: BadInputError, pos: Position) -> (r: Self) {
        ETypeRecord::Space(e, pos)
    }
}

impl<'a> SpaceProblem for ETypeTagUnion<'a> {
    open spec fn space_problem_spec(e: BadInputError, pos: Position) -> Self {
        ETypeTagUnion::Space(e, pos)
    }

    fn space_problem(e: BadInputError, pos: Position) -> (r: Self) {
        ETypeTagUnion::Space(e, pos)
    }
}

impl<'a> SpaceProblem for ETypedIdent<'a> {
    open spec fn space_problem_spec(e: BadInputError, pos: Position) -> Self {
        ETypedIdent::Space(e, pos)
    }

    fn space_problem(e: BadInputError, pos: Position) -> (r: Self) {
        ETypedIdent::Space(e, pos)
    }
}

impl<'a> SpaceProblem for ETypeAbilityImpl<'a> {
    open spec fn space_problem_spec(e: BadInputError, pos: Position) -> Self {
        ETypeAbilityImpl::Space(e, pos)
    }

    fn space_problem(e: BadInputError, pos: Position) -> (r: Self) {
        ETypeAbilityImpl::Space(e, pos)
    }
}

impl<'a> SpaceProblem for EWhen<'a> {
    open spec fn space_problem_spec(e: BadInputError, pos: Position) -> Self {
        EWhen::Space(e, pos)
    }

    fn space_problem(e: BadInputError, pos: Position) -> (r: Self) {
        EWhen::Space(e, pos)
    }
}

impl<'a> SpaceProblem for EAbility<'a> {
    open spec fn space_problem_spec(e: BadInputError, pos: Position) -> Self {
        EAbility::Space(e, pos)
    }

    fn space_problem(e: BadInputError, pos: Position) -> (r: Self) {
        EAbility::Space(e, pos)
    }
}

impl<'a> SpaceProblem for PInParens<'a> {
    open spec fn space_problem_spec(e: BadInputError, pos: Position) -> Self {
        PInParens::Space(e, pos)
    }

    fn space_problem(e: BadInputError, pos: Position) -> (r: Self) {
        PInParens::Space(e, pos)
    }
}

impl<'a> SpaceProblem for PRecord<'a> {
    open spec fn space_problem_spec(e: BadInputError, pos: Position) -> Self {
        PRecord::Space(e, pos)
    }

    fn space_problem(e: BadInputError, pos: Position) -> (r: Self) {
        PRecord::Space(e, pos)
    }
}

impl<'a> SpaceProblem for PList<'a> {
    open spec fn space_problem_spec(e: BadInputError, pos: Position) -> Self {
        PList::Space(e, pos)
    }

    fn space_problem(e: BadInputError, pos: Position) -> (r: Self) {
        PList::Space(e, pos)
    }
}

impl<'a> ETypeAbilityImpl<'a> {
    /// The error of an implementation list that stands for an error of the record it
    /// was parsed as: same kind, same position.
    pub open spec fn of_record(e: ERecord<'a>) -> ETypeAbilityImpl<'a> {
        match e {
            ERecord::End(p) => ETypeAbilityImpl::End(p),
            ERecord::Open(p) => ETypeAbilityImpl::Open(p),
            ERecord::Field(p) => ETypeAbilityImpl::Field(p),
            ERecord::Colon(p) => ETypeAbilityImpl::Colon(p),
            ERecord::Arrow(p) => ETypeAbilityImpl::Arrow(p),
            ERecord::Space(s, p) => ETypeAbilityImpl::Space(s, p),
            ERecord::Updateable(p) => ETypeAbilityImpl::Updateable(p),
            ERecord::QuestionMark(p) => ETypeAbilityImpl::QuestionMark(p),
            ERecord::Ampersand(p) => ETypeAbilityImpl::Ampersand(p),
            ERecord::Expr(e, p) => ETypeAbilityImpl::Expr(e, p),
        }
    }
}

impl<'a> From<ERecord<'a>> for ETypeAbilityImpl<'a> {
    fn from(e: ERecord<'a>) -> (r: Self) {
        match e {
            ERecord::End(p) => ETypeAbilityImpl::End(p),
            ERecord::Open(p) => ETypeAbilityImpl::Open(p),
            ERecord::Field(p) => ETypeAbilityImpl::Field(p),
            ERecord::Colon(p) => ETypeAbilityImpl::Colon(p),
            ERecord::Arrow(p) => ETypeAbilityImpl::Arrow(p),
            ERecord::Space(s, p) => ETypeAbilityImpl::Space(s, p),
            ERecord::Updateable(p) => ETypeAbilityImpl::Updateable(p),
            ERecord::QuestionMark(p) => ETypeAbilityImpl::QuestionMark(p),
            ERecord::Ampersand(p) => ETypeAbilityImpl::Ampersand(p),
            ERecord::Expr(e, p) => ETypeAbilityImpl::Expr(e, p),
        }
    }
}

impl<'a> vstd::std_specs::convert::FromSpecImpl<ERecord<'a>> for ETypeAbilityImpl<'a> {
    open spec fn obeys_from_spec() -> bool {
        true
    }

    open spec fn from_spec(e: ERecord<'a>) -> Self {
        ETypeAbilityImpl::of_record(e)
    }
}

/// The path type of the standard library, carried through as it is.
#[verifier::external_type_specification]
#[verifier::external_body]
pub struct ExPathBuf(std::path::PathBuf);

/// A problem together with the source text it was found in.
#[derive(Debug)]
pub struct SourceError<'a, T> {
    pub problem: T,
    pub bytes: &'a [u8],
}

/// A problem in a source text together with the name of the file that held it.
#[derive(Debug)]
pub struct FileError<'a, T> {
    pub problem: SourceError<'a, T>,
    pub filename: std::path::PathBuf,
}

impl<'a, T> SourceError<'a, T> {
    /// Attaches to `problem` the whole input that `state` runs over.
    pub fn new(problem: T, state: &State<'a>) -> (e: Self)
        ensures
            e.problem == problem,
            e.bytes == state.original_bytes,
    {
        Self { problem, bytes: state.original_bytes() }
    }

    /// Replaces the problem by what `f` makes of it; the source text stays.
    pub fn map_problem<E, F: FnOnce(T) -> E>(self, f: F) -> (e: SourceError<'a, E>)
        requires
            f.requires((self.problem,)),
        ensures
            f.ensures((self.problem,), e.problem),
            e.bytes == self.bytes,
    {
        SourceError { problem: f(self.problem), bytes: self.bytes }
    }

    pub fn into_file_error(self, filename: std::path::PathBuf) -> (e: FileError<'a, T>)
        ensures
            e.problem == self,
            e.filename == filename,
    {
        FileError { problem: self, filename }
    }
}

impl<'a> SyntaxError<'a> {
    /// Attaches to the error the whole input that `state` runs over.
    pub fn into_source_error(self, state: &State<'a>) -> (e: SourceError<'a, SyntaxError<'a>>)
        ensures
            e.problem == self,
            e.bytes == state.original_bytes,
    {
        SourceError { problem: self, bytes: state.original_bytes() }
    }

    pub fn into_file_error(self, filename: std::path::PathBuf, state: &State<'a>) -> (e: FileError<
        'a,
        SyntaxError<'a>,
    >)
        ensures
            e.problem.problem == self,
            e.problem.bytes == state.original_bytes,
            e.filename == filename,
    {
        self.into_source_error(state).into_file_error(filename)
    }
}

} // verus!
