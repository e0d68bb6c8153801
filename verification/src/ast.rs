//! The syntax tree the parser builds. Every node carries the byte span of the
//! text it was parsed from; names and strings are kept as spans into the
//! input.
use vstd::prelude::*;

use crate::lex::{OpTag, TokenKind};
use crate::span::{Loc, Span};

verus! {

/// A span of the input that names something (an identifier, a string).
pub type SpannedStr = Span;

/// The span of an identifier.
pub type Identifier = Span;

/// Items with the separator tokens between them.
#[derive(Debug)]
pub struct DelimitedList<T> {
    pub items: Vec<T>,
    pub seps: Vec<Loc<TokenKind>>,
}

impl<T> DelimitedList<T> {
    /// An empty list.
    pub fn new() -> (res: Self)
        ensures
            res.items@.len() == 0,
            res.seps@.len() == 0,
    {
        DelimitedList { items: Vec::new(), seps: Vec::new() }
    }
}

/// A statement.
#[derive(Debug)]
pub enum Statement {
    /// A query.
    Query(Loc<Query>),
    /// Input too short to tell what statement it starts.
    Partial(Loc<()>),
    Insert(Loc<Insert>),
    Update(Loc<Update>),
    Delete(Loc<Delete>),
}

/// `INSERT INTO table [(columns)] source [RETURNING ...]`
#[derive(Debug)]
pub struct Insert {
    pub table: Loc<QualifiedName>,
    pub columns: Option<DelimitedList<Loc<Identifier>>>,
    pub source: InsertSource,
    pub returning: Option<Loc<Projection>>,
}

/// What an `INSERT` takes its rows from.
#[derive(Debug)]
pub enum InsertSource {
    Default,
    Values(Loc<Values>),
    Query(Box<Loc<Query>>),
}

/// `VALUES (..), (..)`
#[derive(Debug)]
pub struct Values {
    pub rows: Vec<Loc<DelimitedList<Loc<Expr>>>>,
}

/// `UPDATE table [alias] SET assignments [FROM ..] [WHERE ..] [RETURNING ..]`
#[derive(Debug)]
pub struct Update {
    pub table: Loc<QualifiedName>,
    pub alias: Option<Loc<Identifier>>,
    pub assignments: DelimitedList<Loc<Assignment>>,
    pub from: Option<Loc<FromClause>>,
    pub where_clause: Option<Loc<Where>>,
    pub returning: Option<Loc<Projection>>,
}

/// `column = value`
#[derive(Debug)]
pub struct Assignment {
    pub column: Loc<Identifier>,
    pub value: Loc<Expr>,
}

/// `DELETE FROM table [alias] [USING ..] [WHERE ..] [RETURNING ..]`
#[derive(Debug)]
pub struct Delete {
    pub table: Loc<QualifiedName>,
    pub alias: Option<Loc<Identifier>>,
    pub using: Option<Loc<FromClause>>,
    pub where_clause: Option<Loc<Where>>,
    pub returning: Option<Loc<Projection>>,
}

/// A query: an optional `WITH`, a body, and an optional suffix.
#[derive(Debug)]
pub struct Query {
    pub with: Option<Loc<With>>,
    pub body: Option<Loc<QueryExpr>>,
    pub tail: Option<Loc<QuerySuffix>>,
}

/// `WITH [RECURSIVE] cte, ...`
#[derive(Debug)]
pub struct With {
    pub recursive: bool,
    pub ctes: Vec<Loc<Cte>>,
}

/// One common table expression.
#[derive(Debug)]
pub struct Cte {
    pub name: SpannedStr,
    pub columns: Option<DelimitedList<Loc<SpannedStr>>>,
    pub materialized: Option<CteMaterialization>,
    pub query: Box<Loc<Query>>,
}

#[derive(Debug, Clone, Copy, PartialEq, Eq, Structural)]
pub enum CteMaterialization {
    Materialized,
    NotMaterialized,
}

/// A query primary followed by set operations.
#[derive(Debug)]
pub struct QueryExpr {
    pub left: Loc<QueryPrimary>,
    pub set_ops: Vec<Loc<SetOpTerm>>,
}

/// `UNION [ALL] <primary>` and the like.
#[derive(Debug)]
pub struct SetOpTerm {
    pub op: SetOp,
    pub right: Loc<QueryPrimary>,
}

#[derive(Debug, Clone, Copy, PartialEq, Eq, Structural)]
pub enum SetOp {
    Union { all: bool },
    Intersect { all: bool },
    Except { all: bool },
    Minus { all: bool },
}

#[derive(Debug)]
pub enum QueryPrimary {
    Select(Loc<Select>),
    Values(Loc<Values>),
}

/// `ORDER BY`, `LIMIT`/`FETCH FIRST` and `OFFSET`, in any order.
#[derive(Debug)]
pub struct QuerySuffix {
    pub order_by: Option<Loc<OrderBy>>,
    pub limit: Option<Loc<Limit>>,
    pub offset: Option<Loc<Offset>>,
}

#[derive(Debug)]
pub struct OrderBy {
    pub items: DelimitedList<Loc<OrderByItem>>,
}

#[derive(Debug)]
pub struct OrderByItem {
    pub expr: Loc<Expr>,
    pub direction: Option<SortDirection>,
    pub nulls: Option<NullsOrder>,
}

#[derive(Debug, Clone, Copy, PartialEq, Eq, Structural)]
pub enum SortDirection {
    Asc,
    Desc,
}

#[derive(Debug, Clone, Copy, PartialEq, Eq, Structural)]
pub enum NullsOrder {
    First,
    Last,
}

#[derive(Debug)]
pub struct Limit {
    pub count: Loc<Expr>,
    pub style: LimitKind,
}

#[derive(Debug, Clone, Copy, PartialEq, Eq, Structural)]
pub enum LimitKind {
    Limit,
    FetchFirst,
}

#[derive(Debug)]
pub struct Offset {
    pub count: Loc<Expr>,
    pub rows_keyword: bool,
}

/// A `SELECT` block.
#[derive(Debug)]
pub struct Select {
    pub distinct: SetQuantifier,
    pub projection: Loc<Projection>,
    pub from: Option<Loc<FromClause>>,
    pub where_clause: Option<Loc<Where>>,
    pub group_by: Option<Loc<GroupBy>>,
    pub having: Option<Loc<Expr>>,
    pub window: Option<Loc<Window>>,
    pub qualify: Option<Loc<Expr>>,
}

#[derive(Debug)]
pub enum SetQuantifier {
    All,
    Distinct,
    DistinctOn(DelimitedList<Loc<Expr>>),
}

/// The select items.
#[derive(Debug)]
pub struct Projection {
    pub list: DelimitedList<Loc<ProjectionItem>>,
}

/// `WHERE expr`
#[derive(Debug)]
pub struct Where {
    pub expr: Loc<Expr>,
}

#[derive(Debug)]
pub struct ProjectionItem {
    pub expr: Loc<Expr>,
    pub alias: Option<Loc<SpannedStr>>,
}

#[derive(Debug)]
pub struct FromClause {
    pub sources: DelimitedList<Loc<TableRef>>,
}

#[derive(Debug)]
pub struct GroupBy {
    pub items: DelimitedList<Loc<GroupByItem>>,
}

#[derive(Debug)]
pub enum GroupByItem {
    Expr(Loc<Expr>),
    Rollup(Vec<Loc<Expr>>),
    Cube(Vec<Loc<Expr>>),
    GroupingSets(Vec<Loc<GroupingSet>>),
}

/// One set of `GROUPING SETS`: a parenthesized list, or one expression.
#[derive(Debug)]
pub enum GroupingSet {
    Exprs(Vec<Loc<Expr>>),
    Expr(Loc<Expr>),
}

#[derive(Debug)]
pub struct Window {
    pub windows: Vec<Loc<WindowDef>>,
}

#[derive(Debug)]
pub struct WindowDef {
    pub name: SpannedStr,
    pub spec: Loc<WindowSpec>,
}

#[derive(Debug)]
pub struct WindowSpec {
    pub partition_by: Option<DelimitedList<Loc<Expr>>>,
    pub order_by: Option<Loc<OrderBy>>,
    pub frame: Option<Box<Loc<WindowFrame>>>,
}

#[derive(Debug)]
pub struct WindowFrame {
    pub unit: FrameUnit,
    pub start: Box<Loc<FrameBound>>,
    pub end: Option<Box<Loc<FrameBound>>>,
}

#[derive(Debug, Clone, Copy, PartialEq, Eq, Structural)]
pub enum FrameUnit {
    Rows,
    Range,
}

#[derive(Debug)]
pub enum FrameBound {
    UnboundedPreceding,
    UnboundedFollowing,
    CurrentRow,
    Preceding(Box<Loc<Expr>>),
    Following(Box<Loc<Expr>>),
}

/// A table source: one factor, or a join of two.
#[derive(Debug)]
pub enum TableRef {
    Factor(Loc<TableFactor>),
    Join(Loc<Join>),
}

#[derive(Debug)]
pub struct Join {
    pub left: Box<Loc<TableRef>>,
    pub kind: JoinKind,
    pub right: Box<Loc<TableRef>>,
    pub constraint: Option<Loc<JoinConstraint>>,
}

#[derive(Debug, Clone, Copy, PartialEq, Eq, Structural)]
pub struct JoinKind {
    pub base: JoinBase,
    pub outer: bool,
    pub natural: bool,
}

#[derive(Debug, Clone, Copy, PartialEq, Eq, Structural)]
pub enum JoinBase {
    Inner,
    Left,
    Right,
    Full,
    Cross,
}

#[derive(Debug)]
pub enum JoinConstraint {
    On(Loc<Expr>),
    Using(DelimitedList<Loc<SpannedStr>>),
}

#[derive(Debug)]
pub enum TableFactor {
    Named(Loc<NamedTableFactor>),
    Function(Loc<FunctionTableFactor>),
    Subquery(Loc<SubqueryTableFactor>),
    Parenthesized(Box<Loc<TableRef>>),
}

#[derive(Debug)]
pub struct NamedTableFactor {
    pub name: Loc<QualifiedName>,
    pub alias: Option<Loc<SpannedStr>>,
    pub lateral: bool,
}

#[derive(Debug)]
pub struct FunctionTableFactor {
    pub name: Loc<QualifiedName>,
    pub args: DelimitedList<Loc<Expr>>,
    pub alias: Option<Loc<SpannedStr>>,
    pub columns: Option<DelimitedList<Loc<SpannedStr>>>,
    pub lateral: bool,
}

#[derive(Debug)]
pub struct SubqueryTableFactor {
    pub query: Loc<Query>,
    pub alias: Option<Loc<SpannedStr>>,
    pub lateral: bool,
}

/// A dotted name; a part may be `*`.
#[derive(Debug)]
pub struct QualifiedName {
    pub parts: DelimitedList<Loc<NamePart>>,
}

#[derive(Debug, Clone, Copy, PartialEq, Eq, Structural)]
pub enum NamePart {
    Ident(SpannedStr),
    Star,
}

/// An expression.
#[derive(Debug)]
pub enum Expr {
    Literal(Loc<Literal>),
    Binary(Loc<Binary>),
    Unary(Loc<Unary>),
    Name(Loc<QualifiedName>),
    FunctionCall(Loc<FunctionCall>),
    Over(Loc<Over>),
    Paren(Loc<Paren>),
    Subquery(Box<Loc<Query>>),
    Exists(Box<Loc<Query>>),
    Array(DelimitedList<Loc<Expr>>),
    Quantified(Loc<Quantified>),
    Case(Loc<Case>),
    Between(Loc<Between>),
    Like(Loc<Like>),
    ILike(Loc<Like>),
    Similar(Loc<Similar>),
    In(Loc<In>),
    IsNull(Loc<IsNull>),
    Cast(Loc<Cast>),
    Row(Loc<Row>),
    Subscript(Loc<Subscript>),
    AtTimeZone(Loc<AtTimeZone>),
    /// A clause keyword with no expression after it.
    Empty,
}

/// A literal. A decimal number with a fraction or exponent is kept as the
/// span of its text.
#[derive(Debug, Clone, Copy, PartialEq, Eq, Structural)]
pub enum Literal {
    Number(i64),
    Float(Span),
    String(SpannedStr),
    Null,
    Boolean(Boolean),
    TypedString { data_type: TypedLiteralKind, value: SpannedStr },
}

#[derive(Debug, Clone, Copy, PartialEq, Eq, Structural)]
pub enum Boolean {
    True,
    False,
    Unknown,
}

#[derive(Debug, Clone, Copy, PartialEq, Eq, Structural)]
pub enum TypedLiteralKind {
    Date,
    Time,
    Timestamp,
    Interval,
}

#[derive(Debug)]
pub struct Binary {
    pub left: Box<Loc<Expr>>,
    pub op: Option<Loc<OpTag>>,
    pub right: Option<Box<Loc<Expr>>>,
}

#[derive(Debug)]
pub struct Unary {
    pub op_tok: Loc<OpTag>,
    pub expr: Box<Loc<Expr>>,
}

#[derive(Debug)]
pub struct FunctionCall {
    pub name: Loc<QualifiedName>,
    pub distinct: bool,
    pub args: Loc<DelimitedList<Loc<Expr>>>,
    pub filter: Option<Box<Loc<Expr>>>,
}

#[derive(Debug)]
pub struct Over {
    pub name: Loc<QualifiedName>,
    pub args: Loc<DelimitedList<Loc<Expr>>>,
    pub over: WindowRef,
    pub filter: Option<Box<Loc<Expr>>>,
}

#[derive(Debug)]
pub enum WindowRef {
    Spec(Box<Loc<WindowSpec>>),
    Name(Loc<Identifier>),
}

#[derive(Debug)]
pub struct Paren {
    pub open: Span,
    pub expr: Box<Loc<Expr>>,
    pub close: Option<Span>,
}

#[derive(Debug)]
pub struct Quantified {
    pub quantifier: Quantifier,
    pub expr: Box<Loc<Expr>>,
}

/// `ANY (..)`, `SOME (..)`, `ALL (..)`.
#[derive(Debug, Clone, Copy, PartialEq, Eq, Structural)]
pub enum Quantifier {
    Any,
    SomeOf,
    All,
}

#[derive(Debug)]
pub struct Case {
    pub operand: Option<Box<Loc<Expr>>>,
    pub when_clauses: Vec<WhenClause>,
    pub else_clause: Option<Box<Loc<Expr>>>,
}

#[derive(Debug)]
pub struct WhenClause {
    pub when: Loc<Expr>,
    pub then: Loc<Expr>,
}

#[derive(Debug)]
pub struct Between {
    pub expr: Box<Loc<Expr>>,
    pub low: Box<Loc<Expr>>,
    pub high: Box<Loc<Expr>>,
    pub not: bool,
}

/// `LIKE` and `ILIKE`.
#[derive(Debug)]
pub struct Like {
    pub expr: Box<Loc<Expr>>,
    pub pattern: Box<Loc<Expr>>,
    pub not: bool,
}

#[derive(Debug)]
pub struct Similar {
    pub expr: Box<Loc<Expr>>,
    pub pattern: Box<Loc<Expr>>,
    pub escape: Option<Box<Loc<Expr>>>,
}

#[derive(Debug)]
pub struct In {
    pub expr: Box<Loc<Expr>>,
    pub list: ExprList,
    pub not: bool,
}

#[derive(Debug)]
pub enum ExprList {
    Subquery(Box<Loc<Query>>),
    Exprs(Vec<Loc<Expr>>),
}

#[derive(Debug)]
pub struct IsNull {
    pub expr: Box<Loc<Expr>>,
    pub not: bool,
}

/// `CAST(expr AS type)` or `expr::type`.
#[derive(Debug)]
pub struct Cast {
    pub expr: Box<Loc<Expr>>,
    pub data_type: Loc<DataType>,
}

/// A type name, with parameters where it has them.
#[derive(Debug)]
pub enum DataType {
    Named(Loc<QualifiedName>),
    Parameterized { name: Loc<QualifiedName>, params: Vec<Loc<TypeParam>> },
}

/// A type parameter: a number or a name.
#[derive(Debug, Clone, Copy, PartialEq, Eq, Structural)]
pub enum TypeParam {
    Number(i64),
    Ident(Span),
}

/// `ROW(exprs)`
#[derive(Debug)]
pub struct Row {
    pub exprs: DelimitedList<Loc<Expr>>,
}

/// `expr[index]` or `expr[index:upper]`.
#[derive(Debug)]
pub struct Subscript {
    pub expr: Box<Loc<Expr>>,
    pub index: Box<Loc<Expr>>,
    pub upper: Option<Box<Loc<Expr>>>,
}

/// `expr AT TIME ZONE timezone`
#[derive(Debug)]
pub struct AtTimeZone {
    pub expr: Box<Loc<Expr>>,
    pub timezone: Box<Loc<Expr>>,
}

} // verus!
