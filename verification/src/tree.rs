//! The library's own statement tree. It mirrors exactly the parts of a
//! parsed SQL statement that normalization reads or rewrites; everything
//! else rides along untouched in `Raw` variants and `raw` fields, so a
//! statement can be rebuilt without loss. Each type has a spec-level
//! mirror (`Spec...`) over `Seq` and `Seq<char>`, reached through `view`.

use vstd::prelude::*;

verus! {

/// The placeholder text substituted for an elided subtree.
pub open spec fn dots() -> Seq<char> {
    "..."@
}

/// The placeholder text as an owned string.
pub fn dots_string() -> (r: String)
    ensures
        r@ == dots(),
{
    "...".to_owned()
}

// ---------------------------------------------------------------------
// Identifiers and names

/// A quoting marker on an identifier: exactly the four markers sqlparser's
/// tokenizer produces and its renderer accepts. Holding markers as this
/// enum, rather than as a character, keeps every tree renderable.
#[derive(Clone, Copy, PartialEq, Eq, Debug)]
pub enum QuoteMarker {
    DoubleQuote,
    SingleQuote,
    Backtick,
    LeftBracket,
}

/// An identifier with its optional quoting marker.
pub struct SqlIdent {
    pub value: String,
    pub quote: Option<QuoteMarker>,
}

pub struct SpecIdent {
    pub value: Seq<char>,
    pub quote: Option<QuoteMarker>,
}

impl View for SqlIdent {
    type V = SpecIdent;

    open spec fn view(&self) -> SpecIdent {
        SpecIdent { value: self.value@, quote: self.quote }
    }
}

/// The identifier written for a collapsed name list: `...`, unquoted.
pub open spec fn spec_dots_ident() -> SpecIdent {
    SpecIdent { value: dots(), quote: None }
}

pub fn dots_ident() -> (r: SqlIdent)
    ensures
        r@ == spec_dots_ident(),
{
    SqlIdent { value: dots_string(), quote: None }
}

/// One part of a possibly qualified object name.
pub enum NamePart {
    Ident(SqlIdent),
    Raw(sqlparser::ast::ObjectNamePart),
}

pub enum SpecNamePart {
    Ident(SpecIdent),
    Raw(sqlparser::ast::ObjectNamePart),
}

impl View for NamePart {
    type V = SpecNamePart;

    open spec fn view(&self) -> SpecNamePart {
        match self {
            NamePart::Ident(i) => SpecNamePart::Ident(i@),
            NamePart::Raw(r) => SpecNamePart::Raw(*r),
        }
    }
}

/// A possibly qualified object name, e.g. a relation name `c.d`.
pub struct RelName {
    pub parts: Vec<NamePart>,
}

pub struct SpecRelName {
    pub parts: Seq<SpecNamePart>,
}

impl View for RelName {
    type V = SpecRelName;

    open spec fn view(&self) -> SpecRelName {
        SpecRelName { parts: self.parts@.map_values(|p: NamePart| p@) }
    }
}

// ---------------------------------------------------------------------
// Expressions

/// An expression, as far as normalization can see one: a bare or compound
/// identifier reference; a binary or unary operation, a parenthesized
/// expression or a function call, inside which identifiers are
/// normalized; the placeholder; or an opaque expression.
pub enum SqlExpr {
    Ident(SqlIdent),
    Compound(Vec<SqlIdent>),
    Binary {
        left: Box<SqlExpr>,
        op: sqlparser::ast::BinaryOperator,
        right: Box<SqlExpr>,
    },
    Unary { op: sqlparser::ast::UnaryOperator, expr: Box<SqlExpr> },
    Nested(Box<SqlExpr>),
    Func { name: RelName, args: Vec<FuncArg>, raw: sqlparser::ast::Expr },
    /// An expression wrapping exactly one subexpression (a cast, an IS
    /// test, CEIL or FLOOR): the subexpression's identifiers are
    /// normalized, the wrapper stays carried.
    Wrapped { expr: Box<SqlExpr>, raw: sqlparser::ast::Expr },
    Placeholder,
    Raw(sqlparser::ast::Expr),
}

/// One function argument: the expression or qualified wildcard it
/// carries, when its form does, with the argument's name and operator
/// kept in the carried node.
pub enum FuncArg {
    ExprArg { expr: SqlExpr, raw: sqlparser::ast::FunctionArg },
    WildcardArg { name: RelName, raw: sqlparser::ast::FunctionArg },
    Raw(sqlparser::ast::FunctionArg),
}

pub enum SpecExpr {
    Ident(SpecIdent),
    Compound(Seq<SpecIdent>),
    Binary {
        left: Box<SpecExpr>,
        op: sqlparser::ast::BinaryOperator,
        right: Box<SpecExpr>,
    },
    Unary { op: sqlparser::ast::UnaryOperator, expr: Box<SpecExpr> },
    Nested(Box<SpecExpr>),
    Func { name: SpecRelName, args: Seq<SpecFuncArg>, raw: sqlparser::ast::Expr },
    Wrapped { expr: Box<SpecExpr>, raw: sqlparser::ast::Expr },
    Placeholder,
    Raw(sqlparser::ast::Expr),
}

pub enum SpecFuncArg {
    ExprArg { expr: SpecExpr, raw: sqlparser::ast::FunctionArg },
    WildcardArg { name: SpecRelName, raw: sqlparser::ast::FunctionArg },
    Raw(sqlparser::ast::FunctionArg),
}

pub open spec fn expr_view(e: SqlExpr) -> SpecExpr
    decreases e,
{
    match e {
        SqlExpr::Ident(i) => SpecExpr::Ident(i@),
        SqlExpr::Compound(v) => SpecExpr::Compound(v@.map_values(|i: SqlIdent| i@)),
        SqlExpr::Binary { left, op, right } => SpecExpr::Binary {
            left: Box::new(expr_view(*left)),
            op,
            right: Box::new(expr_view(*right)),
        },
        SqlExpr::Unary { op, expr } => SpecExpr::Unary { op, expr: Box::new(expr_view(*expr)) },
        SqlExpr::Nested(x) => SpecExpr::Nested(Box::new(expr_view(*x))),
        SqlExpr::Func { name, args, raw } => SpecExpr::Func {
            name: name@,
            args: func_arg_views(args@, 0),
            raw,
        },
        SqlExpr::Wrapped { expr, raw } => SpecExpr::Wrapped {
            expr: Box::new(expr_view(*expr)),
            raw,
        },
        SqlExpr::Placeholder => SpecExpr::Placeholder,
        SqlExpr::Raw(e) => SpecExpr::Raw(e),
    }
}

pub open spec fn func_arg_view(a: FuncArg) -> SpecFuncArg
    decreases a,
{
    match a {
        FuncArg::ExprArg { expr, raw } => SpecFuncArg::ExprArg { expr: expr_view(expr), raw },
        FuncArg::WildcardArg { name, raw } => SpecFuncArg::WildcardArg { name: name@, raw },
        FuncArg::Raw(x) => SpecFuncArg::Raw(x),
    }
}

pub open spec fn func_arg_views(s: Seq<FuncArg>, i: int) -> Seq<SpecFuncArg>
    decreases s, s.len() - i,
{
    if i < 0 || i >= s.len() {
        Seq::empty()
    } else {
        seq![func_arg_view(s[i])] + func_arg_views(s, i + 1)
    }
}

impl View for SqlExpr {
    type V = SpecExpr;

    open spec fn view(&self) -> SpecExpr {
        expr_view(*self)
    }
}

impl View for FuncArg {
    type V = SpecFuncArg;

    open spec fn view(&self) -> SpecFuncArg {
        func_arg_view(*self)
    }
}

/// One item of a SELECT projection. `ExprLike` marks a plain or aliased
/// expression, the shapes the projection rule replaces; a qualified
/// wildcard survives with its name's identifiers normalized; any other
/// item kind is `Raw`.
pub enum ProjItem {
    Placeholder,
    ExprLike(sqlparser::ast::SelectItem),
    QualifiedWildcard { name: RelName, raw: sqlparser::ast::SelectItem },
    Raw(sqlparser::ast::SelectItem),
}

pub enum SpecProjItem {
    Placeholder,
    ExprLike(sqlparser::ast::SelectItem),
    QualifiedWildcard { name: SpecRelName, raw: sqlparser::ast::SelectItem },
    Raw(sqlparser::ast::SelectItem),
}

impl View for ProjItem {
    type V = SpecProjItem;

    open spec fn view(&self) -> SpecProjItem {
        match self {
            ProjItem::Placeholder => SpecProjItem::Placeholder,
            ProjItem::ExprLike(s) => SpecProjItem::ExprLike(*s),
            ProjItem::QualifiedWildcard { name, raw } => SpecProjItem::QualifiedWildcard {
                name: name@,
                raw: *raw,
            },
            ProjItem::Raw(s) => SpecProjItem::Raw(*s),
        }
    }
}

/// The target of one assignment: a column name, or any other target shape.
pub enum AssignTargetKind {
    Column(RelName),
    Raw(sqlparser::ast::AssignmentTarget),
}

pub enum SpecAssignTargetKind {
    Column(SpecRelName),
    Raw(sqlparser::ast::AssignmentTarget),
}

impl View for AssignTargetKind {
    type V = SpecAssignTargetKind;

    open spec fn view(&self) -> SpecAssignTargetKind {
        match self {
            AssignTargetKind::Column(n) => SpecAssignTargetKind::Column(n@),
            AssignTargetKind::Raw(t) => SpecAssignTargetKind::Raw(*t),
        }
    }
}

/// One assignment of an UPDATE, DO-UPDATE or INSERT SET list.
/// `Placeholder` stands for the synthetic assignment `... = ...`.
pub enum AssignItem {
    Placeholder,
    Pair { target: AssignTargetKind, value: SqlExpr },
}

pub enum SpecAssignItem {
    Placeholder,
    Pair { target: SpecAssignTargetKind, value: SpecExpr },
}

impl View for AssignItem {
    type V = SpecAssignItem;

    open spec fn view(&self) -> SpecAssignItem {
        match self {
            AssignItem::Placeholder => SpecAssignItem::Placeholder,
            AssignItem::Pair { target, value } => SpecAssignItem::Pair {
                target: target@,
                value: value@,
            },
        }
    }
}

/// One column of a table alias column list. `Placeholder` stands for a
/// column named `...` with no data type.
pub enum AliasCol {
    Placeholder,
    Raw(sqlparser::ast::TableAliasColumnDef),
}

pub enum SpecAliasCol {
    Placeholder,
    Raw(sqlparser::ast::TableAliasColumnDef),
}

impl View for AliasCol {
    type V = SpecAliasCol;

    open spec fn view(&self) -> SpecAliasCol {
        match self {
            AliasCol::Placeholder => SpecAliasCol::Placeholder,
            AliasCol::Raw(c) => SpecAliasCol::Raw(*c),
        }
    }
}

/// The DISTINCT clause of a SELECT.
pub enum DistinctKind {
    /// `DISTINCT ON (<exprs>)`.
    On(Vec<SqlExpr>),
    /// Plain `DISTINCT` or `ALL`, untouched by normalization.
    Simple(sqlparser::ast::Distinct),
}

pub enum SpecDistinctKind {
    On(Seq<SpecExpr>),
    Simple(sqlparser::ast::Distinct),
}

impl View for DistinctKind {
    type V = SpecDistinctKind;

    open spec fn view(&self) -> SpecDistinctKind {
        match self {
            DistinctKind::On(v) => SpecDistinctKind::On(v@.map_values(|e: SqlExpr| e@)),
            DistinctKind::Simple(d) => SpecDistinctKind::Simple(*d),
        }
    }
}

/// The GROUP BY clause of a SELECT. Only an explicit expression list is
/// rewritten; `GROUP BY ALL` and other forms stay raw.
pub enum GroupByKind {
    Exprs { exprs: Vec<SqlExpr>, raw: sqlparser::ast::GroupByExpr },
    Raw(sqlparser::ast::GroupByExpr),
}

pub enum SpecGroupByKind {
    Exprs { exprs: Seq<SpecExpr>, raw: sqlparser::ast::GroupByExpr },
    Raw(sqlparser::ast::GroupByExpr),
}

impl View for GroupByKind {
    type V = SpecGroupByKind;

    open spec fn view(&self) -> SpecGroupByKind {
        match self {
            GroupByKind::Exprs { exprs, raw } => SpecGroupByKind::Exprs {
                exprs: exprs@.map_values(|e: SqlExpr| e@),
                raw: *raw,
            },
            GroupByKind::Raw(g) => SpecGroupByKind::Raw(*g),
        }
    }
}

/// The join condition, where the operator carries one. `On` is the
/// predicate of an operator the collapse rule recognizes; `AsOf` holds an
/// ASOF join's match condition and, when its own constraint is an ON
/// predicate, that predicate too (the constraint's other shapes ride in
/// `raw`); no collapse rule fires on an ASOF join.
pub enum JoinCond {
    On(SqlExpr),
    Using(Vec<RelName>),
    AsOf { match_condition: SqlExpr, on: Option<SqlExpr>, raw: sqlparser::ast::JoinConstraint },
    Raw(sqlparser::ast::JoinConstraint),
}

pub enum SpecJoinCond {
    On(SpecExpr),
    Using(Seq<SpecRelName>),
    AsOf {
        match_condition: SpecExpr,
        on: Option<SpecExpr>,
        raw: sqlparser::ast::JoinConstraint,
    },
    Raw(sqlparser::ast::JoinConstraint),
}

impl View for JoinCond {
    type V = SpecJoinCond;

    open spec fn view(&self) -> SpecJoinCond {
        match self {
            JoinCond::On(e) => SpecJoinCond::On(e@),
            JoinCond::Using(v) => SpecJoinCond::Using(v@.map_values(|t: RelName| t@)),
            JoinCond::AsOf { match_condition, on, raw } => SpecJoinCond::AsOf {
                match_condition: match_condition@,
                on: opt_expr_view(*on),
                raw: *raw,
            },
            JoinCond::Raw(c) => SpecJoinCond::Raw(*c),
        }
    }
}

/// One entry of an ORDER BY expression list; ASC/DESC and the other
/// modifiers stay in `raw`.
pub struct OrderEntry {
    pub expr: SqlExpr,
    pub raw: sqlparser::ast::OrderByExpr,
}

pub struct SpecOrderEntry {
    pub expr: SpecExpr,
    pub raw: sqlparser::ast::OrderByExpr,
}

impl View for OrderEntry {
    type V = SpecOrderEntry;

    open spec fn view(&self) -> SpecOrderEntry {
        SpecOrderEntry { expr: self.expr@, raw: self.raw }
    }
}

/// The ORDER BY clause. Only an explicit expression list is rewritten.
pub enum OrderByKind {
    Exprs { entries: Vec<OrderEntry>, raw: sqlparser::ast::OrderBy },
    Raw(sqlparser::ast::OrderBy),
}

pub enum SpecOrderByKind {
    Exprs { entries: Seq<SpecOrderEntry>, raw: sqlparser::ast::OrderBy },
    Raw(sqlparser::ast::OrderBy),
}

impl View for OrderByKind {
    type V = SpecOrderByKind;

    open spec fn view(&self) -> SpecOrderByKind {
        match self {
            OrderByKind::Exprs { entries, raw } => SpecOrderByKind::Exprs {
                entries: entries@.map_values(|e: OrderEntry| e@),
                raw: *raw,
            },
            OrderByKind::Raw(o) => SpecOrderByKind::Raw(*o),
        }
    }
}

/// The OFFSET clause; the `ROW`/`ROWS` keyword stays in `raw`.
pub struct OffsetNode {
    pub value: SqlExpr,
    pub raw: sqlparser::ast::Offset,
}

pub struct SpecOffsetNode {
    pub value: SpecExpr,
    pub raw: sqlparser::ast::Offset,
}

impl View for OffsetNode {
    type V = SpecOffsetNode;

    open spec fn view(&self) -> SpecOffsetNode {
        SpecOffsetNode { value: self.value@, raw: self.raw }
    }
}

/// The LIMIT/OFFSET clause family, in its two syntactic forms.
pub enum LimitKind {
    LimitOffset { limit: Option<SqlExpr>, offset: Option<OffsetNode>, limit_by: Vec<SqlExpr> },
    OffsetCommaLimit { offset: SqlExpr, limit: SqlExpr },
}

pub enum SpecLimitKind {
    LimitOffset {
        limit: Option<SpecExpr>,
        offset: Option<SpecOffsetNode>,
        limit_by: Seq<SpecExpr>,
    },
    OffsetCommaLimit { offset: SpecExpr, limit: SpecExpr },
}

impl View for LimitKind {
    type V = SpecLimitKind;

    open spec fn view(&self) -> SpecLimitKind {
        match self {
            LimitKind::LimitOffset { limit, offset, limit_by } => SpecLimitKind::LimitOffset {
                limit: match limit {
                    Option::Some(l) => Option::Some(l@),
                    Option::None => Option::None,
                },
                offset: match offset {
                    Option::Some(o) => Option::Some(o@),
                    Option::None => Option::None,
                },
                limit_by: limit_by@.map_values(|e: SqlExpr| e@),
            },
            LimitKind::OffsetCommaLimit { offset, limit } => SpecLimitKind::OffsetCommaLimit {
                offset: offset@,
                limit: limit@,
            },
        }
    }
}

// ---------------------------------------------------------------------
// Queries: these types are mutually recursive, and their views are
// written as free spec functions with explicit decreases measures.

/// A table reference in FROM or after a join keyword.
pub enum TableRef {
    /// A named table; the name is rewritten by identifier normalization.
    Named { name: RelName, raw: sqlparser::ast::TableFactor },
    /// `UNNEST(...)`, with its array expressions and alias column list.
    Unnest {
        alias_cols: Option<Vec<AliasCol>>,
        array_exprs: Vec<SqlExpr>,
        raw: sqlparser::ast::TableFactor,
    },
    /// A parenthesized subquery in FROM.
    Derived { subquery: Box<QueryNode>, raw: sqlparser::ast::TableFactor },
    /// A parenthesized join in FROM; its ON predicates are not the joins
    /// of a SELECT's own FROM list, so they survive normalization.
    Nested { inner: Box<FromItem>, raw: sqlparser::ast::TableFactor },
    Raw(sqlparser::ast::TableFactor),
}

/// One join attached to a FROM item; the join kind stays in `raw`.
pub struct JoinNode {
    pub relation: TableRef,
    pub cond: Option<JoinCond>,
    pub raw: sqlparser::ast::Join,
}

/// One FROM item: a table reference and its joins.
pub struct FromItem {
    pub relation: TableRef,
    pub joins: Vec<JoinNode>,
}

/// The SELECT clauses that survive normalization: no collapse rule fires
/// on them, so they only have their identifiers normalized.
pub struct SelectWalk {
    pub prewhere: Option<SqlExpr>,
    pub cluster_by: Vec<SqlExpr>,
    pub distribute_by: Vec<SqlExpr>,
    pub sort_by: Vec<OrderEntry>,
    pub having: Option<SqlExpr>,
    pub qualify: Option<SqlExpr>,
}

pub struct SpecSelectWalk {
    pub prewhere: Option<SpecExpr>,
    pub cluster_by: Seq<SpecExpr>,
    pub distribute_by: Seq<SpecExpr>,
    pub sort_by: Seq<SpecOrderEntry>,
    pub having: Option<SpecExpr>,
    pub qualify: Option<SpecExpr>,
}

/// The view of an optional expression.
pub open spec fn opt_expr_view(e: Option<SqlExpr>) -> Option<SpecExpr> {
    match e {
        Option::Some(x) => Option::Some(x@),
        Option::None => Option::None,
    }
}

impl View for SelectWalk {
    type V = SpecSelectWalk;

    open spec fn view(&self) -> SpecSelectWalk {
        SpecSelectWalk {
            prewhere: opt_expr_view(self.prewhere),
            cluster_by: self.cluster_by@.map_values(|e: SqlExpr| e@),
            distribute_by: self.distribute_by@.map_values(|e: SqlExpr| e@),
            sort_by: self.sort_by@.map_values(|e: OrderEntry| e@),
            having: opt_expr_view(self.having),
            qualify: opt_expr_view(self.qualify),
        }
    }
}

/// One SELECT block. `selection` is the WHERE predicate, which collapses;
/// the clauses in `walk` survive with their identifiers normalized.
pub struct SelectNode {
    pub projection: Vec<ProjItem>,
    pub distinct: Option<DistinctKind>,
    pub from: Vec<FromItem>,
    pub selection: Option<SqlExpr>,
    pub group_by: GroupByKind,
    pub walk: SelectWalk,
    pub raw: sqlparser::ast::Select,
}

/// The body of a query: a SELECT, a set operation over bodies, a
/// parenthesized query, a VALUES list, or an opaque body.
pub enum SetExprNode {
    Select(Box<SelectNode>),
    SetOp { left: Box<SetExprNode>, right: Box<SetExprNode>, raw: sqlparser::ast::SetExpr },
    Nested(Box<QueryNode>),
    Values { rows: Vec<Vec<SqlExpr>>, raw: sqlparser::ast::Values },
    Raw(sqlparser::ast::SetExpr),
}

/// One common table expression of a WITH clause.
pub struct CteNode {
    pub query: Box<QueryNode>,
    pub raw: sqlparser::ast::Cte,
}

/// The WITH clause.
pub struct WithNode {
    pub ctes: Vec<CteNode>,
    pub raw: sqlparser::ast::With,
}

/// One query: WITH, body, ORDER BY, LIMIT; the remaining clauses stay
/// in `raw`.
pub struct QueryNode {
    pub with: Option<WithNode>,
    pub body: Box<SetExprNode>,
    pub order_by: Option<OrderByKind>,
    pub limit: Option<LimitKind>,
    pub raw: sqlparser::ast::Query,
}

pub enum SpecTableRef {
    Named { name: SpecRelName, raw: sqlparser::ast::TableFactor },
    Unnest {
        alias_cols: Option<Seq<SpecAliasCol>>,
        array_exprs: Seq<SpecExpr>,
        raw: sqlparser::ast::TableFactor,
    },
    Derived { subquery: Box<SpecQueryNode>, raw: sqlparser::ast::TableFactor },
    Nested { inner: Box<SpecFromItem>, raw: sqlparser::ast::TableFactor },
    Raw(sqlparser::ast::TableFactor),
}

pub struct SpecJoinNode {
    pub relation: SpecTableRef,
    pub cond: Option<SpecJoinCond>,
    pub raw: sqlparser::ast::Join,
}

pub struct SpecFromItem {
    pub relation: SpecTableRef,
    pub joins: Seq<SpecJoinNode>,
}

pub struct SpecSelectNode {
    pub projection: Seq<SpecProjItem>,
    pub distinct: Option<SpecDistinctKind>,
    pub from: Seq<SpecFromItem>,
    pub selection: Option<SpecExpr>,
    pub group_by: SpecGroupByKind,
    pub walk: SpecSelectWalk,
    pub raw: sqlparser::ast::Select,
}

pub enum SpecSetExprNode {
    Select(Box<SpecSelectNode>),
    SetOp { left: Box<SpecSetExprNode>, right: Box<SpecSetExprNode>, raw: sqlparser::ast::SetExpr },
    Nested(Box<SpecQueryNode>),
    Values { rows: Seq<Seq<SpecExpr>>, raw: sqlparser::ast::Values },
    Raw(sqlparser::ast::SetExpr),
}

pub struct SpecCteNode {
    pub query: Box<SpecQueryNode>,
    pub raw: sqlparser::ast::Cte,
}

pub struct SpecWithNode {
    pub ctes: Seq<SpecCteNode>,
    pub raw: sqlparser::ast::With,
}

pub struct SpecQueryNode {
    pub with: Option<SpecWithNode>,
    pub body: Box<SpecSetExprNode>,
    pub order_by: Option<SpecOrderByKind>,
    pub limit: Option<SpecLimitKind>,
    pub raw: sqlparser::ast::Query,
}

pub open spec fn query_view(q: QueryNode) -> SpecQueryNode
    decreases q,
{
    SpecQueryNode {
        with: match q.with {
            Option::Some(w) => Option::Some(with_view(w)),
            Option::None => Option::None,
        },
        body: Box::new(set_expr_view(*q.body)),
        order_by: match q.order_by {
            Option::Some(o) => Option::Some(o@),
            Option::None => Option::None,
        },
        limit: match q.limit {
            Option::Some(l) => Option::Some(l@),
            Option::None => Option::None,
        },
        raw: q.raw,
    }
}

pub open spec fn with_view(w: WithNode) -> SpecWithNode
    decreases w,
{
    SpecWithNode { ctes: cte_views(w.ctes@, 0), raw: w.raw }
}

pub open spec fn cte_views(s: Seq<CteNode>, i: int) -> Seq<SpecCteNode>
    decreases s, s.len() - i,
{
    if i < 0 || i >= s.len() {
        Seq::empty()
    } else {
        seq![SpecCteNode { query: Box::new(query_view(*s[i].query)), raw: s[i].raw }]
            + cte_views(s, i + 1)
    }
}

pub open spec fn set_expr_view(e: SetExprNode) -> SpecSetExprNode
    decreases e,
{
    match e {
        SetExprNode::Select(s) => SpecSetExprNode::Select(Box::new(select_view(*s))),
        SetExprNode::SetOp { left, right, raw } => SpecSetExprNode::SetOp {
            left: Box::new(set_expr_view(*left)),
            right: Box::new(set_expr_view(*right)),
            raw,
        },
        SetExprNode::Nested(q) => SpecSetExprNode::Nested(Box::new(query_view(*q))),
        SetExprNode::Values { rows, raw } => SpecSetExprNode::Values {
            rows: rows@.map_values(|r: Vec<SqlExpr>| r@.map_values(|x: SqlExpr| x@)),
            raw,
        },
        SetExprNode::Raw(r) => SpecSetExprNode::Raw(r),
    }
}

pub open spec fn select_view(s: SelectNode) -> SpecSelectNode
    decreases s,
{
    SpecSelectNode {
        projection: s.projection@.map_values(|p: ProjItem| p@),
        distinct: match s.distinct {
            Option::Some(d) => Option::Some(d@),
            Option::None => Option::None,
        },
        from: from_item_views(s.from@, 0),
        selection: opt_expr_view(s.selection),
        group_by: s.group_by@,
        walk: s.walk@,
        raw: s.raw,
    }
}

pub open spec fn from_item_views(s: Seq<FromItem>, i: int) -> Seq<SpecFromItem>
    decreases s, s.len() - i,
{
    if i < 0 || i >= s.len() {
        Seq::empty()
    } else {
        seq![from_item_view(s[i])] + from_item_views(s, i + 1)
    }
}

pub open spec fn from_item_view(f: FromItem) -> SpecFromItem
    decreases f,
{
    SpecFromItem { relation: table_ref_view(f.relation), joins: join_views(f.joins@, 0) }
}

pub open spec fn join_view_one(j: JoinNode) -> SpecJoinNode
    decreases j,
{
    SpecJoinNode {
        relation: table_ref_view(j.relation),
        cond: match j.cond {
            Option::Some(c) => Option::Some(c@),
            Option::None => Option::None,
        },
        raw: j.raw,
    }
}

pub open spec fn join_views(s: Seq<JoinNode>, i: int) -> Seq<SpecJoinNode>
    decreases s, s.len() - i,
{
    if i < 0 || i >= s.len() {
        Seq::empty()
    } else {
        seq![join_view_one(s[i])] + join_views(s, i + 1)
    }
}

pub open spec fn table_ref_view(t: TableRef) -> SpecTableRef
    decreases t,
{
    match t {
        TableRef::Named { name, raw } => SpecTableRef::Named { name: name@, raw },
        TableRef::Unnest { alias_cols, array_exprs, raw } => SpecTableRef::Unnest {
            alias_cols: match alias_cols {
                Option::Some(v) => Option::Some(v@.map_values(|c: AliasCol| c@)),
                Option::None => Option::None,
            },
            array_exprs: array_exprs@.map_values(|e: SqlExpr| e@),
            raw,
        },
        TableRef::Derived { subquery, raw } => SpecTableRef::Derived {
            subquery: Box::new(query_view(*subquery)),
            raw,
        },
        TableRef::Nested { inner, raw } => SpecTableRef::Nested {
            inner: Box::new(from_item_view(*inner)),
            raw,
        },
        TableRef::Raw(r) => SpecTableRef::Raw(r),
    }
}

impl View for QueryNode {
    type V = SpecQueryNode;

    open spec fn view(&self) -> SpecQueryNode {
        query_view(*self)
    }
}

impl View for SetExprNode {
    type V = SpecSetExprNode;

    open spec fn view(&self) -> SpecSetExprNode {
        set_expr_view(*self)
    }
}

impl View for SelectNode {
    type V = SpecSelectNode;

    open spec fn view(&self) -> SpecSelectNode {
        select_view(*self)
    }
}

impl View for FromItem {
    type V = SpecFromItem;

    open spec fn view(&self) -> SpecFromItem {
        from_item_view(*self)
    }
}

impl View for TableRef {
    type V = SpecTableRef;

    open spec fn view(&self) -> SpecTableRef {
        table_ref_view(*self)
    }
}

// ---------------------------------------------------------------------
// Statements

/// One declaration of a DECLARE statement.
pub struct DeclareItem {
    pub names: Vec<SqlIdent>,
    pub for_query: Option<Box<QueryNode>>,
    pub raw: sqlparser::ast::Declare,
}

/// The target table of an INSERT.
pub enum InsertTarget {
    Named(RelName),
    Raw(sqlparser::ast::TableObject),
}

/// The conflict target of an ON CONFLICT clause.
pub enum ConflictTargetKind {
    Columns(Vec<SqlIdent>),
    Raw(sqlparser::ast::ConflictTarget),
}

/// The action of an ON CONFLICT clause.
pub enum ConflictAction {
    DoUpdate { assignments: Vec<AssignItem>, selection: Option<SqlExpr> },
    Raw(sqlparser::ast::OnConflictAction),
}

/// The ON part of an INSERT.
pub enum OnInsertKind {
    Conflict { target: Option<ConflictTargetKind>, action: ConflictAction },
    Raw(sqlparser::ast::OnInsert),
}

/// An INSERT statement. `assignments` is the MySQL `INSERT ... SET` list,
/// which survives normalization with its identifiers walked.
pub struct InsertNode {
    pub table: InsertTarget,
    pub columns: Vec<RelName>,
    pub source: Option<Box<QueryNode>>,
    pub assignments: Vec<AssignItem>,
    pub on: Option<OnInsertKind>,
    pub returning: Option<Vec<ProjItem>>,
    pub raw: sqlparser::ast::Insert,
}

/// The FROM clause of an UPDATE, standing before or after the SET keyword.
pub enum UpdateFromKind {
    BeforeSet(Vec<FromItem>),
    AfterSet(Vec<FromItem>),
}

/// An UPDATE statement.
pub struct UpdateNode {
    pub table: FromItem,
    pub assignments: Vec<AssignItem>,
    pub from: Option<UpdateFromKind>,
    pub selection: Option<SqlExpr>,
    pub returning: Option<Vec<ProjItem>>,
    pub order_by: Vec<OrderEntry>,
    pub raw: sqlparser::ast::Update,
}

/// The FROM part of a DELETE, with or without the keyword.
pub enum DeleteFrom {
    WithKeyword(Vec<FromItem>),
    WithoutKeyword(Vec<FromItem>),
}

/// A DELETE statement.
pub struct DeleteNode {
    pub tables: Vec<RelName>,
    pub from: DeleteFrom,
    pub using: Option<Vec<FromItem>>,
    pub selection: Option<SqlExpr>,
    pub returning: Option<Vec<ProjItem>>,
    pub raw: sqlparser::ast::Delete,
}

/// One statement, dispatched by the kinds the rule set recognizes. An
/// EXPLAIN descends into the statement it explains; CREATE VIEW and
/// CREATE TABLE ... AS descend into their embedded query.
pub enum StmtNode {
    Savepoint { name: SqlIdent },
    Release { name: SqlIdent },
    Rollback { chain: bool, name: Option<SqlIdent> },
    Declare { items: Vec<DeclareItem> },
    Insert(InsertNode),
    Update(UpdateNode),
    Delete(DeleteNode),
    Query(Box<QueryNode>),
    Explain { inner: Box<StmtNode>, raw: sqlparser::ast::Statement },
    CreateView { name: RelName, query: Box<QueryNode>, raw: sqlparser::ast::Statement },
    CreateTable {
        name: RelName,
        query: Option<Box<QueryNode>>,
        raw: sqlparser::ast::Statement,
    },
    Raw(sqlparser::ast::Statement),
}

pub struct SpecDeclareItem {
    pub names: Seq<SpecIdent>,
    pub for_query: Option<Box<SpecQueryNode>>,
    pub raw: sqlparser::ast::Declare,
}

pub enum SpecInsertTarget {
    Named(SpecRelName),
    Raw(sqlparser::ast::TableObject),
}

pub enum SpecConflictTargetKind {
    Columns(Seq<SpecIdent>),
    Raw(sqlparser::ast::ConflictTarget),
}

pub enum SpecConflictAction {
    DoUpdate { assignments: Seq<SpecAssignItem>, selection: Option<SpecExpr> },
    Raw(sqlparser::ast::OnConflictAction),
}

pub enum SpecOnInsertKind {
    Conflict { target: Option<SpecConflictTargetKind>, action: SpecConflictAction },
    Raw(sqlparser::ast::OnInsert),
}

pub struct SpecInsertNode {
    pub table: SpecInsertTarget,
    pub columns: Seq<SpecRelName>,
    pub source: Option<Box<SpecQueryNode>>,
    pub assignments: Seq<SpecAssignItem>,
    pub on: Option<SpecOnInsertKind>,
    pub returning: Option<Seq<SpecProjItem>>,
    pub raw: sqlparser::ast::Insert,
}

pub enum SpecUpdateFromKind {
    BeforeSet(Seq<SpecFromItem>),
    AfterSet(Seq<SpecFromItem>),
}

pub struct SpecUpdateNode {
    pub table: SpecFromItem,
    pub assignments: Seq<SpecAssignItem>,
    pub from: Option<SpecUpdateFromKind>,
    pub selection: Option<SpecExpr>,
    pub returning: Option<Seq<SpecProjItem>>,
    pub order_by: Seq<SpecOrderEntry>,
    pub raw: sqlparser::ast::Update,
}

pub enum SpecDeleteFrom {
    WithKeyword(Seq<SpecFromItem>),
    WithoutKeyword(Seq<SpecFromItem>),
}

pub struct SpecDeleteNode {
    pub tables: Seq<SpecRelName>,
    pub from: SpecDeleteFrom,
    pub using: Option<Seq<SpecFromItem>>,
    pub selection: Option<SpecExpr>,
    pub returning: Option<Seq<SpecProjItem>>,
    pub raw: sqlparser::ast::Delete,
}

pub enum SpecStmtNode {
    Savepoint { name: SpecIdent },
    Release { name: SpecIdent },
    Rollback { chain: bool, name: Option<SpecIdent> },
    Declare { items: Seq<SpecDeclareItem> },
    Insert(SpecInsertNode),
    Update(SpecUpdateNode),
    Delete(SpecDeleteNode),
    Query(Box<SpecQueryNode>),
    Explain { inner: Box<SpecStmtNode>, raw: sqlparser::ast::Statement },
    CreateView { name: SpecRelName, query: Box<SpecQueryNode>, raw: sqlparser::ast::Statement },
    CreateTable {
        name: SpecRelName,
        query: Option<Box<SpecQueryNode>>,
        raw: sqlparser::ast::Statement,
    },
    Raw(sqlparser::ast::Statement),
}

pub open spec fn declare_item_view(d: DeclareItem) -> SpecDeclareItem {
    SpecDeclareItem {
        names: d.names@.map_values(|i: SqlIdent| i@),
        for_query: match d.for_query {
            Option::Some(q) => Option::Some(Box::new(query_view(*q))),
            Option::None => Option::None,
        },
        raw: d.raw,
    }
}

impl View for DeclareItem {
    type V = SpecDeclareItem;

    open spec fn view(&self) -> SpecDeclareItem {
        declare_item_view(*self)
    }
}

impl View for InsertTarget {
    type V = SpecInsertTarget;

    open spec fn view(&self) -> SpecInsertTarget {
        match self {
            InsertTarget::Named(n) => SpecInsertTarget::Named(n@),
            InsertTarget::Raw(t) => SpecInsertTarget::Raw(*t),
        }
    }
}

impl View for ConflictTargetKind {
    type V = SpecConflictTargetKind;

    open spec fn view(&self) -> SpecConflictTargetKind {
        match self {
            ConflictTargetKind::Columns(v) => SpecConflictTargetKind::Columns(
                v@.map_values(|i: SqlIdent| i@),
            ),
            ConflictTargetKind::Raw(t) => SpecConflictTargetKind::Raw(*t),
        }
    }
}

impl View for ConflictAction {
    type V = SpecConflictAction;

    open spec fn view(&self) -> SpecConflictAction {
        match self {
            ConflictAction::DoUpdate { assignments, selection } => SpecConflictAction::DoUpdate {
                assignments: assignments@.map_values(|a: AssignItem| a@),
                selection: match selection {
                    Option::Some(e) => Option::Some(e@),
                    Option::None => Option::None,
                },
            },
            ConflictAction::Raw(a) => SpecConflictAction::Raw(*a),
        }
    }
}

impl View for OnInsertKind {
    type V = SpecOnInsertKind;

    open spec fn view(&self) -> SpecOnInsertKind {
        match self {
            OnInsertKind::Conflict { target, action } => SpecOnInsertKind::Conflict {
                target: match target {
                    Option::Some(t) => Option::Some(t@),
                    Option::None => Option::None,
                },
                action: action@,
            },
            OnInsertKind::Raw(o) => SpecOnInsertKind::Raw(*o),
        }
    }
}

pub open spec fn insert_view(n: InsertNode) -> SpecInsertNode {
    SpecInsertNode {
        table: n.table@,
        columns: n.columns@.map_values(|c: RelName| c@),
        source: match n.source {
            Option::Some(q) => Option::Some(Box::new(query_view(*q))),
            Option::None => Option::None,
        },
        assignments: n.assignments@.map_values(|a: AssignItem| a@),
        on: match n.on {
            Option::Some(o) => Option::Some(o@),
            Option::None => Option::None,
        },
        returning: match n.returning {
            Option::Some(r) => Option::Some(r@.map_values(|p: ProjItem| p@)),
            Option::None => Option::None,
        },
        raw: n.raw,
    }
}

impl View for InsertNode {
    type V = SpecInsertNode;

    open spec fn view(&self) -> SpecInsertNode {
        insert_view(*self)
    }
}

pub open spec fn update_from_view(f: UpdateFromKind) -> SpecUpdateFromKind {
    match f {
        UpdateFromKind::BeforeSet(v) => SpecUpdateFromKind::BeforeSet(from_item_views(v@, 0)),
        UpdateFromKind::AfterSet(v) => SpecUpdateFromKind::AfterSet(from_item_views(v@, 0)),
    }
}

pub open spec fn update_view(n: UpdateNode) -> SpecUpdateNode {
    SpecUpdateNode {
        table: from_item_view(n.table),
        assignments: n.assignments@.map_values(|a: AssignItem| a@),
        from: match n.from {
            Option::Some(f) => Option::Some(update_from_view(f)),
            Option::None => Option::None,
        },
        selection: opt_expr_view(n.selection),
        returning: match n.returning {
            Option::Some(r) => Option::Some(r@.map_values(|p: ProjItem| p@)),
            Option::None => Option::None,
        },
        order_by: n.order_by@.map_values(|e: OrderEntry| e@),
        raw: n.raw,
    }
}

impl View for UpdateNode {
    type V = SpecUpdateNode;

    open spec fn view(&self) -> SpecUpdateNode {
        update_view(*self)
    }
}

pub open spec fn delete_view(n: DeleteNode) -> SpecDeleteNode {
    SpecDeleteNode {
        tables: n.tables@.map_values(|t: RelName| t@),
        from: match n.from {
            DeleteFrom::WithKeyword(v) => SpecDeleteFrom::WithKeyword(from_item_views(v@, 0)),
            DeleteFrom::WithoutKeyword(v) => SpecDeleteFrom::WithoutKeyword(
                from_item_views(v@, 0),
            ),
        },
        using: match n.using {
            Option::Some(v) => Option::Some(from_item_views(v@, 0)),
            Option::None => Option::None,
        },
        selection: match n.selection {
            Option::Some(e) => Option::Some(e@),
            Option::None => Option::None,
        },
        returning: match n.returning {
            Option::Some(r) => Option::Some(r@.map_values(|p: ProjItem| p@)),
            Option::None => Option::None,
        },
        raw: n.raw,
    }
}

impl View for DeleteNode {
    type V = SpecDeleteNode;

    open spec fn view(&self) -> SpecDeleteNode {
        delete_view(*self)
    }
}

pub open spec fn declare_item_views(s: Seq<DeclareItem>, i: int) -> Seq<SpecDeclareItem>
    decreases s.len() - i,
{
    if i < 0 || i >= s.len() {
        Seq::empty()
    } else {
        seq![declare_item_view(s[i])] + declare_item_views(s, i + 1)
    }
}

pub open spec fn stmt_view(s: StmtNode) -> SpecStmtNode
    decreases s,
{
    match s {
        StmtNode::Savepoint { name } => SpecStmtNode::Savepoint { name: name@ },
        StmtNode::Release { name } => SpecStmtNode::Release { name: name@ },
        StmtNode::Rollback { chain, name } => SpecStmtNode::Rollback {
            chain,
            name: match name {
                Option::Some(n) => Option::Some(n@),
                Option::None => Option::None,
            },
        },
        StmtNode::Declare { items } => SpecStmtNode::Declare {
            items: declare_item_views(items@, 0),
        },
        StmtNode::Insert(n) => SpecStmtNode::Insert(insert_view(n)),
        StmtNode::Update(n) => SpecStmtNode::Update(update_view(n)),
        StmtNode::Delete(n) => SpecStmtNode::Delete(delete_view(n)),
        StmtNode::Query(q) => SpecStmtNode::Query(Box::new(query_view(*q))),
        StmtNode::Explain { inner, raw } => SpecStmtNode::Explain {
            inner: Box::new(stmt_view(*inner)),
            raw,
        },
        StmtNode::CreateView { name, query, raw } => SpecStmtNode::CreateView {
            name: name@,
            query: Box::new(query_view(*query)),
            raw,
        },
        StmtNode::CreateTable { name, query, raw } => SpecStmtNode::CreateTable {
            name: name@,
            query: match query {
                Option::Some(q) => Option::Some(Box::new(query_view(*q))),
                Option::None => Option::None,
            },
            raw,
        },
        StmtNode::Raw(r) => SpecStmtNode::Raw(r),
    }
}

impl View for StmtNode {
    type V = SpecStmtNode;

    open spec fn view(&self) -> SpecStmtNode {
        stmt_view(*self)
    }
}

// ---------------------------------------------------------------------
// Pointwise descriptions of the sequence views above.

pub proof fn lemma_cte_views_index(s: Seq<CteNode>, i: int)
    requires
        0 <= i <= s.len(),
    ensures
        cte_views(s, i).len() == s.len() - i,
        forall|j: int|
            0 <= j < s.len() - i ==> cte_views(s, i)[j] == (SpecCteNode {
                query: Box::new(query_view(*s[i + j].query)),
                raw: s[i + j].raw,
            }),
    decreases s.len() - i,
{
    if i < s.len() {
        lemma_cte_views_index(s, i + 1);
    }
}

pub proof fn lemma_from_item_views_index(s: Seq<FromItem>, i: int)
    requires
        0 <= i <= s.len(),
    ensures
        from_item_views(s, i).len() == s.len() - i,
        forall|j: int|
            0 <= j < s.len() - i ==> from_item_views(s, i)[j] == from_item_view(s[i + j]),
    decreases s.len() - i,
{
    if i < s.len() {
        lemma_from_item_views_index(s, i + 1);
    }
}

pub proof fn lemma_join_views_index(s: Seq<JoinNode>, i: int)
    requires
        0 <= i <= s.len(),
    ensures
        join_views(s, i).len() == s.len() - i,
        forall|j: int|
            0 <= j < s.len() - i ==> join_views(s, i)[j] == join_view_one(s[i + j]),
    decreases s.len() - i,
{
    if i < s.len() {
        lemma_join_views_index(s, i + 1);
    }
}

pub proof fn lemma_func_arg_views_index(s: Seq<FuncArg>, i: int)
    requires
        0 <= i <= s.len(),
    ensures
        func_arg_views(s, i).len() == s.len() - i,
        forall|j: int|
            0 <= j < s.len() - i ==> func_arg_views(s, i)[j] == func_arg_view(s[i + j]),
    decreases s.len() - i,
{
    if i < s.len() {
        lemma_func_arg_views_index(s, i + 1);
    }
}

pub proof fn lemma_declare_item_views_index(s: Seq<DeclareItem>, i: int)
    requires
        0 <= i <= s.len(),
    ensures
        declare_item_views(s, i).len() == s.len() - i,
        forall|j: int|
            0 <= j < s.len() - i ==> declare_item_views(s, i)[j] == declare_item_view(s[i + j]),
    decreases s.len() - i,
{
    if i < s.len() {
        lemma_declare_item_views_index(s, i + 1);
    }
}

} // verus!
