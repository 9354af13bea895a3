//! The boundary with the sqlparser crate: declarations of its AST types,
//! the parse and render calls, and the conversions between sqlparser's
//! nodes and this library's tree. Everything here is trusted; the
//! normalization logic itself never reads a sqlparser value.

use vstd::prelude::*;

use sqlparser::ast::{
    Assignment, AssignmentTarget, ConflictTarget, Cte, Declare, Delete, Distinct, DoUpdate,
    Expr, FromTable, FunctionArg, FunctionArgExpr, FunctionArguments, GroupByExpr, Ident, Insert,
    Join, JoinConstraint, JoinOperator,
    LimitClause, ObjectName, ObjectNamePart, Offset, OnConflict, OnConflictAction, OnInsert,
    Parens, Query, Select, SelectItem, SelectItemQualifiedWildcardKind, SetExpr, Statement,
    TableAliasColumnDef, TableFactor,
    TableObject, TableWithJoins, Update, UpdateTableFromKind, Values, ValueWithSpan, With,
};
use sqlparser::dialect::{
    AnsiDialect, BigQueryDialect, ClickHouseDialect, DuckDbDialect, GenericDialect, HiveDialect,
    MsSqlDialect, MySqlDialect, PostgreSqlDialect, RedshiftSqlDialect, SQLiteDialect,
    SnowflakeDialect,
};
use sqlparser::tokenizer::Span;

use crate::tree::{
    AliasCol, AssignItem, AssignTargetKind, ConflictAction, ConflictTargetKind, CteNode,
    DeclareItem, DeleteFrom, FuncArg,
    DeleteNode, DistinctKind, FromItem, GroupByKind, InsertNode, InsertTarget, JoinCond,
    JoinNode, LimitKind, NamePart, OffsetNode, OnInsertKind, OrderByKind, OrderEntry, ProjItem,
    QueryNode,
    QuoteMarker, RelName, SelectNode, SelectWalk, SetExprNode, SpecStmtNode, SqlExpr, SqlIdent,
    StmtNode, TableRef, UpdateFromKind, UpdateNode, WithNode,
};

verus! {

#[verifier::external_type_specification]
#[verifier::external_body]
pub struct ExIdent(Ident);

#[verifier::external_type_specification]
#[verifier::external_body]
pub struct ExObjectName(ObjectName);

#[verifier::external_type_specification]
#[verifier::external_body]
pub struct ExObjectNamePart(ObjectNamePart);

#[verifier::external_type_specification]
#[verifier::external_body]
pub struct ExExpr(Expr);

#[verifier::external_type_specification]
#[verifier::external_body]
pub struct ExBinaryOperator(sqlparser::ast::BinaryOperator);

#[verifier::external_type_specification]
#[verifier::external_body]
pub struct ExUnaryOperator(sqlparser::ast::UnaryOperator);

#[verifier::external_type_specification]
#[verifier::external_body]
pub struct ExFunction(sqlparser::ast::Function);

#[verifier::external_type_specification]
#[verifier::external_body]
pub struct ExFunctionArg(FunctionArg);

#[verifier::external_type_specification]
#[verifier::external_body]
pub struct ExFunctionArgExpr(FunctionArgExpr);

#[verifier::external_type_specification]
#[verifier::external_body]
pub struct ExSelectItem(SelectItem);

#[verifier::external_type_specification]
#[verifier::external_body]
pub struct ExDistinct(Distinct);

#[verifier::external_type_specification]
#[verifier::external_body]
pub struct ExGroupByExpr(GroupByExpr);

#[verifier::external_type_specification]
#[verifier::external_body]
pub struct ExSelect(Select);

#[verifier::external_type_specification]
#[verifier::external_body]
pub struct ExTableFactor(TableFactor);

#[verifier::external_type_specification]
#[verifier::external_body]
pub struct ExTableWithJoins(TableWithJoins);

#[verifier::external_type_specification]
#[verifier::external_body]
pub struct ExTableAliasColumnDef(TableAliasColumnDef);

#[verifier::external_type_specification]
#[verifier::external_body]
pub struct ExJoin(Join);

#[verifier::external_type_specification]
#[verifier::external_body]
pub struct ExJoinOperator(JoinOperator);

#[verifier::external_type_specification]
#[verifier::external_body]
pub struct ExJoinConstraint(JoinConstraint);

#[verifier::external_type_specification]
#[verifier::external_body]
pub struct ExQuery(Query);

#[verifier::external_type_specification]
#[verifier::external_body]
pub struct ExWith(With);

#[verifier::external_type_specification]
#[verifier::external_body]
pub struct ExCte(Cte);

#[verifier::external_type_specification]
#[verifier::external_body]
pub struct ExSetExpr(SetExpr);

#[verifier::external_type_specification]
#[verifier::external_body]
pub struct ExSetOperator(sqlparser::ast::SetOperator);

#[verifier::external_type_specification]
#[verifier::external_body]
pub struct ExSetQuantifier(sqlparser::ast::SetQuantifier);

#[verifier::external_type_specification]
#[verifier::external_body]
pub struct ExValues(Values);

#[verifier::external_type_specification]
#[verifier::external_body]
pub struct ExOrderBy(sqlparser::ast::OrderBy);

#[verifier::external_type_specification]
#[verifier::external_body]
pub struct ExOrderByExpr(sqlparser::ast::OrderByExpr);

#[verifier::external_type_specification]
#[verifier::external_body]
pub struct ExLimitClause(LimitClause);

#[verifier::external_type_specification]
#[verifier::external_body]
pub struct ExOffset(Offset);

#[verifier::external_type_specification]
#[verifier::external_body]
pub struct ExStatement(Statement);

#[verifier::external_type_specification]
#[verifier::external_body]
pub struct ExDeclare(Declare);

#[verifier::external_type_specification]
#[verifier::external_body]
pub struct ExInsert(Insert);

#[verifier::external_type_specification]
#[verifier::external_body]
pub struct ExTableObject(TableObject);

#[verifier::external_type_specification]
#[verifier::external_body]
pub struct ExOnInsert(OnInsert);

#[verifier::external_type_specification]
#[verifier::external_body]
pub struct ExConflictTarget(ConflictTarget);

#[verifier::external_type_specification]
#[verifier::external_body]
pub struct ExOnConflictAction(OnConflictAction);

#[verifier::external_type_specification]
#[verifier::external_body]
pub struct ExAssignment(Assignment);

#[verifier::external_type_specification]
#[verifier::external_body]
pub struct ExAssignmentTarget(AssignmentTarget);

#[verifier::external_type_specification]
#[verifier::external_body]
pub struct ExUpdate(Update);

#[verifier::external_type_specification]
#[verifier::external_body]
pub struct ExUpdateTableFromKind(UpdateTableFromKind);

#[verifier::external_type_specification]
#[verifier::external_body]
pub struct ExDelete(Delete);

// ---------------------------------------------------------------------
// Parsing and rendering

/// Which SQL dialect the parser should assume. `Generic` is permissive
/// and accepts most common dialect-specific syntax.
#[derive(Clone, Copy)]
pub enum SqlDialect {
    Generic,
    Ansi,
    PostgreSql,
    MySql,
    Sqlite,
    ClickHouse,
    Snowflake,
    BigQuery,
    MsSql,
    Hive,
    DuckDb,
    Redshift,
}

/// What parsing a string yields: nothing when it does not parse, else the
/// number of statements. Parsing is a pure function of the dialect and
/// the text.
pub uninterp spec fn parsed_shape(d: SqlDialect, sql: Seq<char>) -> Option<nat>;

/// What a successful parse lifts to: the statements of `sql` under
/// dialect `d`, as the library's tree. Parsing is a pure function of the
/// dialect and the text, so the lifted statements are one too.
pub uninterp spec fn parsed_nodes(d: SqlDialect, sql: Seq<char>) -> Seq<SpecStmtNode>;

/// Relies on sqlparser's Parser::parse_sql: a pure function of the
/// dialect and the input text; it either fails or yields a sequence of
/// statements, lifted here one by one into the library's tree.
#[verifier::external_body]
pub(crate) fn parse_sql(d: SqlDialect, sql: &str) -> (r: Option<Vec<StmtNode>>)
    ensures
        r is Some <==> parsed_shape(d, sql@) is Some,
        r matches Option::Some(v) ==> parsed_shape(d, sql@) == Option::Some(v@.len() as nat)
            && v@.map_values(|s: StmtNode| s@) == parsed_nodes(d, sql@),
{
    let dialect: &dyn sqlparser::dialect::Dialect = match d {
        SqlDialect::Generic => &GenericDialect {},
        SqlDialect::Ansi => &AnsiDialect {},
        SqlDialect::PostgreSql => &PostgreSqlDialect {},
        SqlDialect::MySql => &MySqlDialect {},
        SqlDialect::Sqlite => &SQLiteDialect {},
        SqlDialect::ClickHouse => &ClickHouseDialect {},
        SqlDialect::Snowflake => &SnowflakeDialect {},
        SqlDialect::BigQuery => &BigQueryDialect {},
        SqlDialect::MsSql => &MsSqlDialect {},
        SqlDialect::Hive => &HiveDialect {},
        SqlDialect::DuckDb => &DuckDbDialect {},
        SqlDialect::Redshift => &RedshiftSqlDialect {},
    };
    sqlparser::parser::Parser::parse_sql(dialect, sql).ok().map(|v| v.into_iter().map(lift_statement).collect())
}

/// The renderer's text for one statement of the library's tree, once it
/// is lowered back to sqlparser's AST: a function of the tree alone.
pub uninterp spec fn rendered_stmt(s: SpecStmtNode) -> Seq<char>;

/// Relies on the Display impl of sqlparser's Statement: the renderer that
/// turns a (rewritten) tree back into SQL text; its output depends on the
/// statement alone. Display for Ident accepts exactly the four quoting
/// markers `QuoteMarker` models, and values of sqlparser's own types
/// enter the tree only through the parser, so rendering cannot hit its
/// panic on an unknown marker.
#[verifier::external_body]
pub(crate) fn statement_sql(m: StmtNode) -> (r: String)
    ensures
        r@ == rendered_stmt(m@),
{
    lower_statement(m).to_string()
}

// ---------------------------------------------------------------------
// Lifting sqlparser nodes into the library's tree. Each function moves
// or clones fields across, one node kind at a time; none of them decides
// anything. List fields are mapped by the verified loops further down.

/// Reads the `value` and `quote_style` fields of an Ident; the source
/// span is dropped (it carries no content). Relies on sqlparser's
/// tokenizer producing only the four quoting markers its renderer
/// accepts; a marker outside that set (which the tokenizer does not
/// produce) is read as a double quote.
#[verifier::external_body]
fn lift_ident(i: Ident) -> SqlIdent {
    let quote = i.quote_style.map(|c| match c {
        '\'' => QuoteMarker::SingleQuote,
        '`' => QuoteMarker::Backtick,
        '[' => QuoteMarker::LeftBracket,
        _ => QuoteMarker::DoubleQuote,
    });
    SqlIdent { value: i.value, quote }
}

/// Rebuilds an Ident with an empty span.
#[verifier::external_body]
fn lower_ident(i: SqlIdent) -> Ident {
    let quote_style = i.quote.map(|m| match m {
        QuoteMarker::DoubleQuote => '"',
        QuoteMarker::SingleQuote => '\'',
        QuoteMarker::Backtick => '`',
        QuoteMarker::LeftBracket => '[',
    });
    Ident { value: i.value, quote_style, span: Span::empty() }
}

/// Distinguishes the identifier part of an object name from any other.
#[verifier::external_body]
fn lift_name_part(p: ObjectNamePart) -> NamePart {
    match p {
        ObjectNamePart::Identifier(i) => NamePart::Ident(lift_ident(i)),
        other => NamePart::Raw(other),
    }
}

#[verifier::external_body]
fn lower_name_part(p: NamePart) -> ObjectNamePart {
    match p {
        NamePart::Ident(i) => ObjectNamePart::Identifier(lower_ident(i)),
        NamePart::Raw(x) => x,
    }
}

/// Unwraps the part list of an ObjectName.
#[verifier::external_body]
fn lift_object_name(n: ObjectName) -> RelName {
    RelName { parts: lift_name_parts(n.0) }
}

#[verifier::external_body]
fn lower_object_name(n: RelName) -> ObjectName {
    ObjectName(lower_name_parts(n.parts))
}

/// Distinguishes bare and compound identifier expressions, and descends
/// through binary and unary operations and parentheses; every other
/// expression kind stays opaque.
#[verifier::external_body]
fn lift_expr(e: Expr) -> SqlExpr {
    match e {
        Expr::Identifier(i) => SqlExpr::Ident(lift_ident(i)),
        Expr::CompoundIdentifier(v) => SqlExpr::Compound(lift_ident_vec(v)),
        Expr::BinaryOp { left, op, right } => lift_binary(*left, op, *right),
        Expr::UnaryOp { op, expr } => SqlExpr::Unary { op, expr: Box::new(lift_expr(*expr)) },
        Expr::Nested(x) => SqlExpr::Nested(Box::new(lift_expr(*x))),
        Expr::Function(f) => lift_func(f),
        other => lift_wrapped(other),
    }
}

/// Reads the subexpression of an expression that wraps exactly one (a
/// cast, an IS test, CEIL or FLOOR); every other expression kind stays
/// opaque.
#[verifier::external_body]
fn lift_wrapped(e: Expr) -> SqlExpr {
    let child = match &e {
        Expr::Cast { expr, .. } | Expr::Ceil { expr, .. } | Expr::Floor { expr, .. } => (
            **expr).clone(),
        Expr::IsNull(x) | Expr::IsNotNull(x) | Expr::IsTrue(x) | Expr::IsNotTrue(x) => (
            **x).clone(),
        Expr::IsFalse(x) | Expr::IsNotFalse(x) | Expr::IsUnknown(x)
        | Expr::IsNotUnknown(x) => (**x).clone(),
        _ => return SqlExpr::Raw(e),
    };
    SqlExpr::Wrapped { expr: Box::new(lift_expr(child)), raw: e }
}

/// Writes the subexpression back into whichever wrapper carries it.
#[verifier::external_body]
fn put_wrapped(x: Expr, raw: Expr) -> Expr {
    let mut raw = raw;
    match &mut raw {
        Expr::Cast { expr, .. } | Expr::Ceil { expr, .. } | Expr::Floor { expr, .. } => {
            **expr = x;
        },
        Expr::IsNull(e) | Expr::IsNotNull(e) | Expr::IsTrue(e) | Expr::IsNotTrue(e)
        | Expr::IsFalse(e) | Expr::IsNotFalse(e) | Expr::IsUnknown(e)
        | Expr::IsNotUnknown(e) => {
            **e = x;
        },
        _ => {},
    }
    raw
}

/// Reads both operands of a binary operation.
#[verifier::external_body]
fn lift_binary(l: Expr, op: sqlparser::ast::BinaryOperator, r: Expr) -> SqlExpr {
    SqlExpr::Binary { left: Box::new(lift_expr(l)), op, right: Box::new(lift_expr(r)) }
}

/// Reads a function call's name and the arguments of its argument list;
/// the clauses, parameters and the other argument forms stay carried.
#[verifier::external_body]
fn lift_func(f: sqlparser::ast::Function) -> SqlExpr {
    let name = lift_object_name(f.name.clone());
    let args = if let FunctionArguments::List(l) = &f.args {
        lift_func_arg_vec(l.args.clone())
    } else {
        Vec::new()
    };
    SqlExpr::Func { name, args, raw: Expr::Function(f) }
}

/// Distinguishes the argument forms that carry an expression from the
/// wildcard and other forms.
#[verifier::external_body]
fn lift_func_arg(a: FunctionArg) -> FuncArg {
    let lifted = match &a {
        FunctionArg::Named { arg: FunctionArgExpr::Expr(e), .. }
        | FunctionArg::ExprNamed { arg: FunctionArgExpr::Expr(e), .. }
        | FunctionArg::Unnamed(FunctionArgExpr::Expr(e)) => Some(lift_expr(e.clone())),
        _ => None,
    };
    match lifted {
        Some(expr) => FuncArg::ExprArg { expr, raw: a },
        None => lift_func_arg_wild(a),
    }
}

/// Distinguishes a qualified-wildcard argument from the remaining forms.
#[verifier::external_body]
fn lift_func_arg_wild(a: FunctionArg) -> FuncArg {
    let name = match &a {
        FunctionArg::Named { arg: FunctionArgExpr::QualifiedWildcard(n), .. }
        | FunctionArg::ExprNamed { arg: FunctionArgExpr::QualifiedWildcard(n), .. }
        | FunctionArg::Unnamed(FunctionArgExpr::QualifiedWildcard(n)) => Some(
            lift_object_name(n.clone()),
        ),
        _ => None,
    };
    match name {
        Some(name) => FuncArg::WildcardArg { name, raw: a },
        None => FuncArg::Raw(a),
    }
}

/// Rebuilds one function argument, writing the expression or wildcard
/// back into the carried node.
#[verifier::external_body]
fn lower_func_arg(a: FuncArg) -> FunctionArg {
    match a {
        FuncArg::ExprArg { expr, raw } => put_func_arg_expr(
            FunctionArgExpr::Expr(lower_expr(expr)),
            raw,
        ),
        FuncArg::WildcardArg { name, raw } => put_func_arg_expr(
            FunctionArgExpr::QualifiedWildcard(lower_object_name(name)),
            raw,
        ),
        FuncArg::Raw(x) => x,
    }
}

/// Writes an argument's expression slot back, whichever form names it.
#[verifier::external_body]
fn put_func_arg_expr(x: FunctionArgExpr, raw: FunctionArg) -> FunctionArg {
    let mut raw = raw;
    match &mut raw {
        FunctionArg::Named { arg, .. } | FunctionArg::ExprNamed { arg, .. } => *arg = x,
        FunctionArg::Unnamed(arg) => *arg = x,
    }
    raw
}

/// The placeholder becomes the literal value `...`.
#[verifier::external_body]
fn lower_expr(e: SqlExpr) -> Expr {
    match e {
        SqlExpr::Ident(i) => Expr::Identifier(lower_ident(i)),
        SqlExpr::Compound(v) => Expr::CompoundIdentifier(lower_ident_vec(v)),
        SqlExpr::Binary { left, op, right } => lower_binary(*left, op, *right),
        SqlExpr::Unary { op, expr } => Expr::UnaryOp { op, expr: Box::new(lower_expr(*expr)) },
        SqlExpr::Nested(x) => Expr::Nested(Box::new(lower_expr(*x))),
        SqlExpr::Func { name, args, raw } => lower_func(name, args, raw),
        SqlExpr::Wrapped { expr, raw } => put_wrapped(lower_expr(*expr), raw),
        SqlExpr::Placeholder => placeholder_expr(),
        SqlExpr::Raw(x) => x,
    }
}

/// Rebuilds a binary operation.
#[verifier::external_body]
fn lower_binary(l: SqlExpr, op: sqlparser::ast::BinaryOperator, r: SqlExpr) -> Expr {
    Expr::BinaryOp { left: Box::new(lower_expr(l)), op, right: Box::new(lower_expr(r)) }
}

/// Rebuilds a function call, writing its name and argument list back into
/// the carried node.
#[verifier::external_body]
fn lower_func(name: RelName, args: Vec<FuncArg>, raw: Expr) -> Expr {
    let mut raw = raw;
    if let Expr::Function(f) = &mut raw {
        f.name = lower_object_name(name);
        if let FunctionArguments::List(l) = &mut f.args {
            l.args = lower_func_arg_vec(args);
        }
    }
    raw
}

/// The expression rendered as `...`.
#[verifier::external_body]
fn placeholder_expr() -> Expr {
    Expr::Value(ValueWithSpan {
        value: sqlparser::ast::Value::Placeholder("...".to_string()),
        span: Span::empty(),
    })
}

/// Marks plain and aliased expressions, the projection shapes the rule
/// set replaces, and reads the name of a qualified wildcard.
#[verifier::external_body]
fn lift_select_item(i: SelectItem) -> ProjItem {
    match &i {
        SelectItem::UnnamedExpr(_) => ProjItem::ExprLike(i),
        SelectItem::ExprWithAlias { .. } => ProjItem::ExprLike(i),
        SelectItem::QualifiedWildcard(SelectItemQualifiedWildcardKind::ObjectName(n), _) => {
            let name = lift_object_name(n.clone());
            ProjItem::QualifiedWildcard { name, raw: i }
        },
        _ => ProjItem::Raw(i),
    }
}

#[verifier::external_body]
fn lower_select_item(p: ProjItem) -> SelectItem {
    match p {
        ProjItem::Placeholder => SelectItem::UnnamedExpr(placeholder_expr()),
        ProjItem::ExprLike(x) => x,
        ProjItem::QualifiedWildcard { name, raw } => put_qualified_wildcard(
            lower_object_name(name),
            raw,
        ),
        ProjItem::Raw(x) => x,
    }
}

/// Writes a qualified wildcard's name back into the carried item.
#[verifier::external_body]
fn put_qualified_wildcard(n: ObjectName, raw: SelectItem) -> SelectItem {
    let mut raw = raw;
    if let SelectItem::QualifiedWildcard(SelectItemQualifiedWildcardKind::ObjectName(x), _) =
        &mut raw
    {
        *x = n;
    }
    raw
}

/// Distinguishes a column-name assignment target from the other shapes.
#[verifier::external_body]
fn lift_assign_target(t: AssignmentTarget) -> AssignTargetKind {
    match t {
        AssignmentTarget::ColumnName(n) => AssignTargetKind::Column(lift_object_name(n)),
        other => AssignTargetKind::Raw(other),
    }
}

#[verifier::external_body]
fn lower_assign_target(t: AssignTargetKind) -> AssignmentTarget {
    match t {
        AssignTargetKind::Column(n) => AssignmentTarget::ColumnName(lower_object_name(n)),
        AssignTargetKind::Raw(x) => x,
    }
}

/// Splits one assignment into its target and value (its two fields).
#[verifier::external_body]
fn lift_assignment(a: Assignment) -> AssignItem {
    AssignItem::Pair {
        target: lift_assign_target(a.target),
        value: lift_expr(a.value),
    }
}

/// Rebuilds one assignment; the placeholder becomes `... = ...`.
#[verifier::external_body]
fn lower_assign_item(a: AssignItem) -> Assignment {
    match a {
        AssignItem::Placeholder => Assignment {
            target: AssignmentTarget::ColumnName(ObjectName(
                vec![ObjectNamePart::Identifier(Ident::new(
                    "...",
                ))],
            )),
            value: placeholder_expr(),
        },
        AssignItem::Pair { target, value } => Assignment {
            target: lower_assign_target(target),
            value: lower_expr(value),
        },
    }
}

/// The placeholder alias column: a column named `...`, no data type.
#[verifier::external_body]
fn lower_alias_col(c: AliasCol) -> TableAliasColumnDef {
    match c {
        AliasCol::Placeholder => TableAliasColumnDef {
            name: Ident::new("..."),
            data_type: None,
        },
        AliasCol::Raw(x) => x,
    }
}

/// Distinguishes `DISTINCT ON (...)` from plain DISTINCT/ALL.
#[verifier::external_body]
fn lift_distinct(d: Distinct) -> DistinctKind {
    match d {
        Distinct::On(v) => DistinctKind::On(lift_expr_vec(v)),
        other => DistinctKind::Simple(other),
    }
}

#[verifier::external_body]
fn lower_distinct(d: DistinctKind) -> Distinct {
    match d {
        DistinctKind::On(v) => Distinct::On(lower_expr_vec(v)),
        DistinctKind::Simple(x) => x,
    }
}

/// Reads the expression list of an explicit GROUP BY; the modifiers stay
/// in the carried node.
#[verifier::external_body]
fn lift_group_by(g: GroupByExpr) -> GroupByKind {
    match &g {
        GroupByExpr::Expressions(es, _) => {
            let exprs = lift_expr_vec(es.clone());
            GroupByKind::Exprs { exprs, raw: g }
        },
        _ => GroupByKind::Raw(g),
    }
}

/// Writes the expression list back, keeping the modifiers.
#[verifier::external_body]
fn lower_group_by(g: GroupByKind) -> GroupByExpr {
    match g {
        GroupByKind::Exprs { exprs, raw } => {
            let mut raw = raw;
            if let GroupByExpr::Expressions(es, _) = &mut raw {
                *es = lower_expr_vec(exprs);
            }
            raw
        },
        GroupByKind::Raw(x) => x,
    }
}

/// Reads a table factor: the name of a named table, the alias columns and
/// array expressions of an UNNEST, or the subquery of a derived table.
#[verifier::external_body]
fn lift_table_factor(t: TableFactor) -> TableRef {
    match &t {
        TableFactor::Table { name, .. } => {
            let n = lift_object_name(name.clone());
            TableRef::Named { name: n, raw: t }
        },
        TableFactor::UNNEST { .. } => lift_factor_unnest(t),
        TableFactor::Derived { subquery, .. } => {
            let q = lift_query((**subquery).clone());
            TableRef::Derived { subquery: Box::new(q), raw: t }
        },
        TableFactor::NestedJoin { .. } => lift_factor_nested(t),
        _ => TableRef::Raw(t),
    }
}

/// Reads the inner tables and joins of a parenthesized join factor.
#[verifier::external_body]
fn lift_factor_nested(t: TableFactor) -> TableRef {
    if let TableFactor::NestedJoin { table_with_joins, .. } = &t {
        let inner = lift_table_with_joins((**table_with_joins).clone());
        TableRef::Nested { inner: Box::new(inner), raw: t }
    } else {
        TableRef::Raw(t)
    }
}

/// Reads the alias columns and array expressions of an UNNEST factor.
#[verifier::external_body]
fn lift_factor_unnest(t: TableFactor) -> TableRef {
    if let TableFactor::UNNEST { alias, array_exprs, .. } = &t {
        let cols = alias.as_ref().map(|a| lift_alias_col_vec(a.columns.clone()));
        let exprs = lift_expr_vec(array_exprs.clone());
        TableRef::Unnest { alias_cols: cols, array_exprs: exprs, raw: t }
    } else {
        TableRef::Raw(t)
    }
}

/// Writes the modeled parts back into the carried factor.
fn lower_table_factor(m: TableRef) -> TableFactor {
    match m {
        TableRef::Named { name, raw } => put_factor_name(lower_object_name(name), raw),
        TableRef::Unnest { alias_cols, array_exprs, raw } => {
            let cols = match alias_cols {
                Option::Some(c) => Option::Some(lower_alias_col_vec(c)),
                Option::None => Option::None,
            };
            put_factor_unnest(cols, lower_expr_vec(array_exprs), raw)
        },
        TableRef::Derived { subquery, raw } => put_factor_subquery(lower_query(*subquery), raw),
        TableRef::Nested { inner, raw } => put_factor_nested(lower_table_with_joins(*inner), raw),
        TableRef::Raw(x) => x,
    }
}

/// Writes a relation name back into a named table factor.
#[verifier::external_body]
fn put_factor_name(n: ObjectName, raw: TableFactor) -> TableFactor {
    let mut raw = raw;
    if let TableFactor::Table { name, .. } = &mut raw {
        *name = n;
    }
    raw
}

/// Writes alias columns and array expressions back into an UNNEST factor.
#[verifier::external_body]
fn put_factor_unnest(
    cols: Option<Vec<TableAliasColumnDef>>,
    exprs: Vec<Expr>,
    raw: TableFactor,
) -> TableFactor {
    let mut raw = raw;
    if let TableFactor::UNNEST { alias, array_exprs, .. } = &mut raw {
        if let (Some(c), Some(a)) = (cols, alias.as_mut()) {
            a.columns = c;
        }
        *array_exprs = exprs;
    }
    raw
}

/// Writes a subquery back into a derived table factor.
#[verifier::external_body]
fn put_factor_subquery(q: Query, raw: TableFactor) -> TableFactor {
    let mut raw = raw;
    if let TableFactor::Derived { subquery, .. } = &mut raw {
        *subquery = Box::new(q);
    }
    raw
}

/// Writes the inner tables and joins back into a parenthesized join factor.
#[verifier::external_body]
fn put_factor_nested(x: TableWithJoins, raw: TableFactor) -> TableFactor {
    let mut raw = raw;
    if let TableFactor::NestedJoin { table_with_joins, .. } = &mut raw {
        **table_with_joins = x;
    }
    raw
}

/// Clones the join constraint out of the operator variants the join rule
/// rewrites; the join kind itself stays in the carried node, and CROSS
/// JOIN and STRAIGHT_JOIN constraints stay carried, outside the rule.
#[verifier::external_body]
fn lift_join(j: Join) -> JoinNode {
    let relation = lift_table_factor(j.relation.clone());
    let cond = match &j.join_operator {
        JoinOperator::Join(c) | JoinOperator::Inner(c) | JoinOperator::Left(c)
        | JoinOperator::LeftOuter(c) | JoinOperator::Right(c) | JoinOperator::RightOuter(c)
        | JoinOperator::FullOuter(c) | JoinOperator::Semi(c)
        | JoinOperator::LeftSemi(c) | JoinOperator::RightSemi(c) | JoinOperator::Anti(c)
        | JoinOperator::LeftAnti(c)
        | JoinOperator::RightAnti(c) => Some(lift_join_constraint(c.clone())),
        JoinOperator::AsOf { match_condition, constraint } => Some(
            lift_asof(match_condition.clone(), constraint.clone()),
        ),
        _ => None,
    };
    JoinNode { relation, cond, raw: j }
}

/// Reads an ASOF join's match condition and, when its constraint is an ON
/// predicate, that predicate; the constraint's other shapes stay carried.
#[verifier::external_body]
fn lift_asof(mc: Expr, c: JoinConstraint) -> JoinCond {
    let on = if let JoinConstraint::On(e) = &c {
        Some(lift_expr(e.clone()))
    } else {
        None
    };
    JoinCond::AsOf { match_condition: lift_expr(mc), on, raw: c }
}

/// Writes an ON predicate back into an ASOF join's carried constraint.
#[verifier::external_body]
fn lower_asof_constraint(on: Option<SqlExpr>, raw: JoinConstraint) -> JoinConstraint {
    let mut raw = raw;
    if let (Some(e), JoinConstraint::On(slot)) = (on, &mut raw) {
        *slot = lower_expr(e);
    }
    raw
}

/// Writes the match condition and constraint back into an ASOF join.
#[verifier::external_body]
fn put_join_asof(mc: Expr, c: JoinConstraint, raw: Join) -> Join {
    let mut raw = raw;
    if let JoinOperator::AsOf { match_condition, constraint } = &mut raw.join_operator {
        *match_condition = mc;
        *constraint = c;
    }
    raw
}

/// Writes the relation and constraint back into the carried join.
fn lower_join(m: JoinNode) -> Join {
    let raw = put_join_relation(lower_table_factor(m.relation), m.raw);
    match m.cond {
        Option::Some(JoinCond::AsOf { match_condition, on, raw: craw }) => put_join_asof(
            lower_expr(match_condition),
            lower_asof_constraint(on, craw),
            raw,
        ),
        Option::Some(c) => put_join_constraint(lower_join_constraint(c), raw),
        Option::None => raw,
    }
}

/// Writes the joined table reference back into the carried join.
#[verifier::external_body]
fn put_join_relation(rel: TableFactor, raw: Join) -> Join {
    let mut raw = raw;
    raw.relation = rel;
    raw
}

/// Writes the constraint back into the operator variants the lift reads.
#[verifier::external_body]
fn put_join_constraint(c: JoinConstraint, raw: Join) -> Join {
    let mut raw = raw;
    match &mut raw.join_operator {
        JoinOperator::Join(x) | JoinOperator::Inner(x) | JoinOperator::Left(x)
        | JoinOperator::LeftOuter(x) | JoinOperator::Right(x) | JoinOperator::RightOuter(x)
        | JoinOperator::FullOuter(x) | JoinOperator::Semi(x)
        | JoinOperator::LeftSemi(x) | JoinOperator::RightSemi(x) | JoinOperator::Anti(x)
        | JoinOperator::LeftAnti(x) | JoinOperator::RightAnti(x) => {
            *x = c;
        },
        _ => {},
    }
    raw
}

/// Distinguishes an ON predicate and a USING column list from NATURAL and
/// absent constraints.
#[verifier::external_body]
fn lift_join_constraint(c: JoinConstraint) -> JoinCond {
    match c {
        JoinConstraint::On(e) => JoinCond::On(lift_expr(e)),
        JoinConstraint::Using(v) => JoinCond::Using(lift_object_name_vec(v)),
        other => JoinCond::Raw(other),
    }
}

#[verifier::external_body]
fn lower_join_constraint(c: JoinCond) -> JoinConstraint {
    match c {
        JoinCond::On(e) => JoinConstraint::On(lower_expr(e)),
        JoinCond::Using(v) => JoinConstraint::Using(lower_object_name_vec(v)),
        JoinCond::AsOf { raw, .. } => raw,
        JoinCond::Raw(x) => x,
    }
}

/// Splits a FROM item into its table factor and joins (its two fields).
#[verifier::external_body]
fn lift_table_with_joins(t: TableWithJoins) -> FromItem {
    FromItem { relation: lift_table_factor(t.relation), joins: lift_join_vec(t.joins) }
}

#[verifier::external_body]
fn lower_table_with_joins(f: FromItem) -> TableWithJoins {
    TableWithJoins {
        relation: lower_table_factor(f.relation),
        joins: lower_join_vec(f.joins),
    }
}

/// Reads the expression of one ORDER BY entry; ASC/DESC and the other
/// options stay in the carried node.
#[verifier::external_body]
fn lift_order_entry(e: sqlparser::ast::OrderByExpr) -> OrderEntry {
    OrderEntry { expr: lift_expr(e.expr.clone()), raw: e }
}

#[verifier::external_body]
fn lower_order_entry(m: OrderEntry) -> sqlparser::ast::OrderByExpr {
    let mut raw = m.raw;
    raw.expr = lower_expr(m.expr);
    raw
}

/// Distinguishes an explicit ORDER BY expression list from `ORDER BY ALL`;
/// the INTERPOLATE clause stays in the carried node.
#[verifier::external_body]
fn lift_order_by(o: sqlparser::ast::OrderBy) -> OrderByKind {
    match &o.kind {
        sqlparser::ast::OrderByKind::Expressions(es) => {
            let entries = lift_order_entry_vec(es.clone());
            OrderByKind::Exprs { entries, raw: o }
        },
        _ => OrderByKind::Raw(o),
    }
}

#[verifier::external_body]
fn lower_order_by(m: OrderByKind) -> sqlparser::ast::OrderBy {
    match m {
        OrderByKind::Exprs { entries, raw } => {
            let mut raw = raw;
            raw.kind = sqlparser::ast::OrderByKind::Expressions(lower_order_entry_vec(entries));
            raw
        },
        OrderByKind::Raw(x) => x,
    }
}

/// Reads the operands of either LIMIT clause form; both forms are fully
/// covered, so nothing else is carried.
#[verifier::external_body]
fn lift_limit(l: LimitClause) -> LimitKind {
    match l {
        LimitClause::LimitOffset { limit, offset, limit_by } => {
            LimitKind::LimitOffset {
                limit: limit.map(|e| lift_expr(e)),
                offset: offset.map(|o| lift_offset(o)),
                limit_by: lift_expr_vec(limit_by),
            }
        },
        LimitClause::OffsetCommaLimit { offset, limit } => {
            LimitKind::OffsetCommaLimit { offset: lift_expr(offset), limit: lift_expr(limit) }
        },
    }
}

#[verifier::external_body]
fn lower_limit(m: LimitKind) -> LimitClause {
    match m {
        LimitKind::LimitOffset { limit, offset, limit_by } => LimitClause::LimitOffset {
            limit: limit.map(|e| lower_expr(e)),
            offset: offset.map(|o| lower_offset(o)),
            limit_by: lower_expr_vec(limit_by),
        },
        LimitKind::OffsetCommaLimit { offset, limit } => LimitClause::OffsetCommaLimit {
            offset: lower_expr(offset),
            limit: lower_expr(limit),
        },
    }
}

/// Reads the value of an OFFSET; the ROW/ROWS keyword stays in the
/// carried node.
#[verifier::external_body]
fn lift_offset(o: Offset) -> OffsetNode {
    OffsetNode { value: lift_expr(o.value.clone()), raw: o }
}

#[verifier::external_body]
fn lower_offset(m: OffsetNode) -> Offset {
    let mut raw = m.raw;
    raw.value = lower_expr(m.value);
    raw
}

/// Reads the SELECT clauses that survive normalization: PREWHERE, CLUSTER
/// BY, DISTRIBUTE BY, SORT BY, HAVING and QUALIFY.
#[verifier::external_body]
fn lift_select_walk(s: &Select) -> SelectWalk {
    SelectWalk {
        prewhere: s.prewhere.clone().map(lift_expr),
        cluster_by: lift_expr_vec(s.cluster_by.clone()),
        distribute_by: lift_expr_vec(s.distribute_by.clone()),
        sort_by: lift_order_entry_vec(s.sort_by.clone()),
        having: s.having.clone().map(lift_expr),
        qualify: s.qualify.clone().map(lift_expr),
    }
}

/// Writes the surviving SELECT clauses back into the carried node.
#[verifier::external_body]
fn put_select_walk(w: SelectWalk, raw: Select) -> Select {
    let mut raw = raw;
    raw.prewhere = w.prewhere.map(lower_expr);
    raw.cluster_by = lower_expr_vec(w.cluster_by);
    raw.distribute_by = lower_expr_vec(w.distribute_by);
    raw.sort_by = lower_order_entry_vec(w.sort_by);
    raw.having = w.having.map(lower_expr);
    raw.qualify = w.qualify.map(lower_expr);
    raw
}

/// Reads the fields of a SELECT that the rule set rewrites; the remaining
/// clauses stay in the carried node.
#[verifier::external_body]
fn lift_select(s: Select) -> SelectNode {
    let projection = lift_select_item_vec(s.projection.clone());
    let distinct = s.distinct.clone().map(|d| lift_distinct(d));
    let from = lift_table_with_joins_vec(s.from.clone());
    let selection = s.selection.clone().map(|e| lift_expr(e));
    let group_by = lift_group_by(s.group_by.clone());
    let walk = lift_select_walk(&s);
    SelectNode { projection, distinct, from, selection, group_by, walk, raw: s }
}

#[verifier::external_body]
fn lower_select(m: SelectNode) -> Select {
    let mut raw = put_select_walk(m.walk, m.raw);
    raw.projection = lower_select_item_vec(m.projection);
    raw.distinct = m.distinct.map(|d| lower_distinct(d));
    raw.from = lower_table_with_joins_vec(m.from);
    raw.selection = m.selection.map(|e| lower_expr(e));
    raw.group_by = lower_group_by(m.group_by);
    raw
}

/// Splits a query body by kind: SELECT, set operation, parenthesized
/// query, VALUES rows, or opaque.
#[verifier::external_body]
fn lift_set_expr(e: SetExpr) -> SetExprNode {
    match e {
        SetExpr::Select(s) => SetExprNode::Select(Box::new(lift_select(*s))),
        SetExpr::Query(q) => SetExprNode::Nested(Box::new(lift_query(*q))),
        SetExpr::SetOperation { left, op, set_quantifier, right } => {
            let raw = empty_set_operation(op, set_quantifier);
            lift_set_operation(*left, *right, raw)
        },
        SetExpr::Values(v) => lift_values(v),
        other => SetExprNode::Raw(other),
    }
}

/// A set operation with empty operands; it carries the operator and its
/// quantifier while the real operands live in the modeled node.
#[verifier::external_body]
fn empty_set_operation(
    op: sqlparser::ast::SetOperator,
    set_quantifier: sqlparser::ast::SetQuantifier,
) -> SetExpr {
    let empty = Values { explicit_row: false, value_keyword: false, rows: vec![] };
    SetExpr::SetOperation {
        left: Box::new(SetExpr::Values(empty.clone())),
        op,
        set_quantifier,
        right: Box::new(SetExpr::Values(empty)),
    }
}

/// Lifts both operands of a set operation.
#[verifier::external_body]
fn lift_set_operation(l: SetExpr, r: SetExpr, raw: SetExpr) -> SetExprNode {
    SetExprNode::SetOp {
        left: Box::new(lift_set_expr(l)),
        right: Box::new(lift_set_expr(r)),
        raw,
    }
}

/// Reads the rows of a VALUES body.
#[verifier::external_body]
fn lift_values(v: Values) -> SetExprNode {
    let mut rows: Vec<Vec<SqlExpr>> = Vec::new();
    for p in &v.rows {
        rows.push(lift_expr_vec(p.content.clone()));
    }
    SetExprNode::Values { rows, raw: v }
}

/// Rebuilds a query body for rendering.
#[verifier::external_body]
fn lower_set_expr(m: SetExprNode) -> SetExpr {
    match m {
        SetExprNode::Select(s) => SetExpr::Select(Box::new(lower_select(*s))),
        SetExprNode::SetOp { left, right, raw } => {
            put_set_operands(lower_set_expr(*left), lower_set_expr(*right), raw)
        },
        SetExprNode::Nested(q) => SetExpr::Query(Box::new(lower_query(*q))),
        SetExprNode::Values { rows, raw } => lower_values(rows, raw),
        SetExprNode::Raw(x) => x,
    }
}

/// Writes the operands back into the carried set operation.
#[verifier::external_body]
fn put_set_operands(l: SetExpr, r: SetExpr, raw: SetExpr) -> SetExpr {
    let mut raw = raw;
    if let SetExpr::SetOperation { left, right, .. } = &mut raw {
        *left = Box::new(l);
        *right = Box::new(r);
    }
    raw
}

/// Writes the rows back into the carried VALUES body.
#[verifier::external_body]
fn lower_values(rows: Vec<Vec<SqlExpr>>, raw: Values) -> SetExpr {
    let mut raw = raw;
    raw.rows = rows.into_iter().map(|r| Parens::with_empty_span(lower_expr_vec(r))).collect();
    SetExpr::Values(raw)
}

/// Reads the query of one common table expression; its alias stays in the
/// carried node.
#[verifier::external_body]
fn lift_cte(c: Cte) -> CteNode {
    let q = lift_query((*c.query).clone());
    CteNode { query: Box::new(q), raw: c }
}

#[verifier::external_body]
fn lower_cte(m: CteNode) -> Cte {
    let mut raw = m.raw;
    raw.query = Box::new(lower_query(*m.query));
    raw
}

/// Reads the table list of a WITH clause; the RECURSIVE flag stays in the
/// carried node.
#[verifier::external_body]
fn lift_with(w: With) -> WithNode {
    WithNode { ctes: lift_cte_vec(w.cte_tables.clone()), raw: w }
}

#[verifier::external_body]
fn lower_with(m: WithNode) -> With {
    let mut raw = m.raw;
    raw.cte_tables = lower_cte_vec(m.ctes);
    raw
}

/// Reads the four query clauses the rule set rewrites; FETCH, locks and
/// the other clauses stay in the carried node.
#[verifier::external_body]
fn lift_query(q: Query) -> QueryNode {
    let with = q.with.clone().map(|w| lift_with(w));
    let body = Box::new(lift_set_expr((*q.body).clone()));
    let order_by = q.order_by.clone().map(|o| lift_order_by(o));
    let limit = q.limit_clause.clone().map(|l| lift_limit(l));
    QueryNode { with, body, order_by, limit, raw: q }
}

#[verifier::external_body]
fn lower_query(m: QueryNode) -> Query {
    let mut raw = m.raw;
    raw.with = m.with.map(|w| lower_with(w));
    raw.body = Box::new(lower_set_expr(*m.body));
    raw.order_by = m.order_by.map(|o| lower_order_by(o));
    raw.limit_clause = m.limit.map(|l| lower_limit(l));
    raw
}

/// Reads the name list and cursor query of one DECLARE; the cursor
/// options stay in the carried node.
#[verifier::external_body]
fn lift_declare(d: Declare) -> DeclareItem {
    let names = lift_ident_vec(d.names.clone());
    let for_query = d.for_query.clone().map(|q| Box::new(lift_query(*q)));
    DeclareItem { names, for_query, raw: d }
}

#[verifier::external_body]
fn lower_declare(m: DeclareItem) -> Declare {
    let mut raw = m.raw;
    raw.names = lower_ident_vec(m.names);
    raw.for_query = m.for_query.map(|q| Box::new(lower_query(*q)));
    raw
}

/// Distinguishes an INSERT target given by name from the other forms.
#[verifier::external_body]
fn lift_table_object(t: TableObject) -> InsertTarget {
    match t {
        TableObject::TableName(n) => InsertTarget::Named(lift_object_name(n)),
        other => InsertTarget::Raw(other),
    }
}

#[verifier::external_body]
fn lower_table_object(t: InsertTarget) -> TableObject {
    match t {
        InsertTarget::Named(n) => TableObject::TableName(lower_object_name(n)),
        InsertTarget::Raw(x) => x,
    }
}

/// Distinguishes an explicit column-list conflict target from a named
/// constraint.
#[verifier::external_body]
fn lift_conflict_target(t: ConflictTarget) -> ConflictTargetKind {
    match t {
        ConflictTarget::Columns(cols) => ConflictTargetKind::Columns(
            lift_ident_vec(cols),
        ),
        other => ConflictTargetKind::Raw(other),
    }
}

#[verifier::external_body]
fn lower_conflict_target(t: ConflictTargetKind) -> ConflictTarget {
    match t {
        ConflictTargetKind::Columns(cols) => ConflictTarget::Columns(
            lower_ident_vec(cols),
        ),
        ConflictTargetKind::Raw(x) => x,
    }
}

/// Reads the assignments and WHERE predicate of a DO-UPDATE action.
#[verifier::external_body]
fn lift_conflict_action(a: OnConflictAction) -> ConflictAction {
    match a {
        OnConflictAction::DoUpdate(du) => ConflictAction::DoUpdate {
            assignments: lift_assignment_vec(du.assignments),
            selection: du.selection.map(|e| lift_expr(e)),
        },
        other => ConflictAction::Raw(other),
    }
}

#[verifier::external_body]
fn lower_conflict_action(a: ConflictAction) -> OnConflictAction {
    match a {
        ConflictAction::DoUpdate { assignments, selection } => {
            OnConflictAction::DoUpdate(DoUpdate {
                assignments: lower_assignment_vec(assignments),
                selection: selection.map(|e| lower_expr(e)),
            })
        },
        ConflictAction::Raw(x) => x,
    }
}

/// Distinguishes an ON CONFLICT clause from ON DUPLICATE KEY UPDATE.
#[verifier::external_body]
fn lift_on_insert(o: OnInsert) -> OnInsertKind {
    match o {
        OnInsert::OnConflict(oc) => OnInsertKind::Conflict {
            target: oc.conflict_target.map(|t| lift_conflict_target(t)),
            action: lift_conflict_action(oc.action),
        },
        other => OnInsertKind::Raw(other),
    }
}

#[verifier::external_body]
fn lower_on_insert(o: OnInsertKind) -> OnInsert {
    match o {
        OnInsertKind::Conflict { target, action } => OnInsert::OnConflict(
            OnConflict {
                conflict_target: target.map(|t| lower_conflict_target(t)),
                action: lower_conflict_action(action),
            },
        ),
        OnInsertKind::Raw(x) => x,
    }
}

/// Reads the INSERT fields the rule set rewrites or walks; the many
/// remaining fields stay in the carried node.
#[verifier::external_body]
fn lift_insert(i: Insert) -> InsertNode {
    let table = lift_table_object(i.table.clone());
    let columns = lift_object_name_vec(i.columns.clone());
    let source = i.source.clone().map(|q| Box::new(lift_query(*q)));
    let assignments = lift_assignment_vec(i.assignments.clone());
    let on = i.on.clone().map(|o| lift_on_insert(o));
    let returning = i.returning.clone().map(|r| lift_select_item_vec(r));
    InsertNode { table, columns, source, assignments, on, returning, raw: i }
}

#[verifier::external_body]
fn lower_insert(m: InsertNode) -> Insert {
    let mut raw = m.raw;
    raw.table = lower_table_object(m.table);
    raw.columns = lower_object_name_vec(m.columns);
    raw.source = m.source.map(|q| Box::new(lower_query(*q)));
    raw.assignments = lower_assignment_vec(m.assignments);
    raw.on = m.on.map(|o| lower_on_insert(o));
    raw.returning = m.returning.map(|r| lower_select_item_vec(r));
    raw
}

/// Distinguishes an UPDATE's FROM clause by its position around SET.
#[verifier::external_body]
fn lift_update_from(f: UpdateTableFromKind) -> UpdateFromKind {
    match f {
        UpdateTableFromKind::BeforeSet(v) => UpdateFromKind::BeforeSet(
            lift_table_with_joins_vec(v),
        ),
        UpdateTableFromKind::AfterSet(v) => UpdateFromKind::AfterSet(
            lift_table_with_joins_vec(v),
        ),
    }
}

#[verifier::external_body]
fn lower_update_from(f: UpdateFromKind) -> UpdateTableFromKind {
    match f {
        UpdateFromKind::BeforeSet(v) => UpdateTableFromKind::BeforeSet(
            lower_table_with_joins_vec(v),
        ),
        UpdateFromKind::AfterSet(v) => UpdateTableFromKind::AfterSet(
            lower_table_with_joins_vec(v),
        ),
    }
}

/// Reads the UPDATE fields the rule set rewrites or walks.
#[verifier::external_body]
fn lift_update(u: Update) -> UpdateNode {
    let table = lift_table_with_joins(u.table.clone());
    let assignments = lift_assignment_vec(u.assignments.clone());
    let from = u.from.clone().map(lift_update_from);
    let selection = u.selection.clone().map(|e| lift_expr(e));
    let returning = u.returning.clone().map(|r| lift_select_item_vec(r));
    let order_by = lift_order_entry_vec(u.order_by.clone());
    UpdateNode { table, assignments, from, selection, returning, order_by, raw: u }
}

#[verifier::external_body]
fn lower_update(m: UpdateNode) -> Update {
    let mut raw = m.raw;
    raw.table = lower_table_with_joins(m.table);
    raw.assignments = lower_assignment_vec(m.assignments);
    raw.from = m.from.map(lower_update_from);
    raw.selection = m.selection.map(|e| lower_expr(e));
    raw.returning = m.returning.map(|r| lower_select_item_vec(r));
    raw.order_by = lower_order_entry_vec(m.order_by);
    raw
}

/// Reads the DELETE fields the rule set rewrites or walks.
#[verifier::external_body]
fn lift_delete(d: Delete) -> DeleteNode {
    let tables = lift_object_name_vec(d.tables.clone());
    let from = match d.from.clone() {
        FromTable::WithFromKeyword(v) => DeleteFrom::WithKeyword(
            lift_table_with_joins_vec(v),
        ),
        FromTable::WithoutKeyword(v) => DeleteFrom::WithoutKeyword(
            lift_table_with_joins_vec(v),
        ),
    };
    let using = d.using.clone().map(lift_table_with_joins_vec);
    let selection = d.selection.clone().map(|e| lift_expr(e));
    let returning = d.returning.clone().map(|r| lift_select_item_vec(r));
    DeleteNode { tables, from, using, selection, returning, raw: d }
}

#[verifier::external_body]
fn lower_delete(m: DeleteNode) -> Delete {
    let mut raw = m.raw;
    raw.tables = lower_object_name_vec(m.tables);
    raw.from = match m.from {
        DeleteFrom::WithKeyword(v) => FromTable::WithFromKeyword(
            lower_table_with_joins_vec(v),
        ),
        DeleteFrom::WithoutKeyword(v) => FromTable::WithoutKeyword(
            lower_table_with_joins_vec(v),
        ),
    };
    raw.using = m.using.map(lower_table_with_joins_vec);
    raw.selection = m.selection.map(|e| lower_expr(e));
    raw.returning = m.returning.map(|r| lower_select_item_vec(r));
    raw
}

/// Dispatches one statement by the kinds the rule set recognizes; the
/// savepoint family is read by `lift_statement_rest`, and every other
/// statement stays opaque.
#[verifier::external_body]
fn lift_statement(s: Statement) -> StmtNode {
    match s {
        Statement::Insert(i) => StmtNode::Insert(lift_insert(i)),
        Statement::Update(u) => StmtNode::Update(lift_update(u)),
        Statement::Delete(d) => StmtNode::Delete(lift_delete(d)),
        Statement::Query(q) => StmtNode::Query(Box::new(lift_query(*q))),
        Statement::Explain { .. } => lift_explain(s),
        Statement::CreateView(_) => lift_create_view(s),
        Statement::CreateTable(_) => lift_create_table(s),
        other => lift_statement_rest(other),
    }
}

/// Reads the savepoint family and DECLARE; every other statement stays
/// opaque.
#[verifier::external_body]
fn lift_statement_rest(s: Statement) -> StmtNode {
    match s {
        Statement::Savepoint { name } => StmtNode::Savepoint { name: lift_ident(name) },
        Statement::ReleaseSavepoint { name } => StmtNode::Release { name: lift_ident(name) },
        Statement::Rollback { chain, savepoint } => lift_rollback(chain, savepoint),
        Statement::Declare { stmts } => StmtNode::Declare { items: lift_declare_vec(stmts) },
        other => StmtNode::Raw(other),
    }
}

/// Reads the inner statement of an EXPLAIN; its flags, format and options
/// stay in the carried node.
#[verifier::external_body]
fn lift_explain(s: Statement) -> StmtNode {
    if let Statement::Explain { statement, .. } = &s {
        let inner = lift_statement((**statement).clone());
        StmtNode::Explain { inner: Box::new(inner), raw: s }
    } else {
        StmtNode::Raw(s)
    }
}

/// Writes the explained statement back into the carried EXPLAIN.
#[verifier::external_body]
fn put_explain(inner: Statement, raw: Statement) -> Statement {
    let mut raw = raw;
    if let Statement::Explain { statement, .. } = &mut raw {
        **statement = inner;
    }
    raw
}

/// Reads the name and defining query of a CREATE VIEW; the modifiers and
/// options stay in the carried node.
#[verifier::external_body]
fn lift_create_view(s: Statement) -> StmtNode {
    if let Statement::CreateView(cv) = &s {
        let name = lift_object_name(cv.name.clone());
        let query = Box::new(lift_query((*cv.query).clone()));
        StmtNode::CreateView { name, query, raw: s }
    } else {
        StmtNode::Raw(s)
    }
}

/// Lowers the name and defining query of a CREATE VIEW and writes them
/// back into the carried node.
#[verifier::external_body]
fn lower_create_view(name: RelName, q: QueryNode, raw: Statement) -> Statement {
    let mut raw = raw;
    if let Statement::CreateView(cv) = &mut raw {
        cv.name = lower_object_name(name);
        cv.query = Box::new(lower_query(q));
    }
    raw
}

/// Reads the name and optional AS query of a CREATE TABLE; the column
/// definitions and the many options stay in the carried node.
#[verifier::external_body]
fn lift_create_table(s: Statement) -> StmtNode {
    if let Statement::CreateTable(ct) = &s {
        let name = lift_object_name(ct.name.clone());
        let query = ct.query.clone().map(|q| Box::new(lift_query(*q)));
        StmtNode::CreateTable { name, query, raw: s }
    } else {
        StmtNode::Raw(s)
    }
}

/// Lowers the name and AS query of a CREATE TABLE and writes them back
/// into the carried node.
#[verifier::external_body]
fn lower_create_table(name: RelName, q: Option<Box<QueryNode>>, raw: Statement) -> Statement {
    let mut raw = raw;
    if let Statement::CreateTable(ct) = &mut raw {
        ct.name = lower_object_name(name);
        if let Some(q) = q {
            ct.query = Some(Box::new(lower_query(*q)));
        }
    }
    raw
}

/// Reads the optional savepoint name of a ROLLBACK.
#[verifier::external_body]
fn lift_rollback(chain: bool, savepoint: Option<Ident>) -> StmtNode {
    StmtNode::Rollback { chain, name: savepoint.map(|n| lift_ident(n)) }
}

#[verifier::external_body]
fn lower_statement(m: StmtNode) -> Statement {
    match m {
        StmtNode::Insert(i) => Statement::Insert(lower_insert(i)),
        StmtNode::Update(u) => Statement::Update(lower_update(u)),
        StmtNode::Delete(d) => Statement::Delete(lower_delete(d)),
        StmtNode::Query(q) => Statement::Query(Box::new(lower_query(*q))),
        StmtNode::Explain { inner, raw } => put_explain(lower_statement(*inner), raw),
        StmtNode::CreateView { name, query, raw } => lower_create_view(name, *query, raw),
        StmtNode::CreateTable { name, query, raw } => lower_create_table(name, query, raw),
        other => lower_statement_rest(other),
    }
}

/// Rebuilds the savepoint family and DECLARE; an opaque statement passes
/// through.
#[verifier::external_body]
fn lower_statement_rest(m: StmtNode) -> Statement {
    match m {
        StmtNode::Savepoint { name } => Statement::Savepoint { name: lower_ident(name) },
        StmtNode::Release { name } => Statement::ReleaseSavepoint { name: lower_ident(name) },
        StmtNode::Rollback { chain, name } => lower_rollback(chain, name),
        StmtNode::Declare { items } => Statement::Declare { stmts: lower_declare_vec(items) },
        StmtNode::Raw(x) => x,
        other => lower_statement(other),
    }
}

/// Rebuilds a ROLLBACK with its optional savepoint name.
#[verifier::external_body]
fn lower_rollback(chain: bool, name: Option<SqlIdent>) -> Statement {
    Statement::Rollback { chain, savepoint: name.map(|n| lower_ident(n)) }
}

// ---------------------------------------------------------------------
// List conversions: verified loops over the per-node functions above.

fn lift_ident_vec(v: Vec<Ident>) -> Vec<SqlIdent> {
    let mut v = v;
    let mut out: Vec<SqlIdent> = Vec::new();
    while v.len() > 0
        decreases v@.len(),
    {
        let x = v.remove(0);
        out.push(lift_ident(x));
    }
    out
}

fn lower_ident_vec(v: Vec<SqlIdent>) -> Vec<Ident> {
    let mut v = v;
    let mut out: Vec<Ident> = Vec::new();
    while v.len() > 0
        decreases v@.len(),
    {
        let x = v.remove(0);
        out.push(lower_ident(x));
    }
    out
}

fn lift_name_parts(v: Vec<ObjectNamePart>) -> Vec<NamePart> {
    let mut v = v;
    let mut out: Vec<NamePart> = Vec::new();
    while v.len() > 0
        decreases v@.len(),
    {
        let x = v.remove(0);
        out.push(lift_name_part(x));
    }
    out
}

fn lower_name_parts(v: Vec<NamePart>) -> Vec<ObjectNamePart> {
    let mut v = v;
    let mut out: Vec<ObjectNamePart> = Vec::new();
    while v.len() > 0
        decreases v@.len(),
    {
        let x = v.remove(0);
        out.push(lower_name_part(x));
    }
    out
}

fn lift_expr_vec(v: Vec<Expr>) -> Vec<SqlExpr> {
    let mut v = v;
    let mut out: Vec<SqlExpr> = Vec::new();
    while v.len() > 0
        decreases v@.len(),
    {
        let x = v.remove(0);
        out.push(lift_expr(x));
    }
    out
}

fn lower_expr_vec(v: Vec<SqlExpr>) -> Vec<Expr> {
    let mut v = v;
    let mut out: Vec<Expr> = Vec::new();
    while v.len() > 0
        decreases v@.len(),
    {
        let x = v.remove(0);
        out.push(lower_expr(x));
    }
    out
}

fn lift_select_item_vec(v: Vec<SelectItem>) -> Vec<ProjItem> {
    let mut v = v;
    let mut out: Vec<ProjItem> = Vec::new();
    while v.len() > 0
        decreases v@.len(),
    {
        let x = v.remove(0);
        out.push(lift_select_item(x));
    }
    out
}

fn lower_select_item_vec(v: Vec<ProjItem>) -> Vec<SelectItem> {
    let mut v = v;
    let mut out: Vec<SelectItem> = Vec::new();
    while v.len() > 0
        decreases v@.len(),
    {
        let x = v.remove(0);
        out.push(lower_select_item(x));
    }
    out
}

fn lift_assignment_vec(v: Vec<Assignment>) -> Vec<AssignItem> {
    let mut v = v;
    let mut out: Vec<AssignItem> = Vec::new();
    while v.len() > 0
        decreases v@.len(),
    {
        let x = v.remove(0);
        out.push(lift_assignment(x));
    }
    out
}

fn lower_assignment_vec(v: Vec<AssignItem>) -> Vec<Assignment> {
    let mut v = v;
    let mut out: Vec<Assignment> = Vec::new();
    while v.len() > 0
        decreases v@.len(),
    {
        let x = v.remove(0);
        out.push(lower_assign_item(x));
    }
    out
}

fn lift_func_arg_vec(v: Vec<FunctionArg>) -> Vec<FuncArg> {
    let mut v = v;
    let mut out: Vec<FuncArg> = Vec::new();
    while v.len() > 0
        decreases v@.len(),
    {
        let x = v.remove(0);
        out.push(lift_func_arg(x));
    }
    out
}

fn lower_func_arg_vec(v: Vec<FuncArg>) -> Vec<FunctionArg> {
    let mut v = v;
    let mut out: Vec<FunctionArg> = Vec::new();
    while v.len() > 0
        decreases v@.len(),
    {
        let x = v.remove(0);
        out.push(lower_func_arg(x));
    }
    out
}

fn lift_alias_col_vec(v: Vec<TableAliasColumnDef>) -> Vec<AliasCol> {
    let mut v = v;
    let mut out: Vec<AliasCol> = Vec::new();
    while v.len() > 0
        decreases v@.len(),
    {
        let x = v.remove(0);
        out.push(AliasCol::Raw(x));
    }
    out
}

fn lower_alias_col_vec(v: Vec<AliasCol>) -> Vec<TableAliasColumnDef> {
    let mut v = v;
    let mut out: Vec<TableAliasColumnDef> = Vec::new();
    while v.len() > 0
        decreases v@.len(),
    {
        let x = v.remove(0);
        out.push(lower_alias_col(x));
    }
    out
}

fn lift_table_with_joins_vec(v: Vec<TableWithJoins>) -> Vec<FromItem> {
    let mut v = v;
    let mut out: Vec<FromItem> = Vec::new();
    while v.len() > 0
        decreases v@.len(),
    {
        let x = v.remove(0);
        out.push(lift_table_with_joins(x));
    }
    out
}

fn lower_table_with_joins_vec(v: Vec<FromItem>) -> Vec<TableWithJoins> {
    let mut v = v;
    let mut out: Vec<TableWithJoins> = Vec::new();
    while v.len() > 0
        decreases v@.len(),
    {
        let x = v.remove(0);
        out.push(lower_table_with_joins(x));
    }
    out
}

fn lift_join_vec(v: Vec<Join>) -> Vec<JoinNode> {
    let mut v = v;
    let mut out: Vec<JoinNode> = Vec::new();
    while v.len() > 0
        decreases v@.len(),
    {
        let x = v.remove(0);
        out.push(lift_join(x));
    }
    out
}

fn lower_join_vec(v: Vec<JoinNode>) -> Vec<Join> {
    let mut v = v;
    let mut out: Vec<Join> = Vec::new();
    while v.len() > 0
        decreases v@.len(),
    {
        let x = v.remove(0);
        out.push(lower_join(x));
    }
    out
}

fn lift_cte_vec(v: Vec<Cte>) -> Vec<CteNode> {
    let mut v = v;
    let mut out: Vec<CteNode> = Vec::new();
    while v.len() > 0
        decreases v@.len(),
    {
        let x = v.remove(0);
        out.push(lift_cte(x));
    }
    out
}

fn lower_cte_vec(v: Vec<CteNode>) -> Vec<Cte> {
    let mut v = v;
    let mut out: Vec<Cte> = Vec::new();
    while v.len() > 0
        decreases v@.len(),
    {
        let x = v.remove(0);
        out.push(lower_cte(x));
    }
    out
}

fn lift_order_entry_vec(v: Vec<sqlparser::ast::OrderByExpr>) -> Vec<OrderEntry> {
    let mut v = v;
    let mut out: Vec<OrderEntry> = Vec::new();
    while v.len() > 0
        decreases v@.len(),
    {
        let x = v.remove(0);
        out.push(lift_order_entry(x));
    }
    out
}

fn lower_order_entry_vec(v: Vec<OrderEntry>) -> Vec<sqlparser::ast::OrderByExpr> {
    let mut v = v;
    let mut out: Vec<sqlparser::ast::OrderByExpr> = Vec::new();
    while v.len() > 0
        decreases v@.len(),
    {
        let x = v.remove(0);
        out.push(lower_order_entry(x));
    }
    out
}

fn lift_object_name_vec(v: Vec<ObjectName>) -> Vec<RelName> {
    let mut v = v;
    let mut out: Vec<RelName> = Vec::new();
    while v.len() > 0
        decreases v@.len(),
    {
        let x = v.remove(0);
        out.push(lift_object_name(x));
    }
    out
}

fn lower_object_name_vec(v: Vec<RelName>) -> Vec<ObjectName> {
    let mut v = v;
    let mut out: Vec<ObjectName> = Vec::new();
    while v.len() > 0
        decreases v@.len(),
    {
        let x = v.remove(0);
        out.push(lower_object_name(x));
    }
    out
}

fn lift_declare_vec(v: Vec<Declare>) -> Vec<DeclareItem> {
    let mut v = v;
    let mut out: Vec<DeclareItem> = Vec::new();
    while v.len() > 0
        decreases v@.len(),
    {
        let x = v.remove(0);
        out.push(lift_declare(x));
    }
    out
}

fn lower_declare_vec(v: Vec<DeclareItem>) -> Vec<Declare> {
    let mut v = v;
    let mut out: Vec<Declare> = Vec::new();
    while v.len() > 0
        decreases v@.len(),
    {
        let x = v.remove(0);
        out.push(lower_declare(x));
    }
    out
}

} // verus!
