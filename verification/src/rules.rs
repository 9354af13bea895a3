//! The normalization rules, stated over the spec-level tree. Each function
//! says what one node becomes: value-bearing subtrees collapse to the
//! placeholder, savepoint names are rewritten through the alias table, and
//! identifiers made only of word characters lose their quoting marker.
//! Shapes the rules do not recognize pass through unchanged.

use vstd::prelude::*;

use crate::alias::{spec_assign, spec_lookup, SpecAliasTable};
use crate::chars::word;
use crate::tree::{
    spec_dots_ident, SpecAliasCol, SpecAssignItem, SpecConflictAction, SpecConflictTargetKind,
    SpecCteNode, SpecDeclareItem, SpecDeleteFrom, SpecDeleteNode, SpecDistinctKind, SpecExpr,
    SpecFromItem, SpecGroupByKind, SpecIdent, SpecInsertNode, SpecInsertTarget, SpecJoinCond,
    SpecJoinNode, SpecLimitKind, SpecNamePart, SpecOffsetNode, SpecOnInsertKind, SpecOrderByKind,
    SpecOrderEntry, SpecProjItem, SpecQueryNode, SpecRelName, SpecSelectNode, SpecSetExprNode,
    SpecStmtNode, SpecUpdateNode, SpecWithNode,
};

verus! {

/// Remove the quoting marker of an identifier made only of word
/// characters; leave any other identifier as written.
pub open spec fn norm_ident(i: SpecIdent) -> SpecIdent {
    if word(i.value) {
        SpecIdent { value: i.value, quote: Option::None }
    } else {
        i
    }
}

pub open spec fn norm_name_part(p: SpecNamePart) -> SpecNamePart {
    match p {
        SpecNamePart::Ident(i) => SpecNamePart::Ident(norm_ident(i)),
        SpecNamePart::Raw(r) => SpecNamePart::Raw(r),
    }
}

/// Identifier normalization over a qualified name, part by part.
pub open spec fn norm_rel_name(n: SpecRelName) -> SpecRelName {
    SpecRelName { parts: n.parts.map_values(|p: SpecNamePart| norm_name_part(p)) }
}

/// Identifier normalization over an expression: bare and compound
/// identifier references are unquoted, also inside binary and unary
/// operations and parentheses; the operators and any opaque subexpression
/// are untouched.
pub open spec fn norm_expr(e: SpecExpr) -> SpecExpr
    decreases e,
{
    match e {
        SpecExpr::Ident(i) => SpecExpr::Ident(norm_ident(i)),
        SpecExpr::Compound(v) => SpecExpr::Compound(v.map_values(|i: SpecIdent| norm_ident(i))),
        SpecExpr::Binary { left, op, right } => SpecExpr::Binary {
            left: Box::new(norm_expr(*left)),
            op,
            right: Box::new(norm_expr(*right)),
        },
        SpecExpr::Unary { op, expr } => SpecExpr::Unary { op, expr: Box::new(norm_expr(*expr)) },
        SpecExpr::Nested(x) => SpecExpr::Nested(Box::new(norm_expr(*x))),
        SpecExpr::Func { name, args, raw } => SpecExpr::Func {
            name: norm_rel_name(name),
            args: norm_func_args(args, 0),
            raw,
        },
        SpecExpr::Wrapped { expr, raw } => SpecExpr::Wrapped {
            expr: Box::new(norm_expr(*expr)),
            raw,
        },
        SpecExpr::Placeholder => SpecExpr::Placeholder,
        SpecExpr::Raw(r) => SpecExpr::Raw(r),
    }
}

/// One function argument: its expression or qualified wildcard has its
/// identifiers normalized; its name and operator are untouched.
pub open spec fn norm_func_arg(a: crate::tree::SpecFuncArg) -> crate::tree::SpecFuncArg
    decreases a,
{
    match a {
        crate::tree::SpecFuncArg::ExprArg { expr, raw } => crate::tree::SpecFuncArg::ExprArg {
            expr: norm_expr(expr),
            raw,
        },
        crate::tree::SpecFuncArg::WildcardArg { name, raw } => crate::tree::SpecFuncArg::WildcardArg {
            name: norm_rel_name(name),
            raw,
        },
        crate::tree::SpecFuncArg::Raw(x) => crate::tree::SpecFuncArg::Raw(x),
    }
}

pub open spec fn norm_func_args(s: Seq<crate::tree::SpecFuncArg>, i: int) -> Seq<
    crate::tree::SpecFuncArg,
>
    decreases s, s.len() - i,
{
    if i < 0 || i >= s.len() {
        Seq::empty()
    } else {
        seq![norm_func_arg(s[i])] + norm_func_args(s, i + 1)
    }
}

pub proof fn lemma_norm_func_args_index(s: Seq<crate::tree::SpecFuncArg>, i: int)
    requires
        0 <= i <= s.len(),
    ensures
        norm_func_args(s, i).len() == s.len() - i,
        forall|j: int|
            0 <= j < s.len() - i ==> norm_func_args(s, i)[j] == norm_func_arg(s[i + j]),
    decreases s.len() - i,
{
    if i < s.len() {
        lemma_norm_func_args_index(s, i + 1);
    }
}

/// The ORDER BY rule: a non-empty expression list keeps only its first
/// entry, whose expression becomes the placeholder and whose modifiers
/// are preserved.
pub open spec fn norm_order_by(o: SpecOrderByKind) -> SpecOrderByKind {
    match o {
        SpecOrderByKind::Exprs { entries, raw } => {
            if entries.len() > 0 {
                SpecOrderByKind::Exprs {
                    entries: seq![
                        SpecOrderEntry { expr: SpecExpr::Placeholder, raw: entries[0].raw },
                    ],
                    raw,
                }
            } else {
                SpecOrderByKind::Exprs { entries, raw }
            }
        },
        SpecOrderByKind::Raw(r) => SpecOrderByKind::Raw(r),
    }
}

/// The LIMIT/OFFSET rule: each present operand becomes the placeholder;
/// which parts are present, and in which syntactic form, is preserved.
pub open spec fn norm_limit(l: SpecLimitKind) -> SpecLimitKind {
    match l {
        SpecLimitKind::LimitOffset { limit, offset, limit_by } => SpecLimitKind::LimitOffset {
            limit: match limit {
                Option::Some(_) => Option::Some(SpecExpr::Placeholder),
                Option::None => Option::None,
            },
            offset: match offset {
                Option::Some(o) => Option::Some(
                    SpecOffsetNode { value: SpecExpr::Placeholder, raw: o.raw },
                ),
                Option::None => Option::None,
            },
            limit_by: if limit_by.len() > 0 {
                seq![SpecExpr::Placeholder]
            } else {
                limit_by
            },
        },
        SpecLimitKind::OffsetCommaLimit { offset: _, limit: _ } => SpecLimitKind::OffsetCommaLimit {
            offset: SpecExpr::Placeholder,
            limit: SpecExpr::Placeholder,
        },
    }
}

/// The projection rule: a non-empty projection keeps only its first item,
/// and that item becomes an unnamed placeholder expression when it was a
/// plain or aliased expression; a kept qualified wildcard has its name's
/// identifiers normalized.
pub open spec fn norm_projection(p: Seq<SpecProjItem>) -> Seq<SpecProjItem> {
    if p.len() > 0 {
        match p[0] {
            SpecProjItem::ExprLike(_) => seq![SpecProjItem::Placeholder],
            SpecProjItem::Placeholder => seq![SpecProjItem::Placeholder],
            SpecProjItem::QualifiedWildcard { name, raw } => seq![
                SpecProjItem::QualifiedWildcard { name: norm_rel_name(name), raw },
            ],
            SpecProjItem::Raw(r) => seq![SpecProjItem::Raw(r)],
        }
    } else {
        p
    }
}

/// The DISTINCT ON rule: a non-empty expression list collapses to one
/// placeholder expression.
pub open spec fn norm_distinct(d: SpecDistinctKind) -> SpecDistinctKind {
    match d {
        SpecDistinctKind::On(exprs) => SpecDistinctKind::On(
            if exprs.len() > 0 {
                seq![SpecExpr::Placeholder]
            } else {
                exprs
            },
        ),
        SpecDistinctKind::Simple(r) => SpecDistinctKind::Simple(r),
    }
}

/// The GROUP BY rule: a non-empty explicit expression list collapses to
/// one placeholder expression; other grouping forms are unchanged.
pub open spec fn norm_group_by(g: SpecGroupByKind) -> SpecGroupByKind {
    match g {
        SpecGroupByKind::Exprs { exprs, raw } => SpecGroupByKind::Exprs {
            exprs: if exprs.len() > 0 {
                seq![SpecExpr::Placeholder]
            } else {
                exprs
            },
            raw,
        },
        SpecGroupByKind::Raw(r) => SpecGroupByKind::Raw(r),
    }
}

/// The returning rule: a present, non-empty RETURNING list collapses to
/// one placeholder projection item.
pub open spec fn norm_returning(r: Option<Seq<SpecProjItem>>) -> Option<Seq<SpecProjItem>> {
    match r {
        Option::Some(items) => Option::Some(
            if items.len() > 0 {
                seq![SpecProjItem::Placeholder]
            } else {
                items
            },
        ),
        Option::None => Option::None,
    }
}

/// The assignment-list rule: a non-empty list collapses to the one
/// synthetic assignment `... = ...`.
pub open spec fn norm_assignments(a: Seq<SpecAssignItem>) -> Seq<SpecAssignItem> {
    if a.len() > 0 {
        seq![SpecAssignItem::Placeholder]
    } else {
        a
    }
}

/// An assignment target outside a collapsing position: a column name has
/// its identifiers normalized.
pub open spec fn norm_assign_target(t: crate::tree::SpecAssignTargetKind) -> crate::tree::SpecAssignTargetKind {
    match t {
        crate::tree::SpecAssignTargetKind::Column(n) => crate::tree::SpecAssignTargetKind::Column(
            norm_rel_name(n),
        ),
        crate::tree::SpecAssignTargetKind::Raw(r) => crate::tree::SpecAssignTargetKind::Raw(r),
    }
}

/// One assignment outside a collapsing position (an INSERT SET list):
/// target and value keep their shape, with identifiers normalized.
pub open spec fn norm_assign_item_walk(a: SpecAssignItem) -> SpecAssignItem {
    match a {
        SpecAssignItem::Placeholder => SpecAssignItem::Placeholder,
        SpecAssignItem::Pair { target, value } => SpecAssignItem::Pair {
            target: norm_assign_target(target),
            value: norm_expr(value),
        },
    }
}

/// An assignment list outside a collapsing position.
pub open spec fn norm_assign_items_walk(v: Seq<SpecAssignItem>) -> Seq<SpecAssignItem> {
    v.map_values(|a: SpecAssignItem| norm_assign_item_walk(a))
}

/// A WHERE-like predicate collapses to the placeholder when present.
pub open spec fn norm_selection(s: Option<SpecExpr>) -> Option<SpecExpr> {
    match s {
        Option::Some(_) => Option::Some(SpecExpr::Placeholder),
        Option::None => Option::None,
    }
}

/// An optional predicate outside a collapsing position: only its
/// identifiers are normalized.
pub open spec fn norm_opt_expr_walk(e: Option<SpecExpr>) -> Option<SpecExpr> {
    match e {
        Option::Some(x) => Option::Some(norm_expr(x)),
        Option::None => Option::None,
    }
}

/// An expression list outside a collapsing position: each expression has
/// its identifiers normalized; the list keeps its length and order.
pub open spec fn norm_exprs_walk(v: Seq<SpecExpr>) -> Seq<SpecExpr> {
    v.map_values(|x: SpecExpr| norm_expr(x))
}

/// One ordering entry outside the ORDER BY rule's position: its
/// expression has its identifiers normalized, its modifiers are kept.
pub open spec fn norm_order_entry_walk(e: SpecOrderEntry) -> SpecOrderEntry {
    SpecOrderEntry { expr: norm_expr(e.expr), raw: e.raw }
}

/// An ordering list outside the ORDER BY rule's position.
pub open spec fn norm_order_entries_walk(v: Seq<SpecOrderEntry>) -> Seq<SpecOrderEntry> {
    v.map_values(|e: SpecOrderEntry| norm_order_entry_walk(e))
}

// ---------------------------------------------------------------------
// Queries

/// A table reference: relation names are unquoted, UNNEST collapses its
/// array expressions and alias columns, and a derived subquery is
/// normalized in full. This applies wherever a table reference stands.
pub open spec fn norm_table_ref(t: crate::tree::SpecTableRef) -> crate::tree::SpecTableRef
    decreases t,
{
    match t {
        crate::tree::SpecTableRef::Named { name, raw } => crate::tree::SpecTableRef::Named {
            name: norm_rel_name(name),
            raw,
        },
        crate::tree::SpecTableRef::Unnest { alias_cols, array_exprs, raw } => {
            crate::tree::SpecTableRef::Unnest {
                alias_cols: match alias_cols {
                    Option::Some(cols) => Option::Some(
                        if cols.len() > 0 {
                            seq![SpecAliasCol::Placeholder]
                        } else {
                            cols
                        },
                    ),
                    Option::None => Option::None,
                },
                array_exprs: if array_exprs.len() > 0 {
                    seq![SpecExpr::Placeholder]
                } else {
                    array_exprs
                },
                raw,
            }
        },
        crate::tree::SpecTableRef::Derived { subquery, raw } => crate::tree::SpecTableRef::Derived {
            subquery: Box::new(norm_query(*subquery)),
            raw,
        },
        crate::tree::SpecTableRef::Nested { inner, raw } => crate::tree::SpecTableRef::Nested {
            inner: Box::new(norm_from_item_walk(*inner)),
            raw,
        },
        crate::tree::SpecTableRef::Raw(r) => crate::tree::SpecTableRef::Raw(r),
    }
}

/// An ASOF join's condition, in any context: its match condition and ON
/// predicate survive with their identifiers normalized.
pub open spec fn norm_asof_cond(
    match_condition: SpecExpr,
    on: Option<SpecExpr>,
    raw: sqlparser::ast::JoinConstraint,
) -> SpecJoinCond {
    SpecJoinCond::AsOf {
        match_condition: norm_expr(match_condition),
        on: norm_opt_expr_walk(on),
        raw,
    }
}

/// One join inside a SELECT's FROM: the ON predicate collapses to the
/// placeholder, the join kind is untouched, and the joined table
/// reference is normalized. An ASOF join's condition only has its
/// identifiers normalized.
pub open spec fn norm_join_select(j: SpecJoinNode) -> SpecJoinNode
    decreases j,
{
    SpecJoinNode {
        relation: norm_table_ref(j.relation),
        cond: match j.cond {
            Option::Some(SpecJoinCond::On(_)) => Option::Some(
                SpecJoinCond::On(SpecExpr::Placeholder),
            ),
            Option::Some(SpecJoinCond::Using(v)) => Option::Some(
                SpecJoinCond::Using(v.map_values(|t: SpecRelName| norm_rel_name(t))),
            ),
            Option::Some(SpecJoinCond::AsOf { match_condition, on, raw }) => Option::Some(
                norm_asof_cond(match_condition, on, raw),
            ),
            Option::Some(SpecJoinCond::Raw(c)) => Option::Some(SpecJoinCond::Raw(c)),
            Option::None => Option::None,
        },
        raw: j.raw,
    }
}

/// One join outside a SELECT (an UPDATE's target table): no collapse rule
/// fires, so the ON predicate only has its identifiers normalized.
pub open spec fn norm_join_walk(j: SpecJoinNode) -> SpecJoinNode
    decreases j,
{
    SpecJoinNode {
        relation: norm_table_ref(j.relation),
        cond: match j.cond {
            Option::Some(SpecJoinCond::On(e)) => Option::Some(SpecJoinCond::On(norm_expr(e))),
            Option::Some(SpecJoinCond::Using(v)) => Option::Some(
                SpecJoinCond::Using(v.map_values(|t: SpecRelName| norm_rel_name(t))),
            ),
            Option::Some(SpecJoinCond::AsOf { match_condition, on, raw }) => Option::Some(
                norm_asof_cond(match_condition, on, raw),
            ),
            Option::Some(SpecJoinCond::Raw(c)) => Option::Some(SpecJoinCond::Raw(c)),
            Option::None => Option::None,
        },
        raw: j.raw,
    }
}

pub open spec fn norm_joins_select(s: Seq<SpecJoinNode>, i: int) -> Seq<SpecJoinNode>
    decreases s, s.len() - i,
{
    if i < 0 || i >= s.len() {
        Seq::empty()
    } else {
        seq![norm_join_select(s[i])] + norm_joins_select(s, i + 1)
    }
}

pub open spec fn norm_joins_walk(s: Seq<SpecJoinNode>, i: int) -> Seq<SpecJoinNode>
    decreases s, s.len() - i,
{
    if i < 0 || i >= s.len() {
        Seq::empty()
    } else {
        seq![norm_join_walk(s[i])] + norm_joins_walk(s, i + 1)
    }
}

/// A FROM item of a SELECT: every join's ON predicate collapses.
pub open spec fn norm_from_item_select(f: SpecFromItem) -> SpecFromItem
    decreases f,
{
    SpecFromItem { relation: norm_table_ref(f.relation), joins: norm_joins_select(f.joins, 0) }
}

/// A FROM-shaped item outside a SELECT: names are normalized and nested
/// queries visited, but no ON predicate collapses.
pub open spec fn norm_from_item_walk(f: SpecFromItem) -> SpecFromItem
    decreases f,
{
    SpecFromItem { relation: norm_table_ref(f.relation), joins: norm_joins_walk(f.joins, 0) }
}

pub open spec fn norm_from_items_select(s: Seq<SpecFromItem>, i: int) -> Seq<SpecFromItem>
    decreases s, s.len() - i,
{
    if i < 0 || i >= s.len() {
        Seq::empty()
    } else {
        seq![norm_from_item_select(s[i])] + norm_from_items_select(s, i + 1)
    }
}

pub open spec fn norm_from_items_walk(s: Seq<SpecFromItem>, i: int) -> Seq<SpecFromItem>
    decreases s, s.len() - i,
{
    if i < 0 || i >= s.len() {
        Seq::empty()
    } else {
        seq![norm_from_item_walk(s[i])] + norm_from_items_walk(s, i + 1)
    }
}

/// The surviving SELECT clauses: PREWHERE, CLUSTER BY, DISTRIBUTE BY,
/// SORT BY, HAVING and QUALIFY keep their shape, with identifiers
/// normalized.
pub open spec fn norm_select_walk(w: crate::tree::SpecSelectWalk) -> crate::tree::SpecSelectWalk {
    crate::tree::SpecSelectWalk {
        prewhere: norm_opt_expr_walk(w.prewhere),
        cluster_by: norm_exprs_walk(w.cluster_by),
        distribute_by: norm_exprs_walk(w.distribute_by),
        sort_by: norm_order_entries_walk(w.sort_by),
        having: norm_opt_expr_walk(w.having),
        qualify: norm_opt_expr_walk(w.qualify),
    }
}

/// One SELECT block: projection, DISTINCT ON, join predicates, WHERE and
/// GROUP BY collapse as their rules say; the surviving clauses only have
/// their identifiers normalized; clause shape is preserved.
pub open spec fn norm_select(s: SpecSelectNode) -> SpecSelectNode
    decreases s,
{
    SpecSelectNode {
        projection: norm_projection(s.projection),
        distinct: match s.distinct {
            Option::Some(d) => Option::Some(norm_distinct(d)),
            Option::None => Option::None,
        },
        from: norm_from_items_select(s.from, 0),
        selection: norm_selection(s.selection),
        group_by: norm_group_by(s.group_by),
        walk: norm_select_walk(s.walk),
        raw: s.raw,
    }
}

/// A query body: every leaf SELECT of a set-operation tree is visited,
/// a parenthesized query is normalized in full, and the rows of a bare
/// VALUES body have their identifiers normalized.
pub open spec fn norm_set_expr(e: SpecSetExprNode) -> SpecSetExprNode
    decreases e,
{
    match e {
        SpecSetExprNode::Select(s) => SpecSetExprNode::Select(Box::new(norm_select(*s))),
        SpecSetExprNode::SetOp { left, right, raw } => SpecSetExprNode::SetOp {
            left: Box::new(norm_set_expr(*left)),
            right: Box::new(norm_set_expr(*right)),
            raw,
        },
        SpecSetExprNode::Nested(q) => SpecSetExprNode::Nested(Box::new(norm_query(*q))),
        SpecSetExprNode::Values { rows, raw } => SpecSetExprNode::Values {
            rows: rows.map_values(|r: Seq<SpecExpr>| r.map_values(|x: SpecExpr| norm_expr(x))),
            raw,
        },
        SpecSetExprNode::Raw(r) => SpecSetExprNode::Raw(r),
    }
}

pub open spec fn norm_ctes(s: Seq<SpecCteNode>, i: int) -> Seq<SpecCteNode>
    decreases s, s.len() - i,
{
    if i < 0 || i >= s.len() {
        Seq::empty()
    } else {
        seq![SpecCteNode { query: Box::new(norm_query(*s[i].query)), raw: s[i].raw }] + norm_ctes(
            s,
            i + 1,
        )
    }
}

/// One query: its CTEs, body, ORDER BY and LIMIT family, each by its rule.
pub open spec fn norm_query(q: SpecQueryNode) -> SpecQueryNode
    decreases q,
{
    SpecQueryNode {
        with: match q.with {
            Option::Some(w) => Option::Some(SpecWithNode { ctes: norm_ctes(w.ctes, 0), raw: w.raw }),
            Option::None => Option::None,
        },
        body: Box::new(norm_set_expr(*q.body)),
        order_by: match q.order_by {
            Option::Some(o) => Option::Some(norm_order_by(o)),
            Option::None => Option::None,
        },
        limit: match q.limit {
            Option::Some(l) => Option::Some(norm_limit(l)),
            Option::None => Option::None,
        },
        raw: q.raw,
    }
}

// ---------------------------------------------------------------------
// Statements

/// The INSERT source: an inline VALUES body collapses to one row holding
/// one placeholder, and the query is then normalized as usual.
pub open spec fn norm_insert_source(q: SpecQueryNode) -> SpecQueryNode {
    let collapsed = match *q.body {
        SpecSetExprNode::Values { rows: _, raw } => SpecQueryNode {
            body: Box::new(
                SpecSetExprNode::Values { rows: seq![seq![SpecExpr::Placeholder]], raw },
            ),
            ..q
        },
        _ => q,
    };
    norm_query(collapsed)
}

pub open spec fn norm_insert_target(t: SpecInsertTarget) -> SpecInsertTarget {
    match t {
        SpecInsertTarget::Named(n) => SpecInsertTarget::Named(norm_rel_name(n)),
        SpecInsertTarget::Raw(r) => SpecInsertTarget::Raw(r),
    }
}

/// The ON CONFLICT clause: an explicit column target collapses to one
/// placeholder identifier; a DO-UPDATE action collapses its assignment
/// list and its own WHERE predicate.
pub open spec fn norm_on_insert(o: SpecOnInsertKind) -> SpecOnInsertKind {
    match o {
        SpecOnInsertKind::Conflict { target, action } => SpecOnInsertKind::Conflict {
            target: match target {
                Option::Some(SpecConflictTargetKind::Columns(cols)) => Option::Some(
                    SpecConflictTargetKind::Columns(
                        if cols.len() > 0 {
                            seq![spec_dots_ident()]
                        } else {
                            cols
                        },
                    ),
                ),
                Option::Some(SpecConflictTargetKind::Raw(r)) => Option::Some(
                    SpecConflictTargetKind::Raw(r),
                ),
                Option::None => Option::None,
            },
            action: match action {
                SpecConflictAction::DoUpdate { assignments, selection } => {
                    SpecConflictAction::DoUpdate {
                        assignments: norm_assignments(assignments),
                        selection: norm_selection(selection),
                    }
                },
                SpecConflictAction::Raw(r) => SpecConflictAction::Raw(r),
            },
        },
        SpecOnInsertKind::Raw(r) => SpecOnInsertKind::Raw(r),
    }
}

/// The column list written for a collapsed INSERT column list: one name
/// holding the placeholder identifier.
pub open spec fn dots_columns() -> Seq<SpecRelName> {
    seq![SpecRelName { parts: seq![SpecNamePart::Ident(spec_dots_ident())] }]
}

/// The INSERT rules.
pub open spec fn norm_insert(n: SpecInsertNode) -> SpecInsertNode {
    SpecInsertNode {
        table: norm_insert_target(n.table),
        columns: if n.columns.len() > 0 {
            dots_columns()
        } else {
            n.columns
        },
        source: match n.source {
            Option::Some(q) => Option::Some(Box::new(norm_insert_source(*q))),
            Option::None => Option::None,
        },
        assignments: norm_assign_items_walk(n.assignments),
        on: match n.on {
            Option::Some(o) => Option::Some(norm_on_insert(o)),
            Option::None => Option::None,
        },
        returning: norm_returning(n.returning),
        raw: n.raw,
    }
}

/// The FROM clause of an UPDATE: its tables and joins are walked, with no
/// collapse rule.
pub open spec fn norm_update_from(f: crate::tree::SpecUpdateFromKind) -> crate::tree::SpecUpdateFromKind {
    match f {
        crate::tree::SpecUpdateFromKind::BeforeSet(v) => crate::tree::SpecUpdateFromKind::BeforeSet(
            norm_from_items_walk(v, 0),
        ),
        crate::tree::SpecUpdateFromKind::AfterSet(v) => crate::tree::SpecUpdateFromKind::AfterSet(
            norm_from_items_walk(v, 0),
        ),
    }
}

/// The UPDATE rules: the assignment list, WHERE and RETURNING collapse;
/// the target table, FROM clause and ORDER BY entries are walked.
pub open spec fn norm_update(n: SpecUpdateNode) -> SpecUpdateNode {
    SpecUpdateNode {
        table: norm_from_item_walk(n.table),
        assignments: norm_assignments(n.assignments),
        from: match n.from {
            Option::Some(f) => Option::Some(norm_update_from(f)),
            Option::None => Option::None,
        },
        selection: norm_selection(n.selection),
        returning: norm_returning(n.returning),
        order_by: norm_order_entries_walk(n.order_by),
        raw: n.raw,
    }
}

/// The DELETE rules: WHERE and RETURNING collapse; the table list, FROM
/// and USING clauses are walked.
pub open spec fn norm_delete(n: SpecDeleteNode) -> SpecDeleteNode {
    SpecDeleteNode {
        tables: n.tables.map_values(|t: SpecRelName| norm_rel_name(t)),
        from: match n.from {
            SpecDeleteFrom::WithKeyword(v) => SpecDeleteFrom::WithKeyword(
                norm_from_items_walk(v, 0),
            ),
            SpecDeleteFrom::WithoutKeyword(v) => SpecDeleteFrom::WithoutKeyword(
                norm_from_items_walk(v, 0),
            ),
        },
        using: match n.using {
            Option::Some(v) => Option::Some(norm_from_items_walk(v, 0)),
            Option::None => Option::None,
        },
        selection: norm_selection(n.selection),
        returning: norm_returning(n.returning),
        raw: n.raw,
    }
}

/// One DECLARE item: a non-empty name list collapses to one placeholder
/// identifier; an embedded cursor query is normalized in full.
pub open spec fn norm_declare_item(d: SpecDeclareItem) -> SpecDeclareItem {
    SpecDeclareItem {
        names: if d.names.len() > 0 {
            seq![spec_dots_ident()]
        } else {
            d.names
        },
        for_query: match d.for_query {
            Option::Some(q) => Option::Some(Box::new(norm_query(*q))),
            Option::None => Option::None,
        },
        raw: d.raw,
    }
}

pub open spec fn norm_declare_items(s: Seq<SpecDeclareItem>, i: int) -> Seq<SpecDeclareItem>
    decreases s.len() - i,
{
    if i < 0 || i >= s.len() {
        Seq::empty()
    } else {
        seq![norm_declare_item(s[i])] + norm_declare_items(s, i + 1)
    }
}

/// The savepoint name an alias lookup leaves behind: the alias, unquoted,
/// when the table knows the name; the name as written otherwise.
pub open spec fn alias_or_self(t: SpecAliasTable, n: SpecIdent) -> SpecIdent {
    match spec_lookup(t, n.value) {
        Option::Some(a) => SpecIdent { value: a, quote: Option::None },
        Option::None => n,
    }
}

/// One statement's normalization: the rewritten statement and the alias
/// table after it. Only SAVEPOINT changes the table, also where it stands
/// inside an EXPLAIN.
pub open spec fn norm_stmt(s: SpecStmtNode, t: SpecAliasTable) -> (SpecStmtNode, SpecAliasTable)
    decreases s,
{
    match s {
        SpecStmtNode::Savepoint { name } => {
            let r = spec_assign(t, name.value);
            (SpecStmtNode::Savepoint { name: SpecIdent { value: r.1, quote: Option::None } }, r.0)
        },
        SpecStmtNode::Release { name } => (
            SpecStmtNode::Release { name: alias_or_self(t, name) },
            t,
        ),
        SpecStmtNode::Rollback { chain, name } => (
            SpecStmtNode::Rollback {
                chain,
                name: match name {
                    Option::Some(n) => Option::Some(alias_or_self(t, n)),
                    Option::None => Option::None,
                },
            },
            t,
        ),
        SpecStmtNode::Declare { items } => (
            SpecStmtNode::Declare { items: norm_declare_items(items, 0) },
            t,
        ),
        SpecStmtNode::Insert(n) => (SpecStmtNode::Insert(norm_insert(n)), t),
        SpecStmtNode::Update(n) => (SpecStmtNode::Update(norm_update(n)), t),
        SpecStmtNode::Delete(n) => (SpecStmtNode::Delete(norm_delete(n)), t),
        SpecStmtNode::Query(q) => (SpecStmtNode::Query(Box::new(norm_query(*q))), t),
        SpecStmtNode::Explain { inner, raw } => {
            let r = norm_stmt(*inner, t);
            (SpecStmtNode::Explain { inner: Box::new(r.0), raw }, r.1)
        },
        SpecStmtNode::CreateView { name, query, raw } => (
            SpecStmtNode::CreateView {
                name: norm_rel_name(name),
                query: Box::new(norm_query(*query)),
                raw,
            },
            t,
        ),
        SpecStmtNode::CreateTable { name, query, raw } => (
            SpecStmtNode::CreateTable {
                name: norm_rel_name(name),
                query: match query {
                    Option::Some(q) => Option::Some(Box::new(norm_query(*q))),
                    Option::None => Option::None,
                },
                raw,
            },
            t,
        ),
        SpecStmtNode::Raw(r) => (SpecStmtNode::Raw(r), t),
    }
}

// ---------------------------------------------------------------------
// Pointwise descriptions of the sequence rules above.

pub proof fn lemma_norm_ctes_index(s: Seq<SpecCteNode>, i: int)
    requires
        0 <= i <= s.len(),
    ensures
        norm_ctes(s, i).len() == s.len() - i,
        forall|j: int|
            0 <= j < s.len() - i ==> norm_ctes(s, i)[j] == (SpecCteNode {
                query: Box::new(norm_query(*s[i + j].query)),
                raw: s[i + j].raw,
            }),
    decreases s.len() - i,
{
    if i < s.len() {
        lemma_norm_ctes_index(s, i + 1);
    }
}

pub proof fn lemma_norm_from_items_select_index(s: Seq<SpecFromItem>, i: int)
    requires
        0 <= i <= s.len(),
    ensures
        norm_from_items_select(s, i).len() == s.len() - i,
        forall|j: int|
            0 <= j < s.len() - i ==> norm_from_items_select(s, i)[j] == norm_from_item_select(
                s[i + j],
            ),
    decreases s.len() - i,
{
    if i < s.len() {
        lemma_norm_from_items_select_index(s, i + 1);
    }
}

pub proof fn lemma_norm_from_items_walk_index(s: Seq<SpecFromItem>, i: int)
    requires
        0 <= i <= s.len(),
    ensures
        norm_from_items_walk(s, i).len() == s.len() - i,
        forall|j: int|
            0 <= j < s.len() - i ==> norm_from_items_walk(s, i)[j] == norm_from_item_walk(s[i + j]),
    decreases s.len() - i,
{
    if i < s.len() {
        lemma_norm_from_items_walk_index(s, i + 1);
    }
}

pub proof fn lemma_norm_joins_select_index(s: Seq<SpecJoinNode>, i: int)
    requires
        0 <= i <= s.len(),
    ensures
        norm_joins_select(s, i).len() == s.len() - i,
        forall|j: int|
            0 <= j < s.len() - i ==> norm_joins_select(s, i)[j] == norm_join_select(s[i + j]),
    decreases s.len() - i,
{
    if i < s.len() {
        lemma_norm_joins_select_index(s, i + 1);
    }
}

pub proof fn lemma_norm_joins_walk_index(s: Seq<SpecJoinNode>, i: int)
    requires
        0 <= i <= s.len(),
    ensures
        norm_joins_walk(s, i).len() == s.len() - i,
        forall|j: int|
            0 <= j < s.len() - i ==> norm_joins_walk(s, i)[j] == norm_join_walk(s[i + j]),
    decreases s.len() - i,
{
    if i < s.len() {
        lemma_norm_joins_walk_index(s, i + 1);
    }
}

pub proof fn lemma_norm_declare_items_index(s: Seq<SpecDeclareItem>, i: int)
    requires
        0 <= i <= s.len(),
    ensures
        norm_declare_items(s, i).len() == s.len() - i,
        forall|j: int|
            0 <= j < s.len() - i ==> norm_declare_items(s, i)[j] == norm_declare_item(s[i + j]),
    decreases s.len() - i,
{
    if i < s.len() {
        lemma_norm_declare_items_index(s, i + 1);
    }
}

/// A sequence of statements normalized in order, threading the alias
/// table from each statement to the next.
pub open spec fn norm_stmts(s: Seq<SpecStmtNode>, t: SpecAliasTable) -> (
    Seq<SpecStmtNode>,
    SpecAliasTable,
)
    decreases s.len(),
{
    if s.len() == 0 {
        (Seq::empty(), t)
    } else {
        let head = norm_stmt(s[0], t);
        let rest = norm_stmts(s.drop_first(), head.1);
        (seq![head.0] + rest.0, rest.1)
    }
}

/// Normalizing a batch extended by one statement normalizes the batch and
/// then the statement, under the table the batch left behind.
pub proof fn lemma_norm_stmts_push(s: Seq<SpecStmtNode>, x: SpecStmtNode, t: SpecAliasTable)
    ensures
        norm_stmts(s.push(x), t).0 == norm_stmts(s, t).0.push(
            norm_stmt(x, norm_stmts(s, t).1).0,
        ),
        norm_stmts(s.push(x), t).1 == norm_stmt(x, norm_stmts(s, t).1).1,
    decreases s.len(),
{
    reveal_with_fuel(norm_stmts, 2);
    if s.len() == 0 {
        assert(s.push(x).drop_first() =~= Seq::<SpecStmtNode>::empty());
        assert(s.push(x)[0] == x);
        assert(norm_stmts(s.push(x), t).0 =~= norm_stmts(s, t).0.push(
            norm_stmt(x, norm_stmts(s, t).1).0,
        ));
    } else {
        let t2 = norm_stmt(s[0], t).1;
        assert(s.push(x)[0] == s[0]);
        assert(s.push(x).drop_first() =~= s.drop_first().push(x));
        lemma_norm_stmts_push(s.drop_first(), x, t2);
        assert(norm_stmts(s.push(x), t).0 =~= norm_stmts(s, t).0.push(
            norm_stmt(x, norm_stmts(s, t).1).0,
        ));
    }
}

} // verus!
