//! The executable normalization pass over the library's statement tree.
//! Each function rewrites one node kind and is proved to compute exactly
//! the spec-level rule of the same name in `rules`.

use vstd::prelude::*;

use crate::alias::{AliasTable, SpecAliasTable};
use crate::chars::is_word;
use crate::rules::{
    lemma_norm_ctes_index, lemma_norm_from_items_select_index, lemma_norm_from_items_walk_index,
    lemma_norm_declare_items_index, lemma_norm_joins_select_index, lemma_norm_joins_walk_index,
    lemma_norm_func_args_index, lemma_norm_stmts_push, dots_columns, norm_assign_item_walk,
    norm_assign_items_walk,
    norm_assign_target, norm_assignments, norm_ctes, norm_declare_item, norm_func_arg,
    norm_func_args,
    norm_declare_items, norm_delete, norm_distinct, norm_expr, norm_from_item_select,
    norm_from_item_walk, norm_from_items_select, norm_from_items_walk, norm_group_by, norm_ident,
    norm_insert, norm_insert_source, norm_insert_target, norm_join_select, norm_join_walk,
    norm_joins_select, norm_joins_walk, norm_limit, norm_name_part, norm_on_insert,
    norm_opt_expr_walk, norm_order_by, norm_order_entries_walk, norm_order_entry_walk,
    norm_exprs_walk, norm_projection, norm_query, norm_rel_name, norm_returning, norm_select,
    norm_select_walk, norm_set_expr, norm_stmt, norm_stmts, norm_table_ref, norm_update,
    norm_update_from,
};
use crate::tree::{
    cte_views, declare_item_view, declare_item_views, dots_ident, from_item_view,
    from_item_views, func_arg_view, func_arg_views, join_view_one, join_views,
    lemma_cte_views_index,
    lemma_declare_item_views_index, lemma_from_item_views_index, lemma_func_arg_views_index,
    lemma_join_views_index, query_view, spec_dots_ident, FuncArg, AliasCol, AssignItem, ConflictAction, ConflictTargetKind,
    CteNode, DeclareItem, DeleteFrom, DeleteNode, DistinctKind, FromItem, GroupByKind,
    opt_expr_view, AssignTargetKind, InsertNode, InsertTarget, JoinCond, JoinNode, LimitKind,
    NamePart, OffsetNode,
    OnInsertKind, OrderByKind, OrderEntry, ProjItem, QueryNode, RelName, SelectNode, SelectWalk,
    SetExprNode, SpecAliasCol, SpecAssignItem, SpecExpr, SpecIdent, SpecNamePart, SpecOrderEntry,
    SpecProjItem, SpecRelName, SpecStmtNode, SqlExpr, SqlIdent, StmtNode, TableRef,
    UpdateFromKind, UpdateNode, WithNode,
};

verus! {

/// Remove the quoting marker of an identifier made only of word
/// characters; leave any other identifier as written.
pub fn maybe_unquote_ident(i: SqlIdent) -> (r: SqlIdent)
    ensures
        r@ == norm_ident(i@),
{
    if is_word(i.value.as_str()) {
        SqlIdent { value: i.value, quote: Option::None }
    } else {
        i
    }
}

/// Normalize each identifier of a list in place.
pub fn visit_idents(v: Vec<SqlIdent>) -> (r: Vec<SqlIdent>)
    ensures
        r@.len() == v@.len(),
        forall|j: int| 0 <= j < v@.len() ==> r@[j]@ == norm_ident(v@[j]@),
{
    let mut v = v;
    let ghost orig = v@;
    let n = v.len();
    let mut i: usize = 0;
    while i < n
        invariant
            i <= n,
            n == v@.len(),
            v@.len() == orig.len(),
            forall|j: int| 0 <= j < i ==> v@[j]@ == norm_ident(orig[j]@),
            forall|j: int| i <= j < orig.len() ==> v@[j] == orig[j],
        decreases n - i,
    {
        let ghost before = v@;
        let x = v.remove(i);
        let y = maybe_unquote_ident(x);
        v.insert(i, y);
        proof {
            assert(v@ =~= before.update(i as int, y));
        }
        i = i + 1;
    }
    v
}

/// Normalize one part of a qualified name.
pub fn visit_name_part(p: NamePart) -> (r: NamePart)
    ensures
        r@ == norm_name_part(p@),
{
    match p {
        NamePart::Ident(i) => NamePart::Ident(maybe_unquote_ident(i)),
        NamePart::Raw(x) => NamePart::Raw(x),
    }
}

/// Normalize a qualified name, part by part.
pub fn visit_rel_name(n: RelName) -> (r: RelName)
    ensures
        r@ == norm_rel_name(n@),
{
    let ghost n0 = n;
    let mut v = n.parts;
    let ghost orig = v@;
    let len = v.len();
    let mut i: usize = 0;
    while i < len
        invariant
            i <= len,
            len == v@.len(),
            v@.len() == orig.len(),
            forall|j: int| 0 <= j < i ==> v@[j]@ == norm_name_part(orig[j]@),
            forall|j: int| i <= j < orig.len() ==> v@[j] == orig[j],
        decreases len - i,
    {
        let ghost before = v@;
        let x = v.remove(i);
        let y = visit_name_part(x);
        v.insert(i, y);
        proof {
            assert(v@ =~= before.update(i as int, y));
        }
        i = i + 1;
    }
    let r = RelName { parts: v };
    proof {
        assert(r@.parts =~= norm_rel_name(n0@).parts);
    }
    r
}

/// Normalize an expression: unquote bare and compound identifier
/// references, descending through binary and unary operations and
/// parentheses; leave everything else as written.
pub fn visit_expr(e: SqlExpr) -> (r: SqlExpr)
    ensures
        r@ == norm_expr(e@),
    decreases e,
{
    match e {
        SqlExpr::Ident(i) => SqlExpr::Ident(maybe_unquote_ident(i)),
        SqlExpr::Compound(v) => {
            let ghost v0 = v@;
            let r = visit_idents(v);
            proof {
                assert(r@.map_values(|i: SqlIdent| i@) =~= v0.map_values(|i: SqlIdent| i@)
                    .map_values(|i: SpecIdent| norm_ident(i)));
            }
            SqlExpr::Compound(r)
        },
        SqlExpr::Binary { left, op, right } => {
            let left2 = visit_expr(*left);
            let right2 = visit_expr(*right);
            SqlExpr::Binary { left: Box::new(left2), op, right: Box::new(right2) }
        },
        SqlExpr::Unary { op, expr } => {
            let inner2 = visit_expr(*expr);
            SqlExpr::Unary { op, expr: Box::new(inner2) }
        },
        SqlExpr::Nested(x) => SqlExpr::Nested(Box::new(visit_expr(*x))),
        SqlExpr::Func { name, args, raw } => {
            let name2 = visit_rel_name(name);
            let args2 = visit_func_args(args);
            SqlExpr::Func { name: name2, args: args2, raw }
        },
        SqlExpr::Wrapped { expr, raw } => {
            let inner2 = visit_expr(*expr);
            SqlExpr::Wrapped { expr: Box::new(inner2), raw }
        },
        SqlExpr::Placeholder => SqlExpr::Placeholder,
        SqlExpr::Raw(x) => SqlExpr::Raw(x),
    }
}

/// Normalize one function argument: identifiers only.
pub fn visit_func_arg(a: FuncArg) -> (r: FuncArg)
    ensures
        func_arg_view(r) == norm_func_arg(func_arg_view(a)),
    decreases a,
{
    match a {
        FuncArg::ExprArg { expr, raw } => FuncArg::ExprArg { expr: visit_expr(expr), raw },
        FuncArg::WildcardArg { name, raw } => FuncArg::WildcardArg {
            name: visit_rel_name(name),
            raw,
        },
        FuncArg::Raw(x) => FuncArg::Raw(x),
    }
}

/// Normalize each argument of a function call.
#[verifier::loop_isolation(false)]
pub fn visit_func_args(v: Vec<FuncArg>) -> (r: Vec<FuncArg>)
    ensures
        func_arg_views(r@, 0) == norm_func_args(func_arg_views(v@, 0), 0),
    decreases v,
{
    let ghost v0 = v;
    let mut v = v;
    let ghost orig = v@;
    let n = v.len();
    let mut i: usize = 0;
    while i < n
        invariant
            v0@ == orig,
            i <= n,
            n == v@.len(),
            v@.len() == orig.len(),
            forall|j: int|
                0 <= j < i ==> func_arg_view(#[trigger] v@[j]) == norm_func_arg(
                    func_arg_view(orig[j]),
                ),
            forall|j: int| i <= j < orig.len() ==> v@[j] == orig[j],
        decreases n - i,
    {
        let ghost before = v@;
        let x = v.remove(i);
        proof {
            assert(x == v0@[i as int]);
            assert(decreases_to!(v0 => x));
        }
        let y = visit_func_arg(x);
        v.insert(i, y);
        proof {
            assert(v@ =~= before.update(i as int, y));
        }
        i = i + 1;
    }
    proof {
        lemma_func_arg_views_index(v@, 0);
        lemma_func_arg_views_index(orig, 0);
        lemma_norm_func_args_index(func_arg_views(orig, 0), 0);
        assert(func_arg_views(v@, 0) =~= norm_func_args(func_arg_views(orig, 0), 0));
    }
    v
}

/// Normalize each expression of a list in place.
pub fn visit_exprs(v: Vec<SqlExpr>) -> (r: Vec<SqlExpr>)
    ensures
        r@.len() == v@.len(),
        forall|j: int| 0 <= j < v@.len() ==> r@[j]@ == norm_expr(v@[j]@),
{
    let mut v = v;
    let ghost orig = v@;
    let n = v.len();
    let mut i: usize = 0;
    while i < n
        invariant
            i <= n,
            n == v@.len(),
            v@.len() == orig.len(),
            forall|j: int| 0 <= j < i ==> v@[j]@ == norm_expr(orig[j]@),
            forall|j: int| i <= j < orig.len() ==> v@[j] == orig[j],
        decreases n - i,
    {
        let ghost before = v@;
        let x = v.remove(i);
        let y = visit_expr(x);
        v.insert(i, y);
        proof {
            assert(v@ =~= before.update(i as int, y));
        }
        i = i + 1;
    }
    v
}

/// Normalize an optional surviving predicate: identifiers only.
pub fn visit_opt_expr(e: Option<SqlExpr>) -> (r: Option<SqlExpr>)
    ensures
        opt_expr_view(r) == norm_opt_expr_walk(opt_expr_view(e)),
{
    match e {
        Option::Some(x) => Option::Some(visit_expr(x)),
        Option::None => Option::None,
    }
}

/// Normalize each expression of a surviving list: identifiers only, with
/// length and order kept.
pub fn visit_exprs_walk(v: Vec<SqlExpr>) -> (r: Vec<SqlExpr>)
    ensures
        r@.map_values(|e: SqlExpr| e@) == norm_exprs_walk(v@.map_values(|e: SqlExpr| e@)),
{
    let ghost orig = v@;
    let r = visit_exprs(v);
    proof {
        assert(r@.map_values(|e: SqlExpr| e@) =~= norm_exprs_walk(
            orig.map_values(|e: SqlExpr| e@),
        ));
    }
    r
}

/// Normalize each entry of a surviving ordering list in place.
pub fn visit_order_entries_walk(v: Vec<OrderEntry>) -> (r: Vec<OrderEntry>)
    ensures
        r@.map_values(|e: OrderEntry| e@) == norm_order_entries_walk(
            v@.map_values(|e: OrderEntry| e@),
        ),
{
    let mut v = v;
    let ghost orig = v@;
    let n = v.len();
    let mut i: usize = 0;
    while i < n
        invariant
            i <= n,
            n == v@.len(),
            v@.len() == orig.len(),
            forall|j: int| 0 <= j < i ==> v@[j]@ == norm_order_entry_walk(orig[j]@),
            forall|j: int| i <= j < orig.len() ==> v@[j] == orig[j],
        decreases n - i,
    {
        let ghost before = v@;
        let x = v.remove(i);
        let y = OrderEntry { expr: visit_expr(x.expr), raw: x.raw };
        v.insert(i, y);
        proof {
            assert(v@ =~= before.update(i as int, y));
        }
        i = i + 1;
    }
    proof {
        assert(v@.map_values(|e: OrderEntry| e@) =~= norm_order_entries_walk(
            orig.map_values(|e: OrderEntry| e@),
        ));
    }
    v
}

/// Normalize each name of a surviving table list in place.
pub fn visit_rel_names(v: Vec<RelName>) -> (r: Vec<RelName>)
    ensures
        r@.map_values(|t: RelName| t@) == v@.map_values(|t: RelName| t@).map_values(
            |t: SpecRelName| norm_rel_name(t),
        ),
{
    let mut v = v;
    let ghost orig = v@;
    let n = v.len();
    let mut i: usize = 0;
    while i < n
        invariant
            i <= n,
            n == v@.len(),
            v@.len() == orig.len(),
            forall|j: int| 0 <= j < i ==> v@[j]@ == norm_rel_name(orig[j]@),
            forall|j: int| i <= j < orig.len() ==> v@[j] == orig[j],
        decreases n - i,
    {
        let ghost before = v@;
        let x = v.remove(i);
        let y = visit_rel_name(x);
        v.insert(i, y);
        proof {
            assert(v@ =~= before.update(i as int, y));
        }
        i = i + 1;
    }
    proof {
        assert(v@.map_values(|t: RelName| t@) =~= orig.map_values(|t: RelName| t@).map_values(
            |t: SpecRelName| norm_rel_name(t),
        ));
    }
    v
}

/// Collapse a non-empty expression list to one placeholder expression.
pub fn collapse_exprs(v: Vec<SqlExpr>) -> (r: Vec<SqlExpr>)
    ensures
        r@.map_values(|e: SqlExpr| e@) == (if v@.len() > 0 {
            seq![SpecExpr::Placeholder]
        } else {
            v@.map_values(|e: SqlExpr| e@)
        }),
{
    if v.len() > 0 {
        let mut out: Vec<SqlExpr> = Vec::new();
        out.push(SqlExpr::Placeholder);
        proof {
            assert(out@.map_values(|e: SqlExpr| e@) =~= seq![SpecExpr::Placeholder]);
        }
        out
    } else {
        v
    }
}

/// The projection rule: truncate a non-empty projection to its first
/// item, replacing a plain or aliased expression with the placeholder.
pub fn visit_projection(p: Vec<ProjItem>) -> (r: Vec<ProjItem>)
    ensures
        r@.map_values(|x: ProjItem| x@) == norm_projection(p@.map_values(|x: ProjItem| x@)),
{
    let ghost p0 = p@.map_values(|x: ProjItem| x@);
    if p.len() == 0 {
        proof {
            assert(p@.map_values(|x: ProjItem| x@) =~= norm_projection(p0));
        }
        return p;
    }
    let mut p = p;
    let first = p.remove(0);
    let item = match first {
        ProjItem::ExprLike(_) => ProjItem::Placeholder,
        ProjItem::Placeholder => ProjItem::Placeholder,
        ProjItem::QualifiedWildcard { name, raw } => ProjItem::QualifiedWildcard {
            name: visit_rel_name(name),
            raw,
        },
        ProjItem::Raw(x) => ProjItem::Raw(x),
    };
    let mut out: Vec<ProjItem> = Vec::new();
    out.push(item);
    proof {
        assert(out@.map_values(|x: ProjItem| x@) =~= norm_projection(p0));
    }
    out
}

/// The RETURNING rule: collapse a present, non-empty list to one
/// placeholder projection item.
pub fn visit_returning(r: Option<Vec<ProjItem>>) -> (out: Option<Vec<ProjItem>>)
    ensures
        (match out {
            Option::Some(v) => Option::Some(v@.map_values(|x: ProjItem| x@)),
            Option::None => Option::None,
        }) == norm_returning(
            match r {
                Option::Some(v) => Option::Some(v@.map_values(|x: ProjItem| x@)),
                Option::None => Option::None,
            },
        ),
{
    match r {
        Option::Some(v) => {
            if v.len() > 0 {
                let mut out: Vec<ProjItem> = Vec::new();
                out.push(ProjItem::Placeholder);
                proof {
                    assert(out@.map_values(|x: ProjItem| x@) =~= seq![SpecProjItem::Placeholder]);
                }
                Option::Some(out)
            } else {
                Option::Some(v)
            }
        },
        Option::None => Option::None,
    }
}

/// The assignment-list rule: collapse a non-empty list to the synthetic
/// assignment `... = ...`.
pub fn visit_assignments(a: Vec<AssignItem>) -> (r: Vec<AssignItem>)
    ensures
        r@.map_values(|x: AssignItem| x@) == norm_assignments(
            a@.map_values(|x: AssignItem| x@),
        ),
{
    if a.len() > 0 {
        let mut out: Vec<AssignItem> = Vec::new();
        out.push(AssignItem::Placeholder);
        proof {
            assert(out@.map_values(|x: AssignItem| x@) =~= seq![SpecAssignItem::Placeholder]);
        }
        out
    } else {
        a
    }
}

/// Normalize the target of a surviving assignment: identifiers only.
pub fn visit_assign_target(t: AssignTargetKind) -> (r: AssignTargetKind)
    ensures
        r@ == norm_assign_target(t@),
{
    match t {
        AssignTargetKind::Column(n) => AssignTargetKind::Column(visit_rel_name(n)),
        AssignTargetKind::Raw(x) => AssignTargetKind::Raw(x),
    }
}

/// Normalize one surviving assignment: identifiers only.
pub fn visit_assign_item_walk(a: AssignItem) -> (r: AssignItem)
    ensures
        r@ == norm_assign_item_walk(a@),
{
    match a {
        AssignItem::Placeholder => AssignItem::Placeholder,
        AssignItem::Pair { target, value } => AssignItem::Pair {
            target: visit_assign_target(target),
            value: visit_expr(value),
        },
    }
}

/// Normalize each assignment of a surviving list in place.
pub fn visit_assign_items_walk(v: Vec<AssignItem>) -> (r: Vec<AssignItem>)
    ensures
        r@.map_values(|a: AssignItem| a@) == norm_assign_items_walk(
            v@.map_values(|a: AssignItem| a@),
        ),
{
    let mut v = v;
    let ghost orig = v@;
    let n = v.len();
    let mut i: usize = 0;
    while i < n
        invariant
            i <= n,
            n == v@.len(),
            v@.len() == orig.len(),
            forall|j: int| 0 <= j < i ==> v@[j]@ == norm_assign_item_walk(orig[j]@),
            forall|j: int| i <= j < orig.len() ==> v@[j] == orig[j],
        decreases n - i,
    {
        let ghost before = v@;
        let x = v.remove(i);
        let y = visit_assign_item_walk(x);
        v.insert(i, y);
        proof {
            assert(v@ =~= before.update(i as int, y));
        }
        i = i + 1;
    }
    proof {
        assert(v@.map_values(|a: AssignItem| a@) =~= norm_assign_items_walk(
            orig.map_values(|a: AssignItem| a@),
        ));
    }
    v
}

/// The DISTINCT ON rule.
pub fn visit_distinct(d: DistinctKind) -> (r: DistinctKind)
    ensures
        r@ == norm_distinct(d@),
{
    match d {
        DistinctKind::On(v) => {
            let r = collapse_exprs(v);
            DistinctKind::On(r)
        },
        DistinctKind::Simple(x) => DistinctKind::Simple(x),
    }
}

/// The GROUP BY rule.
pub fn visit_group_by(g: GroupByKind) -> (r: GroupByKind)
    ensures
        r@ == norm_group_by(g@),
{
    match g {
        GroupByKind::Exprs { exprs, raw } => {
            let r = collapse_exprs(exprs);
            GroupByKind::Exprs { exprs: r, raw }
        },
        GroupByKind::Raw(x) => GroupByKind::Raw(x),
    }
}

/// The ORDER BY rule: a non-empty expression list keeps only its first
/// entry, whose expression becomes the placeholder.
pub fn visit_order_by(o: OrderByKind) -> (r: OrderByKind)
    ensures
        r@ == norm_order_by(o@),
{
    match o {
        OrderByKind::Exprs { entries, raw } => {
            let ghost e0 = entries@.map_values(|e: OrderEntry| e@);
            if entries.len() > 0 {
                let mut entries = entries;
                let first = entries.remove(0);
                let mut out: Vec<OrderEntry> = Vec::new();
                out.push(OrderEntry { expr: SqlExpr::Placeholder, raw: first.raw });
                let r = OrderByKind::Exprs { entries: out, raw };
                proof {
                    assert(out@.map_values(|e: OrderEntry| e@) =~= seq![
                        SpecOrderEntry { expr: SpecExpr::Placeholder, raw: e0[0].raw },
                    ]);
                }
                r
            } else {
                OrderByKind::Exprs { entries, raw }
            }
        },
        OrderByKind::Raw(x) => OrderByKind::Raw(x),
    }
}

/// The LIMIT/OFFSET rule: each present operand becomes the placeholder.
pub fn visit_limit(l: LimitKind) -> (r: LimitKind)
    ensures
        r@ == norm_limit(l@),
{
    match l {
        LimitKind::LimitOffset { limit, offset, limit_by } => {
            let limit2 = match limit {
                Option::Some(_) => Option::Some(SqlExpr::Placeholder),
                Option::None => Option::None,
            };
            let offset2 = match offset {
                Option::Some(o) => Option::Some(
                    OffsetNode { value: SqlExpr::Placeholder, raw: o.raw },
                ),
                Option::None => Option::None,
            };
            let limit_by2 = collapse_exprs(limit_by);
            LimitKind::LimitOffset { limit: limit2, offset: offset2, limit_by: limit_by2 }
        },
        LimitKind::OffsetCommaLimit { offset: _, limit: _ } => LimitKind::OffsetCommaLimit {
            offset: SqlExpr::Placeholder,
            limit: SqlExpr::Placeholder,
        },
    }
}

// ---------------------------------------------------------------------
// Queries

/// Normalize the rows of a VALUES list, expression by expression.
pub fn visit_rows(rows: Vec<Vec<SqlExpr>>) -> (r: Vec<Vec<SqlExpr>>)
    ensures
        r@.map_values(|row: Vec<SqlExpr>| row@.map_values(|x: SqlExpr| x@)) == rows@.map_values(
            |row: Vec<SqlExpr>| row@.map_values(|x: SqlExpr| x@),
        ).map_values(|row: Seq<SpecExpr>| row.map_values(|x: SpecExpr| norm_expr(x))),
{
    let mut v = rows;
    let ghost orig = v@;
    let n = v.len();
    let mut i: usize = 0;
    while i < n
        invariant
            i <= n,
            n == v@.len(),
            v@.len() == orig.len(),
            forall|j: int|
                0 <= j < i ==> (#[trigger] v@[j])@.map_values(|x: SqlExpr| x@)
                    =~= orig[j]@.map_values(|x: SqlExpr| x@).map_values(
                    |x: SpecExpr| norm_expr(x),
                ),
            forall|j: int| i <= j < orig.len() ==> v@[j] == orig[j],
        decreases n - i,
    {
        let ghost before = v@;
        let x = v.remove(i);
        let ghost x0 = x@;
        let y = visit_exprs(x);
        proof {
            assert(y@.map_values(|e: SqlExpr| e@) =~= x0.map_values(|e: SqlExpr| e@).map_values(
                |e: SpecExpr| norm_expr(e),
            ));
        }
        v.insert(i, y);
        proof {
            assert(v@ =~= before.update(i as int, y));
        }
        i = i + 1;
    }
    proof {
        assert(v@.map_values(|row: Vec<SqlExpr>| row@.map_values(|x: SqlExpr| x@))
            =~= orig.map_values(|row: Vec<SqlExpr>| row@.map_values(|x: SqlExpr| x@)).map_values(
            |row: Seq<SpecExpr>| row.map_values(|x: SpecExpr| norm_expr(x)),
        ));
    }
    v
}

/// Normalize a table reference: unquote a relation name, collapse the
/// parts of an UNNEST, and normalize a derived subquery in full.
pub fn visit_table_factor(t: TableRef) -> (r: TableRef)
    ensures
        r@ == norm_table_ref(t@),
    decreases t,
{
    match t {
        TableRef::Named { name, raw } => TableRef::Named { name: visit_rel_name(name), raw },
        TableRef::Unnest { alias_cols, array_exprs, raw } => {
            let cols2 = match alias_cols {
                Option::Some(cols) => {
                    if cols.len() > 0 {
                        let mut out: Vec<AliasCol> = Vec::new();
                        out.push(AliasCol::Placeholder);
                        proof {
                            assert(out@.map_values(|c: AliasCol| c@) =~= seq![
                                SpecAliasCol::Placeholder,
                            ]);
                        }
                        Option::Some(out)
                    } else {
                        Option::Some(cols)
                    }
                },
                Option::None => Option::None,
            };
            let exprs2 = collapse_exprs(array_exprs);
            TableRef::Unnest { alias_cols: cols2, array_exprs: exprs2, raw }
        },
        TableRef::Derived { subquery, raw } => {
            let q2 = visit_query(*subquery);
            TableRef::Derived { subquery: Box::new(q2), raw }
        },
        TableRef::Nested { inner, raw } => {
            let f2 = visit_from_item_walk(*inner);
            TableRef::Nested { inner: Box::new(f2), raw }
        },
        TableRef::Raw(x) => TableRef::Raw(x),
    }
}

/// Normalize one join of a SELECT's FROM: the ON predicate collapses.
pub fn visit_join_select(j: JoinNode) -> (r: JoinNode)
    ensures
        join_view_one(r) == norm_join_select(join_view_one(j)),
    decreases j,
{
    let JoinNode { relation, cond, raw } = j;
    let relation2 = visit_table_factor(relation);
    let cond2 = match cond {
        Option::Some(JoinCond::On(_)) => Option::Some(JoinCond::On(SqlExpr::Placeholder)),
        Option::Some(JoinCond::Using(v)) => Option::Some(JoinCond::Using(visit_rel_names(v))),
        Option::Some(JoinCond::AsOf { match_condition, on, raw: craw }) => Option::Some(
            visit_asof_cond(match_condition, on, craw),
        ),
        Option::Some(JoinCond::Raw(c)) => Option::Some(JoinCond::Raw(c)),
        Option::None => Option::None,
    };
    JoinNode { relation: relation2, cond: cond2, raw }
}

/// Normalize an ASOF join's condition: identifiers only.
pub fn visit_asof_cond(
    match_condition: SqlExpr,
    on: Option<SqlExpr>,
    raw: sqlparser::ast::JoinConstraint,
) -> (r: JoinCond)
    ensures
        r@ == crate::rules::norm_asof_cond(match_condition@, opt_expr_view(on), raw),
{
    JoinCond::AsOf {
        match_condition: visit_expr(match_condition),
        on: visit_opt_expr(on),
        raw,
    }
}

/// Normalize one join outside a SELECT: the ON predicate survives, with
/// its identifiers normalized.
pub fn visit_join_walk(j: JoinNode) -> (r: JoinNode)
    ensures
        join_view_one(r) == norm_join_walk(join_view_one(j)),
    decreases j,
{
    let JoinNode { relation, cond, raw } = j;
    let relation2 = visit_table_factor(relation);
    let cond2 = match cond {
        Option::Some(JoinCond::On(e)) => Option::Some(JoinCond::On(visit_expr(e))),
        Option::Some(JoinCond::Using(v)) => Option::Some(JoinCond::Using(visit_rel_names(v))),
        Option::Some(JoinCond::AsOf { match_condition, on, raw: craw }) => Option::Some(
            visit_asof_cond(match_condition, on, craw),
        ),
        Option::Some(JoinCond::Raw(c)) => Option::Some(JoinCond::Raw(c)),
        Option::None => Option::None,
    };
    JoinNode { relation: relation2, cond: cond2, raw }
}

/// Normalize the joins of a SELECT's FROM item.
#[verifier::loop_isolation(false)]
pub fn visit_joins_select(v: Vec<JoinNode>) -> (r: Vec<JoinNode>)
    ensures
        join_views(r@, 0) == norm_joins_select(join_views(v@, 0), 0),
    decreases v,
{
    let ghost v0 = v;
    let mut v = v;
    let ghost orig = v@;
    let n = v.len();
    let mut i: usize = 0;
    while i < n
        invariant
            v0@ == orig,
            i <= n,
            n == v@.len(),
            v@.len() == orig.len(),
            forall|j: int|
                0 <= j < i ==> join_view_one(#[trigger] v@[j]) == norm_join_select(
                    join_view_one(orig[j]),
                ),
            forall|j: int| i <= j < orig.len() ==> v@[j] == orig[j],
        decreases n - i,
    {
        let ghost before = v@;
        let x = v.remove(i);
        proof {
            assert(x == v0@[i as int]);
            assert(decreases_to!(v0 => x));
        }
        let y = visit_join_select(x);
        v.insert(i, y);
        proof {
            assert(v@ =~= before.update(i as int, y));
        }
        i = i + 1;
    }
    proof {
        lemma_join_views_index(v@, 0);
        lemma_join_views_index(orig, 0);
        lemma_norm_joins_select_index(join_views(orig, 0), 0);
        assert(join_views(v@, 0) =~= norm_joins_select(join_views(orig, 0), 0));
    }
    v
}

/// Normalize joins outside a SELECT.
#[verifier::loop_isolation(false)]
pub fn visit_joins_walk(v: Vec<JoinNode>) -> (r: Vec<JoinNode>)
    ensures
        join_views(r@, 0) == norm_joins_walk(join_views(v@, 0), 0),
    decreases v,
{
    let ghost v0 = v;
    let mut v = v;
    let ghost orig = v@;
    let n = v.len();
    let mut i: usize = 0;
    while i < n
        invariant
            v0@ == orig,
            i <= n,
            n == v@.len(),
            v@.len() == orig.len(),
            forall|j: int|
                0 <= j < i ==> join_view_one(#[trigger] v@[j]) == norm_join_walk(
                    join_view_one(orig[j]),
                ),
            forall|j: int| i <= j < orig.len() ==> v@[j] == orig[j],
        decreases n - i,
    {
        let ghost before = v@;
        let x = v.remove(i);
        proof {
            assert(x == v0@[i as int]);
            assert(decreases_to!(v0 => x));
        }
        let y = visit_join_walk(x);
        v.insert(i, y);
        proof {
            assert(v@ =~= before.update(i as int, y));
        }
        i = i + 1;
    }
    proof {
        lemma_join_views_index(v@, 0);
        lemma_join_views_index(orig, 0);
        lemma_norm_joins_walk_index(join_views(orig, 0), 0);
        assert(join_views(v@, 0) =~= norm_joins_walk(join_views(orig, 0), 0));
    }
    v
}

/// Normalize one FROM item of a SELECT.
pub fn visit_from_item_select(f: FromItem) -> (r: FromItem)
    ensures
        r@ == norm_from_item_select(f@),
    decreases f,
{
    let FromItem { relation, joins } = f;
    let relation2 = visit_table_factor(relation);
    let joins2 = visit_joins_select(joins);
    FromItem { relation: relation2, joins: joins2 }
}

/// Normalize one FROM-shaped item outside a SELECT.
pub fn visit_from_item_walk(f: FromItem) -> (r: FromItem)
    ensures
        r@ == norm_from_item_walk(f@),
    decreases f,
{
    let FromItem { relation, joins } = f;
    let relation2 = visit_table_factor(relation);
    let joins2 = visit_joins_walk(joins);
    FromItem { relation: relation2, joins: joins2 }
}

/// Normalize the FROM list of a SELECT.
#[verifier::loop_isolation(false)]
pub fn visit_from_items_select(v: Vec<FromItem>) -> (r: Vec<FromItem>)
    ensures
        from_item_views(r@, 0) == norm_from_items_select(from_item_views(v@, 0), 0),
    decreases v,
{
    let ghost v0 = v;
    let mut v = v;
    let ghost orig = v@;
    let n = v.len();
    let mut i: usize = 0;
    while i < n
        invariant
            v0@ == orig,
            i <= n,
            n == v@.len(),
            v@.len() == orig.len(),
            forall|j: int|
                0 <= j < i ==> from_item_view(#[trigger] v@[j]) == norm_from_item_select(
                    from_item_view(orig[j]),
                ),
            forall|j: int| i <= j < orig.len() ==> v@[j] == orig[j],
        decreases n - i,
    {
        let ghost before = v@;
        let x = v.remove(i);
        proof {
            assert(x == v0@[i as int]);
            assert(decreases_to!(v0 => x));
        }
        let y = visit_from_item_select(x);
        v.insert(i, y);
        proof {
            assert(v@ =~= before.update(i as int, y));
        }
        i = i + 1;
    }
    proof {
        lemma_from_item_views_index(v@, 0);
        lemma_from_item_views_index(orig, 0);
        lemma_norm_from_items_select_index(from_item_views(orig, 0), 0);
        assert(from_item_views(v@, 0) =~= norm_from_items_select(from_item_views(orig, 0), 0));
    }
    v
}

/// Normalize a FROM-shaped list outside a SELECT.
#[verifier::loop_isolation(false)]
pub fn visit_from_items_walk(v: Vec<FromItem>) -> (r: Vec<FromItem>)
    ensures
        from_item_views(r@, 0) == norm_from_items_walk(from_item_views(v@, 0), 0),
    decreases v,
{
    let ghost v0 = v;
    let mut v = v;
    let ghost orig = v@;
    let n = v.len();
    let mut i: usize = 0;
    while i < n
        invariant
            v0@ == orig,
            i <= n,
            n == v@.len(),
            v@.len() == orig.len(),
            forall|j: int|
                0 <= j < i ==> from_item_view(#[trigger] v@[j]) == norm_from_item_walk(
                    from_item_view(orig[j]),
                ),
            forall|j: int| i <= j < orig.len() ==> v@[j] == orig[j],
        decreases n - i,
    {
        let ghost before = v@;
        let x = v.remove(i);
        proof {
            assert(x == v0@[i as int]);
            assert(decreases_to!(v0 => x));
        }
        let y = visit_from_item_walk(x);
        v.insert(i, y);
        proof {
            assert(v@ =~= before.update(i as int, y));
        }
        i = i + 1;
    }
    proof {
        lemma_from_item_views_index(v@, 0);
        lemma_from_item_views_index(orig, 0);
        lemma_norm_from_items_walk_index(from_item_views(orig, 0), 0);
        assert(from_item_views(v@, 0) =~= norm_from_items_walk(from_item_views(orig, 0), 0));
    }
    v
}

/// Normalize the surviving clauses of a SELECT: identifiers only.
pub fn visit_select_walk(w: SelectWalk) -> (r: SelectWalk)
    ensures
        r@ == norm_select_walk(w@),
{
    let SelectWalk { prewhere, cluster_by, distribute_by, sort_by, having, qualify } = w;
    SelectWalk {
        prewhere: visit_opt_expr(prewhere),
        cluster_by: visit_exprs_walk(cluster_by),
        distribute_by: visit_exprs_walk(distribute_by),
        sort_by: visit_order_entries_walk(sort_by),
        having: visit_opt_expr(having),
        qualify: visit_opt_expr(qualify),
    }
}

/// Normalize one SELECT block.
pub fn visit_select(s: SelectNode) -> (r: SelectNode)
    ensures
        r@ == norm_select(s@),
    decreases s,
{
    let SelectNode { projection, distinct, from, selection, group_by, walk, raw } = s;
    let projection2 = visit_projection(projection);
    let distinct2 = match distinct {
        Option::Some(d) => Option::Some(visit_distinct(d)),
        Option::None => Option::None,
    };
    let from2 = visit_from_items_select(from);
    let selection2 = match selection {
        Option::Some(_) => Option::Some(SqlExpr::Placeholder),
        Option::None => Option::None,
    };
    let group_by2 = visit_group_by(group_by);
    let walk2 = visit_select_walk(walk);
    let r = SelectNode {
        projection: projection2,
        distinct: distinct2,
        from: from2,
        selection: selection2,
        group_by: group_by2,
        walk: walk2,
        raw,
    };
    r
}

/// Normalize a query body: every leaf SELECT of a set-operation tree,
/// every parenthesized query, and the rows of a bare VALUES body.
pub fn visit_set_expr(e: SetExprNode) -> (r: SetExprNode)
    ensures
        r@ == norm_set_expr(e@),
    decreases e,
{
    match e {
        SetExprNode::Select(s) => SetExprNode::Select(Box::new(visit_select(*s))),
        SetExprNode::SetOp { left, right, raw } => {
            let left2 = visit_set_expr(*left);
            let right2 = visit_set_expr(*right);
            SetExprNode::SetOp { left: Box::new(left2), right: Box::new(right2), raw }
        },
        SetExprNode::Nested(q) => SetExprNode::Nested(Box::new(visit_query(*q))),
        SetExprNode::Values { rows, raw } => {
            let rows2 = visit_rows(rows);
            SetExprNode::Values { rows: rows2, raw }
        },
        SetExprNode::Raw(x) => SetExprNode::Raw(x),
    }
}

/// Normalize the common table expressions of a WITH clause.
#[verifier::loop_isolation(false)]
pub fn visit_ctes(v: Vec<CteNode>) -> (r: Vec<CteNode>)
    ensures
        cte_views(r@, 0) == norm_ctes(cte_views(v@, 0), 0),
    decreases v,
{
    let ghost v0 = v;
    let mut v = v;
    let ghost orig = v@;
    let n = v.len();
    let mut i: usize = 0;
    while i < n
        invariant
            v0@ == orig,
            i <= n,
            n == v@.len(),
            v@.len() == orig.len(),
            forall|j: int|
                0 <= j < i ==> query_view(*(#[trigger] v@[j]).query) == norm_query(
                    query_view(*orig[j].query),
                ) && v@[j].raw == orig[j].raw,
            forall|j: int| i <= j < orig.len() ==> v@[j] == orig[j],
        decreases n - i,
    {
        let ghost before = v@;
        let x = v.remove(i);
        proof {
            assert(x == v0@[i as int]);
            assert(decreases_to!(v0 => *x.query));
        }
        let q2 = visit_query(*x.query);
        let y = CteNode { query: Box::new(q2), raw: x.raw };
        v.insert(i, y);
        proof {
            assert(v@ =~= before.update(i as int, y));
        }
        i = i + 1;
    }
    proof {
        lemma_cte_views_index(v@, 0);
        lemma_cte_views_index(orig, 0);
        lemma_norm_ctes_index(cte_views(orig, 0), 0);
        assert(cte_views(v@, 0) =~= norm_ctes(cte_views(orig, 0), 0));
    }
    v
}

/// Normalize one query: its CTEs, body, ORDER BY and LIMIT family.
pub fn visit_query(q: QueryNode) -> (r: QueryNode)
    ensures
        r@ == norm_query(q@),
    decreases q,
{
    let QueryNode { with, body, order_by, limit, raw } = q;
    let with2 = match with {
        Option::Some(w) => {
            let ctes2 = visit_ctes(w.ctes);
            Option::Some(WithNode { ctes: ctes2, raw: w.raw })
        },
        Option::None => Option::None,
    };
    let body2 = visit_set_expr(*body);
    let order_by2 = match order_by {
        Option::Some(o) => Option::Some(visit_order_by(o)),
        Option::None => Option::None,
    };
    let limit2 = match limit {
        Option::Some(l) => Option::Some(visit_limit(l)),
        Option::None => Option::None,
    };
    QueryNode { with: with2, body: Box::new(body2), order_by: order_by2, limit: limit2, raw }
}

// ---------------------------------------------------------------------
// Statements

/// Normalize one DECLARE item: collapse a non-empty name list to one
/// placeholder identifier and normalize an embedded cursor query.
pub fn visit_declare_item(d: DeclareItem) -> (r: DeclareItem)
    ensures
        declare_item_view(r) == norm_declare_item(declare_item_view(d)),
{
    let DeclareItem { names, for_query, raw } = d;
    let names2 = if names.len() > 0 {
        let mut out: Vec<SqlIdent> = Vec::new();
        out.push(dots_ident());
        proof {
            assert(out@.map_values(|i: SqlIdent| i@) =~= seq![spec_dots_ident()]);
        }
        out
    } else {
        names
    };
    let for_query2 = match for_query {
        Option::Some(q) => Option::Some(Box::new(visit_query(*q))),
        Option::None => Option::None,
    };
    DeclareItem { names: names2, for_query: for_query2, raw }
}

/// Normalize each DECLARE item of a statement.
pub fn visit_declare_items(v: Vec<DeclareItem>) -> (r: Vec<DeclareItem>)
    ensures
        declare_item_views(r@, 0) == norm_declare_items(declare_item_views(v@, 0), 0),
{
    let mut v = v;
    let ghost orig = v@;
    let n = v.len();
    let mut i: usize = 0;
    while i < n
        invariant
            i <= n,
            n == v@.len(),
            v@.len() == orig.len(),
            forall|j: int|
                0 <= j < i ==> declare_item_view(#[trigger] v@[j]) == norm_declare_item(
                    declare_item_view(orig[j]),
                ),
            forall|j: int| i <= j < orig.len() ==> v@[j] == orig[j],
        decreases n - i,
    {
        let ghost before = v@;
        let x = v.remove(i);
        let y = visit_declare_item(x);
        v.insert(i, y);
        proof {
            assert(v@ =~= before.update(i as int, y));
        }
        i = i + 1;
    }
    proof {
        lemma_declare_item_views_index(v@, 0);
        lemma_declare_item_views_index(orig, 0);
        lemma_norm_declare_items_index(declare_item_views(orig, 0), 0);
        assert(declare_item_views(v@, 0) =~= norm_declare_items(declare_item_views(orig, 0), 0));
    }
    v
}

/// Normalize the target table name of an INSERT.
pub fn visit_insert_target(t: InsertTarget) -> (r: InsertTarget)
    ensures
        r@ == norm_insert_target(t@),
{
    match t {
        InsertTarget::Named(n) => InsertTarget::Named(visit_rel_name(n)),
        InsertTarget::Raw(x) => InsertTarget::Raw(x),
    }
}

/// Normalize an ON CONFLICT clause: collapse an explicit column target,
/// a DO-UPDATE assignment list, and a DO-UPDATE WHERE predicate.
pub fn visit_on_insert(o: OnInsertKind) -> (r: OnInsertKind)
    ensures
        r@ == norm_on_insert(o@),
{
    match o {
        OnInsertKind::Conflict { target, action } => {
            let target2 = match target {
                Option::Some(ConflictTargetKind::Columns(cols)) => {
                    if cols.len() > 0 {
                        let mut out: Vec<SqlIdent> = Vec::new();
                        out.push(dots_ident());
                        proof {
                            assert(out@.map_values(|i: SqlIdent| i@) =~= seq![spec_dots_ident()]);
                        }
                        Option::Some(ConflictTargetKind::Columns(out))
                    } else {
                        Option::Some(ConflictTargetKind::Columns(cols))
                    }
                },
                Option::Some(ConflictTargetKind::Raw(x)) => Option::Some(
                    ConflictTargetKind::Raw(x),
                ),
                Option::None => Option::None,
            };
            let action2 = match action {
                ConflictAction::DoUpdate { assignments, selection } => {
                    let assignments2 = visit_assignments(assignments);
                    let selection2 = match selection {
                        Option::Some(_) => Option::Some(SqlExpr::Placeholder),
                        Option::None => Option::None,
                    };
                    ConflictAction::DoUpdate { assignments: assignments2, selection: selection2 }
                },
                ConflictAction::Raw(x) => ConflictAction::Raw(x),
            };
            OnInsertKind::Conflict { target: target2, action: action2 }
        },
        OnInsertKind::Raw(x) => OnInsertKind::Raw(x),
    }
}

/// Normalize an INSERT statement.
pub fn visit_insert(n: InsertNode) -> (r: InsertNode)
    ensures
        r@ == norm_insert(n@),
{
    let InsertNode { table, columns, source, assignments, on, returning, raw } = n;
    let assignments2 = visit_assign_items_walk(assignments);
    let table2 = visit_insert_target(table);
    let columns2 = if columns.len() > 0 {
        let mut parts: Vec<NamePart> = Vec::new();
        parts.push(NamePart::Ident(dots_ident()));
        let name = RelName { parts };
        proof {
            assert(name@.parts =~= seq![SpecNamePart::Ident(spec_dots_ident())]);
        }
        let mut out: Vec<RelName> = Vec::new();
        out.push(name);
        proof {
            assert(out@.map_values(|c: RelName| c@) =~= dots_columns());
        }
        out
    } else {
        columns
    };
    let source2 = match source {
        Option::Some(q) => {
            let QueryNode { with, body, order_by, limit, raw: qraw } = *q;
            let body2 = match *body {
                SetExprNode::Values { rows: _, raw: vraw } => {
                    let mut row: Vec<SqlExpr> = Vec::new();
                    row.push(SqlExpr::Placeholder);
                    let mut rows2: Vec<Vec<SqlExpr>> = Vec::new();
                    rows2.push(row);
                    proof {
                        assert(rows2@.map_values(
                            |r2: Vec<SqlExpr>| r2@.map_values(|x: SqlExpr| x@),
                        ) =~~= seq![seq![SpecExpr::Placeholder]]);
                    }
                    SetExprNode::Values { rows: rows2, raw: vraw }
                },
                other => other,
            };
            let q2 = QueryNode {
                with,
                body: Box::new(body2),
                order_by,
                limit,
                raw: qraw,
            };
            let q3 = visit_query(q2);
            Option::Some(Box::new(q3))
        },
        Option::None => Option::None,
    };
    let on2 = match on {
        Option::Some(o) => Option::Some(visit_on_insert(o)),
        Option::None => Option::None,
    };
    let returning2 = visit_returning(returning);
    InsertNode {
        table: table2,
        columns: columns2,
        source: source2,
        assignments: assignments2,
        on: on2,
        returning: returning2,
        raw,
    }
}

/// Normalize the FROM clause of an UPDATE: its tables and joins are
/// walked, with no collapse rule.
pub fn visit_update_from(f: UpdateFromKind) -> (r: UpdateFromKind)
    ensures
        crate::tree::update_from_view(r) == norm_update_from(crate::tree::update_from_view(f)),
{
    match f {
        UpdateFromKind::BeforeSet(v) => UpdateFromKind::BeforeSet(visit_from_items_walk(v)),
        UpdateFromKind::AfterSet(v) => UpdateFromKind::AfterSet(visit_from_items_walk(v)),
    }
}

/// Normalize an UPDATE statement.
pub fn visit_update(n: UpdateNode) -> (r: UpdateNode)
    ensures
        r@ == norm_update(n@),
{
    let UpdateNode { table, assignments, from, selection, returning, order_by, raw } = n;
    let table2 = visit_from_item_walk(table);
    let assignments2 = visit_assignments(assignments);
    let from2 = match from {
        Option::Some(f) => Option::Some(visit_update_from(f)),
        Option::None => Option::None,
    };
    let selection2 = match selection {
        Option::Some(_) => Option::Some(SqlExpr::Placeholder),
        Option::None => Option::None,
    };
    let returning2 = visit_returning(returning);
    let order_by2 = visit_order_entries_walk(order_by);
    UpdateNode {
        table: table2,
        assignments: assignments2,
        from: from2,
        selection: selection2,
        returning: returning2,
        order_by: order_by2,
        raw,
    }
}

/// Normalize a DELETE statement.
pub fn visit_delete(n: DeleteNode) -> (r: DeleteNode)
    ensures
        r@ == norm_delete(n@),
{
    let DeleteNode { tables, from, using, selection, returning, raw } = n;
    let tables2 = visit_rel_names(tables);
    let from2 = match from {
        DeleteFrom::WithKeyword(v) => DeleteFrom::WithKeyword(visit_from_items_walk(v)),
        DeleteFrom::WithoutKeyword(v) => DeleteFrom::WithoutKeyword(visit_from_items_walk(v)),
    };
    let using2 = match using {
        Option::Some(v) => Option::Some(visit_from_items_walk(v)),
        Option::None => Option::None,
    };
    let selection2 = match selection {
        Option::Some(_) => Option::Some(SqlExpr::Placeholder),
        Option::None => Option::None,
    };
    let returning2 = visit_returning(returning);
    DeleteNode {
        tables: tables2,
        from: from2,
        using: using2,
        selection: selection2,
        returning: returning2,
        raw,
    }
}

// ---------------------------------------------------------------------
// The visitor

/// The normalization pass over a batch of statements. Its one piece of
/// state is the savepoint alias table, shared by every statement of the
/// batch.
pub struct FingerprintingVisitor {
    pub savepoint_ids: AliasTable,
}

impl View for FingerprintingVisitor {
    type V = SpecAliasTable;

    open spec fn view(&self) -> SpecAliasTable {
        self.savepoint_ids@
    }
}

impl FingerprintingVisitor {
    /// A fresh visitor with an empty alias table.
    pub fn new() -> (v: FingerprintingVisitor)
        ensures
            v@ == Seq::<(Seq<char>, Seq<char>)>::empty(),
    {
        FingerprintingVisitor { savepoint_ids: AliasTable::new() }
    }

    /// Normalize one statement, updating the alias table as SAVEPOINT
    /// statements are seen.
    pub fn visit_statement(&mut self, s: StmtNode) -> (r: StmtNode)
        ensures
            r@ == norm_stmt(s@, old(self)@).0,
            final(self)@ == norm_stmt(s@, old(self)@).1,
        decreases s,
    {
        match s {
            StmtNode::Savepoint { name } => {
                let alias = self.savepoint_ids.assign(&name.value);
                StmtNode::Savepoint { name: SqlIdent { value: alias, quote: Option::None } }
            },
            StmtNode::Release { name } => {
                match self.savepoint_ids.lookup(&name.value) {
                    Option::Some(a) => StmtNode::Release {
                        name: SqlIdent { value: a, quote: Option::None },
                    },
                    Option::None => StmtNode::Release { name },
                }
            },
            StmtNode::Rollback { chain, name } => {
                let name2 = match name {
                    Option::Some(n) => match self.savepoint_ids.lookup(&n.value) {
                        Option::Some(a) => Option::Some(
                            SqlIdent { value: a, quote: Option::None },
                        ),
                        Option::None => Option::Some(n),
                    },
                    Option::None => Option::None,
                };
                StmtNode::Rollback { chain, name: name2 }
            },
            StmtNode::Declare { items } => StmtNode::Declare {
                items: visit_declare_items(items),
            },
            StmtNode::Insert(n) => StmtNode::Insert(visit_insert(n)),
            StmtNode::Update(n) => StmtNode::Update(visit_update(n)),
            StmtNode::Delete(n) => StmtNode::Delete(visit_delete(n)),
            StmtNode::Query(q) => StmtNode::Query(Box::new(visit_query(*q))),
            StmtNode::Explain { inner, raw } => {
                let inner2 = self.visit_statement(*inner);
                StmtNode::Explain { inner: Box::new(inner2), raw }
            },
            StmtNode::CreateView { name, query, raw } => StmtNode::CreateView {
                name: visit_rel_name(name),
                query: Box::new(visit_query(*query)),
                raw,
            },
            StmtNode::CreateTable { name, query, raw } => StmtNode::CreateTable {
                name: visit_rel_name(name),
                query: match query {
                    Option::Some(q) => Option::Some(Box::new(visit_query(*q))),
                    Option::None => Option::None,
                },
                raw,
            },
            StmtNode::Raw(x) => StmtNode::Raw(x),
        }
    }

    /// Normalize a sequence of statements in order, threading the alias
    /// table through all of them.
    pub fn visit_statements(&mut self, v: Vec<StmtNode>) -> (r: Vec<StmtNode>)
        ensures
            r@.map_values(|s: StmtNode| s@) == norm_stmts(
                v@.map_values(|s: StmtNode| s@),
                old(self)@,
            ).0,
            final(self)@ == norm_stmts(v@.map_values(|s: StmtNode| s@), old(self)@).1,
    {
        let ghost t0 = self@;
        let ghost orig = v@.map_values(|s: StmtNode| s@);
        let mut v = v;
        let mut out: Vec<StmtNode> = Vec::new();
        proof {
            assert(orig.take(0) =~= Seq::<SpecStmtNode>::empty());
            assert(norm_stmts(orig.take(0), t0).0 =~= Seq::<SpecStmtNode>::empty());
            assert(out@.map_values(|s: StmtNode| s@) =~= Seq::<SpecStmtNode>::empty());
        }
        let n = v.len();
        let mut i: usize = 0;
        while i < n
            invariant
                i <= n,
                n == orig.len(),
                v@.len() == n - i,
                forall|j: int| 0 <= j < n - i ==> v@[j]@ == orig[i + j],
                out@.map_values(|s: StmtNode| s@) == norm_stmts(orig.take(i as int), t0).0,
                self@ == norm_stmts(orig.take(i as int), t0).1,
            decreases n - i,
        {
            let ghost outv0 = out@.map_values(|s: StmtNode| s@);
            let x = v.remove(0);
            let y = self.visit_statement(x);
            out.push(y);
            proof {
                lemma_norm_stmts_push(orig.take(i as int), x@, t0);
                assert(orig.take(i as int + 1) =~= orig.take(i as int).push(orig[i as int]));
                assert(out@.map_values(|s: StmtNode| s@) =~= outv0.push(y@));
            }
            i = i + 1;
        }
        proof {
            assert(orig.take(n as int) =~= orig);
        }
        out
    }
}

} // verus!
