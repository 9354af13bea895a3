//! Laws of the normalization pass, stated and proved over the spec-level
//! rules: savepoint aliases are numbered by first-occurrence order and
//! lookup resolves to the assigned alias; normalizing a normalized
//! statement changes nothing; statements differing only in collapsed
//! literal values normalize alike; every covered identifier position is
//! minimally quoted after the pass; and an unparsable batch entry leaves
//! every other entry untouched.

use vstd::prelude::*;

use crate::alias::{alias_text, find_from, spec_assign, spec_lookup, SpecAliasTable};
use crate::rules::{
    lemma_norm_ctes_index, lemma_norm_declare_items_index, lemma_norm_from_items_select_index,
    lemma_norm_from_items_walk_index, lemma_norm_joins_select_index, lemma_norm_joins_walk_index,
    norm_ctes, norm_declare_item, norm_declare_items, norm_expr, norm_from_item_select,
    norm_from_item_walk, norm_from_items_select, norm_from_items_walk, norm_ident, norm_insert,
    norm_insert_source, norm_join_select, norm_join_walk, norm_joins_select, norm_joins_walk,
    norm_name_part, norm_opt_expr_walk, norm_order_entries_walk, norm_order_entry_walk,
    norm_projection, norm_query, norm_rel_name, norm_select, norm_select_walk, norm_set_expr,
    norm_stmt, norm_table_ref,
};
use crate::bridge::{parsed_nodes, parsed_shape, SqlDialect};
use crate::rules::{
    lemma_norm_func_args_index, norm_assign_item_walk, norm_assign_items_walk, norm_func_arg,
    norm_func_args,
};
use crate::{batch_element, fingerprint_spec, table_after};
use crate::tree::{
    SpecAssignItem, SpecAssignTargetKind, SpecDeclareItem, SpecDeleteFrom, SpecExpr,
    SpecFromItem, SpecFuncArg, SpecIdent, SpecJoinNode, SpecOrderEntry, SpecQueryNode,
    SpecRelName, SpecSelectNode, SpecSelectWalk, SpecSetExprNode, SpecStmtNode, SpecTableRef,
    SpecUpdateFromKind,
};

verus! {

/// The table after assigning every name of `names` in order, starting
/// from `t`.
pub open spec fn assign_all(t: SpecAliasTable, names: Seq<Seq<char>>) -> SpecAliasTable
    decreases names.len(),
{
    if names.len() == 0 {
        t
    } else {
        assign_all(spec_assign(t, names[0]).0, names.drop_first())
    }
}

/// No two of the names are equal.
pub open spec fn distinct_names(names: Seq<Seq<char>>) -> bool {
    forall|i: int, j: int| 0 <= i < j < names.len() ==> names[i] != names[j]
}

proof fn lemma_find_from_absent(t: SpecAliasTable, name: Seq<char>, i: int)
    requires
        forall|k: int| 0 <= k < t.len() ==> t[k].0 != name,
    ensures
        find_from(t, name, i) == -1,
    decreases t.len() - i,
{
    if 0 <= i < t.len() {
        lemma_find_from_absent(t, name, i + 1);
    }
}

proof fn lemma_find_from_present(t: SpecAliasTable, name: Seq<char>, i: int, k: int)
    requires
        0 <= i <= k < t.len(),
        t[k].0 == name,
        forall|m: int| i <= m < k ==> t[m].0 != name,
    ensures
        find_from(t, name, i) == k,
    decreases t.len() - i,
{
    if i < k {
        lemma_find_from_present(t, name, i + 1, k);
    }
}

/// Savepoint numbering: assigning pairwise distinct names to an empty
/// table gives the `i`-th name the alias `s{i+1}`, by first-occurrence
/// order across the whole batch, and the finished table still maps each
/// name to that alias.
pub proof fn lemma_savepoint_numbering(names: Seq<Seq<char>>)
    requires
        distinct_names(names),
    ensures
        assign_all(Seq::empty(), names).len() == names.len(),
        forall|i: int|
            0 <= i < names.len() ==> #[trigger] assign_all(Seq::empty(), names)[i] == (
            names[i],
            alias_text((i + 1) as nat),
            ),
{
    let t0: SpecAliasTable = Seq::empty();
    lemma_assign_all_from(t0, names);
    assert forall|i: int| 0 <= i < names.len() implies #[trigger] assign_all(t0, names)[i] == (
        names[i],
        alias_text((i + 1) as nat),
    ) by {
        assert(assign_all(t0, names)[t0.len() + i] == (
            names[i],
            alias_text((t0.len() + i + 1) as nat),
        ));
    }
}

proof fn lemma_assign_all_from(t: SpecAliasTable, names: Seq<Seq<char>>)
    requires
        forall|k: int, i: int|
            0 <= k < t.len() && 0 <= i < names.len() ==> t[k].0 != names[i],
        distinct_names(names),
    ensures
        assign_all(t, names).len() == t.len() + names.len(),
        forall|k: int| 0 <= k < t.len() ==> #[trigger] assign_all(t, names)[k] == t[k],
        forall|i: int|
            0 <= i < names.len() ==> #[trigger] assign_all(t, names)[t.len() + i] == (
            names[i],
            alias_text((t.len() + i + 1) as nat),
            ),
    decreases names.len(),
{
    if names.len() > 0 {
        let n0 = names[0];
        lemma_find_from_absent(t, n0, 0);
        let t2 = spec_assign(t, n0).0;
        assert(t2 =~= t.push((n0, alias_text((t.len() + 1) as nat))));
        lemma_assign_all_from(t2, names.drop_first());
        assert forall|i: int| 0 <= i < names.len() implies #[trigger] assign_all(t, names)[t.len()
            + i] == (names[i], alias_text((t.len() + i + 1) as nat)) by {
            if i > 0 {
                assert(names.drop_first()[i - 1] == names[i]);
                assert(assign_all(t2, names.drop_first())[t2.len() + (i - 1)] == (
                    names[i],
                    alias_text((t2.len() + i) as nat),
                ));
            }
        }
    }
}

/// Alias lookup is stable: after a batch of pairwise distinct names is
/// assigned, looking any of them up yields exactly the alias it received.
pub proof fn lemma_lookup_stable(names: Seq<Seq<char>>, i: int)
    requires
        distinct_names(names),
        0 <= i < names.len(),
    ensures
        spec_lookup(assign_all(Seq::empty(), names), names[i]) == Option::Some(
            alias_text((i + 1) as nat),
        ),
{
    let t = assign_all(Seq::empty(), names);
    lemma_savepoint_numbering(names);
    assert(t[i].0 == names[i]);
    assert(forall|m: int| 0 <= m < i ==> t[m].0 != names[i]);
    lemma_find_from_present(t, names[i], 0, i);
}

/// Savepoint numbering over statements: in a batch of SAVEPOINT
/// statements on pairwise distinct names, the `i`-th statement is
/// rewritten to the unquoted alias `s{i+1}`, whatever the names were and
/// however they were quoted.
pub proof fn lemma_batch_savepoint_aliases(stmts: Seq<SpecStmtNode>, names: Seq<Seq<char>>)
    requires
        names.len() == stmts.len(),
        forall|i: int|
            0 <= i < stmts.len() ==> match #[trigger] stmts[i] {
                SpecStmtNode::Savepoint { name } => name.value == names[i],
                _ => false,
            },
        distinct_names(names),
    ensures
        crate::rules::norm_stmts(stmts, Seq::empty()).0.len() == stmts.len(),
        forall|i: int|
            0 <= i < stmts.len() ==> #[trigger] crate::rules::norm_stmts(
                stmts,
                Seq::empty(),
            ).0[i] == (SpecStmtNode::Savepoint {
                name: SpecIdent { value: alias_text((i + 1) as nat), quote: Option::None },
            }),
{
    let t0: SpecAliasTable = Seq::empty();
    lemma_batch_savepoint_aliases_from(stmts, names, t0);
    assert forall|i: int| 0 <= i < stmts.len() implies #[trigger] crate::rules::norm_stmts(
        stmts,
        t0,
    ).0[i] == (SpecStmtNode::Savepoint {
        name: SpecIdent { value: alias_text((i + 1) as nat), quote: Option::None },
    }) by {
        assert(crate::rules::norm_stmts(stmts, t0).0[i] == (SpecStmtNode::Savepoint {
            name: SpecIdent { value: alias_text((t0.len() + i + 1) as nat), quote: Option::None },
        }));
    }
}

proof fn lemma_batch_savepoint_aliases_from(
    stmts: Seq<SpecStmtNode>,
    names: Seq<Seq<char>>,
    t: SpecAliasTable,
)
    requires
        names.len() == stmts.len(),
        forall|i: int|
            0 <= i < stmts.len() ==> match #[trigger] stmts[i] {
                SpecStmtNode::Savepoint { name } => name.value == names[i],
                _ => false,
            },
        distinct_names(names),
        forall|k: int, i: int|
            0 <= k < t.len() && 0 <= i < names.len() ==> t[k].0 != names[i],
    ensures
        crate::rules::norm_stmts(stmts, t).0.len() == stmts.len(),
        forall|i: int|
            0 <= i < stmts.len() ==> #[trigger] crate::rules::norm_stmts(stmts, t).0[i] == (
            SpecStmtNode::Savepoint {
                name: SpecIdent {
                    value: alias_text((t.len() + i + 1) as nat),
                    quote: Option::None,
                },
            }),
    decreases stmts.len(),
{
    if stmts.len() > 0 {
        let n0 = names[0];
        lemma_find_from_absent(t, n0, 0);
        let first = crate::rules::norm_stmt(stmts[0], t);
        let t2 = first.1;
        assert(t2 =~= t.push((n0, alias_text((t.len() + 1) as nat))));
        assert(first.0 == (SpecStmtNode::Savepoint {
            name: SpecIdent { value: alias_text((t.len() + 1) as nat), quote: Option::None },
        }));
        assert(forall|i: int|
            0 <= i < stmts.drop_first().len() ==> #[trigger] stmts.drop_first()[i]
                == stmts[i + 1]);
        lemma_batch_savepoint_aliases_from(stmts.drop_first(), names.drop_first(), t2);
        assert forall|i: int| 0 <= i < stmts.len() implies #[trigger] crate::rules::norm_stmts(
            stmts,
            t,
        ).0[i] == (SpecStmtNode::Savepoint {
            name: SpecIdent { value: alias_text((t.len() + i + 1) as nat), quote: Option::None },
        }) by {
            if i > 0 {
                assert(crate::rules::norm_stmts(stmts, t).0[i] == crate::rules::norm_stmts(
                    stmts.drop_first(),
                    t2,
                ).0[i - 1]);
            }
        }
    }
}

// ---------------------------------------------------------------------
// Idempotence: normalizing an already normalized tree changes nothing.

proof fn lemma_rel_name_idem(n: crate::tree::SpecRelName)
    ensures
        norm_rel_name(norm_rel_name(n)) == norm_rel_name(n),
{
    assert(norm_rel_name(norm_rel_name(n)).parts =~= norm_rel_name(n).parts);
}

proof fn lemma_expr_idem(e: SpecExpr)
    ensures
        norm_expr(norm_expr(e)) == norm_expr(e),
    decreases e,
{
    match e {
        SpecExpr::Compound(v) => {
            let f = |i: SpecIdent| norm_ident(i);
            assert(v.map_values(f).map_values(f) =~= v.map_values(f));
        },
        SpecExpr::Binary { left, op, right } => {
            lemma_expr_idem(*left);
            lemma_expr_idem(*right);
        },
        SpecExpr::Unary { op, expr } => lemma_expr_idem(*expr),
        SpecExpr::Nested(x) => lemma_expr_idem(*x),
        SpecExpr::Wrapped { expr, raw } => lemma_expr_idem(*expr),
        SpecExpr::Func { name, args, raw } => {
            lemma_rel_name_idem(name);
            let once = norm_func_args(args, 0);
            lemma_norm_func_args_index(args, 0);
            lemma_norm_func_args_index(once, 0);
            assert forall|k: int| 0 <= k < args.len() implies norm_func_args(once, 0)[k]
                == once[k] by {
                lemma_func_arg_idem(args[k]);
            }
            assert(norm_func_args(once, 0) =~= once);
        },
        _ => {},
    }
}

proof fn lemma_func_arg_idem(a: SpecFuncArg)
    ensures
        norm_func_arg(norm_func_arg(a)) == norm_func_arg(a),
    decreases a,
{
    match a {
        SpecFuncArg::ExprArg { expr, raw } => lemma_expr_idem(expr),
        SpecFuncArg::WildcardArg { name, raw } => lemma_rel_name_idem(name),
        SpecFuncArg::Raw(_) => {},
    }
}

proof fn lemma_exprs_idem(v: Seq<SpecExpr>)
    ensures
        v.map_values(|x: SpecExpr| norm_expr(x)).map_values(|x: SpecExpr| norm_expr(x))
            == v.map_values(|x: SpecExpr| norm_expr(x)),
{
    let f = |x: SpecExpr| norm_expr(x);
    assert forall|k: int| 0 <= k < v.len() implies f(f(v[k])) == f(v[k]) by {
        lemma_expr_idem(v[k]);
    }
    assert(v.map_values(f).map_values(f) =~= v.map_values(f));
}

proof fn lemma_opt_expr_walk_idem(e: Option<SpecExpr>)
    ensures
        norm_opt_expr_walk(norm_opt_expr_walk(e)) == norm_opt_expr_walk(e),
{
    match e {
        Option::Some(x) => lemma_expr_idem(x),
        Option::None => {},
    }
}

proof fn lemma_order_entries_walk_idem(v: Seq<SpecOrderEntry>)
    ensures
        norm_order_entries_walk(norm_order_entries_walk(v)) == norm_order_entries_walk(v),
{
    let f = |e: SpecOrderEntry| norm_order_entry_walk(e);
    assert forall|k: int| 0 <= k < v.len() implies f(f(v[k])) == f(v[k]) by {
        lemma_expr_idem(v[k].expr);
    }
    assert(v.map_values(f).map_values(f) =~= v.map_values(f));
}

proof fn lemma_rel_names_idem(v: Seq<SpecRelName>)
    ensures
        v.map_values(|t: SpecRelName| norm_rel_name(t)).map_values(
            |t: SpecRelName| norm_rel_name(t),
        ) == v.map_values(|t: SpecRelName| norm_rel_name(t)),
{
    let f = |t: SpecRelName| norm_rel_name(t);
    assert forall|k: int| 0 <= k < v.len() implies f(f(v[k])) == f(v[k]) by {
        lemma_rel_name_idem(v[k]);
    }
    assert(v.map_values(f).map_values(f) =~= v.map_values(f));
}

proof fn lemma_assign_item_walk_idem(a: SpecAssignItem)
    ensures
        norm_assign_item_walk(norm_assign_item_walk(a)) == norm_assign_item_walk(a),
{
    match a {
        SpecAssignItem::Pair { target, value } => {
            match target {
                SpecAssignTargetKind::Column(n) => lemma_rel_name_idem(n),
                SpecAssignTargetKind::Raw(_) => {},
            }
            lemma_expr_idem(value);
        },
        SpecAssignItem::Placeholder => {},
    }
}

proof fn lemma_assign_items_walk_idem(v: Seq<SpecAssignItem>)
    ensures
        norm_assign_items_walk(norm_assign_items_walk(v)) == norm_assign_items_walk(v),
{
    let f = |a: SpecAssignItem| norm_assign_item_walk(a);
    assert forall|k: int| 0 <= k < v.len() implies f(f(v[k])) == f(v[k]) by {
        lemma_assign_item_walk_idem(v[k]);
    }
    assert(v.map_values(f).map_values(f) =~= v.map_values(f));
}

proof fn lemma_select_walk_idem(w: SpecSelectWalk)
    ensures
        norm_select_walk(norm_select_walk(w)) == norm_select_walk(w),
{
    lemma_opt_expr_walk_idem(w.prewhere);
    lemma_exprs_idem(w.cluster_by);
    lemma_exprs_idem(w.distribute_by);
    lemma_order_entries_walk_idem(w.sort_by);
    lemma_opt_expr_walk_idem(w.having);
    lemma_opt_expr_walk_idem(w.qualify);
}

proof fn lemma_table_ref_idem(t: SpecTableRef)
    ensures
        norm_table_ref(norm_table_ref(t)) == norm_table_ref(t),
    decreases t,
{
    match t {
        SpecTableRef::Named { name, raw } => lemma_rel_name_idem(name),
        SpecTableRef::Derived { subquery, raw } => lemma_query_idem(*subquery),
        SpecTableRef::Nested { inner, raw } => lemma_from_item_walk_idem(*inner),
        _ => {},
    }
}

proof fn lemma_join_select_idem(j: SpecJoinNode)
    ensures
        norm_join_select(norm_join_select(j)) == norm_join_select(j),
    decreases j,
{
    lemma_table_ref_idem(j.relation);
    match j.cond {
        Option::Some(crate::tree::SpecJoinCond::Using(v)) => lemma_rel_names_idem(v),
        Option::Some(crate::tree::SpecJoinCond::AsOf { match_condition, on, raw }) => {
            lemma_expr_idem(match_condition);
            lemma_opt_expr_walk_idem(on);
        },
        _ => {},
    }
}

proof fn lemma_join_walk_idem(j: SpecJoinNode)
    ensures
        norm_join_walk(norm_join_walk(j)) == norm_join_walk(j),
    decreases j,
{
    lemma_table_ref_idem(j.relation);
    match j.cond {
        Option::Some(crate::tree::SpecJoinCond::On(e)) => lemma_expr_idem(e),
        Option::Some(crate::tree::SpecJoinCond::Using(v)) => lemma_rel_names_idem(v),
        Option::Some(crate::tree::SpecJoinCond::AsOf { match_condition, on, raw }) => {
            lemma_expr_idem(match_condition);
            lemma_opt_expr_walk_idem(on);
        },
        _ => {},
    }
}

proof fn lemma_from_item_select_idem(f: SpecFromItem)
    ensures
        norm_from_item_select(norm_from_item_select(f)) == norm_from_item_select(f),
    decreases f,
{
    lemma_table_ref_idem(f.relation);
    let once = norm_joins_select(f.joins, 0);
    lemma_norm_joins_select_index(f.joins, 0);
    lemma_norm_joins_select_index(once, 0);
    assert forall|k: int| 0 <= k < f.joins.len() implies norm_joins_select(once, 0)[k]
        == once[k] by {
        lemma_join_select_idem(f.joins[k]);
    }
    assert(norm_joins_select(once, 0) =~= once);
}

proof fn lemma_from_item_walk_idem(f: SpecFromItem)
    ensures
        norm_from_item_walk(norm_from_item_walk(f)) == norm_from_item_walk(f),
    decreases f,
{
    lemma_table_ref_idem(f.relation);
    let once = norm_joins_walk(f.joins, 0);
    lemma_norm_joins_walk_index(f.joins, 0);
    lemma_norm_joins_walk_index(once, 0);
    assert forall|k: int| 0 <= k < f.joins.len() implies norm_joins_walk(once, 0)[k]
        == once[k] by {
        lemma_join_walk_idem(f.joins[k]);
    }
    assert(norm_joins_walk(once, 0) =~= once);
}

proof fn lemma_from_items_walk_idem(v: Seq<SpecFromItem>)
    ensures
        norm_from_items_walk(norm_from_items_walk(v, 0), 0) == norm_from_items_walk(v, 0),
{
    let once = norm_from_items_walk(v, 0);
    lemma_norm_from_items_walk_index(v, 0);
    lemma_norm_from_items_walk_index(once, 0);
    assert forall|k: int| 0 <= k < v.len() implies norm_from_items_walk(once, 0)[k] == once[k] by {
        lemma_from_item_walk_idem(v[k]);
    }
    assert(norm_from_items_walk(once, 0) =~= once);
}

proof fn lemma_select_idem(s: SpecSelectNode)
    ensures
        norm_select(norm_select(s)) == norm_select(s),
    decreases s,
{
    if s.projection.len() > 0 {
        match s.projection[0] {
            crate::tree::SpecProjItem::QualifiedWildcard { name, raw } => {
                lemma_rel_name_idem(name);
            },
            _ => {},
        }
    }
    assert(norm_projection(norm_projection(s.projection)) == norm_projection(s.projection));
    lemma_select_walk_idem(s.walk);
    let once = norm_from_items_select(s.from, 0);
    lemma_norm_from_items_select_index(s.from, 0);
    lemma_norm_from_items_select_index(once, 0);
    assert forall|k: int| 0 <= k < s.from.len() implies norm_from_items_select(once, 0)[k]
        == once[k] by {
        lemma_from_item_select_idem(s.from[k]);
    }
    assert(norm_from_items_select(once, 0) =~= once);
}

proof fn lemma_set_expr_idem(e: SpecSetExprNode)
    ensures
        norm_set_expr(norm_set_expr(e)) == norm_set_expr(e),
    decreases e,
{
    match e {
        SpecSetExprNode::Select(s) => lemma_select_idem(*s),
        SpecSetExprNode::SetOp { left, right, raw } => {
            lemma_set_expr_idem(*left);
            lemma_set_expr_idem(*right);
        },
        SpecSetExprNode::Nested(q) => lemma_query_idem(*q),
        SpecSetExprNode::Values { rows, raw } => {
            let g = |r: Seq<SpecExpr>| r.map_values(|x: SpecExpr| norm_expr(x));
            assert forall|k: int| 0 <= k < rows.len() implies g(g(rows[k])) == g(rows[k]) by {
                lemma_exprs_idem(rows[k]);
            }
            assert(rows.map_values(g).map_values(g) =~= rows.map_values(g));
        },
        SpecSetExprNode::Raw(_) => {},
    }
}

proof fn lemma_query_idem(q: SpecQueryNode)
    ensures
        norm_query(norm_query(q)) == norm_query(q),
    decreases q,
{
    match q.with {
        Option::Some(w) => {
            let once = norm_ctes(w.ctes, 0);
            lemma_norm_ctes_index(w.ctes, 0);
            lemma_norm_ctes_index(once, 0);
            assert forall|k: int| 0 <= k < w.ctes.len() implies norm_ctes(once, 0)[k]
                == once[k] by {
                lemma_query_idem(*w.ctes[k].query);
            }
            assert(norm_ctes(once, 0) =~= once);
        },
        Option::None => {},
    }
    lemma_set_expr_idem(*q.body);
}

proof fn lemma_declare_item_idem(d: SpecDeclareItem)
    ensures
        norm_declare_item(norm_declare_item(d)) == norm_declare_item(d),
{
    match d.for_query {
        Option::Some(q) => lemma_query_idem(*q),
        Option::None => {},
    }
}

proof fn lemma_insert_source_idem(q: SpecQueryNode)
    ensures
        norm_insert_source(norm_insert_source(q)) == norm_insert_source(q),
{
    let collapsed = match *q.body {
        SpecSetExprNode::Values { rows: _, raw } => SpecQueryNode {
            body: Box::new(
                SpecSetExprNode::Values { rows: seq![seq![SpecExpr::Placeholder]], raw },
            ),
            ..q
        },
        _ => q,
    };
    let once = norm_query(collapsed);
    lemma_query_idem(collapsed);
    match *once.body {
        SpecSetExprNode::Values { rows, raw } => {
            let g = |r: Seq<SpecExpr>| r.map_values(|x: SpecExpr| norm_expr(x));
            match *collapsed.body {
                SpecSetExprNode::Values { rows: crows, raw: craw } => {
                    assert(rows == crows.map_values(g));
                    assert(crows =~~= seq![seq![SpecExpr::Placeholder]]);
                    assert(g(crows[0]) =~= seq![SpecExpr::Placeholder]);
                    assert(rows =~~= seq![seq![SpecExpr::Placeholder]]);
                    assert(norm_insert_source(once) == norm_query(once));
                },
                _ => {
                    assert(false);
                },
            }
        },
        _ => {
            assert(norm_insert_source(once) == norm_query(once));
        },
    }
}

/// Fingerprinting a fingerprint changes nothing: re-normalizing a
/// statement that one normalization pass produced, again with a fresh
/// alias table, returns it unchanged.
pub proof fn lemma_statement_idempotent(s: SpecStmtNode)
    ensures
        norm_stmt(norm_stmt(s, Seq::empty()).0, Seq::empty()).0 == norm_stmt(s, Seq::empty()).0,
    decreases s,
{
    let t0: SpecAliasTable = Seq::empty();
    match s {
        SpecStmtNode::Savepoint { name } => {
            let a1 = spec_assign(t0, name.value).1;
            assert(a1 == alias_text(1));
        },
        SpecStmtNode::Release { name } => {},
        SpecStmtNode::Rollback { chain, name } => {},
        SpecStmtNode::Declare { items } => {
            let once = norm_declare_items(items, 0);
            lemma_norm_declare_items_index(items, 0);
            lemma_norm_declare_items_index(once, 0);
            assert forall|k: int| 0 <= k < items.len() implies norm_declare_items(once, 0)[k]
                == once[k] by {
                lemma_declare_item_idem(items[k]);
            }
            assert(norm_declare_items(once, 0) =~= once);
        },
        SpecStmtNode::Insert(n) => {
            match n.table {
                crate::tree::SpecInsertTarget::Named(r) => lemma_rel_name_idem(r),
                _ => {},
            }
            match n.source {
                Option::Some(q) => lemma_insert_source_idem(*q),
                Option::None => {},
            }
            lemma_assign_items_walk_idem(n.assignments);
        },
        SpecStmtNode::Update(n) => {
            lemma_from_item_walk_idem(n.table);
            match n.from {
                Option::Some(SpecUpdateFromKind::BeforeSet(v)) => lemma_from_items_walk_idem(v),
                Option::Some(SpecUpdateFromKind::AfterSet(v)) => lemma_from_items_walk_idem(v),
                Option::None => {},
            }
            lemma_order_entries_walk_idem(n.order_by);
        },
        SpecStmtNode::Delete(n) => {
            let v = match n.from {
                SpecDeleteFrom::WithKeyword(v) => v,
                SpecDeleteFrom::WithoutKeyword(v) => v,
            };
            lemma_rel_names_idem(n.tables);
            lemma_from_items_walk_idem(v);
            match n.using {
                Option::Some(u) => lemma_from_items_walk_idem(u),
                Option::None => {},
            }
        },
        SpecStmtNode::Query(q) => lemma_query_idem(*q),
        SpecStmtNode::Explain { inner, raw } => {
            lemma_statement_idempotent(*inner);
        },
        SpecStmtNode::CreateView { name, query, raw } => {
            lemma_rel_name_idem(name);
            lemma_query_idem(*query);
        },
        SpecStmtNode::CreateTable { name, query, raw } => {
            lemma_rel_name_idem(name);
            match query {
                Option::Some(q) => lemma_query_idem(*q),
                Option::None => {},
            }
        },
        SpecStmtNode::Raw(_) => {},
    }
}

// ---------------------------------------------------------------------
// Quoting minimality: after normalization, no identifier in a position
// identifier normalization covers is quoted when its text is made only of
// word characters. The covered positions are the relation names and the
// bare and compound identifier references the tree models: FROM lists and
// joins, the surviving SELECT clauses, UPDATE FROM and ORDER BY, DELETE
// table lists and USING, and assignment lists. Identifiers nested inside
// opaque expression subtrees are outside these positions.

/// A word identifier carries no quoting marker.
pub open spec fn minimal_ident(i: SpecIdent) -> bool {
    crate::chars::word(i.value) ==> i.quote is None
}

pub open spec fn minimal_rel_name(n: crate::tree::SpecRelName) -> bool {
    forall|k: int|
        0 <= k < n.parts.len() ==> match #[trigger] n.parts[k] {
            crate::tree::SpecNamePart::Ident(i) => minimal_ident(i),
            crate::tree::SpecNamePart::Raw(_) => true,
        }
}

pub open spec fn minimal_expr(e: SpecExpr) -> bool
    decreases e,
{
    match e {
        SpecExpr::Ident(i) => minimal_ident(i),
        SpecExpr::Compound(v) => forall|k: int| 0 <= k < v.len() ==> minimal_ident(#[trigger] v[k]),
        SpecExpr::Binary { left, op, right } => minimal_expr(*left) && minimal_expr(*right),
        SpecExpr::Unary { op, expr } => minimal_expr(*expr),
        SpecExpr::Nested(x) => minimal_expr(*x),
        SpecExpr::Func { name, args, raw } => minimal_rel_name(name) && forall|k: int|
            0 <= k < args.len() ==> minimal_func_arg(#[trigger] args[k]),
        SpecExpr::Wrapped { expr, raw } => minimal_expr(*expr),
        SpecExpr::Placeholder => true,
        SpecExpr::Raw(_) => true,
    }
}

pub open spec fn minimal_func_arg(a: SpecFuncArg) -> bool
    decreases a,
{
    match a {
        SpecFuncArg::ExprArg { expr, raw } => minimal_expr(expr),
        SpecFuncArg::WildcardArg { name, raw } => minimal_rel_name(name),
        SpecFuncArg::Raw(_) => true,
    }
}

pub open spec fn minimal_opt_expr(e: Option<SpecExpr>) -> bool {
    match e {
        Option::Some(x) => minimal_expr(x),
        Option::None => true,
    }
}

pub open spec fn minimal_exprs(v: Seq<SpecExpr>) -> bool {
    forall|k: int| 0 <= k < v.len() ==> minimal_expr(#[trigger] v[k])
}

pub open spec fn minimal_order_entries(v: Seq<SpecOrderEntry>) -> bool {
    forall|k: int| 0 <= k < v.len() ==> minimal_expr((#[trigger] v[k]).expr)
}

pub open spec fn minimal_rel_names(v: Seq<SpecRelName>) -> bool {
    forall|k: int| 0 <= k < v.len() ==> minimal_rel_name(#[trigger] v[k])
}

pub open spec fn minimal_assign_item(a: SpecAssignItem) -> bool {
    match a {
        SpecAssignItem::Placeholder => true,
        SpecAssignItem::Pair { target, value } => {
            (match target {
                SpecAssignTargetKind::Column(n) => minimal_rel_name(n),
                SpecAssignTargetKind::Raw(_) => true,
            }) && minimal_expr(value)
        },
    }
}

pub open spec fn minimal_assign_items(v: Seq<SpecAssignItem>) -> bool {
    forall|k: int| 0 <= k < v.len() ==> minimal_assign_item(#[trigger] v[k])
}

pub open spec fn minimal_proj_item(p: crate::tree::SpecProjItem) -> bool {
    match p {
        crate::tree::SpecProjItem::QualifiedWildcard { name, raw } => minimal_rel_name(name),
        _ => true,
    }
}

pub open spec fn minimal_select_walk(w: SpecSelectWalk) -> bool {
    &&& minimal_opt_expr(w.prewhere)
    &&& minimal_exprs(w.cluster_by)
    &&& minimal_exprs(w.distribute_by)
    &&& minimal_order_entries(w.sort_by)
    &&& minimal_opt_expr(w.having)
    &&& minimal_opt_expr(w.qualify)
}

pub open spec fn minimal_table_ref(t: SpecTableRef) -> bool
    decreases t,
{
    match t {
        SpecTableRef::Named { name, raw } => minimal_rel_name(name),
        SpecTableRef::Unnest { alias_cols, array_exprs, raw } => minimal_exprs(array_exprs),
        SpecTableRef::Derived { subquery, raw } => minimal_query(*subquery),
        SpecTableRef::Nested { inner, raw } => minimal_from_item(*inner),
        SpecTableRef::Raw(_) => true,
    }
}

pub open spec fn minimal_join(j: SpecJoinNode) -> bool
    decreases j,
{
    minimal_table_ref(j.relation) && match j.cond {
        Option::Some(crate::tree::SpecJoinCond::On(e)) => minimal_expr(e),
        Option::Some(crate::tree::SpecJoinCond::Using(v)) => minimal_rel_names(v),
        Option::Some(crate::tree::SpecJoinCond::AsOf { match_condition, on, raw }) => {
            minimal_expr(match_condition) && minimal_opt_expr(on)
        },
        _ => true,
    }
}

pub open spec fn minimal_from_item(f: SpecFromItem) -> bool
    decreases f,
{
    minimal_table_ref(f.relation) && forall|k: int|
        0 <= k < f.joins.len() ==> minimal_join(#[trigger] f.joins[k])
}

pub open spec fn minimal_from_items(v: Seq<SpecFromItem>) -> bool {
    forall|k: int| 0 <= k < v.len() ==> minimal_from_item(#[trigger] v[k])
}

pub open spec fn minimal_select(s: SpecSelectNode) -> bool
    decreases s,
{
    &&& forall|k: int|
        0 <= k < s.projection.len() ==> minimal_proj_item(#[trigger] s.projection[k])
    &&& match s.distinct {
        Option::Some(crate::tree::SpecDistinctKind::On(v)) => minimal_exprs(v),
        _ => true,
    }
    &&& forall|k: int| 0 <= k < s.from.len() ==> minimal_from_item(#[trigger] s.from[k])
    &&& minimal_opt_expr(s.selection)
    &&& match s.group_by {
        crate::tree::SpecGroupByKind::Exprs { exprs, raw } => minimal_exprs(exprs),
        crate::tree::SpecGroupByKind::Raw(_) => true,
    }
    &&& minimal_select_walk(s.walk)
}

pub open spec fn minimal_set_expr(e: SpecSetExprNode) -> bool
    decreases e,
{
    match e {
        SpecSetExprNode::Select(s) => minimal_select(*s),
        SpecSetExprNode::SetOp { left, right, raw } => minimal_set_expr(*left) && minimal_set_expr(
            *right,
        ),
        SpecSetExprNode::Nested(q) => minimal_query(*q),
        SpecSetExprNode::Values { rows, raw } => forall|k: int|
            0 <= k < rows.len() ==> minimal_exprs(#[trigger] rows[k]),
        SpecSetExprNode::Raw(_) => true,
    }
}

pub open spec fn minimal_query(q: SpecQueryNode) -> bool
    decreases q,
{
    &&& match q.with {
        Option::Some(w) => forall|k: int|
            0 <= k < w.ctes.len() ==> minimal_query(*(#[trigger] w.ctes[k]).query),
        Option::None => true,
    }
    &&& minimal_set_expr(*q.body)
    &&& match q.order_by {
        Option::Some(crate::tree::SpecOrderByKind::Exprs { entries, raw }) => forall|k: int|
            0 <= k < entries.len() ==> minimal_expr((#[trigger] entries[k]).expr),
        _ => true,
    }
    &&& match q.limit {
        Option::Some(crate::tree::SpecLimitKind::LimitOffset { limit, offset, limit_by }) => {
            minimal_opt_expr(limit) && minimal_exprs(limit_by) && match offset {
                Option::Some(o) => minimal_expr(o.value),
                Option::None => true,
            }
        },
        Option::Some(crate::tree::SpecLimitKind::OffsetCommaLimit { offset, limit }) => {
            minimal_expr(offset) && minimal_expr(limit)
        },
        Option::None => true,
    }
}

pub open spec fn minimal_stmt(s: SpecStmtNode) -> bool
    decreases s,
{
    match s {
        SpecStmtNode::Insert(n) => {
            &&& match n.table {
                crate::tree::SpecInsertTarget::Named(r) => minimal_rel_name(r),
                crate::tree::SpecInsertTarget::Raw(_) => true,
            }
            &&& match n.source {
                Option::Some(q) => minimal_query(*q),
                Option::None => true,
            }
            &&& minimal_assign_items(n.assignments)
            &&& match n.on {
                Option::Some(crate::tree::SpecOnInsertKind::Conflict { target, action }) => {
                    match action {
                        crate::tree::SpecConflictAction::DoUpdate { assignments, selection } => {
                            minimal_opt_expr(selection)
                        },
                        crate::tree::SpecConflictAction::Raw(_) => true,
                    }
                },
                _ => true,
            }
        },
        SpecStmtNode::Update(n) => {
            &&& minimal_from_item(n.table)
            &&& match n.from {
                Option::Some(SpecUpdateFromKind::BeforeSet(v)) => minimal_from_items(v),
                Option::Some(SpecUpdateFromKind::AfterSet(v)) => minimal_from_items(v),
                Option::None => true,
            }
            &&& minimal_opt_expr(n.selection)
            &&& minimal_order_entries(n.order_by)
        },
        SpecStmtNode::Delete(n) => {
            let v = match n.from {
                SpecDeleteFrom::WithKeyword(v) => v,
                SpecDeleteFrom::WithoutKeyword(v) => v,
            };
            &&& minimal_rel_names(n.tables)
            &&& minimal_from_items(v)
            &&& match n.using {
                Option::Some(u) => minimal_from_items(u),
                Option::None => true,
            }
            &&& minimal_opt_expr(n.selection)
        },
        SpecStmtNode::Declare { items } => forall|k: int|
            0 <= k < items.len() ==> match (#[trigger] items[k]).for_query {
                Option::Some(q) => minimal_query(*q),
                Option::None => true,
            },
        SpecStmtNode::Query(q) => minimal_query(*q),
        SpecStmtNode::Explain { inner, raw } => minimal_stmt(*inner),
        SpecStmtNode::CreateView { name, query, raw } => minimal_rel_name(name) && minimal_query(
            *query,
        ),
        SpecStmtNode::CreateTable { name, query, raw } => minimal_rel_name(name) && match query {
            Option::Some(q) => minimal_query(*q),
            Option::None => true,
        },
        _ => true,
    }
}

proof fn lemma_norm_expr_minimal(e: SpecExpr)
    ensures
        minimal_expr(norm_expr(e)),
    decreases e,
{
    match e {
        SpecExpr::Compound(v) => {
            let f = |i: SpecIdent| norm_ident(i);
            assert forall|k: int| 0 <= k < v.len() implies minimal_ident(
                #[trigger] v.map_values(f)[k],
            ) by {
                assert(v.map_values(f)[k] == norm_ident(v[k]));
            }
        },
        SpecExpr::Binary { left, op, right } => {
            lemma_norm_expr_minimal(*left);
            lemma_norm_expr_minimal(*right);
        },
        SpecExpr::Unary { op, expr } => lemma_norm_expr_minimal(*expr),
        SpecExpr::Nested(x) => lemma_norm_expr_minimal(*x),
        SpecExpr::Wrapped { expr, raw } => lemma_norm_expr_minimal(*expr),
        SpecExpr::Func { name, args, raw } => {
            lemma_norm_rel_name_minimal(name);
            lemma_norm_func_args_index(args, 0);
            assert forall|k: int| 0 <= k < norm_func_args(args, 0).len() implies minimal_func_arg(
                #[trigger] norm_func_args(args, 0)[k],
            ) by {
                lemma_norm_func_arg_minimal(args[k]);
            }
        },
        _ => {},
    }
}

proof fn lemma_norm_func_arg_minimal(a: SpecFuncArg)
    ensures
        minimal_func_arg(norm_func_arg(a)),
    decreases a,
{
    match a {
        SpecFuncArg::ExprArg { expr, raw } => lemma_norm_expr_minimal(expr),
        SpecFuncArg::WildcardArg { name, raw } => lemma_norm_rel_name_minimal(name),
        SpecFuncArg::Raw(_) => {},
    }
}

proof fn lemma_norm_exprs_minimal(v: Seq<SpecExpr>)
    ensures
        minimal_exprs(v.map_values(|x: SpecExpr| norm_expr(x))),
{
    let f = |x: SpecExpr| norm_expr(x);
    assert forall|k: int| 0 <= k < v.len() implies minimal_expr(#[trigger] v.map_values(f)[k]) by {
        lemma_norm_expr_minimal(v[k]);
    }
}

proof fn lemma_norm_rel_name_minimal(n: crate::tree::SpecRelName)
    ensures
        minimal_rel_name(norm_rel_name(n)),
{
    let f = |p: crate::tree::SpecNamePart| norm_name_part(p);
    assert forall|k: int| 0 <= k < n.parts.len() implies match #[trigger] norm_rel_name(
        n,
    ).parts[k] {
        crate::tree::SpecNamePart::Ident(i) => minimal_ident(i),
        crate::tree::SpecNamePart::Raw(_) => true,
    } by {
        assert(norm_rel_name(n).parts[k] == norm_name_part(n.parts[k]));
    }
}

proof fn lemma_norm_opt_expr_walk_minimal(e: Option<SpecExpr>)
    ensures
        minimal_opt_expr(norm_opt_expr_walk(e)),
{
    match e {
        Option::Some(x) => lemma_norm_expr_minimal(x),
        Option::None => {},
    }
}

proof fn lemma_norm_order_entries_walk_minimal(v: Seq<SpecOrderEntry>)
    ensures
        minimal_order_entries(norm_order_entries_walk(v)),
{
    assert forall|k: int| 0 <= k < norm_order_entries_walk(v).len() implies minimal_expr(
        (#[trigger] norm_order_entries_walk(v)[k]).expr,
    ) by {
        assert(norm_order_entries_walk(v)[k] == norm_order_entry_walk(v[k]));
        lemma_norm_expr_minimal(v[k].expr);
    }
}

proof fn lemma_norm_rel_names_minimal(v: Seq<SpecRelName>)
    ensures
        minimal_rel_names(v.map_values(|t: SpecRelName| norm_rel_name(t))),
{
    let f = |t: SpecRelName| norm_rel_name(t);
    assert forall|k: int| 0 <= k < v.len() implies minimal_rel_name(
        #[trigger] v.map_values(f)[k],
    ) by {
        lemma_norm_rel_name_minimal(v[k]);
    }
}

proof fn lemma_norm_assign_items_walk_minimal(v: Seq<SpecAssignItem>)
    ensures
        minimal_assign_items(norm_assign_items_walk(v)),
{
    let f = |a: SpecAssignItem| norm_assign_item_walk(a);
    assert forall|k: int| 0 <= k < v.len() implies minimal_assign_item(
        #[trigger] v.map_values(f)[k],
    ) by {
        match v[k] {
            SpecAssignItem::Pair { target, value } => {
                match target {
                    SpecAssignTargetKind::Column(n) => lemma_norm_rel_name_minimal(n),
                    SpecAssignTargetKind::Raw(_) => {},
                }
                lemma_norm_expr_minimal(value);
            },
            SpecAssignItem::Placeholder => {},
        }
    }
}

proof fn lemma_norm_select_walk_minimal(w: SpecSelectWalk)
    ensures
        minimal_select_walk(norm_select_walk(w)),
{
    lemma_norm_opt_expr_walk_minimal(w.prewhere);
    lemma_norm_exprs_minimal(w.cluster_by);
    lemma_norm_exprs_minimal(w.distribute_by);
    lemma_norm_order_entries_walk_minimal(w.sort_by);
    lemma_norm_opt_expr_walk_minimal(w.having);
    lemma_norm_opt_expr_walk_minimal(w.qualify);
}

proof fn lemma_norm_table_ref_minimal(t: SpecTableRef)
    ensures
        minimal_table_ref(norm_table_ref(t)),
    decreases t,
{
    match t {
        SpecTableRef::Named { name, raw } => lemma_norm_rel_name_minimal(name),
        SpecTableRef::Unnest { alias_cols, array_exprs, raw } => {},
        SpecTableRef::Derived { subquery, raw } => lemma_norm_query_minimal(*subquery),
        SpecTableRef::Nested { inner, raw } => lemma_norm_from_item_walk_minimal(*inner),
        SpecTableRef::Raw(_) => {},
    }
}

proof fn lemma_norm_join_select_minimal(j: SpecJoinNode)
    ensures
        minimal_join(norm_join_select(j)),
    decreases j,
{
    lemma_norm_table_ref_minimal(j.relation);
    match j.cond {
        Option::Some(crate::tree::SpecJoinCond::Using(v)) => lemma_norm_rel_names_minimal(v),
        Option::Some(crate::tree::SpecJoinCond::AsOf { match_condition, on, raw }) => {
            lemma_norm_expr_minimal(match_condition);
            lemma_norm_opt_expr_walk_minimal(on);
        },
        _ => {},
    }
}

proof fn lemma_norm_join_walk_minimal(j: SpecJoinNode)
    ensures
        minimal_join(norm_join_walk(j)),
    decreases j,
{
    lemma_norm_table_ref_minimal(j.relation);
    match j.cond {
        Option::Some(crate::tree::SpecJoinCond::On(e)) => lemma_norm_expr_minimal(e),
        Option::Some(crate::tree::SpecJoinCond::Using(v)) => lemma_norm_rel_names_minimal(v),
        Option::Some(crate::tree::SpecJoinCond::AsOf { match_condition, on, raw }) => {
            lemma_norm_expr_minimal(match_condition);
            lemma_norm_opt_expr_walk_minimal(on);
        },
        _ => {},
    }
}

proof fn lemma_norm_from_item_select_minimal(f: SpecFromItem)
    ensures
        minimal_from_item(norm_from_item_select(f)),
    decreases f,
{
    lemma_norm_table_ref_minimal(f.relation);
    lemma_norm_joins_select_index(f.joins, 0);
    let r = norm_from_item_select(f);
    assert forall|k: int| 0 <= k < r.joins.len() implies minimal_join(#[trigger] r.joins[k]) by {
        lemma_norm_join_select_minimal(f.joins[k]);
    }
}

proof fn lemma_norm_from_item_walk_minimal(f: SpecFromItem)
    ensures
        minimal_from_item(norm_from_item_walk(f)),
    decreases f,
{
    lemma_norm_table_ref_minimal(f.relation);
    lemma_norm_joins_walk_index(f.joins, 0);
    let r = norm_from_item_walk(f);
    assert forall|k: int| 0 <= k < r.joins.len() implies minimal_join(#[trigger] r.joins[k]) by {
        lemma_norm_join_walk_minimal(f.joins[k]);
    }
}

proof fn lemma_norm_from_items_walk_minimal(v: Seq<SpecFromItem>)
    ensures
        minimal_from_items(norm_from_items_walk(v, 0)),
{
    lemma_norm_from_items_walk_index(v, 0);
    assert forall|k: int| 0 <= k < norm_from_items_walk(v, 0).len() implies minimal_from_item(
        #[trigger] norm_from_items_walk(v, 0)[k],
    ) by {
        lemma_norm_from_item_walk_minimal(v[k]);
    }
}

proof fn lemma_norm_select_minimal(s: SpecSelectNode)
    ensures
        minimal_select(norm_select(s)),
    decreases s,
{
    let r = norm_select(s);
    lemma_norm_from_items_select_index(s.from, 0);
    lemma_norm_select_walk_minimal(s.walk);
    assert forall|k: int| 0 <= k < r.projection.len() implies minimal_proj_item(
        #[trigger] r.projection[k],
    ) by {
        if s.projection.len() > 0 {
            match s.projection[0] {
                crate::tree::SpecProjItem::QualifiedWildcard { name, raw } => {
                    lemma_norm_rel_name_minimal(name);
                },
                _ => {},
            }
        }
    }
    assert forall|k: int| 0 <= k < r.from.len() implies minimal_from_item(#[trigger] r.from[k]) by {
        lemma_norm_from_item_select_minimal(s.from[k]);
    }
}

proof fn lemma_norm_set_expr_minimal(e: SpecSetExprNode)
    ensures
        minimal_set_expr(norm_set_expr(e)),
    decreases e,
{
    match e {
        SpecSetExprNode::Select(s) => lemma_norm_select_minimal(*s),
        SpecSetExprNode::SetOp { left, right, raw } => {
            lemma_norm_set_expr_minimal(*left);
            lemma_norm_set_expr_minimal(*right);
        },
        SpecSetExprNode::Nested(q) => lemma_norm_query_minimal(*q),
        SpecSetExprNode::Values { rows, raw } => {
            let g = |r: Seq<SpecExpr>| r.map_values(|x: SpecExpr| norm_expr(x));
            assert forall|k: int| 0 <= k < rows.len() implies minimal_exprs(
                #[trigger] rows.map_values(g)[k],
            ) by {
                lemma_norm_exprs_minimal(rows[k]);
            }
        },
        SpecSetExprNode::Raw(_) => {},
    }
}

proof fn lemma_norm_query_minimal(q: SpecQueryNode)
    ensures
        minimal_query(norm_query(q)),
    decreases q,
{
    let r = norm_query(q);
    match q.with {
        Option::Some(w) => {
            lemma_norm_ctes_index(w.ctes, 0);
            let rc = norm_ctes(w.ctes, 0);
            assert forall|k: int| 0 <= k < rc.len() implies minimal_query(
                *(#[trigger] rc[k]).query,
            ) by {
                lemma_norm_query_minimal(*w.ctes[k].query);
            }
        },
        Option::None => {},
    }
    lemma_norm_set_expr_minimal(*q.body);
}

/// Quoting minimality: in the statement one normalization pass leaves
/// behind, every identifier in a position identifier normalization
/// covers is unquoted whenever its text is made only of word characters.
pub proof fn lemma_quoting_minimal(s: SpecStmtNode, t: SpecAliasTable)
    ensures
        minimal_stmt(norm_stmt(s, t).0),
    decreases s,
{
    match s {
        SpecStmtNode::Declare { items } => {
            lemma_norm_declare_items_index(items, 0);
            let r = norm_declare_items(items, 0);
            assert forall|k: int| 0 <= k < r.len() implies match (#[trigger] r[k]).for_query {
                Option::Some(q) => minimal_query(*q),
                Option::None => true,
            } by {
                match items[k].for_query {
                    Option::Some(q) => lemma_norm_query_minimal(*q),
                    Option::None => {},
                }
            }
        },
        SpecStmtNode::Insert(n) => {
            match n.table {
                crate::tree::SpecInsertTarget::Named(r) => lemma_norm_rel_name_minimal(r),
                _ => {},
            }
            match n.source {
                Option::Some(q) => {
                    let collapsed = match *q.body {
                        SpecSetExprNode::Values { rows: _, raw } => SpecQueryNode {
                            body: Box::new(
                                SpecSetExprNode::Values {
                                    rows: seq![seq![SpecExpr::Placeholder]],
                                    raw,
                                },
                            ),
                            ..*q
                        },
                        _ => *q,
                    };
                    lemma_norm_query_minimal(collapsed);
                },
                Option::None => {},
            }
            lemma_norm_assign_items_walk_minimal(n.assignments);
        },
        SpecStmtNode::Update(n) => {
            lemma_norm_from_item_walk_minimal(n.table);
            match n.from {
                Option::Some(SpecUpdateFromKind::BeforeSet(v)) => {
                    lemma_norm_from_items_walk_minimal(v);
                },
                Option::Some(SpecUpdateFromKind::AfterSet(v)) => {
                    lemma_norm_from_items_walk_minimal(v);
                },
                Option::None => {},
            }
            lemma_norm_order_entries_walk_minimal(n.order_by);
        },
        SpecStmtNode::Delete(n) => {
            let v = match n.from {
                SpecDeleteFrom::WithKeyword(v) => v,
                SpecDeleteFrom::WithoutKeyword(v) => v,
            };
            lemma_norm_rel_names_minimal(n.tables);
            lemma_norm_from_items_walk_minimal(v);
            match n.using {
                Option::Some(u) => lemma_norm_from_items_walk_minimal(u),
                Option::None => {},
            }
        },
        SpecStmtNode::Query(q) => lemma_norm_query_minimal(*q),
        SpecStmtNode::Explain { inner, raw } => {
            lemma_quoting_minimal(*inner, t);
        },
        SpecStmtNode::CreateView { name, query, raw } => {
            lemma_norm_rel_name_minimal(name);
            lemma_norm_query_minimal(*query);
        },
        SpecStmtNode::CreateTable { name, query, raw } => {
            lemma_norm_rel_name_minimal(name);
            match query {
                Option::Some(q) => lemma_norm_query_minimal(*q),
                Option::None => {},
            }
        },
        _ => {},
    }
}

// ---------------------------------------------------------------------
// Literal insensitivity: statements that differ only in the literal
// values the rules collapse normalize to equal trees.

/// The OFFSET clauses agree on presence and keyword, the value aside.
pub open spec fn offsets_same_shape(
    o1: Option<crate::tree::SpecOffsetNode>,
    o2: Option<crate::tree::SpecOffsetNode>,
) -> bool {
    match (o1, o2) {
        (Option::None, Option::None) => true,
        (Option::Some(x1), Option::Some(x2)) => x1.raw == x2.raw,
        _ => false,
    }
}

/// The LIMIT clauses agree on form and on which parts are present, the
/// operand values aside.
pub open spec fn limits_same_shape(
    l1: Option<crate::tree::SpecLimitKind>,
    l2: Option<crate::tree::SpecLimitKind>,
) -> bool {
    match (l1, l2) {
        (Option::None, Option::None) => true,
        (
            Option::Some(
                crate::tree::SpecLimitKind::LimitOffset { limit: a1, offset: o1, limit_by: b1 },
            ),
            Option::Some(
                crate::tree::SpecLimitKind::LimitOffset { limit: a2, offset: o2, limit_by: b2 },
            ),
        ) => {
            &&& (a1 is Some <==> a2 is Some)
            &&& offsets_same_shape(o1, o2)
            &&& (b1 == b2 || (b1.len() > 0 && b2.len() > 0))
        },
        (
            Option::Some(crate::tree::SpecLimitKind::OffsetCommaLimit { offset: _, limit: _ }),
            Option::Some(crate::tree::SpecLimitKind::OffsetCommaLimit { offset: _, limit: _ }),
        ) => true,
        _ => false,
    }
}

/// Two queries of plain SELECT shape that differ only in the literal
/// values of their WHERE predicate and LIMIT/OFFSET operands.
pub open spec fn differ_only_in_values(q1: SpecQueryNode, q2: SpecQueryNode) -> bool {
    &&& q1.with == q2.with
    &&& q1.order_by == q2.order_by
    &&& q1.raw == q2.raw
    &&& match (*q1.body, *q2.body) {
        (SpecSetExprNode::Select(s1), SpecSetExprNode::Select(s2)) => {
            &&& s1.projection == s2.projection
            &&& s1.distinct == s2.distinct
            &&& s1.from == s2.from
            &&& s1.group_by == s2.group_by
            &&& s1.walk == s2.walk
            &&& s1.raw == s2.raw
            &&& (s1.selection is Some <==> s2.selection is Some)
        },
        _ => false,
    }
    &&& limits_same_shape(q1.limit, q2.limit)
}

/// Literal insensitivity for SELECT statements: queries that differ only
/// in WHERE and LIMIT/OFFSET values normalize to the same tree.
pub proof fn lemma_literal_insensitive(q1: SpecQueryNode, q2: SpecQueryNode)
    requires
        differ_only_in_values(q1, q2),
    ensures
        norm_query(q1) == norm_query(q2),
{
    match (*q1.body, *q2.body) {
        (SpecSetExprNode::Select(s1), SpecSetExprNode::Select(s2)) => {
            assert(norm_select(*s1) =~= norm_select(*s2));
            assert(norm_set_expr(*q1.body) == norm_set_expr(*q2.body));
        },
        _ => {
            assert(false);
        },
    }
    assert(norm_query(q1) =~= norm_query(q2));
}

/// Two INSERT statements that differ only in the rows of their inline
/// VALUES source.
pub open spec fn differ_only_in_rows(n1: crate::tree::SpecInsertNode, n2: crate::tree::SpecInsertNode) -> bool {
    &&& n1.table == n2.table
    &&& n1.columns == n2.columns
    &&& n1.assignments == n2.assignments
    &&& n1.on == n2.on
    &&& n1.returning == n2.returning
    &&& n1.raw == n2.raw
    &&& match (n1.source, n2.source) {
        (Option::Some(q1), Option::Some(q2)) => {
            &&& (*q1).with == (*q2).with
            &&& (*q1).order_by == (*q2).order_by
            &&& (*q1).limit == (*q2).limit
            &&& (*q1).raw == (*q2).raw
            &&& match (*(*q1).body, *(*q2).body) {
                (
                    SpecSetExprNode::Values { rows: _, raw: r1 },
                    SpecSetExprNode::Values { rows: _, raw: r2 },
                ) => r1 == r2,
                _ => false,
            }
        },
        _ => false,
    }
}

/// Literal insensitivity for INSERT statements: the supplied VALUES rows
/// never show in the normalized tree, however many there are and whatever
/// they hold.
pub proof fn lemma_values_insensitive(
    n1: crate::tree::SpecInsertNode,
    n2: crate::tree::SpecInsertNode,
)
    requires
        differ_only_in_rows(n1, n2),
    ensures
        norm_insert(n1) == norm_insert(n2),
{
    let q1 = *n1.source->Some_0;
    let q2 = *n2.source->Some_0;
    let c1 = match *q1.body {
        SpecSetExprNode::Values { rows: _, raw } => SpecQueryNode {
            body: Box::new(
                SpecSetExprNode::Values { rows: seq![seq![SpecExpr::Placeholder]], raw },
            ),
            ..q1
        },
        _ => q1,
    };
    let c2 = match *q2.body {
        SpecSetExprNode::Values { rows: _, raw } => SpecQueryNode {
            body: Box::new(
                SpecSetExprNode::Values { rows: seq![seq![SpecExpr::Placeholder]], raw },
            ),
            ..q2
        },
        _ => q2,
    };
    assert(c1 =~= c2);
    assert(norm_insert(n1) =~= norm_insert(n2));
}

// ---------------------------------------------------------------------
// Order preservation: the batch driver emits one output per input, in
// order (the contract of `fingerprint_many`), and an input that fails to
// parse contributes nothing: it neither shifts nor changes any other
// output.

/// The batch at the statement level: each entry holds the statements of
/// one input, or nothing when that input did not parse. Normalization
/// threads the alias table through the parsed entries in order.
pub open spec fn batch_norm(b: Seq<Option<Seq<SpecStmtNode>>>, t: SpecAliasTable) -> (
    Seq<Option<Seq<SpecStmtNode>>>,
    SpecAliasTable,
)
    decreases b.len(),
{
    if b.len() == 0 {
        (Seq::empty(), t)
    } else {
        let head = match b[0] {
            Option::Some(ss) => {
                let r = crate::rules::norm_stmts(ss, t);
                (Option::Some(r.0), r.1)
            },
            Option::None => (Option::<Seq<SpecStmtNode>>::None, t),
        };
        let rest = batch_norm(b.drop_first(), head.1);
        (seq![head.0] + rest.0, rest.1)
    }
}

proof fn lemma_batch_norm_len(b: Seq<Option<Seq<SpecStmtNode>>>, t: SpecAliasTable)
    ensures
        batch_norm(b, t).0.len() == b.len(),
    decreases b.len(),
{
    if b.len() > 0 {
        let t1 = match b[0] {
            Option::Some(ss) => crate::rules::norm_stmts(ss, t).1,
            Option::None => t,
        };
        lemma_batch_norm_len(b.drop_first(), t1);
    }
}

/// A failing parse is local: inserting an unparsable input at position
/// `i` inserts one unchanged output there and alters no other position
/// and no alias numbering.
pub proof fn lemma_failed_parse_local(
    b: Seq<Option<Seq<SpecStmtNode>>>,
    t: SpecAliasTable,
    i: int,
)
    requires
        0 <= i <= b.len(),
    ensures
        batch_norm(b.insert(i, Option::None), t).0 == batch_norm(b, t).0.insert(i, Option::None),
        batch_norm(b.insert(i, Option::None), t).1 == batch_norm(b, t).1,
    decreases b.len(),
{
    let b2 = b.insert(i, Option::None);
    if i == 0 {
        assert(b2[0] is None);
        assert(b2.drop_first() =~= b);
        assert(batch_norm(b2, t).0 =~= batch_norm(b, t).0.insert(0, Option::None));
    } else {
        assert(b.len() > 0);
        assert(b2[0] == b[0]);
        assert(b2.drop_first() =~= b.drop_first().insert(i - 1, Option::None));
        let t1 = match b[0] {
            Option::Some(ss) => crate::rules::norm_stmts(ss, t).1,
            Option::None => t,
        };
        let h = match b[0] {
            Option::Some(ss) => Option::Some(crate::rules::norm_stmts(ss, t).0),
            Option::None => Option::<Seq<SpecStmtNode>>::None,
        };
        lemma_failed_parse_local(b.drop_first(), t1, i - 1);
        let rest0 = batch_norm(b.drop_first(), t1).0;
        match b[0] {
            Option::Some(ss) => {
                assert(batch_norm(b2, t).0 == seq![h] + batch_norm(b2.drop_first(), t1).0);
                assert(batch_norm(b, t).0 == seq![h] + rest0);
            },
            Option::None => {
                assert(batch_norm(b2, t).0 == seq![h] + batch_norm(b2.drop_first(), t1).0);
                assert(batch_norm(b, t).0 == seq![h] + rest0);
            },
        }
        assert(b2.drop_first() == b.drop_first().insert(i - 1, Option::None));
        assert(batch_norm(b2.drop_first(), t1).0 == rest0.insert(i - 1, Option::None));
        lemma_batch_norm_len(b.drop_first(), t1);
        (seq![h] + rest0).insert_ensures(i, Option::None);
        rest0.insert_ensures(i - 1, Option::None);
        assert((seq![h] + rest0).insert(i, Option::None) =~= seq![h] + rest0.insert(
            i - 1,
            Option::None,
        ));
        assert(batch_norm(b2, t).0 =~= batch_norm(b, t).0.insert(i, Option::None));
    }
}

/// Statements that pairwise differ only in collapsed literal values
/// normalize alike, in order, under any alias table; none of them is a
/// SAVEPOINT, so the table comes through unchanged on both sides.
proof fn lemma_norm_stmts_equal_queries(
    a: Seq<SpecStmtNode>,
    b: Seq<SpecStmtNode>,
    t: SpecAliasTable,
)
    requires
        a.len() == b.len(),
        forall|k: int|
            0 <= k < a.len() ==> match (#[trigger] a[k], #[trigger] b[k]) {
                (SpecStmtNode::Query(q1), SpecStmtNode::Query(q2)) => differ_only_in_values(
                    *q1,
                    *q2,
                ),
                _ => false,
            },
    ensures
        crate::rules::norm_stmts(a, t) == crate::rules::norm_stmts(b, t),
    decreases a.len(),
{
    if a.len() > 0 {
        match (a[0], b[0]) {
            (SpecStmtNode::Query(q1), SpecStmtNode::Query(q2)) => {
                lemma_literal_insensitive(*q1, *q2);
            },
            _ => {
                assert(false);
            },
        }
        assert(forall|k: int|
            0 <= k < a.drop_first().len() ==> #[trigger] a.drop_first()[k] == a[k + 1]
                && #[trigger] b.drop_first()[k] == b[k + 1]);
        lemma_norm_stmts_equal_queries(a.drop_first(), b.drop_first(), t);
        assert(crate::rules::norm_stmts(a, t).0 =~= crate::rules::norm_stmts(b, t).0);
    }
}

/// Literal insensitivity carried to the output text: two inputs that
/// parse, statement for statement, to queries of plain SELECT shape
/// differing only in the literal values of their WHERE predicate and
/// LIMIT/OFFSET operands fingerprint to the same text, under any alias
/// table, and leave the table equally unchanged.
#[verifier::rlimit(60)]
pub proof fn lemma_literal_insensitive_outputs(
    d: SqlDialect,
    s1: Seq<char>,
    s2: Seq<char>,
    t: SpecAliasTable,
)
    requires
        parsed_shape(d, s1) is Some,
        parsed_shape(d, s2) is Some,
        parsed_nodes(d, s1).len() == parsed_nodes(d, s2).len(),
        forall|k: int|
            0 <= k < parsed_nodes(d, s1).len() ==> match (
                #[trigger] parsed_nodes(d, s1)[k],
                #[trigger] parsed_nodes(d, s2)[k],
            ) {
                (SpecStmtNode::Query(q1), SpecStmtNode::Query(q2)) => differ_only_in_values(
                    *q1,
                    *q2,
                ),
                _ => false,
            },
    ensures
        fingerprint_spec(d, s1, t).0 == fingerprint_spec(d, s2, t).0,
        fingerprint_spec(d, s1, t).1 == fingerprint_spec(d, s2, t).1,
{
    lemma_norm_stmts_equal_queries(parsed_nodes(d, s1), parsed_nodes(d, s2), t);
}

#[verifier::rlimit(60)]
proof fn lemma_table_after_insert_none(
    d: SqlDialect,
    sqls: Seq<Seq<char>>,
    s: Seq<char>,
    i: int,
    k: int,
)
    requires
        0 <= i <= sqls.len(),
        parsed_shape(d, s) is None,
        0 <= k <= sqls.len(),
    ensures
        k <= i ==> table_after(d, sqls.insert(i, s), k) == table_after(d, sqls, k),
        k >= i ==> table_after(d, sqls.insert(i, s), k + 1) == table_after(d, sqls, k),
    decreases k,
{
    let b = sqls.insert(i, s);
    sqls.insert_ensures(i, s);
    if k == 0 {
        if i == 0 {
            assert(table_after(d, b, 1) == fingerprint_spec(d, b[0], table_after(d, b, 0)).1);
            assert(b[0] == s);
        }
    } else {
        lemma_table_after_insert_none(d, sqls, s, i, k - 1);
        if k <= i {
            assert(b[k - 1] == sqls[k - 1]);
        } else {
            assert(b[k] == sqls[k - 1]);
            assert(table_after(d, b, k + 1) == fingerprint_spec(d, b[k], table_after(d, b, k)).1);
        }
        if k == i {
            assert(b[k] == s);
            assert(table_after(d, b, k + 1) == fingerprint_spec(d, s, table_after(d, b, k)).1);
        }
    }
}

/// A failing parse is local, at the level of the strings the batch driver
/// returns: inserting an unparsable input anywhere in a batch inserts that
/// input, unchanged, as the one new output there, contributes nothing to
/// the alias numbering, and leaves every other output exactly as it was.
pub proof fn lemma_failed_parse_local_outputs(
    d: SqlDialect,
    sqls: Seq<Seq<char>>,
    s: Seq<char>,
    i: int,
)
    requires
        0 <= i <= sqls.len(),
        parsed_shape(d, s) is None,
    ensures
        batch_element(d, sqls.insert(i, s), i) == s,
        forall|j: int|
            0 <= j < i ==> batch_element(d, sqls.insert(i, s), j) == batch_element(d, sqls, j),
        forall|j: int|
            i <= j < sqls.len() ==> batch_element(d, sqls.insert(i, s), j + 1) == batch_element(
                d,
                sqls,
                j,
            ),
{
    let b = sqls.insert(i, s);
    sqls.insert_ensures(i, s);
    lemma_table_after_insert_none(d, sqls, s, i, i);
    assert(b[i] == s);
    assert forall|j: int| 0 <= j < i implies batch_element(d, b, j) == batch_element(
        d,
        sqls,
        j,
    ) by {
        lemma_table_after_insert_none(d, sqls, s, i, j);
        assert(b[j] == sqls[j]);
    }
    assert forall|j: int| i <= j < sqls.len() implies batch_element(d, b, j + 1) == batch_element(
        d,
        sqls,
        j,
    ) by {
        lemma_table_after_insert_none(d, sqls, s, i, j);
        assert(b[j + 1] == sqls[j]);
    }
}

} // verus!
