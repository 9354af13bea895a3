//! Normalizes SQL statements into structural fingerprints: literal values,
//! expanded column lists, join predicates and similar value-bearing subtrees
//! collapse to the placeholder `...`, savepoint names are renamed to
//! batch-scoped aliases, and redundant identifier quoting is removed.
//!
//! Parsing and rendering are sqlparser's; everything between them — the
//! rewrite rules, the savepoint alias table, and identifier unquoting — is
//! stated in `rules` and proved of the code in `visit`. The parsing
//! dialect is chosen from `bridge::SqlDialect`'s fixed set of sqlparser
//! dialects; a dialect implementation of the caller's own is not accepted.

use vstd::prelude::*;

pub mod alias;
pub mod bridge;
pub mod chars;
pub mod laws;
pub mod rules;
pub mod tree;
pub mod visit;

use crate::alias::SpecAliasTable;
use crate::bridge::{
    parse_sql, parsed_nodes, parsed_shape, rendered_stmt, statement_sql, SqlDialect,
};
use crate::rules::norm_stmts;
use crate::tree::{SpecStmtNode, StmtNode};
use crate::visit::FingerprintingVisitor;

verus! {

/// The dialect used when the caller names none: permissive and generic.
pub open spec fn chosen_dialect(d: Option<SqlDialect>) -> SqlDialect {
    match d {
        Option::Some(x) => x,
        Option::None => SqlDialect::Generic,
    }
}

/// The texts of `parts` joined by single spaces.
pub open spec fn join_spaced(parts: Seq<Seq<char>>) -> Seq<char>
    decreases parts.len(),
{
    if parts.len() == 0 {
        Seq::empty()
    } else if parts.len() == 1 {
        parts[0]
    } else {
        join_spaced(parts.drop_last()) + seq![' '] + parts.last()
    }
}

/// What fingerprinting one input does, given the alias table the batch has
/// built so far: an unparsable input comes back unchanged and leaves the
/// table alone; a parsed input has its statements normalized in order and
/// rendered back joined by single spaces (so one that held no statements
/// becomes the empty text), with the table the normalization left behind.
pub open spec fn fingerprint_spec(d: SqlDialect, sql: Seq<char>, t: SpecAliasTable) -> (
    Seq<char>,
    SpecAliasTable,
) {
    if parsed_shape(d, sql) is None {
        (sql, t)
    } else {
        let normed = norm_stmts(parsed_nodes(d, sql), t);
        (join_spaced(normed.0.map_values(|s: SpecStmtNode| rendered_stmt(s))), normed.1)
    }
}

/// The alias table after fingerprinting the first `i` inputs of a batch,
/// starting from the empty table.
pub open spec fn table_after(d: SqlDialect, sqls: Seq<Seq<char>>, i: int) -> SpecAliasTable
    decreases i,
{
    if i <= 0 {
        Seq::empty()
    } else {
        fingerprint_spec(d, sqls[i - 1], table_after(d, sqls, i - 1)).1
    }
}

/// The fingerprint of element `i` of a batch: its own text rewritten under
/// the alias table that the elements before it left behind.
pub open spec fn batch_element(d: SqlDialect, sqls: Seq<Seq<char>>, i: int) -> Seq<char> {
    fingerprint_spec(d, sqls[i], table_after(d, sqls, i)).0
}

/// The fingerprint of one input on its own: a batch of one.
pub open spec fn fingerprint_of(d: SqlDialect, sql: Seq<char>) -> Seq<char> {
    fingerprint_spec(d, sql, Seq::empty()).0
}

/// Fingerprint one input string with a shared visitor: parse it, rewrite
/// every statement, and render them back joined by single spaces. An
/// unparsable input comes back unchanged and leaves the alias table alone.
#[verifier::loop_isolation(false)]
fn fingerprint_input(visitor: &mut FingerprintingVisitor, d: SqlDialect, sql: &str) -> (r: String)
    ensures
        r@ == fingerprint_spec(d, sql@, old(visitor)@).0,
        final(visitor)@ == fingerprint_spec(d, sql@, old(visitor)@).1,
{
    match parse_sql(d, sql) {
        Option::Some(nodes) => {
            let ghost normed = norm_stmts(parsed_nodes(d, sql@), old(visitor)@);
            let ghost rendered = normed.0.map_values(|s: SpecStmtNode| rendered_stmt(s));
            let mut rewritten = visitor.visit_statements(nodes);
            let n = rewritten.len();
            proof {
                assert(rewritten@.map_values(|s: StmtNode| s@) == normed.0);
                assert(rendered.take(0) =~= Seq::<Seq<char>>::empty());
            }
            let mut out = String::new();
            let mut i: usize = 0;
            while i < n
                invariant
                    i <= n,
                    n == rendered.len(),
                    rewritten@.len() == n - i,
                    forall|j: int|
                        0 <= j < n - i ==> (#[trigger] rewritten@[j])@ == normed.0[i + j],
                    out@ == join_spaced(rendered.take(i as int)),
                decreases n - i,
            {
                if i > 0 {
                    out.append(" ");
                }
                let x = rewritten.remove(0);
                let piece = statement_sql(x);
                out.append(piece.as_str());
                proof {
                    reveal_strlit(" ");
                    assert(x@ == normed.0[i as int]);
                    assert(rendered[i as int] == rendered_stmt(normed.0[i as int]));
                    assert(piece@ == rendered[i as int]);
                    assert(rendered.take(i as int + 1).drop_last() =~= rendered.take(i as int));
                    assert(rendered.take(i as int + 1).last() == rendered[i as int]);
                    if i == 0 {
                        assert(join_spaced(rendered.take(1)) == rendered.take(1)[0]);
                    }
                }
                i = i + 1;
            }
            proof {
                assert(rendered.take(n as int) =~= rendered);
            }
            out
        },
        Option::None => sql.to_owned(),
    }
}

/// Fingerprint multiple SQL strings. Doing so for a batch of strings
/// shares the savepoint alias table across the whole batch: each output is
/// the fingerprint of its own input under the table the inputs before it
/// left behind, in input order, one output per input.
pub fn fingerprint_many(input: Vec<&str>, dialect: Option<SqlDialect>) -> (r: Vec<String>)
    ensures
        r@.len() == input@.len(),
        forall|i: int|
            0 <= i < input@.len() ==> (#[trigger] r@[i])@ == batch_element(
                chosen_dialect(dialect),
                input@.map_values(|s: &str| s@),
                i,
            ),
{
    let ghost sqls = input@.map_values(|s: &str| s@);
    let d = match dialect {
        Option::Some(x) => x,
        Option::None => SqlDialect::Generic,
    };
    let mut visitor = FingerprintingVisitor::new();
    let n = input.len();
    let mut out: Vec<String> = Vec::new();
    let mut i: usize = 0;
    while i < n
        invariant
            i <= n,
            n == input@.len(),
            out@.len() == i,
            d == chosen_dialect(dialect),
            sqls == input@.map_values(|s: &str| s@),
            visitor@ == table_after(d, sqls, i as int),
            forall|j: int| 0 <= j < i ==> (#[trigger] out@[j])@ == batch_element(d, sqls, j),
        decreases n - i,
    {
        let s = fingerprint_input(&mut visitor, d, input[i]);
        proof {
            assert(input@[i as int]@ == sqls[i as int]);
        }
        out.push(s);
        i = i + 1;
    }
    out
}

/// Fingerprint a single SQL string: a batch of one. Unparsable SQL is
/// returned as-is.
pub fn fingerprint_one(input: &str, dialect: Option<SqlDialect>) -> (r: String)
    ensures
        r@ == fingerprint_of(chosen_dialect(dialect), input@),
{
    let mut batch: Vec<&str> = Vec::new();
    batch.push(input);
    let ghost sqls = batch@.map_values(|s: &str| s@);
    let mut results = fingerprint_many(batch, dialect);
    proof {
        assert(sqls[0] == input@);
        assert(table_after(chosen_dialect(dialect), sqls, 0) =~= Seq::<(
            Seq<char>,
            Seq<char>,
        )>::empty());
    }
    let r = results.remove(0);
    r
}

} // verus!
