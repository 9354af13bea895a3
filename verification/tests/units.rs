use sql_fingerprint::alias::{alias_string, dec_string, AliasTable};
use sql_fingerprint::bridge::SqlDialect;
use sql_fingerprint::tree::{LimitKind, QuoteMarker, SqlExpr, SqlIdent, StmtNode};
use sql_fingerprint::visit::{maybe_unquote_ident, visit_limit, FingerprintingVisitor};
use sql_fingerprint::{fingerprint_many, fingerprint_one};

#[test]
fn test_unquote_word_identifier() {
    let i = SqlIdent {
        value: String::from("abc_1"),
        quote: Some(QuoteMarker::DoubleQuote),
    };
    let r = maybe_unquote_ident(i);
    assert_eq!(r.value, "abc_1");
    assert_eq!(r.quote, None);
}

#[test]
fn test_keep_quote_on_non_word_identifier() {
    let i = SqlIdent {
        value: String::from("a b"),
        quote: Some(QuoteMarker::DoubleQuote),
    };
    let r = maybe_unquote_ident(i);
    assert_eq!(r.value, "a b");
    assert_eq!(r.quote, Some(QuoteMarker::DoubleQuote));
}

#[test]
fn test_decimal_rendering() {
    assert_eq!(dec_string(0), "0");
    assert_eq!(dec_string(7), "7");
    assert_eq!(dec_string(10), "10");
    assert_eq!(dec_string(90210), "90210");
    assert_eq!(alias_string(1), "s1");
    assert_eq!(alias_string(42), "s42");
}

#[test]
fn test_alias_table_numbering() {
    let mut t = AliasTable::new();
    let a = t.assign(&String::from("alpha"));
    let b = t.assign(&String::from("beta"));
    assert_eq!(a, "s1");
    assert_eq!(b, "s2");
    assert_eq!(t.lookup(&String::from("alpha")), Some(String::from("s1")));
    assert_eq!(t.lookup(&String::from("gamma")), None);
    // A repeated name takes the next number and overwrites its alias.
    let c = t.assign(&String::from("alpha"));
    assert_eq!(c, "s3");
    assert_eq!(t.lookup(&String::from("alpha")), Some(String::from("s3")));
}

#[test]
fn test_visitor_savepoint_rewrite() {
    let mut v = FingerprintingVisitor::new();
    let s = StmtNode::Savepoint {
        name: SqlIdent {
            value: String::from("sp_original"),
            quote: Some(QuoteMarker::DoubleQuote),
        },
    };
    match v.visit_statement(s) {
        StmtNode::Savepoint { name } => {
            assert_eq!(name.value, "s1");
            assert_eq!(name.quote, None);
        }
        _ => panic!("statement kind changed"),
    }
}

#[test]
fn test_visitor_release_unknown_name_unchanged() {
    let mut v = FingerprintingVisitor::new();
    let s = StmtNode::Release {
        name: SqlIdent {
            value: String::from("ghostpoint"),
            quote: Some(QuoteMarker::DoubleQuote),
        },
    };
    match v.visit_statement(s) {
        StmtNode::Release { name } => {
            assert_eq!(name.value, "ghostpoint");
            assert_eq!(name.quote, Some(QuoteMarker::DoubleQuote));
        }
        _ => panic!("statement kind changed"),
    }
}

#[test]
fn test_limit_operands_collapse() {
    let l = LimitKind::OffsetCommaLimit {
        offset: SqlExpr::Ident(SqlIdent {
            value: String::from("21"),
            quote: None,
        }),
        limit: SqlExpr::Ident(SqlIdent {
            value: String::from("101"),
            quote: None,
        }),
    };
    match visit_limit(l) {
        LimitKind::OffsetCommaLimit { offset, limit } => {
            assert!(matches!(offset, SqlExpr::Placeholder));
            assert!(matches!(limit, SqlExpr::Placeholder));
        }
        _ => panic!("limit form changed"),
    }
}

#[test]
fn test_select_order_by_scenario() {
    let result = fingerprint_one("SELECT a, b FROM c ORDER BY b", None);
    assert_eq!(result, "SELECT ... FROM c ORDER BY ...");
}

#[test]
fn test_fingerprint_one_empty() {
    assert_eq!(fingerprint_one("", None), "");
}

#[test]
fn test_refingerprint_is_stable() {
    let inputs = vec![
        "SELECT a, b FROM c ORDER BY b",
        "INSERT INTO c (a, b) VALUES (1, 2), (3, 4) RETURNING d",
        "UPDATE a SET b = 1, c = 2 WHERE d = 3 RETURNING e",
        "SAVEPOINT \"s1234\"",
        "DELETE FROM a WHERE b = 1 RETURNING c",
    ];
    for sql in inputs {
        let once = fingerprint_one(sql, None);
        let twice = fingerprint_one(&once, None);
        assert_eq!(twice, once);
    }
}

#[test]
fn test_literal_insensitivity() {
    let a = fingerprint_one("SELECT a FROM t WHERE x = 1 LIMIT 5 OFFSET 2", None);
    let b = fingerprint_one("SELECT a FROM t WHERE x = 99 LIMIT 1000 OFFSET 31", None);
    assert_eq!(a, b);
    let c = fingerprint_one("INSERT INTO t (a) VALUES (1)", None);
    let d = fingerprint_one("INSERT INTO t (a) VALUES (2), (3), (4)", None);
    assert_eq!(c, d);
}

#[test]
fn test_failing_parse_is_local() {
    let result = fingerprint_many(
        vec!["SAVEPOINT \"one\"", "SELECT ((", "SAVEPOINT \"two\""],
        None,
    );
    assert_eq!(result, vec!["SAVEPOINT s1", "SELECT ((", "SAVEPOINT s2"]);
}

#[test]
fn test_savepoint_numbering_across_batch() {
    let result = fingerprint_many(
        vec![
            "SAVEPOINT \"a\"",
            "SELECT 1",
            "SAVEPOINT \"b\"",
            "ROLLBACK TO SAVEPOINT \"a\"",
        ],
        None,
    );
    assert_eq!(
        result,
        vec![
            "SAVEPOINT s1",
            "SELECT ...",
            "SAVEPOINT s2",
            "ROLLBACK TO SAVEPOINT s1"
        ]
    );
}

#[test]
fn test_derived_table_normalized() {
    let result = fingerprint_one("SELECT * FROM (SELECT a, b FROM t WHERE x = 1) AS q", None);
    assert_eq!(result, "SELECT * FROM (SELECT ... FROM t WHERE ...) AS q");
}

#[test]
fn test_bare_values_rows_kept() {
    let result = fingerprint_one("VALUES (1, 2)", None);
    assert_eq!(result, "VALUES (1, 2)");
}

#[test]
fn test_multiple_statements_joined_by_space() {
    let result = fingerprint_one("SELECT 1; SELECT 2", None);
    assert_eq!(result, "SELECT ... SELECT ...");
}

#[test]
fn test_group_by_all_untouched() {
    let result = fingerprint_one("SELECT a FROM t GROUP BY ALL", None);
    assert_eq!(result, "SELECT ... FROM t GROUP BY ALL");
}

#[test]
fn test_join_using_untouched() {
    let result = fingerprint_one("SELECT a FROM c JOIN d USING(e)", None);
    assert_eq!(result, "SELECT ... FROM c JOIN d USING(e)");
}

#[test]
fn test_quoting_kept_for_non_word_names() {
    let result = fingerprint_one("SELECT a FROM \"c c\"", None);
    assert_eq!(result, "SELECT ... FROM \"c c\"");
}

#[test]
fn test_having_identifier_unquoted() {
    let result = fingerprint_one("SELECT a FROM t GROUP BY x HAVING \"b\"", None);
    assert_eq!(result, "SELECT ... FROM t GROUP BY ... HAVING b");
}

#[test]
fn test_having_expression_identifiers_unquoted() {
    let result = fingerprint_one("SELECT a FROM t GROUP BY x HAVING \"b\" = 1", None);
    assert_eq!(result, "SELECT ... FROM t GROUP BY ... HAVING b = 1");
}

#[test]
fn test_explain_query_normalized() {
    let result = fingerprint_one("EXPLAIN SELECT a, b FROM c WHERE d = 1", None);
    assert_eq!(result, "EXPLAIN SELECT ... FROM c WHERE ...");
}

#[test]
fn test_create_view_query_normalized() {
    let result = fingerprint_one("CREATE VIEW \"v\" AS SELECT a, b FROM t", None);
    assert_eq!(result, "CREATE VIEW v AS SELECT ... FROM t");
}

#[test]
fn test_create_table_as_query_normalized() {
    let result = fingerprint_one("CREATE TABLE \"t2\" AS SELECT a FROM t WHERE x = 1", None);
    assert_eq!(result, "CREATE TABLE t2 AS SELECT ... FROM t WHERE ...");
}

#[test]
fn test_join_using_names_unquoted() {
    let result = fingerprint_one("SELECT a FROM c JOIN d USING(\"x\")", None);
    assert_eq!(result, "SELECT ... FROM c JOIN d USING(x)");
}

#[test]
fn test_function_arguments_walked() {
    let result = fingerprint_one("SELECT a FROM t GROUP BY x HAVING f(\"b\", 1)", None);
    assert_eq!(result, "SELECT ... FROM t GROUP BY ... HAVING f(b, 1)");
}

#[test]
fn test_qualified_wildcard_unquoted() {
    let result = fingerprint_one("SELECT \"t\".* FROM t", None);
    assert_eq!(result, "SELECT t.* FROM t");
}

#[test]
fn test_nested_parentheses_unquoted() {
    let result = fingerprint_one("SELECT a FROM t GROUP BY x HAVING NOT (\"b\")", None);
    assert_eq!(result, "SELECT ... FROM t GROUP BY ... HAVING NOT (b)");
}

#[test]
fn test_is_null_operand_unquoted() {
    let result = fingerprint_one("SELECT a FROM t GROUP BY x HAVING \"b\" IS NULL", None);
    assert_eq!(result, "SELECT ... FROM t GROUP BY ... HAVING b IS NULL");
}

#[test]
fn test_update_from_name_unquoted() {
    let result = fingerprint_one("UPDATE t SET a = 1 FROM \"u\"", None);
    assert_eq!(result, "UPDATE t SET ... = ... FROM u");
}

#[test]
fn test_update_order_by_identifier_unquoted() {
    let result = fingerprint_one("UPDATE t SET a = 1 ORDER BY \"b\"", None);
    assert_eq!(result, "UPDATE t SET ... = ... ORDER BY b");
}

#[test]
fn test_delete_using_name_unquoted() {
    let result = fingerprint_one("DELETE FROM \"t\" USING \"u\" WHERE x = 1", None);
    assert_eq!(result, "DELETE FROM t USING u WHERE ...");
}

#[test]
fn test_nested_join_name_unquoted_and_on_kept() {
    let result = fingerprint_one("SELECT a FROM (\"c\" JOIN d ON e)", None);
    assert_eq!(result, "SELECT ... FROM (c JOIN d ON e)");
}

#[test]
fn test_asof_join_condition_walked() {
    let result = fingerprint_one(
        "SELECT a FROM t1 ASOF JOIN \"t2\" MATCH_CONDITION (\"x\") ON \"y\"",
        None,
    );
    assert_eq!(
        result,
        "SELECT ... FROM t1 ASOF JOIN t2 MATCH_CONDITION (x) ON y"
    );
}

#[test]
fn test_insert_set_assignment_walked() {
    let result = fingerprint_one("INSERT INTO t SET `a` = 1", Some(SqlDialect::MySql));
    assert_eq!(result, "INSERT INTO t SET a = 1");
}

#[test]
fn test_one_equals_many_of_one() {
    let s = "SELECT a, b FROM c ORDER BY b";
    assert_eq!(fingerprint_one(s, None), fingerprint_many(vec![s], None)[0]);
}

#[test]
fn test_batch_is_deterministic() {
    let input = vec!["SAVEPOINT \"x\"", "SELECT a FROM t", "SELECT  SELECT"];
    let first = fingerprint_many(input.clone(), None);
    let second = fingerprint_many(input, None);
    assert_eq!(first, second);
}
