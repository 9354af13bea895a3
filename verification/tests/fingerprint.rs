use sql_fingerprint::{fingerprint_many, fingerprint_one};

#[test]
fn test_fingerprint_one() {
    let result = fingerprint_one("SELECT 123", None);
    assert_eq!(result, "SELECT ...");
}

#[test]
fn test_empty() {
    let result = fingerprint_many(vec![""], None);
    assert_eq!(result, vec![""]);
}

#[test]
fn test_unparsable() {
    let result = fingerprint_many(vec!["SELECT  SELECT  SELECT  SELECT"], None);
    assert_eq!(result, vec!["SELECT  SELECT  SELECT  SELECT"]);
}

#[test]
fn test_comments_dropped() {
    let result = fingerprint_many(vec!["SELECT 123 /* magic value */"], None);
    assert_eq!(result, vec!["SELECT ..."]);
}

#[test]
fn test_savepoint() {
    let result = fingerprint_many(vec!["SAVEPOINT \"s1234\""], None);
    assert_eq!(result, vec!["SAVEPOINT s1"]);
}

#[test]
fn test_multiple_savepoints() {
    let result = fingerprint_many(vec!["SAVEPOINT \"s1234\"", "SAVEPOINT \"s3456\""], None);
    assert_eq!(result, vec!["SAVEPOINT s1", "SAVEPOINT s2"]);
}

#[test]
fn test_duplicate_savepoints() {
    let result = fingerprint_many(vec!["SAVEPOINT \"s1234\"", "SAVEPOINT \"s1234\""], None);
    assert_eq!(result, vec!["SAVEPOINT s1", "SAVEPOINT s2"]);
}

#[test]
fn test_release_savepoints() {
    let result = fingerprint_many(
        vec![
            "SAVEPOINT \"s1234\"",
            "RELEASE SAVEPOINT \"s1234\"",
            "SAVEPOINT \"s2345\"",
            "RELEASE SAVEPOINT \"s2345\"",
        ],
        None,
    );
    assert_eq!(
        result,
        vec![
            "SAVEPOINT s1",
            "RELEASE SAVEPOINT s1",
            "SAVEPOINT s2",
            "RELEASE SAVEPOINT s2"
        ]
    );
}

#[test]
fn test_rollback_savepoint() {
    let result = fingerprint_many(
        vec!["SAVEPOINT \"s1234\"", "ROLLBACK TO SAVEPOINT \"s1234\""],
        None,
    );
    assert_eq!(result, vec!["SAVEPOINT s1", "ROLLBACK TO SAVEPOINT s1"]);
}

#[test]
fn test_select() {
    let result = fingerprint_many(vec!["SELECT a, b FROM c WHERE a = b"], None);
    assert_eq!(result, vec!["SELECT ... FROM c WHERE ..."]);
}

#[test]
fn test_select_single_value() {
    let result = fingerprint_many(vec!["SELECT 1"], None);
    assert_eq!(result, vec!["SELECT ..."]);
}

#[test]
fn test_select_distinct_on() {
    let result = fingerprint_many(vec!["SELECT DISTINCT ON (a, b) c FROM d"], None);
    assert_eq!(result, vec!["SELECT DISTINCT ON (...) ... FROM d"]);
}

#[test]
fn test_select_with_from_quoted() {
    let result = fingerprint_many(vec!["SELECT a, b FROM \"c\".\"d\""], None);
    assert_eq!(result, vec!["SELECT ... FROM c.d"]);
}

#[test]
fn test_select_with_from_join() {
    let result = fingerprint_many(vec!["SELECT a, b FROM c JOIN d"], None);
    assert_eq!(result, vec!["SELECT ... FROM c JOIN d"]);
}

#[test]
fn test_select_with_from_inner_join_quoted() {
    let result = fingerprint_many(
        vec!["SELECT a, b FROM c INNER JOIN d ON (\"d\".\"a\" = \"c\".\"a\")"],
        None,
    );
    assert_eq!(result, vec!["SELECT ... FROM c INNER JOIN d ON ..."]);
}

#[test]
fn test_select_with_from_left_outer_join_quoted() {
    let result = fingerprint_many(
        vec!["SELECT a, b FROM c LEFT OUTER JOIN d ON (\"d\".\"a\" = \"c\".\"a\")"],
        None,
    );
    assert_eq!(result, vec!["SELECT ... FROM c LEFT OUTER JOIN d ON ..."]);
}

#[test]
fn test_select_with_group_by() {
    let result = fingerprint_many(vec!["SELECT a, b FROM c GROUP BY a, b"], None);
    assert_eq!(result, vec!["SELECT ... FROM c GROUP BY ..."]);
}

#[test]
fn test_select_with_order_by() {
    let result = fingerprint_many(vec!["SELECT a, b FROM c ORDER BY a, b DESC"], None);
    assert_eq!(result, vec!["SELECT ... FROM c ORDER BY ..."]);
}

#[test]
fn test_select_with_order_by_more() {
    let result = fingerprint_many(vec!["SELECT a, b FROM c ORDER BY a ASC, b DESC"], None);
    assert_eq!(result, vec!["SELECT ... FROM c ORDER BY ... ASC"]);
}

#[test]
fn test_select_with_limit_offset() {
    let result = fingerprint_many(vec!["SELECT a FROM b LIMIT 21 OFFSET 101 ROWS"], None);
    assert_eq!(result, vec!["SELECT ... FROM b LIMIT ... OFFSET ... ROWS"]);
}

#[test]
fn test_clickhouse_select_with_limit_by() {
    let result = fingerprint_many(vec!["SELECT a FROM b LIMIT 21 BY c"], None);
    assert_eq!(result, vec!["SELECT ... FROM b LIMIT ... BY ..."]);
}

#[test]
fn test_mysql_select_with_limit_comma() {
    let result = fingerprint_many(vec!["SELECT a FROM b LIMIT 21, 101"], None);
    assert_eq!(result, vec!["SELECT ... FROM b LIMIT ..., ..."]);
}

#[test]
fn test_select_union() {
    let result = fingerprint_many(vec!["SELECT a, b FROM c UNION SELECT a, b FROM d"], None);
    assert_eq!(result, vec!["SELECT ... FROM c UNION SELECT ... FROM d"]);
}

#[test]
fn test_select_union_parenthesized() {
    let result = fingerprint_many(vec!["(SELECT a, b FROM c) UNION (SELECT a, b FROM d)"], None);
    assert_eq!(result, vec!["(SELECT ... FROM c) UNION (SELECT ... FROM d)"]);
}

#[test]
fn test_select_union_all() {
    let result = fingerprint_many(vec!["SELECT a, b FROM c UNION ALL SELECT a, b FROM d"], None);
    assert_eq!(result, vec!["SELECT ... FROM c UNION ALL SELECT ... FROM d"]);
}

#[test]
fn test_select_union_all_parenthesized() {
    let result = fingerprint_many(
        vec!["(SELECT a, b FROM c) UNION ALL (SELECT a, b FROM d)"],
        None,
    );
    assert_eq!(result, vec!["(SELECT ... FROM c) UNION ALL (SELECT ... FROM d)"]);
}

#[test]
fn test_select_except() {
    let result = fingerprint_many(vec!["SELECT a, b FROM c EXCEPT SELECT a, b FROM d"], None);
    assert_eq!(result, vec!["SELECT ... FROM c EXCEPT SELECT ... FROM d"]);
}

#[test]
fn test_select_except_parenthesized() {
    let result = fingerprint_many(
        vec!["(SELECT a, b FROM c) EXCEPT (SELECT a, b FROM d)"],
        None,
    );
    assert_eq!(result, vec!["(SELECT ... FROM c) EXCEPT (SELECT ... FROM d)"]);
}

#[test]
fn test_select_intersect() {
    let result = fingerprint_many(vec!["SELECT a, b FROM c INTERSECT SELECT a, b FROM d"], None);
    assert_eq!(result, vec!["SELECT ... FROM c INTERSECT SELECT ... FROM d"]);
}

#[test]
fn test_select_intersect_parenthesized() {
    let result = fingerprint_many(
        vec!["(SELECT a, b FROM c) INTERSECT (SELECT a, b FROM d)"],
        None,
    );
    assert_eq!(result, vec!["(SELECT ... FROM c) INTERSECT (SELECT ... FROM d)"]);
}

#[test]
fn test_select_union_triple() {
    let result = fingerprint_many(
        vec!["SELECT a, b FROM c UNION SELECT a, b FROM d UNION SELECT a, b FROM e"],
        None,
    );
    assert_eq!(
        result,
        vec!["SELECT ... FROM c UNION SELECT ... FROM d UNION SELECT ... FROM e"]
    );
}

#[test]
fn test_select_union_triple_parenthesized() {
    let result = fingerprint_many(
        vec!["(SELECT a, b FROM c) UNION (SELECT a, b FROM d) UNION (SELECT a, b FROM e)"],
        None,
    );
    assert_eq!(
        result,
        vec!["(SELECT ... FROM c) UNION (SELECT ... FROM d) UNION (SELECT ... FROM e)"]
    );
}

#[test]
fn test_with_recursive_select() {
    let result = fingerprint_many(
        vec!["WITH RECURSIVE t AS (SELECT a, b FROM c WHERE d = 12345) SELECT * FROM t"],
        None,
    );
    assert_eq!(
        result,
        vec!["WITH RECURSIVE t AS (SELECT ... FROM c WHERE ...) SELECT * FROM t"]
    );
}

#[test]
fn test_with_recursive_select_union() {
    let result = fingerprint_many(
        vec!["WITH RECURSIVE t AS (SELECT a FROM b UNION SELECT a FROM c) SELECT * FROM t"],
        None,
    );
    assert_eq!(
        result,
        vec!["WITH RECURSIVE t AS (SELECT ... FROM b UNION SELECT ... FROM c) SELECT * FROM t"],
    );
}

#[test]
fn test_declare_cursor() {
    let result = fingerprint_many(vec!["DECLARE c CURSOR FOR SELECT a, b FROM c join d"], None);
    assert_eq!(result, vec!["DECLARE ... CURSOR FOR SELECT ... FROM c JOIN d"]);
}

#[test]
fn test_insert() {
    let result = fingerprint_many(
        vec!["INSERT INTO c (a, b) VALUES (1, 2), (3, 4) RETURNING d"],
        None,
    );
    assert_eq!(result, vec!["INSERT INTO c (...) VALUES (...) RETURNING ..."]);
}

#[test]
fn test_insert_select() {
    let result = fingerprint_many(vec!["INSERT INTO a (b, c) SELECT d FROM e"], None);
    assert_eq!(result, vec!["INSERT INTO a (...) SELECT ... FROM e"]);
}

#[test]
fn test_insert_on_conflict() {
    let result = fingerprint_many(
        vec![
            "INSERT INTO a (b, c) VALUES (1, 2) ON CONFLICT(\"a\", \"b\") DO UPDATE SET \"d\" = EXCLUDED.d WHERE e = f RETURNING b, c",
        ],
        None,
    );
    assert_eq!(
        result,
        vec![
            "INSERT INTO a (...) VALUES (...) ON CONFLICT(...) DO UPDATE SET ... = ... WHERE ... RETURNING ..."
        ]
    );
}

#[test]
fn test_update() {
    let result = fingerprint_many(vec!["UPDATE a SET b = 1, c = 2 WHERE d = 3 RETURNING e"], None);
    assert_eq!(result, vec!["UPDATE a SET ... = ... WHERE ... RETURNING ..."]);
}

#[test]
fn test_delete() {
    let result = fingerprint_many(vec!["DELETE FROM a WHERE b = 1 RETURNING c"], None);
    assert_eq!(result, vec!["DELETE FROM a WHERE ... RETURNING ..."]);
}

#[test]
fn test_insert_select_unnest() {
    let result = fingerprint_many(
        vec![
            "INSERT INTO my_table (col1, col2) SELECT * FROM UNNEST(ARRAY[1,2,3,4,5]) ON CONFLICT(col1) DO UPDATE SET col2 = EXCLUDED.col2",
        ],
        None,
    );
    assert_eq!(
        result,
        vec![
            "INSERT INTO my_table (...) SELECT * FROM UNNEST(...) ON CONFLICT(...) DO UPDATE SET ... = ..."
        ]
    );
}

#[test]
fn test_select_from_unnest() {
    let result = fingerprint_many(vec!["SELECT * FROM UNNEST(ARRAY[1,2,3,4,5])"], None);
    assert_eq!(result, vec!["SELECT * FROM UNNEST(...)"]);
}

#[test]
fn test_select_from_unnest_with_alias() {
    let result = fingerprint_many(
        vec!["SELECT * FROM UNNEST(ARRAY[1,2,3,4,5]) AS t (value)"],
        None,
    );
    assert_eq!(result, vec!["SELECT * FROM UNNEST(...) AS t (...)"]);
}
