use querent_core::ast::{Expr, JoinBase, Literal, SetOp, Statement, TableFactor, TableRef};
use querent_core::dialect::{ansi, postgres};
use querent_core::lex::{lex, token_tape, Token};
use querent_core::parse::number::parse_i64;
use querent_core::parse::v2::WinnowParser;
use querent_core::parse::{parse_statement, parse_statement_at_cursor, v3, Parser};
use querent_core::span::Loc;

fn parse(sql: &str) -> Option<Loc<Statement>> {
    let spec = postgres::spec();
    let tokens = lex(&spec, sql);
    v3::parse_statement(&tokens, &spec)
}

fn is_query(sql: &str) -> bool {
    matches!(
        parse(sql),
        Some(Loc {
            item: Statement::Query(_),
            ..
        })
    )
}

fn ansi_tokens(sql: &str) -> Vec<Token> {
    lex(&ansi::spec(), sql)
}

#[test]
fn v3_simple_select() {
    assert!(parse("SELECT 1").is_some());
}

#[test]
fn v3_select_columns() {
    assert!(parse("SELECT a, b, c FROM t").is_some());
}

#[test]
fn v3_with_clause() {
    assert!(matches!(
        parse("WITH cte AS (SELECT 1) SELECT * FROM cte"),
        Some(Loc { item: Statement::Query(q), .. }) if q.item.with.is_some()
    ));
}

#[test]
fn v3_join() {
    assert!(is_query("SELECT * FROM a JOIN b ON a.id = b.id"));
    assert!(is_query("SELECT * FROM a LEFT OUTER JOIN b ON a.id = b.id"));
    assert!(is_query("SELECT * FROM a NATURAL JOIN b"));
    assert!(is_query("SELECT * FROM a CROSS JOIN b"));
}

#[test]
fn v3_union() {
    assert!(matches!(
        parse("SELECT 1 UNION ALL SELECT 2"),
        Some(Loc { item: Statement::Query(q), .. })
            if q.item.body.as_ref().map(|b| !b.item.set_ops.is_empty()).unwrap_or(false)
    ));
}

#[test]
fn v3_cast_expr() {
    assert!(parse("SELECT CAST(x AS INTEGER)").is_some());
    assert!(parse("SELECT CAST(y AS VARCHAR(255))").is_some());
    assert!(parse("SELECT CAST(z AS NUMERIC(10, 2))").is_some());
}

#[test]
fn v3_interval_literal() {
    assert!(parse("SELECT INTERVAL '1 day'").is_some());
}

#[test]
fn v3_nulls_order() {
    assert!(parse("SELECT * FROM t ORDER BY x NULLS FIRST").is_some());
    assert!(parse("SELECT * FROM t ORDER BY x DESC NULLS LAST").is_some());
}

#[test]
fn v3_not_predicates() {
    assert!(parse("SELECT * FROM t WHERE x NOT BETWEEN 1 AND 10").is_some());
    assert!(parse("SELECT * FROM t WHERE x NOT LIKE '%foo%'").is_some());
    assert!(parse("SELECT * FROM t WHERE x NOT IN (1, 2, 3)").is_some());
}

#[test]
fn v3_postgres_type_cast() {
    assert!(parse("SELECT x::integer").is_some());
    assert!(parse("SELECT x::text::integer").is_some());
    assert!(parse("SELECT (a + b)::numeric(10,2)").is_some());
}

#[test]
fn v3_array_subscript() {
    assert!(parse("SELECT arr[1]").is_some());
    assert!(parse("SELECT arr[1:3]").is_some());
    assert!(parse("SELECT matrix[1][2]").is_some());
}

#[test]
fn v3_row_constructor() {
    assert!(parse("SELECT ROW(1, 2, 3)").is_some());
    assert!(parse("SELECT ROW(a, b, c) FROM t").is_some());
}

#[test]
fn v3_at_time_zone() {
    assert!(parse("SELECT ts AT TIME ZONE 'UTC'").is_some());
}

#[test]
fn case_expr() {
    assert!(parse("SELECT CASE WHEN x > 1 THEN 'a' ELSE 'b' END FROM t").is_some());
    assert!(parse("SELECT CASE x WHEN 1 THEN 'a' WHEN 2 THEN 'b' END").is_some());
}

#[test]
fn window_function() {
    assert!(parse("SELECT rank() OVER (PARTITION BY a ORDER BY b) FROM t").is_some());
    assert!(parse("SELECT sum(x) OVER w FROM t WINDOW w AS (ORDER BY y)").is_some());
}

#[test]
fn aggregate_filter() {
    assert!(parse("SELECT count(*) FILTER (WHERE x > 0) FROM t").is_some());
}

#[test]
fn subquery_in_from() {
    assert!(parse("SELECT * FROM (SELECT 1) sub").is_some());
}

#[test]
fn exists_subquery() {
    assert!(parse("SELECT * FROM t WHERE EXISTS (SELECT 1 FROM s)").is_some());
}

#[test]
fn quantified() {
    assert!(parse("SELECT * FROM t WHERE x = ANY (SELECT id FROM s)").is_some());
}

#[test]
fn group_by_variants() {
    assert!(parse("SELECT a, SUM(c) FROM t GROUP BY ROLLUP(a, b)").is_some());
    assert!(parse("SELECT a, SUM(c) FROM t GROUP BY CUBE(a, b)").is_some());
    assert!(parse("SELECT a FROM t GROUP BY GROUPING SETS((a, b), (a), ())").is_some());
    assert!(parse("SELECT a FROM t GROUP BY a, ROLLUP(b, c)").is_some());
}

#[test]
fn insert_variants() {
    let insert = |s| {
        matches!(
            parse(s),
            Some(Loc {
                item: Statement::Insert(_),
                ..
            })
        )
    };
    assert!(insert("INSERT INTO t (a, b) VALUES (1, 2)"));
    assert!(insert("INSERT INTO t VALUES (1), (2), (3)"));
    assert!(insert("INSERT INTO t SELECT * FROM s"));
    assert!(insert("INSERT INTO t DEFAULT VALUES"));
    assert!(insert("INSERT INTO t (a) VALUES (1) RETURNING *"));
}

#[test]
fn update_variants() {
    let update = |s| {
        matches!(
            parse(s),
            Some(Loc {
                item: Statement::Update(_),
                ..
            })
        )
    };
    assert!(update("UPDATE t SET a = 1 WHERE id = 1"));
    assert!(update("UPDATE t SET a = 1, b = 2, c = 3"));
    assert!(update("UPDATE t SET a = s.a FROM s WHERE t.id = s.id"));
    assert!(update("UPDATE t SET a = 1 RETURNING *"));
}

#[test]
fn delete_variants() {
    let delete = |s| {
        matches!(
            parse(s),
            Some(Loc {
                item: Statement::Delete(_),
                ..
            })
        )
    };
    assert!(delete("DELETE FROM t WHERE id = 1"));
    assert!(delete("DELETE FROM t USING s WHERE t.id = s.id"));
    assert!(delete("DELETE FROM t WHERE id = 1 RETURNING *"));
}

#[test]
fn values_statement() {
    assert!(parse("VALUES (1, 2), (3, 4)").is_some());
    assert!(parse("WITH v AS (VALUES (1), (2)) SELECT * FROM v").is_some());
}

#[test]
fn empty_and_partial_input() {
    assert!(matches!(
        parse(""),
        Some(Loc {
            item: Statement::Partial(_),
            ..
        })
    ));
    assert!(matches!(
        parse("foo"),
        Some(Loc {
            item: Statement::Partial(_),
            ..
        })
    ));
    // Incomplete predicate still yields a query (error-tolerant).
    assert!(is_query("SELECT * FROM t WHERE x ="));
}

#[test]
fn limit_offset() {
    assert!(parse("SELECT * FROM t LIMIT 10 OFFSET 5").is_some());
    assert!(parse("SELECT * FROM t OFFSET 5 ROWS FETCH FIRST 10 ROWS ONLY").is_some());
}

#[test]
fn statement_partial_and_query() {
    let stmt = |sql: &str| {
        let spec = ansi::spec();
        let tokens = lex(&spec, sql);
        let mut parser = WinnowParser::new(&tokens, &spec);
        parser.parse_statement().unwrap().item
    };
    assert!(matches!(stmt(""), Statement::Partial(_)));
    assert!(matches!(stmt("SEL"), Statement::Partial(_)));
    assert!(matches!(stmt("SELECT"), Statement::Query(_)));
}

#[test]
fn parser_partial_after_semicolon() {
    let tokens = ansi_tokens(";");
    let mut parser = Parser::new(token_tape(&tokens));
    assert!(matches!(parser.parse_statement().unwrap().item, Statement::Partial(_)));
}

#[test]
fn parse_at_cursor_starts_after_last_semicolon() {
    let sql = "SELECT a FROM t; SELECT b FROM u JOIN v ON u.id = v.id";
    let tokens = ansi_tokens(sql);
    let stmt = parse_statement_at_cursor(token_tape(&tokens), sql.len()).unwrap();
    let Statement::Query(q) = stmt.item else {
        panic!("expected a query")
    };
    // The statement starts at the second SELECT.
    assert_eq!(q.span.start, 17);
    let body = q.item.body.unwrap();
    let sel = match body.item.left.item {
        querent_core::ast::QueryPrimary::Select(s) => s,
        _ => panic!("expected a select"),
    };
    let from = sel.item.from.unwrap();
    assert_eq!(from.item.sources.items.len(), 1);
    match &from.item.sources.items[0].item {
        TableRef::Join(j) => assert_eq!(j.item.kind.base, JoinBase::Inner),
        _ => panic!("expected a join"),
    }
    // A cursor inside the first statement parses the first one.
    let first = parse_statement_at_cursor(token_tape(&tokens), 3).unwrap();
    assert_eq!(first.span.start, 0);
}

#[test]
fn join_kinds_are_read() {
    let cases = [
        ("SELECT * FROM a LEFT OUTER JOIN b ON a.id = b.id", JoinBase::Left, true, false),
        ("SELECT * FROM a NATURAL JOIN b", JoinBase::Inner, false, true),
        ("SELECT * FROM a CROSS JOIN b", JoinBase::Cross, false, false),
        ("SELECT * FROM a FULL JOIN b ON x = y", JoinBase::Full, false, false),
        ("SELECT * FROM a RIGHT JOIN b USING (id)", JoinBase::Right, false, false),
    ];
    for (sql, base, outer, natural) in cases {
        let tokens = ansi_tokens(sql);
        let stmt = parse_statement(token_tape(&tokens)).unwrap();
        let Statement::Query(q) = stmt.item else {
            panic!("expected a query: {sql}")
        };
        let querent_core::ast::QueryPrimary::Select(sel) = q.item.body.unwrap().item.left.item else {
            panic!("expected a select: {sql}")
        };
        let from = sel.item.from.unwrap();
        match &from.item.sources.items[0].item {
            TableRef::Join(j) => {
                assert_eq!(j.item.kind.base, base, "{sql}");
                assert_eq!(j.item.kind.outer, outer, "{sql}");
                assert_eq!(j.item.kind.natural, natural, "{sql}");
                assert!(matches!(j.item.left.item, TableRef::Factor(Loc { item: TableFactor::Named(_), .. })));
            }
            _ => panic!("expected a join: {sql}"),
        }
    }
}

#[test]
fn number_literals_and_set_ops() {
    let tokens = ansi_tokens("SELECT 42 INTERSECT SELECT 7");
    let stmt = parse_statement(token_tape(&tokens)).unwrap();
    let Statement::Query(q) = stmt.item else {
        panic!("expected a query")
    };
    let body = q.item.body.unwrap().item;
    let querent_core::ast::QueryPrimary::Select(sel) = body.left.item else {
        panic!("expected a select")
    };
    match &sel.item.projection.item.list.items[0].item.expr.item {
        Expr::Literal(l) => assert_eq!(l.item, Literal::Number(42)),
        other => panic!("expected a number, got {other:?}"),
    }
    assert_eq!(body.set_ops.len(), 1);
    assert_eq!(body.set_ops[0].item.op, SetOp::Intersect { all: false });
}

#[test]
fn number_text_reads_as_i64() {
    assert_eq!(parse_i64("123"), Some(123));
    assert_eq!(parse_i64("+5"), Some(5));
    assert_eq!(parse_i64("-42"), Some(-42));
    assert_eq!(parse_i64("9223372036854775807"), Some(i64::MAX));
    assert_eq!(parse_i64("-9223372036854775808"), Some(i64::MIN));
    assert_eq!(parse_i64("9223372036854775808"), None);
    assert_eq!(parse_i64(""), None);
    assert_eq!(parse_i64("-"), None);
    assert_eq!(parse_i64("1a"), None);
    assert_eq!(parse_i64("007"), Some(7));
}
