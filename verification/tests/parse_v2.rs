use querent_core::ast::{
    Boolean, DataType, Expr, InsertSource, Literal, NullsOrder, SortDirection, Statement, TypeParam,
};
use querent_core::dialect::DialectKind;
use querent_core::lex::lex;
use querent_core::parse::v2::WinnowParser;
use querent_core::span::Loc;

fn parse(sql: &str) -> Option<Loc<Statement>> {
    let spec = DialectKind::Postgres.spec();
    let tokens = lex(&spec, sql);
    WinnowParser::new(&tokens, &spec).parse_statement()
}

#[test]
fn v2_simple_select() {
    assert!(parse("SELECT 1").is_some());
}

#[test]
fn v2_select_columns() {
    assert!(parse("SELECT a, b, c FROM t").is_some());
}

#[test]
fn v2_with_clause() {
    assert!(matches!(
        parse("WITH cte AS (SELECT 1) SELECT * FROM cte"),
        Some(Loc { item: Statement::Query(q), .. }) if q.item.with.is_some()
    ));
}

#[test]
fn v2_join() {
    assert!(parse("SELECT * FROM a JOIN b ON a.id = b.id").is_some());
}

#[test]
fn v2_union() {
    assert!(matches!(
        parse("SELECT 1 UNION ALL SELECT 2"),
        Some(Loc { item: Statement::Query(q), .. }) if q.item.body.as_ref().map(|b| !b.item.set_ops.is_empty()).unwrap_or(false)
    ));
}

#[test]
fn v2_cast_expr() {
    assert!(parse("SELECT CAST(x AS INTEGER)").is_some());
    assert!(parse("SELECT CAST(y AS VARCHAR(255))").is_some());
    assert!(parse("SELECT CAST(z AS NUMERIC(10, 2))").is_some());
}

#[test]
fn v2_interval_literal() {
    assert!(parse("SELECT INTERVAL '1 day'").is_some());
}

#[test]
fn v2_nulls_order() {
    assert!(parse("SELECT * FROM t ORDER BY x NULLS FIRST").is_some());
    assert!(parse("SELECT * FROM t ORDER BY x DESC NULLS LAST").is_some());
}

#[test]
fn v2_not_predicates() {
    assert!(parse("SELECT * FROM t WHERE x NOT BETWEEN 1 AND 10").is_some());
    assert!(parse("SELECT * FROM t WHERE x NOT LIKE '%foo%'").is_some());
    assert!(parse("SELECT * FROM t WHERE x NOT IN (1, 2, 3)").is_some());
}

#[test]
fn v2_postgres_type_cast() {
    assert!(parse("SELECT x::integer").is_some());
    assert!(parse("SELECT x::text::integer").is_some());
    assert!(parse("SELECT (a + b)::numeric(10,2)").is_some());
}

#[test]
fn v2_array_subscript() {
    assert!(parse("SELECT arr[1]").is_some());
    assert!(parse("SELECT arr[1:3]").is_some());
    assert!(parse("SELECT matrix[1][2]").is_some());
}

#[test]
fn v2_row_constructor() {
    assert!(parse("SELECT ROW(1, 2, 3)").is_some());
    assert!(parse("SELECT ROW(a, b, c) FROM t").is_some());
}

#[test]
fn v2_at_time_zone() {
    assert!(parse("SELECT ts AT TIME ZONE 'UTC'").is_some());
    assert!(parse("SELECT created_at AT TIME ZONE 'America/New_York' FROM t").is_some());
}

#[test]
fn overlaps() {
    assert!(parse("SELECT (a, b) OVERLAPS (c, d)").is_some());
}

#[test]
fn insert_values() {
    assert!(matches!(
        parse("INSERT INTO t (a, b) VALUES (1, 2)"),
        Some(Loc {
            item: Statement::Insert(_),
            ..
        })
    ));
}

#[test]
fn insert_multiple_rows() {
    assert!(matches!(
        parse("INSERT INTO t VALUES (1), (2), (3)"),
        Some(Loc {
            item: Statement::Insert(_),
            ..
        })
    ));
}

#[test]
fn insert_from_select() {
    assert!(matches!(
        parse("INSERT INTO t SELECT * FROM s"),
        Some(Loc {
            item: Statement::Insert(_),
            ..
        })
    ));
}

#[test]
fn insert_default() {
    assert!(matches!(
        parse("INSERT INTO t DEFAULT VALUES"),
        Some(Loc {
            item: Statement::Insert(_),
            ..
        })
    ));
}

#[test]
fn insert_returning() {
    assert!(matches!(
        parse("INSERT INTO t (a) VALUES (1) RETURNING *"),
        Some(Loc {
            item: Statement::Insert(_),
            ..
        })
    ));
}

#[test]
fn update_simple() {
    assert!(matches!(
        parse("UPDATE t SET a = 1 WHERE id = 1"),
        Some(Loc {
            item: Statement::Update(_),
            ..
        })
    ));
}

#[test]
fn update_multiple_cols() {
    assert!(matches!(
        parse("UPDATE t SET a = 1, b = 2, c = 3"),
        Some(Loc {
            item: Statement::Update(_),
            ..
        })
    ));
}

#[test]
fn update_from() {
    assert!(matches!(
        parse("UPDATE t SET a = s.a FROM s WHERE t.id = s.id"),
        Some(Loc {
            item: Statement::Update(_),
            ..
        })
    ));
}

#[test]
fn update_returning() {
    assert!(matches!(
        parse("UPDATE t SET a = 1 RETURNING *"),
        Some(Loc {
            item: Statement::Update(_),
            ..
        })
    ));
}

#[test]
fn delete_simple() {
    assert!(matches!(
        parse("DELETE FROM t WHERE id = 1"),
        Some(Loc {
            item: Statement::Delete(_),
            ..
        })
    ));
}

#[test]
fn delete_using() {
    assert!(matches!(
        parse("DELETE FROM t USING s WHERE t.id = s.id"),
        Some(Loc {
            item: Statement::Delete(_),
            ..
        })
    ));
}

#[test]
fn delete_returning() {
    assert!(matches!(
        parse("DELETE FROM t WHERE id = 1 RETURNING *"),
        Some(Loc {
            item: Statement::Delete(_),
            ..
        })
    ));
}

#[test]
fn values_standalone() {
    assert!(parse("VALUES (1, 2), (3, 4)").is_some());
}

#[test]
fn values_in_cte() {
    assert!(parse("WITH v AS (VALUES (1), (2)) SELECT * FROM v").is_some());
}

#[test]
fn group_by_rollup() {
    let stmt = parse("SELECT a, b, SUM(c) FROM t GROUP BY ROLLUP(a, b)");
    assert!(stmt.is_some());
}

#[test]
fn group_by_cube() {
    let stmt = parse("SELECT a, b, SUM(c) FROM t GROUP BY CUBE(a, b)");
    assert!(stmt.is_some());
}

#[test]
fn group_by_grouping_sets() {
    let stmt = parse("SELECT a, b, SUM(c) FROM t GROUP BY GROUPING SETS((a, b), (a), (b), ())");
    assert!(stmt.is_some());
}

#[test]
fn group_by_mixed() {
    let stmt = parse("SELECT a, b, c FROM t GROUP BY a, ROLLUP(b, c)");
    assert!(stmt.is_some());
}

fn query_select(sql: &str) -> querent_core::ast::Select {
    match parse(sql).map(|s| s.item) {
        Some(Statement::Query(q)) => match q.item.body.unwrap().item.left.item {
            querent_core::ast::QueryPrimary::Select(s) => s.item,
            _ => panic!("expected a select: {sql}"),
        },
        other => panic!("expected a query: {sql}: {other:?}"),
    }
}

#[test]
fn negated_predicates_keep_their_negation() {
    let sel = query_select("SELECT * FROM t WHERE x NOT BETWEEN 1 AND 10");
    match sel.where_clause.unwrap().item.expr.item {
        Expr::Between(b) => assert!(b.item.not),
        other => panic!("expected BETWEEN, got {other:?}"),
    }
    let sel = query_select("SELECT * FROM t WHERE x NOT IN (1, 2, 3)");
    match sel.where_clause.unwrap().item.expr.item {
        Expr::In(i) => {
            assert!(i.item.not);
            match &i.item.list {
                querent_core::ast::ExprList::Exprs(v) => assert_eq!(v.len(), 3),
                _ => panic!("expected a list"),
            }
        }
        other => panic!("expected IN, got {other:?}"),
    }
}

#[test]
fn casts_subscripts_and_sort_options() {
    let sel = query_select("SELECT (a + b)::numeric(10,2)");
    match &sel.projection.item.list.items[0].item.expr.item {
        Expr::Cast(c) => match &c.item.data_type.item {
            DataType::Parameterized { params, .. } => {
                assert_eq!(params.len(), 2);
                assert_eq!(params[0].item, TypeParam::Number(10));
            }
            other => panic!("expected parameters, got {other:?}"),
        },
        other => panic!("expected a cast, got {other:?}"),
    }
    let sel = query_select("SELECT matrix[1][2]");
    match &sel.projection.item.list.items[0].item.expr.item {
        Expr::Subscript(s) => assert!(matches!(s.item.expr.item, Expr::Subscript(_))),
        other => panic!("expected a subscript, got {other:?}"),
    }
    let stmt = parse("SELECT * FROM t ORDER BY x DESC NULLS LAST").unwrap().item;
    let Statement::Query(q) = stmt else { panic!("expected a query") };
    let order_by = q.item.tail.unwrap().item.order_by.unwrap();
    let item = &order_by.item.items.items[0].item;
    assert_eq!(item.direction, Some(SortDirection::Desc));
    assert_eq!(item.nulls, Some(NullsOrder::Last));
}

#[test]
fn data_changing_statements_are_read() {
    match parse("INSERT INTO t (a, b) VALUES (1, 2), (3, 4) RETURNING *").unwrap().item {
        Statement::Insert(i) => {
            assert_eq!(i.item.columns.as_ref().unwrap().items.len(), 2);
            match &i.item.source {
                InsertSource::Values(v) => assert_eq!(v.item.rows.len(), 2),
                _ => panic!("expected VALUES"),
            }
            assert!(i.item.returning.is_some());
        }
        other => panic!("expected an insert, got {other:?}"),
    }
    match parse("INSERT INTO t DEFAULT VALUES").unwrap().item {
        Statement::Insert(i) => assert!(matches!(i.item.source, InsertSource::Default)),
        other => panic!("expected an insert, got {other:?}"),
    }
    match parse("UPDATE t SET a = 1, b = 2 FROM s WHERE t.id = s.id").unwrap().item {
        Statement::Update(u) => {
            assert_eq!(u.item.assignments.items.len(), 2);
            assert!(u.item.from.is_some());
            assert!(u.item.where_clause.is_some());
        }
        other => panic!("expected an update, got {other:?}"),
    }
    // A data-changing statement that cannot be read gives nothing.
    assert!(parse("INSERT t").is_none());
    assert!(parse("DELETE t").is_none());
}

#[test]
fn leading_semicolons_are_skipped() {
    assert!(matches!(parse(";;; SELECT 1").unwrap().item, Statement::Query(_)));
    assert!(matches!(parse(";;").unwrap().item, Statement::Partial(_)));
    assert!(matches!(parse("; foo").unwrap().item, Statement::Partial(_)));
}

#[test]
fn v2_lone_literals_parse_to_their_values() {
    let spec = DialectKind::Postgres.spec();
    let tokens = lex(&spec, "42");
    assert!(matches!(
        WinnowParser::new(&tokens, &spec).parse_expr(),
        Some(Expr::Literal(Loc { item: Literal::Number(42), .. }))
    ));
    let tokens = lex(&spec, "TRUE");
    assert!(matches!(
        WinnowParser::new(&tokens, &spec).parse_expr(),
        Some(Expr::Literal(Loc { item: Literal::Boolean(Boolean::True), .. }))
    ));
    let tokens = lex(&spec, "'abc'");
    let span = tokens[0].span;
    match WinnowParser::new(&tokens, &spec).parse_expr() {
        Some(Expr::Literal(Loc { item: Literal::String(s), span: at })) => {
            assert_eq!(s, span);
            assert_eq!(at, span);
        },
        other => panic!("unexpected {:?}", other),
    }
    let tokens = lex(&spec, "1 + 2");
    assert!(matches!(WinnowParser::new(&tokens, &spec).parse_expr(), Some(Expr::Binary(_))));
}

#[test]
fn v2_select_statements_have_a_select_body() {
    match parse("SELECT a FROM t") {
        Some(Loc { item: Statement::Query(q), .. }) => {
            assert!(q.item.with.is_none());
            assert!(q.item.body.is_some());
        },
        other => panic!("unexpected {:?}", other),
    }
}

#[test]
fn v2_delete_needs_from_and_a_name() {
    assert!(matches!(parse("DELETE FROM t WHERE a = 1"), Some(Loc { item: Statement::Delete(_), .. })));
    assert!(matches!(parse("DELETE FROM s.t"), Some(Loc { item: Statement::Delete(_), .. })));
    assert!(parse("DELETE t").is_none());
    assert!(parse("DELETE FROM WHERE").is_none());
    assert!(parse("INSERT t VALUES (1)").is_none());
    assert!(matches!(parse("INSERT INTO t VALUES (1)"), Some(Loc { item: Statement::Insert(_), .. })));
}
