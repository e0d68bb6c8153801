use querent_core::ast::{Expr, InsertSource, QueryPrimary, Statement};
use querent_core::dialect::{ansi, DialectKind};
use querent_core::lex::{lex, token_tape};
use querent_core::parse::v2::WinnowParser;
use querent_core::parse::{parse_statement, parse_statement_at_cursor, v3};
use querent_core::span::{Loc, Span};

fn v1(sql: &str) -> Loc<Statement> {
    let tokens = lex(&ansi::spec(), sql);
    parse_statement(token_tape(&tokens)).unwrap()
}

fn v2(sql: &str) -> Option<Loc<Statement>> {
    let spec = DialectKind::Postgres.spec();
    let tokens = lex(&spec, sql);
    WinnowParser::new(&tokens, &spec).parse_statement()
}

fn v3_parse(sql: &str) -> Option<Loc<Statement>> {
    let spec = DialectKind::Postgres.spec();
    let tokens = lex(&spec, sql);
    v3::parse_statement(&tokens, &spec)
}

#[test]
fn statement_parser_reads_insert() {
    let s = v1("INSERT INTO t (a) VALUES (1)");
    let Statement::Insert(i) = s.item else { panic!("expected an insert") };
    assert_eq!(i.item.table.span, Span::new(12, 13));
    assert_eq!(i.item.columns.as_ref().unwrap().items.len(), 1);
    let InsertSource::Values(v) = &i.item.source else { panic!("expected VALUES") };
    assert_eq!(v.item.rows.len(), 1);
    assert_eq!(s.span, Span::new(0, 28));
}

#[test]
fn statement_parser_reads_general_insert() {
    let s = v1("INSERT INTO s.t (a, b, c) VALUES (1, 'x', d), (2, 'y', e) RETURNING a");
    let Statement::Insert(i) = s.item else { panic!("expected an insert") };
    assert_eq!(i.item.table.item.parts.items.len(), 2);
    assert_eq!(i.item.columns.as_ref().unwrap().items.len(), 3);
    let InsertSource::Values(v) = &i.item.source else { panic!("expected VALUES") };
    assert_eq!(v.item.rows.len(), 2);
    assert_eq!(v.item.rows[1].item.items.len(), 3);
    assert!(i.item.returning.is_some());
    assert!(matches!(v1("INSERT INTO t DEFAULT VALUES").item, Statement::Insert(_)));
    let s = v1("INSERT INTO t SELECT a FROM u");
    let Statement::Insert(i) = s.item else { panic!("expected an insert") };
    assert!(matches!(i.item.source, InsertSource::Query(_)));
}

#[test]
fn statement_parser_reads_update_and_delete() {
    let s = v1("UPDATE t AS x SET a = 1, b = c WHERE d = 2");
    let Statement::Update(u) = s.item else { panic!("expected an update") };
    assert!(u.item.alias.is_some());
    assert_eq!(u.item.assignments.items.len(), 2);
    assert!(u.item.where_clause.is_some());
    let s = v1("DELETE FROM s.t WHERE a = 1");
    let Statement::Delete(d) = s.item else { panic!("expected a delete") };
    assert_eq!(d.item.table.item.parts.items.len(), 2);
    assert!(d.item.where_clause.is_some());
}

#[test]
fn unreadable_dml_falls_back_to_a_query() {
    assert!(matches!(v1("INSERT t VALUES (1)").item, Statement::Query(_)));
    assert!(matches!(v1("UPDATE t a = 1").item, Statement::Query(_)));
    assert!(matches!(v1("DELETE t").item, Statement::Query(_)));
    assert!(matches!(v1("INSERT INTO t VALUES (1), 2").item, Statement::Query(_)));
    assert!(matches!(v1("SELECT 1").item, Statement::Query(_)));
}

#[test]
fn statement_at_cursor_reads_dml() {
    let sql = "SELECT 1; UPDATE t SET a = 1";
    let tokens = lex(&ansi::spec(), sql);
    let s = parse_statement_at_cursor(token_tape(&tokens), sql.len()).unwrap();
    assert!(matches!(s.item, Statement::Update(_)));
    assert_eq!(s.span.start, 10);
}

#[test]
fn second_parser_reads_general_dml() {
    for sql in [
        "INSERT INTO s.t (a, b) VALUES (1, 2), (3, c)",
        "INSERT INTO t () VALUES ()",
        "INSERT INTO t (a) WITH w AS (SELECT 1) SELECT * FROM w",
        "INSERT INTO t DEFAULT VALUES RETURNING id",
    ] {
        assert!(matches!(v2(sql), Some(Loc { item: Statement::Insert(_), .. })), "{sql}");
        assert!(matches!(v3_parse(sql), Some(Loc { item: Statement::Insert(_), .. })), "{sql}");
    }
    for sql in ["UPDATE s.t u SET a = b, c = 2 FROM x WHERE y = 1", "UPDATE t SET a = 'v' RETURNING *"] {
        assert!(matches!(v2(sql), Some(Loc { item: Statement::Update(_), .. })), "{sql}");
        assert!(matches!(v3_parse(sql), Some(Loc { item: Statement::Update(_), .. })), "{sql}");
    }
    assert!(v2("INSERT INTO t VALUES (1), 2").is_none());
    assert!(v2("UPDATE t WHERE a = 1").is_none());
}

fn first_item(sql: &str) -> Expr {
    let s = v1(sql);
    let Statement::Query(q) = s.item else { panic!("expected a query") };
    let QueryPrimary::Select(sel) = q.item.body.unwrap().item.left.item else { panic!("expected a select") };
    sel.item.projection.item.list.items.into_iter().next().unwrap().item.expr.item
}

#[test]
fn prefix_reads_parenthesised_operand() {
    let Expr::Paren(p) = first_item("SELECT (1)") else { panic!("expected parentheses") };
    assert_eq!(p.item.open, Span::new(7, 8));
    assert_eq!(p.item.close, Some(Span::new(9, 10)));
    assert!(matches!(p.item.expr.item, Expr::Literal(_)));
    let Expr::Paren(p) = first_item("SELECT (a + 1)") else { panic!("expected parentheses") };
    assert_eq!(p.item.close, Some(Span::new(13, 14)));
    assert!(matches!(p.item.expr.item, Expr::Binary(_)));
}

#[test]
fn prefix_reads_dotted_names_and_calls() {
    let Expr::Name(n) = first_item("SELECT a.b FROM t") else { panic!("expected a name") };
    assert_eq!(n.item.parts.items.len(), 2);
    let Expr::FunctionCall(f) = first_item("SELECT f(x) FROM t") else { panic!("expected a call") };
    assert_eq!(f.item.args.item.items.len(), 1);
    assert_eq!(f.item.name.span, Span::new(7, 8));
    let Expr::FunctionCall(f) = first_item("SELECT f() FROM t") else { panic!("expected a call") };
    assert_eq!(f.item.args.item.items.len(), 0);
}
