use querent_core::ast::{
    Expr, InsertSource, NamePart, QueryPrimary, SetQuantifier, Statement, TableFactor, TableRef,
};
use querent_core::dialect::ansi::functions::functions;
use querent_core::dialect::ansi::rule::{from_rule, rules};
use querent_core::dialect::{ansi, postgres, DialectKind};
use querent_core::lex::rule::{Cond, Dir};
use querent_core::lex::{lex, token_tape, Keyword, OpTag, TokenKind};
use querent_core::parse::{parse_statement, parse_statement_at_cursor, tape_at_cursor, v3};
use querent_core::schema::DataType;
use querent_core::span::Span;

fn select_of(sql: &str) -> querent_core::ast::Select {
    let tokens = lex(&ansi::spec(), sql);
    let stmt = parse_statement(token_tape(&tokens)).unwrap();
    match stmt.item {
        Statement::Query(q) => match q.item.body.unwrap().item.left.item {
            QueryPrimary::Select(s) => s.item,
            _ => panic!("not a select"),
        },
        _ => panic!("not a query"),
    }
}

#[test]
fn prefix_minus_binds_tighter_than_plus() {
    let sel = select_of("SELECT -a + b");
    let item = &sel.projection.item.list.items[0].item.expr.item;
    let Expr::Binary(bin) = item else { panic!("expected a binary expression") };
    assert_eq!(bin.item.op.as_ref().unwrap().item, OpTag::Add);
    let Expr::Unary(u) = &bin.item.left.item else { panic!("expected a unary left operand") };
    assert_eq!(u.item.op_tok.item, OpTag::Sub);
    assert_eq!(u.span, Span::new(7, 9));
    assert_eq!(u.item.expr.span, Span::new(8, 9));
    let Expr::Name(n) = &u.item.expr.item else { panic!("expected a name") };
    assert_eq!(n.item.parts.items.len(), 1);
    assert_eq!(n.item.parts.items[0].item, NamePart::Ident(Span::new(8, 9)));
}

#[test]
fn simple_select_reads_item_table_and_condition() {
    let sel = select_of("SELECT a FROM t WHERE 1");
    assert!(matches!(sel.distinct, SetQuantifier::All));
    assert_eq!(sel.projection.item.list.items.len(), 1);
    assert!(sel.projection.item.list.items[0].item.alias.is_none());
    let from = sel.from.unwrap();
    assert_eq!(from.item.sources.items.len(), 1);
    let TableRef::Factor(f) = &from.item.sources.items[0].item else { panic!("expected a factor") };
    let TableFactor::Named(n) = &f.item else { panic!("expected a named table") };
    assert_eq!(n.item.name.span, Span::new(14, 15));
    assert!(n.item.alias.is_none());
    let w = sel.where_clause.unwrap();
    assert!(matches!(w.item.expr.item, Expr::Literal(_)));
    assert!(sel.group_by.is_none() && sel.having.is_none() && sel.window.is_none());
}

#[test]
fn table_alias_is_the_token_read() {
    let sel = select_of("SELECT a FROM t AS x");
    let from = sel.from.unwrap();
    let TableRef::Factor(f) = &from.item.sources.items[0].item else { panic!("expected a factor") };
    let TableFactor::Named(n) = &f.item else { panic!("expected a named table") };
    assert_eq!(n.item.alias.as_ref().unwrap().item, Span::new(19, 20));
}

#[test]
fn table_function_arguments_alias_and_columns() {
    let sel = select_of("SELECT a FROM f(1) x (c)");
    let from = sel.from.unwrap();
    let TableRef::Factor(f) = &from.item.sources.items[0].item else { panic!("expected a factor") };
    let TableFactor::Function(g) = &f.item else { panic!("expected a table function") };
    assert_eq!(g.item.args.items.len(), 1);
    assert_eq!(g.item.alias.as_ref().unwrap().item, Span::new(19, 20));
    let cols = g.item.columns.as_ref().unwrap();
    assert_eq!(cols.items.len(), 1);
    assert_eq!(cols.items[0].item, Span::new(22, 23));
}

#[test]
fn winnow_insert_with_columns_and_values() {
    let spec = postgres::spec();
    let tokens = lex(&spec, "INSERT INTO t (a) VALUES (1)");
    let stmt = v3::parse_statement(&tokens, &spec).unwrap();
    let Statement::Insert(ins) = stmt.item else { panic!("expected an insert") };
    assert_eq!(ins.item.table.span, Span::new(12, 13));
    assert_eq!(ins.item.columns.as_ref().unwrap().items.len(), 1);
    let InsertSource::Values(v) = &ins.item.source else { panic!("expected values") };
    assert_eq!(v.item.rows.len(), 1);
    assert_eq!(v.item.rows[0].item.items.len(), 1);
    assert!(ins.item.returning.is_none());
}

#[test]
fn winnow_update_with_one_assignment() {
    let spec = postgres::spec();
    let tokens = lex(&spec, "UPDATE t SET c = 1");
    let stmt = v3::parse_statement(&tokens, &spec).unwrap();
    let Statement::Update(u) = stmt.item else { panic!("expected an update") };
    assert_eq!(u.item.assignments.items.len(), 1);
}

#[test]
fn ansi_rule_table_in_order() {
    let rs = rules();
    assert_eq!(rs.0.len(), 40);
    match &from_rule().0 {
        Cond::Any(v) => assert_eq!(v.len(), 2),
        _ => panic!("the FROM rule is a choice"),
    }
}

#[test]
fn ansi_function_entries() {
    let fs = functions();
    assert_eq!(fs.len(), 19);
    assert_eq!(fs[0].function_name, "ABS");
    assert_eq!(fs[0].parameter_types, vec![DataType::Double]);
    assert_eq!(fs[3].function_name, "POWER");
    assert_eq!(fs[3].parameter_types.len(), 2);
}

#[test]
fn dialect_kind_gives_its_own_description() {
    let pg = DialectKind::Postgres.spec();
    assert_eq!(pg.name, "postgres");
    let sq = DialectKind::Sqlite.spec();
    assert_eq!(sq.name, "sqlite");
    assert_eq!(DialectKind::Ansi.spec().functions.len(), 19);
}

#[test]
fn choice_takes_furthest_alternative() {
    let ts = vec![TokenKind::Keyword(Keyword::Select), TokenKind::Identifier];
    let c = Cond::Any(vec![Cond::End, Cond::Kw(Keyword::Select)]);
    assert_eq!(c.scan_from(&ts, Dir::Fwd, 0), (true, 1));
    let none = Cond::Any(vec![Cond::Kw(Keyword::From)]);
    assert_eq!(none.scan_from(&ts, Dir::Fwd, 0), (false, 0));
    let back = Cond::Any(vec![Cond::Kind(TokenKind::Identifier), Cond::End]);
    assert_eq!(back.scan_from(&ts, Dir::Bwd, 2), (true, 1));
}

#[test]
fn cursor_tape_starts_after_last_semicolon() {
    let sql = "SELECT 1; SELECT a FROM t";
    let tokens = lex(&ansi::spec(), sql);
    let tape = tape_at_cursor(token_tape(&tokens), sql.len());
    assert_eq!(tape.pos, 3);
    let stmt = parse_statement_at_cursor(token_tape(&tokens), sql.len()).unwrap();
    assert_eq!(stmt.span.start, 10);
    assert!(matches!(stmt.item, Statement::Query(_)));
}

#[test]
fn winnow_simple_select_reads_item_table_and_condition() {
    let spec = postgres::spec();
    let tokens = lex(&spec, "SELECT a FROM t WHERE 1");
    let stmt = v3::parse_statement(&tokens, &spec).unwrap();
    let Statement::Query(q) = stmt.item else { panic!("expected a query") };
    let QueryPrimary::Select(s) = q.item.body.unwrap().item.left.item else { panic!("expected a select") };
    let item = &s.item.projection.item.list.items[0].item.expr.item;
    let Expr::Name(n) = item else { panic!("expected a name") };
    assert_eq!(n.span, Span::new(7, 8));
    assert!(s.item.from.is_some());
    assert!(matches!(s.item.where_clause.unwrap().item.expr.item, Expr::Literal(_)));
}
