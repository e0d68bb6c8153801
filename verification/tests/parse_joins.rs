use querent_core::ast::{
    Expr, JoinBase, JoinConstraint, NamePart, QueryPrimary, Statement, TableFactor, TableRef,
};
use querent_core::dialect::ansi;
use querent_core::lex::{lex, token_tape};
use querent_core::parse::parse_statement;
use querent_core::span::Span;

fn select_of(sql: &str) -> querent_core::ast::Select {
    let tokens = lex(&ansi::spec(), sql);
    let stmt = parse_statement(token_tape(&tokens)).unwrap();
    match stmt.item {
        Statement::Query(q) => match q.item.body.unwrap().item.left.item {
            QueryPrimary::Select(s) => s.item,
            _ => panic!("not a select"),
        },
        _ => panic!("not a query"),
    }
}

fn named_span(r: &TableRef) -> Span {
    let TableRef::Factor(f) = r else { panic!("expected a factor") };
    let TableFactor::Named(n) = &f.item else { panic!("expected a named table") };
    n.item.name.span
}

#[test]
fn join_keeps_sides_kind_and_condition() {
    let sel = select_of("SELECT a FROM t1 LEFT JOIN t2 ON 1");
    let from = sel.from.unwrap();
    assert_eq!(from.item.sources.items.len(), 1);
    let TableRef::Join(j) = &from.item.sources.items[0].item else { panic!("expected a join") };
    assert_eq!(j.item.kind.base, JoinBase::Left);
    assert!(!j.item.kind.outer && !j.item.kind.natural);
    assert_eq!(named_span(&j.item.left.item), Span::new(14, 16));
    assert_eq!(named_span(&j.item.right.item), Span::new(27, 29));
    let c = j.item.constraint.as_ref().unwrap();
    assert!(matches!(c.item, JoinConstraint::On(ref e) if matches!(e.item, Expr::Literal(_))));
    assert_eq!(j.span, Span::new(14, 34));
}

#[test]
fn joins_nest_to_the_left() {
    let sel = select_of("SELECT a FROM t1 JOIN t2 USING (id) CROSS JOIN t3");
    let from = sel.from.unwrap();
    let TableRef::Join(outer) = &from.item.sources.items[0].item else { panic!("expected a join") };
    assert_eq!(outer.item.kind.base, JoinBase::Cross);
    assert!(outer.item.constraint.is_none());
    assert_eq!(named_span(&outer.item.right.item), Span::new(47, 49));
    let TableRef::Join(inner) = &outer.item.left.item else { panic!("expected a nested join") };
    assert_eq!(inner.item.kind.base, JoinBase::Inner);
    assert_eq!(named_span(&inner.item.left.item), Span::new(14, 16));
    assert_eq!(named_span(&inner.item.right.item), Span::new(22, 24));
    let c = inner.item.constraint.as_ref().unwrap();
    let JoinConstraint::Using(cols) = &c.item else { panic!("expected USING") };
    assert_eq!(cols.items.len(), 1);
    assert_eq!(cols.items[0].item, Span::new(32, 34));
}

#[test]
fn qualified_table_name_keeps_its_parts() {
    let sel = select_of("SELECT a FROM public.users u");
    let from = sel.from.unwrap();
    let TableRef::Factor(f) = &from.item.sources.items[0].item else { panic!("expected a factor") };
    let TableFactor::Named(n) = &f.item else { panic!("expected a named table") };
    let parts = &n.item.name.item.parts;
    assert_eq!(parts.items.len(), 2);
    assert_eq!(parts.items[0].item, NamePart::Ident(Span::new(14, 20)));
    assert_eq!(parts.items[1].item, NamePart::Ident(Span::new(21, 26)));
    assert_eq!(parts.seps.len(), 1);
    assert_eq!(parts.seps[0].span, Span::new(20, 21));
    assert_eq!(n.item.name.span, Span::new(14, 26));
    assert_eq!(n.item.alias.as_ref().unwrap().item, Span::new(27, 28));
}

#[test]
fn trailing_dot_name_is_kept() {
    let sel = select_of("SELECT a FROM public.");
    let from = sel.from.unwrap();
    let TableRef::Factor(f) = &from.item.sources.items[0].item else { panic!("expected a factor") };
    let TableFactor::Named(n) = &f.item else { panic!("expected a named table") };
    assert_eq!(n.item.name.item.parts.items.len(), 1);
    assert_eq!(n.item.name.item.parts.seps.len(), 1);
}

#[test]
fn case_with_one_branch_is_read() {
    let sel = select_of("SELECT CASE WHEN 1 THEN 2 END");
    let item = &sel.projection.item.list.items[0].item.expr.item;
    let Expr::Case(c) = item else { panic!("expected CASE") };
    assert!(c.item.operand.is_none());
    assert!(c.item.else_clause.is_none());
    assert_eq!(c.item.when_clauses.len(), 1);
    assert!(matches!(c.item.when_clauses[0].when.item, Expr::Literal(_)));
    assert!(matches!(c.item.when_clauses[0].then.item, Expr::Literal(_)));
}

#[test]
fn several_items_with_aliases_and_a_join() {
    let sel = select_of("SELECT a x, 1 AS y, b FROM t1 JOIN t2 ON 1");
    let items = &sel.projection.item.list.items;
    assert_eq!(items.len(), 3);
    assert!(matches!(items[0].item.expr.item, Expr::Name(_)));
    assert_eq!(items[0].item.alias.as_ref().unwrap().item, Span::new(9, 10));
    assert!(matches!(items[1].item.expr.item, Expr::Literal(_)));
    assert_eq!(items[1].item.alias.as_ref().unwrap().item, Span::new(17, 18));
    assert!(items[2].item.alias.is_none());
    assert_eq!(sel.projection.item.list.seps.len(), 2);
    let from = sel.from.unwrap();
    let TableRef::Join(j) = &from.item.sources.items[0].item else { panic!("expected a join") };
    assert_eq!(named_span(&j.item.left.item), Span::new(27, 29));
    assert_eq!(named_span(&j.item.right.item), Span::new(35, 37));
}

#[test]
fn winnow_join_keeps_sides_and_condition() {
    let tokens = lex(&ansi::spec(), "SELECT a FROM s.t1 AS u INNER JOIN t2 USING (id)");
    let spec = ansi::spec();
    let stmt = querent_core::parse::v3::parse_statement(&tokens, &spec).unwrap();
    let Statement::Query(q) = stmt.item else { panic!("not a query") };
    let QueryPrimary::Select(s) = &q.item.body.as_ref().unwrap().item.left.item else { panic!("not a select") };
    let from = s.item.from.as_ref().unwrap();
    let TableRef::Join(j) = &from.item.sources.items[0].item else { panic!("expected a join") };
    assert_eq!(j.item.kind.base, JoinBase::Inner);
    let TableRef::Factor(f) = &j.item.left.item else { panic!("expected a factor") };
    let TableFactor::Named(n) = &f.item else { panic!("expected a named table") };
    assert_eq!(n.item.name.item.parts.items.len(), 2);
    assert_eq!(n.item.name.span, Span::new(14, 18));
    assert_eq!(n.item.alias.as_ref().unwrap().item, Span::new(22, 23));
    assert_eq!(named_span(&j.item.right.item), Span::new(35, 37));
    let c = j.item.constraint.as_ref().unwrap();
    let JoinConstraint::Using(cols) = &c.item else { panic!("expected USING") };
    assert_eq!(cols.items[0].item, Span::new(45, 47));
}

fn query_of(sql: &str) -> querent_core::ast::Query {
    let tokens = lex(&ansi::spec(), sql);
    let stmt = parse_statement(token_tape(&tokens)).unwrap();
    match stmt.item {
        Statement::Query(q) => q.item,
        _ => panic!("not a query"),
    }
}

#[test]
fn union_keeps_both_selects() {
    let q = query_of("SELECT a FROM t1 UNION ALL SELECT b FROM t2");
    assert!(q.with.is_none() && q.tail.is_none());
    let body = q.body.unwrap();
    assert_eq!(body.item.set_ops.len(), 1);
    assert!(matches!(body.item.set_ops[0].item.op, querent_core::ast::SetOp::Union { all: true }));
    let QueryPrimary::Select(r) = &body.item.set_ops[0].item.right.item else { panic!("not a select") };
    let from = r.item.from.as_ref().unwrap();
    assert_eq!(named_span(&from.item.sources.items[0].item), Span::new(41, 43));
}

#[test]
fn order_by_and_limit_after_a_select() {
    let q = query_of("SELECT a FROM t ORDER BY a DESC LIMIT 5");
    let tail = q.tail.unwrap();
    let ob = tail.item.order_by.unwrap();
    assert_eq!(ob.item.items.items.len(), 1);
    assert!(matches!(ob.item.items.items[0].item.direction, Some(querent_core::ast::SortDirection::Desc)));
    let lim = tail.item.limit.unwrap();
    assert!(matches!(lim.item.style, querent_core::ast::LimitKind::Limit));
    assert!(matches!(lim.item.count.item, Expr::Literal(_)));
    assert!(tail.item.offset.is_none());
}

#[test]
fn cte_then_select() {
    let q = query_of("WITH c AS (SELECT a FROM t) SELECT a FROM c");
    let w = q.with.unwrap();
    assert!(!w.item.recursive);
    assert_eq!(w.item.ctes.len(), 1);
    assert_eq!(w.item.ctes[0].item.name, Span::new(5, 6));
    assert!(w.item.ctes[0].item.columns.is_none());
    let inner = &w.item.ctes[0].item.query.item;
    assert!(inner.body.is_some() && inner.with.is_none());
    let body = q.body.unwrap();
    let QueryPrimary::Select(s) = &body.item.left.item else { panic!("not a select") };
    let from = s.item.from.as_ref().unwrap();
    assert_eq!(named_span(&from.item.sources.items[0].item), Span::new(42, 43));
}

#[test]
fn subquery_table_keeps_query_and_alias() {
    let sel = select_of("SELECT a FROM (SELECT b FROM t) AS s");
    let from = sel.from.unwrap();
    let TableRef::Factor(f) = &from.item.sources.items[0].item else { panic!("expected a factor") };
    let TableFactor::Subquery(sq) = &f.item else { panic!("expected a subquery") };
    assert_eq!(sq.item.alias.as_ref().unwrap().item, Span::new(35, 36));
    assert!(sq.item.query.item.body.is_some());
}

#[test]
fn group_by_name_is_read() {
    let tokens = lex(&ansi::spec(), "SELECT a FROM t GROUP BY a");
    let stmt = parse_statement(token_tape(&tokens)).unwrap();
    let Statement::Query(q) = stmt.item else { panic!("not a query") };
    let QueryPrimary::Select(s) = &q.item.body.as_ref().unwrap().item.left.item else { panic!("not a select") };
    let g = s.item.group_by.as_ref().unwrap();
    assert_eq!(g.item.items.items.len(), 1);
}

#[test]
fn winnow_union_of_item_lists() {
    let tokens = lex(&ansi::spec(), "SELECT a x, b FROM t UNION SELECT c FROM u");
    let spec = ansi::spec();
    let stmt = querent_core::parse::v3::parse_statement(&tokens, &spec).unwrap();
    let Statement::Query(q) = stmt.item else { panic!("not a query") };
    let body = q.item.body.as_ref().unwrap();
    let QueryPrimary::Select(l) = &body.item.left.item else { panic!("not a select") };
    assert_eq!(l.item.projection.item.list.items.len(), 2);
    assert_eq!(l.item.projection.item.list.items[0].item.alias.as_ref().unwrap().item, Span::new(9, 10));
    assert_eq!(body.item.set_ops.len(), 1);
    assert!(matches!(body.item.set_ops[0].item.op, querent_core::ast::SetOp::Union { all: false }));
    let QueryPrimary::Select(r) = &body.item.set_ops[0].item.right.item else { panic!("not a select") };
    assert_eq!(named_span(&r.item.from.as_ref().unwrap().item.sources.items[0].item), Span::new(41, 42));
}

#[test]
fn winnow_order_by_and_limit() {
    let tokens = lex(&ansi::spec(), "SELECT a FROM t ORDER BY a ASC LIMIT 'x'");
    let spec = ansi::spec();
    let stmt = querent_core::parse::v3::parse_statement(&tokens, &spec).unwrap();
    let Statement::Query(q) = stmt.item else { panic!("not a query") };
    let tail = q.item.tail.as_ref().unwrap();
    let ob = tail.item.order_by.as_ref().unwrap();
    assert_eq!(ob.item.items.items.len(), 1);
    assert!(matches!(ob.item.items.items[0].item.direction, Some(querent_core::ast::SortDirection::Asc)));
    assert!(ob.item.items.items[0].item.nulls.is_none());
    assert!(tail.item.limit.is_some() && tail.item.offset.is_none());
}

#[test]
fn winnow_cte_then_select() {
    let tokens = lex(&ansi::spec(), "WITH c AS (SELECT a FROM t) SELECT a FROM c");
    let spec = ansi::spec();
    let stmt = querent_core::parse::v3::parse_statement(&tokens, &spec).unwrap();
    let Statement::Query(q) = stmt.item else { panic!("not a query") };
    let w = q.item.with.as_ref().unwrap();
    assert_eq!(w.item.ctes.len(), 1);
    assert_eq!(w.item.ctes[0].item.name, Span::new(5, 6));
    assert!(w.item.ctes[0].item.materialized.is_none());
    assert!(q.item.body.is_some() && q.item.tail.is_none());
}

#[test]
fn winnow_delete_with_condition() {
    let tokens = lex(&ansi::spec(), "DELETE FROM users WHERE 1");
    let spec = ansi::spec();
    let stmt = querent_core::parse::v3::parse_statement(&tokens, &spec).unwrap();
    let Statement::Delete(d) = stmt.item else { panic!("not a delete") };
    assert_eq!(d.item.table.span, Span::new(12, 17));
    assert!(d.item.alias.is_none() && d.item.using.is_none() && d.item.returning.is_none());
    let w = d.item.where_clause.as_ref().unwrap();
    assert!(matches!(w.item.expr.item, Expr::Literal(_)));
}

#[test]
fn winnow_update_reads_table_column_and_value() {
    let tokens = lex(&ansi::spec(), "UPDATE users SET name = 'x'");
    let spec = ansi::spec();
    let stmt = querent_core::parse::v3::parse_statement(&tokens, &spec).unwrap();
    let Statement::Update(u) = stmt.item else { panic!("not an update") };
    assert_eq!(u.item.table.span, Span::new(7, 12));
    assert_eq!(u.item.assignments.items[0].item.column.item, Span::new(17, 21));
    assert!(matches!(u.item.assignments.items[0].item.value.item, Expr::Literal(_)));
}

#[test]
fn binary_keeps_operands_and_operator() {
    let sel = select_of("SELECT a = 1");
    let item = &sel.projection.item.list.items[0].item.expr.item;
    let Expr::Binary(b) = item else { panic!("expected a binary expression") };
    assert!(matches!(b.item.left.item, Expr::Name(_)));
    assert_eq!(b.item.op.as_ref().unwrap().span, Span::new(9, 10));
    assert!(matches!(b.item.right.as_ref().unwrap().item, Expr::Literal(_)));
}

#[test]
fn parenthesised_factor_holds_its_join() {
    let sel = select_of("SELECT a FROM (t1 JOIN t2 ON 1) x");
    let from = sel.from.unwrap();
    let TableRef::Factor(f) = &from.item.sources.items[0].item else { panic!("expected a factor") };
    let TableFactor::Parenthesized(inner) = &f.item else { panic!("expected parentheses") };
    let TableRef::Join(j) = &inner.item else { panic!("expected a join inside") };
    assert_eq!(named_span(&j.item.left.item), Span::new(15, 17));
    assert_eq!(named_span(&j.item.right.item), Span::new(23, 25));
    assert_eq!(inner.span.start, 15);
    let sel = select_of("SELECT a FROM (t1)");
    let from = sel.from.unwrap();
    let TableRef::Factor(f) = &from.item.sources.items[0].item else { panic!("expected a factor") };
    let TableFactor::Parenthesized(inner) = &f.item else { panic!("expected parentheses") };
    assert_eq!(named_span(&inner.item), Span::new(15, 17));
    assert_eq!(f.span, Span::new(14, 18));
}
