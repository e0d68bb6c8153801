use querent_core::dialect::{postgres, sqlite, DialectKind};
use querent_core::lsp::queries::IntrospectionQueries;

#[test]
fn introspection_queries_follow_the_dialect() {
    let pg = IntrospectionQueries::for_dialect(DialectKind::Postgres);
    assert_eq!(pg.functions.as_deref(), Some(postgres::QUERY_FUNCTIONS));
    assert_eq!(pg.tables.as_deref(), Some(postgres::QUERY_TABLES));
    assert_eq!(pg.columns.as_deref(), Some(postgres::QUERY_COLUMNS));

    let lite = IntrospectionQueries::for_dialect(DialectKind::Sqlite);
    assert_eq!(lite.functions, None);
    assert_eq!(lite.tables.as_deref(), Some(sqlite::QUERY_TABLES));
    assert_eq!(lite.columns.as_deref(), Some(sqlite::QUERY_COLUMNS));

    let ansi = IntrospectionQueries::for_dialect(DialectKind::Ansi);
    assert_eq!(ansi.functions, None);
    assert_eq!(ansi.tables, None);
    assert_eq!(ansi.columns, None);
}

#[test]
fn dialect_functions_are_found_by_exact_name() {
    let spec = DialectKind::Ansi.spec();
    let abs = spec.function("ABS").expect("ABS is built in");
    assert_eq!(abs.function_name, "ABS");
    assert!(spec.function("abs").is_none());
    assert!(spec.function("NO_SUCH_FUNCTION").is_none());
    assert_eq!(spec.functions.len(), 19);
}
