use querent_core::dialect::{ansi, postgres, CaseFold, DialectSpec};

#[test]
fn identifier_chars() {
    assert!(DialectSpec::is_ident_start('a'));
    assert!(DialectSpec::is_ident_start('_'));
    assert!(DialectSpec::is_ident_start('$'));
    assert!(DialectSpec::is_ident_start('é'));
    assert!(!DialectSpec::is_ident_start('1'));
    assert!(!DialectSpec::is_ident_start('-'));
    assert!(DialectSpec::is_ident_continue('1'));
    assert!(DialectSpec::is_ident_continue('Z'));
    assert!(!DialectSpec::is_ident_continue('.'));
}

#[test]
fn unquoted_identifiers_fold_as_the_dialect_says() {
    let mut spec = ansi::spec();
    spec.style_rules.unquoted_identifier_fold = CaseFold::Upper;
    assert_eq!(spec.fold_unquoted_identifier("users_ÿ1"), "USERS_ÿ1");
    spec.style_rules.unquoted_identifier_fold = CaseFold::Lower;
    assert_eq!(spec.fold_unquoted_identifier("Users"), "users");
    spec.style_rules.unquoted_identifier_fold = CaseFold::Preserve;
    assert_eq!(spec.fold_unquoted_identifier("Users"), "Users");
    assert_eq!(postgres::spec().fold_unquoted_identifier("MyTable"), "mytable");
    assert_eq!(ansi::spec().fold_unquoted_identifier("MyTable"), "MYTABLE");
}

#[test]
fn dialect_kind_from_names() {
    assert_eq!(querent_core::dialect::DialectKind::from("pg"), querent_core::dialect::DialectKind::Postgres);
    assert_eq!(querent_core::dialect::DialectKind::from("postgres"), querent_core::dialect::DialectKind::Postgres);
    assert_eq!(
        querent_core::dialect::DialectKind::from("sqlite".to_string()),
        querent_core::dialect::DialectKind::Sqlite
    );
    assert_eq!(querent_core::dialect::DialectKind::from("mysql"), querent_core::dialect::DialectKind::Ansi);
}
