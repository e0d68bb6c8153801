use querent_core::lsp::postgres::{parse_postgres_type, try_parse_postgres_type, SimpleType};

#[test]
fn varchar_with_length() {
    assert_eq!(parse_postgres_type("varchar(255)"), SimpleType::Varchar { len: Some(255) });
    assert_eq!(
        parse_postgres_type("character varying(64)"),
        SimpleType::Varchar { len: Some(64) }
    );
}

#[test]
fn varchar_without_readable_length() {
    assert_eq!(parse_postgres_type("character varying"), SimpleType::Varchar { len: None });
    assert_eq!(parse_postgres_type("VARCHAR(n)"), SimpleType::Varchar { len: None });
    assert_eq!(parse_postgres_type("varchar( 10 )"), SimpleType::Varchar { len: None });
    assert_eq!(parse_postgres_type("varchar(+7)"), SimpleType::Varchar { len: Some(7) });
}

#[test]
fn numeric_with_precision_and_scale() {
    assert_eq!(
        parse_postgres_type("numeric(10,2)"),
        SimpleType::Decimal { precision: 10, scale: 2 }
    );
    assert_eq!(
        parse_postgres_type("DECIMAL( 12 , 4 )"),
        SimpleType::Decimal { precision: 12, scale: 4 }
    );
}

#[test]
fn numeric_without_two_byte_sized_parameters_is_kept() {
    assert_eq!(parse_postgres_type("numeric"), SimpleType::Other("numeric".to_string()));
    assert_eq!(
        parse_postgres_type("numeric(10)"),
        SimpleType::Other("numeric(10)".to_string())
    );
    assert_eq!(
        parse_postgres_type("numeric(300,2)"),
        SimpleType::Other("numeric(300,2)".to_string())
    );
    assert_eq!(
        parse_postgres_type("numeric(1,2,3)"),
        SimpleType::Other("numeric(1,2,3)".to_string())
    );
}

#[test]
fn known_names_in_any_case() {
    assert_eq!(parse_postgres_type("int4"), SimpleType::Integer);
    assert_eq!(parse_postgres_type("INTEGER"), SimpleType::Integer);
    assert_eq!(parse_postgres_type("bool"), SimpleType::Boolean);
    assert_eq!(parse_postgres_type("bigint"), SimpleType::BigInt);
    assert_eq!(parse_postgres_type("real"), SimpleType::Float);
    assert_eq!(parse_postgres_type("double precision"), SimpleType::Double);
    assert_eq!(parse_postgres_type("text"), SimpleType::Text);
    assert_eq!(parse_postgres_type("timestamp with time zone"), SimpleType::Timestamp);
    assert_eq!(parse_postgres_type("date"), SimpleType::Date);
    assert_eq!(parse_postgres_type("time"), SimpleType::Time);
    assert_eq!(parse_postgres_type("jsonb"), SimpleType::Json);
    assert_eq!(parse_postgres_type("bytea"), SimpleType::Bytes);
    assert_eq!(parse_postgres_type("UUID"), SimpleType::Uuid);
}

#[test]
fn unknown_names_are_kept_as_written() {
    assert_eq!(parse_postgres_type("Point"), SimpleType::Other("Point".to_string()));
    assert_eq!(parse_postgres_type(" int4"), SimpleType::Other(" int4".to_string()));
}

#[test]
fn try_parse_refuses_parameters_cut_backwards() {
    assert_eq!(try_parse_postgres_type("varchar)("), None);
    assert_eq!(try_parse_postgres_type("numeric)1,2("), None);
    assert_eq!(try_parse_postgres_type("point)("), Some(SimpleType::Other("point)(".to_string())));
    assert_eq!(try_parse_postgres_type("varchar(8)"), Some(SimpleType::Varchar { len: Some(8) }));
}
