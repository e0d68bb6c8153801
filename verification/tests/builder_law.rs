use querent_core::schema::{CacheBuilder, DataType, Name};

#[test]
fn builder_keeps_each_list_in_call_order() {
    let cache = CacheBuilder::new()
        .table("users", None)
        .column_in("id", DataType::Integer, Name(Some("users")), Name(None), Name(None))
        .scalar_function("lower", &[DataType::Text], DataType::Text)
        .column("name", DataType::Text)
        .table("posts", None)
        .column_in("id", DataType::Integer, Name(Some("posts")), Name(None), Name(None))
        .build();
    let cols: Vec<&str> = cache.columns.iter().map(|c| c.column_name.as_str()).collect();
    assert_eq!(cols, vec!["id", "name", "id"]);
    assert_eq!(cache.columns[0].table_name.as_deref(), Some("users"));
    assert_eq!(cache.columns[2].table_name.as_deref(), Some("posts"));
    let tables: Vec<&str> = cache.tables.iter().map(|t| t.table_name.as_str()).collect();
    assert_eq!(tables, vec!["users", "posts"]);
    assert_eq!(cache.functions.len(), 1);
    assert_eq!(cache.functions[0].function_name, "lower");
}
