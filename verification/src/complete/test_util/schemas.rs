//! Small catalogs for completion tests.
use vstd::prelude::*;

use crate::schema::{Cache, CacheBuilder, DataType, Name};

verus! {

/// `public.users(id, name, email)`
pub fn users_schema() -> (res: Cache)
    ensures
        res.tables@.len() == 1,
        res.tables@[0].table_name@ == "users"@,
        res.columns@.len() == 3,
        res.functions@.len() == 0,
        res.columns@[0].column_name@ == "id"@,
        res.columns@[0].data_type == DataType::Integer,
        res.columns@[1].column_name@ == "name"@,
        res.columns@[1].data_type == DataType::Text,
        res.columns@[2].column_name@ == "email"@,
        res.columns@[2].data_type == DataType::Text,
{
    CacheBuilder::new().table_in("users", Name(Some("public")), Name(None)).column_in(
        "id",
        DataType::Integer,
        Name(Some("users")),
        Name(Some("public")),
        Name(None),
    ).column_in(
        "name",
        DataType::Text,
        Name(Some("users")),
        Name(Some("public")),
        Name(None),
    ).column_in(
        "email",
        DataType::Text,
        Name(Some("users")),
        Name(Some("public")),
        Name(None),
    ).build()
}

/// `public.posts(id, title, content)`
pub fn posts_schema() -> (res: Cache)
    ensures
        res.tables@.len() == 1,
        res.tables@[0].table_name@ == "posts"@,
        res.columns@.len() == 3,
        res.functions@.len() == 0,
        res.columns@[0].column_name@ == "id"@,
        res.columns@[0].data_type == DataType::Integer,
        res.columns@[1].column_name@ == "title"@,
        res.columns@[1].data_type == DataType::Text,
        res.columns@[2].column_name@ == "content"@,
        res.columns@[2].data_type == DataType::Text,
{
    CacheBuilder::new().table_in("posts", Name(Some("public")), Name(None)).column_in(
        "id",
        DataType::Integer,
        Name(Some("posts")),
        Name(Some("public")),
        Name(None),
    ).column_in(
        "title",
        DataType::Text,
        Name(Some("posts")),
        Name(Some("public")),
        Name(None),
    ).column_in(
        "content",
        DataType::Text,
        Name(Some("posts")),
        Name(Some("public")),
        Name(None),
    ).build()
}

/// `public.comments(id, body, user_id, post_id)`
pub fn comments_schema() -> (res: Cache)
    ensures
        res.tables@.len() == 1,
        res.tables@[0].table_name@ == "comments"@,
        res.columns@.len() == 4,
        res.functions@.len() == 0,
        res.columns@[0].column_name@ == "id"@,
        res.columns@[0].data_type == DataType::Integer,
        res.columns@[1].column_name@ == "body"@,
        res.columns@[1].data_type == DataType::Text,
        res.columns@[2].column_name@ == "user_id"@,
        res.columns@[2].data_type == DataType::Integer,
        res.columns@[3].column_name@ == "post_id"@,
        res.columns@[3].data_type == DataType::Integer,
{
    CacheBuilder::new().table_in("comments", Name(Some("public")), Name(None)).column_in(
        "id",
        DataType::Integer,
        Name(Some("comments")),
        Name(Some("public")),
        Name(None),
    ).column_in(
        "body",
        DataType::Text,
        Name(Some("comments")),
        Name(Some("public")),
        Name(None),
    ).column_in(
        "user_id",
        DataType::Integer,
        Name(Some("comments")),
        Name(Some("public")),
        Name(None),
    ).column_in(
        "post_id",
        DataType::Integer,
        Name(Some("comments")),
        Name(Some("public")),
        Name(None),
    ).build()
}

/// Scalar, aggregate and table functions: `upper`, `concat`, `substr`,
/// `replace`, `count`, `generate_series` and `unnest`.
pub fn funcs_schema() -> (res: Cache)
    ensures
        res.tables@.len() == 0,
        res.columns@.len() == 0,
        res.functions@.len() == 7,
        res.functions@[0].function_name@ == "upper"@,
        res.functions@[1].function_name@ == "concat"@,
        res.functions@[2].function_name@ == "substr"@,
        res.functions@[3].function_name@ == "replace"@,
        res.functions@[4].function_name@ == "count"@,
        res.functions@[5].function_name@ == "generate_series"@,
        res.functions@[6].function_name@ == "unnest"@,
{
    CacheBuilder::new().scalar_function("upper", &[DataType::Text], DataType::Text).scalar_function(
        "concat",
        &[DataType::Text, DataType::Text],
        DataType::Text,
    ).scalar_function(
        "substr",
        &[DataType::Text, DataType::Integer, DataType::Integer],
        DataType::Text,
    ).scalar_function(
        "replace",
        &[DataType::Text, DataType::Text, DataType::Text],
        DataType::Text,
    ).aggregate_function("count", &[DataType::Any], DataType::Integer).table_function(
        "generate_series",
        &[DataType::Integer, DataType::Integer],
        vec![("i", DataType::Integer)],
    ).table_function("unnest", &[DataType::Any], vec![("x", DataType::Any)]).build()
}

} // verus!
