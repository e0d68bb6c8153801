use querent_core::dialect::ansi;
use querent_core::dialect::ansi::rule;
use querent_core::dialect::follow::Rule;
use querent_core::lex::rule::Dir;
use querent_core::lex::{lex, TokenKind};

fn matches(expected: bool, rule: &Rule, sql: &str) {
    let tokens = lex(&ansi::spec(), sql);
    let kinds = tokens.iter().map(|t| t.kind).collect::<Vec<TokenKind>>();
    let kinds = &kinds[0..kinds.len().saturating_sub(1)]; // the last token is the end of input
    let result = rule.0.matches(kinds, Dir::Bwd);
    assert_eq!(
        result, expected,
        "\n\tevaluated to ({}) expected ({})\n\tinput: {:?}\n\tkinds: {}",
        result, expected, sql, kinds.len(),
    );
}

#[test]
fn start_rule() {
    // Should match at the start
    matches(true, &rule::start_rule(), "");
    matches(false, &rule::start_rule(), "SELECT");

    // Should match after semicolon
    matches(true, &rule::start_rule(), ";");
    matches(true, &rule::start_rule(), ";SE");

    // Should match after CTE definition
    matches(true, &rule::start_rule(), "WITH cte (SELECT a FROM b) ");
    matches(true, &rule::start_rule(), "WITH cte (SELECT a FROM b) S");

    // Should match after multiple CTEs
    matches(
        true,
        &rule::start_rule(),
        "WITH cte1 (SELECT a FROM b), cte2 (SELECT c FROM d) ",
    );

    // Should match after nested subquery within CTE
    matches(
        true,
        &rule::start_rule(),
        "WITH cte (SELECT a FROM (SELECT b FROM c)) ",
    );

    // Should NOT match after table subqueries (not a CTE context)
    matches(
        false,
        &rule::start_rule(),
        "SELECT * FROM (SELECT a FROM b)
    ",
    );
    matches(
        false,
        &rule::start_rule(),
        "SELECT * FROM (SELECT
    a FROM b) t ",
    );

    // Should NOT match after WHERE clause subqueries
    matches(
        false,
        &rule::start_rule(),
        "SELECT * FROM t WHERE id IN (SELECT id FROM users) ",
    );
}

#[test]
fn qualified_column_exclusion() {
    // After qualified columns (table.column), should NOT suggest clause keywords
    // Should suggest operators/AND/OR instead

    // Should NOT suggest LIMIT after qualified column
    matches(
        false,
        &rule::limit_rule(),
        "SELECT data FROM ingest WHERE ingest.data ",
    );

    // Should NOT suggest ORDER BY after qualified column
    matches(
        false,
        &rule::order_by_suggest_rule(),
        "SELECT data FROM ingest WHERE ingest.data ",
    );

    // Should NOT suggest GROUP BY after qualified column
    matches(
        false,
        &rule::group_by_suggest_rule(),
        "SELECT data FROM ingest WHERE ingest.data ",
    );

    // Should NOT suggest JOIN after qualified column
    matches(
        false,
        &rule::join_after_from_rule(),
        "SELECT data FROM ingest WHERE ingest.data ",
    );

    // Should NOT suggest set operations after qualified column
    matches(
        false,
        &rule::set_op_rule(),
        "SELECT data FROM ingest WHERE ingest.data ",
    );

    // But unqualified columns should still work
    matches(true, &rule::limit_rule(), "SELECT data FROM ingest WHERE data = 1 ");
    matches(
        true,
        &rule::order_by_suggest_rule(),
        "SELECT data FROM ingest WHERE data = 1 ",
    );
}

#[test]
fn select_rule() {
    matches(true, &rule::select_rule(), "SELECT ");
    matches(false, &rule::select_rule(), "SELECT DISTINCT");
    matches(false, &rule::select_rule(), "SELECT ALL");
    matches(false, &rule::select_rule(), "FROM");
    matches(false, &rule::select_rule(), "");
    matches(false, &rule::select_rule(), "SELECT column");
}

#[test]
fn select_as_rule() {
    matches(true, &rule::select_as_rule(), "SELECT a ");
    matches(true, &rule::select_as_rule(), "SELECT a, b ");
    matches(false, &rule::select_as_rule(), "SELECT a, ");
    matches(false, &rule::select_as_rule(), "SELECT a FROM");
}

#[test]
fn from_rule() {
    matches(true, &rule::from_rule(), "SELECT a ");
    matches(true, &rule::from_rule(), "SELECT column1, column2 ");
    matches(true, &rule::from_rule(), "SELECT (1 + 2) ");
    matches(true, &rule::from_rule(), "SELECT * ");
    matches(true, &rule::from_rule(), "SELECT a, * ");
    matches(true, &rule::from_rule(), "SELECT a + b ");
    matches(true, &rule::from_rule(), "SELECT 1 * 2 ");
    matches(false, &rule::from_rule(), "SELECT 1 as ");
    matches(false, &rule::from_rule(), "SELECT 1 * ");
    matches(false, &rule::from_rule(), "SELECT a FROM");
    matches(false, &rule::from_rule(), "SELECT a FROM users");
    matches(true, &rule::from_rule(), "WITH foo AS (SELECT a FROM b) SELECT * ");
    matches(
        true,
        &rule::from_rule(),
        "WITH foo AS (SELECT a FROM b) SELECT a, * ",
    );
    matches(
        true,
        &rule::from_rule(),
        "WITH something AS (SELECT * FROM ai_chat WHERE connection_id =
    '123') SELECT connection_id ",
    );
    matches(
        true,
        &rule::from_rule(),
        "WITH foo AS (SELECT a FROM b) SELECT a, b ",
    );
}

#[test]
fn where_rule() {
    matches(true, &rule::where_rule(), "SELECT a FROM users ");
    matches(true, &rule::where_rule(), "SELECT a FROM table1, table2 ");
    matches(true, &rule::where_rule(), "SELECT a FROM (SELECT b FROM c) ");
    matches(false, &rule::where_rule(), "SELECT a FROM users WHERE");
    matches(false, &rule::where_rule(), "SELECT a FROM users WHERE id = 1");
    matches(false, &rule::where_rule(), "");
    matches(false, &rule::where_rule(), "SELECT a ");
}

#[test]
fn if_match_limit() {
    matches(true, &rule::limit_rule(), "SELECT a FROM users ");
    matches(false, &rule::limit_rule(), "SELECT a FROM users WHERE");
    matches(false, &rule::limit_rule(), "SELECT a FROM users WHERE ");
    matches(false, &rule::limit_rule(), "SELECT a FROM users WHERE id");
    matches(false, &rule::limit_rule(), "SELECT a FROM users WHERE id =");
    matches(true, &rule::limit_rule(), "SELECT a FROM users WHERE id = 1 ");
    matches(
        true,
        &rule::limit_rule(),
        "SELECT a FROM users WHERE name = 'John'
    ",
    );
    matches(
        false,
        &rule::limit_rule(),
        "SELECT a FROM users WHERE name = 'John' AND",
    );
    matches(
        false,
        &rule::limit_rule(),
        "SELECT a FROM users WHERE name = 'John' AND age",
    );
}

#[test]
fn subquery_rule() {
    matches(true, &rule::subquery_rule(), "(");
    matches(true, &rule::subquery_rule(), "SELECT a FROM (");
    matches(false, &rule::subquery_rule(), "");
    matches(false, &rule::subquery_rule(), "SELECT");
    matches(false, &rule::subquery_rule(), ")");
}

#[test]
fn with_cte_rule() {
    matches(true, &rule::with_cte_recursive_rule(), "WITH ");
    matches(false, &rule::with_cte_recursive_rule(), "WITH RECURSIVE");
    matches(false, &rule::with_cte_recursive_rule(), "");
    matches(false, &rule::with_cte_recursive_rule(), "SELECT");
    matches(false, &rule::with_cte_recursive_rule(), "RECURSIVE");
    matches(false, &rule::with_cte_recursive_rule(), "WITH cte_name");
    matches(true, &rule::with_cte_as_rule(), "WITH cte_name");
}

#[test]
fn order_by_rule() {
    matches(true, &rule::order_by_rule(), "ORDER ");
    matches(false, &rule::order_by_rule(), "ORDER BY");
    matches(false, &rule::order_by_rule(), "");
    matches(false, &rule::order_by_rule(), "SELECT");
    matches(false, &rule::order_by_rule(), "BY");
    matches(false, &rule::order_by_rule(), "ORDER id");
}

#[test]
fn order_by_suggest_rule() {
    // Should suggest ORDER BY after complete SELECT/FROM/WHERE clauses
    matches(true, &rule::order_by_suggest_rule(), "SELECT a FROM users ");
    matches(
        true,
        &rule::order_by_suggest_rule(),
        "SELECT a FROM users WHERE id = 1 ",
    );
    matches(
        true,
        &rule::order_by_suggest_rule(),
        "SELECT a FROM users WHERE name = 'John' ",
    );

    // Should NOT suggest after incomplete clauses
    matches(false, &rule::order_by_suggest_rule(), "SELECT ");
    matches(false, &rule::order_by_suggest_rule(), "SELECT a");
    matches(false, &rule::order_by_suggest_rule(), "SELECT a, ");
    matches(false, &rule::order_by_suggest_rule(), "SELECT a FROM users WHERE");
    matches(false, &rule::order_by_suggest_rule(), "SELECT a FROM users WHERE ");
    matches(
        false,
        &rule::order_by_suggest_rule(),
        "SELECT a FROM users WHERE id",
    );
    matches(
        false,
        &rule::order_by_suggest_rule(),
        "SELECT a FROM users WHERE id =",
    );
    matches(
        false,
        &rule::order_by_suggest_rule(),
        "SELECT a FROM users WHERE name = 'John' AND",
    );
    matches(
        false,
        &rule::order_by_suggest_rule(),
        "SELECT a FROM users WHERE name = 'John' AND age",
    );

    // Should NOT suggest after clause keywords
    matches(false, &rule::order_by_suggest_rule(), "SELECT a FROM users GROUP");
    matches(false, &rule::order_by_suggest_rule(), "SELECT a FROM users ORDER");
    matches(false, &rule::order_by_suggest_rule(), "SELECT a FROM users HAVING");

    // Should NOT suggest after GROUP BY (BY keyword is excluded to prevent
    // suggesting after ORDER BY)
    matches(
        false,
        &rule::order_by_suggest_rule(),
        "SELECT COUNT(*) FROM users GROUP BY name ",
    );

    // Should NOT suggest after ORDER BY is already used
    matches(
        false,
        &rule::order_by_suggest_rule(),
        "SELECT a FROM users ORDER BY name ",
    );
}

#[test]
fn group_by_rule() {
    matches(true, &rule::group_by_rule(), "GROUP ");
    matches(false, &rule::group_by_rule(), "GROUP BY");
    matches(false, &rule::group_by_rule(), "");
    matches(false, &rule::group_by_rule(), "SELECT");
    matches(false, &rule::group_by_rule(), "BY");
}

#[test]
fn group_by_suggest_rule() {
    // Should suggest GROUP BY after complete SELECT/FROM/WHERE clauses
    matches(true, &rule::group_by_suggest_rule(), "SELECT a FROM users ");
    matches(
        true,
        &rule::group_by_suggest_rule(),
        "SELECT a FROM users WHERE id = 1 ",
    );
    matches(
        true,
        &rule::group_by_suggest_rule(),
        "SELECT a FROM users WHERE name = 'John' ",
    );

    // Should NOT suggest after incomplete clauses
    matches(false, &rule::group_by_suggest_rule(), "SELECT ");
    matches(false, &rule::group_by_suggest_rule(), "SELECT a");
    matches(false, &rule::group_by_suggest_rule(), "SELECT a, ");
    matches(false, &rule::group_by_suggest_rule(), "SELECT a FROM users WHERE");
    matches(false, &rule::group_by_suggest_rule(), "SELECT a FROM users WHERE ");
    matches(
        false,
        &rule::group_by_suggest_rule(),
        "SELECT a FROM users WHERE id",
    );
    matches(
        false,
        &rule::group_by_suggest_rule(),
        "SELECT a FROM users WHERE id =",
    );
    matches(
        false,
        &rule::group_by_suggest_rule(),
        "SELECT a FROM users WHERE name = 'John' AND",
    );
    matches(
        false,
        &rule::group_by_suggest_rule(),
        "SELECT a FROM users WHERE name = 'John' AND age",
    );

    // Should NOT suggest after GROUP/ORDER/HAVING keywords
    matches(false, &rule::group_by_suggest_rule(), "SELECT a FROM users GROUP");
    matches(false, &rule::group_by_suggest_rule(), "SELECT a FROM users ORDER");
    matches(false, &rule::group_by_suggest_rule(), "SELECT a FROM users HAVING");
}

#[test]
fn having_after_group_by_rule() {
    // Should suggest HAVING after GROUP BY with column
    matches(
        true,
        &rule::having_after_group_by_rule(),
        "SELECT COUNT(*) FROM users GROUP BY name ",
    );
    matches(
        true,
        &rule::having_after_group_by_rule(),
        "SELECT a FROM users GROUP BY col1, col2 ",
    );

    // Should NOT suggest immediately after GROUP BY keywords
    matches(
        false,
        &rule::having_after_group_by_rule(),
        "SELECT a FROM users GROUP",
    );
    matches(
        false,
        &rule::having_after_group_by_rule(),
        "SELECT a FROM users GROUP ",
    );
    matches(
        false,
        &rule::having_after_group_by_rule(),
        "SELECT a FROM users GROUP BY",
    );
    matches(
        false,
        &rule::having_after_group_by_rule(),
        "SELECT a FROM users GROUP BY ",
    );

    // Should NOT suggest after HAVING is already used
    matches(
        false,
        &rule::having_after_group_by_rule(),
        "SELECT a FROM users GROUP BY name HAVING COUNT(*) > 1 ",
    );

    // Should NOT suggest after ORDER BY or LIMIT
    matches(
        false,
        &rule::having_after_group_by_rule(),
        "SELECT a FROM users GROUP BY name ORDER BY name ",
    );
    matches(
        false,
        &rule::having_after_group_by_rule(),
        "SELECT a FROM users GROUP BY name LIMIT 10 ",
    );
}

#[test]
fn join_rule() {
    matches(true, &rule::join_rule(), "SELECT * FROM users JOIN ");
    matches(false, &rule::join_rule(), "SELECT * FROM users JOIN posts ON");
    matches(false, &rule::join_rule(), "");
    matches(false, &rule::join_rule(), "SELECT");
}

#[test]
fn inner_join_rule() {
    matches(true, &rule::inner_join_rule(), "INNER ");
    matches(false, &rule::inner_join_rule(), "INNER JOIN");
    matches(false, &rule::inner_join_rule(), "");
    matches(false, &rule::inner_join_rule(), "JOIN");
}

#[test]
fn left_join_rule() {
    // Should suggest both JOIN and OUTER after LEFT
    matches(true, &rule::left_join_rule(), "LEFT ");
    matches(false, &rule::left_join_rule(), "LEFT JOIN");
    matches(false, &rule::left_join_rule(), "LEFT OUTER");
    matches(false, &rule::left_join_rule(), "");
}

#[test]
fn right_join_rule() {
    // Should suggest both JOIN and OUTER after RIGHT
    matches(true, &rule::right_join_rule(), "RIGHT ");
    matches(false, &rule::right_join_rule(), "RIGHT JOIN");
    matches(false, &rule::right_join_rule(), "RIGHT OUTER");
    matches(false, &rule::right_join_rule(), "");
}

#[test]
fn full_join_rule() {
    // Should suggest both JOIN and OUTER after FULL
    matches(true, &rule::full_join_rule(), "FULL ");
    matches(false, &rule::full_join_rule(), "FULL JOIN");
    matches(false, &rule::full_join_rule(), "FULL OUTER");
    matches(false, &rule::full_join_rule(), "");
}

#[test]
fn cross_join_rule() {
    matches(true, &rule::cross_join_rule(), "CROSS ");
    matches(false, &rule::cross_join_rule(), "CROSS JOIN");
    matches(false, &rule::cross_join_rule(), "");
}

#[test]
fn insert_into_rule() {
    matches(true, &rule::insert_into_rule(), "INSERT ");
    matches(false, &rule::insert_into_rule(), "INSERT INTO");
    matches(false, &rule::insert_into_rule(), "");
    matches(false, &rule::insert_into_rule(), "INTO");
}

#[test]
fn create_table_rule() {
    matches(true, &rule::create_table_rule(), "CREATE ");
    matches(false, &rule::create_table_rule(), "CREATE TABLE");
    matches(false, &rule::create_table_rule(), "CREATE VIEW");
    matches(false, &rule::create_table_rule(), "");
    matches(false, &rule::create_table_rule(), "TABLE");
}

#[test]
fn primary_key_rule() {
    matches(true, &rule::primary_key_rule(), "PRIMARY ");
    matches(false, &rule::primary_key_rule(), "PRIMARY KEY");
    matches(false, &rule::primary_key_rule(), "");
    matches(false, &rule::primary_key_rule(), "KEY");
}

#[test]
fn foreign_key_rule() {
    matches(true, &rule::foreign_key_rule(), "FOREIGN ");
    matches(false, &rule::foreign_key_rule(), "FOREIGN KEY");
    matches(false, &rule::foreign_key_rule(), "");
    matches(false, &rule::foreign_key_rule(), "KEY");
}

#[test]
fn set_operation_all_rule() {
    matches(true, &rule::set_operation_all_rule(), "SELECT a FROM users UNION ");
    matches(
        true,
        &rule::set_operation_all_rule(),
        "SELECT a FROM users INTERSECT ",
    );
    matches(true, &rule::set_operation_all_rule(), "SELECT a FROM users EXCEPT ");
    matches(
        false,
        &rule::set_operation_all_rule(),
        "SELECT a FROM users UNION ALL",
    );
    matches(false, &rule::set_operation_all_rule(), "");
}

#[test]
fn set_op_rule() {
    // Should suggest set operations after a complete SELECT statement
    matches(true, &rule::set_op_rule(), "SELECT a FROM users ");
    matches(true, &rule::set_op_rule(), "SELECT a FROM users WHERE id = 1 ");
    matches(true, &rule::set_op_rule(), "SELECT a FROM users ORDER BY name ");

    // Should NOT suggest after incomplete clauses
    matches(false, &rule::set_op_rule(), "SELECT a FROM users WHERE");
    matches(false, &rule::set_op_rule(), "SELECT a FROM users WHERE ");
    matches(false, &rule::set_op_rule(), "SELECT a FROM users WHERE id");
    matches(false, &rule::set_op_rule(), "SELECT a FROM users WHERE id =");
    matches(
        false,
        &rule::set_op_rule(),
        "SELECT a FROM users WHERE name = 'John' AND",
    );
    matches(
        false,
        &rule::set_op_rule(),
        "SELECT a FROM users WHERE name = 'John' AND age",
    );

    // Should NOT suggest in the middle of SELECT list
    matches(false, &rule::set_op_rule(), "SELECT ");
    matches(false, &rule::set_op_rule(), "SELECT a");
    matches(false, &rule::set_op_rule(), "SELECT a, ");
}

#[test]
fn join_after_from_rule() {
    // Should suggest JOIN types after table name in FROM clause
    matches(true, &rule::join_after_from_rule(), "SELECT * FROM users ");
    matches(
        true,
        &rule::join_after_from_rule(),
        "SELECT * FROM (SELECT id FROM t) ",
    );

    // Should suggest JOIN after a table with alias
    matches(true, &rule::join_after_from_rule(), "SELECT * FROM users u");

    // // Should NOT suggest in select
    matches(false, &rule::join_after_from_rule(), "SELECT a");
    matches(false, &rule::join_after_from_rule(), "SELECT a, b");
    matches(false, &rule::join_after_from_rule(), "SELECT a, *");

    // Should NOT suggest after WHERE or other clauses
    matches(false, &rule::join_after_from_rule(), "SELECT * FROM users WHERE");
    matches(false, &rule::join_after_from_rule(), "SELECT * FROM users WHERE ");
    matches(false, &rule::join_after_from_rule(), "SELECT * ");

    // Should NOT suggest if already have JOIN keyword
    matches(false, &rule::join_after_from_rule(), "SELECT * FROM users JOIN");
    matches(false, &rule::join_after_from_rule(), "SELECT * FROM users INNER");
    matches(false, &rule::join_after_from_rule(), "SELECT * FROM users LEFT");
}

#[test]
fn left_outer_join_rule() {
    matches(
        true,
        &rule::left_outer_join_rule(),
        "SELECT * FROM users LEFT OUTER ",
    );
    matches(
        false,
        &rule::left_outer_join_rule(),
        "SELECT * FROM users LEFT OUTER JOIN",
    );
    matches(false, &rule::left_outer_join_rule(), "SELECT * FROM users LEFT ");
    matches(false, &rule::left_outer_join_rule(), "");
}

#[test]
fn right_outer_join_rule() {
    matches(
        true,
        &rule::right_outer_join_rule(),
        "SELECT * FROM users RIGHT OUTER ",
    );
    matches(
        false,
        &rule::right_outer_join_rule(),
        "SELECT * FROM users RIGHT OUTER JOIN",
    );
    matches(false, &rule::right_outer_join_rule(), "");
}

#[test]
fn full_outer_join_rule() {
    matches(
        true,
        &rule::full_outer_join_rule(),
        "SELECT * FROM users FULL OUTER ",
    );
    matches(
        false,
        &rule::full_outer_join_rule(),
        "SELECT * FROM users FULL OUTER JOIN",
    );
    matches(false, &rule::full_outer_join_rule(), "");
}

#[test]
fn natural_join_rule() {
    // Should suggest JOIN types after NATURAL
    matches(true, &rule::natural_join_rule(), "SELECT * FROM users NATURAL ");
    matches(
        false,
        &rule::natural_join_rule(),
        "SELECT * FROM users NATURAL JOIN",
    );
    matches(
        false,
        &rule::natural_join_rule(),
        "SELECT * FROM users NATURAL INNER",
    );
    matches(
        false,
        &rule::natural_join_rule(),
        "SELECT * FROM users NATURAL LEFT",
    );
    matches(false, &rule::natural_join_rule(), "");
}

#[test]
fn order_by_dir_rule() {
    // Should suggest ASC, DESC, NULLS after ORDER BY columnname
    matches(
        true,
        &rule::order_by_dir_rule(),
        "SELECT a FROM users ORDER BY name ",
    );
    matches(true, &rule::order_by_dir_rule(), "SELECT a FROM users ORDER BY id ");
    matches(
        true,
        &rule::order_by_dir_rule(),
        "SELECT a, b FROM users ORDER BY a ",
    );

    // Should NOT suggest after ASC/DESC/NULLS is already used
    matches(
        false,
        &rule::order_by_dir_rule(),
        "SELECT a FROM users ORDER BY name ASC ",
    );
    matches(
        false,
        &rule::order_by_dir_rule(),
        "SELECT a FROM users ORDER BY name DESC ",
    );
    matches(
        false,
        &rule::order_by_dir_rule(),
        "SELECT a FROM users ORDER BY name NULLS ",
    );

    // Should NOT suggest before BY
    matches(false, &rule::order_by_dir_rule(), "SELECT a FROM users ORDER ");
    matches(false, &rule::order_by_dir_rule(), "SELECT a FROM users ORDER BY ");

    // Should NOT match columns after commas (that's ORDER_BY_DIR_AFTER_COMMA_RULE's
    // job)
    matches(
        false,
        &rule::order_by_dir_rule(),
        "SELECT a FROM users ORDER BY name ASC, id ",
    );
}

#[test]
fn order_by_dir_after_comma_rule() {
    // Should suggest ASC, DESC, NULLS after column following comma in ORDER BY
    matches(
        true,
        &rule::order_by_dir_after_comma_rule(),
        "SELECT a FROM users ORDER BY name ASC, id ",
    );
    matches(
        true,
        &rule::order_by_dir_after_comma_rule(),
        "SELECT a FROM users ORDER BY a, b ",
    );
    matches(
        true,
        &rule::order_by_dir_after_comma_rule(),
        "SELECT a FROM users ORDER BY a DESC, b ASC, c ",
    );

    // Should NOT suggest after first column (that's ORDER_BY_DIR_RULE's job)
    matches(
        false,
        &rule::order_by_dir_after_comma_rule(),
        "SELECT a FROM users ORDER BY name ",
    );

    // Should NOT suggest after ASC/DESC/NULLS following the comma
    matches(
        false,
        &rule::order_by_dir_after_comma_rule(),
        "SELECT a FROM users ORDER BY name ASC, id ASC ",
    );
    matches(
        false,
        &rule::order_by_dir_after_comma_rule(),
        "SELECT a FROM users ORDER BY name, id DESC ",
    );

    // Should NOT suggest after commas in SELECT list or WHERE clause
    matches(false, &rule::order_by_dir_after_comma_rule(), "SELECT a, b ");
    matches(
        false,
        &rule::order_by_dir_after_comma_rule(),
        "SELECT a, b FROM users",
    );
    matches(
        false,
        &rule::order_by_dir_after_comma_rule(),
        "SELECT a FROM users WHERE id IN (1, 2 ",
    );
}

#[test]
fn subquery_tests() {
    // Test that LIMIT_RULE works in subqueries
    matches(true, &rule::limit_rule(), "SELECT * FROM (SELECT a FROM users ");
    matches(
        true,
        &rule::limit_rule(),
        "SELECT * FROM (SELECT a FROM users WHERE id = 1 ",
    );

    // Test that ORDER_BY_SUGGEST_RULE works in subqueries
    matches(
        true,
        &rule::order_by_suggest_rule(),
        "SELECT * FROM (SELECT a FROM users ",
    );
    matches(
        true,
        &rule::order_by_suggest_rule(),
        "SELECT * FROM (SELECT a FROM users WHERE id = 1 ",
    );

    // Test that ORDER_BY_DIR_RULE works in subqueries
    matches(
        true,
        &rule::order_by_dir_rule(),
        "SELECT * FROM (SELECT a FROM users ORDER BY name ",
    );
    matches(
        false,
        &rule::order_by_dir_rule(),
        "SELECT * FROM (SELECT a FROM users ORDER BY name ASC ",
    );

    // Test that ORDER_BY_DIR_AFTER_COMMA_RULE works in subqueries
    matches(
        true,
        &rule::order_by_dir_after_comma_rule(),
        "SELECT * FROM (SELECT a FROM users ORDER BY name ASC, id ",
    );

    // Test that GROUP_BY_SUGGEST_RULE works in subqueries
    matches(
        true,
        &rule::group_by_suggest_rule(),
        "SELECT * FROM (SELECT COUNT(*) FROM users ",
    );

    // Test that SET_OP_RULE works in subqueries
    matches(true, &rule::set_op_rule(), "SELECT * FROM (SELECT a FROM users ");
    matches(
        true,
        &rule::set_op_rule(),
        "SELECT * FROM (SELECT a FROM users ORDER BY name ",
    );

    // Test that JOIN_AFTER_FROM_RULE works in subqueries
    matches(
        true,
        &rule::join_after_from_rule(),
        "SELECT * FROM (SELECT * FROM users ",
    );

    // Test that outer query rules match after closing paren of subquery
    // (The closing paren acts like a table name for the outer query)
    matches(true, &rule::limit_rule(), "SELECT * FROM (SELECT a FROM users) ");
    matches(
        true,
        &rule::order_by_suggest_rule(),
        "SELECT * FROM (SELECT a FROM users) ",
    );
    matches(
        true,
        &rule::join_after_from_rule(),
        "SELECT * FROM (SELECT a FROM users) ",
    );
    matches(true, &rule::set_op_rule(), "SELECT * FROM (SELECT a FROM users) ");

    // ORDER_BY_DIR_RULE SHOULD match after closing paren if there's ORDER BY before
    // it This handles cases like: ORDER BY (expression) or ORDER BY
    // (subquery_column)
    matches(
        true,
        &rule::order_by_dir_rule(),
        "SELECT * FROM (SELECT a FROM users ORDER BY name) ",
    );

    // Test nested ORDER BY - inner query with ORDER BY
    matches(
        true,
        &rule::order_by_dir_rule(),
        "SELECT * FROM t ORDER BY (SELECT name FROM users ",
    );
}

#[test]
fn case_when_rule() {
    // Should suggest WHEN after CASE
    matches(true, &rule::case_when_rule(), "SELECT CASE ");
    matches(true, &rule::case_when_rule(), "SELECT a, CASE ");
    matches(
        true,
        &rule::case_when_rule(),
        "SELECT a FROM users WHERE status = CASE ",
    );

    // Should NOT suggest after WHEN is already used
    matches(false, &rule::case_when_rule(), "SELECT CASE WHEN ");
    matches(false, &rule::case_when_rule(), "SELECT CASE WHEN a = 1 ");
}

#[test]
fn when_then_rule() {
    // Should suggest THEN after WHEN with a value
    matches(true, &rule::when_then_rule(), "SELECT CASE WHEN a = 1 ");
    matches(true, &rule::when_then_rule(), "SELECT CASE WHEN status = 'active' ");
    matches(true, &rule::when_then_rule(), "SELECT CASE WHEN (a > 0) ");
    // Single column is valid for boolean columns
    matches(true, &rule::when_then_rule(), "SELECT CASE WHEN is_active ");

    // Should NOT suggest before value is provided
    matches(false, &rule::when_then_rule(), "SELECT CASE WHEN ");
    // Should NOT suggest in the middle of an expression
    matches(false, &rule::when_then_rule(), "SELECT CASE WHEN a =");

    // Should NOT suggest after THEN is already used
    matches(false, &rule::when_then_rule(), "SELECT CASE WHEN a = 1 THEN ");
    matches(
        false,
        &rule::when_then_rule(),
        "SELECT CASE WHEN a = 1 THEN result ",
    );
}

#[test]
fn then_follow_rule() {
    // Should suggest WHEN, ELSE, END after THEN with a value
    matches(
        true,
        &rule::then_follow_rule(),
        "SELECT CASE WHEN a = 1 THEN result ",
    );
    matches(
        true,
        &rule::then_follow_rule(),
        "SELECT CASE WHEN a = 1 THEN 'yes' ",
    );
    matches(
        true,
        &rule::then_follow_rule(),
        "SELECT CASE WHEN a = 1 THEN (SELECT x FROM t) ",
    );

    // Should NOT suggest before value is provided
    matches(false, &rule::then_follow_rule(), "SELECT CASE WHEN a = 1 THEN ");

    // Should work with multiple WHEN clauses
    matches(
        true,
        &rule::then_follow_rule(),
        "SELECT CASE WHEN a = 1 THEN 'one' WHEN a = 2 THEN 'two' ",
    );
}

#[test]
fn else_end_rule() {
    // Should suggest END after ELSE with a value
    matches(
        true,
        &rule::else_end_rule(),
        "SELECT CASE WHEN a = 1 THEN 'yes' ELSE 'no' ",
    );
    matches(
        true,
        &rule::else_end_rule(),
        "SELECT CASE WHEN a = 1 THEN result ELSE other ",
    );
    matches(
        true,
        &rule::else_end_rule(),
        "SELECT CASE WHEN a = 1 THEN (SELECT x FROM t) ELSE (SELECT y FROM t) ",
    );

    // Should NOT suggest before value is provided
    matches(
        false,
        &rule::else_end_rule(),
        "SELECT CASE WHEN a = 1 THEN result ELSE ",
    );

    // Should NOT suggest after END is already used
    matches(
        false,
        &rule::else_end_rule(),
        "SELECT CASE WHEN a = 1 THEN 'yes' ELSE 'no' END ",
    );
}

#[test]
fn case_statement_full_flow() {
    // Test complete CASE statement flow
    // Simple CASE with single WHEN
    matches(true, &rule::case_when_rule(), "SELECT CASE ");
    matches(true, &rule::when_then_rule(), "SELECT CASE WHEN status = 'active' ");
    matches(
        true,
        &rule::then_follow_rule(),
        "SELECT CASE WHEN status = 'active' THEN 1 ",
    );
    matches(
        true,
        &rule::else_end_rule(),
        "SELECT CASE WHEN status = 'active' THEN 1 ELSE 0 ",
    );

    // CASE with multiple WHEN clauses
    matches(
        true,
        &rule::then_follow_rule(),
        "SELECT CASE WHEN a = 1 THEN 'one' ",
    );
    matches(
        true,
        &rule::when_then_rule(),
        "SELECT CASE WHEN a = 1 THEN 'one' WHEN a = 2 ",
    );
    matches(
        true,
        &rule::then_follow_rule(),
        "SELECT CASE WHEN a = 1 THEN 'one' WHEN a = 2 THEN 'two' ",
    );

    // CASE in different contexts
    matches(true, &rule::case_when_rule(), "SELECT a, CASE ");
    matches(
        true,
        &rule::case_when_rule(),
        "SELECT a FROM users WHERE id = CASE ",
    );
    matches(true, &rule::case_when_rule(), "SELECT a FROM users ORDER BY CASE ");
}
