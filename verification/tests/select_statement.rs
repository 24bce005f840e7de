use farmcore::database::query_builder::{QueryBuilderHelper, SqlStatement};
use farmcore::models::query::{QueryOptions, QueryValue, WhereCondition};
use farmcore::search::SearchQueryBuilder;

fn condition(column: &str, operator: &str, value: QueryValue, logical: Option<&str>) -> WhereCondition {
    WhereCondition {
        column: column.to_string(),
        operator: operator.to_string(),
        value,
        logical_operator: logical.map(|s| s.to_string()),
    }
}

fn text(s: &str) -> QueryValue {
    QueryValue::String(s.to_string())
}

fn options(conditions: Vec<WhereCondition>) -> QueryOptions {
    QueryOptions { columns: None, where_conditions: conditions, limit: None, offset: None, order_by: None }
}

#[test]
fn default_options_select_everything() {
    let statement = QueryBuilderHelper::select("servers", &QueryOptions::default());
    assert_eq!(statement, SqlStatement { sql: "SELECT * FROM `servers`".to_string(), binds: vec![] });
}

#[test]
fn columns_are_back_quoted_and_comma_joined() {
    let mut o = options(vec![]);
    o.columns = Some(vec!["server_id".to_string(), "server_name".to_string(), "status".to_string()]);
    assert_eq!(
        QueryBuilderHelper::select("servers", &o).sql,
        "SELECT `server_id`, `server_name`, `status` FROM `servers`"
    );
    o.columns = Some(vec!["status".to_string()]);
    assert_eq!(QueryBuilderHelper::select("servers", &o).sql, "SELECT `status` FROM `servers`");
    o.columns = Some(vec![]);
    assert_eq!(QueryBuilderHelper::select("servers", &o).sql, "SELECT * FROM `servers`");
}

#[test]
fn flat_filters_render_as_bound_predicates_joined_by_and() {
    let filters = vec![
        ("status".to_string(), "active".to_string()),
        ("cores_gt".to_string(), "8".to_string()),
    ];
    let conditions = SearchQueryBuilder::build_simple_conditions(&filters, None);
    let statement = QueryBuilderHelper::select("servers", &options(conditions));
    assert_eq!(statement.sql, "SELECT * FROM `servers` WHERE `status` = ? AND `cores` > ?");
    assert_eq!(statement.binds, vec![text("active"), QueryValue::Integer(8)]);
}

#[test]
fn page_three_of_twenty_five_is_limit_25_offset_50() {
    let mut o = options(vec![]);
    o.limit = Some(25);
    o.offset = Some(50);
    let statement = QueryBuilderHelper::select("servers", &o);
    assert_eq!(statement.sql, "SELECT * FROM `servers` LIMIT ? OFFSET ?");
    assert_eq!(statement.binds, vec![QueryValue::Integer(25), QueryValue::Integer(50)]);
}

#[test]
fn limit_and_offset_follow_order_by() {
    let o = QueryOptions {
        columns: Some(vec!["server_id".to_string()]),
        where_conditions: vec![condition("status", "!=", text("gone"), None)],
        limit: Some(10),
        offset: Some(0),
        order_by: Some("server_id DESC".to_string()),
    };
    let statement = QueryBuilderHelper::select("servers", &o);
    assert_eq!(
        statement.sql,
        "SELECT `server_id` FROM `servers` WHERE `status` != ? ORDER BY server_id DESC LIMIT ? OFFSET ?"
    );
    assert_eq!(statement.binds, vec![text("gone"), QueryValue::Integer(10), QueryValue::Integer(0)]);
}

#[test]
fn null_is_tested_and_never_bound() {
    let conditions = vec![
        condition("rack_id", "=", QueryValue::Null, None),
        condition("cluster_id", "!=", QueryValue::Null, Some("OR")),
        condition("stage", ">", QueryValue::Null, None),
        condition("name", "LIKE", QueryValue::Null, Some("AND")),
    ];
    let statement = QueryBuilderHelper::select("servers", &options(conditions));
    assert_eq!(
        statement.sql,
        "SELECT * FROM `servers` WHERE `rack_id` IS NULL OR `cluster_id` IS NOT NULL AND `stage` IS NULL AND `name` IS NULL"
    );
    assert_eq!(statement.binds, Vec::<QueryValue>::new());
}

#[test]
fn null_filters_compile_and_render_without_a_bound_null() {
    let filters = vec![
        ("rack_id".to_string(), "".to_string()),
        ("cluster_id_ne".to_string(), "null".to_string()),
        ("status".to_string(), "active".to_string()),
    ];
    let conditions = SearchQueryBuilder::build_simple_conditions(&filters, None);
    let statement = QueryBuilderHelper::select("servers", &options(conditions));
    assert_eq!(
        statement.sql,
        "SELECT * FROM `servers` WHERE `rack_id` IS NULL AND `cluster_id` IS NOT NULL AND `status` = ?"
    );
    assert_eq!(statement.binds, vec![text("active")]);
    assert!(statement.binds.iter().all(|bind| *bind != QueryValue::Null));
    let upper = vec![("cluster_id_ne".to_string(), "NULL".to_string())];
    let statement =
        QueryBuilderHelper::select("servers", &options(SearchQueryBuilder::build_simple_conditions(&upper, None)));
    assert_eq!(statement.sql, "SELECT * FROM `servers` WHERE `cluster_id` != ?");
    assert_eq!(statement.binds, vec![text("NULL")]);
}

#[test]
fn every_kind_of_value_is_bound() {
    let conditions = vec![
        condition("a", "=", QueryValue::Integer(-5), None),
        condition("b", "<", QueryValue::Float("2.5".to_string()), None),
        condition("c", "=", QueryValue::Boolean(true), Some("OR")),
        condition("d", "LIKE", text("%x%"), Some("AND")),
    ];
    let statement = QueryBuilderHelper::select("t", &options(conditions));
    assert_eq!(statement.sql, "SELECT * FROM `t` WHERE `a` = ? AND `b` < ? OR `c` = ? AND `d` LIKE ?");
    assert_eq!(
        statement.binds,
        vec![
            QueryValue::Integer(-5),
            QueryValue::Float("2.5".to_string()),
            QueryValue::Boolean(true),
            text("%x%"),
        ]
    );
}

#[test]
fn the_list_of_an_in_is_written_out() {
    let conditions = SearchQueryBuilder::build_complex_conditions(
        r#"[{"column": "status", "term": "active", "operator": "OR"},
            {"column": "status", "term": "idle", "operator": "OR"},
            {"column": "cores", "term": "8", "comparisonOperator": ">"}]"#,
    )
    .unwrap();
    assert_eq!(conditions.len(), 2);
    assert_eq!(conditions.iter().filter(|c| c.operator == "IN").count(), 1);
    assert_eq!(conditions.iter().filter(|c| c.column == "status" && c.operator == "=").count(), 0);
    let statement = QueryBuilderHelper::select("servers", &options(conditions));
    assert_eq!(
        statement.sql,
        "SELECT * FROM `servers` WHERE `status` IN ('active', 'idle') AND `cores` > ?"
    );
    assert_eq!(statement.binds, vec![QueryValue::Integer(8)]);
}

#[test]
fn a_raw_predicate_is_written_out_as_it_stands() {
    let conditions = SearchQueryBuilder::build_structured_conditions(
        r#"{"name": {"web": {"op": "LIKE", "logical": "OR"}, "db": {"op": "LIKE", "logical": "OR"}},
            "zone": "eu"}"#,
    )
    .unwrap();
    let statement = QueryBuilderHelper::select("servers", &options(conditions));
    assert_eq!(
        statement.sql,
        "SELECT * FROM `servers` WHERE (`name` LIKE '%db%' OR `name` LIKE '%web%') AND `zone` = ?"
    );
    assert_eq!(statement.binds, vec![text("eu")]);
}

#[test]
fn a_raw_predicate_without_a_fragment_adds_nothing() {
    let conditions = vec![
        condition("a", "=", QueryValue::Integer(1), None),
        condition("RAW_SQL", "RAW", QueryValue::Integer(5), None),
    ];
    let statement = QueryBuilderHelper::select("t", &options(conditions));
    assert_eq!(statement.sql, "SELECT * FROM `t` WHERE `a` = ? AND ");
}

#[test]
fn conditions_are_appended_to_a_statement() {
    let mut statement = SqlStatement::new("DELETE FROM `t` WHERE ");
    QueryBuilderHelper::add_where_conditions(
        &mut statement,
        &vec![condition("a", "=", QueryValue::Integer(1), Some("OR")), condition("b", "=", text("x"), Some("OR"))],
    );
    assert_eq!(statement.sql, "DELETE FROM `t` WHERE `a` = ? OR `b` = ?");
    assert_eq!(statement.binds, vec![QueryValue::Integer(1), text("x")]);
    statement.push(" LIMIT ");
    statement.push_bind(QueryValue::Integer(1));
    assert_eq!(statement.sql, "DELETE FROM `t` WHERE `a` = ? OR `b` = ? LIMIT ?");
    assert_eq!(statement.binds.len(), 3);
    assert_eq!(
        SqlStatement::with_binds("SELECT ?", vec![QueryValue::Null]),
        SqlStatement { sql: "SELECT ?".to_string(), binds: vec![QueryValue::Null] }
    );
}

#[test]
fn values_are_compared_and_copied() {
    assert!(text("a").same(&text("a")));
    assert!(!text("a").same(&text("b")));
    assert!(!text("1").same(&QueryValue::Integer(1)));
    assert!(!QueryValue::Float("1".to_string()).same(&text("1")));
    assert!(QueryValue::Null.same(&QueryValue::Null));
    assert!(QueryValue::Boolean(true).same(&QueryValue::Boolean(true)));
    assert_eq!(text("a").clone(), text("a"));
    assert_eq!(QueryValue::from_text(&None), QueryValue::Null);
    assert_eq!(QueryValue::from_text(&Some("x".to_string())), text("x"));
    assert_eq!(QueryValue::from_number(Some(-3)), QueryValue::Integer(-3));
    assert_eq!(QueryValue::from_number(None), QueryValue::Null);
    assert_eq!(QueryValue::from_flag(Some(false)), QueryValue::Boolean(false));
    assert_eq!(QueryValue::from_flag(None), QueryValue::Null);
    let c = condition("a", "=", text("x"), Some("OR"));
    assert_eq!(c.clone(), c);
}
