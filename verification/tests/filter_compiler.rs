use farmcore::errors::{ErrorKind, Failure};
use farmcore::json::JsonValue;
use farmcore::models::query::{QueryValue, WhereCondition};
use farmcore::search::{
    ColumnCriteria, ColumnOperation, LogicalOperator, SearchCriterion, SearchQueryBuilder,
    StructuredSearch, StructuredSearchBuilder,
};

fn condition(column: &str, operator: &str, value: QueryValue, logical: Option<&str>) -> WhereCondition {
    WhereCondition {
        column: column.to_string(),
        operator: operator.to_string(),
        value,
        logical_operator: logical.map(|s| s.to_string()),
    }
}

fn refused<T>(message: &str) -> Result<T, Failure> {
    Err(Failure { kind: ErrorKind::Parse, message: message.to_string() })
}

fn text(s: &str) -> QueryValue {
    QueryValue::String(s.to_string())
}

fn pairs(list: &[(&str, &str)]) -> Vec<(String, String)> {
    list.iter().map(|(k, v)| (k.to_string(), v.to_string())).collect()
}

#[test]
fn values_are_typed_integer_then_float_then_boolean_then_text() {
    assert_eq!(SearchQueryBuilder::parse_value_type("8"), QueryValue::Integer(8));
    assert_eq!(SearchQueryBuilder::parse_value_type("-8"), QueryValue::Integer(-8));
    assert_eq!(SearchQueryBuilder::parse_value_type("8.5"), QueryValue::Float("8.5".to_string()));
    assert_eq!(SearchQueryBuilder::parse_value_type("1e3"), QueryValue::Float("1e3".to_string()));
    assert_eq!(
        SearchQueryBuilder::parse_value_type("9223372036854775808"),
        QueryValue::Float("9223372036854775808".to_string())
    );
    assert_eq!(SearchQueryBuilder::parse_value_type("nan"), QueryValue::Float("nan".to_string()));
    assert_eq!(SearchQueryBuilder::parse_value_type("true"), QueryValue::Boolean(true));
    assert_eq!(SearchQueryBuilder::parse_value_type("false"), QueryValue::Boolean(false));
    assert_eq!(SearchQueryBuilder::parse_value_type("active"), text("active"));
    assert_eq!(SearchQueryBuilder::parse_value_type(""), text(""));
    assert_eq!(SearchQueryBuilder::parse_value_type("TRUE"), text("TRUE"));
}

#[test]
fn like_wraps_texts_only() {
    assert_eq!(SearchQueryBuilder::parse_value_type_with_operator("web", "LIKE"), text("%web%"));
    assert_eq!(SearchQueryBuilder::parse_value_type_with_operator("web", "="), text("web"));
    assert_eq!(
        SearchQueryBuilder::parse_value_type_with_operator("42", "LIKE"),
        QueryValue::Integer(42)
    );
    assert_eq!(SearchQueryBuilder::parse_criterion_value("web", "LIKE"), text("%web%"));
    assert_eq!(SearchQueryBuilder::parse_criterion_value("true", "LIKE"), QueryValue::Boolean(true));
}

#[test]
fn filter_values_know_null_and_like_first() {
    assert_eq!(SearchQueryBuilder::parse_filter_value("", "="), QueryValue::Null);
    assert_eq!(SearchQueryBuilder::parse_filter_value("null", "="), QueryValue::Null);
    assert_eq!(SearchQueryBuilder::parse_filter_value("null", "LIKE"), QueryValue::Null);
    assert_eq!(SearchQueryBuilder::parse_filter_value("NULL", "!="), text("NULL"));
    assert_eq!(SearchQueryBuilder::parse_filter_value("Null", "LIKE"), text("%Null%"));
    assert_eq!(SearchQueryBuilder::parse_filter_value("NULL", "="), text("NULL"));
    assert_eq!(SearchQueryBuilder::parse_filter_value("42", "LIKE"), text("%42%"));
    assert_eq!(SearchQueryBuilder::parse_filter_value("42", ">"), QueryValue::Integer(42));
    assert_eq!(SearchQueryBuilder::parse_filter_value("web", "="), text("web"));
    assert_eq!(SearchQueryBuilder::parse_filter_value("nullable", "="), text("nullable"));
}

#[test]
fn filter_keys_name_column_and_operator() {
    assert_eq!(SearchQueryBuilder::parse_filter_key("status"), ("status".to_string(), "="));
    assert_eq!(SearchQueryBuilder::parse_filter_key("name_like"), ("name".to_string(), "LIKE"));
    assert_eq!(SearchQueryBuilder::parse_filter_key("cores_gt"), ("cores".to_string(), ">"));
    assert_eq!(SearchQueryBuilder::parse_filter_key("cores_gte"), ("cores".to_string(), ">="));
    assert_eq!(SearchQueryBuilder::parse_filter_key("cores_lt"), ("cores".to_string(), "<"));
    assert_eq!(SearchQueryBuilder::parse_filter_key("cores_lte"), ("cores".to_string(), "<="));
    assert_eq!(SearchQueryBuilder::parse_filter_key("status_ne"), ("status".to_string(), "!="));
    assert_eq!(SearchQueryBuilder::parse_filter_key("a_gt_like"), ("a_gt".to_string(), "LIKE"));
    assert_eq!(SearchQueryBuilder::parse_filter_key("a_like_like"), ("a_like".to_string(), "LIKE"));
    assert_eq!(SearchQueryBuilder::parse_filter_key("x_gt_gt"), ("x_gt".to_string(), ">"));
    assert_eq!(SearchQueryBuilder::parse_filter_key("x_ne_ne_ne"), ("x_ne_ne".to_string(), "!="));
    assert_eq!(SearchQueryBuilder::parse_filter_key("_ne"), ("".to_string(), "!="));
    assert_eq!(SearchQueryBuilder::parse_filter_key(""), ("".to_string(), "="));
}

#[test]
fn flat_filters_compile_in_order() {
    let filters = pairs(&[("status", "active"), ("cores_gt", "8")]);
    let conditions = SearchQueryBuilder::build_simple_conditions(&filters, None);
    assert_eq!(
        conditions,
        vec![
            condition("status", "=", text("active"), None),
            condition("cores", ">", QueryValue::Integer(8), None),
        ]
    );
}

#[test]
fn flat_filters_leave_out_the_paging_keys() {
    let filters = pairs(&[
        ("page", "2"),
        ("status", "active"),
        ("per_page", "5"),
        ("columns", "a,b"),
        ("search", "[]"),
        ("name_like", "web"),
        ("rack_id", ""),
    ]);
    let conditions = SearchQueryBuilder::build_simple_conditions(&filters, None);
    assert_eq!(
        conditions,
        vec![
            condition("status", "=", text("active"), None),
            condition("name", "LIKE", text("%web%"), None),
            condition("rack_id", "=", QueryValue::Null, None),
        ]
    );
}

#[test]
fn flat_filters_take_their_own_exclusions() {
    let filters = pairs(&[("page", "2"), ("status", "active")]);
    let excluded = vec!["status".to_string()];
    let conditions = SearchQueryBuilder::build_simple_conditions(&filters, Some(&excluded));
    assert_eq!(conditions, vec![condition("page", "=", QueryValue::Integer(2), None)]);
    assert_eq!(SearchQueryBuilder::build_simple_conditions(&Vec::new(), None), Vec::new());
}

#[test]
fn criteria_are_made_from_parts() {
    let criterion = SearchQueryBuilder::create_criterion("status", "active", Some("!="), Some(LogicalOperator::Or));
    assert_eq!(
        criterion,
        SearchCriterion {
            column: "status".to_string(),
            term: "active".to_string(),
            operator: Some(LogicalOperator::Or),
            comparison_operator: Some("!=".to_string()),
        }
    );
    let plain = SearchQueryBuilder::create_criterion("status", "active", None, None);
    assert_eq!(plain.operator, None);
    assert_eq!(plain.comparison_operator, None);
}

#[test]
fn a_single_criterion_keeps_its_own_connector() {
    let criterion = SearchQueryBuilder::create_criterion("name", "web", Some("LIKE"), Some(LogicalOperator::Or));
    assert_eq!(
        SearchQueryBuilder::build_where_condition(&criterion),
        condition("name", "LIKE", text("%web%"), Some("OR"))
    );
    let plain = SearchQueryBuilder::create_criterion("cores", "8", None, None);
    assert_eq!(
        SearchQueryBuilder::build_where_condition(&plain),
        condition("cores", "=", QueryValue::Integer(8), None)
    );
}

#[test]
fn criteria_are_validated_in_order() {
    let ok = vec![
        SearchQueryBuilder::create_criterion("status", "active", None, None),
        SearchQueryBuilder::create_criterion("name", "web", Some("NOT LIKE"), None),
    ];
    assert_eq!(SearchQueryBuilder::validate_search_criteria(&ok), Ok(()));
    assert_eq!(SearchQueryBuilder::validate_search_criteria(&Vec::new()), Ok(()));

    let empty_column = vec![
        SearchQueryBuilder::create_criterion("status", "active", None, None),
        SearchQueryBuilder::create_criterion("", "x", None, None),
    ];
    assert_eq!(
        SearchQueryBuilder::validate_search_criteria(&empty_column),
        refused("Search criterion 1 has empty column name")
    );

    let empty_term = vec![SearchQueryBuilder::create_criterion("status", "", None, None)];
    assert_eq!(
        SearchQueryBuilder::validate_search_criteria(&empty_term),
        refused("Search criterion 0 has empty search term")
    );

    let mut many = Vec::new();
    for _ in 0..12 {
        many.push(SearchQueryBuilder::create_criterion("status", "active", None, None));
    }
    many.push(SearchQueryBuilder::create_criterion("status", "active", Some("<>"), None));
    many.push(SearchQueryBuilder::create_criterion("", "", None, None));
    assert_eq!(
        SearchQueryBuilder::validate_search_criteria(&many),
        refused(&format!(
            "Search criterion 12 has invalid comparison operator '<>'. Valid operators: {:?}",
            ["=", "!=", ">", "<", ">=", "<=", "LIKE", "NOT LIKE"]
        ))
    );
}

#[test]
fn every_valid_operator_passes() {
    for operator in ["=", "!=", ">", "<", ">=", "<=", "LIKE", "NOT LIKE"] {
        let list = vec![SearchQueryBuilder::create_criterion("a", "b", Some(operator), None)];
        assert_eq!(SearchQueryBuilder::validate_search_criteria(&list), Ok(()));
    }
    for operator in ["", "like", "IN", "RAW", "==", "= "] {
        let list = vec![SearchQueryBuilder::create_criterion("a", "b", Some(operator), None)];
        assert!(SearchQueryBuilder::validate_search_criteria(&list).is_err());
    }
}

fn criterion(column: &str, term: &str, comparison: Option<&str>, or: bool) -> SearchCriterion {
    SearchQueryBuilder::create_criterion(
        column,
        term,
        comparison,
        if or { Some(LogicalOperator::Or) } else { Some(LogicalOperator::And) },
    )
}

#[test]
fn equalities_joined_by_or_become_one_in() {
    let criteria = vec![
        criterion("status", "active", Some("="), true),
        criterion("status", "it's", None, true),
        criterion("status", "5", Some("="), true),
        criterion("zone", "a\\b", None, true),
        criterion("zone", "c", None, true),
    ];
    assert_eq!(
        SearchQueryBuilder::build_grouped_conditions(&criteria),
        vec![
            condition("status", "IN", text("('active', 'it''s', '5')"), None),
            condition("zone", "IN", text("('a\\\\b', 'c')"), Some("AND")),
        ]
    );
}

#[test]
fn other_groups_become_one_raw_predicate() {
    let criteria = vec![
        criterion("name", "web", Some("LIKE"), true),
        criterion("name", "o'db", Some("!="), true),
    ];
    assert_eq!(
        SearchQueryBuilder::build_grouped_conditions(&criteria),
        vec![condition("RAW_SQL", "RAW", text("(`name` LIKE '%web%' OR `name` != 'o''db')"), None)]
    );
    let joined_by_and = vec![
        criterion("zone", "eu", None, true),
        criterion("name", "a", None, false),
        criterion("name", "b\\", None, false),
    ];
    assert_eq!(
        SearchQueryBuilder::build_grouped_conditions(&joined_by_and),
        vec![
            condition("zone", "=", text("eu"), None),
            condition("RAW_SQL", "RAW", text("(`name` = 'a' OR `name` = 'b\\\\')"), Some("AND")),
        ]
    );
}

#[test]
fn a_group_of_one_is_the_predicate_itself() {
    let criteria = vec![criterion("zone", "eu", None, true), criterion("cores", "8", Some(">"), false)];
    assert_eq!(
        SearchQueryBuilder::build_grouped_conditions(&criteria),
        vec![
            condition("zone", "=", text("eu"), None),
            condition("cores", ">", QueryValue::Integer(8), Some("AND")),
        ]
    );
}

fn operator_refused<T>(column: &str, operator: &str) -> Result<T, Failure> {
    refused(&format!(
        "Invalid structured search format: column '{}' has invalid comparison operator '{}'. Valid operators: {:?}",
        column,
        operator,
        ["=", "!=", ">", "<", ">=", "<=", "LIKE", "NOT LIKE"]
    ))
}

#[test]
fn the_structured_form_refuses_an_operator_that_is_not_valid() {
    assert_eq!(
        SearchQueryBuilder::build_structured_conditions(
            r#"{"RAW_SQL": {"1=1; DROP TABLE servers": {"op": "RAW", "logical": "AND"}}}"#
        ),
        operator_refused("RAW_SQL", "RAW")
    );
    assert_eq!(
        SearchQueryBuilder::build_structured_conditions(r#"{"RAW_SQL": {"5": {"op": "RAW", "logical": "OR"}}}"#),
        operator_refused("RAW_SQL", "RAW")
    );
    assert_eq!(
        SearchQueryBuilder::build_structured_conditions(r#"{"id": {"(1) OR 1=1": {"op": "IN", "logical": "OR"}}}"#),
        operator_refused("id", "IN")
    );
    assert_eq!(
        SearchQueryBuilder::build_structured_conditions(
            r#"{"zone": "eu", "name": {"a": {"op": "=", "logical": "OR"}, "b": {"op": "= 1 OR 1", "logical": "OR"}, "c": {"op": "~", "logical": "OR"}}}"#
        ),
        operator_refused("name", "= 1 OR 1")
    );
    assert_eq!(
        SearchQueryBuilder::build_mixed_conditions(
            Some(r#"{"name": {"web": {"op": "like", "logical": "OR"}}}"#),
            &pairs(&[("status", "active")]),
            None
        ),
        operator_refused("name", "like")
    );
    let built = StructuredSearchBuilder::new()
        .add_simple("zone", "eu")
        .add_complex(
            "cores",
            vec![(
                "8".to_string(),
                ColumnOperation::WithComparison {
                    comparison_operator: Some("=>".to_string()),
                    logical_operator: "AND".to_string(),
                },
            )],
        )
        .build();
    assert_eq!(SearchQueryBuilder::build_from_structured(&built), operator_refused("cores", "=>"));
    for operator in ["=", "!=", ">", "<", ">=", "<=", "LIKE", "NOT LIKE"] {
        assert!(SearchQueryBuilder::is_valid_operator(operator));
        let document = format!(r#"{{"RAW_SQL": {{"x": {{"op": "{}", "logical": "AND"}}}}}}"#, operator);
        let conditions = SearchQueryBuilder::build_structured_conditions(&document).unwrap();
        assert_eq!(conditions.len(), 1);
        assert_eq!(conditions[0].column, "RAW_SQL");
        assert_eq!(conditions[0].operator, operator);
    }
    for operator in ["", "RAW", "IN", "like", "==", " ="] {
        assert!(!SearchQueryBuilder::is_valid_operator(operator));
    }
}

#[test]
fn a_column_that_asks_nothing_is_refused() {
    let search = StructuredSearch {
        columns: vec![
            ("zone".to_string(), ColumnCriteria::Simple("eu".to_string())),
            ("cores".to_string(), ColumnCriteria::Complex(Vec::new())),
            ("rack".to_string(), ColumnCriteria::Complex(Vec::new())),
        ],
    };
    assert_eq!(
        SearchQueryBuilder::build_from_structured(&search),
        refused("Invalid structured search format: column 'cores' holds neither a value nor a map from one or more values to operations")
    );
    assert_eq!(
        SearchQueryBuilder::build_structured_conditions(r#"{"zone": "eu", "cores": {}}"#),
        refused("Invalid structured search format: column 'cores' holds neither a value nor a map from one or more values to operations")
    );
    assert_eq!(
        SearchQueryBuilder::build_mixed_conditions(Some(r#"{"cores": {}}"#), &Vec::new(), None),
        refused("Invalid structured search format: column 'cores' holds neither a value nor a map from one or more values to operations")
    );
    assert_eq!(
        SearchQueryBuilder::build_mixed_conditions(Some(r#"{"zone": "eu", "cores": 8}"#), &Vec::new(), None),
        refused("Invalid structured search format: column 'cores' holds neither a value nor a map from one or more values to operations")
    );
    assert_eq!(
        SearchQueryBuilder::build_mixed_conditions(Some(r#"[{"column": "a"}]"#), &Vec::new(), None),
        refused("Invalid search criteria format: item 0 is not an object with a column, a term and known operators")
    );
}

#[test]
fn criteria_are_grouped_by_column_in_order_of_first_occurrence() {
    let criteria = vec![
        SearchQueryBuilder::create_criterion("status", "active", None, Some(LogicalOperator::Or)),
        SearchQueryBuilder::create_criterion("cores", "8", Some(">"), None),
        SearchQueryBuilder::create_criterion("status", "idle", Some("="), Some(LogicalOperator::Or)),
        SearchQueryBuilder::create_criterion("name", "web", Some("LIKE"), None),
        SearchQueryBuilder::create_criterion("name", "db", Some("LIKE"), None),
    ];
    assert_eq!(
        SearchQueryBuilder::build_grouped_conditions(&criteria),
        vec![
            condition("status", "IN", text("('active', 'idle')"), None),
            condition("cores", ">", QueryValue::Integer(8), Some("AND")),
            condition("RAW_SQL", "RAW", text("(`name` LIKE '%web%' OR `name` LIKE '%db%')"), Some("AND")),
        ]
    );
    assert_eq!(SearchQueryBuilder::build_grouped_conditions(&Vec::new()), Vec::new());
}

#[test]
fn equalities_that_are_not_joined_by_or_stay_a_group() {
    let criteria = vec![
        SearchQueryBuilder::create_criterion("status", "active", None, None),
        SearchQueryBuilder::create_criterion("status", "idle", None, Some(LogicalOperator::Or)),
    ];
    assert_eq!(
        SearchQueryBuilder::build_grouped_conditions(&criteria),
        vec![condition("RAW_SQL", "RAW", text("(`status` = 'active' OR `status` = 'idle')"), None)]
    );
}

#[test]
fn the_first_condition_never_carries_a_connector() {
    let criteria = vec![
        SearchQueryBuilder::create_criterion("status", "active", None, Some(LogicalOperator::Or)),
        SearchQueryBuilder::create_criterion("cores", "8", None, Some(LogicalOperator::Or)),
    ];
    let conditions = SearchQueryBuilder::build_grouped_conditions(&criteria);
    assert_eq!(conditions[0].logical_operator, None);
    assert_eq!(conditions[1].logical_operator, Some("AND".to_string()));
}

#[test]
fn the_legacy_form_is_read_from_json() {
    let json = r#"[
        {"column": "status", "term": "active", "operator": "or"},
        {"column": "status", "term": "idle", "operator": "OR", "comparisonOperator": "="},
        {"column": "cores", "term": "8", "comparisonOperator": ">=", "operator": null}
    ]"#;
    assert_eq!(
        SearchQueryBuilder::build_complex_conditions(json),
        Ok(vec![
            condition("status", "IN", text("('active', 'idle')"), None),
            condition("cores", ">=", QueryValue::Integer(8), Some("AND")),
        ])
    );
    assert_eq!(SearchQueryBuilder::build_complex_conditions("[]"), Ok(Vec::new()));
}

#[test]
fn the_legacy_form_reports_what_is_malformed() {
    let error = SearchQueryBuilder::build_complex_conditions("[{\"column\": ").unwrap_err();
    assert_eq!(error.kind, ErrorKind::Parse);
    assert!(error.message.starts_with("Invalid search criteria format: "), "{}", error.message);
    assert!(error.message.len() > "Invalid search criteria format: ".len());

    assert_eq!(
        SearchQueryBuilder::build_complex_conditions("{\"status\": \"active\"}"),
        refused("Invalid search criteria format: expected an array of criteria")
    );
    assert_eq!(
        SearchQueryBuilder::build_complex_conditions(
            r#"[{"column": "a", "term": "b"}, {"column": "a"}]"#
        ),
        refused("Invalid search criteria format: item 1 is not an object with a column, a term and known operators")
    );
    assert_eq!(
        SearchQueryBuilder::build_complex_conditions(r#"[{"column": "a", "term": 5}]"#),
        refused("Invalid search criteria format: item 0 is not an object with a column, a term and known operators")
    );
    assert_eq!(
        SearchQueryBuilder::build_complex_conditions(r#"[{"column": "a", "term": "b", "operator": "XOR"}]"#),
        refused("Invalid search criteria format: item 0 is not an object with a column, a term and known operators")
    );
    assert_eq!(
        SearchQueryBuilder::build_complex_conditions(r#"[{"column": "", "term": "b"}]"#),
        refused("Search criterion 0 has empty column name")
    );
    assert_eq!(
        SearchQueryBuilder::build_complex_conditions(
            r#"[{"column": "a", "term": "b", "comparisonOperator": "~"}]"#
        ),
        refused(&format!(
            "Search criterion 0 has invalid comparison operator '~'. Valid operators: {:?}",
            ["=", "!=", ">", "<", ">=", "<=", "LIKE", "NOT LIKE"]
        ))
    );
}

#[test]
fn the_structured_form_is_read_from_json() {
    let json = r#"{
        "cores": {"8": {"op": ">", "logical": "AND"}},
        "name": {"web": {"op": "LIKE", "logical": "OR"}, "db": {"logical": "OR"}},
        "status": {"active": "OR", "idle": {"op": null, "logical": "OR"}},
        "zone": "eu"
    }"#;
    assert_eq!(
        SearchQueryBuilder::build_structured_conditions(json),
        Ok(vec![
            condition("cores", ">", QueryValue::Integer(8), None),
            condition("RAW_SQL", "RAW", text("(`name` = 'db' OR `name` LIKE '%web%')"), Some("AND")),
            condition("status", "IN", text("('active', 'idle')"), Some("AND")),
            condition("zone", "=", text("eu"), Some("AND")),
        ])
    );
    assert_eq!(SearchQueryBuilder::build_structured_conditions("{}"), Ok(Vec::new()));
}

#[test]
fn the_structured_form_reports_what_is_malformed() {
    let error = SearchQueryBuilder::build_structured_conditions("{\"status\": ").unwrap_err();
    assert_eq!(error.kind, ErrorKind::Parse);
    assert!(error.message.starts_with("Invalid structured search format: "), "{}", error.message);
    assert!(error.message.len() > "Invalid structured search format: ".len());

    assert_eq!(
        SearchQueryBuilder::build_structured_conditions("[1, 2]"),
        refused("Invalid structured search format: expected an object keyed by column name")
    );
    assert_eq!(
        SearchQueryBuilder::build_structured_conditions(r#"{"zone": "eu", "cores": 8}"#),
        refused("Invalid structured search format: column 'cores' holds neither a value nor a map from one or more values to operations")
    );
    assert_eq!(
        SearchQueryBuilder::build_structured_conditions(r#"{"cores": {"8": {"op": ">"}}}"#),
        refused("Invalid structured search format: column 'cores' holds neither a value nor a map from one or more values to operations")
    );
    assert_eq!(
        SearchQueryBuilder::build_structured_conditions(r#"{"cores": {"8": {"op": 1, "logical": "AND"}}}"#),
        refused("Invalid structured search format: column 'cores' holds neither a value nor a map from one or more values to operations")
    );
}

#[test]
fn a_search_document_says_which_form_it_is() {
    let filters = Vec::new();
    assert_eq!(
        SearchQueryBuilder::build_mixed_conditions(Some(r#"{"zone": "eu"}"#), &filters, None),
        Ok(vec![condition("zone", "=", text("eu"), None)])
    );
    assert_eq!(
        SearchQueryBuilder::build_mixed_conditions(
            Some(r#"[{"column": "zone", "term": "eu"}]"#),
            &filters,
            None
        ),
        Ok(vec![condition("zone", "=", text("eu"), None)])
    );
    assert_eq!(
        SearchQueryBuilder::build_mixed_conditions(Some("7"), &filters, None),
        refused("Invalid search criteria format: expected an array of criteria")
    );
    let error = SearchQueryBuilder::build_mixed_conditions(Some("not json"), &filters, None).unwrap_err();
    assert_eq!(error.kind, ErrorKind::Parse);
    assert!(error.message.starts_with("Invalid search criteria format: "), "{}", error.message);
}

#[test]
fn flat_filters_follow_the_predicates_of_a_search_document() {
    let filters = pairs(&[("status", "active"), ("page", "2"), ("cores_gt", "8")]);
    let flat = vec![
        condition("status", "=", text("active"), None),
        condition("cores", ">", QueryValue::Integer(8), None),
    ];
    let mut structured = vec![condition("zone", "=", text("eu"), None)];
    structured.extend(flat.clone());
    assert_eq!(
        SearchQueryBuilder::build_mixed_conditions(Some(r#"{"zone": "eu"}"#), &filters, None),
        Ok(structured.clone())
    );
    assert_eq!(
        SearchQueryBuilder::build_mixed_conditions(
            Some(r#"[{"column": "zone", "term": "eu"}]"#),
            &filters,
            None
        ),
        Ok(structured)
    );
    assert_eq!(SearchQueryBuilder::build_mixed_conditions(Some("{}"), &filters, None), Ok(flat));
    let excluded = vec!["status".to_string()];
    assert_eq!(
        SearchQueryBuilder::build_mixed_conditions(Some(r#"{"zone": "eu"}"#), &filters, Some(&excluded)),
        Ok(vec![
            condition("zone", "=", text("eu"), None),
            condition("page", "=", QueryValue::Integer(2), None),
            condition("cores", ">", QueryValue::Integer(8), None),
        ])
    );
    assert_eq!(
        SearchQueryBuilder::build_mixed_conditions(Some("7"), &filters, None),
        refused("Invalid search criteria format: expected an array of criteria")
    );
}

#[test]
fn without_a_search_document_the_flat_filters_are_compiled() {
    let filters = pairs(&[("status", "active"), ("page", "3")]);
    assert_eq!(
        SearchQueryBuilder::build_mixed_conditions(None, &filters, None),
        Ok(vec![condition("status", "=", text("active"), None)])
    );
}

#[test]
fn documents_are_compiled_from_their_tree() {
    let tree = JsonValue::Object(vec![
        ("zone".to_string(), JsonValue::Text("eu".to_string())),
        (
            "status".to_string(),
            JsonValue::Object(vec![
                ("a".to_string(), JsonValue::Text("OR".to_string())),
                ("b".to_string(), JsonValue::Text("OR".to_string())),
            ]),
        ),
    ]);
    assert_eq!(
        SearchQueryBuilder::structured_conditions_from_json(&tree),
        Ok(vec![
            condition("zone", "=", text("eu"), None),
            condition("status", "IN", text("('a', 'b')"), Some("AND")),
        ])
    );
    assert_eq!(
        SearchQueryBuilder::document_conditions_from_json(&tree),
        SearchQueryBuilder::structured_conditions_from_json(&tree)
    );
    assert_eq!(
        SearchQueryBuilder::mixed_conditions_from_json(&tree, &pairs(&[("rack_ne", "7")]), None),
        Ok(vec![
            condition("zone", "=", text("eu"), None),
            condition("status", "IN", text("('a', 'b')"), Some("AND")),
            condition("rack", "!=", QueryValue::Integer(7), None),
        ])
    );
    let list = JsonValue::Array(vec![JsonValue::Object(vec![
        ("column".to_string(), JsonValue::Text("zone".to_string())),
        ("term".to_string(), JsonValue::Text("eu".to_string())),
    ])]);
    assert_eq!(
        SearchQueryBuilder::complex_conditions_from_json(&list),
        Ok(vec![condition("zone", "=", text("eu"), None)])
    );
    assert_eq!(
        SearchQueryBuilder::mixed_conditions_from_json(&list, &Vec::new(), None),
        Ok(vec![condition("zone", "=", text("eu"), None)])
    );
    assert_eq!(
        SearchQueryBuilder::document_conditions_from_json(&list),
        Ok(vec![condition("zone", "=", text("eu"), None)])
    );
    assert_eq!(
        SearchQueryBuilder::criteria_from_json(&list),
        Ok(vec![SearchQueryBuilder::create_criterion("zone", "eu", None, None)])
    );
    assert_eq!(
        SearchQueryBuilder::mixed_conditions_from_json(&JsonValue::Null, &pairs(&[("a", "b")]), None),
        refused("Invalid search criteria format: expected an array of criteria")
    );
}

#[test]
fn a_structured_search_is_built_column_by_column() {
    let search = SearchQueryBuilder::create_structured_search()
        .add_simple("zone", "eu")
        .add_complex(
            "status",
            vec![
                ("active".to_string(), ColumnOperation::Simple("OR".to_string())),
                (
                    "idle".to_string(),
                    ColumnOperation::WithComparison {
                        comparison_operator: None,
                        logical_operator: "OR".to_string(),
                    },
                ),
            ],
        )
        .add_simple("zone", "us")
        .build();
    assert_eq!(
        search,
        StructuredSearch {
            columns: vec![
                ("zone".to_string(), ColumnCriteria::Simple("us".to_string())),
                (
                    "status".to_string(),
                    ColumnCriteria::Complex(vec![
                        ("active".to_string(), ColumnOperation::Simple("OR".to_string())),
                        (
                            "idle".to_string(),
                            ColumnOperation::WithComparison {
                                comparison_operator: None,
                                logical_operator: "OR".to_string(),
                            },
                        ),
                    ]),
                ),
            ],
        }
    );
    assert_eq!(
        SearchQueryBuilder::build_from_structured(&search),
        Ok(vec![
            condition("zone", "=", text("us"), None),
            condition("status", "IN", text("('active', 'idle')"), Some("AND")),
        ])
    );
    assert_eq!(StructuredSearchBuilder::new().build(), StructuredSearch { columns: Vec::new() });
}

#[test]
fn a_structured_group_is_joined_by_or_whatever_its_words() {
    let search = StructuredSearchBuilder::new()
        .add_complex(
            "status",
            vec![
                (
                    "a".to_string(),
                    ColumnOperation::WithComparison {
                        comparison_operator: Some("!=".to_string()),
                        logical_operator: "AND".to_string(),
                    },
                ),
                (
                    "b".to_string(),
                    ColumnOperation::WithComparison {
                        comparison_operator: Some("!=".to_string()),
                        logical_operator: "OR".to_string(),
                    },
                ),
            ],
        )
        .build();
    assert_eq!(
        SearchQueryBuilder::build_from_structured(&search),
        Ok(vec![condition("RAW_SQL", "RAW", text("(`status` != 'a' OR `status` != 'b')"), None)])
    );
    assert_eq!(
        SearchQueryBuilder::build_structured_conditions(
            r#"{"name": {"web": {"op": "LIKE", "logical": "AND"}, "db": {"op": "LIKE", "logical": "AND"}}}"#
        ),
        Ok(vec![condition("RAW_SQL", "RAW", text("(`name` LIKE '%db%' OR `name` LIKE '%web%')"), None)])
    );
}
