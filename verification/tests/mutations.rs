use farmcore::errors::Failure;
use farmcore::database::database_helper::{DatabaseHelper, UpsertAction};
use farmcore::database::query_builder::SqlStatement;
use farmcore::json::JsonValue;
use farmcore::models::query::QueryValue;
use farmcore::repositories::server_repository::ServerRepository;
use farmcore::repositories::vm_repository::VmRepository;

fn field(name: &str, value: JsonValue) -> (String, JsonValue) {
    (name.to_string(), value)
}

fn text(s: &str) -> JsonValue {
    JsonValue::Text(s.to_string())
}

fn number(s: &str) -> JsonValue {
    JsonValue::Number(s.to_string())
}

#[test]
fn insert_sql_has_a_placeholder_for_each_column() {
    assert_eq!(
        DatabaseHelper::build_insert_sql("servers", &["server_name", "status", "rack_id"]),
        "INSERT INTO servers (server_name, status, rack_id) VALUES (?, ?, ?)"
    );
    assert_eq!(DatabaseHelper::build_insert_sql("t", &["a"]), "INSERT INTO t (a) VALUES (?)");
    assert_eq!(DatabaseHelper::build_insert_sql("t", &[]), "INSERT INTO t () VALUES ()");
}

#[test]
fn an_update_binds_its_values_and_sets_the_timestamp() {
    let updates = vec![
        field("server_name", text("web-1")),
        field("rack_id", number("12")),
        field("ratio", number("0.5")),
        field("active", JsonValue::Bool(true)),
        field("cluster_id", JsonValue::Null),
    ];
    let statement = DatabaseHelper::update("servers", "server_id", 7, &updates, &["server_id", "created_at"])
        .unwrap()
        .unwrap();
    assert_eq!(
        statement.sql,
        "UPDATE servers SET server_name = ?, rack_id = ?, ratio = ?, active = ?, cluster_id = ?, updated_at = NOW() WHERE server_id = ?"
    );
    assert_eq!(
        statement.binds,
        vec![
            QueryValue::String("web-1".to_string()),
            QueryValue::Integer(12),
            QueryValue::Float("0.5".to_string()),
            QueryValue::Boolean(true),
            QueryValue::Null,
            QueryValue::Integer(7),
        ]
    );
}

#[test]
fn an_update_keeps_user_data_out_of_the_text() {
    let updates = vec![field("server_name", text("x'; DROP TABLE servers; -- & ?"))];
    let statement = DatabaseHelper::update("servers", "server_id", 1, &updates, &[]).unwrap().unwrap();
    assert_eq!(statement.sql, "UPDATE servers SET server_name = ?, updated_at = NOW() WHERE server_id = ?");
    assert_eq!(statement.binds[0], QueryValue::String("x'; DROP TABLE servers; -- & ?".to_string()));
}

#[test]
fn an_empty_update_does_nothing() {
    assert_eq!(DatabaseHelper::update("servers", "server_id", 7, &Vec::new(), &["server_id"]), Ok(None));
}

#[test]
fn an_update_refuses_protected_fields_and_unbindable_values() {
    let protected = vec![field("status", text("ACTIVE")), field("created_at", text("now")), field("x", JsonValue::Array(vec![]))];
    assert_eq!(
        DatabaseHelper::update("servers", "server_id", 7, &protected, &["server_id", "created_at"]),
        Err(Failure::validation("Field 'created_at' is not allowed to be updated".to_string()))
    );
    let unsupported = vec![field("status", JsonValue::Object(vec![])), field("created_at", text("now"))];
    assert_eq!(
        DatabaseHelper::update("servers", "server_id", 7, &unsupported, &["created_at"]),
        Err(Failure::validation("Field 'created_at' is not allowed to be updated".to_string()))
    );
    assert_eq!(
        DatabaseHelper::update("servers", "server_id", 7, &unsupported, &["server_id"]),
        Err(Failure::validation("Unsupported value type for field 'status'".to_string()))
    );
    let twice = vec![
        field("a", JsonValue::Array(vec![])),
        field("updated_at", text("now")),
        field("b", JsonValue::Object(vec![])),
        field("created_at", text("now")),
    ];
    assert_eq!(
        DatabaseHelper::update("servers", "server_id", 7, &twice, &["created_at", "updated_at"]),
        Err(Failure::validation("Field 'updated_at' is not allowed to be updated".to_string()))
    );
    assert_eq!(
        DatabaseHelper::update("servers", "server_id", 7, &twice, &[]),
        Err(Failure::validation("Unsupported value type for field 'a'".to_string()))
    );
    assert_eq!(
        DatabaseHelper::check_fields(&unsupported, &[]),
        Err(Failure::validation("Unsupported value type for field 'status'".to_string()))
    );
    assert_eq!(DatabaseHelper::check_fields(&vec![field("a", text("b"))], &["c"]), Ok(()));
    assert!(DatabaseHelper::is_protected(&["a", "b"], "b"));
    assert!(!DatabaseHelper::is_protected(&["a", "b"], "c"));
    assert_eq!(DatabaseHelper::bind_of(&JsonValue::Array(vec![])), None);
    assert_eq!(DatabaseHelper::bind_of(&number("-3")), Some(QueryValue::Integer(-3)));
}

#[test]
fn an_upsert_looks_up_by_the_unique_column() {
    assert_eq!(
        DatabaseHelper::upsert_lookup("component_bmc_types", "component_bmc_id", "name", "iDRAC9"),
        SqlStatement {
            sql: "SELECT component_bmc_id FROM component_bmc_types WHERE name = ? LIMIT 1".to_string(),
            binds: vec![QueryValue::String("iDRAC9".to_string())],
        }
    );
}

#[test]
fn an_upsert_updates_what_exists_and_inserts_what_does_not() {
    let insert = vec![field("name", text("iDRAC9")), field("ports", number("2"))];
    let update = vec![field("ports", number("2"))];
    assert_eq!(
        DatabaseHelper::upsert("types", "id", Some(4), &insert, &update, &["id"]),
        Ok(UpsertAction::Update {
            id: 4,
            change: Some(SqlStatement {
                sql: "UPDATE types SET ports = ?, updated_at = NOW() WHERE id = ?".to_string(),
                binds: vec![QueryValue::Integer(2), QueryValue::Integer(4)],
            }),
        })
    );
    assert_eq!(
        DatabaseHelper::upsert("types", "id", Some(4), &insert, &Vec::new(), &["id"]),
        Ok(UpsertAction::Update { id: 4, change: None })
    );
    assert_eq!(
        DatabaseHelper::upsert("types", "id", None, &insert, &update, &["id"]),
        Ok(UpsertAction::Insert {
            statement: SqlStatement {
                sql: "INSERT INTO types (name, ports) VALUES (?, ?)".to_string(),
                binds: vec![QueryValue::String("iDRAC9".to_string()), QueryValue::Integer(2)],
            },
        })
    );
    assert_eq!(
        DatabaseHelper::upsert("types", "id", Some(4), &insert, &vec![field("id", number("5"))], &["id"]),
        Err(Failure::validation("Field 'id' is not allowed to be updated".to_string()))
    );
    assert_eq!(
        DatabaseHelper::upsert("types", "id", None, &vec![field("id", JsonValue::Array(vec![]))], &update, &["id"]),
        Err(Failure::validation("Unsupported value type for field 'id'".to_string()))
    );
}

#[test]
fn a_server_is_updated_by_its_own_columns_only() {
    let statement = ServerRepository::update_server(3, &vec![field("status", text("MAINTENANCE")), field("rack_id", number("2"))])
        .unwrap()
        .unwrap();
    assert_eq!(
        statement.sql,
        "UPDATE servers SET status = ?, rack_id = ?, updated_at = NOW() WHERE server_id = ?"
    );
    assert_eq!(
        statement.binds,
        vec![QueryValue::String("MAINTENANCE".to_string()), QueryValue::Integer(2), QueryValue::Integer(3)]
    );
    assert_eq!(ServerRepository::update_server(3, &Vec::new()), Ok(None));
    assert_eq!(
        ServerRepository::update_server(3, &vec![field("status", text("x")), field("colour", text("red"))]),
        Err(Failure::validation("Field 'colour' does not exist in Server model".to_string()))
    );
    assert_eq!(
        ServerRepository::update_server(3, &vec![field("component_motherboard_id", number("1"))]),
        Err(Failure::validation("Field 'component_motherboard_id' does not exist in Server model".to_string()))
    );
    for protected in ["server_id", "created_at", "updated_at", "last_inventory_at"] {
        assert_eq!(
            ServerRepository::update_server(3, &vec![field(protected, text("x"))]),
            Err(Failure::validation(format!("Field '{}' is not allowed to be updated", protected)))
        );
    }
    assert_eq!(
        ServerRepository::update_server(3, &vec![field("status", JsonValue::Array(vec![]))]),
        Err(Failure::validation("Unsupported value type for field 'status'".to_string()))
    );
    assert_eq!(
        ServerRepository::update_server(
            3,
            &vec![field("status", JsonValue::Array(vec![])), field("server_id", number("4"))]
        ),
        Err(Failure::validation("Field 'server_id' is not allowed to be updated".to_string()))
    );
    assert_eq!(
        ServerRepository::update_server(
            3,
            &vec![
                field("status", JsonValue::Array(vec![])),
                field("created_at", text("now")),
                field("colour", text("red")),
            ]
        ),
        Err(Failure::validation("Field 'created_at' is not allowed to be updated".to_string()))
    );
}

#[test]
fn a_virtual_machine_is_updated_by_named_fields() {
    let statement = VmRepository::update_vm(9, &vec![field("vm_state", text("running"))]).unwrap().unwrap();
    assert_eq!(statement.sql, "UPDATE virtual_machines SET vm_state = ?, updated_at = NOW() WHERE vm_id = ?");
    assert_eq!(statement.binds, vec![QueryValue::String("running".to_string()), QueryValue::Integer(9)]);
    assert_eq!(
        VmRepository::update_vm(9, &vec![field("vm_id", number("1"))]),
        Err(Failure::validation("Field 'vm_id' is not allowed to be updated".to_string()))
    );
    assert_eq!(VmRepository::update_vm(9, &Vec::new()), Ok(None));
    assert_eq!(
        VmRepository::update_vm(9, &vec![field("vm_state", text("running")), field("colour", text("red"))]),
        Err(Failure::validation("Field 'colour' does not exist in VirtualMachine model".to_string()))
    );
    assert_eq!(
        VmRepository::update_vm(9, &vec![field("memory_mb", JsonValue::Array(vec![]))]),
        Err(Failure::validation("Unsupported value type for field 'memory_mb'".to_string()))
    );
    assert_eq!(
        DatabaseHelper::update_model(
            "racks",
            "rack_id",
            2,
            &vec![field("name", text("r2")), field("height", number("42"))],
            "Rack",
            &["rack_id", "name", "height"],
            &["rack_id"]
        )
        .unwrap()
        .unwrap()
        .sql,
        "UPDATE racks SET name = ?, height = ?, updated_at = NOW() WHERE rack_id = ?"
    );
    assert_eq!(
        DatabaseHelper::update_model(
            "racks",
            "rack_id",
            2,
            &vec![field("rack_id", number("3")), field("width", number("1"))],
            "Rack",
            &["rack_id", "name", "height"],
            &["rack_id"]
        ),
        Err(Failure::validation("Field 'rack_id' is not allowed to be updated".to_string()))
    );
}

#[test]
fn rows_are_read_counted_and_deleted_by_identifier() {
    assert_eq!(
        DatabaseHelper::get_by_id("servers", "server_id", 7),
        SqlStatement {
            sql: "SELECT * FROM servers WHERE server_id = ?".to_string(),
            binds: vec![QueryValue::Integer(7)],
        }
    );
    assert_eq!(
        DatabaseHelper::find_all("servers"),
        SqlStatement { sql: "SELECT * FROM servers".to_string(), binds: vec![] }
    );
    assert_eq!(
        DatabaseHelper::get_total_count("servers"),
        SqlStatement { sql: "SELECT COUNT(*) FROM servers".to_string(), binds: vec![] }
    );
    assert_eq!(
        DatabaseHelper::get_count_by_field("servers", "status"),
        SqlStatement {
            sql: "SELECT status, COUNT(*) as count FROM servers WHERE status IS NOT NULL GROUP BY status".to_string(),
            binds: vec![],
        }
    );
    assert_eq!(
        DatabaseHelper::delete_by_id("servers", "server_id", 7),
        SqlStatement {
            sql: "DELETE FROM servers WHERE server_id = ?".to_string(),
            binds: vec![QueryValue::Integer(7)],
        }
    );
    assert_eq!(
        DatabaseHelper::exists_by_id("servers", "server_id", 7),
        SqlStatement {
            sql: "SELECT 1 FROM servers WHERE server_id = ? LIMIT 1".to_string(),
            binds: vec![QueryValue::Integer(7)],
        }
    );
}

#[test]
fn counts_are_found_by_name_in_any_case_and_written_as_objects() {
    let counts = vec![("ACTIVE".to_string(), 12), ("Maintenance".to_string(), 3), ("active".to_string(), 99)];
    assert_eq!(ServerRepository::find_count_by_name(&counts, "active"), 12);
    assert_eq!(ServerRepository::find_count_by_name(&counts, "MAINTENANCE"), 3);
    assert_eq!(ServerRepository::find_count_by_name(&counts, "rma"), 0);
    assert_eq!(ServerRepository::find_count_by_name(&Vec::new(), "active"), 0);
    assert_eq!(
        ServerRepository::counts_to_json(&counts[..2].to_vec()),
        vec![
            JsonValue::Object(vec![
                ("name".to_string(), JsonValue::Text("ACTIVE".to_string())),
                ("count".to_string(), JsonValue::Number("12".to_string())),
            ]),
            JsonValue::Object(vec![
                ("name".to_string(), JsonValue::Text("Maintenance".to_string())),
                ("count".to_string(), JsonValue::Number("3".to_string())),
            ]),
        ]
    );
}
