use farmcore::errors::Failure;
use farmcore::database::query_builder::SqlStatement;
use farmcore::dates::parse_timestamp;
use farmcore::json::JsonValue;
use farmcore::models::components::{
    ComponentBmcType, ComponentCpuType, ComponentDiskType, ComponentGpuType, ComponentMemoryType,
    ComponentMotherboardType, ComponentNetworkType,
};
use farmcore::models::query::QueryValue;
use farmcore::repositories::component_repository::ComponentRepository;
use farmcore::repositories::kubernetes_repository::{
    ClusterUpsert, K8sInventory, K8sNamespaceInventory, K8sNodeInventory, K8sPodInventory,
    K8sServiceInventory, K8sWorkloadInventory, KubernetesRepository,
};
use farmcore::search::{ColumnOperation, SearchQueryBuilder, StructuredSearchBuilder};

fn text(s: &str) -> QueryValue {
    QueryValue::String(s.to_string())
}

fn some(s: &str) -> Option<String> {
    Some(s.to_string())
}

fn object(members: &[(&str, &str)]) -> JsonValue {
    JsonValue::Object(
        members.iter().map(|(k, v)| (k.to_string(), JsonValue::Text(v.to_string()))).collect(),
    )
}

#[test]
fn types_are_added_to_the_catalog_with_one_placeholder_for_each_column() {
    let cpu = ComponentCpuType {
        component_cpu_id: 0,
        manufacturer: "Intel".to_string(),
        model_name: "Xeon".to_string(),
        num_cores: Some(16),
        num_threads: None,
        capacity_mhz: Some(2400),
        l1_cache_kb: None,
        l2_cache_kb: None,
        l3_cache_kb: Some(1),
    };
    assert_eq!(
        ComponentRepository::create_cpu_type(&cpu),
        SqlStatement {
            sql: "INSERT INTO component_cpu_types (manufacturer, model_name, num_cores, num_threads, capacity_mhz, l1_cache_kb, l2_cache_kb, l3_cache_kb) VALUES (?, ?, ?, ?, ?, ?, ?, ?)".to_string(),
            binds: vec![
                text("Intel"),
                text("Xeon"),
                QueryValue::Integer(16),
                QueryValue::Null,
                QueryValue::Integer(2400),
                QueryValue::Null,
                QueryValue::Null,
                QueryValue::Integer(1),
            ],
        }
    );
    let memory = ComponentMemoryType {
        component_memory_id: 0,
        manufacturer: "Samsung".to_string(),
        part_number: "M393".to_string(),
        size_bytes: 17179869184,
        mem_type: "DDR4".to_string(),
        speed_mt_s: Some(3200),
    };
    assert_eq!(
        ComponentRepository::create_memory_type(&memory),
        SqlStatement {
            sql: "INSERT INTO component_memory_types (manufacturer, part_number, size_bytes, mem_type, speed_mt_s) VALUES (?, ?, ?, ?, ?)".to_string(),
            binds: vec![text("Samsung"), text("M393"), QueryValue::Integer(17179869184), text("DDR4"), QueryValue::Integer(3200)],
        }
    );
    let board = ComponentMotherboardType {
        component_motherboard_id: 0,
        manufacturer: "Supermicro".to_string(),
        product_name: "X11".to_string(),
        version: None,
        bios_version: some("3.4"),
        bmc_firmware_version: None,
    };
    assert_eq!(
        ComponentRepository::create_motherboard_type(&board),
        SqlStatement {
            sql: "INSERT INTO component_motherboard_types (manufacturer, product_name, version, bios_version, bmc_firmware_version) VALUES (?, ?, ?, ?, ?)".to_string(),
            binds: vec![text("Supermicro"), text("X11"), QueryValue::Null, text("3.4"), QueryValue::Null],
        }
    );
    let disk = ComponentDiskType {
        component_disk_id: 0,
        manufacturer: None,
        model: "970 EVO".to_string(),
        size_bytes: Some(5),
        rotational: Some(false),
        bus_type: some("nvme"),
    };
    assert_eq!(
        ComponentRepository::create_disk_type(&disk),
        SqlStatement {
            sql: "INSERT INTO component_disk_types (manufacturer, model, size_bytes, rotational, bus_type) VALUES (?, ?, ?, ?, ?)".to_string(),
            binds: vec![QueryValue::Null, text("970 EVO"), QueryValue::Integer(5), QueryValue::Boolean(false), text("nvme")],
        }
    );
    let network = ComponentNetworkType {
        component_network_id: 0,
        vendor_name: some("Intel"),
        device_name: "X540".to_string(),
        driver: None,
        max_speed_mbps: Some(10000),
    };
    assert_eq!(
        ComponentRepository::create_network_type(&network),
        SqlStatement {
            sql: "INSERT INTO component_network_types (vendor_name, device_name, driver, max_speed_mbps) VALUES (?, ?, ?, ?)".to_string(),
            binds: vec![text("Intel"), text("X540"), QueryValue::Null, QueryValue::Integer(10000)],
        }
    );
    let gpu = ComponentGpuType { component_gpu_id: 0, vendor: "NVIDIA".to_string(), model: "A100".to_string(), vram_mb: Some(40960) };
    assert_eq!(
        ComponentRepository::create_gpu_type(&gpu),
        SqlStatement {
            sql: "INSERT INTO component_gpu_types (vendor, model, vram_mb) VALUES (?, ?, ?)".to_string(),
            binds: vec![text("NVIDIA"), text("A100"), QueryValue::Integer(40960)],
        }
    );
    let bmc = ComponentBmcType {
        component_bmc_id: 0,
        vendor: "Dell".to_string(),
        model: "iDRAC9".to_string(),
        firmware_version: None,
        supports_ipmi: Some(true),
        supports_redfish: Some(true),
        supports_web_interface: None,
        supports_kvm: Some(false),
        supports_virtual_media: None,
        has_dedicated_port: Some(true),
        max_speed_mbps: Some(1000),
    };
    assert_eq!(
        ComponentRepository::create_bmc_type(&bmc),
        SqlStatement {
            sql: "INSERT INTO component_bmc_types (vendor, model, firmware_version, supports_ipmi, supports_redfish, supports_web_interface, supports_kvm, supports_virtual_media, has_dedicated_port, max_speed_mbps) VALUES (?, ?, ?, ?, ?, ?, ?, ?, ?, ?)".to_string(),
            binds: vec![
                text("Dell"),
                text("iDRAC9"),
                QueryValue::Null,
                QueryValue::Boolean(true),
                QueryValue::Boolean(true),
                QueryValue::Null,
                QueryValue::Boolean(false),
                QueryValue::Null,
                QueryValue::Boolean(true),
                QueryValue::Integer(1000),
            ],
        }
    );
}

fn builder() -> StructuredSearchBuilder {
    StructuredSearchBuilder::new().add_simple("zone", "us").add_complex(
        "status",
        vec![
            ("active".to_string(), ColumnOperation::Simple("OR".to_string())),
            (
                "idle".to_string(),
                ColumnOperation::WithComparison { comparison_operator: None, logical_operator: "OR".to_string() },
            ),
            (
                "gone".to_string(),
                ColumnOperation::WithComparison {
                    comparison_operator: Some("!=".to_string()),
                    logical_operator: "OR".to_string(),
                },
            ),
        ],
    )
}

#[test]
fn a_built_search_is_written_as_json() {
    assert_eq!(
        builder().to_json().unwrap(),
        r#"{"status":{"active":"OR","gone":{"logical":"OR","op":"!="},"idle":{"logical":"OR","op":null}},"zone":"us"}"#
    );
    let pretty = builder().to_json_pretty().unwrap();
    assert!(pretty.starts_with("{\n  \"status\": {\n    \"active\": \"OR\","), "{}", pretty);
    assert_eq!(StructuredSearchBuilder::new().to_json().unwrap(), "{}");
}

#[test]
fn a_written_search_reads_back_as_the_search() {
    let document = builder().to_document();
    let from_document = SearchQueryBuilder::structured_conditions_from_json(&document).unwrap();
    assert_eq!(from_document, SearchQueryBuilder::build_from_structured(&builder().build()).unwrap());
    assert_eq!(SearchQueryBuilder::search_from_json(&document), Ok(builder().build()));
    let from_text = SearchQueryBuilder::build_structured_conditions(&builder().to_json().unwrap()).unwrap();
    assert_eq!(from_text.len(), 2);
    assert_eq!(from_text[0].column, "RAW_SQL");
    assert_eq!(from_text[1].column, "zone");
}

#[test]
fn timestamps_are_written_for_the_database_in_their_own_offset() {
    assert_eq!(parse_timestamp("2024-05-06T07:08:09Z"), some("2024-05-06 07:08:09"));
    assert_eq!(parse_timestamp("2024-05-06T07:08:09+02:00"), some("2024-05-06 07:08:09"));
    assert_eq!(parse_timestamp("2024-05-06T07:08:09.123456-08:00"), some("2024-05-06 07:08:09"));
    assert_eq!(parse_timestamp("2016-12-31T23:59:60Z"), some("2016-12-31 23:59:60"));
    assert_eq!(parse_timestamp("0987-01-02T03:04:05Z"), some("0987-01-02 03:04:05"));
    assert_eq!(parse_timestamp("2024-05-06 07:08:09"), None);
    assert_eq!(parse_timestamp("yesterday"), None);
    assert_eq!(parse_timestamp(""), None);
}

fn cluster() -> K8sInventory {
    K8sInventory {
        cluster_name: "prod".to_string(),
        cluster_version: "1.29".to_string(),
        api_server: "https://10.0.0.1:6443".to_string(),
        nodes: Vec::new(),
        namespaces: Vec::new(),
        pods: None,
        services: None,
        workloads: None,
    }
}

#[test]
fn a_cluster_is_created_or_updated() {
    assert_eq!(
        KubernetesRepository::get_cluster_by_name("prod"),
        SqlStatement {
            sql: "SELECT * FROM kubernetes_clusters WHERE cluster_name = ?".to_string(),
            binds: vec![text("prod")],
        }
    );
    assert_eq!(
        KubernetesRepository::upsert_cluster_from_inventory(&cluster(), None, "2024-05-06 07:08:09"),
        ClusterUpsert::Create {
            statement: SqlStatement {
                sql: "INSERT INTO kubernetes_clusters (cluster_name, cluster_version, api_server_endpoint, cluster_state, cluster_status) VALUES (?, ?, ?, 'ready', 'active')".to_string(),
                binds: vec![text("prod"), text("1.29"), text("https://10.0.0.1:6443")],
            },
        }
    );
    assert_eq!(
        KubernetesRepository::upsert_cluster_from_inventory(&cluster(), Some(3), "2024-05-06 07:08:09"),
        ClusterUpsert::Update {
            cluster_id: 3,
            statement: SqlStatement {
                sql: "UPDATE kubernetes_clusters SET cluster_version = ?, api_server_endpoint = ?, last_health_check = ?, updated_at = NOW() WHERE cluster_id = ?".to_string(),
                binds: vec![text("1.29"), text("https://10.0.0.1:6443"), text("2024-05-06 07:08:09"), QueryValue::Integer(3)],
            },
        }
    );
}

#[test]
fn a_namespace_is_stored_with_its_documents_as_json_text() {
    let namespace = K8sNamespaceInventory {
        namespace_name: "default".to_string(),
        namespace_uid: some("uid-1"),
        namespace_state: None,
        labels: Some(object(&[("team", "core")])),
        annotations: None,
    };
    assert_eq!(
        KubernetesRepository::find_namespace(3, "default"),
        SqlStatement {
            sql: "SELECT namespace_id FROM kubernetes_namespaces WHERE cluster_id = ? AND namespace_name = ?".to_string(),
            binds: vec![QueryValue::Integer(3), text("default")],
        }
    );
    assert_eq!(
        KubernetesRepository::upsert_namespace(3, &namespace, None),
        Ok(SqlStatement {
            sql: "INSERT INTO kubernetes_namespaces (cluster_id, namespace_name, namespace_uid, namespace_state, labels, annotations) VALUES (?, ?, ?, ?, ?, ?)".to_string(),
            binds: vec![
                QueryValue::Integer(3),
                text("default"),
                text("uid-1"),
                text("Active"),
                text(r#"{"team":"core"}"#),
                QueryValue::Null,
            ],
        })
    );
    assert_eq!(
        KubernetesRepository::upsert_namespace(3, &namespace, Some(8)),
        Ok(SqlStatement {
            sql: "UPDATE kubernetes_namespaces SET namespace_state = ?, labels = ?, annotations = ?, updated_at = NOW() WHERE namespace_id = ?".to_string(),
            binds: vec![text("Active"), text(r#"{"team":"core"}"#), QueryValue::Null, QueryValue::Integer(8)],
        })
    );
    let broken = K8sNamespaceInventory {
        namespace_name: "odd".to_string(),
        namespace_uid: None,
        namespace_state: some("Terminating"),
        labels: None,
        annotations: Some(JsonValue::Array(vec![JsonValue::Number("12abc".to_string())])),
    };
    assert_eq!(
        KubernetesRepository::upsert_namespace(3, &broken, None),
        Err(Failure::validation("Cannot store the namespace 'odd': it holds a document that is no JSON".to_string()))
    );
}

#[test]
fn documents_are_written_as_serde_json_writes_them() {
    let odd = K8sNamespaceInventory {
        namespace_name: "n".to_string(),
        namespace_uid: None,
        namespace_state: None,
        labels: Some(JsonValue::Object(vec![
            ("b".to_string(), JsonValue::Array(vec![JsonValue::Null, JsonValue::Bool(true), JsonValue::Number("-1.5e3".to_string())])),
            ("a".to_string(), JsonValue::Text("q\"uote\n".to_string())),
        ])),
        annotations: Some(JsonValue::Number("18446744073709551615".to_string())),
    };
    let statement = KubernetesRepository::upsert_namespace(1, &odd, Some(2)).unwrap();
    assert_eq!(statement.binds[1], text(r#"{"a":"q\"uote\n","b":[null,true,-1500.0]}"#));
    assert_eq!(statement.binds[2], text("18446744073709551615"));
}

fn node() -> K8sNodeInventory {
    K8sNodeInventory {
        node_name: "worker-1".to_string(),
        node_uid: None,
        node_type: None,
        internal_ip: some("10.0.0.11"),
        external_ip: None,
        hostname: some("worker-1"),
        cpu_capacity: Some(32),
        memory_capacity_mb: Some(131072),
        pod_capacity: Some(110),
        node_state: None,
        kubelet_version: some("v1.29.0"),
        os_image: None,
        kernel_version: None,
        container_runtime_version: None,
        roles: some("worker"),
        labels: None,
        taints: Some(JsonValue::Array(Vec::new())),
    }
}

#[test]
fn a_node_is_stored_with_defaults_for_its_type_and_state() {
    let attributes = vec![
        QueryValue::Null,
        text("worker"),
        text("10.0.0.11"),
        QueryValue::Null,
        text("worker-1"),
        QueryValue::Integer(32),
        QueryValue::Integer(131072),
        QueryValue::Integer(110),
        text("unknown"),
        text("v1.29.0"),
        QueryValue::Null,
        QueryValue::Null,
        QueryValue::Null,
        text("worker"),
        QueryValue::Null,
        text("[]"),
    ];
    let mut inserted = vec![QueryValue::Integer(3), text("worker-1")];
    inserted.extend(attributes.iter().cloned());
    assert_eq!(
        KubernetesRepository::upsert_node(3, &node(), None),
        Ok(SqlStatement {
            sql: "INSERT INTO kubernetes_nodes (cluster_id, node_name, node_uid, node_type, internal_ip, external_ip, hostname, cpu_capacity, memory_capacity_mb, pod_capacity, node_state, kubelet_version, os_image, kernel_version, container_runtime_version, roles, labels, taints) VALUES (?, ?, ?, ?, ?, ?, ?, ?, ?, ?, ?, ?, ?, ?, ?, ?, ?, ?)".to_string(),
            binds: inserted,
        })
    );
    let mut updated = attributes.clone();
    updated.push(QueryValue::Integer(21));
    assert_eq!(
        KubernetesRepository::upsert_node(3, &node(), Some(21)),
        Ok(SqlStatement {
            sql: "UPDATE kubernetes_nodes SET node_uid = ?, node_type = ?, internal_ip = ?, external_ip = ?, hostname = ?, cpu_capacity = ?, memory_capacity_mb = ?, pod_capacity = ?, node_state = ?, kubelet_version = ?, os_image = ?, kernel_version = ?, container_runtime_version = ?, roles = ?, labels = ?, taints = ?, last_heartbeat = NOW(), updated_at = NOW() WHERE k8s_node_id = ?".to_string(),
            binds: updated,
        })
    );
    assert_eq!(
        KubernetesRepository::find_node(3, "worker-1"),
        SqlStatement {
            sql: "SELECT k8s_node_id FROM kubernetes_nodes WHERE cluster_id = ? AND node_name = ?".to_string(),
            binds: vec![QueryValue::Integer(3), text("worker-1")],
        }
    );
}

#[test]
fn the_namespace_of_a_resource_is_the_last_of_its_name() {
    let namespaces = vec![("default".to_string(), 1), ("kube-system".to_string(), 2), ("default".to_string(), 3)];
    assert_eq!(KubernetesRepository::namespace_of(&namespaces, "default"), Some(3));
    assert_eq!(KubernetesRepository::namespace_of(&namespaces, "kube-system"), Some(2));
    assert_eq!(KubernetesRepository::namespace_of(&namespaces, "other"), None);
    assert_eq!(KubernetesRepository::namespace_of(&Vec::new(), "default"), None);
}

#[test]
fn a_pod_is_stored_with_its_start_time() {
    let pod = K8sPodInventory {
        pod_name: "web-0".to_string(),
        pod_uid: some("p-1"),
        namespace: "default".to_string(),
        pod_phase: None,
        node_name: some("worker-1"),
        pod_ip: some("10.244.0.5"),
        host_ip: None,
        start_time: some("2024-05-06T07:08:09Z"),
        labels: None,
        annotations: None,
    };
    assert_eq!(
        KubernetesRepository::find_pod(3, 8, "web-0"),
        SqlStatement {
            sql: "SELECT pod_id FROM kubernetes_pods WHERE cluster_id = ? AND namespace_id = ? AND pod_name = ?".to_string(),
            binds: vec![QueryValue::Integer(3), QueryValue::Integer(8), text("web-0")],
        }
    );
    assert_eq!(
        KubernetesRepository::upsert_pod(3, 8, Some(21), &pod, None),
        Ok(SqlStatement {
            sql: "INSERT INTO kubernetes_pods (cluster_id, namespace_id, pod_name, pod_uid, pod_phase, k8s_node_id, pod_ip, host_ip, started_at, labels, annotations, pod_state) VALUES (?, ?, ?, ?, ?, ?, ?, ?, ?, ?, ?, 'running')".to_string(),
            binds: vec![
                QueryValue::Integer(3),
                QueryValue::Integer(8),
                text("web-0"),
                text("p-1"),
                text("Unknown"),
                QueryValue::Integer(21),
                text("10.244.0.5"),
                QueryValue::Null,
                text("2024-05-06 07:08:09"),
                QueryValue::Null,
                QueryValue::Null,
            ],
        })
    );
    let mut unscheduled = pod;
    unscheduled.start_time = some("soon");
    unscheduled.pod_phase = some("Pending");
    assert_eq!(
        KubernetesRepository::upsert_pod(3, 8, None, &unscheduled, Some(55)),
        Ok(SqlStatement {
            sql: "UPDATE kubernetes_pods SET pod_uid = ?, pod_phase = ?, k8s_node_id = ?, pod_ip = ?, host_ip = ?, started_at = ?, labels = ?, annotations = ?, updated_at = NOW() WHERE pod_id = ?".to_string(),
            binds: vec![
                text("p-1"),
                text("Pending"),
                QueryValue::Null,
                text("10.244.0.5"),
                QueryValue::Null,
                QueryValue::Null,
                QueryValue::Null,
                QueryValue::Null,
                QueryValue::Integer(55),
            ],
        })
    );
}

#[test]
fn a_service_is_stored_with_its_external_address_as_a_list() {
    let service = K8sServiceInventory {
        service_name: "web".to_string(),
        service_uid: None,
        namespace: "default".to_string(),
        service_type: None,
        cluster_ip: some("10.96.0.10"),
        external_ip: some("203.0.113.7"),
        ports: Some(JsonValue::Array(vec![JsonValue::Number("80".to_string())])),
        selector: Some(object(&[("app", "web")])),
        labels: None,
    };
    assert_eq!(
        KubernetesRepository::external_ips(&service),
        Some(JsonValue::Array(vec![JsonValue::Text("203.0.113.7".to_string())]))
    );
    assert_eq!(
        KubernetesRepository::find_service(3, 8, "web"),
        SqlStatement {
            sql: "SELECT service_id FROM kubernetes_services WHERE cluster_id = ? AND namespace_id = ? AND service_name = ?".to_string(),
            binds: vec![QueryValue::Integer(3), QueryValue::Integer(8), text("web")],
        }
    );
    assert_eq!(
        KubernetesRepository::upsert_service(3, 8, &service, None),
        Ok(SqlStatement {
            sql: "INSERT INTO kubernetes_services (cluster_id, namespace_id, service_name, service_uid, service_type, cluster_ip, external_ips, ports, selector, labels) VALUES (?, ?, ?, ?, ?, ?, ?, ?, ?, ?)".to_string(),
            binds: vec![
                QueryValue::Integer(3),
                QueryValue::Integer(8),
                text("web"),
                QueryValue::Null,
                text("ClusterIP"),
                text("10.96.0.10"),
                text(r#"["203.0.113.7"]"#),
                text("[80]"),
                text(r#"{"app":"web"}"#),
                QueryValue::Null,
            ],
        })
    );
    let mut internal = service;
    internal.external_ip = None;
    internal.service_type = some("NodePort");
    assert_eq!(KubernetesRepository::external_ips(&internal), None);
    assert_eq!(
        KubernetesRepository::upsert_service(3, 8, &internal, Some(4)),
        Ok(SqlStatement {
            sql: "UPDATE kubernetes_services SET service_uid = ?, service_type = ?, cluster_ip = ?, external_ips = ?, ports = ?, selector = ?, labels = ?, updated_at = NOW() WHERE service_id = ?".to_string(),
            binds: vec![
                QueryValue::Null,
                text("NodePort"),
                text("10.96.0.10"),
                QueryValue::Null,
                text("[80]"),
                text(r#"{"app":"web"}"#),
                QueryValue::Null,
                QueryValue::Integer(4),
            ],
        })
    );
    internal.ports = Some(JsonValue::Number("".to_string()));
    assert_eq!(
        KubernetesRepository::upsert_service(3, 8, &internal, Some(4)),
        Err(Failure::validation("Cannot store the service 'web': it holds a document that is no JSON".to_string()))
    );
}

#[test]
fn a_workload_is_stored() {
    let workload = K8sWorkloadInventory {
        workload_name: "web".to_string(),
        workload_uid: some("w-1"),
        namespace: "default".to_string(),
        workload_type: "Deployment".to_string(),
        replicas_desired: Some(3),
        replicas_ready: Some(2),
        replicas_available: None,
        labels: None,
        selector: None,
    };
    assert_eq!(
        KubernetesRepository::find_workload(3, 8, "web"),
        SqlStatement {
            sql: "SELECT workload_id FROM kubernetes_workloads WHERE cluster_id = ? AND namespace_id = ? AND workload_name = ?".to_string(),
            binds: vec![QueryValue::Integer(3), QueryValue::Integer(8), text("web")],
        }
    );
    assert_eq!(
        KubernetesRepository::upsert_workload(3, 8, &workload, None),
        Ok(SqlStatement {
            sql: "INSERT INTO kubernetes_workloads (cluster_id, namespace_id, workload_name, workload_uid, workload_type, replicas_desired, replicas_ready, replicas_available, labels, selector) VALUES (?, ?, ?, ?, ?, ?, ?, ?, ?, ?)".to_string(),
            binds: vec![
                QueryValue::Integer(3),
                QueryValue::Integer(8),
                text("web"),
                text("w-1"),
                text("Deployment"),
                QueryValue::Integer(3),
                QueryValue::Integer(2),
                QueryValue::Null,
                QueryValue::Null,
                QueryValue::Null,
            ],
        })
    );
    assert_eq!(
        KubernetesRepository::upsert_workload(3, 8, &workload, Some(9)),
        Ok(SqlStatement {
            sql: "UPDATE kubernetes_workloads SET workload_uid = ?, workload_type = ?, replicas_desired = ?, replicas_ready = ?, replicas_available = ?, labels = ?, selector = ?, updated_at = NOW() WHERE workload_id = ?".to_string(),
            binds: vec![
                text("w-1"),
                text("Deployment"),
                QueryValue::Integer(3),
                QueryValue::Integer(2),
                QueryValue::Null,
                QueryValue::Null,
                QueryValue::Null,
                QueryValue::Integer(9),
            ],
        })
    );
}

#[test]
fn clusters_and_nodes_are_updated_by_named_fields() {
    let updates = vec![("description".to_string(), JsonValue::Text("main".to_string()))];
    assert_eq!(
        KubernetesRepository::update_cluster(3, &updates).unwrap().unwrap().sql,
        "UPDATE kubernetes_clusters SET description = ?, updated_at = NOW() WHERE cluster_id = ?"
    );
    assert_eq!(
        KubernetesRepository::update_node(21, &updates),
        Err(Failure::validation("Field 'description' does not exist in KubernetesNode model".to_string()))
    );
    let hostname = vec![("hostname".to_string(), JsonValue::Text("n1".to_string()))];
    assert_eq!(
        KubernetesRepository::update_node(21, &hostname).unwrap().unwrap().sql,
        "UPDATE kubernetes_nodes SET hostname = ?, updated_at = NOW() WHERE k8s_node_id = ?"
    );
    assert_eq!(
        KubernetesRepository::update_cluster(3, &hostname),
        Err(Failure::validation("Field 'hostname' does not exist in KubernetesCluster model".to_string()))
    );
    let mixed = vec![
        ("description".to_string(), JsonValue::Array(Vec::new())),
        ("colour".to_string(), JsonValue::Text("red".to_string())),
    ];
    assert_eq!(
        KubernetesRepository::update_cluster(3, &mixed),
        Err(Failure::validation("Field 'colour' does not exist in KubernetesCluster model".to_string()))
    );
    assert_eq!(
        KubernetesRepository::update_cluster(
            3,
            &vec![("description".to_string(), JsonValue::Array(Vec::new()))]
        ),
        Err(Failure::validation("Unsupported value type for field 'description'".to_string()))
    );
    let protected = vec![("cluster_id".to_string(), JsonValue::Number("1".to_string()))];
    assert_eq!(
        KubernetesRepository::update_cluster(3, &protected),
        Err(Failure::validation("Field 'cluster_id' is not allowed to be updated".to_string()))
    );
    assert!(KubernetesRepository::update_node(3, &protected).is_ok());
    assert_eq!(KubernetesRepository::update_node(3, &Vec::new()), Ok(None));
    let node_key = vec![("k8s_node_id".to_string(), JsonValue::Number("1".to_string()))];
    assert_eq!(
        KubernetesRepository::update_node(3, &node_key),
        Err(Failure::validation("Field 'k8s_node_id' is not allowed to be updated".to_string()))
    );
}
