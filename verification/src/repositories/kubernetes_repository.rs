//! The inventory of a Kubernetes cluster: the snapshot that an agent
//! submits, and the statements that store it. Every resource of the snapshot
//! is looked up by its name and then updated or inserted; nothing is deleted.

use crate::database::database_helper::{
    first_model_fault, optional_statement, update_statement, DatabaseHelper,
};
use crate::database::query_builder::{SqlStatement, Statement};
use crate::dates::{database_time, parse_timestamp};
use crate::json::{json_text, write_json, JsonTree, JsonValue};
use crate::models::query::{number_or_null, text_or_null, views, QueryValue, SqlValue};
use crate::repositories::component_repository::long_or_null;
use crate::repositories::server_repository::view_or_null;
use crate::text::same_text;
use crate::errors::{validation_error, Failure};
use vstd::prelude::*;

verus! {

/// What an agent submits about one cluster.
#[derive(Debug, PartialEq, Eq)]
pub struct K8sInventory {
    pub cluster_name: String,
    pub cluster_version: String,
    pub api_server: String,
    pub nodes: Vec<K8sNodeInventory>,
    pub namespaces: Vec<K8sNamespaceInventory>,
    pub pods: Option<Vec<K8sPodInventory>>,
    pub services: Option<Vec<K8sServiceInventory>>,
    pub workloads: Option<Vec<K8sWorkloadInventory>>,
}

/// A node of a cluster.
#[derive(Debug, PartialEq, Eq)]
pub struct K8sNodeInventory {
    pub node_name: String,
    pub node_uid: Option<String>,
    pub node_type: Option<String>,
    pub internal_ip: Option<String>,
    pub external_ip: Option<String>,
    pub hostname: Option<String>,
    pub cpu_capacity: Option<i32>,
    pub memory_capacity_mb: Option<i64>,
    pub pod_capacity: Option<i32>,
    pub node_state: Option<String>,
    pub kubelet_version: Option<String>,
    pub os_image: Option<String>,
    pub kernel_version: Option<String>,
    pub container_runtime_version: Option<String>,
    pub roles: Option<String>,
    pub labels: Option<JsonValue>,
    pub taints: Option<JsonValue>,
}

/// A namespace of a cluster.
#[derive(Debug, PartialEq, Eq)]
pub struct K8sNamespaceInventory {
    pub namespace_name: String,
    pub namespace_uid: Option<String>,
    pub namespace_state: Option<String>,
    pub labels: Option<JsonValue>,
    pub annotations: Option<JsonValue>,
}

/// A pod, in the namespace that it names.
#[derive(Debug, PartialEq, Eq)]
pub struct K8sPodInventory {
    pub pod_name: String,
    pub pod_uid: Option<String>,
    pub namespace: String,
    pub pod_phase: Option<String>,
    pub node_name: Option<String>,
    pub pod_ip: Option<String>,
    pub host_ip: Option<String>,
    pub start_time: Option<String>,
    pub labels: Option<JsonValue>,
    pub annotations: Option<JsonValue>,
}

/// A service, in the namespace that it names.
#[derive(Debug, PartialEq, Eq)]
pub struct K8sServiceInventory {
    pub service_name: String,
    pub service_uid: Option<String>,
    pub namespace: String,
    pub service_type: Option<String>,
    pub cluster_ip: Option<String>,
    pub external_ip: Option<String>,
    pub ports: Option<JsonValue>,
    pub selector: Option<JsonValue>,
    pub labels: Option<JsonValue>,
}

/// A workload, in the namespace that it names.
#[derive(Debug, PartialEq, Eq)]
pub struct K8sWorkloadInventory {
    pub workload_name: String,
    pub workload_uid: Option<String>,
    pub namespace: String,
    pub workload_type: String,
    pub replicas_desired: Option<i32>,
    pub replicas_ready: Option<i32>,
    pub replicas_available: Option<i32>,
    pub labels: Option<JsonValue>,
    pub selector: Option<JsonValue>,
}

/// The text, or `fallback` where there is none.
pub open spec fn text_or(text: Option<String>, fallback: Seq<char>) -> SqlValue {
    match text {
        Some(t) => SqlValue::Text(t@),
        None => SqlValue::Text(fallback),
    }
}

fn text_or_of(text: &Option<String>, fallback: &str) -> (value: QueryValue)
    ensures
        value@ == text_or(*text, fallback@),
{
    match text {
        Some(t) => QueryValue::String(t.clone()),
        None => QueryValue::String(fallback.to_owned()),
    }
}

/// A JSON tree as the database takes it: its text on one line, or `NULL`
/// where there is none; nothing where the tree cannot be written.
pub open spec fn tree_bound(tree: Option<JsonTree>) -> Option<SqlValue> {
    match tree {
        Some(document) => match json_text(document) {
            Some(text) => Some(SqlValue::Text(text)),
            None => None,
        },
        None => Some(SqlValue::Null),
    }
}

/// A JSON document as the database takes it.
pub open spec fn json_bound(json: Option<JsonValue>) -> Option<SqlValue> {
    match json {
        Some(document) => tree_bound(Some(document@)),
        None => tree_bound(None),
    }
}

fn json_bind(json: &Option<JsonValue>) -> (value: Option<QueryValue>)
    ensures
        match json_bound(*json) {
            Some(v) => value is Some && value->0@ == v,
            None => value is None,
        },
{
    match json {
        Some(document) => match write_json(document) {
            Ok(text) => Some(QueryValue::String(text)),
            Err(_) => None,
        },
        None => Some(QueryValue::Null),
    }
}

/// The message for a resource whose labels, or other documents, cannot be
/// written.
pub open spec fn document_fault(kind: Seq<char>, name: Seq<char>) -> Seq<char> {
    "Cannot store the "@ + kind + " '"@ + name + "': it holds a document that is no JSON"@
}

fn document_fault_of(kind: &str, name: &str) -> (failure: Failure)
    ensures
        failure@ == validation_error(document_fault(kind@, name@)),
{
    let mut message = crate::text::joined("Cannot store the ", kind);
    message.append(" '");
    message.append(name);
    message.append("': it holds a document that is no JSON");
    Failure::validation(message)
}

/// The query that finds a cluster by its name.
pub open spec fn cluster_lookup(cluster_name: Seq<char>) -> Statement {
    Statement {
        sql: "SELECT * FROM kubernetes_clusters WHERE cluster_name = ?"@,
        binds: seq![SqlValue::Text(cluster_name)],
    }
}

/// The statement that stores a new cluster.
pub open spec fn cluster_insert(inventory: K8sInventory) -> Statement {
    Statement {
        sql: "INSERT INTO kubernetes_clusters (cluster_name, cluster_version, api_server_endpoint, cluster_state, cluster_status) VALUES (?, ?, ?, 'ready', 'active')"@,
        binds: seq![
            SqlValue::Text(inventory.cluster_name@),
            SqlValue::Text(inventory.cluster_version@),
            SqlValue::Text(inventory.api_server@),
        ],
    }
}

/// The update of a stored cluster; `now` is the time of the health check.
pub open spec fn cluster_update(cluster_id: int, inventory: K8sInventory, now: Seq<char>) -> Statement {
    Statement {
        sql: "UPDATE kubernetes_clusters SET cluster_version = ?, api_server_endpoint = ?, last_health_check = ?, updated_at = NOW() WHERE cluster_id = ?"@,
        binds: seq![
            SqlValue::Text(inventory.cluster_version@),
            SqlValue::Text(inventory.api_server@),
            SqlValue::Text(now),
            SqlValue::Integer(cluster_id),
        ],
    }
}

/// The query that finds a namespace of a cluster by its name.
pub open spec fn namespace_lookup(cluster_id: int, name: Seq<char>) -> Statement {
    Statement {
        sql: "SELECT namespace_id FROM kubernetes_namespaces WHERE cluster_id = ? AND namespace_name = ?"@,
        binds: seq![SqlValue::Integer(cluster_id), SqlValue::Text(name)],
    }
}

/// The statement that stores a namespace: the update of the row that the
/// lookup found, or the insert of a new one.
pub open spec fn namespace_upsert(
    cluster_id: int,
    namespace: K8sNamespaceInventory,
    existing: Option<i32>,
) -> Option<Statement> {
    match (json_bound(namespace.labels), json_bound(namespace.annotations)) {
        (Some(labels), Some(annotations)) => Some(
            match existing {
                Some(id) => Statement {
                    sql: "UPDATE kubernetes_namespaces SET namespace_state = ?, labels = ?, annotations = ?, updated_at = NOW() WHERE namespace_id = ?"@,
                    binds: seq![
                        text_or(namespace.namespace_state, "Active"@),
                        labels,
                        annotations,
                        SqlValue::Integer(id as int),
                    ],
                },
                None => Statement {
                    sql: "INSERT INTO kubernetes_namespaces (cluster_id, namespace_name, namespace_uid, namespace_state, labels, annotations) VALUES (?, ?, ?, ?, ?, ?)"@,
                    binds: seq![
                        SqlValue::Integer(cluster_id),
                        SqlValue::Text(namespace.namespace_name@),
                        text_or_null(namespace.namespace_uid),
                        text_or(namespace.namespace_state, "Active"@),
                        labels,
                        annotations,
                    ],
                },
            },
        ),
        _ => None,
    }
}

/// The query that finds a node of a cluster by its name.
pub open spec fn node_lookup(cluster_id: int, name: Seq<char>) -> Statement {
    Statement {
        sql: "SELECT k8s_node_id FROM kubernetes_nodes WHERE cluster_id = ? AND node_name = ?"@,
        binds: seq![SqlValue::Integer(cluster_id), SqlValue::Text(name)],
    }
}

/// What a node binds, behind what identifies it: its attributes in the
/// order of the columns.
pub open spec fn node_binds(node: K8sNodeInventory, labels: SqlValue, taints: SqlValue) -> Seq<
    SqlValue,
> {
    seq![
        text_or_null(node.node_uid),
        text_or(node.node_type, "worker"@),
        text_or_null(node.internal_ip),
        text_or_null(node.external_ip),
        text_or_null(node.hostname),
        number_or_null(node.cpu_capacity),
        long_or_null(node.memory_capacity_mb),
        number_or_null(node.pod_capacity),
        text_or(node.node_state, "unknown"@),
        text_or_null(node.kubelet_version),
        text_or_null(node.os_image),
        text_or_null(node.kernel_version),
        text_or_null(node.container_runtime_version),
        text_or_null(node.roles),
        labels,
        taints,
    ]
}

/// The statement that stores a node.
pub open spec fn node_upsert(cluster_id: int, node: K8sNodeInventory, existing: Option<i32>) -> Option<
    Statement,
> {
    match (json_bound(node.labels), json_bound(node.taints)) {
        (Some(labels), Some(taints)) => Some(
            match existing {
                Some(id) => Statement {
                    sql: "UPDATE kubernetes_nodes SET node_uid = ?, node_type = ?, internal_ip = ?, external_ip = ?, hostname = ?, cpu_capacity = ?, memory_capacity_mb = ?, pod_capacity = ?, node_state = ?, kubelet_version = ?, os_image = ?, kernel_version = ?, container_runtime_version = ?, roles = ?, labels = ?, taints = ?, last_heartbeat = NOW(), updated_at = NOW() WHERE k8s_node_id = ?"@,
                    binds: node_binds(node, labels, taints).push(SqlValue::Integer(id as int)),
                },
                None => Statement {
                    sql: "INSERT INTO kubernetes_nodes (cluster_id, node_name, node_uid, node_type, internal_ip, external_ip, hostname, cpu_capacity, memory_capacity_mb, pod_capacity, node_state, kubelet_version, os_image, kernel_version, container_runtime_version, roles, labels, taints) VALUES (?, ?, ?, ?, ?, ?, ?, ?, ?, ?, ?, ?, ?, ?, ?, ?, ?, ?)"@,
                    binds: seq![SqlValue::Integer(cluster_id), SqlValue::Text(node.node_name@)]
                        + node_binds(node, labels, taints),
                },
            },
        ),
        _ => None,
    }
}

/// The identifier under which the namespaces of a snapshot know `name`: that
/// of the last namespace of that name.
pub open spec fn namespace_id(namespaces: Seq<(String, i32)>, name: Seq<char>) -> Option<i32>
    decreases namespaces.len(),
{
    if namespaces.len() == 0 {
        None
    } else if namespaces.last().0@ == name {
        Some(namespaces.last().1)
    } else {
        namespace_id(namespaces.drop_last(), name)
    }
}

/// The query that finds a pod of a namespace by its name.
pub open spec fn pod_lookup(cluster_id: int, namespace_id: int, name: Seq<char>) -> Statement {
    Statement {
        sql: "SELECT pod_id FROM kubernetes_pods WHERE cluster_id = ? AND namespace_id = ? AND pod_name = ?"@,
        binds: seq![
            SqlValue::Integer(cluster_id),
            SqlValue::Integer(namespace_id),
            SqlValue::Text(name),
        ],
    }
}

/// When a pod started, as the database takes it.
pub open spec fn started_at(pod: K8sPodInventory) -> SqlValue {
    match pod.start_time {
        Some(text) => view_or_null(database_time(text@)),
        None => SqlValue::Null,
    }
}

/// The statement that stores a pod of the namespace `namespace_id`, on the
/// node `node_id` where the lookup of its node found one.
pub open spec fn pod_upsert(
    cluster_id: int,
    namespace_id: int,
    node_id: Option<i32>,
    pod: K8sPodInventory,
    existing: Option<i32>,
) -> Option<Statement> {
    match (json_bound(pod.labels), json_bound(pod.annotations)) {
        (Some(labels), Some(annotations)) => Some(
            match existing {
                Some(id) => Statement {
                    sql: "UPDATE kubernetes_pods SET pod_uid = ?, pod_phase = ?, k8s_node_id = ?, pod_ip = ?, host_ip = ?, started_at = ?, labels = ?, annotations = ?, updated_at = NOW() WHERE pod_id = ?"@,
                    binds: seq![
                        text_or_null(pod.pod_uid),
                        text_or(pod.pod_phase, "Unknown"@),
                        number_or_null(node_id),
                        text_or_null(pod.pod_ip),
                        text_or_null(pod.host_ip),
                        started_at(pod),
                        labels,
                        annotations,
                        SqlValue::Integer(id as int),
                    ],
                },
                None => Statement {
                    sql: "INSERT INTO kubernetes_pods (cluster_id, namespace_id, pod_name, pod_uid, pod_phase, k8s_node_id, pod_ip, host_ip, started_at, labels, annotations, pod_state) VALUES (?, ?, ?, ?, ?, ?, ?, ?, ?, ?, ?, 'running')"@,
                    binds: seq![
                        SqlValue::Integer(cluster_id),
                        SqlValue::Integer(namespace_id),
                        SqlValue::Text(pod.pod_name@),
                        text_or_null(pod.pod_uid),
                        text_or(pod.pod_phase, "Unknown"@),
                        number_or_null(node_id),
                        text_or_null(pod.pod_ip),
                        text_or_null(pod.host_ip),
                        started_at(pod),
                        labels,
                        annotations,
                    ],
                },
            },
        ),
        _ => None,
    }
}

/// The query that finds a service of a namespace by its name.
pub open spec fn service_lookup(cluster_id: int, namespace_id: int, name: Seq<char>) -> Statement {
    Statement {
        sql: "SELECT service_id FROM kubernetes_services WHERE cluster_id = ? AND namespace_id = ? AND service_name = ?"@,
        binds: seq![
            SqlValue::Integer(cluster_id),
            SqlValue::Integer(namespace_id),
            SqlValue::Text(name),
        ],
    }
}

/// The external addresses of a service as a JSON tree: the list of its one
/// address, where it has one.
pub open spec fn external_tree(service: K8sServiceInventory) -> Option<JsonTree> {
    match service.external_ip {
        Some(address) => Some(JsonTree::Array(seq![JsonTree::Text(address@)])),
        None => None,
    }
}

/// The statement that stores a service of the namespace `namespace_id`.
pub open spec fn service_upsert(
    cluster_id: int,
    namespace_id: int,
    service: K8sServiceInventory,
    existing: Option<i32>,
) -> Option<Statement> {
    match (
        tree_bound(external_tree(service)),
        json_bound(service.ports),
        json_bound(service.selector),
        json_bound(service.labels),
    ) {
        (Some(addresses), Some(ports), Some(selector), Some(labels)) => Some(
            match existing {
                Some(id) => Statement {
                    sql: "UPDATE kubernetes_services SET service_uid = ?, service_type = ?, cluster_ip = ?, external_ips = ?, ports = ?, selector = ?, labels = ?, updated_at = NOW() WHERE service_id = ?"@,
                    binds: seq![
                        text_or_null(service.service_uid),
                        text_or(service.service_type, "ClusterIP"@),
                        text_or_null(service.cluster_ip),
                        addresses,
                        ports,
                        selector,
                        labels,
                        SqlValue::Integer(id as int),
                    ],
                },
                None => Statement {
                    sql: "INSERT INTO kubernetes_services (cluster_id, namespace_id, service_name, service_uid, service_type, cluster_ip, external_ips, ports, selector, labels) VALUES (?, ?, ?, ?, ?, ?, ?, ?, ?, ?)"@,
                    binds: seq![
                        SqlValue::Integer(cluster_id),
                        SqlValue::Integer(namespace_id),
                        SqlValue::Text(service.service_name@),
                        text_or_null(service.service_uid),
                        text_or(service.service_type, "ClusterIP"@),
                        text_or_null(service.cluster_ip),
                        addresses,
                        ports,
                        selector,
                        labels,
                    ],
                },
            },
        ),
        _ => None,
    }
}

/// The query that finds a workload of a namespace by its name.
pub open spec fn workload_lookup(cluster_id: int, namespace_id: int, name: Seq<char>) -> Statement {
    Statement {
        sql: "SELECT workload_id FROM kubernetes_workloads WHERE cluster_id = ? AND namespace_id = ? AND workload_name = ?"@,
        binds: seq![
            SqlValue::Integer(cluster_id),
            SqlValue::Integer(namespace_id),
            SqlValue::Text(name),
        ],
    }
}

/// The statement that stores a workload of the namespace `namespace_id`.
pub open spec fn workload_upsert(
    cluster_id: int,
    namespace_id: int,
    workload: K8sWorkloadInventory,
    existing: Option<i32>,
) -> Option<Statement> {
    match (json_bound(workload.labels), json_bound(workload.selector)) {
        (Some(labels), Some(selector)) => Some(
            match existing {
                Some(id) => Statement {
                    sql: "UPDATE kubernetes_workloads SET workload_uid = ?, workload_type = ?, replicas_desired = ?, replicas_ready = ?, replicas_available = ?, labels = ?, selector = ?, updated_at = NOW() WHERE workload_id = ?"@,
                    binds: seq![
                        text_or_null(workload.workload_uid),
                        SqlValue::Text(workload.workload_type@),
                        number_or_null(workload.replicas_desired),
                        number_or_null(workload.replicas_ready),
                        number_or_null(workload.replicas_available),
                        labels,
                        selector,
                        SqlValue::Integer(id as int),
                    ],
                },
                None => Statement {
                    sql: "INSERT INTO kubernetes_workloads (cluster_id, namespace_id, workload_name, workload_uid, workload_type, replicas_desired, replicas_ready, replicas_available, labels, selector) VALUES (?, ?, ?, ?, ?, ?, ?, ?, ?, ?)"@,
                    binds: seq![
                        SqlValue::Integer(cluster_id),
                        SqlValue::Integer(namespace_id),
                        SqlValue::Text(workload.workload_name@),
                        text_or_null(workload.workload_uid),
                        SqlValue::Text(workload.workload_type@),
                        number_or_null(workload.replicas_desired),
                        number_or_null(workload.replicas_ready),
                        number_or_null(workload.replicas_available),
                        labels,
                        selector,
                    ],
                },
            },
        ),
        _ => None,
    }
}

/// The columns of a cluster.
pub open spec fn cluster_fields() -> Seq<Seq<char>> {
    seq![
        "cluster_id"@,
        "cluster_name"@,
        "cluster_uuid"@,
        "description"@,
        "cluster_version"@,
        "api_server_endpoint"@,
        "cluster_domain"@,
        "distribution"@,
        "distribution_version"@,
        "service_cidr"@,
        "pod_cidr"@,
        "cni_plugin"@,
        "cni_version"@,
        "container_runtime"@,
        "runtime_version"@,
        "cluster_state"@,
        "cluster_status"@,
        "is_ha_enabled"@,
        "control_plane_nodes"@,
        "kubeconfig_path"@,
        "certificate_authority_data"@,
        "rbac_enabled"@,
        "network_policy_enabled"@,
        "pod_security_policy_enabled"@,
        "admission_controllers"@,
        "monitoring_enabled"@,
        "monitoring_stack"@,
        "logging_enabled"@,
        "logging_stack"@,
        "created_by"@,
        "managed_by"@,
        "organization"@,
        "environment"@,
        "created_at"@,
        "updated_at"@,
        "provisioned_at"@,
        "last_health_check"@,
        "labels"@,
        "annotations"@,
        "tags"@,
    ]
}

/// The columns of a node.
pub open spec fn node_fields() -> Seq<Seq<char>> {
    seq![
        "k8s_node_id"@,
        "cluster_id"@,
        "node_group_id"@,
        "server_id"@,
        "vm_id"@,
        "node_name"@,
        "node_uuid"@,
        "node_uid"@,
        "node_type"@,
        "internal_ip"@,
        "external_ip"@,
        "hostname"@,
        "cpu_capacity"@,
        "memory_capacity_mb"@,
        "pod_capacity"@,
        "ephemeral_storage_gb"@,
        "cpu_allocatable"@,
        "memory_allocatable_mb"@,
        "pod_allocatable"@,
        "node_state"@,
        "is_schedulable"@,
        "is_cordoned"@,
        "ready_condition"@,
        "memory_pressure"@,
        "disk_pressure"@,
        "pid_pressure"@,
        "network_unavailable"@,
        "os_image"@,
        "os_architecture"@,
        "kernel_version"@,
        "container_runtime_version"@,
        "kubelet_version"@,
        "kube_proxy_version"@,
        "roles"@,
        "labels"@,
        "taints"@,
        "annotations"@,
        "created_at"@,
        "updated_at"@,
        "registered_at"@,
        "last_heartbeat"@,
    ]
}

/// The columns of a cluster that no update may set.
pub open spec fn cluster_protected() -> Seq<Seq<char>> {
    seq!["cluster_id"@, "created_at"@, "updated_at"@]
}

/// The columns of a node that no update may set.
pub open spec fn node_protected() -> Seq<Seq<char>> {
    seq!["k8s_node_id"@, "created_at"@, "updated_at"@]
}

/// What is done with the cluster of a snapshot.
#[derive(Debug, PartialEq, Eq)]
pub enum ClusterUpsert {
    /// The cluster is stored under `cluster_id`; `statement` updates it.
    Update { cluster_id: i32, statement: SqlStatement },
    /// The cluster is new; `statement` stores it, and its identifier is the
    /// one that the database gives it.
    Create { statement: SqlStatement },
}

/// A statement, or the fault of the resource of kind `kind` that is named
/// `name`: a validation error, for the snapshot holds what cannot be stored.
pub open spec fn stored_or_fault(
    result: Result<SqlStatement, Failure>,
    statement: Option<Statement>,
    kind: Seq<char>,
    name: Seq<char>,
) -> bool {
    match statement {
        Some(s) => result is Ok && result->Ok_0@ == s,
        None => result is Err && result->Err_0@ == validation_error(document_fault(kind, name)),
    }
}

fn lookup_in_cluster(sql: &str, cluster_id: i32, name: &str) -> (statement: SqlStatement)
    ensures
        statement@ == (Statement {
            sql: sql@,
            binds: seq![SqlValue::Integer(cluster_id as int), SqlValue::Text(name@)],
        }),
{
    let mut binds = Vec::new();
    binds.push(QueryValue::Integer(cluster_id as i64));
    binds.push(QueryValue::String(name.to_owned()));
    assert(views(binds@) =~= seq![SqlValue::Integer(cluster_id as int), SqlValue::Text(name@)]);
    SqlStatement::with_binds(sql, binds)
}

fn lookup_in_namespace(sql: &str, cluster_id: i32, namespace_id: i32, name: &str) -> (statement:
    SqlStatement)
    ensures
        statement@ == (Statement {
            sql: sql@,
            binds: seq![
                SqlValue::Integer(cluster_id as int),
                SqlValue::Integer(namespace_id as int),
                SqlValue::Text(name@),
            ],
        }),
{
    let mut binds = Vec::new();
    binds.push(QueryValue::Integer(cluster_id as i64));
    binds.push(QueryValue::Integer(namespace_id as i64));
    binds.push(QueryValue::String(name.to_owned()));
    assert(views(binds@) =~= seq![
        SqlValue::Integer(cluster_id as int),
        SqlValue::Integer(namespace_id as int),
        SqlValue::Text(name@),
    ]);
    SqlStatement::with_binds(sql, binds)
}

/// The decisions of the repository of clusters.
pub struct KubernetesRepository;

impl KubernetesRepository {
    /// The query that finds a cluster by its name.
    pub fn get_cluster_by_name(cluster_name: &str) -> (statement: SqlStatement)
        ensures
            statement@ == cluster_lookup(cluster_name@),
    {
        let mut binds = Vec::new();
        binds.push(QueryValue::String(cluster_name.to_owned()));
        assert(views(binds@) =~= seq![SqlValue::Text(cluster_name@)]);
        SqlStatement::with_binds("SELECT * FROM kubernetes_clusters WHERE cluster_name = ?", binds)
    }

    /// What is done with the cluster of a snapshot: it is updated where the
    /// lookup by name found it, and created where it did not. `now` is the
    /// time of the submission, as the database takes it.
    pub fn upsert_cluster_from_inventory(inventory: &K8sInventory, existing: Option<i32>, now: &str) -> (action:
        ClusterUpsert)
        ensures
            match existing {
                Some(id) => action matches ClusterUpsert::Update { cluster_id, statement }
                    && cluster_id == id && statement@ == cluster_update(id as int, *inventory, now@),
                None => action matches ClusterUpsert::Create { statement } && statement@
                    == cluster_insert(*inventory),
            },
    {
        match existing {
            Some(cluster_id) => {
                let mut binds = Vec::new();
                binds.push(QueryValue::String(inventory.cluster_version.clone()));
                binds.push(QueryValue::String(inventory.api_server.clone()));
                binds.push(QueryValue::String(now.to_owned()));
                binds.push(QueryValue::Integer(cluster_id as i64));
                assert(views(binds@) =~= cluster_update(cluster_id as int, *inventory, now@).binds);
                ClusterUpsert::Update {
                    cluster_id,
                    statement: SqlStatement::with_binds(
                        "UPDATE kubernetes_clusters SET cluster_version = ?, api_server_endpoint = ?, last_health_check = ?, updated_at = NOW() WHERE cluster_id = ?",
                        binds,
                    ),
                }
            },
            None => {
                let mut binds = Vec::new();
                binds.push(QueryValue::String(inventory.cluster_name.clone()));
                binds.push(QueryValue::String(inventory.cluster_version.clone()));
                binds.push(QueryValue::String(inventory.api_server.clone()));
                assert(views(binds@) =~= cluster_insert(*inventory).binds);
                ClusterUpsert::Create {
                    statement: SqlStatement::with_binds(
                        "INSERT INTO kubernetes_clusters (cluster_name, cluster_version, api_server_endpoint, cluster_state, cluster_status) VALUES (?, ?, ?, 'ready', 'active')",
                        binds,
                    ),
                }
            },
        }
    }

    /// The query that finds a namespace of a cluster by its name.
    pub fn find_namespace(cluster_id: i32, namespace_name: &str) -> (statement: SqlStatement)
        ensures
            statement@ == namespace_lookup(cluster_id as int, namespace_name@),
    {
        lookup_in_cluster(
            "SELECT namespace_id FROM kubernetes_namespaces WHERE cluster_id = ? AND namespace_name = ?",
            cluster_id,
            namespace_name,
        )
    }

    /// The statement that stores a namespace, once the lookup has answered
    /// with `existing`.
    pub fn upsert_namespace(cluster_id: i32, namespace: &K8sNamespaceInventory, existing: Option<i32>) -> (result:
        Result<SqlStatement, Failure>)
        ensures
            stored_or_fault(
                result,
                namespace_upsert(cluster_id as int, *namespace, existing),
                "namespace"@,
                namespace.namespace_name@,
            ),
    {
        let name = namespace.namespace_name.as_str();
        let labels = match json_bind(&namespace.labels) {
            Some(value) => value,
            None => { return Err(document_fault_of("namespace", name)); },
        };
        let annotations = match json_bind(&namespace.annotations) {
            Some(value) => value,
            None => { return Err(document_fault_of("namespace", name)); },
        };
        let mut binds = Vec::new();
        match existing {
            Some(id) => {
                binds.push(text_or_of(&namespace.namespace_state, "Active"));
                binds.push(labels);
                binds.push(annotations);
                binds.push(QueryValue::Integer(id as i64));
                assert(views(binds@) =~= namespace_upsert(
                    cluster_id as int,
                    *namespace,
                    existing,
                )->0.binds);
                Ok(
                    SqlStatement::with_binds(
                        "UPDATE kubernetes_namespaces SET namespace_state = ?, labels = ?, annotations = ?, updated_at = NOW() WHERE namespace_id = ?",
                        binds,
                    ),
                )
            },
            None => {
                binds.push(QueryValue::Integer(cluster_id as i64));
                binds.push(QueryValue::String(namespace.namespace_name.clone()));
                binds.push(QueryValue::from_text(&namespace.namespace_uid));
                binds.push(text_or_of(&namespace.namespace_state, "Active"));
                binds.push(labels);
                binds.push(annotations);
                assert(views(binds@) =~= namespace_upsert(
                    cluster_id as int,
                    *namespace,
                    existing,
                )->0.binds);
                Ok(
                    SqlStatement::with_binds(
                        "INSERT INTO kubernetes_namespaces (cluster_id, namespace_name, namespace_uid, namespace_state, labels, annotations) VALUES (?, ?, ?, ?, ?, ?)",
                        binds,
                    ),
                )
            },
        }
    }

    /// The query that finds a node of a cluster by its name.
    pub fn find_node(cluster_id: i32, node_name: &str) -> (statement: SqlStatement)
        ensures
            statement@ == node_lookup(cluster_id as int, node_name@),
    {
        lookup_in_cluster(
            "SELECT k8s_node_id FROM kubernetes_nodes WHERE cluster_id = ? AND node_name = ?",
            cluster_id,
            node_name,
        )
    }

    fn node_binds_of(
        binds: &mut Vec<QueryValue>,
        node: &K8sNodeInventory,
        labels: QueryValue,
        taints: QueryValue,
    )
        ensures
            views(final(binds)@) == views(old(binds)@) + node_binds(*node, labels@, taints@),
    {
        let ghost before = binds@;
        binds.push(QueryValue::from_text(&node.node_uid));
        binds.push(text_or_of(&node.node_type, "worker"));
        binds.push(QueryValue::from_text(&node.internal_ip));
        binds.push(QueryValue::from_text(&node.external_ip));
        binds.push(QueryValue::from_text(&node.hostname));
        binds.push(QueryValue::from_number(node.cpu_capacity));
        binds.push(
            match node.memory_capacity_mb {
                Some(n) => QueryValue::Integer(n),
                None => QueryValue::Null,
            },
        );
        binds.push(QueryValue::from_number(node.pod_capacity));
        binds.push(text_or_of(&node.node_state, "unknown"));
        binds.push(QueryValue::from_text(&node.kubelet_version));
        binds.push(QueryValue::from_text(&node.os_image));
        binds.push(QueryValue::from_text(&node.kernel_version));
        binds.push(QueryValue::from_text(&node.container_runtime_version));
        binds.push(QueryValue::from_text(&node.roles));
        binds.push(labels);
        binds.push(taints);
        assert(views(binds@) =~= views(before) + node_binds(*node, labels@, taints@));
    }

    /// The statement that stores a node, once the lookup has answered with
    /// `existing`.
    pub fn upsert_node(cluster_id: i32, node: &K8sNodeInventory, existing: Option<i32>) -> (result:
        Result<SqlStatement, Failure>)
        ensures
            stored_or_fault(
                result,
                node_upsert(cluster_id as int, *node, existing),
                "node"@,
                node.node_name@,
            ),
    {
        let name = node.node_name.as_str();
        let labels = match json_bind(&node.labels) {
            Some(value) => value,
            None => { return Err(document_fault_of("node", name)); },
        };
        let taints = match json_bind(&node.taints) {
            Some(value) => value,
            None => { return Err(document_fault_of("node", name)); },
        };
        let mut binds: Vec<QueryValue> = Vec::new();
        match existing {
            Some(id) => {
                assert(views(binds@) =~= Seq::<SqlValue>::empty());
                Self::node_binds_of(&mut binds, node, labels, taints);
                let ghost before = binds@;
                binds.push(QueryValue::Integer(id as i64));
                assert(views(binds@) =~= node_upsert(cluster_id as int, *node, existing)->0.binds);
                Ok(
                    SqlStatement::with_binds(
                        "UPDATE kubernetes_nodes SET node_uid = ?, node_type = ?, internal_ip = ?, external_ip = ?, hostname = ?, cpu_capacity = ?, memory_capacity_mb = ?, pod_capacity = ?, node_state = ?, kubelet_version = ?, os_image = ?, kernel_version = ?, container_runtime_version = ?, roles = ?, labels = ?, taints = ?, last_heartbeat = NOW(), updated_at = NOW() WHERE k8s_node_id = ?",
                        binds,
                    ),
                )
            },
            None => {
                binds.push(QueryValue::Integer(cluster_id as i64));
                binds.push(QueryValue::String(node.node_name.clone()));
                assert(views(binds@) =~= seq![
                    SqlValue::Integer(cluster_id as int),
                    SqlValue::Text(node.node_name@),
                ]);
                Self::node_binds_of(&mut binds, node, labels, taints);
                Ok(
                    SqlStatement::with_binds(
                        "INSERT INTO kubernetes_nodes (cluster_id, node_name, node_uid, node_type, internal_ip, external_ip, hostname, cpu_capacity, memory_capacity_mb, pod_capacity, node_state, kubelet_version, os_image, kernel_version, container_runtime_version, roles, labels, taints) VALUES (?, ?, ?, ?, ?, ?, ?, ?, ?, ?, ?, ?, ?, ?, ?, ?, ?, ?)",
                        binds,
                    ),
                )
            },
        }
    }

    /// The identifier of the namespace that a pod, a service or a workload
    /// names, among the namespaces that were stored for the snapshot. A
    /// resource whose namespace is not among them is passed over. Where a
    /// name stands twice in the list, the last entry is the one found, as
    /// in a map that was filled in the order of the list.
    pub fn namespace_of(namespaces: &Vec<(String, i32)>, name: &str) -> (found: Option<i32>)
        ensures
            found == namespace_id(namespaces@, name@),
    {
        let mut i: usize = namespaces.len();
        assert(namespaces@.take(i as int) =~= namespaces@);
        while i > 0
            invariant
                i <= namespaces.len(),
                namespace_id(namespaces@, name@) == namespace_id(namespaces@.take(i as int), name@),
            decreases i,
        {
            assert(namespaces@.take(i as int).drop_last() =~= namespaces@.take(i - 1));
            if same_text(namespaces[i - 1].0.as_str(), name) {
                return Some(namespaces[i - 1].1);
            }
            i -= 1;
        }
        None
    }

    /// The query that finds a pod of a namespace by its name.
    pub fn find_pod(cluster_id: i32, namespace_id: i32, pod_name: &str) -> (statement: SqlStatement)
        ensures
            statement@ == pod_lookup(cluster_id as int, namespace_id as int, pod_name@),
    {
        lookup_in_namespace(
            "SELECT pod_id FROM kubernetes_pods WHERE cluster_id = ? AND namespace_id = ? AND pod_name = ?",
            cluster_id,
            namespace_id,
            pod_name,
        )
    }

    fn started_at_of(pod: &K8sPodInventory) -> (value: QueryValue)
        ensures
            value@ == started_at(*pod),
    {
        match &pod.start_time {
            Some(text) => match parse_timestamp(text.as_str()) {
                Some(written) => QueryValue::String(written),
                None => QueryValue::Null,
            },
            None => QueryValue::Null,
        }
    }

    /// The statement that stores a pod, once the lookups of the pod and of
    /// its node have answered.
    pub fn upsert_pod(
        cluster_id: i32,
        namespace_id: i32,
        node_id: Option<i32>,
        pod: &K8sPodInventory,
        existing: Option<i32>,
    ) -> (result: Result<SqlStatement, Failure>)
        ensures
            stored_or_fault(
                result,
                pod_upsert(cluster_id as int, namespace_id as int, node_id, *pod, existing),
                "pod"@,
                pod.pod_name@,
            ),
    {
        let name = pod.pod_name.as_str();
        let labels = match json_bind(&pod.labels) {
            Some(value) => value,
            None => { return Err(document_fault_of("pod", name)); },
        };
        let annotations = match json_bind(&pod.annotations) {
            Some(value) => value,
            None => { return Err(document_fault_of("pod", name)); },
        };
        let ghost wanted = pod_upsert(
            cluster_id as int,
            namespace_id as int,
            node_id,
            *pod,
            existing,
        )->0;
        let mut binds = Vec::new();
        match existing {
            Some(id) => {
                binds.push(QueryValue::from_text(&pod.pod_uid));
                binds.push(text_or_of(&pod.pod_phase, "Unknown"));
                binds.push(QueryValue::from_number(node_id));
                binds.push(QueryValue::from_text(&pod.pod_ip));
                binds.push(QueryValue::from_text(&pod.host_ip));
                binds.push(Self::started_at_of(pod));
                binds.push(labels);
                binds.push(annotations);
                binds.push(QueryValue::Integer(id as i64));
                assert(views(binds@) =~= wanted.binds);
                Ok(
                    SqlStatement::with_binds(
                        "UPDATE kubernetes_pods SET pod_uid = ?, pod_phase = ?, k8s_node_id = ?, pod_ip = ?, host_ip = ?, started_at = ?, labels = ?, annotations = ?, updated_at = NOW() WHERE pod_id = ?",
                        binds,
                    ),
                )
            },
            None => {
                binds.push(QueryValue::Integer(cluster_id as i64));
                binds.push(QueryValue::Integer(namespace_id as i64));
                binds.push(QueryValue::String(pod.pod_name.clone()));
                binds.push(QueryValue::from_text(&pod.pod_uid));
                binds.push(text_or_of(&pod.pod_phase, "Unknown"));
                binds.push(QueryValue::from_number(node_id));
                binds.push(QueryValue::from_text(&pod.pod_ip));
                binds.push(QueryValue::from_text(&pod.host_ip));
                binds.push(Self::started_at_of(pod));
                binds.push(labels);
                binds.push(annotations);
                assert(views(binds@) =~= wanted.binds);
                Ok(
                    SqlStatement::with_binds(
                        "INSERT INTO kubernetes_pods (cluster_id, namespace_id, pod_name, pod_uid, pod_phase, k8s_node_id, pod_ip, host_ip, started_at, labels, annotations, pod_state) VALUES (?, ?, ?, ?, ?, ?, ?, ?, ?, ?, ?, 'running')",
                        binds,
                    ),
                )
            },
        }
    }

    /// The query that finds a service of a namespace by its name.
    pub fn find_service(cluster_id: i32, namespace_id: i32, service_name: &str) -> (statement:
        SqlStatement)
        ensures
            statement@ == service_lookup(cluster_id as int, namespace_id as int, service_name@),
    {
        lookup_in_namespace(
            "SELECT service_id FROM kubernetes_services WHERE cluster_id = ? AND namespace_id = ? AND service_name = ?",
            cluster_id,
            namespace_id,
            service_name,
        )
    }

    /// The external addresses of a service as a JSON document.
    pub fn external_ips(service: &K8sServiceInventory) -> (document: Option<JsonValue>)
        ensures
            match external_tree(*service) {
                Some(tree) => document is Some && document->0@ == tree,
                None => document is None,
            },
    {
        match &service.external_ip {
            Some(address) => {
                let mut items = Vec::new();
                items.push(JsonValue::Text(address.clone()));
                assert(items@[0]@ == JsonTree::Text(address@));
                let document = JsonValue::Array(items);
                assert(document@->Array_0 =~= seq![JsonTree::Text(address@)]);
                Some(document)
            },
            None => None,
        }
    }

    /// The statement that stores a service, once the lookup has answered
    /// with `existing`.
    pub fn upsert_service(
        cluster_id: i32,
        namespace_id: i32,
        service: &K8sServiceInventory,
        existing: Option<i32>,
    ) -> (result: Result<SqlStatement, Failure>)
        ensures
            stored_or_fault(
                result,
                service_upsert(cluster_id as int, namespace_id as int, *service, existing),
                "service"@,
                service.service_name@,
            ),
    {
        let name = service.service_name.as_str();
        let external = Self::external_ips(service);
        let ghost planned = service_upsert(
            cluster_id as int,
            namespace_id as int,
            *service,
            existing,
        );
        assert(json_bound(external) == tree_bound(external_tree(*service)));
        let addresses = match json_bind(&external) {
            Some(value) => value,
            None => {
                let result = Err(document_fault_of("service", name));
                assert(stored_or_fault(result, planned, "service"@, service.service_name@));
                return result;
            },
        };
        let ports = match json_bind(&service.ports) {
            Some(value) => value,
            None => {
                let result = Err(document_fault_of("service", name));
                assert(stored_or_fault(result, planned, "service"@, service.service_name@));
                return result;
            },
        };
        let selector = match json_bind(&service.selector) {
            Some(value) => value,
            None => {
                let result = Err(document_fault_of("service", name));
                assert(stored_or_fault(result, planned, "service"@, service.service_name@));
                return result;
            },
        };
        let labels = match json_bind(&service.labels) {
            Some(value) => value,
            None => {
                let result = Err(document_fault_of("service", name));
                assert(stored_or_fault(result, planned, "service"@, service.service_name@));
                return result;
            },
        };
        let mut binds = Vec::new();
        let result = match existing {
            Some(id) => {
                binds.push(QueryValue::from_text(&service.service_uid));
                binds.push(text_or_of(&service.service_type, "ClusterIP"));
                binds.push(QueryValue::from_text(&service.cluster_ip));
                binds.push(addresses);
                binds.push(ports);
                binds.push(selector);
                binds.push(labels);
                binds.push(QueryValue::Integer(id as i64));
                assert(views(binds@) =~= planned->0.binds);
                Ok(
                    SqlStatement::with_binds(
                        "UPDATE kubernetes_services SET service_uid = ?, service_type = ?, cluster_ip = ?, external_ips = ?, ports = ?, selector = ?, labels = ?, updated_at = NOW() WHERE service_id = ?",
                        binds,
                    ),
                )
            },
            None => {
                binds.push(QueryValue::Integer(cluster_id as i64));
                binds.push(QueryValue::Integer(namespace_id as i64));
                binds.push(QueryValue::String(service.service_name.clone()));
                binds.push(QueryValue::from_text(&service.service_uid));
                binds.push(text_or_of(&service.service_type, "ClusterIP"));
                binds.push(QueryValue::from_text(&service.cluster_ip));
                binds.push(addresses);
                binds.push(ports);
                binds.push(selector);
                binds.push(labels);
                assert(views(binds@) =~= planned->0.binds);
                Ok(
                    SqlStatement::with_binds(
                        "INSERT INTO kubernetes_services (cluster_id, namespace_id, service_name, service_uid, service_type, cluster_ip, external_ips, ports, selector, labels) VALUES (?, ?, ?, ?, ?, ?, ?, ?, ?, ?)",
                        binds,
                    ),
                )
            },
        };
        assert(stored_or_fault(result, planned, "service"@, service.service_name@));
        result
    }

    /// The query that finds a workload of a namespace by its name.
    pub fn find_workload(cluster_id: i32, namespace_id: i32, workload_name: &str) -> (statement:
        SqlStatement)
        ensures
            statement@ == workload_lookup(cluster_id as int, namespace_id as int, workload_name@),
    {
        lookup_in_namespace(
            "SELECT workload_id FROM kubernetes_workloads WHERE cluster_id = ? AND namespace_id = ? AND workload_name = ?",
            cluster_id,
            namespace_id,
            workload_name,
        )
    }

    /// The statement that stores a workload, once the lookup has answered
    /// with `existing`.
    pub fn upsert_workload(
        cluster_id: i32,
        namespace_id: i32,
        workload: &K8sWorkloadInventory,
        existing: Option<i32>,
    ) -> (result: Result<SqlStatement, Failure>)
        ensures
            stored_or_fault(
                result,
                workload_upsert(cluster_id as int, namespace_id as int, *workload, existing),
                "workload"@,
                workload.workload_name@,
            ),
    {
        let name = workload.workload_name.as_str();
        let labels = match json_bind(&workload.labels) {
            Some(value) => value,
            None => { return Err(document_fault_of("workload", name)); },
        };
        let selector = match json_bind(&workload.selector) {
            Some(value) => value,
            None => { return Err(document_fault_of("workload", name)); },
        };
        let ghost wanted = workload_upsert(
            cluster_id as int,
            namespace_id as int,
            *workload,
            existing,
        )->0;
        let mut binds = Vec::new();
        match existing {
            Some(id) => {
                binds.push(QueryValue::from_text(&workload.workload_uid));
                binds.push(QueryValue::String(workload.workload_type.clone()));
                binds.push(QueryValue::from_number(workload.replicas_desired));
                binds.push(QueryValue::from_number(workload.replicas_ready));
                binds.push(QueryValue::from_number(workload.replicas_available));
                binds.push(labels);
                binds.push(selector);
                binds.push(QueryValue::Integer(id as i64));
                assert(views(binds@) =~= wanted.binds);
                Ok(
                    SqlStatement::with_binds(
                        "UPDATE kubernetes_workloads SET workload_uid = ?, workload_type = ?, replicas_desired = ?, replicas_ready = ?, replicas_available = ?, labels = ?, selector = ?, updated_at = NOW() WHERE workload_id = ?",
                        binds,
                    ),
                )
            },
            None => {
                binds.push(QueryValue::Integer(cluster_id as i64));
                binds.push(QueryValue::Integer(namespace_id as i64));
                binds.push(QueryValue::String(workload.workload_name.clone()));
                binds.push(QueryValue::from_text(&workload.workload_uid));
                binds.push(QueryValue::String(workload.workload_type.clone()));
                binds.push(QueryValue::from_number(workload.replicas_desired));
                binds.push(QueryValue::from_number(workload.replicas_ready));
                binds.push(QueryValue::from_number(workload.replicas_available));
                binds.push(labels);
                binds.push(selector);
                assert(views(binds@) =~= wanted.binds);
                Ok(
                    SqlStatement::with_binds(
                        "INSERT INTO kubernetes_workloads (cluster_id, namespace_id, workload_name, workload_uid, workload_type, replicas_desired, replicas_ready, replicas_available, labels, selector) VALUES (?, ?, ?, ?, ?, ?, ?, ?, ?, ?)",
                        binds,
                    ),
                )
            },
        }
    }

    /// The `UPDATE` of a cluster by named fields, under the rules of
    /// `DatabaseHelper::update_model`: a field that is no column of a cluster
    /// is refused, and the identifier and the timestamps are protected.
    pub fn update_cluster(cluster_id: i32, updates: &Vec<(String, JsonValue)>) -> (result: Result<
        Option<SqlStatement>,
        Failure,
    >)
        ensures
            updates.len() == 0 ==> result is Ok && result->Ok_0 is None,
            updates.len() > 0 ==> match first_model_fault(
                updates@,
                cluster_fields(),
                cluster_protected(),
                "KubernetesCluster"@,
            ) {
                Some(message) => result is Err && result->Err_0@ == validation_error(message),
                None => result is Ok && optional_statement(result->Ok_0) == Some(
                    update_statement(
                        "kubernetes_clusters"@,
                        "cluster_id"@,
                        cluster_id as int,
                        updates@,
                    ),
                ),
            },
    {
        let fields: [&str; 40] = [
            "cluster_id",
            "cluster_name",
            "cluster_uuid",
            "description",
            "cluster_version",
            "api_server_endpoint",
            "cluster_domain",
            "distribution",
            "distribution_version",
            "service_cidr",
            "pod_cidr",
            "cni_plugin",
            "cni_version",
            "container_runtime",
            "runtime_version",
            "cluster_state",
            "cluster_status",
            "is_ha_enabled",
            "control_plane_nodes",
            "kubeconfig_path",
            "certificate_authority_data",
            "rbac_enabled",
            "network_policy_enabled",
            "pod_security_policy_enabled",
            "admission_controllers",
            "monitoring_enabled",
            "monitoring_stack",
            "logging_enabled",
            "logging_stack",
            "created_by",
            "managed_by",
            "organization",
            "environment",
            "created_at",
            "updated_at",
            "provisioned_at",
            "last_health_check",
            "labels",
            "annotations",
            "tags",
        ];
        let protected: [&str; 3] = ["cluster_id", "created_at", "updated_at"];
        assert(views(fields@) =~= cluster_fields());
        assert(views(protected@) =~= cluster_protected());
        DatabaseHelper::update_model(
            "kubernetes_clusters",
            "cluster_id",
            cluster_id,
            updates,
            "KubernetesCluster",
            &fields,
            &protected,
        )
    }

    /// The `UPDATE` of a node by named fields, under the rules of
    /// `DatabaseHelper::update_model`: a field that is no column of a node is
    /// refused, and the identifier and the timestamps are protected.
    pub fn update_node(node_id: i32, updates: &Vec<(String, JsonValue)>) -> (result: Result<
        Option<SqlStatement>,
        Failure,
    >)
        ensures
            updates.len() == 0 ==> result is Ok && result->Ok_0 is None,
            updates.len() > 0 ==> match first_model_fault(
                updates@,
                node_fields(),
                node_protected(),
                "KubernetesNode"@,
            ) {
                Some(message) => result is Err && result->Err_0@ == validation_error(message),
                None => result is Ok && optional_statement(result->Ok_0) == Some(
                    update_statement("kubernetes_nodes"@, "k8s_node_id"@, node_id as int, updates@),
                ),
            },
    {
        let fields: [&str; 41] = [
            "k8s_node_id",
            "cluster_id",
            "node_group_id",
            "server_id",
            "vm_id",
            "node_name",
            "node_uuid",
            "node_uid",
            "node_type",
            "internal_ip",
            "external_ip",
            "hostname",
            "cpu_capacity",
            "memory_capacity_mb",
            "pod_capacity",
            "ephemeral_storage_gb",
            "cpu_allocatable",
            "memory_allocatable_mb",
            "pod_allocatable",
            "node_state",
            "is_schedulable",
            "is_cordoned",
            "ready_condition",
            "memory_pressure",
            "disk_pressure",
            "pid_pressure",
            "network_unavailable",
            "os_image",
            "os_architecture",
            "kernel_version",
            "container_runtime_version",
            "kubelet_version",
            "kube_proxy_version",
            "roles",
            "labels",
            "taints",
            "annotations",
            "created_at",
            "updated_at",
            "registered_at",
            "last_heartbeat",
        ];
        let protected: [&str; 3] = ["k8s_node_id", "created_at", "updated_at"];
        assert(views(fields@) =~= node_fields());
        assert(views(protected@) =~= node_protected());
        DatabaseHelper::update_model(
            "kubernetes_nodes",
            "k8s_node_id",
            node_id,
            updates,
            "KubernetesNode",
            &fields,
            &protected,
        )
    }
}

} // verus!
