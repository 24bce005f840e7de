//! The inventory of the virtual machines of a host: the snapshot that an
//! agent submits, and the statements that bring the database into agreement
//! with it.

use crate::database::database_helper::{
    first_model_fault, optional_statement, update_statement, DatabaseHelper,
};
use crate::database::query_builder::{SqlStatement, Statement};
use crate::json::JsonValue;
use crate::models::query::{
    flag_or_null, number_or_null, text_or_null, views, QueryValue, SqlValue,
};
use crate::errors::{not_found, validation_error, Failure};
use crate::repositories::idempotence::{
    distinct_ids, distinct_row_keys, lemma_item_found_later, lemma_item_of,
    lemma_matched_row_is_updated_in_place, updates,
};
use crate::repositories::reconcile::{
    item_of, planned_writes, same_attributes, snapshot_items, stored_rows, sync_statements,
    synchronize, Component, Key, NaturalKey, Stored, StoredComponent, StoredRow, Write,
};
use crate::repositories::server_repository::delete_by_id;
use crate::text::{joined, lowercase, to_lowercase};
use vstd::prelude::*;

verus! {

/// What an agent submits about the virtual machines of one host.
#[derive(Debug, Clone, PartialEq, Eq)]
pub struct VmInventory {
    pub host_mac_address: String,
    pub hypervisor_type: String,
    pub vms: Vec<VmInventoryDetail>,
}

/// One virtual machine.
#[derive(Debug, Clone, PartialEq, Eq)]
pub struct VmInventoryDetail {
    pub vm_name: String,
    pub vm_uuid: Option<String>,
    pub vm_state: Option<String>,
    pub hypervisor_type: String,
    pub vcpu_count: Option<i32>,
    pub memory_mb: Option<i32>,
    pub guest_os_family: Option<String>,
    pub disks: Vec<VmDiskInventory>,
    pub network_interfaces: Vec<VmNetworkInventory>,
}

/// One disk of a virtual machine.
#[derive(Debug, Clone, PartialEq, Eq)]
pub struct VmDiskInventory {
    pub disk_name: String,
    pub disk_type: Option<String>,
    pub disk_format: Option<String>,
    pub disk_size_gb: Option<i32>,
    pub disk_path: String,
    pub is_bootable: Option<bool>,
    pub storage_type: Option<String>,
}

/// One network interface of a virtual machine.
#[derive(Debug, Clone, PartialEq, Eq)]
pub struct VmNetworkInventory {
    pub interface_name: String,
    pub mac_address: Option<String>,
    pub interface_type: Option<String>,
    pub network_bridge: Option<String>,
}

/// The row of a virtual machine, as far as a snapshot writes it.
#[derive(Debug, Clone, PartialEq, Eq)]
pub struct StoredVm {
    pub vm_id: i32,
    pub vm_uuid: Option<String>,
    pub vcpu_count: Option<i32>,
    pub memory_mb: Option<i32>,
    pub vm_state: Option<String>,
    pub guest_os_family: Option<String>,
}

/// A disk of a virtual machine, as reconciliation reads it.
#[derive(Debug, Clone, PartialEq, Eq)]
pub struct StoredVmDisk {
    pub vm_disk_id: i32,
    pub disk_name: String,
    pub disk_type: Option<String>,
    pub disk_format: Option<String>,
    pub disk_size_gb: Option<i32>,
    pub disk_path: String,
    pub is_bootable: Option<bool>,
    pub storage_type: Option<String>,
}

/// A network interface of a virtual machine, as reconciliation reads it.
#[derive(Debug, Clone, PartialEq, Eq)]
pub struct StoredVmInterface {
    pub vm_interface_id: i32,
    pub interface_name: String,
    pub mac_address: Option<String>,
    pub interface_type: Option<String>,
    pub network_bridge: Option<String>,
    pub is_primary: Option<bool>,
}

// ---------------------------------------------------------------------------
// Disks: one per name.
// ---------------------------------------------------------------------------
impl Component for VmDiskInventory {
    open spec fn natural_key(&self) -> Option<Key> {
        Some(Key::Text(self.disk_name@))
    }

    open spec fn compared(&self, position: int) -> Seq<SqlValue> {
        seq![
            text_or_null(self.disk_type),
            text_or_null(self.disk_format),
            number_or_null(self.disk_size_gb),
            SqlValue::Text(self.disk_path@),
            flag_or_null(self.is_bootable),
            text_or_null(self.storage_type),
        ]
    }

    open spec fn insert_statement(&self, parent: int, position: int) -> Statement {
        Statement {
            sql: "INSERT INTO vm_disks (vm_id, disk_name, disk_type, disk_format, disk_size_gb, disk_path, is_bootable, storage_type, created_at, updated_at) VALUES (?, ?, ?, ?, ?, ?, ?, ?, NOW(), NOW())"@,
            binds: seq![
                SqlValue::Integer(parent),
                SqlValue::Text(self.disk_name@),
                text_or_null(self.disk_type),
                text_or_null(self.disk_format),
                number_or_null(self.disk_size_gb),
                SqlValue::Text(self.disk_path@),
                flag_or_null(self.is_bootable),
                text_or_null(self.storage_type),
            ],
        }
    }

    open spec fn update_statement(&self, id: int, position: int) -> Statement {
        Statement {
            sql: "UPDATE vm_disks SET disk_type = ?, disk_format = ?, disk_size_gb = ?, disk_path = ?, is_bootable = ?, storage_type = ?, updated_at = NOW() WHERE vm_disk_id = ?"@,
            binds: seq![
                text_or_null(self.disk_type),
                text_or_null(self.disk_format),
                number_or_null(self.disk_size_gb),
                SqlValue::Text(self.disk_path@),
                flag_or_null(self.is_bootable),
                text_or_null(self.storage_type),
                SqlValue::Integer(id),
            ],
        }
    }

    fn key(&self) -> (key: Option<NaturalKey>) {
        Some(NaturalKey::Text(self.disk_name.clone()))
    }

    fn attributes(&self, position: usize) -> (attributes: Vec<QueryValue>) {
        let mut attributes = Vec::new();
        attributes.push(QueryValue::from_text(&self.disk_type));
        attributes.push(QueryValue::from_text(&self.disk_format));
        attributes.push(QueryValue::from_number(self.disk_size_gb));
        attributes.push(QueryValue::String(self.disk_path.clone()));
        attributes.push(QueryValue::from_flag(self.is_bootable));
        attributes.push(QueryValue::from_text(&self.storage_type));
        assert(views(attributes@) =~= self.compared(position as int));
        attributes
    }

    fn insert(&self, parent: i32, position: usize) -> (statement: SqlStatement) {
        let mut binds = Vec::new();
        binds.push(QueryValue::Integer(parent as i64));
        binds.push(QueryValue::String(self.disk_name.clone()));
        binds.push(QueryValue::from_text(&self.disk_type));
        binds.push(QueryValue::from_text(&self.disk_format));
        binds.push(QueryValue::from_number(self.disk_size_gb));
        binds.push(QueryValue::String(self.disk_path.clone()));
        binds.push(QueryValue::from_flag(self.is_bootable));
        binds.push(QueryValue::from_text(&self.storage_type));
        assert(views(binds@) =~= self.insert_statement(parent as int, position as int).binds);
        SqlStatement::with_binds(
            "INSERT INTO vm_disks (vm_id, disk_name, disk_type, disk_format, disk_size_gb, disk_path, is_bootable, storage_type, created_at, updated_at) VALUES (?, ?, ?, ?, ?, ?, ?, ?, NOW(), NOW())",
            binds,
        )
    }

    fn update(&self, id: i32, position: usize) -> (statement: SqlStatement) {
        let mut binds = Vec::new();
        binds.push(QueryValue::from_text(&self.disk_type));
        binds.push(QueryValue::from_text(&self.disk_format));
        binds.push(QueryValue::from_number(self.disk_size_gb));
        binds.push(QueryValue::String(self.disk_path.clone()));
        binds.push(QueryValue::from_flag(self.is_bootable));
        binds.push(QueryValue::from_text(&self.storage_type));
        binds.push(QueryValue::Integer(id as i64));
        assert(views(binds@) =~= self.update_statement(id as int, position as int).binds);
        SqlStatement::with_binds(
            "UPDATE vm_disks SET disk_type = ?, disk_format = ?, disk_size_gb = ?, disk_path = ?, is_bootable = ?, storage_type = ?, updated_at = NOW() WHERE vm_disk_id = ?",
            binds,
        )
    }
}

impl StoredComponent for StoredVmDisk {
    open spec fn stored(&self) -> Stored {
        Stored {
            id: self.vm_disk_id as int,
            key: Some(Key::Text(self.disk_name@)),
            attributes: seq![
                text_or_null(self.disk_type),
                text_or_null(self.disk_format),
                number_or_null(self.disk_size_gb),
                SqlValue::Text(self.disk_path@),
                flag_or_null(self.is_bootable),
                text_or_null(self.storage_type),
            ],
        }
    }

    open spec fn delete_statement(id: int) -> Statement {
        delete_by_id("vm_disks"@, "vm_disk_id"@, id)
    }

    fn row(&self) -> (row: StoredRow) {
        let mut attributes = Vec::new();
        attributes.push(QueryValue::from_text(&self.disk_type));
        attributes.push(QueryValue::from_text(&self.disk_format));
        attributes.push(QueryValue::from_number(self.disk_size_gb));
        attributes.push(QueryValue::String(self.disk_path.clone()));
        attributes.push(QueryValue::from_flag(self.is_bootable));
        attributes.push(QueryValue::from_text(&self.storage_type));
        assert(views(attributes@) =~= self.stored().attributes);
        StoredRow {
            id: self.vm_disk_id,
            key: Some(NaturalKey::Text(self.disk_name.clone())),
            attributes,
        }
    }

    fn delete(id: i32) -> (statement: SqlStatement) {
        let mut statement = SqlStatement::new("DELETE FROM ");
        statement.push("vm_disks");
        statement.push(" WHERE ");
        statement.push("vm_disk_id");
        statement.push(" = ");
        statement.push_bind(QueryValue::Integer(id as i64));
        statement
    }
}

// ---------------------------------------------------------------------------
// Network interfaces: told apart by MAC address, whatever its case; the first
// of the snapshot is primary. All that an update writes is compared.
// ---------------------------------------------------------------------------
/// The key of an interface of a virtual machine: its MAC address in lower
/// case. An interface without a MAC address is known by its name, so that it
/// is stored and kept up to date like the others; it is the same interface
/// for as long as it has that name and no address.
pub open spec fn vm_interface_key(mac: Option<String>, name: String) -> Key {
    match mac {
        Some(m) => Key::Text(lowercase(m@)),
        None => Key::Text(name@),
    }
}

fn vm_interface_key_of(mac: &Option<String>, name: &String) -> (key: NaturalKey)
    ensures
        key@ == vm_interface_key(*mac, *name),
{
    match mac {
        Some(m) => NaturalKey::Text(to_lowercase(m.as_str())),
        None => NaturalKey::Text(name.clone()),
    }
}

impl Component for VmNetworkInventory {
    open spec fn natural_key(&self) -> Option<Key> {
        Some(vm_interface_key(self.mac_address, self.interface_name))
    }

    open spec fn compared(&self, position: int) -> Seq<SqlValue> {
        seq![
            SqlValue::Text(self.interface_name@),
            text_or_null(self.mac_address),
            text_or_null(self.interface_type),
            text_or_null(self.network_bridge),
            SqlValue::Boolean(position == 0),
        ]
    }

    open spec fn insert_statement(&self, parent: int, position: int) -> Statement {
        Statement {
            sql: "INSERT INTO vm_network_interfaces (vm_id, interface_name, mac_address, interface_type, network_bridge, is_primary, created_at, updated_at) VALUES (?, ?, ?, ?, ?, ?, NOW(), NOW())"@,
            binds: seq![
                SqlValue::Integer(parent),
                SqlValue::Text(self.interface_name@),
                text_or_null(self.mac_address),
                text_or_null(self.interface_type),
                text_or_null(self.network_bridge),
                SqlValue::Boolean(position == 0),
            ],
        }
    }

    open spec fn update_statement(&self, id: int, position: int) -> Statement {
        Statement {
            sql: "UPDATE vm_network_interfaces SET interface_name = ?, mac_address = ?, interface_type = ?, network_bridge = ?, is_primary = ?, updated_at = NOW() WHERE vm_interface_id = ?"@,
            binds: seq![
                SqlValue::Text(self.interface_name@),
                text_or_null(self.mac_address),
                text_or_null(self.interface_type),
                text_or_null(self.network_bridge),
                SqlValue::Boolean(position == 0),
                SqlValue::Integer(id),
            ],
        }
    }

    fn key(&self) -> (key: Option<NaturalKey>) {
        Some(vm_interface_key_of(&self.mac_address, &self.interface_name))
    }

    fn attributes(&self, position: usize) -> (attributes: Vec<QueryValue>) {
        let mut attributes = Vec::new();
        attributes.push(QueryValue::String(self.interface_name.clone()));
        attributes.push(QueryValue::from_text(&self.mac_address));
        attributes.push(QueryValue::from_text(&self.interface_type));
        attributes.push(QueryValue::from_text(&self.network_bridge));
        attributes.push(QueryValue::Boolean(position == 0));
        assert(views(attributes@) =~= self.compared(position as int));
        attributes
    }

    fn insert(&self, parent: i32, position: usize) -> (statement: SqlStatement) {
        let mut binds = Vec::new();
        binds.push(QueryValue::Integer(parent as i64));
        binds.push(QueryValue::String(self.interface_name.clone()));
        binds.push(QueryValue::from_text(&self.mac_address));
        binds.push(QueryValue::from_text(&self.interface_type));
        binds.push(QueryValue::from_text(&self.network_bridge));
        binds.push(QueryValue::Boolean(position == 0));
        assert(views(binds@) =~= self.insert_statement(parent as int, position as int).binds);
        SqlStatement::with_binds(
            "INSERT INTO vm_network_interfaces (vm_id, interface_name, mac_address, interface_type, network_bridge, is_primary, created_at, updated_at) VALUES (?, ?, ?, ?, ?, ?, NOW(), NOW())",
            binds,
        )
    }

    fn update(&self, id: i32, position: usize) -> (statement: SqlStatement) {
        let mut binds = Vec::new();
        binds.push(QueryValue::String(self.interface_name.clone()));
        binds.push(QueryValue::from_text(&self.mac_address));
        binds.push(QueryValue::from_text(&self.interface_type));
        binds.push(QueryValue::from_text(&self.network_bridge));
        binds.push(QueryValue::Boolean(position == 0));
        binds.push(QueryValue::Integer(id as i64));
        assert(views(binds@) =~= self.update_statement(id as int, position as int).binds);
        SqlStatement::with_binds(
            "UPDATE vm_network_interfaces SET interface_name = ?, mac_address = ?, interface_type = ?, network_bridge = ?, is_primary = ?, updated_at = NOW() WHERE vm_interface_id = ?",
            binds,
        )
    }
}

impl StoredComponent for StoredVmInterface {
    open spec fn stored(&self) -> Stored {
        Stored {
            id: self.vm_interface_id as int,
            key: Some(vm_interface_key(self.mac_address, self.interface_name)),
            attributes: seq![
                SqlValue::Text(self.interface_name@),
                text_or_null(self.mac_address),
                text_or_null(self.interface_type),
                text_or_null(self.network_bridge),
                flag_or_null(self.is_primary),
            ],
        }
    }

    open spec fn delete_statement(id: int) -> Statement {
        delete_by_id("vm_network_interfaces"@, "vm_interface_id"@, id)
    }

    fn row(&self) -> (row: StoredRow) {
        let mut attributes = Vec::new();
        attributes.push(QueryValue::String(self.interface_name.clone()));
        attributes.push(QueryValue::from_text(&self.mac_address));
        attributes.push(QueryValue::from_text(&self.interface_type));
        attributes.push(QueryValue::from_text(&self.network_bridge));
        attributes.push(QueryValue::from_flag(self.is_primary));
        assert(views(attributes@) =~= self.stored().attributes);
        StoredRow {
            id: self.vm_interface_id,
            key: Some(vm_interface_key_of(&self.mac_address, &self.interface_name)),
            attributes,
        }
    }

    fn delete(id: i32) -> (statement: SqlStatement) {
        let mut statement = SqlStatement::new("DELETE FROM ");
        statement.push("vm_network_interfaces");
        statement.push(" WHERE ");
        statement.push("vm_interface_id");
        statement.push(" = ");
        statement.push_bind(QueryValue::Integer(id as i64));
        statement
    }
}

/// The statement that stores a new virtual machine of the host `server_id`.
pub open spec fn vm_insert(server_id: int, hypervisor_type: Seq<char>, vm: VmInventoryDetail) -> Statement {
    Statement {
        sql: "INSERT INTO virtual_machines (server_id, vm_name, vm_uuid, hypervisor_type, vcpu_count, memory_mb, vm_state, vm_status, guest_os_family, created_at, updated_at) VALUES (?, ?, ?, ?, ?, ?, ?, 'active', ?, NOW(), NOW())"@,
        binds: seq![
            SqlValue::Integer(server_id),
            SqlValue::Text(vm.vm_name@),
            text_or_null(vm.vm_uuid),
            SqlValue::Text(hypervisor_type),
            number_or_null(vm.vcpu_count),
            number_or_null(vm.memory_mb),
            text_or_null(vm.vm_state),
            text_or_null(vm.guest_os_family),
        ],
    }
}

/// The statement that brings the row of the virtual machine `vm_id` up to
/// the snapshot.
pub open spec fn vm_update(vm_id: int, vm: VmInventoryDetail) -> Statement {
    Statement {
        sql: "UPDATE virtual_machines SET vm_uuid = ?, vcpu_count = ?, memory_mb = ?, vm_state = ?, guest_os_family = ?, updated_at = NOW() WHERE vm_id = ?"@,
        binds: seq![
            text_or_null(vm.vm_uuid),
            number_or_null(vm.vcpu_count),
            number_or_null(vm.memory_mb),
            text_or_null(vm.vm_state),
            text_or_null(vm.guest_os_family),
            SqlValue::Integer(vm_id),
        ],
    }
}

/// What a snapshot writes to the row of a virtual machine that is stored.
pub open spec fn vm_compared(vm: VmInventoryDetail) -> Seq<SqlValue> {
    seq![
        text_or_null(vm.vm_uuid),
        number_or_null(vm.vcpu_count),
        number_or_null(vm.memory_mb),
        text_or_null(vm.vm_state),
        text_or_null(vm.guest_os_family),
    ]
}

/// What the row of a virtual machine holds of what a snapshot writes.
pub open spec fn vm_stored(row: StoredVm) -> Seq<SqlValue> {
    seq![
        text_or_null(row.vm_uuid),
        number_or_null(row.vcpu_count),
        number_or_null(row.memory_mb),
        text_or_null(row.vm_state),
        text_or_null(row.guest_os_family),
    ]
}

/// What is written to the row of a stored virtual machine: the update where
/// the snapshot differs from the row in a value, and nothing where every
/// value is stored already.
pub open spec fn vm_sync(row: StoredVm, vm: VmInventoryDetail) -> Option<Statement> {
    if vm_stored(row) == vm_compared(vm) {
        None
    } else {
        Some(vm_update(row.vm_id as int, vm))
    }
}

/// The query that finds a virtual machine of a host by its name, with what
/// a snapshot writes to its row.
pub open spec fn vm_lookup(server_id: int, vm_name: Seq<char>) -> Statement {
    Statement {
        sql: "SELECT vm_id, vm_uuid, vcpu_count, memory_mb, vm_state, guest_os_family FROM virtual_machines WHERE server_id = ? AND vm_name = ?"@,
        binds: seq![SqlValue::Integer(server_id), SqlValue::Text(vm_name)],
    }
}

/// The message for a host that is not stored.
pub open spec fn host_fault(mac: Seq<char>) -> Seq<char> {
    "Server not found with MAC address: "@ + mac
        + ". Please ensure the hardware inventory has been posted first."@
}

/// The columns of a virtual machine.
pub open spec fn vm_fields() -> Seq<Seq<char>> {
    seq![
        "vm_id"@,
        "server_id"@,
        "vm_name"@,
        "vm_uuid"@,
        "description"@,
        "hypervisor_type"@,
        "guest_os_family"@,
        "guest_os_version"@,
        "guest_os_architecture"@,
        "vcpu_count"@,
        "memory_mb"@,
        "storage_gb"@,
        "vm_state"@,
        "vm_status"@,
        "config_file_path"@,
        "boot_order"@,
        "enable_vnc"@,
        "vnc_port"@,
        "enable_spice"@,
        "spice_port"@,
        "enable_ssh"@,
        "ssh_port"@,
        "cpu_limit_percent"@,
        "memory_balloon"@,
        "io_priority"@,
        "auto_backup_enabled"@,
        "backup_retention_days"@,
        "last_backup_at"@,
        "created_at"@,
        "updated_at"@,
        "started_at"@,
        "stopped_at"@,
        "created_by"@,
        "managed_by"@,
    ]
}

/// The columns of a virtual machine that no update may set.
pub open spec fn vm_protected() -> Seq<Seq<char>> {
    seq!["vm_id"@, "created_at"@, "updated_at"@]
}

/// What is done with one virtual machine of a snapshot.
#[derive(Debug, PartialEq, Eq)]
pub enum VmUpsert {
    /// The machine is stored under `vm_id`; `statement` updates its row,
    /// where the snapshot differs from it.
    Update { vm_id: i32, statement: Option<SqlStatement> },
    /// The machine is new; `statement` stores it, and its identifier is the
    /// one that the database gives it.
    Create { statement: SqlStatement },
}

/// The decisions of the repository of virtual machines.
pub struct VmRepository;

impl VmRepository {
    /// The host of the machines of a snapshot: the server that the lookup by
    /// MAC address found. A snapshot whose host is not stored is reported as
    /// not found.
    pub fn upsert_vm_from_inventory(inventory: &VmInventory, server_id: Option<i32>) -> (host: Result<
        i32,
        Failure,
    >)
        ensures
            match server_id {
                Some(id) => host == Ok::<i32, Failure>(id),
                None => host is Err && host->Err_0@ == not_found(
                    host_fault(inventory.host_mac_address@),
                ),
            },
    {
        match server_id {
            Some(id) => Ok(id),
            None => {
                let mut message = joined(
                    "Server not found with MAC address: ",
                    inventory.host_mac_address.as_str(),
                );
                message.append(". Please ensure the hardware inventory has been posted first.");
                Err(Failure::missing(message))
            },
        }
    }

    /// The query that finds a virtual machine of the host `server_id` by its
    /// name.
    pub fn find_vm(server_id: i32, vm_name: &str) -> (statement: SqlStatement)
        ensures
            statement@ == vm_lookup(server_id as int, vm_name@),
    {
        let mut binds = Vec::new();
        binds.push(QueryValue::Integer(server_id as i64));
        binds.push(QueryValue::String(vm_name.to_owned()));
        assert(views(binds@) =~= vm_lookup(server_id as int, vm_name@).binds);
        SqlStatement::with_binds(
            "SELECT vm_id, vm_uuid, vcpu_count, memory_mb, vm_state, guest_os_family FROM virtual_machines WHERE server_id = ? AND vm_name = ?",
            binds,
        )
    }

    /// What is done with one virtual machine: where the lookup found it, its
    /// row is updated if the snapshot differs from it in a value, and left
    /// alone if not; where the lookup found nothing, it is created.
    pub fn upsert_single_vm(
        server_id: i32,
        hypervisor_type: &str,
        vm_detail: &VmInventoryDetail,
        existing_vm: &Option<StoredVm>,
    ) -> (action: VmUpsert)
        ensures
            match *existing_vm {
                Some(row) => action matches VmUpsert::Update { vm_id, statement } && vm_id
                    == row.vm_id && optional_statement(statement) == vm_sync(row, *vm_detail),
                None => action matches VmUpsert::Create { statement } && statement@ == vm_insert(
                    server_id as int,
                    hypervisor_type@,
                    *vm_detail,
                ),
            },
    {
        match existing_vm {
            Some(row) => {
                let mut stored = Vec::new();
                stored.push(QueryValue::from_text(&row.vm_uuid));
                stored.push(QueryValue::from_number(row.vcpu_count));
                stored.push(QueryValue::from_number(row.memory_mb));
                stored.push(QueryValue::from_text(&row.vm_state));
                stored.push(QueryValue::from_text(&row.guest_os_family));
                assert(views(stored@) =~= vm_stored(*row));
                let mut compared = Vec::new();
                compared.push(QueryValue::from_text(&vm_detail.vm_uuid));
                compared.push(QueryValue::from_number(vm_detail.vcpu_count));
                compared.push(QueryValue::from_number(vm_detail.memory_mb));
                compared.push(QueryValue::from_text(&vm_detail.vm_state));
                compared.push(QueryValue::from_text(&vm_detail.guest_os_family));
                assert(views(compared@) =~= vm_compared(*vm_detail));
                let statement = if same_attributes(&stored, &compared) {
                    None
                } else {
                    Some(Self::update_vm_from_inventory(row.vm_id, vm_detail))
                };
                VmUpsert::Update { vm_id: row.vm_id, statement }
            },
            None => VmUpsert::Create {
                statement: Self::create_vm_from_inventory(server_id, hypervisor_type, vm_detail),
            },
        }
    }

    /// The statement that stores a new virtual machine.
    pub fn create_vm_from_inventory(
        server_id: i32,
        hypervisor_type: &str,
        vm_detail: &VmInventoryDetail,
    ) -> (statement: SqlStatement)
        ensures
            statement@ == vm_insert(server_id as int, hypervisor_type@, *vm_detail),
    {
        let mut binds = Vec::new();
        binds.push(QueryValue::Integer(server_id as i64));
        binds.push(QueryValue::String(vm_detail.vm_name.clone()));
        binds.push(QueryValue::from_text(&vm_detail.vm_uuid));
        binds.push(QueryValue::String(hypervisor_type.to_owned()));
        binds.push(QueryValue::from_number(vm_detail.vcpu_count));
        binds.push(QueryValue::from_number(vm_detail.memory_mb));
        binds.push(QueryValue::from_text(&vm_detail.vm_state));
        binds.push(QueryValue::from_text(&vm_detail.guest_os_family));
        assert(views(binds@) =~= vm_insert(server_id as int, hypervisor_type@, *vm_detail).binds);
        SqlStatement::with_binds(
            "INSERT INTO virtual_machines (server_id, vm_name, vm_uuid, hypervisor_type, vcpu_count, memory_mb, vm_state, vm_status, guest_os_family, created_at, updated_at) VALUES (?, ?, ?, ?, ?, ?, ?, 'active', ?, NOW(), NOW())",
            binds,
        )
    }

    /// The statement that brings the row of a virtual machine up to the
    /// snapshot.
    pub fn update_vm_from_inventory(vm_id: i32, vm_detail: &VmInventoryDetail) -> (statement:
        SqlStatement)
        ensures
            statement@ == vm_update(vm_id as int, *vm_detail),
    {
        let mut binds = Vec::new();
        binds.push(QueryValue::from_text(&vm_detail.vm_uuid));
        binds.push(QueryValue::from_number(vm_detail.vcpu_count));
        binds.push(QueryValue::from_number(vm_detail.memory_mb));
        binds.push(QueryValue::from_text(&vm_detail.vm_state));
        binds.push(QueryValue::from_text(&vm_detail.guest_os_family));
        binds.push(QueryValue::Integer(vm_id as i64));
        assert(views(binds@) =~= vm_update(vm_id as int, *vm_detail).binds);
        SqlStatement::with_binds(
            "UPDATE virtual_machines SET vm_uuid = ?, vcpu_count = ?, memory_mb = ?, vm_state = ?, guest_os_family = ?, updated_at = NOW() WHERE vm_id = ?",
            binds,
        )
    }

    /// Reconciles the disks of a virtual machine, name by name.
    pub fn sync_vm_disks(
        vm_id: i32,
        existing: &Vec<StoredVmDisk>,
        inventory_disks: &Vec<VmDiskInventory>,
    ) -> (statements: Vec<SqlStatement>)
        ensures
            views(statements@) == sync_statements::<StoredVmDisk, VmDiskInventory>(
                vm_id as int,
                existing@,
                inventory_disks@,
            ),
    {
        synchronize(vm_id, existing, inventory_disks)
    }

    /// Reconciles the network interfaces of a virtual machine, name by name.
    pub fn sync_vm_network_interfaces(
        vm_id: i32,
        existing: &Vec<StoredVmInterface>,
        inventory_interfaces: &Vec<VmNetworkInventory>,
    ) -> (statements: Vec<SqlStatement>)
        ensures
            views(statements@) == sync_statements::<StoredVmInterface, VmNetworkInventory>(
                vm_id as int,
                existing@,
                inventory_interfaces@,
            ),
    {
        synchronize(vm_id, existing, inventory_interfaces)
    }

    /// The `UPDATE` of a virtual machine by named fields, under the rules of
    /// `DatabaseHelper::update_model`: a field that is no column of a virtual
    /// machine is refused, and the identifier and the timestamps are
    /// protected.
    pub fn update_vm(vm_id: i32, updates: &Vec<(String, JsonValue)>) -> (result: Result<
        Option<SqlStatement>,
        Failure,
    >)
        ensures
            updates.len() == 0 ==> result is Ok && result->Ok_0 is None,
            updates.len() > 0 ==> match first_model_fault(
                updates@,
                vm_fields(),
                vm_protected(),
                "VirtualMachine"@,
            ) {
                Some(message) => result is Err && result->Err_0@ == validation_error(message),
                None => result is Ok && optional_statement(result->Ok_0) == Some(
                    update_statement("virtual_machines"@, "vm_id"@, vm_id as int, updates@),
                ),
            },
    {
        let fields: [&str; 34] = [
            "vm_id",
            "server_id",
            "vm_name",
            "vm_uuid",
            "description",
            "hypervisor_type",
            "guest_os_family",
            "guest_os_version",
            "guest_os_architecture",
            "vcpu_count",
            "memory_mb",
            "storage_gb",
            "vm_state",
            "vm_status",
            "config_file_path",
            "boot_order",
            "enable_vnc",
            "vnc_port",
            "enable_spice",
            "spice_port",
            "enable_ssh",
            "ssh_port",
            "cpu_limit_percent",
            "memory_balloon",
            "io_priority",
            "auto_backup_enabled",
            "backup_retention_days",
            "last_backup_at",
            "created_at",
            "updated_at",
            "started_at",
            "stopped_at",
            "created_by",
            "managed_by",
        ];
        let protected: [&str; 3] = ["vm_id", "created_at", "updated_at"];
        assert(views(fields@) =~= vm_fields());
        assert(views(protected@) =~= vm_protected());
        DatabaseHelper::update_model(
            "virtual_machines",
            "vm_id",
            vm_id,
            updates,
            "VirtualMachine",
            &fields,
            &protected,
        )
    }
}

/// A virtual machine whose row holds the values of the snapshot is left
/// alone: the second of two passes over one snapshot writes nothing to it.
pub proof fn lemma_vm_row_settled(row: StoredVm, vm: VmInventoryDetail)
    requires
        vm_stored(row) == vm_compared(vm),
    ensures
        vm_sync(row, vm) is None,
{
}

/// An interface of a virtual machine is matched by its MAC address and kept
/// under its own identifier, whatever name it carries: where the snapshot
/// holds the address of a stored interface, the plan neither deletes the
/// stored row nor inserts the interface, and where the name differs it
/// updates the row in place.
///
/// No two stored interfaces have the same identifier or the same key; the
/// interface at `j` is the first of the snapshot with its address.
pub proof fn lemma_vm_interface_is_matched_by_mac(
    stored: Seq<StoredVmInterface>,
    incoming: Seq<VmNetworkInventory>,
    i: int,
    j: int,
)
    requires
        distinct_ids(stored_rows(stored)),
        distinct_row_keys(stored_rows(stored)),
        0 <= i < stored.len(),
        0 <= j < incoming.len(),
        stored[i].mac_address is Some,
        incoming[j].mac_address is Some,
        stored[i].mac_address->0@ == incoming[j].mac_address->0@,
        forall|t: int|
            0 <= t < j ==> (#[trigger] incoming[t]).natural_key() != incoming[j].natural_key(),
    ensures
        !planned_writes(stored_rows(stored), snapshot_items(incoming)).contains(
            Write::Delete { id: stored[i].vm_interface_id as int },
        ),
        !planned_writes(stored_rows(stored), snapshot_items(incoming)).contains(
            Write::Insert { item: j },
        ),
        stored[i].interface_name@ != incoming[j].interface_name@ ==> updates(
            stored_rows(stored),
            snapshot_items(incoming),
            stored[i].vm_interface_id as int,
            j,
        ),
{
    let rows = stored_rows(stored);
    let items = snapshot_items(incoming);
    let key = rows[i].key->0;
    assert(items[j].key == Some(key));
    lemma_item_found_later(items, key, j, items.len() as int);
    lemma_item_of(items, key, items.len() as int);
    let first = item_of(items, key, items.len() as int)->0;
    if first < j {
        assert(incoming[first].natural_key() == incoming[j].natural_key());
    }
    assert(first == j);
    lemma_matched_row_is_updated_in_place(rows, items, i, j);
    if stored[i].interface_name@ != incoming[j].interface_name@ {
        assert(rows[i].attributes[0] == SqlValue::Text(stored[i].interface_name@));
        assert(items[j].attributes[0] == SqlValue::Text(incoming[j].interface_name@));
        assert(rows[i].attributes != items[j].attributes);
    }
}

} // verus!
