//! The inventory of a server: the snapshot that an agent submits, and the
//! statements that bring the database into agreement with it.

use crate::database::database_helper::{
    first_model_fault, optional_statement, update_statement, DatabaseHelper,
};
use crate::database::query_builder::{SqlStatement, Statement};
use crate::dates::{optional_us_date, parse_optional_us_date};
use crate::json::JsonValue;
use crate::models::query::{
    flag_or_null, number_or_null, text_or_null, views, QueryValue, SqlValue,
};
use crate::models::server::{
    ServerCpuDetail, ServerDiskDetail, StoredBmc, StoredDimm, StoredInterface, StoredMotherboard,
    StoredServer,
};
use crate::repositories::idempotence::{
    lemma_settled_plans_nothing, lemma_statements_follow_plan, settled,
};
use crate::repositories::reconcile::{
    key_view, same_attributes, snapshot_items, stored_rows, sync_statements, synchronize,
    Component, Key, NaturalKey, Stored, StoredComponent, StoredRow,
};
use crate::text::{first_word, first_word_of, i64_to_text, joined, lowercase, to_lowercase, trim, trimmed};
use crate::errors::{validation_error, Failure};
use vstd::prelude::*;

verus! {

/// What an agent submits about one server.
#[derive(Debug, Clone, PartialEq, Eq)]
pub struct ServerInventory {
    pub agent_version: String,
    pub node: NodeInfo,
    pub cpu: CpuInfo,
    pub memory: MemoryInfo,
    pub disks: Vec<DiskInfo>,
    pub network: NetworkInfo,
    pub gpus: Vec<GpuInfo>,
}

/// What identifies the machine, and what is mounted on its board.
#[derive(Debug, Clone, PartialEq, Eq)]
pub struct NodeInfo {
    pub hostname: Option<String>,
    pub architecture: Option<String>,
    pub product_name: Option<String>,
    pub manufacturer: Option<String>,
    pub serial_number: Option<String>,
    pub chassis_manufacturer: Option<String>,
    pub chassis_serial_number: Option<String>,
    pub motherboard: Option<MotherboardInfo>,
    pub bios: Option<BiosInfo>,
    pub bmc: BmcInfo,
}

/// The motherboard of a machine.
#[derive(Debug, Clone, PartialEq, Eq)]
pub struct MotherboardInfo {
    pub manufacturer: Option<String>,
    pub product_name: Option<String>,
    pub version: Option<String>,
    pub serial_number: Option<String>,
}

/// The BIOS of a machine; the release date is written month/day/year.
#[derive(Debug, Clone, PartialEq, Eq)]
pub struct BiosInfo {
    pub vendor: Option<String>,
    pub version: Option<String>,
    pub release_date: Option<String>,
}

/// The management controller of a machine; the release date is written
/// month/day/year.
#[derive(Debug, Clone, PartialEq, Eq)]
pub struct BmcInfo {
    pub ip_address: Option<String>,
    pub mac_address: Option<String>,
    pub firmware_version: Option<String>,
    pub release_date: Option<String>,
}

/// The CPUs of a machine.
#[derive(Debug, Clone, PartialEq, Eq)]
pub struct CpuInfo {
    pub sockets: Option<i32>,
    pub cores: Option<i32>,
    pub threads: Option<i32>,
    pub cpus: Vec<CpuDetail>,
}

/// One CPU, in its socket.
#[derive(Debug, Clone, PartialEq, Eq)]
pub struct CpuDetail {
    pub socket: i32,
    pub manufacturer: Option<String>,
    pub model_name: Option<String>,
    pub num_cores: Option<i32>,
    pub num_threads: Option<i32>,
    pub capacity_mhz: Option<i32>,
    pub slot: Option<String>,
    pub l1_cache_kb: Option<i32>,
    pub l2_cache_kb: Option<i32>,
    pub l3_cache_kb: Option<i32>,
}

/// The memory of a machine.
#[derive(Debug, Clone, PartialEq, Eq)]
pub struct MemoryInfo {
    pub total_bytes: Option<i64>,
    pub dimms: Vec<DimmDetail>,
}

/// One memory module, in its slot.
#[derive(Debug, Clone, PartialEq, Eq)]
pub struct DimmDetail {
    pub slot: String,
    pub size_bytes: i64,
    pub mem_type: Option<String>,
    pub speed_mt_s: Option<i32>,
    pub manufacturer: Option<String>,
    pub serial_number: Option<String>,
    pub part_number: Option<String>,
}

/// One disk.
#[derive(Debug, Clone, PartialEq, Eq)]
pub struct DiskInfo {
    pub name: String,
    pub dev_path: Option<String>,
    pub model: Option<String>,
    pub serial: Option<String>,
    pub size_bytes: i64,
    pub rotational: bool,
    pub bus_type: Option<String>,
    pub firmware_version: Option<String>,
    pub smart: Option<SmartInfo>,
}

/// What the self-monitoring of a disk reports.
#[derive(Debug, Clone, PartialEq, Eq)]
pub struct SmartInfo {
    pub health: Option<String>,
}

/// The network interfaces of a machine.
#[derive(Debug, Clone, PartialEq, Eq)]
pub struct NetworkInfo {
    pub interfaces: Vec<NetworkInterface>,
}

/// One network interface.
#[derive(Debug, Clone, PartialEq, Eq)]
pub struct NetworkInterface {
    pub name: String,
    pub mac_address: Option<String>,
    pub mtu: Option<i32>,
    pub speed_mbps: Option<i32>,
    pub driver: Option<String>,
    pub firmware_version: Option<String>,
    pub vendor_name: Option<String>,
    pub device_name: Option<String>,
    pub pci_address: Option<String>,
    pub addresses: Vec<NetworkAddress>,
    pub is_primary: bool,
    pub bond_group: Option<String>,
    pub bond_master: Option<String>,
}

/// One address of a network interface.
#[derive(Debug, Clone, PartialEq, Eq)]
pub struct NetworkAddress {
    pub family: String,
    pub address: String,
    pub prefix: i32,
}

/// One GPU.
#[derive(Debug, Clone, PartialEq, Eq)]
pub struct GpuInfo {
    pub vendor: Option<String>,
    pub model: Option<String>,
    pub pci_address: Option<String>,
    pub vram_mb: Option<i32>,
    pub driver_version: Option<String>,
    pub uuid: Option<String>,
}

/// A component of a snapshot together with the identifier of its type in the
/// catalog, where one was resolved.
#[derive(Debug, Clone, PartialEq, Eq)]
pub struct Resolved<T> {
    pub item: T,
    pub type_id: Option<i32>,
}

/// The listed components of a snapshot, each with its type.
#[derive(Debug, Clone, PartialEq, Eq)]
pub struct ResolvedComponents {
    pub motherboard_type_id: Option<i32>,
    pub cpus: Vec<Resolved<CpuDetail>>,
    pub dimms: Vec<Resolved<DimmDetail>>,
    pub disks: Vec<Resolved<DiskInfo>>,
    pub interfaces: Vec<Resolved<NetworkInterface>>,
}

/// What is stored for a server: its own row and its components.
#[derive(Debug, Clone, PartialEq, Eq)]
pub struct StoredComponents {
    pub server: StoredServer,
    pub motherboard: Option<StoredMotherboard>,
    pub cpus: Vec<ServerCpuDetail>,
    pub dimms: Vec<StoredDimm>,
    pub disks: Vec<ServerDiskDetail>,
    pub interfaces: Vec<StoredInterface>,
    pub bmc: Option<StoredBmc>,
}

/// The view of an optional text.
pub open spec fn text_view(text: Option<String>) -> Option<Seq<char>> {
    match text {
        Some(t) => Some(t@),
        None => None,
    }
}

/// A text that may be absent, or `NULL`.
pub open spec fn view_or_null(text: Option<Seq<char>>) -> SqlValue {
    match text {
        Some(t) => SqlValue::Text(t),
        None => SqlValue::Null,
    }
}

/// The statement `sql` with the values that `statement` binds.
fn with_values_of(sql: &str, statement: &SqlStatement) -> (lookup: SqlStatement)
    ensures
        lookup@ == (Statement { sql: sql@, binds: statement@.binds }),
{
    let copy = statement.clone();
    SqlStatement::with_binds(sql, copy.binds)
}

/// The text as a value, or `NULL`.
fn text_value(text: Option<String>) -> (value: QueryValue)
    ensures
        value@ == view_or_null(text_view(text)),
{
    match text {
        Some(t) => QueryValue::String(t),
        None => QueryValue::Null,
    }
}

// ---------------------------------------------------------------------------
// CPUs: one per socket. The type and the slot are compared.
// ---------------------------------------------------------------------------
impl Component for Resolved<CpuDetail> {
    open spec fn natural_key(&self) -> Option<Key> {
        Some(Key::Number(self.item.socket as int))
    }

    open spec fn compared(&self, position: int) -> Seq<SqlValue> {
        seq![number_or_null(self.type_id), text_or_null(self.item.slot)]
    }

    open spec fn insert_statement(&self, parent: int, position: int) -> Statement {
        Statement {
            sql: "INSERT INTO server_cpus (server_id, component_cpu_id, socket_number, slot) VALUES (?, ?, ?, ?)"@,
            binds: seq![
                SqlValue::Integer(parent),
                number_or_null(self.type_id),
                SqlValue::Integer(self.item.socket as int),
                text_or_null(self.item.slot),
            ],
        }
    }

    open spec fn update_statement(&self, id: int, position: int) -> Statement {
        Statement {
            sql: "UPDATE server_cpus SET component_cpu_id = ?, slot = ? WHERE cpu_id = ?"@,
            binds: seq![
                number_or_null(self.type_id),
                text_or_null(self.item.slot),
                SqlValue::Integer(id),
            ],
        }
    }

    fn key(&self) -> (key: Option<NaturalKey>) {
        Some(NaturalKey::Number(self.item.socket as i64))
    }

    fn attributes(&self, position: usize) -> (attributes: Vec<QueryValue>) {
        let mut attributes = Vec::new();
        attributes.push(QueryValue::from_number(self.type_id));
        attributes.push(QueryValue::from_text(&self.item.slot));
        assert(views(attributes@) =~= self.compared(position as int));
        attributes
    }

    fn insert(&self, parent: i32, position: usize) -> (statement: SqlStatement) {
        let mut binds = Vec::new();
        binds.push(QueryValue::Integer(parent as i64));
        binds.push(QueryValue::from_number(self.type_id));
        binds.push(QueryValue::Integer(self.item.socket as i64));
        binds.push(QueryValue::from_text(&self.item.slot));
        assert(views(binds@) =~= self.insert_statement(parent as int, position as int).binds);
        SqlStatement::with_binds(
            "INSERT INTO server_cpus (server_id, component_cpu_id, socket_number, slot) VALUES (?, ?, ?, ?)",
            binds,
        )
    }

    fn update(&self, id: i32, position: usize) -> (statement: SqlStatement) {
        let mut binds = Vec::new();
        binds.push(QueryValue::from_number(self.type_id));
        binds.push(QueryValue::from_text(&self.item.slot));
        binds.push(QueryValue::Integer(id as i64));
        assert(views(binds@) =~= self.update_statement(id as int, position as int).binds);
        SqlStatement::with_binds(
            "UPDATE server_cpus SET component_cpu_id = ?, slot = ? WHERE cpu_id = ?",
            binds,
        )
    }
}

/// The statement that deletes the row of `table` whose `id_column` is `id`.
pub open spec fn delete_by_id(table: Seq<char>, id_column: Seq<char>, id: int) -> Statement {
    Statement::start("DELETE FROM "@).push(table).push(" WHERE "@).push(id_column).push(" = "@).push_bind(
        SqlValue::Integer(id),
    )
}

fn delete_row(table: &str, id_column: &str, id: i32) -> (statement: SqlStatement)
    ensures
        statement@ == delete_by_id(table@, id_column@, id as int),
{
    let mut statement = SqlStatement::new("DELETE FROM ");
    statement.push(table);
    statement.push(" WHERE ");
    statement.push(id_column);
    statement.push(" = ");
    statement.push_bind(QueryValue::Integer(id as i64));
    statement
}

impl StoredComponent for ServerCpuDetail {
    open spec fn stored(&self) -> Stored {
        Stored {
            id: self.cpu_id as int,
            key: Some(Key::Number(self.socket_number as int)),
            attributes: seq![
                SqlValue::Integer(self.component_cpu_id as int),
                text_or_null(self.slot),
            ],
        }
    }

    open spec fn delete_statement(id: int) -> Statement {
        delete_by_id("server_cpus"@, "cpu_id"@, id)
    }

    fn row(&self) -> (row: StoredRow) {
        let mut attributes = Vec::new();
        attributes.push(QueryValue::Integer(self.component_cpu_id as i64));
        attributes.push(QueryValue::from_text(&self.slot));
        assert(views(attributes@) =~= self.stored().attributes);
        StoredRow {
            id: self.cpu_id,
            key: Some(NaturalKey::Number(self.socket_number as i64)),
            attributes,
        }
    }

    fn delete(id: i32) -> (statement: SqlStatement) {
        delete_row("server_cpus", "cpu_id", id)
    }
}

// ---------------------------------------------------------------------------
// Memory modules: one per slot. The type and the serial number are compared.
// ---------------------------------------------------------------------------
impl Component for Resolved<DimmDetail> {
    open spec fn natural_key(&self) -> Option<Key> {
        Some(Key::Text(self.item.slot@))
    }

    open spec fn compared(&self, position: int) -> Seq<SqlValue> {
        seq![number_or_null(self.type_id), text_or_null(self.item.serial_number)]
    }

    open spec fn insert_statement(&self, parent: int, position: int) -> Statement {
        Statement {
            sql: "INSERT INTO server_memory_dimms (server_id, component_memory_id, slot, serial_number) VALUES (?, ?, ?, ?)"@,
            binds: seq![
                SqlValue::Integer(parent),
                number_or_null(self.type_id),
                SqlValue::Text(self.item.slot@),
                text_or_null(self.item.serial_number),
            ],
        }
    }

    open spec fn update_statement(&self, id: int, position: int) -> Statement {
        Statement {
            sql: "UPDATE server_memory_dimms SET component_memory_id = ?, serial_number = ? WHERE dimm_id = ?"@,
            binds: seq![
                number_or_null(self.type_id),
                text_or_null(self.item.serial_number),
                SqlValue::Integer(id),
            ],
        }
    }

    fn key(&self) -> (key: Option<NaturalKey>) {
        Some(NaturalKey::Text(self.item.slot.clone()))
    }

    fn attributes(&self, position: usize) -> (attributes: Vec<QueryValue>) {
        let mut attributes = Vec::new();
        attributes.push(QueryValue::from_number(self.type_id));
        attributes.push(QueryValue::from_text(&self.item.serial_number));
        assert(views(attributes@) =~= self.compared(position as int));
        attributes
    }

    fn insert(&self, parent: i32, position: usize) -> (statement: SqlStatement) {
        let mut binds = Vec::new();
        binds.push(QueryValue::Integer(parent as i64));
        binds.push(QueryValue::from_number(self.type_id));
        binds.push(QueryValue::String(self.item.slot.clone()));
        binds.push(QueryValue::from_text(&self.item.serial_number));
        assert(views(binds@) =~= self.insert_statement(parent as int, position as int).binds);
        SqlStatement::with_binds(
            "INSERT INTO server_memory_dimms (server_id, component_memory_id, slot, serial_number) VALUES (?, ?, ?, ?)",
            binds,
        )
    }

    fn update(&self, id: i32, position: usize) -> (statement: SqlStatement) {
        let mut binds = Vec::new();
        binds.push(QueryValue::from_number(self.type_id));
        binds.push(QueryValue::from_text(&self.item.serial_number));
        binds.push(QueryValue::Integer(id as i64));
        assert(views(binds@) =~= self.update_statement(id as int, position as int).binds);
        SqlStatement::with_binds(
            "UPDATE server_memory_dimms SET component_memory_id = ?, serial_number = ? WHERE dimm_id = ?",
            binds,
        )
    }
}

impl StoredComponent for StoredDimm {
    open spec fn stored(&self) -> Stored {
        Stored {
            id: self.dimm_id as int,
            key: Some(Key::Text(self.slot@)),
            attributes: seq![
                SqlValue::Integer(self.component_memory_id as int),
                text_or_null(self.serial_number),
            ],
        }
    }

    open spec fn delete_statement(id: int) -> Statement {
        delete_by_id("server_memory_dimms"@, "dimm_id"@, id)
    }

    fn row(&self) -> (row: StoredRow) {
        let mut attributes = Vec::new();
        attributes.push(QueryValue::Integer(self.component_memory_id as i64));
        attributes.push(QueryValue::from_text(&self.serial_number));
        assert(views(attributes@) =~= self.stored().attributes);
        StoredRow { id: self.dimm_id, key: Some(NaturalKey::Text(self.slot.clone())), attributes }
    }

    fn delete(id: i32) -> (statement: SqlStatement) {
        delete_row("server_memory_dimms", "dimm_id", id)
    }
}

// ---------------------------------------------------------------------------
// Disks: told apart by serial number, or by name where there is none. All
// that an update writes is compared.
// ---------------------------------------------------------------------------
/// The key of a disk: its serial number, or its name where it has none.
pub open spec fn disk_key(serial: Option<String>, name: String) -> Key {
    match serial {
        Some(s) => Key::Text(s@),
        None => Key::Text(name@),
    }
}

fn disk_key_of(serial: &Option<String>, name: &String) -> (key: NaturalKey)
    ensures
        key@ == disk_key(*serial, *name),
{
    match serial {
        Some(s) => NaturalKey::Text(s.clone()),
        None => NaturalKey::Text(name.clone()),
    }
}

/// What the health check of a disk says, where the disk reports one.
pub open spec fn smart_health(smart: Option<SmartInfo>) -> SqlValue {
    match smart {
        Some(info) => text_or_null(info.health),
        None => SqlValue::Null,
    }
}

fn smart_health_of(smart: &Option<SmartInfo>) -> (value: QueryValue)
    ensures
        value@ == smart_health(*smart),
{
    match smart {
        Some(info) => QueryValue::from_text(&info.health),
        None => QueryValue::Null,
    }
}

impl Component for Resolved<DiskInfo> {
    open spec fn natural_key(&self) -> Option<Key> {
        Some(disk_key(self.item.serial, self.item.name))
    }

    open spec fn compared(&self, position: int) -> Seq<SqlValue> {
        seq![
            number_or_null(self.type_id),
            SqlValue::Text(self.item.name@),
            text_or_null(self.item.dev_path),
            text_or_null(self.item.serial),
            text_or_null(self.item.firmware_version),
            smart_health(self.item.smart),
        ]
    }

    open spec fn insert_statement(&self, parent: int, position: int) -> Statement {
        Statement {
            sql: "INSERT INTO server_disks (server_id, component_disk_id, name, dev_path, serial, firmware_version, smart_health) VALUES (?, ?, ?, ?, ?, ?, ?)"@,
            binds: seq![
                SqlValue::Integer(parent),
                number_or_null(self.type_id),
                SqlValue::Text(self.item.name@),
                text_or_null(self.item.dev_path),
                text_or_null(self.item.serial),
                text_or_null(self.item.firmware_version),
                smart_health(self.item.smart),
            ],
        }
    }

    open spec fn update_statement(&self, id: int, position: int) -> Statement {
        Statement {
            sql: "UPDATE server_disks SET component_disk_id = ?, name = ?, dev_path = ?, serial = ?, firmware_version = ?, smart_health = ? WHERE disk_id = ?"@,
            binds: seq![
                number_or_null(self.type_id),
                SqlValue::Text(self.item.name@),
                text_or_null(self.item.dev_path),
                text_or_null(self.item.serial),
                text_or_null(self.item.firmware_version),
                smart_health(self.item.smart),
                SqlValue::Integer(id),
            ],
        }
    }

    fn key(&self) -> (key: Option<NaturalKey>) {
        Some(disk_key_of(&self.item.serial, &self.item.name))
    }

    fn attributes(&self, position: usize) -> (attributes: Vec<QueryValue>) {
        let mut attributes = Vec::new();
        attributes.push(QueryValue::from_number(self.type_id));
        attributes.push(QueryValue::String(self.item.name.clone()));
        attributes.push(QueryValue::from_text(&self.item.dev_path));
        attributes.push(QueryValue::from_text(&self.item.serial));
        attributes.push(QueryValue::from_text(&self.item.firmware_version));
        attributes.push(smart_health_of(&self.item.smart));
        assert(views(attributes@) =~= self.compared(position as int));
        attributes
    }

    fn insert(&self, parent: i32, position: usize) -> (statement: SqlStatement) {
        let mut binds = Vec::new();
        binds.push(QueryValue::Integer(parent as i64));
        binds.push(QueryValue::from_number(self.type_id));
        binds.push(QueryValue::String(self.item.name.clone()));
        binds.push(QueryValue::from_text(&self.item.dev_path));
        binds.push(QueryValue::from_text(&self.item.serial));
        binds.push(QueryValue::from_text(&self.item.firmware_version));
        binds.push(smart_health_of(&self.item.smart));
        assert(views(binds@) =~= self.insert_statement(parent as int, position as int).binds);
        SqlStatement::with_binds(
            "INSERT INTO server_disks (server_id, component_disk_id, name, dev_path, serial, firmware_version, smart_health) VALUES (?, ?, ?, ?, ?, ?, ?)",
            binds,
        )
    }

    fn update(&self, id: i32, position: usize) -> (statement: SqlStatement) {
        let mut binds = Vec::new();
        binds.push(QueryValue::from_number(self.type_id));
        binds.push(QueryValue::String(self.item.name.clone()));
        binds.push(QueryValue::from_text(&self.item.dev_path));
        binds.push(QueryValue::from_text(&self.item.serial));
        binds.push(QueryValue::from_text(&self.item.firmware_version));
        binds.push(smart_health_of(&self.item.smart));
        binds.push(QueryValue::Integer(id as i64));
        assert(views(binds@) =~= self.update_statement(id as int, position as int).binds);
        SqlStatement::with_binds(
            "UPDATE server_disks SET component_disk_id = ?, name = ?, dev_path = ?, serial = ?, firmware_version = ?, smart_health = ? WHERE disk_id = ?",
            binds,
        )
    }
}

impl StoredComponent for ServerDiskDetail {
    open spec fn stored(&self) -> Stored {
        Stored {
            id: self.disk_id as int,
            key: Some(disk_key(self.serial, self.name)),
            attributes: seq![
                SqlValue::Integer(self.component_disk_id as int),
                SqlValue::Text(self.name@),
                text_or_null(self.dev_path),
                text_or_null(self.serial),
                text_or_null(self.firmware_version),
                text_or_null(self.smart_health),
            ],
        }
    }

    open spec fn delete_statement(id: int) -> Statement {
        delete_by_id("server_disks"@, "disk_id"@, id)
    }

    fn row(&self) -> (row: StoredRow) {
        let mut attributes = Vec::new();
        attributes.push(QueryValue::Integer(self.component_disk_id as i64));
        attributes.push(QueryValue::String(self.name.clone()));
        attributes.push(QueryValue::from_text(&self.dev_path));
        attributes.push(QueryValue::from_text(&self.serial));
        attributes.push(QueryValue::from_text(&self.firmware_version));
        attributes.push(QueryValue::from_text(&self.smart_health));
        assert(views(attributes@) =~= self.stored().attributes);
        StoredRow { id: self.disk_id, key: Some(disk_key_of(&self.serial, &self.name)), attributes }
    }

    fn delete(id: i32) -> (statement: SqlStatement) {
        delete_row("server_disks", "disk_id", id)
    }
}

// ---------------------------------------------------------------------------
// Network interfaces: told apart by MAC address, whatever its case. An
// interface without one takes no part in reconciliation. All that an update
// writes is compared.
// ---------------------------------------------------------------------------
/// The key of a network interface: its MAC address in lower case.
pub open spec fn mac_key(mac: Option<String>) -> Option<Key> {
    match mac {
        Some(m) => Some(Key::Text(lowercase(m@))),
        None => None,
    }
}

fn mac_key_of(mac: &Option<String>) -> (key: Option<NaturalKey>)
    ensures
        key_view(key) == mac_key(*mac),
{
    match mac {
        Some(m) => Some(NaturalKey::Text(to_lowercase(m.as_str()))),
        None => None,
    }
}

/// The address of an interface: the first of its addresses.
pub open spec fn first_address(addresses: Seq<NetworkAddress>) -> SqlValue {
    if addresses.len() > 0 {
        SqlValue::Text(addresses[0].address@)
    } else {
        SqlValue::Null
    }
}

fn first_address_of(addresses: &Vec<NetworkAddress>) -> (value: QueryValue)
    ensures
        value@ == first_address(addresses@),
{
    if addresses.len() > 0 {
        QueryValue::String(addresses[0].address.clone())
    } else {
        QueryValue::Null
    }
}

impl Component for Resolved<NetworkInterface> {
    open spec fn natural_key(&self) -> Option<Key> {
        mac_key(self.item.mac_address)
    }

    open spec fn compared(&self, position: int) -> Seq<SqlValue> {
        seq![
            number_or_null(self.type_id),
            SqlValue::Text(self.item.name@),
            first_address(self.item.addresses@),
            number_or_null(self.item.mtu),
            number_or_null(self.item.speed_mbps),
            text_or_null(self.item.firmware_version),
            text_or_null(self.item.pci_address),
            SqlValue::Boolean(self.item.is_primary),
            text_or_null(self.item.bond_group),
            text_or_null(self.item.bond_master),
        ]
    }

    open spec fn insert_statement(&self, parent: int, position: int) -> Statement {
        Statement {
            sql: "INSERT INTO server_network_interfaces (server_id, component_network_id, name, mac_address, ip_address, mtu, speed_mbps, firmware_version, pci_address, is_primary, bond_group, bond_master, interface_type) VALUES (?, ?, ?, ?, ?, ?, ?, ?, ?, ?, ?, ?, 'REGULAR')"@,
            binds: seq![
                SqlValue::Integer(parent),
                number_or_null(self.type_id),
                SqlValue::Text(self.item.name@),
                text_or_null(self.item.mac_address),
                first_address(self.item.addresses@),
                number_or_null(self.item.mtu),
                number_or_null(self.item.speed_mbps),
                text_or_null(self.item.firmware_version),
                text_or_null(self.item.pci_address),
                SqlValue::Boolean(self.item.is_primary),
                text_or_null(self.item.bond_group),
                text_or_null(self.item.bond_master),
            ],
        }
    }

    open spec fn update_statement(&self, id: int, position: int) -> Statement {
        Statement {
            sql: "UPDATE server_network_interfaces SET component_network_id = ?, name = ?, ip_address = ?, mtu = ?, speed_mbps = ?, firmware_version = ?, pci_address = ?, is_primary = ?, bond_group = ?, bond_master = ? WHERE interface_id = ?"@,
            binds: seq![
                number_or_null(self.type_id),
                SqlValue::Text(self.item.name@),
                first_address(self.item.addresses@),
                number_or_null(self.item.mtu),
                number_or_null(self.item.speed_mbps),
                text_or_null(self.item.firmware_version),
                text_or_null(self.item.pci_address),
                SqlValue::Boolean(self.item.is_primary),
                text_or_null(self.item.bond_group),
                text_or_null(self.item.bond_master),
                SqlValue::Integer(id),
            ],
        }
    }

    fn key(&self) -> (key: Option<NaturalKey>) {
        mac_key_of(&self.item.mac_address)
    }

    fn attributes(&self, position: usize) -> (attributes: Vec<QueryValue>) {
        let mut attributes = Vec::new();
        attributes.push(QueryValue::from_number(self.type_id));
        attributes.push(QueryValue::String(self.item.name.clone()));
        attributes.push(first_address_of(&self.item.addresses));
        attributes.push(QueryValue::from_number(self.item.mtu));
        attributes.push(QueryValue::from_number(self.item.speed_mbps));
        attributes.push(QueryValue::from_text(&self.item.firmware_version));
        attributes.push(QueryValue::from_text(&self.item.pci_address));
        attributes.push(QueryValue::Boolean(self.item.is_primary));
        attributes.push(QueryValue::from_text(&self.item.bond_group));
        attributes.push(QueryValue::from_text(&self.item.bond_master));
        assert(views(attributes@) =~= self.compared(position as int));
        attributes
    }

    fn insert(&self, parent: i32, position: usize) -> (statement: SqlStatement) {
        let mut binds = Vec::new();
        binds.push(QueryValue::Integer(parent as i64));
        binds.push(QueryValue::from_number(self.type_id));
        binds.push(QueryValue::String(self.item.name.clone()));
        binds.push(QueryValue::from_text(&self.item.mac_address));
        binds.push(first_address_of(&self.item.addresses));
        binds.push(QueryValue::from_number(self.item.mtu));
        binds.push(QueryValue::from_number(self.item.speed_mbps));
        binds.push(QueryValue::from_text(&self.item.firmware_version));
        binds.push(QueryValue::from_text(&self.item.pci_address));
        binds.push(QueryValue::Boolean(self.item.is_primary));
        binds.push(QueryValue::from_text(&self.item.bond_group));
        binds.push(QueryValue::from_text(&self.item.bond_master));
        assert(views(binds@) =~= self.insert_statement(parent as int, position as int).binds);
        SqlStatement::with_binds(
            "INSERT INTO server_network_interfaces (server_id, component_network_id, name, mac_address, ip_address, mtu, speed_mbps, firmware_version, pci_address, is_primary, bond_group, bond_master, interface_type) VALUES (?, ?, ?, ?, ?, ?, ?, ?, ?, ?, ?, ?, 'REGULAR')",
            binds,
        )
    }

    fn update(&self, id: i32, position: usize) -> (statement: SqlStatement) {
        let mut binds = Vec::new();
        binds.push(QueryValue::from_number(self.type_id));
        binds.push(QueryValue::String(self.item.name.clone()));
        binds.push(first_address_of(&self.item.addresses));
        binds.push(QueryValue::from_number(self.item.mtu));
        binds.push(QueryValue::from_number(self.item.speed_mbps));
        binds.push(QueryValue::from_text(&self.item.firmware_version));
        binds.push(QueryValue::from_text(&self.item.pci_address));
        binds.push(QueryValue::Boolean(self.item.is_primary));
        binds.push(QueryValue::from_text(&self.item.bond_group));
        binds.push(QueryValue::from_text(&self.item.bond_master));
        binds.push(QueryValue::Integer(id as i64));
        assert(views(binds@) =~= self.update_statement(id as int, position as int).binds);
        SqlStatement::with_binds(
            "UPDATE server_network_interfaces SET component_network_id = ?, name = ?, ip_address = ?, mtu = ?, speed_mbps = ?, firmware_version = ?, pci_address = ?, is_primary = ?, bond_group = ?, bond_master = ? WHERE interface_id = ?",
            binds,
        )
    }
}

impl StoredComponent for StoredInterface {
    open spec fn stored(&self) -> Stored {
        Stored {
            id: self.interface_id as int,
            key: mac_key(self.mac_address),
            attributes: seq![
                SqlValue::Integer(self.component_network_id as int),
                SqlValue::Text(self.name@),
                text_or_null(self.ip_address),
                number_or_null(self.mtu),
                number_or_null(self.speed_mbps),
                text_or_null(self.firmware_version),
                text_or_null(self.pci_address),
                flag_or_null(self.is_primary),
                text_or_null(self.bond_group),
                text_or_null(self.bond_master),
            ],
        }
    }

    open spec fn delete_statement(id: int) -> Statement {
        delete_by_id("server_network_interfaces"@, "interface_id"@, id)
    }

    fn row(&self) -> (row: StoredRow) {
        let mut attributes = Vec::new();
        attributes.push(QueryValue::Integer(self.component_network_id as i64));
        attributes.push(QueryValue::String(self.name.clone()));
        attributes.push(QueryValue::from_text(&self.ip_address));
        attributes.push(QueryValue::from_number(self.mtu));
        attributes.push(QueryValue::from_number(self.speed_mbps));
        attributes.push(QueryValue::from_text(&self.firmware_version));
        attributes.push(QueryValue::from_text(&self.pci_address));
        attributes.push(QueryValue::from_flag(self.is_primary));
        attributes.push(QueryValue::from_text(&self.bond_group));
        attributes.push(QueryValue::from_text(&self.bond_master));
        assert(views(attributes@) =~= self.stored().attributes);
        StoredRow { id: self.interface_id, key: mac_key_of(&self.mac_address), attributes }
    }

    fn delete(id: i32) -> (statement: SqlStatement) {
        delete_row("server_network_interfaces", "interface_id", id)
    }
}


// ---------------------------------------------------------------------------
// The catalog of component types.
// ---------------------------------------------------------------------------
/// How the type of a component is resolved in the catalog: `lookup` finds the
/// identifier of the type, and `insert` adds the type where the lookup finds
/// none. A component with a complete business key is looked up by the key; one
/// that lacks a part of it is looked up by all that the catalog holds of its
/// type, with `<=>`, under which an absent attribute matches an absent one.
/// So the type that `insert` adds is the type that `lookup` finds from then
/// on, and no pass adds a type twice.
#[derive(Debug, PartialEq, Eq)]
pub struct ReferenceRequest {
    pub lookup: SqlStatement,
    pub insert: SqlStatement,
}

/// What a `ReferenceRequest` stands for.
pub struct Reference {
    pub lookup: Statement,
    pub insert: Statement,
}

impl View for ReferenceRequest {
    type V = Reference;

    open spec fn view(&self) -> Reference {
        Reference { lookup: self.lookup@, insert: self.insert@ }
    }
}

/// What is done once the lookup of a type has answered.
#[derive(Debug, PartialEq, Eq)]
pub enum ReferenceAction {
    /// The type is in the catalog under this identifier.
    Reuse(i32),
    /// The type is new: this statement adds it, and its identifier is the one
    /// that the database gives it.
    Create(SqlStatement),
}

impl ReferenceRequest {
    /// The action that follows the answer `found` of the lookup: a type that
    /// was found is reused, and only one that was not is created.
    pub fn resolve(self, found: Option<i32>) -> (action: ReferenceAction)
        ensures
            match found {
                Some(id) => action == ReferenceAction::Reuse(id),
                None => action matches ReferenceAction::Create(statement) && statement@
                    == self.insert@,
            },
    {
        match found {
            Some(id) => ReferenceAction::Reuse(id),
            None => ReferenceAction::Create(self.insert),
        }
    }
}

/// What the catalog holds of the type of a CPU, in the order of its columns.
pub open spec fn cpu_type_values(cpu: CpuDetail) -> Seq<SqlValue> {
    seq![
        text_or_null(cpu.manufacturer),
        text_or_null(cpu.model_name),
        number_or_null(cpu.num_cores),
        number_or_null(cpu.num_threads),
        number_or_null(cpu.capacity_mhz),
        number_or_null(cpu.l1_cache_kb),
        number_or_null(cpu.l2_cache_kb),
        number_or_null(cpu.l3_cache_kb),
    ]
}

/// The request for the type of a CPU. Its key is manufacturer and model; a
/// CPU that lacks one of them is looked up by all that the catalog holds of
/// its type, an absent attribute matching an absent one.
pub open spec fn cpu_type_reference(cpu: CpuDetail) -> Reference {
    Reference {
        lookup: match (cpu.manufacturer, cpu.model_name) {
            (Some(manufacturer), Some(model)) => Statement {
                sql: "SELECT component_cpu_id FROM component_cpu_types WHERE manufacturer = ? AND model_name = ? LIMIT 1"@,
                binds: seq![SqlValue::Text(manufacturer@), SqlValue::Text(model@)],
            },
            _ => Statement {
                sql: "SELECT component_cpu_id FROM component_cpu_types WHERE manufacturer <=> ? AND model_name <=> ? AND num_cores <=> ? AND num_threads <=> ? AND capacity_mhz <=> ? AND l1_cache_kb <=> ? AND l2_cache_kb <=> ? AND l3_cache_kb <=> ? LIMIT 1"@,
                binds: cpu_type_values(cpu),
            },
        },
        insert: Statement {
            sql: "INSERT INTO component_cpu_types (manufacturer, model_name, num_cores, num_threads, capacity_mhz, l1_cache_kb, l2_cache_kb, l3_cache_kb) VALUES (?, ?, ?, ?, ?, ?, ?, ?)"@,
            binds: cpu_type_values(cpu),
        },
    }
}

/// What the catalog holds of the type of a motherboard.
pub open spec fn motherboard_type_values(motherboard: MotherboardInfo) -> Seq<SqlValue> {
    seq![
        text_or_null(motherboard.manufacturer),
        text_or_null(motherboard.product_name),
        text_or_null(motherboard.version),
    ]
}

/// The request for the type of a motherboard, where the motherboard names a
/// manufacturer or a product. Its key is both; a motherboard that names one
/// of them only is looked up by all that the catalog holds of its type.
pub open spec fn motherboard_type_reference(motherboard: MotherboardInfo) -> Option<Reference> {
    if motherboard.manufacturer is None && motherboard.product_name is None {
        None
    } else {
        Some(
            Reference {
                lookup: match (motherboard.manufacturer, motherboard.product_name) {
                    (Some(manufacturer), Some(product)) => Statement {
                        sql: "SELECT component_motherboard_id FROM component_motherboard_types WHERE manufacturer = ? AND product_name = ? LIMIT 1"@,
                        binds: seq![SqlValue::Text(manufacturer@), SqlValue::Text(product@)],
                    },
                    _ => Statement {
                        sql: "SELECT component_motherboard_id FROM component_motherboard_types WHERE manufacturer <=> ? AND product_name <=> ? AND version <=> ? LIMIT 1"@,
                        binds: motherboard_type_values(motherboard),
                    },
                },
                insert: Statement {
                    sql: "INSERT INTO component_motherboard_types (manufacturer, product_name, version) VALUES (?, ?, ?)"@,
                    binds: motherboard_type_values(motherboard),
                },
            },
        )
    }
}

/// The part number of a memory module without the whitespace around it.
pub open spec fn part_number(dimm: DimmDetail) -> Option<Seq<char>> {
    match dimm.part_number {
        Some(number) => Some(trimmed(number@)),
        None => None,
    }
}

/// What the catalog holds of the type of a memory module.
pub open spec fn memory_type_values(dimm: DimmDetail) -> Seq<SqlValue> {
    seq![
        text_or_null(dimm.manufacturer),
        view_or_null(part_number(dimm)),
        SqlValue::Integer(dimm.size_bytes as int),
        text_or_null(dimm.mem_type),
        number_or_null(dimm.speed_mt_s),
    ]
}

/// The request for the type of a memory module. Its key is the part number;
/// a module without one is looked up by all that the catalog holds of its
/// type.
pub open spec fn memory_type_reference(dimm: DimmDetail) -> Reference {
    Reference {
        lookup: match part_number(dimm) {
            Some(number) => Statement {
                sql: "SELECT component_memory_id FROM component_memory_types WHERE part_number = ? LIMIT 1"@,
                binds: seq![SqlValue::Text(number)],
            },
            None => Statement {
                sql: "SELECT component_memory_id FROM component_memory_types WHERE manufacturer <=> ? AND part_number <=> ? AND size_bytes <=> ? AND mem_type <=> ? AND speed_mt_s <=> ? LIMIT 1"@,
                binds: memory_type_values(dimm),
            },
        },
        insert: Statement {
            sql: "INSERT INTO component_memory_types (manufacturer, part_number, size_bytes, mem_type, speed_mt_s) VALUES (?, ?, ?, ?, ?)"@,
            binds: memory_type_values(dimm),
        },
    }
}

/// The manufacturer of a disk: the first word of its model.
pub open spec fn disk_manufacturer(disk: DiskInfo) -> Option<Seq<char>> {
    match disk.model {
        Some(model) => first_word(model@),
        None => None,
    }
}

/// What the catalog holds of the type of a disk.
pub open spec fn disk_type_values(disk: DiskInfo) -> Seq<SqlValue> {
    seq![
        view_or_null(disk_manufacturer(disk)),
        text_or_null(disk.model),
        SqlValue::Integer(disk.size_bytes as int),
        text_or_null(disk.bus_type),
    ]
}

/// The request for the type of a disk. Its key is the model; a disk without
/// one is looked up by all that the catalog holds of its type.
pub open spec fn disk_type_reference(disk: DiskInfo) -> Reference {
    Reference {
        lookup: match disk.model {
            Some(model) => Statement {
                sql: "SELECT component_disk_id FROM component_disk_types WHERE model = ? LIMIT 1"@,
                binds: seq![SqlValue::Text(model@)],
            },
            None => Statement {
                sql: "SELECT component_disk_id FROM component_disk_types WHERE manufacturer <=> ? AND model <=> ? AND size_bytes <=> ? AND bus_type <=> ? LIMIT 1"@,
                binds: disk_type_values(disk),
            },
        },
        insert: Statement {
            sql: "INSERT INTO component_disk_types (manufacturer, model, size_bytes, bus_type) VALUES (?, ?, ?, ?)"@,
            binds: disk_type_values(disk),
        },
    }
}

/// What the catalog holds of the type of a network interface.
pub open spec fn network_type_values(interface: NetworkInterface) -> Seq<SqlValue> {
    seq![
        text_or_null(interface.vendor_name),
        text_or_null(interface.device_name),
        number_or_null(interface.speed_mbps),
    ]
}

/// The request for the type of a network interface. Its key is vendor and
/// device; an interface that lacks one of them is looked up by all that the
/// catalog holds of its type.
pub open spec fn network_type_reference(interface: NetworkInterface) -> Reference {
    Reference {
        lookup: match (interface.vendor_name, interface.device_name) {
            (Some(vendor), Some(device)) => Statement {
                sql: "SELECT component_network_id FROM component_network_types WHERE vendor_name = ? AND device_name = ? LIMIT 1"@,
                binds: seq![SqlValue::Text(vendor@), SqlValue::Text(device@)],
            },
            _ => Statement {
                sql: "SELECT component_network_id FROM component_network_types WHERE vendor_name <=> ? AND device_name <=> ? AND max_speed_mbps <=> ? LIMIT 1"@,
                binds: network_type_values(interface),
            },
        },
        insert: Statement {
            sql: "INSERT INTO component_network_types (vendor_name, device_name, max_speed_mbps) VALUES (?, ?, ?)"@,
            binds: network_type_values(interface),
        },
    }
}

/// Whether the type of an interface is resolved: of every interface of a
/// server that is being stored for the first time, and afterwards of those
/// with a MAC address, which alone take part in reconciliation.
pub open spec fn network_type_wanted(interface: NetworkInterface, creating: bool) -> bool {
    creating || interface.mac_address is Some
}

// ---------------------------------------------------------------------------
// The motherboard and the management controller: at most one of each.
// ---------------------------------------------------------------------------
/// The vendor of the BIOS, where the snapshot names one.
pub open spec fn bios_vendor(bios: Option<BiosInfo>) -> SqlValue {
    match bios {
        Some(info) => text_or_null(info.vendor),
        None => SqlValue::Null,
    }
}

/// The version of the BIOS, where the snapshot names one.
pub open spec fn bios_version(bios: Option<BiosInfo>) -> SqlValue {
    match bios {
        Some(info) => text_or_null(info.version),
        None => SqlValue::Null,
    }
}

/// The release date of the BIOS as the database takes it, where the snapshot
/// writes one.
pub open spec fn bios_release_date(bios: Option<BiosInfo>) -> SqlValue {
    match bios {
        Some(info) => view_or_null(optional_us_date(info.release_date)),
        None => SqlValue::Null,
    }
}

/// The attributes of a motherboard that are compared.
pub open spec fn motherboard_compared(
    motherboard: MotherboardInfo,
    bios: Option<BiosInfo>,
    type_id: Option<i32>,
) -> Seq<SqlValue> {
    seq![
        number_or_null(type_id),
        text_or_null(motherboard.serial_number),
        bios_vendor(bios),
        bios_version(bios),
        bios_release_date(bios),
    ]
}

/// The compared attributes of a stored motherboard.
pub open spec fn motherboard_stored(row: StoredMotherboard) -> Seq<SqlValue> {
    seq![
        number_or_null(row.component_motherboard_id),
        text_or_null(row.serial_number),
        text_or_null(row.bios_vendor),
        text_or_null(row.bios_version),
        text_or_null(row.bios_release_date),
    ]
}

/// The statement that stores the motherboard of a server.
pub open spec fn motherboard_insert(
    server_id: int,
    motherboard: MotherboardInfo,
    bios: Option<BiosInfo>,
    type_id: Option<i32>,
) -> Statement {
    Statement {
        sql: "INSERT INTO server_motherboards (server_id, component_motherboard_id, serial_number, bios_vendor, bios_version, bios_release_date) VALUES (?, ?, ?, ?, ?, ?)"@,
        binds: seq![
            SqlValue::Integer(server_id),
            number_or_null(type_id),
            text_or_null(motherboard.serial_number),
            bios_vendor(bios),
            bios_version(bios),
            bios_release_date(bios),
        ],
    }
}

/// The statement that brings the stored motherboard up to the snapshot.
pub open spec fn motherboard_update(
    motherboard_id: int,
    motherboard: MotherboardInfo,
    bios: Option<BiosInfo>,
    type_id: Option<i32>,
) -> Statement {
    Statement {
        sql: "UPDATE server_motherboards SET component_motherboard_id = ?, serial_number = ?, bios_vendor = ?, bios_version = ?, bios_release_date = ? WHERE motherboard_id = ?"@,
        binds: seq![
            number_or_null(type_id),
            text_or_null(motherboard.serial_number),
            bios_vendor(bios),
            bios_version(bios),
            bios_release_date(bios),
            SqlValue::Integer(motherboard_id),
        ],
    }
}

/// The statement that brings the stored motherboard into agreement with the
/// snapshot, where they differ.
///
/// - in the snapshot and not stored: it is inserted;
/// - in both: it is updated where a compared attribute differs, and left
///   where none does;
/// - stored and not in the snapshot: it is deleted;
/// - in neither: nothing is done.
pub open spec fn motherboard_sync(
    server_id: int,
    existing: Option<StoredMotherboard>,
    motherboard: Option<MotherboardInfo>,
    bios: Option<BiosInfo>,
    type_id: Option<i32>,
) -> Option<Statement> {
    match motherboard {
        Some(info) => match existing {
            Some(row) => if motherboard_stored(row) == motherboard_compared(info, bios, type_id) {
                None
            } else {
                Some(motherboard_update(row.motherboard_id as int, info, bios, type_id))
            },
            None => Some(motherboard_insert(server_id, info, bios, type_id)),
        },
        None => match existing {
            Some(row) => Some(delete_by_id("server_motherboards"@, "server_id"@, server_id)),
            None => None,
        },
    }
}

/// The release date of the controller's firmware as the database takes it.
pub open spec fn bmc_release_date(bmc: BmcInfo) -> SqlValue {
    view_or_null(optional_us_date(bmc.release_date))
}

/// The attributes of a management controller that are compared.
pub open spec fn bmc_compared(bmc: BmcInfo) -> Seq<SqlValue> {
    seq![
        text_or_null(bmc.mac_address),
        text_or_null(bmc.ip_address),
        text_or_null(bmc.firmware_version),
        bmc_release_date(bmc),
    ]
}

/// The compared attributes of a stored management controller.
pub open spec fn bmc_stored(row: StoredBmc) -> Seq<SqlValue> {
    seq![
        text_or_null(row.mac_address),
        text_or_null(row.ip_address),
        text_or_null(row.firmware_version),
        text_or_null(row.release_date),
    ]
}

/// The statement that stores the management controller of a server.
pub open spec fn bmc_insert(server_id: int, bmc: BmcInfo) -> Statement {
    Statement {
        sql: "INSERT INTO server_bmc_interfaces (server_id, name, mac_address, ip_address, firmware_version, release_date, supports_ipmi, supports_redfish, supports_web_interface, is_accessible) VALUES (?, 'bmc0', ?, ?, ?, ?, 1, 1, 1, 0)"@,
        binds: seq![
            SqlValue::Integer(server_id),
            text_or_null(bmc.mac_address),
            text_or_null(bmc.ip_address),
            text_or_null(bmc.firmware_version),
            bmc_release_date(bmc),
        ],
    }
}

/// The statement that brings the stored management controller up to the
/// snapshot.
pub open spec fn bmc_update(bmc_interface_id: int, bmc: BmcInfo) -> Statement {
    Statement {
        sql: "UPDATE server_bmc_interfaces SET mac_address = ?, ip_address = ?, firmware_version = ?, release_date = ? WHERE bmc_interface_id = ?"@,
        binds: seq![
            text_or_null(bmc.mac_address),
            text_or_null(bmc.ip_address),
            text_or_null(bmc.firmware_version),
            bmc_release_date(bmc),
            SqlValue::Integer(bmc_interface_id),
        ],
    }
}

/// The statement that brings the stored management controller into agreement
/// with the snapshot, where they differ. The snapshot holds a controller
/// where it gives a MAC address for it.
pub open spec fn bmc_sync(server_id: int, existing: Option<StoredBmc>, bmc: BmcInfo) -> Option<
    Statement,
> {
    if bmc.mac_address is Some {
        match existing {
            Some(row) => if bmc_stored(row) == bmc_compared(bmc) {
                None
            } else {
                Some(bmc_update(row.bmc_interface_id as int, bmc))
            },
            None => Some(bmc_insert(server_id, bmc)),
        }
    } else {
        match existing {
            Some(row) => Some(delete_by_id("server_bmc_interfaces"@, "server_id"@, server_id)),
            None => None,
        }
    }
}

// ---------------------------------------------------------------------------
// The server itself.
// ---------------------------------------------------------------------------
/// The place of the first of the first `n` interfaces that is primary.
pub open spec fn first_primary(interfaces: Seq<NetworkInterface>, n: int) -> Option<int>
    decreases n,
{
    if n <= 0 {
        None
    } else {
        match first_primary(interfaces, n - 1) {
            Some(i) => Some(i),
            None => if interfaces[n - 1].is_primary {
                Some(n - 1)
            } else {
                None
            },
        }
    }
}

/// The MAC address by which a server is known: that of its first primary
/// interface. A snapshot without a primary interface, or without a MAC
/// address on it, is refused with the message of a validation error.
pub open spec fn primary_mac(interfaces: Seq<NetworkInterface>) -> Result<Seq<char>, Seq<char>> {
    match first_primary(interfaces, interfaces.len() as int) {
        Some(i) => match interfaces[i].mac_address {
            Some(mac) => Ok(mac@),
            None => Err("Primary network interface has no MAC address"@),
        },
        None => Err("No primary network interface found"@),
    }
}

/// What the row of a server takes from a snapshot, in the order of its
/// columns.
pub open spec fn server_binds(inventory: ServerInventory) -> Seq<SqlValue> {
    seq![
        SqlValue::Text(inventory.agent_version@),
        text_or_null(inventory.node.architecture),
        text_or_null(inventory.node.chassis_manufacturer),
        text_or_null(inventory.node.chassis_serial_number),
        text_or_null(inventory.node.manufacturer),
        text_or_null(inventory.node.product_name),
        text_or_null(inventory.node.serial_number),
        text_or_null(inventory.node.hostname),
    ]
}

/// The statement that stores a new server.
pub open spec fn server_insert(inventory: ServerInventory) -> Statement {
    Statement {
        sql: "INSERT INTO servers (agent_version, architecture, chassis_manufacturer, chassis_serial_number, manufacturer, product_name, serial_number, server_name, server_type, stage, state, status, environment_type, last_inventory_at, created_at, updated_at) VALUES (?, ?, ?, ?, ?, ?, ?, ?, 'BAREMETAL', 'DISCOVERY', 'NEW', 'ACTIVE', 'PRODUCTION', NOW(), NOW(), NOW())"@,
        binds: server_binds(inventory),
    }
}

/// The statement that brings the row of the server `server_id` up to the
/// snapshot.
pub open spec fn server_update(server_id: int, inventory: ServerInventory) -> Statement {
    Statement {
        sql: "UPDATE servers SET agent_version = ?, architecture = ?, chassis_manufacturer = ?, chassis_serial_number = ?, manufacturer = ?, product_name = ?, serial_number = ?, server_name = ?, last_inventory_at = NOW(), updated_at = NOW() WHERE server_id = ?"@,
        binds: server_binds(inventory).push(SqlValue::Integer(server_id)),
    }
}

/// What the row of a server holds of what a snapshot writes, in the order
/// of `server_binds`.
pub open spec fn server_stored(row: StoredServer) -> Seq<SqlValue> {
    seq![
        text_or_null(row.agent_version),
        text_or_null(row.architecture),
        text_or_null(row.chassis_manufacturer),
        text_or_null(row.chassis_serial_number),
        text_or_null(row.manufacturer),
        text_or_null(row.product_name),
        text_or_null(row.serial_number),
        text_or_null(row.server_name),
    ]
}

/// What is written to the row of the server `server_id`: the update where
/// the snapshot differs from the row in a value, and nothing where every
/// value is stored already.
pub open spec fn server_sync(
    server_id: int,
    stored: StoredServer,
    inventory: ServerInventory,
) -> Option<Statement> {
    if server_stored(stored) == server_binds(inventory) {
        None
    } else {
        Some(server_update(server_id, inventory))
    }
}

/// The message for a server that is stored already.
pub open spec fn exists_fault(mac: Seq<char>, id: int) -> Seq<char> {
    "Server already exists with MAC address "@ + mac + " (server_id: "@ + crate::text::decimal(id)
        + ")"@
}

/// What the creation of a server comes to: the statement that stores it, or
/// the reason why it is refused.
pub open spec fn creation(inventory: ServerInventory, existing_id: Option<i32>) -> Result<
    Statement,
    Seq<char>,
> {
    match primary_mac(inventory.network.interfaces@) {
        Ok(mac) => match existing_id {
            Some(id) => Err(exists_fault(mac, id as int)),
            None => Ok(server_insert(inventory)),
        },
        Err(message) => Err(message),
    }
}

/// The statement, where there is one, as a list.
pub open spec fn optional_list(statement: Option<Statement>) -> Seq<Statement> {
    match statement {
        Some(s) => seq![s],
        None => Seq::empty(),
    }
}

/// The inserts of all components of a list, in order.
pub open spec fn all_inserts<C: Component>(parent: int, incoming: Seq<C>) -> Seq<Statement> {
    Seq::new(incoming.len(), |j: int| incoming[j].insert_statement(parent, j))
}

/// The statements that store every component of a new server: the
/// motherboard where the snapshot has one, the CPUs, the memory modules, the
/// disks, the network interfaces, and the management controller where the
/// snapshot gives a MAC address for it.
pub open spec fn component_inserts(server_id: int, node: NodeInfo, components: ResolvedComponents) -> Seq<
    Statement,
> {
    optional_list(
        match node.motherboard {
            Some(info) => Some(
                motherboard_insert(server_id, info, node.bios, components.motherboard_type_id),
            ),
            None => None,
        },
    ) + all_inserts(server_id, components.cpus@) + all_inserts(server_id, components.dimms@)
        + all_inserts(server_id, components.disks@) + all_inserts(
        server_id,
        components.interfaces@,
    ) + optional_list(
        if node.bmc.mac_address is Some {
            Some(bmc_insert(server_id, node.bmc))
        } else {
            None
        },
    )
}

/// The statements that bring a stored server into agreement with a
/// snapshot: the update of its row where a value differs, then the
/// reconciliation of its motherboard, CPUs, memory modules, disks, network
/// interfaces and management controller.
pub open spec fn inventory_update(
    server_id: int,
    inventory: ServerInventory,
    components: ResolvedComponents,
    stored: StoredComponents,
) -> Seq<Statement> {
    optional_list(server_sync(server_id, stored.server, inventory)) + optional_list(
        motherboard_sync(
            server_id,
            stored.motherboard,
            inventory.node.motherboard,
            inventory.node.bios,
            components.motherboard_type_id,
        ),
    ) + sync_statements::<ServerCpuDetail, Resolved<CpuDetail>>(
        server_id,
        stored.cpus@,
        components.cpus@,
    ) + sync_statements::<StoredDimm, Resolved<DimmDetail>>(
        server_id,
        stored.dimms@,
        components.dimms@,
    ) + sync_statements::<ServerDiskDetail, Resolved<DiskInfo>>(
        server_id,
        stored.disks@,
        components.disks@,
    ) + sync_statements::<StoredInterface, Resolved<NetworkInterface>>(
        server_id,
        stored.interfaces@,
        components.interfaces@,
    ) + optional_list(bmc_sync(server_id, stored.bmc, inventory.node.bmc))
}

/// What a submitted snapshot leads to.
#[derive(Debug, Clone, Copy, PartialEq, Eq)]
pub enum ServerUpsert {
    /// The server is stored under this identifier and is updated.
    Update(i32),
    /// The server is new and is created.
    Create,
}

/// The count of the first entry whose name is `name`, whatever the case of
/// the letters of either; zero where there is none.
pub open spec fn count_under(stats: Seq<(String, i64)>, name: Seq<char>) -> int
    decreases stats.len(),
{
    if stats.len() == 0 {
        0
    } else if lowercase(stats[0].0@) == lowercase(name) {
        stats[0].1 as int
    } else {
        count_under(stats.drop_first(), name)
    }
}

/// Whether `json` is the object that records `count` under `name`.
pub open spec fn is_count(json: JsonValue, name: Seq<char>, count: int) -> bool {
    match json {
        JsonValue::Object(members) => members@.len() == 2 && members@[0].0@ == "name"@ && (
        match members@[0].1 {
            JsonValue::Text(text) => text@ == name,
            _ => false,
        }) && members@[1].0@ == "count"@ && (match members@[1].1 {
            JsonValue::Number(number) => number@ == crate::text::decimal(count),
            _ => false,
        }),
        _ => false,
    }
}

/// The columns of a server.
pub open spec fn server_fields() -> Seq<Seq<char>> {
    seq![
        "server_id"@,
        "agent_version"@,
        "architecture"@,
        "chassis_manufacturer"@,
        "chassis_serial_number"@,
        "cluster_id"@,
        "created_at"@,
        "data_center_id"@,
        "environment_type"@,
        "last_inventory_at"@,
        "manufacturer"@,
        "product_name"@,
        "rack_id"@,
        "rack_position_id"@,
        "serial_number"@,
        "server_name"@,
        "server_type"@,
        "stage"@,
        "state"@,
        "status"@,
        "sub_cluster_id"@,
        "updated_at"@,
    ]
}

/// The columns of a server that no update may set.
pub open spec fn server_protected() -> Seq<Seq<char>> {
    seq![
        "server_id"@,
        "created_at"@,
        "updated_at"@,
        "last_inventory_at"@,
        "component_motherboard_id"@,
    ]
}

/// The fault of an update of a server, if it has one: a field that is no
/// column of a server or is protected, else a value that cannot be bound.
pub open spec fn first_server_fault(fields: Seq<(String, JsonValue)>) -> Option<Seq<char>> {
    first_model_fault(fields, server_fields(), server_protected(), "Server"@)
}

fn optional_to_list(statement: Option<SqlStatement>) -> (list: Vec<SqlStatement>)
    ensures
        views(list@) == optional_list(optional_statement(statement)),
{
    let mut list = Vec::new();
    match statement {
        Some(s) => {
            list.push(s);
            assert(views(list@) =~= seq![s@]);
        },
        None => {
            assert(views(list@) =~= Seq::<Statement>::empty());
        },
    }
    list
}

fn extend(target: &mut Vec<SqlStatement>, more: Vec<SqlStatement>)
    ensures
        views(final(target)@) == views(old(target)@) + views(more@),
{
    let mut more = more;
    let ghost before = target@;
    let ghost added = more@;
    target.append(&mut more);
    assert(views(target@) =~= views(before) + views(added));
}

/// The inserts of all components of a list.
fn insert_all<C: Component>(parent: i32, incoming: &Vec<C>) -> (statements: Vec<SqlStatement>)
    ensures
        views(statements@) == all_inserts(parent as int, incoming@),
{
    let mut statements: Vec<SqlStatement> = Vec::new();
    let mut j: usize = 0;
    while j < incoming.len()
        invariant
            j <= incoming.len(),
            statements.len() == j,
            forall|k: int|
                0 <= k < j ==> statements@[k]@ == incoming@[k].insert_statement(parent as int, k),
        decreases incoming.len() - j,
    {
        statements.push(incoming[j].insert(parent, j));
        j += 1;
    }
    assert(views(statements@) =~= all_inserts(parent as int, incoming@));
    statements
}

fn bios_vendor_of(bios: &Option<BiosInfo>) -> (value: QueryValue)
    ensures
        value@ == bios_vendor(*bios),
{
    match bios {
        Some(info) => QueryValue::from_text(&info.vendor),
        None => QueryValue::Null,
    }
}

fn bios_version_of(bios: &Option<BiosInfo>) -> (value: QueryValue)
    ensures
        value@ == bios_version(*bios),
{
    match bios {
        Some(info) => QueryValue::from_text(&info.version),
        None => QueryValue::Null,
    }
}

fn bios_release_date_of(bios: &Option<BiosInfo>) -> (value: QueryValue)
    ensures
        value@ == bios_release_date(*bios),
{
    match bios {
        Some(info) => text_value(parse_optional_us_date(&info.release_date)),
        None => QueryValue::Null,
    }
}

fn bmc_release_date_of(bmc: &BmcInfo) -> (value: QueryValue)
    ensures
        value@ == bmc_release_date(*bmc),
{
    text_value(parse_optional_us_date(&bmc.release_date))
}

fn server_binds_of(inventory: &ServerInventory) -> (binds: Vec<QueryValue>)
    ensures
        views(binds@) == server_binds(*inventory),
{
    let mut binds = Vec::new();
    binds.push(QueryValue::String(inventory.agent_version.clone()));
    binds.push(QueryValue::from_text(&inventory.node.architecture));
    binds.push(QueryValue::from_text(&inventory.node.chassis_manufacturer));
    binds.push(QueryValue::from_text(&inventory.node.chassis_serial_number));
    binds.push(QueryValue::from_text(&inventory.node.manufacturer));
    binds.push(QueryValue::from_text(&inventory.node.product_name));
    binds.push(QueryValue::from_text(&inventory.node.serial_number));
    binds.push(QueryValue::from_text(&inventory.node.hostname));
    assert(views(binds@) =~= server_binds(*inventory));
    binds
}

/// The decisions of the server repository: what is asked of the database,
/// and in which order, to store and to update the inventory of a server.
pub struct ServerRepository;

impl ServerRepository {
    /// The request for the type of a CPU.
    pub fn find_or_create_cpu_type(cpu: &CpuDetail) -> (request: ReferenceRequest)
        ensures
            request@ == cpu_type_reference(*cpu),
    {
        let mut binds = Vec::new();
        binds.push(QueryValue::from_text(&cpu.manufacturer));
        binds.push(QueryValue::from_text(&cpu.model_name));
        binds.push(QueryValue::from_number(cpu.num_cores));
        binds.push(QueryValue::from_number(cpu.num_threads));
        binds.push(QueryValue::from_number(cpu.capacity_mhz));
        binds.push(QueryValue::from_number(cpu.l1_cache_kb));
        binds.push(QueryValue::from_number(cpu.l2_cache_kb));
        binds.push(QueryValue::from_number(cpu.l3_cache_kb));
        assert(views(binds@) =~= cpu_type_values(*cpu));
        let insert = SqlStatement::with_binds(
            "INSERT INTO component_cpu_types (manufacturer, model_name, num_cores, num_threads, capacity_mhz, l1_cache_kb, l2_cache_kb, l3_cache_kb) VALUES (?, ?, ?, ?, ?, ?, ?, ?)",
            binds,
        );
        let lookup = match (&cpu.manufacturer, &cpu.model_name) {
            (Some(manufacturer), Some(model)) => {
                let mut key = Vec::new();
                key.push(QueryValue::String(manufacturer.clone()));
                key.push(QueryValue::String(model.clone()));
                assert(views(key@) =~= seq![SqlValue::Text(manufacturer@), SqlValue::Text(model@)]);
                SqlStatement::with_binds(
                    "SELECT component_cpu_id FROM component_cpu_types WHERE manufacturer = ? AND model_name = ? LIMIT 1",
                    key,
                )
            },
            _ => with_values_of(
                "SELECT component_cpu_id FROM component_cpu_types WHERE manufacturer <=> ? AND model_name <=> ? AND num_cores <=> ? AND num_threads <=> ? AND capacity_mhz <=> ? AND l1_cache_kb <=> ? AND l2_cache_kb <=> ? AND l3_cache_kb <=> ? LIMIT 1",
                &insert,
            ),
        };
        ReferenceRequest { lookup, insert }
    }

    /// The request for the type of a motherboard; none where the motherboard
    /// names neither a manufacturer nor a product.
    pub fn find_or_create_motherboard_type(motherboard: &MotherboardInfo) -> (request: Option<
        ReferenceRequest,
    >)
        ensures
            match motherboard_type_reference(*motherboard) {
                Some(reference) => request is Some && request->0@ == reference,
                None => request is None,
            },
    {
        if motherboard.manufacturer.is_none() && motherboard.product_name.is_none() {
            return None;
        }
        let mut binds = Vec::new();
        binds.push(QueryValue::from_text(&motherboard.manufacturer));
        binds.push(QueryValue::from_text(&motherboard.product_name));
        binds.push(QueryValue::from_text(&motherboard.version));
        assert(views(binds@) =~= motherboard_type_values(*motherboard));
        let insert = SqlStatement::with_binds(
            "INSERT INTO component_motherboard_types (manufacturer, product_name, version) VALUES (?, ?, ?)",
            binds,
        );
        let lookup = match (&motherboard.manufacturer, &motherboard.product_name) {
            (Some(manufacturer), Some(product)) => {
                let mut key = Vec::new();
                key.push(QueryValue::String(manufacturer.clone()));
                key.push(QueryValue::String(product.clone()));
                assert(views(key@) =~= seq![
                    SqlValue::Text(manufacturer@),
                    SqlValue::Text(product@),
                ]);
                SqlStatement::with_binds(
                    "SELECT component_motherboard_id FROM component_motherboard_types WHERE manufacturer = ? AND product_name = ? LIMIT 1",
                    key,
                )
            },
            _ => with_values_of(
                "SELECT component_motherboard_id FROM component_motherboard_types WHERE manufacturer <=> ? AND product_name <=> ? AND version <=> ? LIMIT 1",
                &insert,
            ),
        };
        Some(ReferenceRequest { lookup, insert })
    }

    /// The request for the type of a memory module.
    pub fn find_or_create_memory_type(dimm: &DimmDetail) -> (request: ReferenceRequest)
        ensures
            request@ == memory_type_reference(*dimm),
    {
        let number: Option<String> = match &dimm.part_number {
            Some(text) => Some(trim(text.as_str())),
            None => None,
        };
        let mut binds = Vec::new();
        binds.push(QueryValue::from_text(&dimm.manufacturer));
        binds.push(text_value(number.clone()));
        binds.push(QueryValue::Integer(dimm.size_bytes));
        binds.push(QueryValue::from_text(&dimm.mem_type));
        binds.push(QueryValue::from_number(dimm.speed_mt_s));
        assert(views(binds@) =~= memory_type_values(*dimm));
        let insert = SqlStatement::with_binds(
            "INSERT INTO component_memory_types (manufacturer, part_number, size_bytes, mem_type, speed_mt_s) VALUES (?, ?, ?, ?, ?)",
            binds,
        );
        let lookup = match number {
            Some(text) => {
                let mut key = Vec::new();
                key.push(QueryValue::String(text));
                assert(views(key@) =~= seq![SqlValue::Text(text@)]);
                SqlStatement::with_binds(
                    "SELECT component_memory_id FROM component_memory_types WHERE part_number = ? LIMIT 1",
                    key,
                )
            },
            None => with_values_of(
                "SELECT component_memory_id FROM component_memory_types WHERE manufacturer <=> ? AND part_number <=> ? AND size_bytes <=> ? AND mem_type <=> ? AND speed_mt_s <=> ? LIMIT 1",
                &insert,
            ),
        };
        ReferenceRequest { lookup, insert }
    }

    /// The request for the type of a disk.
    pub fn find_or_create_disk_type(disk: &DiskInfo) -> (request: ReferenceRequest)
        ensures
            request@ == disk_type_reference(*disk),
    {
        let manufacturer: Option<String> = match &disk.model {
            Some(model) => first_word_of(model.as_str()),
            None => None,
        };
        let mut binds = Vec::new();
        binds.push(text_value(manufacturer));
        binds.push(QueryValue::from_text(&disk.model));
        binds.push(QueryValue::Integer(disk.size_bytes));
        binds.push(QueryValue::from_text(&disk.bus_type));
        assert(views(binds@) =~= disk_type_values(*disk));
        let insert = SqlStatement::with_binds(
            "INSERT INTO component_disk_types (manufacturer, model, size_bytes, bus_type) VALUES (?, ?, ?, ?)",
            binds,
        );
        let lookup = match &disk.model {
            Some(model) => {
                let mut key = Vec::new();
                key.push(QueryValue::String(model.clone()));
                assert(views(key@) =~= seq![SqlValue::Text(model@)]);
                SqlStatement::with_binds(
                    "SELECT component_disk_id FROM component_disk_types WHERE model = ? LIMIT 1",
                    key,
                )
            },
            None => with_values_of(
                "SELECT component_disk_id FROM component_disk_types WHERE manufacturer <=> ? AND model <=> ? AND size_bytes <=> ? AND bus_type <=> ? LIMIT 1",
                &insert,
            ),
        };
        ReferenceRequest { lookup, insert }
    }

    /// The request for the type of a network interface.
    pub fn find_or_create_network_type(iface: &NetworkInterface) -> (request: ReferenceRequest)
        ensures
            request@ == network_type_reference(*iface),
    {
        let mut binds = Vec::new();
        binds.push(QueryValue::from_text(&iface.vendor_name));
        binds.push(QueryValue::from_text(&iface.device_name));
        binds.push(QueryValue::from_number(iface.speed_mbps));
        assert(views(binds@) =~= network_type_values(*iface));
        let insert = SqlStatement::with_binds(
            "INSERT INTO component_network_types (vendor_name, device_name, max_speed_mbps) VALUES (?, ?, ?)",
            binds,
        );
        let lookup = match (&iface.vendor_name, &iface.device_name) {
            (Some(vendor), Some(device)) => {
                let mut key = Vec::new();
                key.push(QueryValue::String(vendor.clone()));
                key.push(QueryValue::String(device.clone()));
                assert(views(key@) =~= seq![SqlValue::Text(vendor@), SqlValue::Text(device@)]);
                SqlStatement::with_binds(
                    "SELECT component_network_id FROM component_network_types WHERE vendor_name = ? AND device_name = ? LIMIT 1",
                    key,
                )
            },
            _ => with_values_of(
                "SELECT component_network_id FROM component_network_types WHERE vendor_name <=> ? AND device_name <=> ? AND max_speed_mbps <=> ? LIMIT 1",
                &insert,
            ),
        };
        ReferenceRequest { lookup, insert }
    }

    /// Whether the type of `iface` is to be resolved, for a server that is
    /// being stored for the first time (`creating`) or one that is stored.
    pub fn wants_network_type(iface: &NetworkInterface, creating: bool) -> (wanted: bool)
        ensures
            wanted == network_type_wanted(*iface, creating),
    {
        creating || iface.mac_address.is_some()
    }

    fn motherboard_insert_of(
        server_id: i32,
        motherboard: &MotherboardInfo,
        bios: &Option<BiosInfo>,
        type_id: Option<i32>,
    ) -> (statement: SqlStatement)
        ensures
            statement@ == motherboard_insert(server_id as int, *motherboard, *bios, type_id),
    {
        let mut binds = Vec::new();
        binds.push(QueryValue::Integer(server_id as i64));
        binds.push(QueryValue::from_number(type_id));
        binds.push(QueryValue::from_text(&motherboard.serial_number));
        binds.push(bios_vendor_of(bios));
        binds.push(bios_version_of(bios));
        binds.push(bios_release_date_of(bios));
        assert(views(binds@) =~= motherboard_insert(
            server_id as int,
            *motherboard,
            *bios,
            type_id,
        ).binds);
        SqlStatement::with_binds(
            "INSERT INTO server_motherboards (server_id, component_motherboard_id, serial_number, bios_vendor, bios_version, bios_release_date) VALUES (?, ?, ?, ?, ?, ?)",
            binds,
        )
    }

    /// Reconciles the motherboard of a server.
    pub fn sync_server_motherboard(
        server_id: i32,
        existing: &Option<StoredMotherboard>,
        motherboard_info: &Option<MotherboardInfo>,
        bios_info: &Option<BiosInfo>,
        motherboard_type_id: Option<i32>,
    ) -> (statement: Option<SqlStatement>)
        ensures
            optional_statement(statement) == motherboard_sync(
                server_id as int,
                *existing,
                *motherboard_info,
                *bios_info,
                motherboard_type_id,
            ),
    {
        match motherboard_info {
            Some(info) => {
                match existing {
                    Some(row) => {
                        let mut stored = Vec::new();
                        stored.push(QueryValue::from_number(row.component_motherboard_id));
                        stored.push(QueryValue::from_text(&row.serial_number));
                        stored.push(QueryValue::from_text(&row.bios_vendor));
                        stored.push(QueryValue::from_text(&row.bios_version));
                        stored.push(QueryValue::from_text(&row.bios_release_date));
                        assert(views(stored@) =~= motherboard_stored(*row));
                        let mut compared = Vec::new();
                        compared.push(QueryValue::from_number(motherboard_type_id));
                        compared.push(QueryValue::from_text(&info.serial_number));
                        compared.push(bios_vendor_of(bios_info));
                        compared.push(bios_version_of(bios_info));
                        compared.push(bios_release_date_of(bios_info));
                        assert(views(compared@) =~= motherboard_compared(
                            *info,
                            *bios_info,
                            motherboard_type_id,
                        ));
                        if same_attributes(&stored, &compared) {
                            None
                        } else {
                            let mut binds = Vec::new();
                            binds.push(QueryValue::from_number(motherboard_type_id));
                            binds.push(QueryValue::from_text(&info.serial_number));
                            binds.push(bios_vendor_of(bios_info));
                            binds.push(bios_version_of(bios_info));
                            binds.push(bios_release_date_of(bios_info));
                            binds.push(QueryValue::Integer(row.motherboard_id as i64));
                            assert(views(binds@) =~= motherboard_update(
                                row.motherboard_id as int,
                                *info,
                                *bios_info,
                                motherboard_type_id,
                            ).binds);
                            Some(
                                SqlStatement::with_binds(
                                    "UPDATE server_motherboards SET component_motherboard_id = ?, serial_number = ?, bios_vendor = ?, bios_version = ?, bios_release_date = ? WHERE motherboard_id = ?",
                                    binds,
                                ),
                            )
                        }
                    },
                    None => Some(
                        Self::motherboard_insert_of(server_id, info, bios_info, motherboard_type_id),
                    ),
                }
            },
            None => {
                match existing {
                    Some(_) => Some(delete_row("server_motherboards", "server_id", server_id)),
                    None => None,
                }
            },
        }
    }

    /// Reconciles the CPUs of a server, socket by socket.
    pub fn sync_server_cpus(
        server_id: i32,
        existing: &Vec<ServerCpuDetail>,
        inventory_cpus: &Vec<Resolved<CpuDetail>>,
    ) -> (statements: Vec<SqlStatement>)
        ensures
            views(statements@) == sync_statements::<ServerCpuDetail, Resolved<CpuDetail>>(
                server_id as int,
                existing@,
                inventory_cpus@,
            ),
    {
        synchronize(server_id, existing, inventory_cpus)
    }

    /// Reconciles the memory modules of a server, slot by slot.
    pub fn sync_server_memory(
        server_id: i32,
        existing: &Vec<StoredDimm>,
        inventory_dimms: &Vec<Resolved<DimmDetail>>,
    ) -> (statements: Vec<SqlStatement>)
        ensures
            views(statements@) == sync_statements::<StoredDimm, Resolved<DimmDetail>>(
                server_id as int,
                existing@,
                inventory_dimms@,
            ),
    {
        synchronize(server_id, existing, inventory_dimms)
    }

    /// Reconciles the disks of a server, by serial number or name.
    pub fn sync_server_disks(
        server_id: i32,
        existing: &Vec<ServerDiskDetail>,
        inventory_disks: &Vec<Resolved<DiskInfo>>,
    ) -> (statements: Vec<SqlStatement>)
        ensures
            views(statements@) == sync_statements::<ServerDiskDetail, Resolved<DiskInfo>>(
                server_id as int,
                existing@,
                inventory_disks@,
            ),
    {
        synchronize(server_id, existing, inventory_disks)
    }

    /// Reconciles the network interfaces of a server, by MAC address.
    pub fn sync_server_network_interfaces(
        server_id: i32,
        existing: &Vec<StoredInterface>,
        inventory_interfaces: &Vec<Resolved<NetworkInterface>>,
    ) -> (statements: Vec<SqlStatement>)
        ensures
            views(statements@) == sync_statements::<StoredInterface, Resolved<NetworkInterface>>(
                server_id as int,
                existing@,
                inventory_interfaces@,
            ),
    {
        synchronize(server_id, existing, inventory_interfaces)
    }

    fn bmc_insert_of(server_id: i32, bmc: &BmcInfo) -> (statement: SqlStatement)
        ensures
            statement@ == bmc_insert(server_id as int, *bmc),
    {
        let mut binds = Vec::new();
        binds.push(QueryValue::Integer(server_id as i64));
        binds.push(QueryValue::from_text(&bmc.mac_address));
        binds.push(QueryValue::from_text(&bmc.ip_address));
        binds.push(QueryValue::from_text(&bmc.firmware_version));
        binds.push(bmc_release_date_of(bmc));
        assert(views(binds@) =~= bmc_insert(server_id as int, *bmc).binds);
        SqlStatement::with_binds(
            "INSERT INTO server_bmc_interfaces (server_id, name, mac_address, ip_address, firmware_version, release_date, supports_ipmi, supports_redfish, supports_web_interface, is_accessible) VALUES (?, 'bmc0', ?, ?, ?, ?, 1, 1, 1, 0)",
            binds,
        )
    }

    /// Reconciles the management controller of a server.
    pub fn sync_server_bmc(server_id: i32, existing: &Option<StoredBmc>, bmc_info: &BmcInfo) -> (statement:
        Option<SqlStatement>)
        ensures
            optional_statement(statement) == bmc_sync(server_id as int, *existing, *bmc_info),
    {
        if bmc_info.mac_address.is_some() {
            match existing {
                Some(row) => {
                    let mut stored = Vec::new();
                    stored.push(QueryValue::from_text(&row.mac_address));
                    stored.push(QueryValue::from_text(&row.ip_address));
                    stored.push(QueryValue::from_text(&row.firmware_version));
                    stored.push(QueryValue::from_text(&row.release_date));
                    assert(views(stored@) =~= bmc_stored(*row));
                    let mut compared = Vec::new();
                    compared.push(QueryValue::from_text(&bmc_info.mac_address));
                    compared.push(QueryValue::from_text(&bmc_info.ip_address));
                    compared.push(QueryValue::from_text(&bmc_info.firmware_version));
                    compared.push(bmc_release_date_of(bmc_info));
                    assert(views(compared@) =~= bmc_compared(*bmc_info));
                    if same_attributes(&stored, &compared) {
                        None
                    } else {
                        let mut binds = Vec::new();
                        binds.push(QueryValue::from_text(&bmc_info.mac_address));
                        binds.push(QueryValue::from_text(&bmc_info.ip_address));
                        binds.push(QueryValue::from_text(&bmc_info.firmware_version));
                        binds.push(bmc_release_date_of(bmc_info));
                        binds.push(QueryValue::Integer(row.bmc_interface_id as i64));
                        assert(views(binds@) =~= bmc_update(
                            row.bmc_interface_id as int,
                            *bmc_info,
                        ).binds);
                        Some(
                            SqlStatement::with_binds(
                                "UPDATE server_bmc_interfaces SET mac_address = ?, ip_address = ?, firmware_version = ?, release_date = ? WHERE bmc_interface_id = ?",
                                binds,
                            ),
                        )
                    }
                },
                None => Some(Self::bmc_insert_of(server_id, bmc_info)),
            }
        } else {
            match existing {
                Some(_) => Some(delete_row("server_bmc_interfaces", "server_id", server_id)),
                None => None,
            }
        }
    }

    /// The statements that store every component of a new server.
    pub fn insert_server_components(
        server_id: i32,
        node: &NodeInfo,
        components: &ResolvedComponents,
    ) -> (statements: Vec<SqlStatement>)
        ensures
            views(statements@) == component_inserts(server_id as int, *node, *components),
    {
        let motherboard = match &node.motherboard {
            Some(info) => Some(
                Self::motherboard_insert_of(
                    server_id,
                    info,
                    &node.bios,
                    components.motherboard_type_id,
                ),
            ),
            None => None,
        };
        let mut statements = optional_to_list(motherboard);
        extend(&mut statements, insert_all(server_id, &components.cpus));
        extend(&mut statements, insert_all(server_id, &components.dimms));
        extend(&mut statements, insert_all(server_id, &components.disks));
        extend(&mut statements, insert_all(server_id, &components.interfaces));
        let bmc = if node.bmc.mac_address.is_some() {
            Some(Self::bmc_insert_of(server_id, &node.bmc))
        } else {
            None
        };
        extend(&mut statements, optional_to_list(bmc));
        statements
    }

    /// The MAC address by which the server of a snapshot is known.
    pub fn primary_mac_address(inventory: &ServerInventory) -> (mac: Result<String, Failure>)
        ensures
            match primary_mac(inventory.network.interfaces@) {
                Ok(address) => mac is Ok && mac->Ok_0@ == address,
                Err(message) => mac is Err && mac->Err_0@ == validation_error(message),
            },
    {
        let interfaces = &inventory.network.interfaces;
        let mut i: usize = 0;
        while i < interfaces.len()
            invariant
                i <= interfaces.len(),
                interfaces == &inventory.network.interfaces,
                first_primary(interfaces@, i as int) is None,
            decreases interfaces.len() - i,
        {
            if interfaces[i].is_primary {
                proof {
                    lemma_primary_found_stays(interfaces@, i + 1, interfaces.len() as int);
                }
                return match &interfaces[i].mac_address {
                    Some(mac) => Ok(mac.clone()),
                    None => Err(
                        Failure::validation(
                            "Primary network interface has no MAC address".to_owned(),
                        ),
                    ),
                };
            }
            i += 1;
        }
        Err(Failure::validation("No primary network interface found".to_owned()))
    }

    /// The query that finds the server that is known by `mac_address`.
    pub fn check_server_exists_by_mac(mac_address: &str) -> (statement: SqlStatement)
        ensures
            statement@ == (Statement {
                sql: "SELECT s.server_id FROM servers s JOIN server_network_interfaces sni ON s.server_id = sni.server_id WHERE sni.mac_address = ? AND sni.is_primary = 1 LIMIT 1"@,
                binds: seq![SqlValue::Text(mac_address@)],
            }),
    {
        let mut binds = Vec::new();
        binds.push(QueryValue::String(mac_address.to_owned()));
        assert(views(binds@) =~= seq![SqlValue::Text(mac_address@)]);
        SqlStatement::with_binds(
            "SELECT s.server_id FROM servers s JOIN server_network_interfaces sni ON s.server_id = sni.server_id WHERE sni.mac_address = ? AND sni.is_primary = 1 LIMIT 1",
            binds,
        )
    }

    /// The statement that stores the server of a snapshot. `existing_id` is
    /// what the lookup by MAC address found. The snapshot is refused where it
    /// names no primary interface with a MAC address, and where the server is
    /// stored already.
    pub fn create_server_from_inventory(inventory: &ServerInventory, existing_id: Option<i32>) -> (result:
        Result<SqlStatement, Failure>)
        ensures
            match creation(*inventory, existing_id) {
                Ok(statement) => result is Ok && result->Ok_0@ == statement,
                Err(message) => result is Err && result->Err_0@ == validation_error(message),
            },
    {
        let mac = match Self::primary_mac_address(inventory) {
            Ok(address) => address,
            Err(message) => { return Err(message); },
        };
        match existing_id {
            Some(id) => {
                let mut message = joined("Server already exists with MAC address ", mac.as_str());
                message.append(" (server_id: ");
                message.append(i64_to_text(id as i64).as_str());
                message.append(")");
                Err(Failure::validation(message))
            },
            None => Ok(
                SqlStatement::with_binds(
                    "INSERT INTO servers (agent_version, architecture, chassis_manufacturer, chassis_serial_number, manufacturer, product_name, serial_number, server_name, server_type, stage, state, status, environment_type, last_inventory_at, created_at, updated_at) VALUES (?, ?, ?, ?, ?, ?, ?, ?, 'BAREMETAL', 'DISCOVERY', 'NEW', 'ACTIVE', 'PRODUCTION', NOW(), NOW(), NOW())",
                    server_binds_of(inventory),
                ),
            ),
        }
    }

    /// Reconciles the row of a server: the update where the snapshot differs
    /// from the row in a value, nothing where it does not.
    pub fn sync_server_row(
        server_id: i32,
        existing: &StoredServer,
        inventory: &ServerInventory,
    ) -> (statement: Option<SqlStatement>)
        ensures
            optional_statement(statement) == server_sync(server_id as int, *existing, *inventory),
    {
        let mut stored = Vec::new();
        stored.push(QueryValue::from_text(&existing.agent_version));
        stored.push(QueryValue::from_text(&existing.architecture));
        stored.push(QueryValue::from_text(&existing.chassis_manufacturer));
        stored.push(QueryValue::from_text(&existing.chassis_serial_number));
        stored.push(QueryValue::from_text(&existing.manufacturer));
        stored.push(QueryValue::from_text(&existing.product_name));
        stored.push(QueryValue::from_text(&existing.serial_number));
        stored.push(QueryValue::from_text(&existing.server_name));
        assert(views(stored@) =~= server_stored(*existing));
        let mut binds = server_binds_of(inventory);
        if same_attributes(&stored, &binds) {
            None
        } else {
            let ghost before = binds@;
            binds.push(QueryValue::Integer(server_id as i64));
            assert(views(binds@) =~= views(before).push(SqlValue::Integer(server_id as int)));
            Some(
                SqlStatement::with_binds(
                    "UPDATE servers SET agent_version = ?, architecture = ?, chassis_manufacturer = ?, chassis_serial_number = ?, manufacturer = ?, product_name = ?, serial_number = ?, server_name = ?, last_inventory_at = NOW(), updated_at = NOW() WHERE server_id = ?",
                    binds,
                ),
            )
        }
    }

    /// The statements that bring the stored server `server_id` into agreement
    /// with a snapshot: no statement at all where the server and its
    /// components are stored as the snapshot gives them.
    pub fn update_server_from_inventory(
        server_id: i32,
        inventory: &ServerInventory,
        components: &ResolvedComponents,
        stored: &StoredComponents,
    ) -> (statements: Vec<SqlStatement>)
        ensures
            views(statements@) == inventory_update(
                server_id as int,
                *inventory,
                *components,
                *stored,
            ),
    {
        let mut statements: Vec<SqlStatement> = optional_to_list(
            Self::sync_server_row(server_id, &stored.server, inventory),
        );
        extend(
            &mut statements,
            optional_to_list(
                Self::sync_server_motherboard(
                    server_id,
                    &stored.motherboard,
                    &inventory.node.motherboard,
                    &inventory.node.bios,
                    components.motherboard_type_id,
                ),
            ),
        );
        extend(&mut statements, Self::sync_server_cpus(server_id, &stored.cpus, &components.cpus));
        extend(&mut statements, Self::sync_server_memory(server_id, &stored.dimms, &components.dimms));
        extend(&mut statements, Self::sync_server_disks(server_id, &stored.disks, &components.disks));
        extend(
            &mut statements,
            Self::sync_server_network_interfaces(
                server_id,
                &stored.interfaces,
                &components.interfaces,
            ),
        );
        extend(
            &mut statements,
            optional_to_list(Self::sync_server_bmc(server_id, &stored.bmc, &inventory.node.bmc)),
        );
        statements
    }

    /// What a submitted snapshot leads to: the update of the server that the
    /// lookup by MAC address found, or the creation of a new one. A snapshot
    /// that names no primary interface with a MAC address is refused.
    pub fn upsert_server_from_inventory(inventory: &ServerInventory, existing_id: Option<i32>) -> (result:
        Result<ServerUpsert, Failure>)
        ensures
            match primary_mac(inventory.network.interfaces@) {
                Ok(_) => result == Ok::<ServerUpsert, Failure>(
                    match existing_id {
                        Some(id) => ServerUpsert::Update(id),
                        None => ServerUpsert::Create,
                    },
                ),
                Err(message) => result is Err && result->Err_0@ == validation_error(message),
            },
    {
        match Self::primary_mac_address(inventory) {
            Ok(_) => Ok(
                match existing_id {
                    Some(id) => ServerUpsert::Update(id),
                    None => ServerUpsert::Create,
                },
            ),
            Err(message) => Err(message),
        }
    }

    /// The count that is recorded under `name`, whatever the case of its
    /// letters; zero where none is.
    pub fn find_count_by_name(stats: &Vec<(String, i64)>, name: &str) -> (count: i64)
        ensures
            count == count_under(stats@, name@),
    {
        let wanted = to_lowercase(name);
        let mut i: usize = 0;
        assert(stats@.skip(0) =~= stats@);
        while i < stats.len()
            invariant
                i <= stats.len(),
                wanted@ == lowercase(name@),
                count_under(stats@, name@) == count_under(stats@.skip(i as int), name@),
            decreases stats.len() - i,
        {
            assert(stats@.skip(i as int).drop_first() =~= stats@.skip(i + 1));
            let found = to_lowercase(stats[i].0.as_str());
            if found == wanted {
                return stats[i].1;
            }
            i += 1;
        }
        0
    }

    /// The counts as a list of JSON objects, each with the members `name`
    /// and `count`.
    pub fn counts_to_json(counts: &Vec<(String, i64)>) -> (list: Vec<JsonValue>)
        ensures
            list.len() == counts.len(),
            forall|i: int|
                0 <= i < list.len() ==> is_count(
                    #[trigger] list@[i],
                    counts@[i].0@,
                    counts@[i].1 as int,
                ),
    {
        let mut list: Vec<JsonValue> = Vec::new();
        let mut i: usize = 0;
        while i < counts.len()
            invariant
                i <= counts.len(),
                list.len() == i,
                forall|j: int|
                    0 <= j < i ==> is_count(#[trigger] list@[j], counts@[j].0@, counts@[j].1 as int),
            decreases counts.len() - i,
        {
            let mut members: Vec<(String, JsonValue)> = Vec::new();
            members.push(("name".to_owned(), JsonValue::Text(counts[i].0.clone())));
            members.push(("count".to_owned(), JsonValue::Number(i64_to_text(counts[i].1))));
            list.push(JsonValue::Object(members));
            i += 1;
        }
        list
    }

    /// The `UPDATE` of a server by named fields.
    ///
    /// Nothing is to be done where `updates` is empty. A field that is no
    /// column of a server is refused, and so is a protected column and a
    /// value that is an array or an object: a validation error. The names are
    /// checked before the values, so the message names the first field that
    /// is no column or is protected where there is one, and else the first
    /// field whose value cannot be bound.
    pub fn update_server(server_id: i32, updates: &Vec<(String, JsonValue)>) -> (result: Result<
        Option<SqlStatement>,
        Failure,
    >)
        ensures
            updates.len() == 0 ==> result is Ok && result->Ok_0 is None,
            updates.len() > 0 ==> match first_server_fault(updates@) {
                Some(message) => result is Err && result->Err_0@ == validation_error(message),
                None => result is Ok && optional_statement(result->Ok_0) == Some(
                    update_statement("servers"@, "server_id"@, server_id as int, updates@),
                ),
            },
    {
        let fields: [&str; 22] = [
            "server_id",
            "agent_version",
            "architecture",
            "chassis_manufacturer",
            "chassis_serial_number",
            "cluster_id",
            "created_at",
            "data_center_id",
            "environment_type",
            "last_inventory_at",
            "manufacturer",
            "product_name",
            "rack_id",
            "rack_position_id",
            "serial_number",
            "server_name",
            "server_type",
            "stage",
            "state",
            "status",
            "sub_cluster_id",
            "updated_at",
        ];
        let protected: [&str; 5] = [
            "server_id",
            "created_at",
            "updated_at",
            "last_inventory_at",
            "component_motherboard_id",
        ];
        assert(views(fields@) =~= server_fields());
        assert(views(protected@) =~= server_protected());
        DatabaseHelper::update_model(
            "servers",
            "server_id",
            server_id,
            updates,
            "Server",
            &fields,
            &protected,
        )
    }
}

/// A primary interface that is found among the first `k` is the one found
/// among the first `n`.
pub proof fn lemma_primary_found_stays(interfaces: Seq<NetworkInterface>, k: int, n: int)
    requires
        0 <= k <= n,
        first_primary(interfaces, k) is Some,
    ensures
        first_primary(interfaces, n) == first_primary(interfaces, k),
    decreases n - k,
{
    if k < n {
        lemma_primary_found_stays(interfaces, k, n - 1);
    }
}

/// A type of the catalog: the lookup that finds it, and its identifier.
pub struct CatalogEntry {
    pub lookup: Statement,
    pub id: int,
}

/// What a lookup finds in the catalog: the identifier of the first type that
/// it matches.
pub open spec fn catalog_find(catalog: Seq<CatalogEntry>, lookup: Statement) -> Option<int>
    decreases catalog.len(),
{
    if catalog.len() == 0 {
        None
    } else {
        match catalog_find(catalog.drop_last(), lookup) {
            Some(id) => Some(id),
            None => if catalog.last().lookup == lookup {
                Some(catalog.last().id)
            } else {
                None
            },
        }
    }
}

/// The identifier that resolving `reference` gives, where the database would
/// give `fresh` to a new type: that of the type which the lookup finds, else
/// `fresh`.
pub open spec fn resolved_id(catalog: Seq<CatalogEntry>, reference: Reference, fresh: int) -> int {
    match catalog_find(catalog, reference.lookup) {
        Some(id) => id,
        None => fresh,
    }
}

/// The catalog once `reference` is resolved: a type that was not found is
/// added, under the lookup that finds it from then on.
pub open spec fn resolved_catalog(
    catalog: Seq<CatalogEntry>,
    reference: Reference,
    fresh: int,
) -> Seq<CatalogEntry> {
    match catalog_find(catalog, reference.lookup) {
        Some(id) => catalog,
        None => catalog.push(CatalogEntry { lookup: reference.lookup, id: fresh }),
    }
}

/// What is found in a catalog is found, under the same identifier, in every
/// catalog that has grown out of it.
pub proof fn lemma_catalog_grows(catalog: Seq<CatalogEntry>, later: Seq<CatalogEntry>, lookup: Statement)
    requires
        catalog.len() <= later.len(),
        later.take(catalog.len() as int) == catalog,
        catalog_find(catalog, lookup) is Some,
    ensures
        catalog_find(later, lookup) == catalog_find(catalog, lookup),
    decreases later.len(),
{
    if later.len() > catalog.len() {
        assert(later.drop_last().take(catalog.len() as int) =~= later.take(catalog.len() as int));
        lemma_catalog_grows(catalog, later.drop_last(), lookup);
    } else {
        assert(later.take(catalog.len() as int) =~= later);
    }
}

/// Two components that ask the catalog the same question resolve to the
/// same type, whenever and for whichever parent they are resolved.
///
/// `catalog` is the catalog when the first is resolved, and `later` the
/// catalog when the second is: it has grown out of the catalog that the
/// first resolution left, for types are added and never removed.
pub proof fn lemma_same_key_same_type(
    catalog: Seq<CatalogEntry>,
    first: Reference,
    first_fresh: int,
    later: Seq<CatalogEntry>,
    second: Reference,
    second_fresh: int,
)
    requires
        second.lookup == first.lookup,
        resolved_catalog(catalog, first, first_fresh).len() <= later.len(),
        later.take(resolved_catalog(catalog, first, first_fresh).len() as int) == resolved_catalog(
            catalog,
            first,
            first_fresh,
        ),
    ensures
        resolved_id(later, second, second_fresh) == resolved_id(catalog, first, first_fresh),
        resolved_catalog(later, second, second_fresh) == later,
{
    let lookup = first.lookup;
    let left = resolved_catalog(catalog, first, first_fresh);
    if catalog_find(catalog, lookup) is None {
        assert(left.drop_last() =~= catalog);
    }
    assert(catalog_find(left, lookup) == Some(resolved_id(catalog, first, first_fresh)));
    lemma_catalog_grows(left, later, lookup);
}

/// A type is created once: the component that was resolved is found when it
/// is resolved again, in a later pass as in the same one, whether or not its
/// business key is complete; its type is the one it had, and the catalog
/// does not grow.
pub proof fn lemma_type_is_created_once(
    catalog: Seq<CatalogEntry>,
    reference: Reference,
    first_fresh: int,
    later: Seq<CatalogEntry>,
    second_fresh: int,
)
    requires
        resolved_catalog(catalog, reference, first_fresh).len() <= later.len(),
        later.take(resolved_catalog(catalog, reference, first_fresh).len() as int)
            == resolved_catalog(catalog, reference, first_fresh),
    ensures
        resolved_id(later, reference, second_fresh) == resolved_id(catalog, reference, first_fresh),
        resolved_catalog(later, reference, second_fresh) == later,
{
    lemma_same_key_same_type(catalog, reference, first_fresh, later, reference, second_fresh);
}

/// Two CPUs of the same manufacturer and model ask the catalog the same
/// question, whatever else they differ in.
pub proof fn lemma_same_cpu_same_lookup(first: CpuDetail, second: CpuDetail)
    requires
        first.manufacturer is Some,
        first.model_name is Some,
        second.manufacturer is Some,
        second.model_name is Some,
        first.manufacturer->0@ == second.manufacturer->0@,
        first.model_name->0@ == second.model_name->0@,
    ensures
        cpu_type_reference(second).lookup == cpu_type_reference(first).lookup,
{
}

/// Two CPUs of the same manufacturer and model, in whichever servers,
/// resolve to the same type of the catalog.
pub proof fn lemma_same_cpu_same_type(
    catalog: Seq<CatalogEntry>,
    first: CpuDetail,
    first_fresh: int,
    later: Seq<CatalogEntry>,
    second: CpuDetail,
    second_fresh: int,
)
    requires
        first.manufacturer is Some,
        first.model_name is Some,
        second.manufacturer is Some,
        second.model_name is Some,
        first.manufacturer->0@ == second.manufacturer->0@,
        first.model_name->0@ == second.model_name->0@,
        resolved_catalog(catalog, cpu_type_reference(first), first_fresh).len() <= later.len(),
        later.take(resolved_catalog(catalog, cpu_type_reference(first), first_fresh).len() as int)
            == resolved_catalog(catalog, cpu_type_reference(first), first_fresh),
    ensures
        resolved_id(later, cpu_type_reference(second), second_fresh) == resolved_id(
            catalog,
            cpu_type_reference(first),
            first_fresh,
        ),
{
    lemma_same_cpu_same_lookup(first, second);
    lemma_same_key_same_type(
        catalog,
        cpu_type_reference(first),
        first_fresh,
        later,
        cpu_type_reference(second),
        second_fresh,
    );
}

/// A motherboard that agrees with the snapshot is left alone: where the
/// snapshot has one and the stored one has its compared attributes, and
/// where neither has one, nothing is written.
pub proof fn lemma_motherboard_settled(
    server_id: int,
    existing: Option<StoredMotherboard>,
    motherboard: Option<MotherboardInfo>,
    bios: Option<BiosInfo>,
    type_id: Option<i32>,
)
    requires
        match motherboard {
            Some(info) => existing is Some && motherboard_stored(existing->0) == motherboard_compared(
                info,
                bios,
                type_id,
            ),
            None => existing is None,
        },
    ensures
        motherboard_sync(server_id, existing, motherboard, bios, type_id) is None,
{
}

/// The row of a server that holds the values of the snapshot is left alone.
pub proof fn lemma_server_row_settled(server_id: int, stored: StoredServer, inventory: ServerInventory)
    requires
        server_stored(stored) == server_binds(inventory),
    ensures
        server_sync(server_id, stored, inventory) is None,
{
}

/// A management controller that agrees with the snapshot is left alone.
pub proof fn lemma_bmc_settled(server_id: int, existing: Option<StoredBmc>, bmc: BmcInfo)
    requires
        if bmc.mac_address is Some {
            existing is Some && bmc_stored(existing->0) == bmc_compared(bmc)
        } else {
            existing is None
        },
    ensures
        bmc_sync(server_id, existing, bmc) is None,
{
}

/// A server that is stored as the snapshot gives it is left alone: where
/// its row holds the values of the snapshot, its motherboard and its
/// management controller agree with the snapshot, and its CPUs, memory
/// modules, disks and network interfaces agree with it too, a pass over the
/// snapshot writes nothing at all.
pub proof fn lemma_settled_server_writes_nothing(
    server_id: int,
    inventory: ServerInventory,
    components: ResolvedComponents,
    stored: StoredComponents,
)
    requires
        server_stored(stored.server) == server_binds(inventory),
        match inventory.node.motherboard {
            Some(info) => stored.motherboard is Some && motherboard_stored(stored.motherboard->0)
                == motherboard_compared(info, inventory.node.bios, components.motherboard_type_id),
            None => stored.motherboard is None,
        },
        if inventory.node.bmc.mac_address is Some {
            stored.bmc is Some && bmc_stored(stored.bmc->0) == bmc_compared(inventory.node.bmc)
        } else {
            stored.bmc is None
        },
        settled(stored_rows(stored.cpus@), snapshot_items(components.cpus@)),
        settled(stored_rows(stored.dimms@), snapshot_items(components.dimms@)),
        settled(stored_rows(stored.disks@), snapshot_items(components.disks@)),
        settled(stored_rows(stored.interfaces@), snapshot_items(components.interfaces@)),
    ensures
        inventory_update(server_id, inventory, components, stored) == Seq::<Statement>::empty(),
{
    lemma_server_row_settled(server_id, stored.server, inventory);
    lemma_motherboard_settled(
        server_id,
        stored.motherboard,
        inventory.node.motherboard,
        inventory.node.bios,
        components.motherboard_type_id,
    );
    lemma_bmc_settled(server_id, stored.bmc, inventory.node.bmc);
    lemma_settled_plans_nothing(stored_rows(stored.cpus@), snapshot_items(components.cpus@));
    lemma_settled_plans_nothing(stored_rows(stored.dimms@), snapshot_items(components.dimms@));
    lemma_settled_plans_nothing(stored_rows(stored.disks@), snapshot_items(components.disks@));
    lemma_settled_plans_nothing(
        stored_rows(stored.interfaces@),
        snapshot_items(components.interfaces@),
    );
    lemma_statements_follow_plan::<ServerCpuDetail, Resolved<CpuDetail>>(
        server_id,
        stored.cpus@,
        components.cpus@,
    );
    lemma_statements_follow_plan::<StoredDimm, Resolved<DimmDetail>>(
        server_id,
        stored.dimms@,
        components.dimms@,
    );
    lemma_statements_follow_plan::<ServerDiskDetail, Resolved<DiskInfo>>(
        server_id,
        stored.disks@,
        components.disks@,
    );
    lemma_statements_follow_plan::<StoredInterface, Resolved<NetworkInterface>>(
        server_id,
        stored.interfaces@,
        components.interfaces@,
    );
    assert(inventory_update(server_id, inventory, components, stored) =~= Seq::<
        Statement,
    >::empty());
}

} // verus!
