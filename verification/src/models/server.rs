//! Rows of a server's components as the database hands them out.

use vstd::prelude::*;

verus! {

/// A credential of a server.
#[derive(Debug, Clone, PartialEq, Eq)]
pub struct ServerCredential {
    pub credential_id: i32,
    pub credential_type: String,
    pub username: String,
    pub password: String,
}

/// An installed CPU: the row of the server, and the type that it refers to.
/// The row is the identifier of the type, the socket and the slot; the
/// fields from `manufacturer` on describe the type and change with it alone,
/// so reconciliation reads the identifier of the type in their place.
#[derive(Debug, Clone, PartialEq, Eq)]
pub struct ServerCpuDetail {
    pub cpu_id: i32,
    pub component_cpu_id: i32,
    pub socket_number: i32,
    pub slot: Option<String>,
    pub manufacturer: Option<String>,
    pub model_name: Option<String>,
    pub num_cores: Option<i32>,
    pub num_threads: Option<i32>,
    pub capacity_mhz: Option<i32>,
    pub l1_cache_kb: Option<i32>,
    pub l2_cache_kb: Option<i32>,
    pub l3_cache_kb: Option<i32>,
}

/// An installed disk: the row of the server, and the type that it refers to.
/// The row is the identifier of the type and the fields up to `smart_health`;
/// the fields from `manufacturer` on describe the type and change with it
/// alone, so reconciliation reads the identifier of the type in their place.
#[derive(Debug, Clone, PartialEq, Eq)]
pub struct ServerDiskDetail {
    pub disk_id: i32,
    pub component_disk_id: i32,
    pub name: String,
    pub dev_path: Option<String>,
    pub serial: Option<String>,
    pub firmware_version: Option<String>,
    pub smart_health: Option<String>,
    pub manufacturer: Option<String>,
    pub model: Option<String>,
    pub size_bytes: Option<i64>,
    pub bus_type: Option<String>,
    pub form_factor: Option<String>,
    pub rpm: Option<i32>,
}

/// An installed GPU: the row of the server, and the type that it refers to.
#[derive(Debug, Clone, PartialEq, Eq)]
pub struct ServerGpuDetail {
    pub gpu_id: i32,
    pub pci_address: Option<String>,
    pub driver_version: Option<String>,
    pub uuid: Option<String>,
    pub vendor: Option<String>,
    pub model: Option<String>,
    pub vram_mb: Option<i32>,
}

/// An installed memory module, as reconciliation reads it.
#[derive(Debug, Clone, PartialEq, Eq)]
pub struct StoredDimm {
    pub dimm_id: i32,
    pub component_memory_id: i32,
    pub slot: String,
    pub serial_number: Option<String>,
}

/// A network interface of a server, as reconciliation reads it.
#[derive(Debug, Clone, PartialEq, Eq)]
pub struct StoredInterface {
    pub interface_id: i32,
    pub component_network_id: i32,
    pub name: String,
    pub mac_address: Option<String>,
    pub ip_address: Option<String>,
    pub mtu: Option<i32>,
    pub speed_mbps: Option<i32>,
    pub firmware_version: Option<String>,
    pub pci_address: Option<String>,
    pub is_primary: Option<bool>,
    pub bond_group: Option<String>,
    pub bond_master: Option<String>,
}

/// The motherboard of a server, as reconciliation reads it. The release
/// date of the BIOS is written year-month-day.
#[derive(Debug, Clone, PartialEq, Eq)]
pub struct StoredMotherboard {
    pub motherboard_id: i32,
    pub component_motherboard_id: Option<i32>,
    pub serial_number: Option<String>,
    pub bios_vendor: Option<String>,
    pub bios_version: Option<String>,
    pub bios_release_date: Option<String>,
}

/// The row of a server, as far as a snapshot writes it.
#[derive(Debug, Clone, PartialEq, Eq)]
pub struct StoredServer {
    pub agent_version: Option<String>,
    pub architecture: Option<String>,
    pub chassis_manufacturer: Option<String>,
    pub chassis_serial_number: Option<String>,
    pub manufacturer: Option<String>,
    pub product_name: Option<String>,
    pub serial_number: Option<String>,
    pub server_name: Option<String>,
}

/// The management controller of a server, as reconciliation reads it. The
/// release date is written year-month-day.
#[derive(Debug, Clone, PartialEq, Eq)]
pub struct StoredBmc {
    pub bmc_interface_id: i32,
    pub mac_address: Option<String>,
    pub ip_address: Option<String>,
    pub firmware_version: Option<String>,
    pub release_date: Option<String>,
}

} // verus!
