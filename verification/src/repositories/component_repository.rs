//! The statements that add a type to the catalog of components.

use crate::database::database_helper::{insert_sql, DatabaseHelper};
use crate::database::query_builder::{SqlStatement, Statement};
use crate::models::components::{
    ComponentBmcType, ComponentCpuType, ComponentDiskType, ComponentGpuType, ComponentMemoryType,
    ComponentMotherboardType, ComponentNetworkType,
};
use crate::models::query::{
    flag_or_null, number_or_null, text_or_null, views, QueryValue, SqlValue,
};
use vstd::prelude::*;

verus! {

/// A number that may be absent, or `NULL`.
pub open spec fn long_or_null(number: Option<i64>) -> SqlValue {
    match number {
        Some(n) => SqlValue::Integer(n as int),
        None => SqlValue::Null,
    }
}

fn long_value(number: Option<i64>) -> (value: QueryValue)
    ensures
        value@ == long_or_null(number),
{
    match number {
        Some(n) => QueryValue::Integer(n),
        None => QueryValue::Null,
    }
}

/// The statement that inserts a row with the given columns and values.
fn insert_into(table: &str, columns: &[&str], binds: Vec<QueryValue>) -> (statement: SqlStatement)
    ensures
        statement@ == (Statement { sql: insert_sql(table@, views(columns@)), binds: views(binds@) }),
{
    let sql = DatabaseHelper::build_insert_sql(table, columns);
    SqlStatement::with_binds(sql.as_str(), binds)
}

/// The statement that adds a kind of CPU to the catalog.
pub open spec fn cpu_type_insert(cpu_type: ComponentCpuType) -> Statement {
    Statement {
        sql: insert_sql(
            "component_cpu_types"@,
            seq![
                "manufacturer"@,
                "model_name"@,
                "num_cores"@,
                "num_threads"@,
                "capacity_mhz"@,
                "l1_cache_kb"@,
                "l2_cache_kb"@,
                "l3_cache_kb"@,
            ],
        ),
        binds: seq![
            SqlValue::Text(cpu_type.manufacturer@),
            SqlValue::Text(cpu_type.model_name@),
            number_or_null(cpu_type.num_cores),
            number_or_null(cpu_type.num_threads),
            number_or_null(cpu_type.capacity_mhz),
            number_or_null(cpu_type.l1_cache_kb),
            number_or_null(cpu_type.l2_cache_kb),
            number_or_null(cpu_type.l3_cache_kb),
        ],
    }
}

/// The statement that adds a kind of memory module to the catalog.
pub open spec fn memory_type_insert(memory_type: ComponentMemoryType) -> Statement {
    Statement {
        sql: insert_sql(
            "component_memory_types"@,
            seq!["manufacturer"@, "part_number"@, "size_bytes"@, "mem_type"@, "speed_mt_s"@],
        ),
        binds: seq![
            SqlValue::Text(memory_type.manufacturer@),
            SqlValue::Text(memory_type.part_number@),
            SqlValue::Integer(memory_type.size_bytes as int),
            SqlValue::Text(memory_type.mem_type@),
            number_or_null(memory_type.speed_mt_s),
        ],
    }
}

/// The statement that adds a kind of motherboard to the catalog.
pub open spec fn motherboard_type_insert(motherboard_type: ComponentMotherboardType) -> Statement {
    Statement {
        sql: insert_sql(
            "component_motherboard_types"@,
            seq![
                "manufacturer"@,
                "product_name"@,
                "version"@,
                "bios_version"@,
                "bmc_firmware_version"@,
            ],
        ),
        binds: seq![
            SqlValue::Text(motherboard_type.manufacturer@),
            SqlValue::Text(motherboard_type.product_name@),
            text_or_null(motherboard_type.version),
            text_or_null(motherboard_type.bios_version),
            text_or_null(motherboard_type.bmc_firmware_version),
        ],
    }
}

/// The statement that adds a kind of disk to the catalog.
pub open spec fn disk_type_insert(disk_type: ComponentDiskType) -> Statement {
    Statement {
        sql: insert_sql(
            "component_disk_types"@,
            seq!["manufacturer"@, "model"@, "size_bytes"@, "rotational"@, "bus_type"@],
        ),
        binds: seq![
            text_or_null(disk_type.manufacturer),
            SqlValue::Text(disk_type.model@),
            long_or_null(disk_type.size_bytes),
            flag_or_null(disk_type.rotational),
            text_or_null(disk_type.bus_type),
        ],
    }
}

/// The statement that adds a kind of network interface to the catalog.
pub open spec fn network_type_insert(network_type: ComponentNetworkType) -> Statement {
    Statement {
        sql: insert_sql(
            "component_network_types"@,
            seq!["vendor_name"@, "device_name"@, "driver"@, "max_speed_mbps"@],
        ),
        binds: seq![
            text_or_null(network_type.vendor_name),
            SqlValue::Text(network_type.device_name@),
            text_or_null(network_type.driver),
            number_or_null(network_type.max_speed_mbps),
        ],
    }
}

/// The statement that adds a kind of GPU to the catalog.
pub open spec fn gpu_type_insert(gpu_type: ComponentGpuType) -> Statement {
    Statement {
        sql: insert_sql("component_gpu_types"@, seq!["vendor"@, "model"@, "vram_mb"@]),
        binds: seq![
            SqlValue::Text(gpu_type.vendor@),
            SqlValue::Text(gpu_type.model@),
            number_or_null(gpu_type.vram_mb),
        ],
    }
}

/// The statement that adds a kind of management controller to the catalog.
pub open spec fn bmc_type_insert(bmc_type: ComponentBmcType) -> Statement {
    Statement {
        sql: insert_sql(
            "component_bmc_types"@,
            seq![
                "vendor"@,
                "model"@,
                "firmware_version"@,
                "supports_ipmi"@,
                "supports_redfish"@,
                "supports_web_interface"@,
                "supports_kvm"@,
                "supports_virtual_media"@,
                "has_dedicated_port"@,
                "max_speed_mbps"@,
            ],
        ),
        binds: seq![
            SqlValue::Text(bmc_type.vendor@),
            SqlValue::Text(bmc_type.model@),
            text_or_null(bmc_type.firmware_version),
            flag_or_null(bmc_type.supports_ipmi),
            flag_or_null(bmc_type.supports_redfish),
            flag_or_null(bmc_type.supports_web_interface),
            flag_or_null(bmc_type.supports_kvm),
            flag_or_null(bmc_type.supports_virtual_media),
            flag_or_null(bmc_type.has_dedicated_port),
            number_or_null(bmc_type.max_speed_mbps),
        ],
    }
}

/// The decisions of the repository of the catalog.
pub struct ComponentRepository;

impl ComponentRepository {
    /// The statement that adds a type of CPU.
    pub fn create_cpu_type(cpu_type: &ComponentCpuType) -> (statement: SqlStatement)
        ensures
            statement@ == cpu_type_insert(*cpu_type),
    {
        let columns: [&str; 8] = [
            "manufacturer",
            "model_name",
            "num_cores",
            "num_threads",
            "capacity_mhz",
            "l1_cache_kb",
            "l2_cache_kb",
            "l3_cache_kb",
        ];
        let mut binds = Vec::new();
        binds.push(QueryValue::String(cpu_type.manufacturer.clone()));
        binds.push(QueryValue::String(cpu_type.model_name.clone()));
        binds.push(QueryValue::from_number(cpu_type.num_cores));
        binds.push(QueryValue::from_number(cpu_type.num_threads));
        binds.push(QueryValue::from_number(cpu_type.capacity_mhz));
        binds.push(QueryValue::from_number(cpu_type.l1_cache_kb));
        binds.push(QueryValue::from_number(cpu_type.l2_cache_kb));
        binds.push(QueryValue::from_number(cpu_type.l3_cache_kb));
        assert(views(binds@) =~= cpu_type_insert(*cpu_type).binds);
        assert(views(columns@) =~= seq![
            "manufacturer"@,
            "model_name"@,
            "num_cores"@,
            "num_threads"@,
            "capacity_mhz"@,
            "l1_cache_kb"@,
            "l2_cache_kb"@,
            "l3_cache_kb"@,
        ]);
        insert_into("component_cpu_types", &columns, binds)
    }

    /// The statement that adds a type of memory module.
    pub fn create_memory_type(memory_type: &ComponentMemoryType) -> (statement: SqlStatement)
        ensures
            statement@ == memory_type_insert(*memory_type),
    {
        let columns: [&str; 5] = ["manufacturer", "part_number", "size_bytes", "mem_type", "speed_mt_s"];
        let mut binds = Vec::new();
        binds.push(QueryValue::String(memory_type.manufacturer.clone()));
        binds.push(QueryValue::String(memory_type.part_number.clone()));
        binds.push(QueryValue::Integer(memory_type.size_bytes));
        binds.push(QueryValue::String(memory_type.mem_type.clone()));
        binds.push(QueryValue::from_number(memory_type.speed_mt_s));
        assert(views(binds@) =~= memory_type_insert(*memory_type).binds);
        assert(views(columns@) =~= seq![
            "manufacturer"@,
            "part_number"@,
            "size_bytes"@,
            "mem_type"@,
            "speed_mt_s"@,
        ]);
        insert_into("component_memory_types", &columns, binds)
    }

    /// The statement that adds a type of motherboard.
    pub fn create_motherboard_type(motherboard_type: &ComponentMotherboardType) -> (statement:
        SqlStatement)
        ensures
            statement@ == motherboard_type_insert(*motherboard_type),
    {
        let columns: [&str; 5] = [
            "manufacturer",
            "product_name",
            "version",
            "bios_version",
            "bmc_firmware_version",
        ];
        let mut binds = Vec::new();
        binds.push(QueryValue::String(motherboard_type.manufacturer.clone()));
        binds.push(QueryValue::String(motherboard_type.product_name.clone()));
        binds.push(QueryValue::from_text(&motherboard_type.version));
        binds.push(QueryValue::from_text(&motherboard_type.bios_version));
        binds.push(QueryValue::from_text(&motherboard_type.bmc_firmware_version));
        assert(views(binds@) =~= motherboard_type_insert(*motherboard_type).binds);
        assert(views(columns@) =~= seq![
            "manufacturer"@,
            "product_name"@,
            "version"@,
            "bios_version"@,
            "bmc_firmware_version"@,
        ]);
        insert_into("component_motherboard_types", &columns, binds)
    }

    /// The statement that adds a type of disk.
    pub fn create_disk_type(disk_type: &ComponentDiskType) -> (statement: SqlStatement)
        ensures
            statement@ == disk_type_insert(*disk_type),
    {
        let columns: [&str; 5] = ["manufacturer", "model", "size_bytes", "rotational", "bus_type"];
        let mut binds = Vec::new();
        binds.push(QueryValue::from_text(&disk_type.manufacturer));
        binds.push(QueryValue::String(disk_type.model.clone()));
        binds.push(long_value(disk_type.size_bytes));
        binds.push(QueryValue::from_flag(disk_type.rotational));
        binds.push(QueryValue::from_text(&disk_type.bus_type));
        assert(views(binds@) =~= disk_type_insert(*disk_type).binds);
        assert(views(columns@) =~= seq![
            "manufacturer"@,
            "model"@,
            "size_bytes"@,
            "rotational"@,
            "bus_type"@,
        ]);
        insert_into("component_disk_types", &columns, binds)
    }

    /// The statement that adds a type of network interface.
    pub fn create_network_type(network_type: &ComponentNetworkType) -> (statement: SqlStatement)
        ensures
            statement@ == network_type_insert(*network_type),
    {
        let columns: [&str; 4] = ["vendor_name", "device_name", "driver", "max_speed_mbps"];
        let mut binds = Vec::new();
        binds.push(QueryValue::from_text(&network_type.vendor_name));
        binds.push(QueryValue::String(network_type.device_name.clone()));
        binds.push(QueryValue::from_text(&network_type.driver));
        binds.push(QueryValue::from_number(network_type.max_speed_mbps));
        assert(views(binds@) =~= network_type_insert(*network_type).binds);
        assert(views(columns@) =~= seq![
            "vendor_name"@,
            "device_name"@,
            "driver"@,
            "max_speed_mbps"@,
        ]);
        insert_into("component_network_types", &columns, binds)
    }

    /// The statement that adds a type of GPU.
    pub fn create_gpu_type(gpu_type: &ComponentGpuType) -> (statement: SqlStatement)
        ensures
            statement@ == gpu_type_insert(*gpu_type),
    {
        let columns: [&str; 3] = ["vendor", "model", "vram_mb"];
        let mut binds = Vec::new();
        binds.push(QueryValue::String(gpu_type.vendor.clone()));
        binds.push(QueryValue::String(gpu_type.model.clone()));
        binds.push(QueryValue::from_number(gpu_type.vram_mb));
        assert(views(binds@) =~= gpu_type_insert(*gpu_type).binds);
        assert(views(columns@) =~= seq!["vendor"@, "model"@, "vram_mb"@]);
        insert_into("component_gpu_types", &columns, binds)
    }

    /// The statement that adds a type of management controller.
    pub fn create_bmc_type(bmc_type: &ComponentBmcType) -> (statement: SqlStatement)
        ensures
            statement@ == bmc_type_insert(*bmc_type),
    {
        let columns: [&str; 10] = [
            "vendor",
            "model",
            "firmware_version",
            "supports_ipmi",
            "supports_redfish",
            "supports_web_interface",
            "supports_kvm",
            "supports_virtual_media",
            "has_dedicated_port",
            "max_speed_mbps",
        ];
        let mut binds = Vec::new();
        binds.push(QueryValue::String(bmc_type.vendor.clone()));
        binds.push(QueryValue::String(bmc_type.model.clone()));
        binds.push(QueryValue::from_text(&bmc_type.firmware_version));
        binds.push(QueryValue::from_flag(bmc_type.supports_ipmi));
        binds.push(QueryValue::from_flag(bmc_type.supports_redfish));
        binds.push(QueryValue::from_flag(bmc_type.supports_web_interface));
        binds.push(QueryValue::from_flag(bmc_type.supports_kvm));
        binds.push(QueryValue::from_flag(bmc_type.supports_virtual_media));
        binds.push(QueryValue::from_flag(bmc_type.has_dedicated_port));
        binds.push(QueryValue::from_number(bmc_type.max_speed_mbps));
        assert(views(binds@) =~= bmc_type_insert(*bmc_type).binds);
        assert(views(columns@) =~= seq![
            "vendor"@,
            "model"@,
            "firmware_version"@,
            "supports_ipmi"@,
            "supports_redfish"@,
            "supports_web_interface"@,
            "supports_kvm"@,
            "supports_virtual_media"@,
            "has_dedicated_port"@,
            "max_speed_mbps"@,
        ]);
        insert_into("component_bmc_types", &columns, binds)
    }
}

} // verus!
