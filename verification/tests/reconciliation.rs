use farmcore::errors::Failure;
use farmcore::database::query_builder::SqlStatement;
use farmcore::dates::{parse_optional_us_date, parse_us_date};
use farmcore::models::query::QueryValue;
use farmcore::models::server::{
    ServerCpuDetail, ServerDiskDetail, StoredBmc, StoredDimm, StoredInterface, StoredMotherboard,
    StoredServer,
};
use farmcore::repositories::reconcile::{
    reconcile, same_attributes, NaturalKey, RowWrite, SnapshotItem, StoredRow,
};
use farmcore::repositories::server_repository::{
    BiosInfo, BmcInfo, CpuDetail, CpuInfo, DimmDetail, DiskInfo, MemoryInfo, MotherboardInfo,
    NetworkAddress, NetworkInfo, NetworkInterface, NodeInfo, ReferenceAction, Resolved,
    ResolvedComponents, ServerInventory, ServerRepository, ServerUpsert, SmartInfo,
    StoredComponents,
};
use farmcore::repositories::vm_repository::{
    StoredVm, StoredVmDisk, StoredVmInterface, VmDiskInventory, VmInventory, VmInventoryDetail,
    VmNetworkInventory, VmRepository, VmUpsert,
};

fn text(s: &str) -> QueryValue {
    QueryValue::String(s.to_string())
}

fn some(s: &str) -> Option<String> {
    Some(s.to_string())
}

fn row(id: i32, key: Option<NaturalKey>, attributes: Vec<QueryValue>) -> StoredRow {
    StoredRow { id, key, attributes }
}

fn item(key: Option<NaturalKey>, attributes: Vec<QueryValue>) -> SnapshotItem {
    SnapshotItem { key, attributes }
}

fn number(n: i64) -> Option<NaturalKey> {
    Some(NaturalKey::Number(n))
}

fn name(s: &str) -> Option<NaturalKey> {
    Some(NaturalKey::Text(s.to_string()))
}

#[test]
fn keys_and_attributes_are_compared_by_value() {
    assert!(NaturalKey::Number(1).same(&NaturalKey::Number(1)));
    assert!(!NaturalKey::Number(1).same(&NaturalKey::Number(2)));
    assert!(NaturalKey::Text("a".to_string()).same(&NaturalKey::Text("a".to_string())));
    assert!(!NaturalKey::Text("1".to_string()).same(&NaturalKey::Number(1)));
    assert!(NaturalKey::Single.same(&NaturalKey::Single));
    assert!(same_attributes(&vec![text("a"), QueryValue::Null], &vec![text("a"), QueryValue::Null]));
    assert!(!same_attributes(&vec![text("a")], &vec![text("a"), QueryValue::Null]));
    assert!(!same_attributes(&vec![text("a")], &vec![text("b")]));
    assert!(same_attributes(&vec![], &vec![]));
}

#[test]
fn a_plan_inserts_updates_and_deletes() {
    let rows = vec![
        row(10, number(0), vec![text("a")]),
        row(11, number(1), vec![text("b")]),
        row(12, number(2), vec![text("c")]),
    ];
    let items = vec![
        item(number(3), vec![text("new")]),
        item(number(1), vec![text("changed")]),
        item(number(0), vec![text("a")]),
    ];
    assert_eq!(
        reconcile(&rows, &items),
        vec![
            RowWrite::Insert { item: 0 },
            RowWrite::Update { id: 11, item: 1 },
            RowWrite::Delete { id: 12 },
        ]
    );
}

#[test]
fn nothing_stored_means_everything_is_inserted() {
    let items = vec![item(number(0), vec![]), item(number(1), vec![])];
    assert_eq!(
        reconcile(&Vec::new(), &items),
        vec![RowWrite::Insert { item: 0 }, RowWrite::Insert { item: 1 }]
    );
}

#[test]
fn an_empty_snapshot_deletes_every_keyed_row() {
    let rows = vec![row(1, name("a"), vec![]), row(2, None, vec![]), row(3, name("b"), vec![])];
    assert_eq!(
        reconcile(&rows, &Vec::new()),
        vec![RowWrite::Delete { id: 1 }, RowWrite::Delete { id: 3 }]
    );
    assert_eq!(reconcile(&Vec::new(), &Vec::new()), Vec::new());
}

#[test]
fn rows_and_items_without_a_key_take_no_part() {
    let rows = vec![row(1, None, vec![text("x")])];
    let items = vec![item(None, vec![text("y")])];
    assert_eq!(reconcile(&rows, &items), Vec::new());
}

#[test]
fn a_key_that_stands_twice_in_the_snapshot_counts_once() {
    let rows = vec![row(1, number(0), vec![text("a")])];
    let items = vec![item(number(0), vec![text("a")]), item(number(0), vec![text("b")])];
    assert_eq!(reconcile(&rows, &items), Vec::new());
    assert_eq!(reconcile(&Vec::new(), &items), vec![RowWrite::Insert { item: 0 }]);
    let changed = vec![item(number(0), vec![text("b")]), item(number(0), vec![text("a")])];
    assert_eq!(reconcile(&rows, &changed), vec![RowWrite::Update { id: 1, item: 0 }]);
    let cpus = vec![resolved(cpu(0, Some("CPU0"), "Xeon"), 5), resolved(cpu(0, Some("CPU0"), "Xeon"), 5)];
    let first = ServerRepository::sync_server_cpus(7, &Vec::new(), &cpus);
    assert_eq!(first.len(), 1);
    assert_eq!(
        ServerRepository::sync_server_cpus(7, &vec![stored_cpu(100, 0, Some("CPU0"))], &cpus),
        Vec::new()
    );
}

#[test]
fn a_row_whose_key_an_earlier_row_has_is_left_alone() {
    let rows = vec![row(1, number(0), vec![text("a")]), row(2, number(0), vec![text("b")])];
    assert_eq!(reconcile(&rows, &Vec::new()), vec![RowWrite::Delete { id: 1 }]);
    let items = vec![item(number(0), vec![text("b")])];
    assert_eq!(reconcile(&rows, &items), vec![RowWrite::Update { id: 1, item: 0 }]);
}

#[test]
fn a_second_pass_over_the_same_snapshot_writes_nothing() {
    let rows = vec![
        row(10, name("a"), vec![text("1")]),
        row(11, name("b"), vec![text("2")]),
        row(12, name("c"), vec![text("3")]),
    ];
    let items = vec![
        item(name("b"), vec![text("two")]),
        item(name("d"), vec![text("4")]),
        item(name("a"), vec![text("1")]),
    ];
    let first = reconcile(&rows, &items);
    assert_eq!(
        first,
        vec![
            RowWrite::Update { id: 11, item: 0 },
            RowWrite::Insert { item: 1 },
            RowWrite::Delete { id: 12 },
        ]
    );
    let after = vec![
        row(99, name("d"), vec![text("4")]),
        row(11, name("b"), vec![text("two")]),
        row(10, name("a"), vec![text("1")]),
    ];
    assert_eq!(reconcile(&after, &items), Vec::new());
}

fn cpu(socket: i32, slot: Option<&str>, model: &str) -> CpuDetail {
    CpuDetail {
        socket,
        manufacturer: some("Intel"),
        model_name: some(model),
        num_cores: Some(16),
        num_threads: Some(32),
        capacity_mhz: Some(2400),
        slot: slot.map(|s| s.to_string()),
        l1_cache_kb: None,
        l2_cache_kb: None,
        l3_cache_kb: Some(22528),
    }
}

fn stored_cpu(cpu_id: i32, socket: i32, slot: Option<&str>) -> ServerCpuDetail {
    ServerCpuDetail {
        cpu_id,
        component_cpu_id: 5,
        socket_number: socket,
        slot: slot.map(|s| s.to_string()),
        manufacturer: some("Intel"),
        model_name: some("Xeon"),
        num_cores: None,
        num_threads: None,
        capacity_mhz: None,
        l1_cache_kb: None,
        l2_cache_kb: None,
        l3_cache_kb: None,
    }
}

fn resolved<T>(item: T, type_id: i32) -> Resolved<T> {
    Resolved { item, type_id: Some(type_id) }
}

#[test]
fn resubmitting_without_socket_one_deletes_its_row_and_leaves_socket_zero() {
    let both = vec![
        resolved(cpu(0, Some("CPU0"), "Xeon"), 5),
        resolved(cpu(1, Some("CPU1"), "Xeon"), 5),
    ];
    let first = ServerRepository::sync_server_cpus(7, &Vec::new(), &both);
    assert_eq!(
        first,
        vec![
            SqlStatement {
                sql: "INSERT INTO server_cpus (server_id, component_cpu_id, socket_number, slot) VALUES (?, ?, ?, ?)".to_string(),
                binds: vec![QueryValue::Integer(7), QueryValue::Integer(5), QueryValue::Integer(0), text("CPU0")],
            },
            SqlStatement {
                sql: "INSERT INTO server_cpus (server_id, component_cpu_id, socket_number, slot) VALUES (?, ?, ?, ?)".to_string(),
                binds: vec![QueryValue::Integer(7), QueryValue::Integer(5), QueryValue::Integer(1), text("CPU1")],
            },
        ]
    );
    let stored = vec![stored_cpu(100, 0, Some("CPU0")), stored_cpu(101, 1, Some("CPU1"))];
    assert_eq!(ServerRepository::sync_server_cpus(7, &stored, &both), Vec::new());
    let only_zero = vec![resolved(cpu(0, Some("CPU0"), "Xeon"), 5)];
    assert_eq!(
        ServerRepository::sync_server_cpus(7, &stored, &only_zero),
        vec![SqlStatement {
            sql: "DELETE FROM server_cpus WHERE cpu_id = ?".to_string(),
            binds: vec![QueryValue::Integer(101)],
        }]
    );
    let after = vec![stored_cpu(100, 0, Some("CPU0"))];
    assert_eq!(ServerRepository::sync_server_cpus(7, &after, &only_zero), Vec::new());
}

#[test]
fn a_cpu_that_was_replaced_by_one_of_another_type_is_updated() {
    let stored = vec![stored_cpu(100, 0, Some("CPU0"))];
    let replaced = vec![resolved(cpu(0, Some("CPU0"), "Xeon Gold 6140"), 6)];
    assert_eq!(
        ServerRepository::sync_server_cpus(7, &stored, &replaced),
        vec![SqlStatement {
            sql: "UPDATE server_cpus SET component_cpu_id = ?, slot = ? WHERE cpu_id = ?".to_string(),
            binds: vec![QueryValue::Integer(6), text("CPU0"), QueryValue::Integer(100)],
        }]
    );
    let mut after = stored_cpu(100, 0, Some("CPU0"));
    after.component_cpu_id = 6;
    assert_eq!(ServerRepository::sync_server_cpus(7, &vec![after], &replaced), Vec::new());
}

#[test]
fn a_cpu_whose_slot_differs_is_updated() {
    let stored = vec![stored_cpu(100, 0, None)];
    let incoming = vec![Resolved { item: cpu(0, Some("CPU0"), "Xeon"), type_id: None }];
    assert_eq!(
        ServerRepository::sync_server_cpus(7, &stored, &incoming),
        vec![SqlStatement {
            sql: "UPDATE server_cpus SET component_cpu_id = ?, slot = ? WHERE cpu_id = ?".to_string(),
            binds: vec![QueryValue::Null, text("CPU0"), QueryValue::Integer(100)],
        }]
    );
}

fn dimm(slot: &str, serial: Option<&str>, part: Option<&str>) -> DimmDetail {
    DimmDetail {
        slot: slot.to_string(),
        size_bytes: 17179869184,
        mem_type: some("DDR4"),
        speed_mt_s: Some(3200),
        manufacturer: some("Samsung"),
        serial_number: serial.map(|s| s.to_string()),
        part_number: part.map(|s| s.to_string()),
    }
}

#[test]
fn memory_is_reconciled_slot_by_slot() {
    let stored = vec![
        StoredDimm { dimm_id: 1, component_memory_id: 3, slot: "A1".to_string(), serial_number: some("S1") },
        StoredDimm { dimm_id: 2, component_memory_id: 3, slot: "A2".to_string(), serial_number: some("S2") },
    ];
    let replaced = vec![resolved(dimm("A1", Some("S1"), None), 9), resolved(dimm("A2", Some("S2"), None), 3)];
    assert_eq!(
        ServerRepository::sync_server_memory(7, &stored, &replaced),
        vec![SqlStatement {
            sql: "UPDATE server_memory_dimms SET component_memory_id = ?, serial_number = ? WHERE dimm_id = ?".to_string(),
            binds: vec![QueryValue::Integer(9), text("S1"), QueryValue::Integer(1)],
        }]
    );
    let incoming = vec![
        resolved(dimm("A1", Some("S1"), None), 3),
        resolved(dimm("B1", None, None), 4),
        resolved(dimm("A2", Some("S2-new"), None), 3),
    ];
    assert_eq!(
        ServerRepository::sync_server_memory(7, &stored, &incoming),
        vec![
            SqlStatement {
                sql: "INSERT INTO server_memory_dimms (server_id, component_memory_id, slot, serial_number) VALUES (?, ?, ?, ?)".to_string(),
                binds: vec![QueryValue::Integer(7), QueryValue::Integer(4), text("B1"), QueryValue::Null],
            },
            SqlStatement {
                sql: "UPDATE server_memory_dimms SET component_memory_id = ?, serial_number = ? WHERE dimm_id = ?".to_string(),
                binds: vec![QueryValue::Integer(3), text("S2-new"), QueryValue::Integer(2)],
            },
        ]
    );
    assert_eq!(
        ServerRepository::sync_server_memory(7, &stored, &Vec::new()),
        vec![
            SqlStatement {
                sql: "DELETE FROM server_memory_dimms WHERE dimm_id = ?".to_string(),
                binds: vec![QueryValue::Integer(1)],
            },
            SqlStatement {
                sql: "DELETE FROM server_memory_dimms WHERE dimm_id = ?".to_string(),
                binds: vec![QueryValue::Integer(2)],
            },
        ]
    );
}

fn disk(name: &str, serial: Option<&str>, model: Option<&str>) -> DiskInfo {
    DiskInfo {
        name: name.to_string(),
        dev_path: Some(format!("/dev/{}", name)),
        model: model.map(|s| s.to_string()),
        serial: serial.map(|s| s.to_string()),
        size_bytes: 1000204886016,
        rotational: false,
        bus_type: some("nvme"),
        firmware_version: some("1.0"),
        smart: Some(SmartInfo { health: some("PASSED") }),
    }
}

fn stored_disk(disk_id: i32, name: &str, serial: Option<&str>, type_id: i32) -> ServerDiskDetail {
    ServerDiskDetail {
        disk_id,
        component_disk_id: type_id,
        name: name.to_string(),
        dev_path: Some(format!("/dev/{}", name)),
        serial: serial.map(|s| s.to_string()),
        firmware_version: some("1.0"),
        smart_health: some("PASSED"),
        manufacturer: None,
        model: None,
        size_bytes: None,
        bus_type: None,
        form_factor: None,
        rpm: None,
    }
}

#[test]
fn disks_are_told_apart_by_serial_or_else_by_name() {
    let stored = vec![stored_disk(1, "sda", Some("SER1"), 1), stored_disk(2, "sdb", None, 2)];
    let unchanged = vec![
        resolved(disk("sda", Some("SER1"), Some("Samsung SSD")), 1),
        resolved(disk("sdb", None, None), 2),
    ];
    assert_eq!(ServerRepository::sync_server_disks(7, &stored, &unchanged), Vec::new());

    let mut failing = disk("sdb", None, None);
    failing.smart = Some(SmartInfo { health: some("FAILED") });
    let worse = vec![resolved(disk("sda", Some("SER1"), Some("Samsung SSD")), 3), resolved(failing, 2)];
    assert_eq!(
        ServerRepository::sync_server_disks(7, &stored, &worse),
        vec![
            SqlStatement {
                sql: "UPDATE server_disks SET component_disk_id = ?, name = ?, dev_path = ?, serial = ?, firmware_version = ?, smart_health = ? WHERE disk_id = ?".to_string(),
                binds: vec![
                    QueryValue::Integer(3),
                    text("sda"),
                    text("/dev/sda"),
                    text("SER1"),
                    text("1.0"),
                    text("PASSED"),
                    QueryValue::Integer(1),
                ],
            },
            SqlStatement {
                sql: "UPDATE server_disks SET component_disk_id = ?, name = ?, dev_path = ?, serial = ?, firmware_version = ?, smart_health = ? WHERE disk_id = ?".to_string(),
                binds: vec![
                    QueryValue::Integer(2),
                    text("sdb"),
                    text("/dev/sdb"),
                    QueryValue::Null,
                    text("1.0"),
                    text("FAILED"),
                    QueryValue::Integer(2),
                ],
            },
        ]
    );

    let renamed = vec![resolved(disk("sdc", Some("SER1"), Some("Samsung SSD")), 1)];
    assert_eq!(
        ServerRepository::sync_server_disks(7, &stored, &renamed),
        vec![
            SqlStatement {
                sql: "UPDATE server_disks SET component_disk_id = ?, name = ?, dev_path = ?, serial = ?, firmware_version = ?, smart_health = ? WHERE disk_id = ?".to_string(),
                binds: vec![
                    QueryValue::Integer(1),
                    text("sdc"),
                    text("/dev/sdc"),
                    text("SER1"),
                    text("1.0"),
                    text("PASSED"),
                    QueryValue::Integer(1),
                ],
            },
            SqlStatement {
                sql: "DELETE FROM server_disks WHERE disk_id = ?".to_string(),
                binds: vec![QueryValue::Integer(2)],
            },
        ]
    );
    let mut without_smart = disk("sdd", None, None);
    without_smart.smart = None;
    assert_eq!(
        ServerRepository::sync_server_disks(7, &Vec::new(), &vec![resolved(without_smart, 9)]),
        vec![SqlStatement {
            sql: "INSERT INTO server_disks (server_id, component_disk_id, name, dev_path, serial, firmware_version, smart_health) VALUES (?, ?, ?, ?, ?, ?, ?)".to_string(),
            binds: vec![
                QueryValue::Integer(7),
                QueryValue::Integer(9),
                text("sdd"),
                text("/dev/sdd"),
                QueryValue::Null,
                text("1.0"),
                QueryValue::Null,
            ],
        }]
    );
}

fn interface(name: &str, mac: Option<&str>, primary: bool) -> NetworkInterface {
    NetworkInterface {
        name: name.to_string(),
        mac_address: mac.map(|s| s.to_string()),
        mtu: Some(1500),
        speed_mbps: Some(10000),
        driver: some("ixgbe"),
        firmware_version: None,
        vendor_name: some("Intel"),
        device_name: some("X540"),
        pci_address: some("0000:01:00.0"),
        addresses: vec![
            NetworkAddress { family: "inet".to_string(), address: "10.0.0.5".to_string(), prefix: 24 },
            NetworkAddress { family: "inet6".to_string(), address: "fe80::1".to_string(), prefix: 64 },
        ],
        is_primary: primary,
        bond_group: None,
        bond_master: None,
    }
}

fn stored_interface(id: i32, name: &str, mac: Option<&str>, primary: Option<bool>) -> StoredInterface {
    StoredInterface {
        interface_id: id,
        component_network_id: 4,
        name: name.to_string(),
        mac_address: mac.map(|s| s.to_string()),
        ip_address: some("10.0.0.5"),
        mtu: Some(1500),
        speed_mbps: Some(10000),
        firmware_version: None,
        pci_address: some("0000:01:00.0"),
        is_primary: primary,
        bond_group: None,
        bond_master: None,
    }
}

#[test]
fn interfaces_are_matched_by_mac_address_in_any_case() {
    let stored = vec![stored_interface(1, "eth0", Some("aa:bb:cc:dd:ee:ff"), Some(true))];
    let incoming = vec![resolved(interface("eth0", Some("AA:BB:CC:DD:EE:FF"), true), 4)];
    assert_eq!(ServerRepository::sync_server_network_interfaces(7, &stored, &incoming), Vec::new());
    let mut bonded = interface("eth0", Some("AA:BB:CC:DD:EE:FF"), true);
    bonded.bond_group = some("bond0");
    let changed = ServerRepository::sync_server_network_interfaces(7, &stored, &vec![resolved(bonded, 4)]);
    assert_eq!(changed.len(), 1);
    assert_eq!(changed[0].binds[8], text("bond0"));
    assert_eq!(changed[0].binds[10], QueryValue::Integer(1));
    let other_type = vec![resolved(interface("eth0", Some("AA:BB:CC:DD:EE:FF"), true), 5)];
    let retyped = ServerRepository::sync_server_network_interfaces(7, &stored, &other_type);
    assert_eq!(retyped.len(), 1);
    assert_eq!(retyped[0].binds[0], QueryValue::Integer(5));
}

#[test]
fn the_type_of_an_interface_is_resolved_where_it_takes_part() {
    let with_mac = interface("eth0", Some("aa:bb:cc:dd:ee:ff"), true);
    let without = interface("tun0", None, false);
    assert!(ServerRepository::wants_network_type(&with_mac, true));
    assert!(ServerRepository::wants_network_type(&with_mac, false));
    assert!(ServerRepository::wants_network_type(&without, true));
    assert!(!ServerRepository::wants_network_type(&without, false));
}

#[test]
fn interfaces_without_a_mac_address_are_passed_over() {
    let stored = vec![
        stored_interface(1, "eth0", Some("aa:bb:cc:dd:ee:ff"), Some(true)),
        stored_interface(2, "lo", None, Some(false)),
    ];
    let incoming = vec![
        Resolved { item: interface("tun0", None, false), type_id: None },
        resolved(interface("eth0", Some("aa:bb:cc:dd:ee:ff"), false), 4),
    ];
    assert_eq!(
        ServerRepository::sync_server_network_interfaces(7, &stored, &incoming),
        vec![SqlStatement {
            sql: "UPDATE server_network_interfaces SET component_network_id = ?, name = ?, ip_address = ?, mtu = ?, speed_mbps = ?, firmware_version = ?, pci_address = ?, is_primary = ?, bond_group = ?, bond_master = ? WHERE interface_id = ?".to_string(),
            binds: vec![
                QueryValue::Integer(4),
                text("eth0"),
                text("10.0.0.5"),
                QueryValue::Integer(1500),
                QueryValue::Integer(10000),
                QueryValue::Null,
                text("0000:01:00.0"),
                QueryValue::Boolean(false),
                QueryValue::Null,
                QueryValue::Null,
                QueryValue::Integer(1),
            ],
        }]
    );
}

#[test]
fn a_new_interface_is_inserted_as_a_regular_one() {
    let mut fresh = interface("eth1", Some("11:22:33:44:55:66"), false);
    fresh.addresses = Vec::new();
    let statements = ServerRepository::sync_server_network_interfaces(7, &Vec::new(), &vec![resolved(fresh, 4)]);
    assert_eq!(
        statements,
        vec![SqlStatement {
            sql: "INSERT INTO server_network_interfaces (server_id, component_network_id, name, mac_address, ip_address, mtu, speed_mbps, firmware_version, pci_address, is_primary, bond_group, bond_master, interface_type) VALUES (?, ?, ?, ?, ?, ?, ?, ?, ?, ?, ?, ?, 'REGULAR')".to_string(),
            binds: vec![
                QueryValue::Integer(7),
                QueryValue::Integer(4),
                text("eth1"),
                text("11:22:33:44:55:66"),
                QueryValue::Null,
                QueryValue::Integer(1500),
                QueryValue::Integer(10000),
                QueryValue::Null,
                text("0000:01:00.0"),
                QueryValue::Boolean(false),
                QueryValue::Null,
                QueryValue::Null,
            ],
        }]
    );
}

#[test]
fn dates_are_read_month_first_and_written_year_first() {
    assert_eq!(parse_us_date("03/04/2021"), some("2021-03-04"));
    assert_eq!(parse_us_date("12/31/1999"), some("1999-12-31"));
    assert_eq!(parse_us_date("1/2/2021"), some("2021-01-02"));
    assert_eq!(parse_us_date("02/29/2020"), some("2020-02-29"));
    assert_eq!(parse_us_date("01/01/0987"), some("0987-01-01"));
    assert_eq!(parse_us_date("02/29/2021"), None);
    assert_eq!(parse_us_date("13/01/2021"), None);
    assert_eq!(parse_us_date("2021-03-04"), None);
    assert_eq!(parse_us_date(""), None);
    assert_eq!(parse_optional_us_date(&some("03/04/2021")), some("2021-03-04"));
    assert_eq!(parse_optional_us_date(&None), None);
}

fn motherboard() -> MotherboardInfo {
    MotherboardInfo {
        manufacturer: some("Supermicro"),
        product_name: some("X11DPi"),
        version: some("1.02"),
        serial_number: some("MB1"),
    }
}

fn bios(date: &str) -> BiosInfo {
    BiosInfo { vendor: some("AMI"), version: some("3.4"), release_date: some(date) }
}

#[test]
fn the_motherboard_is_inserted_updated_deleted_or_left() {
    let insert = ServerRepository::sync_server_motherboard(7, &None, &Some(motherboard()), &Some(bios("03/04/2021")), Some(2));
    assert_eq!(
        insert,
        Some(SqlStatement {
            sql: "INSERT INTO server_motherboards (server_id, component_motherboard_id, serial_number, bios_vendor, bios_version, bios_release_date) VALUES (?, ?, ?, ?, ?, ?)".to_string(),
            binds: vec![
                QueryValue::Integer(7),
                QueryValue::Integer(2),
                text("MB1"),
                text("AMI"),
                text("3.4"),
                text("2021-03-04"),
            ],
        })
    );
    let stored = StoredMotherboard {
        motherboard_id: 30,
        component_motherboard_id: Some(2),
        serial_number: some("MB1"),
        bios_vendor: some("AMI"),
        bios_version: some("3.4"),
        bios_release_date: some("2021-03-04"),
    };
    assert_eq!(
        ServerRepository::sync_server_motherboard(7, &Some(stored.clone()), &Some(motherboard()), &Some(bios("03/04/2021")), Some(2)),
        None
    );
    let later = ServerRepository::sync_server_motherboard(7, &Some(stored.clone()), &Some(motherboard()), &Some(bios("03/05/2021")), Some(2));
    assert_eq!(later.unwrap().binds[4], text("2021-03-05"));
    let mut newer = bios("bad date");
    newer.version = some("3.5");
    assert_eq!(
        ServerRepository::sync_server_motherboard(7, &Some(stored.clone()), &Some(motherboard()), &Some(newer), Some(2)),
        Some(SqlStatement {
            sql: "UPDATE server_motherboards SET component_motherboard_id = ?, serial_number = ?, bios_vendor = ?, bios_version = ?, bios_release_date = ? WHERE motherboard_id = ?".to_string(),
            binds: vec![
                QueryValue::Integer(2),
                text("MB1"),
                text("AMI"),
                text("3.5"),
                QueryValue::Null,
                QueryValue::Integer(30),
            ],
        })
    );
    assert!(ServerRepository::sync_server_motherboard(7, &Some(stored.clone()), &Some(motherboard()), &None, Some(2)).is_some());
    assert!(ServerRepository::sync_server_motherboard(7, &Some(stored.clone()), &Some(motherboard()), &Some(bios("03/04/2021")), Some(3)).is_some());
    assert_eq!(
        ServerRepository::sync_server_motherboard(7, &Some(stored), &None, &None, None),
        Some(SqlStatement {
            sql: "DELETE FROM server_motherboards WHERE server_id = ?".to_string(),
            binds: vec![QueryValue::Integer(7)],
        })
    );
    assert_eq!(ServerRepository::sync_server_motherboard(7, &None, &None, &Some(bios("03/04/2021")), None), None);
}

fn bmc(mac: Option<&str>) -> BmcInfo {
    BmcInfo {
        ip_address: some("10.1.0.5"),
        mac_address: mac.map(|s| s.to_string()),
        firmware_version: some("2.10"),
        release_date: some("07/15/2022"),
    }
}

#[test]
fn the_management_controller_is_inserted_updated_deleted_or_left() {
    assert_eq!(
        ServerRepository::sync_server_bmc(7, &None, &bmc(Some("aa:aa:aa:aa:aa:01"))),
        Some(SqlStatement {
            sql: "INSERT INTO server_bmc_interfaces (server_id, name, mac_address, ip_address, firmware_version, release_date, supports_ipmi, supports_redfish, supports_web_interface, is_accessible) VALUES (?, 'bmc0', ?, ?, ?, ?, 1, 1, 1, 0)".to_string(),
            binds: vec![
                QueryValue::Integer(7),
                text("aa:aa:aa:aa:aa:01"),
                text("10.1.0.5"),
                text("2.10"),
                text("2022-07-15"),
            ],
        })
    );
    let stored = StoredBmc {
        bmc_interface_id: 40,
        mac_address: some("aa:aa:aa:aa:aa:01"),
        ip_address: some("10.1.0.5"),
        firmware_version: some("2.10"),
        release_date: some("2022-07-15"),
    };
    assert_eq!(ServerRepository::sync_server_bmc(7, &Some(stored.clone()), &bmc(Some("aa:aa:aa:aa:aa:01"))), None);
    let mut moved = bmc(Some("aa:aa:aa:aa:aa:01"));
    moved.ip_address = some("10.1.0.6");
    assert_eq!(
        ServerRepository::sync_server_bmc(7, &Some(stored.clone()), &moved),
        Some(SqlStatement {
            sql: "UPDATE server_bmc_interfaces SET mac_address = ?, ip_address = ?, firmware_version = ?, release_date = ? WHERE bmc_interface_id = ?".to_string(),
            binds: vec![
                text("aa:aa:aa:aa:aa:01"),
                text("10.1.0.6"),
                text("2.10"),
                text("2022-07-15"),
                QueryValue::Integer(40),
            ],
        })
    );
    assert_eq!(
        ServerRepository::sync_server_bmc(7, &Some(stored), &bmc(None)),
        Some(SqlStatement {
            sql: "DELETE FROM server_bmc_interfaces WHERE server_id = ?".to_string(),
            binds: vec![QueryValue::Integer(7)],
        })
    );
    assert_eq!(ServerRepository::sync_server_bmc(7, &None, &bmc(None)), None);
}

#[test]
fn cpus_of_one_manufacturer_and_model_ask_the_catalog_the_same_question() {
    let first = ServerRepository::find_or_create_cpu_type(&cpu(0, Some("CPU0"), "Xeon Gold 6130"));
    let mut other = cpu(1, None, "Xeon Gold 6130");
    other.num_cores = Some(8);
    let second = ServerRepository::find_or_create_cpu_type(&other);
    assert_eq!(first.lookup, second.lookup);
    assert_eq!(
        first.lookup,
        SqlStatement {
            sql: "SELECT component_cpu_id FROM component_cpu_types WHERE manufacturer = ? AND model_name = ? LIMIT 1".to_string(),
            binds: vec![text("Intel"), text("Xeon Gold 6130")],
        }
    );
    assert_eq!(
        first.insert,
        SqlStatement {
            sql: "INSERT INTO component_cpu_types (manufacturer, model_name, num_cores, num_threads, capacity_mhz, l1_cache_kb, l2_cache_kb, l3_cache_kb) VALUES (?, ?, ?, ?, ?, ?, ?, ?)".to_string(),
            binds: vec![
                text("Intel"),
                text("Xeon Gold 6130"),
                QueryValue::Integer(16),
                QueryValue::Integer(32),
                QueryValue::Integer(2400),
                QueryValue::Null,
                QueryValue::Null,
                QueryValue::Integer(22528),
            ],
        }
    );
    let different = ServerRepository::find_or_create_cpu_type(&cpu(0, None, "Xeon Gold 6140"));
    assert_ne!(first.lookup, different.lookup);
    assert_eq!(first.resolve(Some(12)), ReferenceAction::Reuse(12));
    let insert = second.insert.clone();
    assert_eq!(second.resolve(None), ReferenceAction::Create(insert));
}

#[test]
fn a_component_without_a_complete_key_is_looked_up_by_all_that_its_type_holds() {
    let mut anonymous = cpu(0, None, "x");
    anonymous.model_name = None;
    let request = ServerRepository::find_or_create_cpu_type(&anonymous);
    assert_eq!(
        request.lookup,
        SqlStatement {
            sql: "SELECT component_cpu_id FROM component_cpu_types WHERE manufacturer <=> ? AND model_name <=> ? AND num_cores <=> ? AND num_threads <=> ? AND capacity_mhz <=> ? AND l1_cache_kb <=> ? AND l2_cache_kb <=> ? AND l3_cache_kb <=> ? LIMIT 1".to_string(),
            binds: vec![
                text("Intel"),
                QueryValue::Null,
                QueryValue::Integer(16),
                QueryValue::Integer(32),
                QueryValue::Integer(2400),
                QueryValue::Null,
                QueryValue::Null,
                QueryValue::Integer(22528),
            ],
        }
    );
    assert_eq!(request.lookup.binds, request.insert.binds);
    let again = ServerRepository::find_or_create_cpu_type(&anonymous);
    assert_eq!(again.lookup, request.lookup);
    assert_eq!(again.resolve(Some(3)), ReferenceAction::Reuse(3));

    let memory = ServerRepository::find_or_create_memory_type(&dimm("A1", None, None));
    assert_eq!(
        memory.lookup,
        SqlStatement {
            sql: "SELECT component_memory_id FROM component_memory_types WHERE manufacturer <=> ? AND part_number <=> ? AND size_bytes <=> ? AND mem_type <=> ? AND speed_mt_s <=> ? LIMIT 1".to_string(),
            binds: vec![
                text("Samsung"),
                QueryValue::Null,
                QueryValue::Integer(17179869184),
                text("DDR4"),
                QueryValue::Integer(3200),
            ],
        }
    );
    assert_eq!(
        ServerRepository::find_or_create_memory_type(&dimm("B7", Some("other serial"), None)).lookup,
        memory.lookup
    );
    let mut larger = dimm("A1", None, None);
    larger.size_bytes = 34359738368;
    assert_ne!(ServerRepository::find_or_create_memory_type(&larger).lookup, memory.lookup);

    let disks = ServerRepository::find_or_create_disk_type(&disk("sda", None, None));
    assert_eq!(
        disks.lookup,
        SqlStatement {
            sql: "SELECT component_disk_id FROM component_disk_types WHERE manufacturer <=> ? AND model <=> ? AND size_bytes <=> ? AND bus_type <=> ? LIMIT 1".to_string(),
            binds: vec![QueryValue::Null, QueryValue::Null, QueryValue::Integer(1000204886016), text("nvme")],
        }
    );
    let mut iface = interface("eth0", None, false);
    iface.device_name = None;
    assert_eq!(
        ServerRepository::find_or_create_network_type(&iface).lookup,
        SqlStatement {
            sql: "SELECT component_network_id FROM component_network_types WHERE vendor_name <=> ? AND device_name <=> ? AND max_speed_mbps <=> ? LIMIT 1".to_string(),
            binds: vec![text("Intel"), QueryValue::Null, QueryValue::Integer(10000)],
        }
    );
    let nameless = MotherboardInfo { manufacturer: None, product_name: None, version: some("1"), serial_number: None };
    assert_eq!(ServerRepository::find_or_create_motherboard_type(&nameless), None);
    let half = MotherboardInfo { manufacturer: some("Dell"), product_name: None, version: None, serial_number: None };
    let request = ServerRepository::find_or_create_motherboard_type(&half).unwrap();
    assert_eq!(
        request.lookup,
        SqlStatement {
            sql: "SELECT component_motherboard_id FROM component_motherboard_types WHERE manufacturer <=> ? AND product_name <=> ? AND version <=> ? LIMIT 1".to_string(),
            binds: vec![text("Dell"), QueryValue::Null, QueryValue::Null],
        }
    );
    assert_eq!(request.insert.binds, vec![text("Dell"), QueryValue::Null, QueryValue::Null]);
}

#[test]
fn types_are_looked_up_by_their_business_keys() {
    let memory = ServerRepository::find_or_create_memory_type(&dimm("A1", None, Some("  M393A2K40 \n")));
    assert_eq!(
        memory.lookup,
        SqlStatement {
            sql: "SELECT component_memory_id FROM component_memory_types WHERE part_number = ? LIMIT 1".to_string(),
            binds: vec![text("M393A2K40")],
        }
    );
    assert_eq!(
        memory.insert,
        SqlStatement {
            sql: "INSERT INTO component_memory_types (manufacturer, part_number, size_bytes, mem_type, speed_mt_s) VALUES (?, ?, ?, ?, ?)".to_string(),
            binds: vec![
                text("Samsung"),
                text("M393A2K40"),
                QueryValue::Integer(17179869184),
                text("DDR4"),
                QueryValue::Integer(3200),
            ],
        }
    );
    let disks = ServerRepository::find_or_create_disk_type(&disk("sda", None, Some("Samsung SSD 970 EVO")));
    assert_eq!(
        disks.lookup,
        SqlStatement {
            sql: "SELECT component_disk_id FROM component_disk_types WHERE model = ? LIMIT 1".to_string(),
            binds: vec![text("Samsung SSD 970 EVO")],
        }
    );
    assert_eq!(
        disks.insert,
        SqlStatement {
            sql: "INSERT INTO component_disk_types (manufacturer, model, size_bytes, bus_type) VALUES (?, ?, ?, ?)".to_string(),
            binds: vec![text("Samsung"), text("Samsung SSD 970 EVO"), QueryValue::Integer(1000204886016), text("nvme")],
        }
    );
    let network = ServerRepository::find_or_create_network_type(&interface("eth0", None, false));
    assert_eq!(
        network.lookup,
        SqlStatement {
            sql: "SELECT component_network_id FROM component_network_types WHERE vendor_name = ? AND device_name = ? LIMIT 1".to_string(),
            binds: vec![text("Intel"), text("X540")],
        }
    );
    assert_eq!(
        network.insert,
        SqlStatement {
            sql: "INSERT INTO component_network_types (vendor_name, device_name, max_speed_mbps) VALUES (?, ?, ?)".to_string(),
            binds: vec![text("Intel"), text("X540"), QueryValue::Integer(10000)],
        }
    );
    let board = ServerRepository::find_or_create_motherboard_type(&motherboard()).unwrap();
    assert_eq!(
        board.lookup,
        SqlStatement {
            sql: "SELECT component_motherboard_id FROM component_motherboard_types WHERE manufacturer = ? AND product_name = ? LIMIT 1".to_string(),
            binds: vec![text("Supermicro"), text("X11DPi")],
        }
    );
    assert_eq!(
        board.insert,
        SqlStatement {
            sql: "INSERT INTO component_motherboard_types (manufacturer, product_name, version) VALUES (?, ?, ?)".to_string(),
            binds: vec![text("Supermicro"), text("X11DPi"), text("1.02")],
        }
    );
}

fn inventory(interfaces: Vec<NetworkInterface>) -> ServerInventory {
    ServerInventory {
        agent_version: "1.4.0".to_string(),
        node: NodeInfo {
            hostname: some("web-1"),
            architecture: some("x86_64"),
            product_name: some("SYS-1029"),
            manufacturer: some("Supermicro"),
            serial_number: some("SN1"),
            chassis_manufacturer: None,
            chassis_serial_number: None,
            motherboard: Some(motherboard()),
            bios: Some(bios("03/04/2021")),
            bmc: bmc(Some("aa:aa:aa:aa:aa:01")),
        },
        cpu: CpuInfo { sockets: Some(1), cores: Some(16), threads: Some(32), cpus: vec![cpu(0, None, "Xeon")] },
        memory: MemoryInfo { total_bytes: None, dimms: vec![dimm("A1", None, None)] },
        disks: vec![disk("sda", None, None)],
        network: NetworkInfo { interfaces },
        gpus: Vec::new(),
    }
}

#[test]
fn a_server_is_known_by_the_mac_address_of_its_first_primary_interface() {
    let known = inventory(vec![
        interface("eth0", Some("00:00:00:00:00:01"), false),
        interface("eth1", Some("00:00:00:00:00:02"), true),
        interface("eth2", Some("00:00:00:00:00:03"), true),
    ]);
    assert_eq!(ServerRepository::primary_mac_address(&known), Ok("00:00:00:00:00:02".to_string()));
    assert_eq!(
        ServerRepository::primary_mac_address(&inventory(vec![interface("eth0", Some("00:00:00:00:00:01"), false)])),
        Err(Failure::validation("No primary network interface found".to_string()))
    );
    assert_eq!(
        ServerRepository::primary_mac_address(&inventory(Vec::new())),
        Err(Failure::validation("No primary network interface found".to_string()))
    );
    assert_eq!(
        ServerRepository::primary_mac_address(&inventory(vec![interface("eth0", None, true), interface("eth1", Some("00:00:00:00:00:02"), true)])),
        Err(Failure::validation("Primary network interface has no MAC address".to_string()))
    );
    assert_eq!(
        ServerRepository::check_server_exists_by_mac("00:00:00:00:00:02"),
        SqlStatement {
            sql: "SELECT s.server_id FROM servers s JOIN server_network_interfaces sni ON s.server_id = sni.server_id WHERE sni.mac_address = ? AND sni.is_primary = 1 LIMIT 1".to_string(),
            binds: vec![text("00:00:00:00:00:02")],
        }
    );
}

#[test]
fn a_snapshot_creates_a_new_server_or_updates_the_stored_one() {
    let known = inventory(vec![interface("eth0", Some("00:00:00:00:00:01"), true)]);
    assert_eq!(ServerRepository::upsert_server_from_inventory(&known, None), Ok(ServerUpsert::Create));
    assert_eq!(ServerRepository::upsert_server_from_inventory(&known, Some(7)), Ok(ServerUpsert::Update(7)));
    assert_eq!(
        ServerRepository::upsert_server_from_inventory(&inventory(Vec::new()), Some(7)),
        Err(Failure::validation("No primary network interface found".to_string()))
    );
    assert_eq!(
        ServerRepository::create_server_from_inventory(&known, None),
        Ok(SqlStatement {
            sql: "INSERT INTO servers (agent_version, architecture, chassis_manufacturer, chassis_serial_number, manufacturer, product_name, serial_number, server_name, server_type, stage, state, status, environment_type, last_inventory_at, created_at, updated_at) VALUES (?, ?, ?, ?, ?, ?, ?, ?, 'BAREMETAL', 'DISCOVERY', 'NEW', 'ACTIVE', 'PRODUCTION', NOW(), NOW(), NOW())".to_string(),
            binds: vec![
                text("1.4.0"),
                text("x86_64"),
                QueryValue::Null,
                QueryValue::Null,
                text("Supermicro"),
                text("SYS-1029"),
                text("SN1"),
                text("web-1"),
            ],
        })
    );
    assert_eq!(
        ServerRepository::create_server_from_inventory(&known, Some(-12)),
        Err(Failure::validation("Server already exists with MAC address 00:00:00:00:00:01 (server_id: -12)".to_string()))
    );
    assert_eq!(
        ServerRepository::create_server_from_inventory(&inventory(vec![interface("eth0", None, true)]), Some(1)),
        Err(Failure::validation("Primary network interface has no MAC address".to_string()))
    );
}

fn components(of: &ServerInventory) -> ResolvedComponents {
    ResolvedComponents {
        motherboard_type_id: Some(2),
        cpus: of.cpu.cpus.iter().map(|c| resolved(c.clone(), 5)).collect(),
        dimms: of.memory.dimms.iter().map(|d| resolved(d.clone(), 6)).collect(),
        disks: of.disks.iter().map(|d| resolved(d.clone(), 7)).collect(),
        interfaces: of.network.interfaces.iter().map(|i| resolved(i.clone(), 8)).collect(),
    }
}

#[test]
fn every_component_of_a_new_server_is_inserted() {
    let snapshot = inventory(vec![
        interface("eth0", Some("00:00:00:00:00:01"), true),
        interface("tun0", None, false),
    ]);
    let statements = ServerRepository::insert_server_components(7, &snapshot.node, &components(&snapshot));
    let tables: Vec<&str> = statements
        .iter()
        .map(|s| s.sql.split_whitespace().nth(2).unwrap())
        .collect();
    assert_eq!(
        tables,
        vec![
            "server_motherboards",
            "server_cpus",
            "server_memory_dimms",
            "server_disks",
            "server_network_interfaces",
            "server_network_interfaces",
            "server_bmc_interfaces",
        ]
    );
    assert!(statements.iter().all(|s| s.sql.starts_with("INSERT INTO ")));
    assert!(statements.iter().all(|s| s.binds[0] == QueryValue::Integer(7)));
    assert_eq!(statements[5].binds[3], QueryValue::Null);

    let mut bare = inventory(Vec::new());
    bare.node.motherboard = None;
    bare.node.bmc = bmc(None);
    bare.cpu.cpus = Vec::new();
    bare.memory.dimms = Vec::new();
    bare.disks = Vec::new();
    assert_eq!(ServerRepository::insert_server_components(7, &bare.node, &components(&bare)), Vec::new());
}

fn stored_server(name: &str) -> StoredServer {
    StoredServer {
        agent_version: some("1.4.0"),
        architecture: some("x86_64"),
        chassis_manufacturer: None,
        chassis_serial_number: None,
        manufacturer: some("Supermicro"),
        product_name: some("SYS-1029"),
        serial_number: some("SN1"),
        server_name: some(name),
    }
}

#[test]
fn a_stored_server_is_brought_up_to_a_snapshot_in_one_list_of_statements() {
    let snapshot = inventory(vec![interface("eth0", Some("00:00:00:00:00:01"), true)]);
    let nothing = StoredComponents {
        server: stored_server("web-0"),
        motherboard: None,
        cpus: Vec::new(),
        dimms: Vec::new(),
        disks: Vec::new(),
        interfaces: Vec::new(),
        bmc: None,
    };
    let update = SqlStatement {
        sql: "UPDATE servers SET agent_version = ?, architecture = ?, chassis_manufacturer = ?, chassis_serial_number = ?, manufacturer = ?, product_name = ?, serial_number = ?, server_name = ?, last_inventory_at = NOW(), updated_at = NOW() WHERE server_id = ?".to_string(),
        binds: vec![
            text("1.4.0"),
            text("x86_64"),
            QueryValue::Null,
            QueryValue::Null,
            text("Supermicro"),
            text("SYS-1029"),
            text("SN1"),
            text("web-1"),
            QueryValue::Integer(7),
        ],
    };
    let first = ServerRepository::update_server_from_inventory(7, &snapshot, &components(&snapshot), &nothing);
    assert_eq!(first.len(), 7);
    assert_eq!(first[0], update);
    assert_eq!(first[1..].to_vec(), ServerRepository::insert_server_components(7, &snapshot.node, &components(&snapshot)));
    assert_eq!(ServerRepository::sync_server_row(7, &stored_server("web-0"), &snapshot), Some(update));
    assert_eq!(ServerRepository::sync_server_row(7, &stored_server("web-1"), &snapshot), None);
}

#[test]
fn a_second_pass_over_a_stored_server_writes_nothing_at_all() {
    let snapshot = inventory(vec![interface("eth0", Some("00:00:00:00:00:01"), true)]);
    let mut nic = stored_interface(1, "eth0", Some("00:00:00:00:00:01"), Some(true));
    nic.component_network_id = 8;
    let mut cpu_row = stored_cpu(1, 0, None);
    cpu_row.component_cpu_id = 5;
    let settled = StoredComponents {
        server: stored_server("web-1"),
        motherboard: Some(StoredMotherboard {
            motherboard_id: 1,
            component_motherboard_id: Some(2),
            serial_number: some("MB1"),
            bios_vendor: some("AMI"),
            bios_version: some("3.4"),
            bios_release_date: some("2021-03-04"),
        }),
        cpus: vec![cpu_row],
        dimms: vec![StoredDimm { dimm_id: 1, component_memory_id: 6, slot: "A1".to_string(), serial_number: None }],
        disks: vec![stored_disk(1, "sda", None, 7)],
        interfaces: vec![nic],
        bmc: Some(StoredBmc {
            bmc_interface_id: 1,
            mac_address: some("aa:aa:aa:aa:aa:01"),
            ip_address: some("10.1.0.5"),
            firmware_version: some("2.10"),
            release_date: some("2022-07-15"),
        }),
    };
    assert_eq!(
        ServerRepository::update_server_from_inventory(7, &snapshot, &components(&snapshot), &settled),
        Vec::new()
    );
    let mut upgraded = snapshot.clone();
    upgraded.agent_version = "1.5.0".to_string();
    let second = ServerRepository::update_server_from_inventory(7, &upgraded, &components(&upgraded), &settled);
    assert_eq!(second.len(), 1);
    assert!(second[0].sql.starts_with("UPDATE servers SET "));
    assert_eq!(second[0].binds[0], text("1.5.0"));
}

fn vm_disk(name: &str, size: i32) -> VmDiskInventory {
    VmDiskInventory {
        disk_name: name.to_string(),
        disk_type: some("virtio"),
        disk_format: some("qcow2"),
        disk_size_gb: Some(size),
        disk_path: format!("/var/lib/libvirt/images/{}.qcow2", name),
        is_bootable: Some(name == "vda"),
        storage_type: None,
    }
}

fn stored_vm_disk(id: i32, name: &str, size: i32) -> StoredVmDisk {
    StoredVmDisk {
        vm_disk_id: id,
        disk_name: name.to_string(),
        disk_type: some("virtio"),
        disk_format: some("qcow2"),
        disk_size_gb: Some(size),
        disk_path: format!("/var/lib/libvirt/images/{}.qcow2", name),
        is_bootable: Some(name == "vda"),
        storage_type: None,
    }
}

#[test]
fn the_disks_of_a_virtual_machine_are_reconciled_by_name() {
    let stored = vec![stored_vm_disk(1, "vda", 20), stored_vm_disk(2, "vdb", 100), stored_vm_disk(3, "vdc", 5)];
    let incoming = vec![vm_disk("vda", 20), vm_disk("vdb", 200), vm_disk("vdd", 1)];
    assert_eq!(
        VmRepository::sync_vm_disks(9, &stored, &incoming),
        vec![
            SqlStatement {
                sql: "UPDATE vm_disks SET disk_type = ?, disk_format = ?, disk_size_gb = ?, disk_path = ?, is_bootable = ?, storage_type = ?, updated_at = NOW() WHERE vm_disk_id = ?".to_string(),
                binds: vec![
                    text("virtio"),
                    text("qcow2"),
                    QueryValue::Integer(200),
                    text("/var/lib/libvirt/images/vdb.qcow2"),
                    QueryValue::Boolean(false),
                    QueryValue::Null,
                    QueryValue::Integer(2),
                ],
            },
            SqlStatement {
                sql: "INSERT INTO vm_disks (vm_id, disk_name, disk_type, disk_format, disk_size_gb, disk_path, is_bootable, storage_type, created_at, updated_at) VALUES (?, ?, ?, ?, ?, ?, ?, ?, NOW(), NOW())".to_string(),
                binds: vec![
                    QueryValue::Integer(9),
                    text("vdd"),
                    text("virtio"),
                    text("qcow2"),
                    QueryValue::Integer(1),
                    text("/var/lib/libvirt/images/vdd.qcow2"),
                    QueryValue::Boolean(false),
                    QueryValue::Null,
                ],
            },
            SqlStatement {
                sql: "DELETE FROM vm_disks WHERE vm_disk_id = ?".to_string(),
                binds: vec![QueryValue::Integer(3)],
            },
        ]
    );
    let after = vec![stored_vm_disk(1, "vda", 20), stored_vm_disk(2, "vdb", 200), stored_vm_disk(4, "vdd", 1)];
    assert_eq!(VmRepository::sync_vm_disks(9, &after, &incoming), Vec::new());
}

fn vm_interface(name: &str, mac: &str) -> VmNetworkInventory {
    VmNetworkInventory {
        interface_name: name.to_string(),
        mac_address: some(mac),
        interface_type: some("bridge"),
        network_bridge: some("br0"),
    }
}

fn stored_vm_interface(id: i32, name: &str, mac: Option<&str>, primary: bool) -> StoredVmInterface {
    StoredVmInterface {
        vm_interface_id: id,
        interface_name: name.to_string(),
        mac_address: mac.map(|s| s.to_string()),
        interface_type: some("bridge"),
        network_bridge: some("br0"),
        is_primary: Some(primary),
    }
}

const VM_INTERFACE_UPDATE: &str = "UPDATE vm_network_interfaces SET interface_name = ?, mac_address = ?, interface_type = ?, network_bridge = ?, is_primary = ?, updated_at = NOW() WHERE vm_interface_id = ?";

#[test]
fn the_first_interface_of_a_virtual_machine_is_its_primary_one() {
    let incoming = vec![vm_interface("vnet0", "52:54:00:00:00:01"), vm_interface("vnet1", "52:54:00:00:00:02")];
    let first = VmRepository::sync_vm_network_interfaces(9, &Vec::new(), &incoming);
    assert_eq!(first.len(), 2);
    assert_eq!(
        first[0],
        SqlStatement {
            sql: "INSERT INTO vm_network_interfaces (vm_id, interface_name, mac_address, interface_type, network_bridge, is_primary, created_at, updated_at) VALUES (?, ?, ?, ?, ?, ?, NOW(), NOW())".to_string(),
            binds: vec![
                QueryValue::Integer(9),
                text("vnet0"),
                text("52:54:00:00:00:01"),
                text("bridge"),
                text("br0"),
                QueryValue::Boolean(true),
            ],
        }
    );
    assert_eq!(first[1].binds[5], QueryValue::Boolean(false));
    let stored = vec![
        stored_vm_interface(1, "vnet0", Some("52:54:00:00:00:01"), true),
        stored_vm_interface(2, "vnet1", Some("52:54:00:00:00:02"), false),
    ];
    assert_eq!(VmRepository::sync_vm_network_interfaces(9, &stored, &incoming), Vec::new());
    let swapped = vec![vm_interface("vnet1", "52:54:00:00:00:02"), vm_interface("vnet0", "52:54:00:00:00:01")];
    assert_eq!(
        VmRepository::sync_vm_network_interfaces(9, &stored, &swapped),
        vec![
            SqlStatement {
                sql: VM_INTERFACE_UPDATE.to_string(),
                binds: vec![text("vnet1"), text("52:54:00:00:00:02"), text("bridge"), text("br0"), QueryValue::Boolean(true), QueryValue::Integer(2)],
            },
            SqlStatement {
                sql: VM_INTERFACE_UPDATE.to_string(),
                binds: vec![text("vnet0"), text("52:54:00:00:00:01"), text("bridge"), text("br0"), QueryValue::Boolean(false), QueryValue::Integer(1)],
            },
        ]
    );
    assert_eq!(
        VmRepository::sync_vm_network_interfaces(9, &stored, &Vec::new()),
        vec![
            SqlStatement {
                sql: "DELETE FROM vm_network_interfaces WHERE vm_interface_id = ?".to_string(),
                binds: vec![QueryValue::Integer(1)],
            },
            SqlStatement {
                sql: "DELETE FROM vm_network_interfaces WHERE vm_interface_id = ?".to_string(),
                binds: vec![QueryValue::Integer(2)],
            },
        ]
    );
}

#[test]
fn the_interfaces_of_a_virtual_machine_are_told_apart_by_mac_address() {
    let stored = vec![
        stored_vm_interface(1, "vnet0", Some("52:54:00:00:00:01"), true),
        stored_vm_interface(2, "vnet1", Some("52:54:00:00:00:02"), false),
    ];
    let renamed = vec![vm_interface("vnet7", "52:54:00:00:00:01"), vm_interface("vnet1", "52:54:00:00:00:02")];
    assert_eq!(
        VmRepository::sync_vm_network_interfaces(9, &stored, &renamed),
        vec![SqlStatement {
            sql: VM_INTERFACE_UPDATE.to_string(),
            binds: vec![text("vnet7"), text("52:54:00:00:00:01"), text("bridge"), text("br0"), QueryValue::Boolean(true), QueryValue::Integer(1)],
        }]
    );
    let recabled = vec![vm_interface("vnet0", "52:54:00:00:00:09"), vm_interface("vnet1", "52:54:00:00:00:02")];
    let statements = VmRepository::sync_vm_network_interfaces(9, &stored, &recabled);
    assert_eq!(statements.len(), 2);
    assert!(statements[0].sql.starts_with("INSERT INTO vm_network_interfaces "));
    assert_eq!(statements[0].binds[2], text("52:54:00:00:00:09"));
    assert_eq!(
        statements[1],
        SqlStatement {
            sql: "DELETE FROM vm_network_interfaces WHERE vm_interface_id = ?".to_string(),
            binds: vec![QueryValue::Integer(1)],
        }
    );
    let upper = vec![stored_vm_interface(1, "vnet0", Some("52:54:00:AA:BB:01"), true)];
    let lower = vec![vm_interface("vnet0", "52:54:00:aa:bb:01")];
    assert_eq!(
        VmRepository::sync_vm_network_interfaces(9, &upper, &lower),
        vec![SqlStatement {
            sql: VM_INTERFACE_UPDATE.to_string(),
            binds: vec![text("vnet0"), text("52:54:00:aa:bb:01"), text("bridge"), text("br0"), QueryValue::Boolean(true), QueryValue::Integer(1)],
        }]
    );
}

#[test]
fn an_interface_of_a_virtual_machine_without_a_mac_address_is_known_by_its_name() {
    let mut nameless = vm_interface("vnet0", "unused");
    nameless.mac_address = None;
    let first = VmRepository::sync_vm_network_interfaces(9, &Vec::new(), &vec![nameless.clone()]);
    assert_eq!(first.len(), 1);
    assert_eq!(first[0].binds[1], text("vnet0"));
    assert_eq!(first[0].binds[2], QueryValue::Null);
    let stored = vec![stored_vm_interface(1, "vnet0", None, true)];
    assert_eq!(VmRepository::sync_vm_network_interfaces(9, &stored, &vec![nameless.clone()]), Vec::new());
    let mut other = nameless.clone();
    other.network_bridge = some("br1");
    assert_eq!(
        VmRepository::sync_vm_network_interfaces(9, &stored, &vec![other]),
        vec![SqlStatement {
            sql: VM_INTERFACE_UPDATE.to_string(),
            binds: vec![text("vnet0"), QueryValue::Null, text("bridge"), text("br1"), QueryValue::Boolean(true), QueryValue::Integer(1)],
        }]
    );
}

#[test]
fn a_virtual_machine_is_created_or_updated() {
    let detail = VmInventoryDetail {
        vm_name: "build-1".to_string(),
        vm_uuid: some("uuid-1"),
        vm_state: some("running"),
        hypervisor_type: "kvm".to_string(),
        vcpu_count: Some(4),
        memory_mb: Some(8192),
        guest_os_family: None,
        disks: Vec::new(),
        network_interfaces: Vec::new(),
    };
    let host = VmInventory {
        host_mac_address: "00:00:00:00:00:01".to_string(),
        hypervisor_type: "kvm".to_string(),
        vms: vec![detail.clone()],
    };
    assert_eq!(VmRepository::upsert_vm_from_inventory(&host, Some(7)), Ok(7));
    assert_eq!(
        VmRepository::upsert_vm_from_inventory(&host, None),
        Err(Failure::missing("Server not found with MAC address: 00:00:00:00:00:01. Please ensure the hardware inventory has been posted first.".to_string()))
    );
    assert_eq!(
        VmRepository::find_vm(7, "build-1"),
        SqlStatement {
            sql: "SELECT vm_id, vm_uuid, vcpu_count, memory_mb, vm_state, guest_os_family FROM virtual_machines WHERE server_id = ? AND vm_name = ?".to_string(),
            binds: vec![QueryValue::Integer(7), text("build-1")],
        }
    );
    let create = SqlStatement {
        sql: "INSERT INTO virtual_machines (server_id, vm_name, vm_uuid, hypervisor_type, vcpu_count, memory_mb, vm_state, vm_status, guest_os_family, created_at, updated_at) VALUES (?, ?, ?, ?, ?, ?, ?, 'active', ?, NOW(), NOW())".to_string(),
        binds: vec![
            QueryValue::Integer(7),
            text("build-1"),
            text("uuid-1"),
            text("kvm"),
            QueryValue::Integer(4),
            QueryValue::Integer(8192),
            text("running"),
            QueryValue::Null,
        ],
    };
    let update = SqlStatement {
        sql: "UPDATE virtual_machines SET vm_uuid = ?, vcpu_count = ?, memory_mb = ?, vm_state = ?, guest_os_family = ?, updated_at = NOW() WHERE vm_id = ?".to_string(),
        binds: vec![
            text("uuid-1"),
            QueryValue::Integer(4),
            QueryValue::Integer(8192),
            text("running"),
            QueryValue::Null,
            QueryValue::Integer(31),
        ],
    };
    assert_eq!(VmRepository::create_vm_from_inventory(7, "kvm", &detail), create);
    assert_eq!(VmRepository::update_vm_from_inventory(31, &detail), update);
    assert_eq!(
        VmRepository::upsert_single_vm(7, "kvm", &detail, &None),
        VmUpsert::Create { statement: create }
    );
    let stopped = StoredVm {
        vm_id: 31,
        vm_uuid: some("uuid-1"),
        vcpu_count: Some(4),
        memory_mb: Some(8192),
        vm_state: some("shut off"),
        guest_os_family: None,
    };
    assert_eq!(
        VmRepository::upsert_single_vm(7, "kvm", &detail, &Some(stopped.clone())),
        VmUpsert::Update { vm_id: 31, statement: Some(update) }
    );
    let running = StoredVm { vm_state: some("running"), ..stopped };
    assert_eq!(
        VmRepository::upsert_single_vm(7, "kvm", &detail, &Some(running)),
        VmUpsert::Update { vm_id: 31, statement: None }
    );
}
