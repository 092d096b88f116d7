//! The fact aggregator over hand-built tables and host facts.

use cmdb_agent::collect::{get_machine_info, get_memory, get_processor, CollectError, HostFacts};
use cmdb_agent::host::{
    get_hostname, lookup_value, parse_os_release, trim_at_nul, HostError, Uname,
};
use cmdb_agent::json::json_bytes;
use cmdb_agent::net::{has_ip_iface_filter, veth_interface_filter, NetIface};
use cmdb_agent::smbios::table::{RawTable, Structure};

fn structure(struct_type: u8, fields: Vec<u8>, strings: Vec<&str>) -> Structure {
    Structure {
        struct_type,
        handle: 0,
        fields,
        strings: strings.into_iter().map(String::from).collect(),
    }
}

fn system_with_serial(serial: &str) -> Structure {
    let mut fields = vec![0u8; 0x08];
    fields[0] = 1;
    fields[1] = 0x08;
    fields[7] = 1;
    structure(1, fields, vec![serial])
}

fn uname() -> Uname {
    Uname {
        sysname: String::from("Linux"),
        nodename: String::from("host"),
        release: String::from("6.1.0"),
        version: String::from("#1"),
        machine: String::from("x86_64"),
    }
}

fn facts() -> HostFacts {
    HostFacts {
        in_kube: false,
        node_name: None,
        sys_hostname: Some(String::from("testhost")),
        os_release_lines: vec![String::from("NAME=TestOS"), String::from("VERSION=1.0")],
        uname: Some(uname()),
        platform: String::from("linux"),
        arch: String::from("x86_64"),
        ifaces: vec![NetIface {
            name: String::from("eth0"),
            ipv4: vec![String::from("10.0.0.2")],
            ipv6: vec![String::from("fe80::1")],
            mac_addr: Some(String::from("aa:bb:cc:dd:ee:ff")),
        }],
    }
}

#[test]
fn test_get_machine_info() {
    let table = RawTable {
        structures: vec![system_with_serial("ACME-0042")],
    };
    let info = get_machine_info(&table, &facts()).expect("Machine info");
    println!("{:?}", info);
    assert_eq!(info.hostname, "testhost");
    assert_eq!(info.serial_number, "ACME-0042");
    assert_eq!(info.os.os, "TestOS");
    assert_eq!(info.os.version, "1.0");
    assert_eq!(info.os.kernel, "6.1.0");
    assert_eq!(info.networks.len(), 1);
    assert_eq!(info.networks[0].address, vec!["10.0.0.2", "fe80::1"]);
    assert_eq!(info.networks[0].mac_address, "aa:bb:cc:dd:ee:ff");
}

#[test]
fn test_machine_info_requires_serial() {
    let table = RawTable { structures: vec![] };
    let r = get_machine_info(&table, &facts());
    assert!(matches!(r, Err(CollectError::SerialNumber(_))));
}

#[test]
fn test_machine_info_requires_os_name() {
    let table = RawTable {
        structures: vec![system_with_serial("S")],
    };
    let mut f = facts();
    f.os_release_lines = vec![String::from("VERSION=1.0")];
    assert!(matches!(get_machine_info(&table, &f), Err(CollectError::OsNameNotFound)));
    f.os_release_lines = vec![String::from("NAME=TestOS")];
    assert!(matches!(get_machine_info(&table, &f), Err(CollectError::OsVersionNotFound)));
    f.os_release_lines = vec![String::from("no separator here")];
    assert!(matches!(get_machine_info(&table, &f), Err(CollectError::OsRelease(_))));
    let mut f = facts();
    f.uname = None;
    assert!(matches!(get_machine_info(&table, &f), Err(CollectError::UnameFailed)));
}

#[test]
fn test_aggregation_idempotent() {
    let table = RawTable {
        structures: vec![system_with_serial("ACME-0042")],
    };
    let f = facts();
    let a = get_machine_info(&table, &f).expect("first pass");
    let b = get_machine_info(&table, &f).expect("second pass");
    assert_eq!(json_bytes(&a), json_bytes(&b));
}

fn processor_fields() -> Vec<u8> {
    let mut fields = vec![0u8; 0x30];
    fields[0] = 4;
    fields[1] = 0x30;
    fields
}

#[test]
fn test_two_tier_legacy_sentinel_uses_extended() {
    // Legacy core count carries the see-extended sentinel; extended says 42.
    let mut fields = processor_fields();
    fields[0x23] = 0xFF;
    fields[0x2A] = 42;
    let table = RawTable {
        structures: vec![structure(4, fields, vec![])],
    };
    let ps = get_processor(&table);
    assert_eq!(ps[0].core_count, 42);
}

#[test]
fn test_two_tier_double_sentinel_degrades_to_zero() {
    let mut fields = processor_fields();
    fields[0x23] = 0xFF;
    fields[0x2A] = 0xFF;
    fields[0x2B] = 0xFF;
    let table = RawTable {
        structures: vec![structure(4, fields, vec![])],
    };
    let ps = get_processor(&table);
    assert_eq!(ps[0].core_count, 0);
}

#[test]
fn test_two_tier_plain_legacy_ignores_extended() {
    let mut fields = processor_fields();
    fields[0x23] = 17;
    // Arbitrary extended content must not matter.
    fields[0x2A] = 0xE7;
    fields[0x2B] = 0x03;
    let table = RawTable {
        structures: vec![structure(4, fields, vec![])],
    };
    let ps = get_processor(&table);
    assert_eq!(ps[0].core_count, 17);
}

fn memory_device(size_word: u16, extended: Option<u32>) -> Structure {
    let mut fields = vec![0u8; 0x20];
    fields[0] = 17;
    fields[1] = 0x20;
    fields[0x0C] = (size_word & 0xFF) as u8;
    fields[0x0D] = (size_word >> 8) as u8;
    if let Some(e) = extended {
        fields[0x1C] = (e & 0xFF) as u8;
        fields[0x1D] = ((e >> 8) & 0xFF) as u8;
        fields[0x1E] = ((e >> 16) & 0xFF) as u8;
        fields[0x1F] = ((e >> 24) & 0xFF) as u8;
    }
    structure(17, fields, vec![])
}

#[test]
fn test_memory_aggregation_normalizes_units() {
    // 1024 KB, 1 MB via the extended field, and one socket not installed.
    let table = RawTable {
        structures: vec![
            memory_device(0x8000 | 1024, None),
            memory_device(0x7FFF, Some(1)),
            memory_device(0, None),
        ],
    };
    let m = get_memory(&table);
    assert_eq!(m.total_memory, 1024 * 1024 + 1024 * 1024);
    assert_eq!(m.unit, "B");
}

#[test]
fn test_memory_plain_megabytes() {
    let table = RawTable {
        structures: vec![memory_device(512, None)],
    };
    assert_eq!(get_memory(&table).total_memory, 512 * 1024 * 1024);
}

#[test]
fn test_hostname_orchestrated_uses_node_name() {
    // The probe decides: the syscall name is never consulted.
    let r = get_hostname(
        true,
        &Some(String::from("node-7")),
        &Some(String::from("syscall-name")),
    );
    assert_eq!(r, Ok(String::from("node-7")));
}

#[test]
fn test_hostname_orchestrated_missing_variable_fails() {
    let r = get_hostname(true, &None, &Some(String::from("syscall-name")));
    assert_eq!(r, Err(HostError::NodeNameNotFound));
}

#[test]
fn test_hostname_syscall_trimmed_at_first_nul() {
    let raw = String::from("myhost\0\0leftover");
    let r = get_hostname(false, &Some(String::from("ignored")), &Some(raw));
    assert_eq!(r, Ok(String::from("myhost")));
    assert_eq!(trim_at_nul("plain"), "plain");
    assert_eq!(trim_at_nul("\0x"), "");
}

#[test]
fn test_os_release_last_occurrence_wins() {
    let lines = vec![
        String::from("NAME=First"),
        String::from("PRETTY_NAME=\"Pretty OS\""),
        String::from("NAME=Second"),
    ];
    let pairs = parse_os_release(&lines).expect("parsed");
    assert_eq!(lookup_value(&pairs, "NAME"), Some(String::from("Second")));
    assert_eq!(
        lookup_value(&pairs, "PRETTY_NAME"),
        Some(String::from("\"Pretty OS\""))
    );
    assert_eq!(lookup_value(&pairs, "MISSING"), None);
}

#[test]
fn test_os_release_splits_at_first_separator() {
    let lines = vec![String::from("KEY=a=b")];
    let pairs = parse_os_release(&lines).expect("parsed");
    assert_eq!(pairs[0], (String::from("KEY"), String::from("a=b")));
    assert!(parse_os_release(&vec![String::from("bad line")]).is_err());
}

#[test]
fn test_interface_filters() {
    let veths = vec![String::from("veth0"), String::from("docker0")];
    assert!(!veth_interface_filter(&String::from("veth0"), &veths));
    assert!(veth_interface_filter(&String::from("eth0"), &veths));
    let bare = NetIface {
        name: String::from("dummy"),
        ipv4: vec![],
        ipv6: vec![],
        mac_addr: None,
    };
    assert!(!has_ip_iface_filter(&bare));
    let with_v6 = NetIface {
        name: String::from("wan"),
        ipv4: vec![],
        ipv6: vec![String::from("fe80::2")],
        mac_addr: None,
    };
    assert!(has_ip_iface_filter(&with_v6));
}

#[test]
fn test_interface_without_mac_reported_empty() {
    let table = RawTable {
        structures: vec![system_with_serial("S")],
    };
    let mut f = facts();
    f.ifaces = vec![NetIface {
        name: String::from("eth1"),
        ipv4: vec![String::from("10.0.0.3")],
        ipv6: vec![],
        mac_addr: None,
    }];
    let info = get_machine_info(&table, &f).expect("record");
    assert_eq!(info.networks[0].mac_address, "");
}

#[test]
fn test_machine_info_requires_hostname() {
    let table = RawTable {
        structures: vec![system_with_serial("S")],
    };
    let mut f = facts();
    f.in_kube = true;
    f.node_name = None;
    assert!(matches!(
        get_machine_info(&table, &f),
        Err(CollectError::Hostname(HostError::NodeNameNotFound))
    ));
    let mut f = facts();
    f.sys_hostname = None;
    assert!(matches!(
        get_machine_info(&table, &f),
        Err(CollectError::Hostname(HostError::SyscallFailed))
    ));
}
