//! Keyword resolution over hand-built tables.

use cmdb_agent::smbios::collect_dmidecode;
use cmdb_agent::smbios::opt::{BiosParseError, BiosType, Keyword};
use cmdb_agent::smbios::table::{RawTable, Structure};

fn structure(struct_type: u8, fields: Vec<u8>, strings: Vec<&str>) -> Structure {
    Structure {
        struct_type,
        handle: 0,
        fields,
        strings: strings.into_iter().map(String::from).collect(),
    }
}

fn system_with_serial(serial: &str) -> Structure {
    // Type 1, serial number string at offset 0x07 (string number 1).
    let mut fields = vec![0u8; 0x08];
    fields[0] = 1;
    fields[1] = 0x08;
    fields[7] = 1;
    structure(1, fields, vec![serial])
}

#[test]
fn test_single_class_empty_table_not_found() {
    let table = RawTable { structures: vec![] };
    assert_eq!(
        Keyword::SystemSerialNumber.parse(&table),
        Err(BiosParseError::SystemSerialNumberNotFound)
    );
    assert_eq!(
        Keyword::BiosVendor.parse(&table),
        Err(BiosParseError::BiosVendorNotFound)
    );
    assert_eq!(
        Keyword::SystemUuid.parse(&table),
        Err(BiosParseError::SystemUuidNotFound)
    );
}

#[test]
fn test_single_class_wrong_type_not_found() {
    // A baseboard structure does not satisfy a system keyword.
    let table = RawTable {
        structures: vec![structure(2, vec![2, 8, 0, 0, 1, 0, 0, 0], vec!["Acme"])],
    };
    assert_eq!(
        Keyword::SystemSerialNumber.parse(&table),
        Err(BiosParseError::SystemSerialNumberNotFound)
    );
}

#[test]
fn test_single_class_first_structure_only() {
    // The first matching structure decides; a later one is never consulted.
    let mut empty_serial = vec![0u8; 0x08];
    empty_serial[0] = 1;
    empty_serial[1] = 0x08;
    // Serial field holds string number 9: no such string, so absent.
    empty_serial[7] = 9;
    let table = RawTable {
        structures: vec![
            structure(1, empty_serial, vec![]),
            system_with_serial("LATER"),
        ],
    };
    assert_eq!(
        Keyword::SystemSerialNumber.parse(&table),
        Err(BiosParseError::SystemSerialNumberNotFound)
    );
}

#[test]
fn test_resolution_stops_at_end_of_table() {
    let end = structure(127, vec![127, 4, 0, 0], vec![]);
    let table = RawTable {
        structures: vec![end, system_with_serial("AFTER-END")],
    };
    assert_eq!(
        Keyword::SystemSerialNumber.parse(&table),
        Err(BiosParseError::SystemSerialNumberNotFound)
    );
}

#[test]
fn test_serial_number_resolved() {
    let table = RawTable {
        structures: vec![system_with_serial("ACME-0042")],
    };
    assert_eq!(Keyword::SystemSerialNumber.parse(&table), Ok(String::from("ACME-0042")));
}

fn baseboard(manufacturer_index: u8, strings: Vec<&str>) -> Structure {
    let mut fields = vec![0u8; 0x09];
    fields[0] = 2;
    fields[1] = 0x09;
    fields[4] = manufacturer_index;
    structure(2, fields, strings)
}

#[test]
fn test_multi_concatenates_in_table_order() {
    let table = RawTable {
        structures: vec![baseboard(1, vec!["Alpha"]), baseboard(1, vec!["Beta"])],
    };
    assert_eq!(
        Keyword::BaseboardManufacturer.parse(&table),
        Ok(String::from("Alpha\nBeta"))
    );
}

#[test]
fn test_multi_skips_absent_without_newline() {
    // The middle structure's manufacturer references a missing string: it is
    // skipped entirely, leaving no empty line.
    let table = RawTable {
        structures: vec![
            baseboard(1, vec!["Alpha"]),
            baseboard(9, vec![]),
            baseboard(1, vec!["Gamma"]),
        ],
    };
    assert_eq!(
        Keyword::BaseboardManufacturer.parse(&table),
        Ok(String::from("Alpha\nGamma"))
    );
}

#[test]
fn test_multi_all_absent_not_found() {
    let table = RawTable {
        structures: vec![baseboard(9, vec![]), baseboard(9, vec![])],
    };
    assert_eq!(
        Keyword::BaseboardManufacturer.parse(&table),
        Err(BiosParseError::BaseboardManufacturerNotFound)
    );
}

#[test]
fn test_multi_empty_string_field_counts_as_value() {
    // String number zero reads as the empty string, which is a value, not an
    // absence.
    let table = RawTable {
        structures: vec![baseboard(0, vec![]), baseboard(1, vec!["Beta"])],
    };
    assert_eq!(
        Keyword::BaseboardManufacturer.parse(&table),
        Ok(String::from("\nBeta"))
    );
}

#[test]
fn test_bios_revision_requires_both_parts() {
    // Major at 0x14, minor at 0x15: present in a long enough structure.
    let mut fields = vec![0u8; 0x18];
    fields[0] = 0;
    fields[1] = 0x18;
    fields[0x14] = 1;
    fields[0x15] = 22;
    let table = RawTable {
        structures: vec![structure(0, fields, vec![])],
    };
    assert_eq!(Keyword::BiosRevision.parse(&table), Ok(String::from("1.22")));

    // A structure too short for the minor byte yields no partial revision.
    let mut short = vec![0u8; 0x15];
    short[0] = 0;
    short[1] = 0x15;
    short[0x14] = 1;
    let table = RawTable {
        structures: vec![structure(0, short, vec![])],
    };
    assert_eq!(
        Keyword::BiosRevision.parse(&table),
        Err(BiosParseError::BiosRevisionNotFound)
    );
}

#[test]
fn test_chassis_type_named() {
    let mut fields = vec![0u8; 0x06];
    fields[0] = 3;
    fields[1] = 0x06;
    fields[5] = 0x03;
    let table = RawTable {
        structures: vec![structure(3, fields, vec![])],
    };
    assert_eq!(Keyword::ChassisType.parse(&table), Ok(String::from("Desktop")));
}

fn processor(fields: Vec<u8>, strings: Vec<&str>) -> Structure {
    structure(4, fields, strings)
}

#[test]
fn test_processor_family_legacy_byte() {
    let mut fields = vec![0u8; 0x07];
    fields[0] = 4;
    fields[1] = 0x07;
    fields[6] = 0x03;
    let table = RawTable {
        structures: vec![processor(fields, vec![])],
    };
    assert_eq!(Keyword::ProcessorFamily.parse(&table), Ok(String::from("I8086")));
}

#[test]
fn test_processor_family_defers_to_extended() {
    let mut fields = vec![0u8; 0x2A];
    fields[0] = 4;
    fields[1] = 0x2A;
    fields[6] = 0xFE;
    fields[0x28] = 0x03;
    let table = RawTable {
        structures: vec![processor(fields, vec![])],
    };
    assert_eq!(Keyword::ProcessorFamily.parse(&table), Ok(String::from("I8086")));
}

#[test]
fn test_processor_frequency_rendering() {
    let mut fields = vec![0u8; 0x18];
    fields[0] = 4;
    fields[1] = 0x18;
    fields[0x16] = 0xB8;
    fields[0x17] = 0x0B;
    let table = RawTable {
        structures: vec![processor(fields, vec![])],
    };
    assert_eq!(Keyword::ProcessorFrequency.parse(&table), Ok(String::from("3000 MHz")));

    let mut unknown = vec![0u8; 0x18];
    unknown[0] = 4;
    unknown[1] = 0x18;
    let table = RawTable {
        structures: vec![processor(unknown, vec![])],
    };
    assert_eq!(Keyword::ProcessorFrequency.parse(&table), Ok(String::from("Unknown")));
}

#[test]
fn test_system_uuid_rendering() {
    let mut fields = vec![0u8; 0x18];
    fields[0] = 1;
    fields[1] = 0x18;
    for k in 0..16 {
        fields[8 + k] = (k + 1) as u8;
    }
    let table = RawTable {
        structures: vec![structure(1, fields, vec![])],
    };
    assert_eq!(
        Keyword::SystemUuid.parse(&table),
        Ok(String::from("04030201-0605-0807-090a-0b0c0d0e0f10"))
    );

    let mut zero = vec![0u8; 0x18];
    zero[0] = 1;
    zero[1] = 0x18;
    let table = RawTable {
        structures: vec![structure(1, zero, vec![])],
    };
    assert_eq!(
        Keyword::SystemUuid.parse(&table),
        Ok(String::from("IdNotPresentButSettable"))
    );

    let mut ones = vec![0u8; 0x18];
    ones[0] = 1;
    ones[1] = 0x18;
    for k in 0..16 {
        ones[8 + k] = 0xFF;
    }
    let table = RawTable {
        structures: vec![structure(1, ones, vec![])],
    };
    assert_eq!(Keyword::SystemUuid.parse(&table), Ok(String::from("IdNotPresent")));
}

#[test]
fn test_classifier_code_sets() {
    let t0 = structure(0, vec![0, 4, 0, 0], vec![]);
    let t13 = structure(13, vec![13, 4, 0, 0], vec![]);
    let t1 = structure(1, vec![1, 4, 0, 0], vec![]);
    let t17 = structure(17, vec![17, 4, 0, 0], vec![]);
    let table = RawTable {
        structures: vec![t0, t13, t1, t17],
    };
    let bios = BiosType::parse_vec(&BiosType::Bios, &table);
    assert_eq!(bios.len(), 2);
    assert_eq!(bios[0].struct_type, 0);
    assert_eq!(bios[1].struct_type, 13);
    let memory = BiosType::parse_vec(&BiosType::Numeric(17), &table);
    assert_eq!(memory.len(), 1);
    let first = BiosType::parse(&BiosType::System, &table);
    assert_eq!(first.struct_type, 1);
}

#[test]
fn test_collect_dmidecode_reports_first_absence() {
    let table = RawTable { structures: vec![] };
    assert_eq!(collect_dmidecode(&table), Err(BiosParseError::BiosVendorNotFound));
}

#[test]
fn test_bios_type_from_name() {
    assert_eq!(BiosType::from_name("bios"), Some(BiosType::Bios));
    assert_eq!(BiosType::from_name("memory"), Some(BiosType::Memory));
    assert_eq!(BiosType::from_name("17"), Some(BiosType::Numeric(17)));
    assert_eq!(BiosType::from_name("+009"), Some(BiosType::Numeric(9)));
    assert_eq!(BiosType::from_name("256"), None);
    assert_eq!(BiosType::from_name(""), None);
    assert_eq!(BiosType::from_name("1x"), None);
}

#[test]
fn test_bios_type_code_sets_listed() {
    assert_eq!(BiosType::Bios.codes(), vec![0, 13]);
    assert_eq!(BiosType::System.codes(), vec![1, 12, 15, 23, 32]);
    assert_eq!(BiosType::Numeric(42).codes(), vec![42]);
}

#[test]
fn test_each_keyword_reports_its_own_absence() {
    let table = RawTable { structures: vec![] };
    for kw in Keyword::all() {
        let err = kw.parse(&table).unwrap_err();
        assert_eq!(format!("{:?}", err), format!("{}NotFound", kw.name()));
    }
}
