//! The keyword resolution engine: each keyword names one typed field of the
//! table and binds to one structure type and one extraction rule.

use vstd::prelude::*;

use crate::smbios::table::{field_byte, field_word, string_field, RawTable, Structure, END_OF_TABLE};
use crate::host::str_eq;
use crate::text::{dec_of, hex_pair, byte_to_hex, u64_to_dec};

verus! {

/// The named fields the agent can resolve from the table.
#[derive(Debug, Clone, Copy, PartialEq, Eq)]
pub enum Keyword {
    BiosVendor,
    BiosVersion,
    BiosReleaseDate,
    BiosRevision,
    FirmwareRevision,
    SystemManufacturer,
    SystemProductName,
    SystemVersion,
    SystemSerialNumber,
    SystemUuid,
    SystemSkuNumber,
    SystemFamily,
    BaseboardManufacturer,
    BaseboardProductName,
    BaseboardVersion,
    BaseboardSerialNumber,
    BaseboardAssetTag,
    ChassisManufacturer,
    ChassisType,
    ChassisVersion,
    ChassisSerialNumber,
    ChassisAssetTag,
    ProcessorFamily,
    ProcessorManufacturer,
    ProcessorVersion,
    ProcessorFrequency,
}

/// The keyword-scoped absence condition: resolution found no value.
#[derive(Debug, Clone, Copy, PartialEq, Eq)]
pub enum BiosParseError {
    BiosVendorNotFound,
    BiosVersionNotFound,
    BiosReleaseDateNotFound,
    BiosRevisionNotFound,
    FirmwareRevisionNotFound,
    SystemManufacturerNotFound,
    SystemProductNameNotFound,
    SystemVersionNotFound,
    SystemSerialNumberNotFound,
    SystemUuidNotFound,
    SystemSkuNumberNotFound,
    SystemFamilyNotFound,
    BaseboardManufacturerNotFound,
    BaseboardProductNameNotFound,
    BaseboardVersionNotFound,
    BaseboardSerialNumberNotFound,
    BaseboardAssetTagNotFound,
    ChassisManufacturerNotFound,
    ChassisTypeNotFound,
    ChassisVersionNotFound,
    ChassisSerialNumberNotFound,
    ChassisAssetTagNotFound,
    ProcessorFamilyNotFound,
    ProcessorManufacturerNotFound,
    ProcessorVersionNotFound,
    ProcessorFrequencyNotFound,
}

/// The rendered name of a processor family byte.
pub uninterp spec fn processor_family_name(raw: u8) -> Seq<char>;

/// The rendered name of an extended processor family word.
pub uninterp spec fn processor_family2_name(raw: u16) -> Seq<char>;

/// The rendered name of a chassis type byte.
pub uninterp spec fn chassis_type_name(raw: u8) -> Seq<char>;

/// Relies on smbioslib's `ProcessorFamilyData` rendering: the family name for
/// a known code, the code itself in hexadecimal otherwise; a function of the
/// byte alone.
#[verifier::external_body]
fn family_name(raw: u8) -> (r: String)
    ensures
        r@ == processor_family_name(raw),
{
    format!("{}", smbioslib::ProcessorFamilyData::from(raw))
}

/// Relies on smbioslib's `ProcessorFamilyData2` rendering: the family name for
/// a known code, the code itself in hexadecimal otherwise; a function of the
/// word alone.
#[verifier::external_body]
fn family2_name(raw: u16) -> (r: String)
    ensures
        r@ == processor_family2_name(raw),
{
    format!("{}", smbioslib::ProcessorFamilyData2::from(raw))
}

/// Relies on smbioslib's `ChassisTypeData` rendering: the chassis kind name
/// for a known code, the code itself in decimal otherwise; a function of the
/// byte alone.
#[verifier::external_body]
fn chassis_name(raw: u8) -> (r: String)
    ensures
        r@ == chassis_type_name(raw),
{
    format!("{}", smbioslib::ChassisTypeData::from(raw))
}

/// A composite revision: both the major and the minor component must be
/// present, else the whole field is absent.
pub open spec fn revision_of(s: Structure, off_major: int, off_minor: int) -> Option<Seq<char>> {
    match (field_byte(s, off_major), field_byte(s, off_minor)) {
        (Option::Some(major), Option::Some(minor)) => Option::Some(
            dec_of(major as nat) + "."@ + dec_of(minor as nat),
        ),
        _ => Option::None,
    }
}

/// The processor family: the legacy byte, or the extended word when the
/// legacy byte carries the see-extended sentinel.
pub open spec fn family_of(s: Structure) -> Option<Seq<char>> {
    match field_byte(s, 0x06) {
        Option::None => Option::None,
        Option::Some(raw) => if raw == 0xFE {
            match field_word(s, 0x28) {
                Option::None => Option::None,
                Option::Some(raw2) => Option::Some(processor_family2_name(raw2)),
            }
        } else {
            Option::Some(processor_family_name(raw))
        },
    }
}

/// The current processor speed, rendered in megahertz, zero meaning unknown.
pub open spec fn frequency_of(s: Structure) -> Option<Seq<char>> {
    match field_word(s, 0x16) {
        Option::None => Option::None,
        Option::Some(mhz) => if mhz == 0 {
            Option::Some("Unknown"@)
        } else {
            Option::Some(dec_of(mhz as nat) + " MHz"@)
        },
    }
}

/// The hyphenated rendering of the sixteen identifier bytes, low-order
/// time fields in little-endian byte order.
pub open spec fn uuid_chars(s: Structure) -> Seq<char> {
    let f = s.fields@;
    hex_pair(f[11]) + hex_pair(f[10]) + hex_pair(f[9]) + hex_pair(f[8]) + "-"@ + hex_pair(f[13])
        + hex_pair(f[12]) + "-"@ + hex_pair(f[15]) + hex_pair(f[14]) + "-"@ + hex_pair(f[16])
        + hex_pair(f[17]) + "-"@ + hex_pair(f[18]) + hex_pair(f[19]) + hex_pair(f[20]) + hex_pair(
        f[21],
    ) + hex_pair(f[22]) + hex_pair(f[23])
}

/// The system identifier: absent if the structure is too short; a fixed
/// phrase when the bytes are all zero (settable) or all ones (not present).
pub open spec fn uuid_of(s: Structure) -> Option<Seq<char>> {
    if s.fields@.len() >= 0x18 {
        if forall|k: int| 0x08 <= k < 0x18 ==> s.fields@[k] == 0 {
            Option::Some("IdNotPresentButSettable"@)
        } else if forall|k: int| 0x08 <= k < 0x18 ==> s.fields@[k] == 0xFF {
            Option::Some("IdNotPresent"@)
        } else {
            Option::Some(uuid_chars(s))
        }
    } else {
        Option::None
    }
}

/// The value a keyword reads out of one structure, absent when the field
/// cannot be resolved there.
pub open spec fn string_value(kw: Keyword, s: Structure) -> Option<Seq<char>> {
    match kw {
        Keyword::BiosVendor => string_field(s, 0x04),
        Keyword::BiosVersion => string_field(s, 0x05),
        Keyword::BiosReleaseDate => string_field(s, 0x08),
        Keyword::BiosRevision => revision_of(s, 0x14, 0x15),
        Keyword::FirmwareRevision => revision_of(s, 0x16, 0x17),
        Keyword::SystemManufacturer => string_field(s, 0x04),
        Keyword::SystemProductName => string_field(s, 0x05),
        Keyword::SystemVersion => string_field(s, 0x06),
        Keyword::SystemSerialNumber => string_field(s, 0x07),
        Keyword::SystemUuid => uuid_of(s),
        Keyword::SystemSkuNumber => string_field(s, 0x19),
        Keyword::SystemFamily => string_field(s, 0x1A),
        Keyword::BaseboardManufacturer => string_field(s, 0x04),
        Keyword::BaseboardProductName => string_field(s, 0x05),
        Keyword::BaseboardVersion => string_field(s, 0x06),
        Keyword::BaseboardSerialNumber => string_field(s, 0x07),
        Keyword::BaseboardAssetTag => string_field(s, 0x08),
        Keyword::ChassisManufacturer => string_field(s, 0x04),
        Keyword::ChassisType => match field_byte(s, 0x05) {
            Option::None => Option::None,
            Option::Some(raw) => Option::Some(chassis_type_name(raw)),
        },
        Keyword::ChassisVersion => string_field(s, 0x06),
        Keyword::ChassisSerialNumber => string_field(s, 0x07),
        Keyword::ChassisAssetTag => string_field(s, 0x08),
        Keyword::ProcessorFamily => family_of(s),
        Keyword::ProcessorManufacturer => string_field(s, 0x07),
        Keyword::ProcessorVersion => string_field(s, 0x10),
        Keyword::ProcessorFrequency => frequency_of(s),
    }
}

impl Keyword {
    /// The structure type code whose fields this keyword reads.
    pub open spec fn type_code(self) -> u8 {
        match self {
            Keyword::BiosVendor => 0,
            Keyword::BiosVersion => 0,
            Keyword::BiosReleaseDate => 0,
            Keyword::BiosRevision => 0,
            Keyword::FirmwareRevision => 0,
            Keyword::SystemManufacturer => 1,
            Keyword::SystemProductName => 1,
            Keyword::SystemVersion => 1,
            Keyword::SystemSerialNumber => 1,
            Keyword::SystemUuid => 1,
            Keyword::SystemSkuNumber => 1,
            Keyword::SystemFamily => 1,
            Keyword::BaseboardManufacturer => 2,
            Keyword::BaseboardProductName => 2,
            Keyword::BaseboardVersion => 2,
            Keyword::BaseboardSerialNumber => 2,
            Keyword::BaseboardAssetTag => 2,
            Keyword::ChassisManufacturer => 3,
            Keyword::ChassisType => 3,
            Keyword::ChassisVersion => 3,
            Keyword::ChassisSerialNumber => 3,
            Keyword::ChassisAssetTag => 3,
            Keyword::ProcessorFamily => 4,
            Keyword::ProcessorManufacturer => 4,
            Keyword::ProcessorVersion => 4,
            Keyword::ProcessorFrequency => 4,
        }
    }

    /// Whether the keyword reads the first matching structure only; the
    /// others fold over every matching structure.
    pub open spec fn is_single(self) -> bool {
        self.type_code() == 0 || self.type_code() == 1
    }

    /// The keyword-specific absence condition.
    pub open spec fn absence(self) -> BiosParseError {
        match self {
            Keyword::BiosVendor => BiosParseError::BiosVendorNotFound,
            Keyword::BiosVersion => BiosParseError::BiosVersionNotFound,
            Keyword::BiosReleaseDate => BiosParseError::BiosReleaseDateNotFound,
            Keyword::BiosRevision => BiosParseError::BiosRevisionNotFound,
            Keyword::FirmwareRevision => BiosParseError::FirmwareRevisionNotFound,
            Keyword::SystemManufacturer => BiosParseError::SystemManufacturerNotFound,
            Keyword::SystemProductName => BiosParseError::SystemProductNameNotFound,
            Keyword::SystemVersion => BiosParseError::SystemVersionNotFound,
            Keyword::SystemSerialNumber => BiosParseError::SystemSerialNumberNotFound,
            Keyword::SystemUuid => BiosParseError::SystemUuidNotFound,
            Keyword::SystemSkuNumber => BiosParseError::SystemSkuNumberNotFound,
            Keyword::SystemFamily => BiosParseError::SystemFamilyNotFound,
            Keyword::BaseboardManufacturer => BiosParseError::BaseboardManufacturerNotFound,
            Keyword::BaseboardProductName => BiosParseError::BaseboardProductNameNotFound,
            Keyword::BaseboardVersion => BiosParseError::BaseboardVersionNotFound,
            Keyword::BaseboardSerialNumber => BiosParseError::BaseboardSerialNumberNotFound,
            Keyword::BaseboardAssetTag => BiosParseError::BaseboardAssetTagNotFound,
            Keyword::ChassisManufacturer => BiosParseError::ChassisManufacturerNotFound,
            Keyword::ChassisType => BiosParseError::ChassisTypeNotFound,
            Keyword::ChassisVersion => BiosParseError::ChassisVersionNotFound,
            Keyword::ChassisSerialNumber => BiosParseError::ChassisSerialNumberNotFound,
            Keyword::ChassisAssetTag => BiosParseError::ChassisAssetTagNotFound,
            Keyword::ProcessorFamily => BiosParseError::ProcessorFamilyNotFound,
            Keyword::ProcessorManufacturer => BiosParseError::ProcessorManufacturerNotFound,
            Keyword::ProcessorVersion => BiosParseError::ProcessorVersionNotFound,
            Keyword::ProcessorFrequency => BiosParseError::ProcessorFrequencyNotFound,
        }
    }
}

/// Every keyword, in its fixed enumeration order.
pub open spec fn all_keywords() -> Seq<Keyword> {
    seq![
        Keyword::BiosVendor,
        Keyword::BiosVersion,
        Keyword::BiosReleaseDate,
        Keyword::BiosRevision,
        Keyword::FirmwareRevision,
        Keyword::SystemManufacturer,
        Keyword::SystemProductName,
        Keyword::SystemVersion,
        Keyword::SystemSerialNumber,
        Keyword::SystemUuid,
        Keyword::SystemSkuNumber,
        Keyword::SystemFamily,
        Keyword::BaseboardManufacturer,
        Keyword::BaseboardProductName,
        Keyword::BaseboardVersion,
        Keyword::BaseboardSerialNumber,
        Keyword::BaseboardAssetTag,
        Keyword::ChassisManufacturer,
        Keyword::ChassisType,
        Keyword::ChassisVersion,
        Keyword::ChassisSerialNumber,
        Keyword::ChassisAssetTag,
        Keyword::ProcessorFamily,
        Keyword::ProcessorManufacturer,
        Keyword::ProcessorVersion,
        Keyword::ProcessorFrequency,
    ]
}

/// A keyword's rendered name.
pub open spec fn keyword_name(kw: Keyword) -> Seq<char> {
    match kw {
        Keyword::BiosVendor => "BiosVendor"@,
        Keyword::BiosVersion => "BiosVersion"@,
        Keyword::BiosReleaseDate => "BiosReleaseDate"@,
        Keyword::BiosRevision => "BiosRevision"@,
        Keyword::FirmwareRevision => "FirmwareRevision"@,
        Keyword::SystemManufacturer => "SystemManufacturer"@,
        Keyword::SystemProductName => "SystemProductName"@,
        Keyword::SystemVersion => "SystemVersion"@,
        Keyword::SystemSerialNumber => "SystemSerialNumber"@,
        Keyword::SystemUuid => "SystemUuid"@,
        Keyword::SystemSkuNumber => "SystemSkuNumber"@,
        Keyword::SystemFamily => "SystemFamily"@,
        Keyword::BaseboardManufacturer => "BaseboardManufacturer"@,
        Keyword::BaseboardProductName => "BaseboardProductName"@,
        Keyword::BaseboardVersion => "BaseboardVersion"@,
        Keyword::BaseboardSerialNumber => "BaseboardSerialNumber"@,
        Keyword::BaseboardAssetTag => "BaseboardAssetTag"@,
        Keyword::ChassisManufacturer => "ChassisManufacturer"@,
        Keyword::ChassisType => "ChassisType"@,
        Keyword::ChassisVersion => "ChassisVersion"@,
        Keyword::ChassisSerialNumber => "ChassisSerialNumber"@,
        Keyword::ChassisAssetTag => "ChassisAssetTag"@,
        Keyword::ProcessorFamily => "ProcessorFamily"@,
        Keyword::ProcessorManufacturer => "ProcessorManufacturer"@,
        Keyword::ProcessorVersion => "ProcessorVersion"@,
        Keyword::ProcessorFrequency => "ProcessorFrequency"@,
    }
}

impl Keyword {
    /// Every keyword, for iteration.
    pub fn all() -> (r: Vec<Keyword>)
        ensures
            r@ == all_keywords(),
    {
        let r = vec![
            Keyword::BiosVendor,
            Keyword::BiosVersion,
            Keyword::BiosReleaseDate,
            Keyword::BiosRevision,
            Keyword::FirmwareRevision,
            Keyword::SystemManufacturer,
            Keyword::SystemProductName,
            Keyword::SystemVersion,
            Keyword::SystemSerialNumber,
            Keyword::SystemUuid,
            Keyword::SystemSkuNumber,
            Keyword::SystemFamily,
            Keyword::BaseboardManufacturer,
            Keyword::BaseboardProductName,
            Keyword::BaseboardVersion,
            Keyword::BaseboardSerialNumber,
            Keyword::BaseboardAssetTag,
            Keyword::ChassisManufacturer,
            Keyword::ChassisType,
            Keyword::ChassisVersion,
            Keyword::ChassisSerialNumber,
            Keyword::ChassisAssetTag,
            Keyword::ProcessorFamily,
            Keyword::ProcessorManufacturer,
            Keyword::ProcessorVersion,
            Keyword::ProcessorFrequency,
        ];
        proof {
            assert(r@ =~= all_keywords());
        }
        r
    }

    /// This keyword's rendered name.
    pub fn name(&self) -> (r: String)
        ensures
            r@ == keyword_name(*self),
    {
        match *self {
            Keyword::BiosVendor => String::from_str("BiosVendor"),
            Keyword::BiosVersion => String::from_str("BiosVersion"),
            Keyword::BiosReleaseDate => String::from_str("BiosReleaseDate"),
            Keyword::BiosRevision => String::from_str("BiosRevision"),
            Keyword::FirmwareRevision => String::from_str("FirmwareRevision"),
            Keyword::SystemManufacturer => String::from_str("SystemManufacturer"),
            Keyword::SystemProductName => String::from_str("SystemProductName"),
            Keyword::SystemVersion => String::from_str("SystemVersion"),
            Keyword::SystemSerialNumber => String::from_str("SystemSerialNumber"),
            Keyword::SystemUuid => String::from_str("SystemUuid"),
            Keyword::SystemSkuNumber => String::from_str("SystemSkuNumber"),
            Keyword::SystemFamily => String::from_str("SystemFamily"),
            Keyword::BaseboardManufacturer => String::from_str("BaseboardManufacturer"),
            Keyword::BaseboardProductName => String::from_str("BaseboardProductName"),
            Keyword::BaseboardVersion => String::from_str("BaseboardVersion"),
            Keyword::BaseboardSerialNumber => String::from_str("BaseboardSerialNumber"),
            Keyword::BaseboardAssetTag => String::from_str("BaseboardAssetTag"),
            Keyword::ChassisManufacturer => String::from_str("ChassisManufacturer"),
            Keyword::ChassisType => String::from_str("ChassisType"),
            Keyword::ChassisVersion => String::from_str("ChassisVersion"),
            Keyword::ChassisSerialNumber => String::from_str("ChassisSerialNumber"),
            Keyword::ChassisAssetTag => String::from_str("ChassisAssetTag"),
            Keyword::ProcessorFamily => String::from_str("ProcessorFamily"),
            Keyword::ProcessorManufacturer => String::from_str("ProcessorManufacturer"),
            Keyword::ProcessorVersion => String::from_str("ProcessorVersion"),
            Keyword::ProcessorFrequency => String::from_str("ProcessorFrequency"),
        }
    }
}

/// The structures the resolver walks for one type code: those standing
/// before the end-of-table marker, in table order.
pub open spec fn of_type(t: Seq<Structure>, code: u8) -> Seq<Structure>
    decreases t.len(),
{
    if t.len() == 0 {
        Seq::<Structure>::empty()
    } else if t[0].struct_type == END_OF_TABLE {
        Seq::<Structure>::empty()
    } else if t[0].struct_type == code {
        seq![t[0]] + of_type(t.skip(1), code)
    } else {
        of_type(t.skip(1), code)
    }
}

/// The non-absent values a multi-structure keyword reads, in order, absent
/// values skipped.
pub open spec fn values_from(kw: Keyword, ss: Seq<Structure>) -> Seq<Seq<char>>
    decreases ss.len(),
{
    if ss.len() == 0 {
        Seq::<Seq<char>>::empty()
    } else {
        match string_value(kw, ss[0]) {
            Option::Some(v) => seq![v] + values_from(kw, ss.skip(1)),
            Option::None => values_from(kw, ss.skip(1)),
        }
    }
}

/// Newline-joined concatenation, no separator before the first or after the
/// last piece.
pub open spec fn join_nl(vs: Seq<Seq<char>>) -> Seq<char>
    decreases vs.len(),
{
    if vs.len() == 0 {
        Seq::<char>::empty()
    } else if vs.len() == 1 {
        vs[0]
    } else {
        join_nl(vs.drop_last()) + "\n"@ + vs.last()
    }
}

/// The views of a vector of strings.
pub open spec fn views(ss: Seq<String>) -> Seq<Seq<char>> {
    ss.map_values(|s: String| s@)
}

/// The full resolution policy for one keyword over one table.
pub open spec fn resolve(kw: Keyword, t: Seq<Structure>) -> Option<Seq<char>> {
    if kw.is_single() {
        let m = of_type(t, kw.type_code());
        if m.len() == 0 {
            Option::<Seq<char>>::None
        } else {
            string_value(kw, m[0])
        }
    } else {
        let vs = values_from(kw, of_type(t, kw.type_code()));
        if vs.len() == 0 {
            Option::<Seq<char>>::None
        } else {
            Option::Some(join_nl(vs))
        }
    }
}

impl Keyword {
    /// Reads this keyword's value out of one structure.
    pub fn field_value(&self, s: &Structure) -> (r: Option<String>)
        ensures
            match string_value(*self, *s) {
                Option::None => r is None,
                Option::Some(v) => r is Some && r->0@ == v,
            },
    {
        match *self {
            Keyword::BiosVendor => s.read_string(0x04),
            Keyword::BiosVersion => s.read_string(0x05),
            Keyword::BiosReleaseDate => s.read_string(0x08),
            Keyword::BiosRevision => revision_value(s, 0x14, 0x15),
            Keyword::FirmwareRevision => revision_value(s, 0x16, 0x17),
            Keyword::SystemManufacturer => s.read_string(0x04),
            Keyword::SystemProductName => s.read_string(0x05),
            Keyword::SystemVersion => s.read_string(0x06),
            Keyword::SystemSerialNumber => s.read_string(0x07),
            Keyword::SystemUuid => uuid_value(s),
            Keyword::SystemSkuNumber => s.read_string(0x19),
            Keyword::SystemFamily => s.read_string(0x1A),
            Keyword::BaseboardManufacturer => s.read_string(0x04),
            Keyword::BaseboardProductName => s.read_string(0x05),
            Keyword::BaseboardVersion => s.read_string(0x06),
            Keyword::BaseboardSerialNumber => s.read_string(0x07),
            Keyword::BaseboardAssetTag => s.read_string(0x08),
            Keyword::ChassisManufacturer => s.read_string(0x04),
            Keyword::ChassisType => match s.read_byte(0x05) {
                None => None,
                Some(raw) => Some(chassis_name(raw)),
            },
            Keyword::ChassisVersion => s.read_string(0x06),
            Keyword::ChassisSerialNumber => s.read_string(0x07),
            Keyword::ChassisAssetTag => s.read_string(0x08),
            Keyword::ProcessorFamily => family_value(s),
            Keyword::ProcessorManufacturer => s.read_string(0x07),
            Keyword::ProcessorVersion => s.read_string(0x10),
            Keyword::ProcessorFrequency => frequency_value(s),
        }
    }

    /// Resolves this keyword against the table: the first matching
    /// structure's field for single-structure keywords; the newline-joined
    /// non-absent values of every matching structure otherwise.  Absence is
    /// the keyword's own error, never a panic.
    pub fn parse(&self, data: &RawTable) -> (r: Result<String, BiosParseError>)
        ensures
            match r {
                Result::Ok(v) => resolve(*self, data.structures@) is Some && v@ == resolve(
                    *self,
                    data.structures@,
                )->0,
                Result::Err(e) => resolve(*self, data.structures@) is None && e == self.absence(),
            },
    {
        let single = self.single();
        let code = self.code();
        if single {
            match find_first(data, code) {
                None => Err(self.not_found()),
                Some(i) => match self.field_value(&data.structures[i]) {
                    None => Err(self.not_found()),
                    Some(v) => Ok(v),
                },
            }
        } else {
            let vals = self.collect_values(data, code);
            if vals.len() == 0 {
                Err(self.not_found())
            } else {
                Ok(join_newline(&vals))
            }
        }
    }

    /// Whether this keyword reads the first matching structure only.
    pub fn single(&self) -> (r: bool)
        ensures
            r == self.is_single(),
    {
        self.code() <= 1
    }

    /// The structure type code this keyword reads.
    pub fn code(&self) -> (r: u8)
        ensures
            r == self.type_code(),
    {
        match *self {
            Keyword::BiosVendor | Keyword::BiosVersion | Keyword::BiosReleaseDate
                | Keyword::BiosRevision | Keyword::FirmwareRevision => 0,
            Keyword::SystemManufacturer | Keyword::SystemProductName | Keyword::SystemVersion
                | Keyword::SystemSerialNumber | Keyword::SystemUuid | Keyword::SystemSkuNumber
                | Keyword::SystemFamily => 1,
            Keyword::BaseboardManufacturer | Keyword::BaseboardProductName
                | Keyword::BaseboardVersion | Keyword::BaseboardSerialNumber
                | Keyword::BaseboardAssetTag => 2,
            Keyword::ChassisManufacturer | Keyword::ChassisType | Keyword::ChassisVersion
                | Keyword::ChassisSerialNumber | Keyword::ChassisAssetTag => 3,
            Keyword::ProcessorFamily | Keyword::ProcessorManufacturer | Keyword::ProcessorVersion
                | Keyword::ProcessorFrequency => 4,
        }
    }

    /// The error this keyword reports when no value is found.
    pub fn not_found(&self) -> (r: BiosParseError)
        ensures
            r == self.absence(),
    {
        match *self {
            Keyword::BiosVendor => BiosParseError::BiosVendorNotFound,
            Keyword::BiosVersion => BiosParseError::BiosVersionNotFound,
            Keyword::BiosReleaseDate => BiosParseError::BiosReleaseDateNotFound,
            Keyword::BiosRevision => BiosParseError::BiosRevisionNotFound,
            Keyword::FirmwareRevision => BiosParseError::FirmwareRevisionNotFound,
            Keyword::SystemManufacturer => BiosParseError::SystemManufacturerNotFound,
            Keyword::SystemProductName => BiosParseError::SystemProductNameNotFound,
            Keyword::SystemVersion => BiosParseError::SystemVersionNotFound,
            Keyword::SystemSerialNumber => BiosParseError::SystemSerialNumberNotFound,
            Keyword::SystemUuid => BiosParseError::SystemUuidNotFound,
            Keyword::SystemSkuNumber => BiosParseError::SystemSkuNumberNotFound,
            Keyword::SystemFamily => BiosParseError::SystemFamilyNotFound,
            Keyword::BaseboardManufacturer => BiosParseError::BaseboardManufacturerNotFound,
            Keyword::BaseboardProductName => BiosParseError::BaseboardProductNameNotFound,
            Keyword::BaseboardVersion => BiosParseError::BaseboardVersionNotFound,
            Keyword::BaseboardSerialNumber => BiosParseError::BaseboardSerialNumberNotFound,
            Keyword::BaseboardAssetTag => BiosParseError::BaseboardAssetTagNotFound,
            Keyword::ChassisManufacturer => BiosParseError::ChassisManufacturerNotFound,
            Keyword::ChassisType => BiosParseError::ChassisTypeNotFound,
            Keyword::ChassisVersion => BiosParseError::ChassisVersionNotFound,
            Keyword::ChassisSerialNumber => BiosParseError::ChassisSerialNumberNotFound,
            Keyword::ChassisAssetTag => BiosParseError::ChassisAssetTagNotFound,
            Keyword::ProcessorFamily => BiosParseError::ProcessorFamilyNotFound,
            Keyword::ProcessorManufacturer => BiosParseError::ProcessorManufacturerNotFound,
            Keyword::ProcessorVersion => BiosParseError::ProcessorVersionNotFound,
            Keyword::ProcessorFrequency => BiosParseError::ProcessorFrequencyNotFound,
        }
    }

    fn collect_values(&self, data: &RawTable, code: u8) -> (r: Vec<String>)
        requires
            code == self.type_code(),
        ensures
            views(r@) == values_from(*self, of_type(data.structures@, code)),
    {
        let ghost t = data.structures@;
        let n = data.structures.len();
        let mut vals: Vec<String> = Vec::new();
        let mut i: usize = 0;
        let mut ended = false;
        proof {
            assert(views(vals@) =~= Seq::<Seq<char>>::empty());
            assert(t.skip(0) =~= t);
        }
        while i < n && !ended
            invariant
                n == t.len(),
                i <= n,
                data.structures@ == t,
                ended ==> views(vals@) == values_from(*self, of_type(t, code)),
                !ended ==> values_from(*self, of_type(t, code)) == views(vals@) + values_from(
                    *self,
                    of_type(t.skip(i as int), code),
                ),
            decreases n - i,
        {
            let s = &data.structures[i];
            proof {
                assert(t.skip(i as int)[0] == t[i as int]);
                assert(t.skip(i as int).skip(1) =~= t.skip(i as int + 1));
            }
            if s.struct_type == END_OF_TABLE {
                proof {
                    assert(of_type(t.skip(i as int), code) =~= Seq::<Structure>::empty());
                    assert(views(vals@) + Seq::<Seq<char>>::empty() =~= views(vals@));
                }
                ended = true;
                i = i + 1;
            } else if s.struct_type == code {
                proof {
                    assert(of_type(t.skip(i as int), code) == seq![t[i as int]] + of_type(
                        t.skip(i as int + 1),
                        code,
                    ));
                    assert((seq![t[i as int]] + of_type(t.skip(i as int + 1), code))[0] == t[
                        i as int
                    ]);
                    assert((seq![t[i as int]] + of_type(t.skip(i as int + 1), code)).skip(1)
                        =~= of_type(t.skip(i as int + 1), code));
                }
                match self.field_value(s) {
                    Some(v) => {
                        let ghost old_vals = vals@;
                        vals.push(v);
                        proof {
                            assert(views(vals@) =~= views(old_vals).push(
                                string_value(*self, t[i as int])->0,
                            ));
                            assert(views(old_vals).push(string_value(*self, t[i as int])->0)
                                + values_from(*self, of_type(t.skip(i as int + 1), code))
                                =~= views(old_vals) + values_from(
                                *self,
                                of_type(t.skip(i as int), code),
                            ));
                        }
                    },
                    None => {
                    },
                }
                i = i + 1;
            } else {
                i = i + 1;
            }
        }
        proof {
            if !ended {
                assert(t.skip(n as int) =~= Seq::<Structure>::empty());
                assert(values_from(*self, of_type(t.skip(n as int), code))
                    =~= Seq::<Seq<char>>::empty());
                assert(views(vals@) + Seq::<Seq<char>>::empty() =~= views(vals@));
            }
        }
        vals
    }
}

/// Finds the first structure of the given type standing before the
/// end-of-table marker.
fn find_first(data: &RawTable, code: u8) -> (r: Option<usize>)
    ensures
        match r {
            Option::Some(i) => i < data.structures@.len() && of_type(data.structures@, code).len()
                > 0 && of_type(data.structures@, code)[0] == data.structures@[i as int],
            Option::None => of_type(data.structures@, code).len() == 0,
        },
{
    let ghost t = data.structures@;
    let n = data.structures.len();
    let mut i: usize = 0;
    proof {
        assert(t.skip(0) =~= t);
    }
    while i < n
        invariant
            n == t.len(),
            i <= n,
            data.structures@ == t,
            of_type(t, code) == of_type(t.skip(i as int), code),
        decreases n - i,
    {
        let s = &data.structures[i];
        proof {
            assert(t.skip(i as int)[0] == t[i as int]);
            assert(t.skip(i as int).skip(1) =~= t.skip(i as int + 1));
        }
        if s.struct_type == END_OF_TABLE {
            proof {
                assert(of_type(t.skip(i as int), code) =~= Seq::<Structure>::empty());
            }
            return None;
        }
        if s.struct_type == code {
            proof {
                assert(of_type(t.skip(i as int), code) == seq![t[i as int]] + of_type(
                    t.skip(i as int + 1),
                    code,
                ));
                assert((seq![t[i as int]] + of_type(t.skip(i as int + 1), code))[0] == t[i as int]);
            }
            return Some(i);
        }
        i = i + 1;
    }
    proof {
        assert(t.skip(n as int) =~= Seq::<Structure>::empty());
    }
    None
}

/// Joins the pieces with single newlines.
fn join_newline(vals: &Vec<String>) -> (r: String)
    requires
        vals@.len() > 0,
    ensures
        r@ == join_nl(views(vals@)),
{
    let ghost vs = views(vals@);
    let mut acc = vals[0].clone();
    let mut i: usize = 1;
    proof {
        assert(vs.take(1) =~= seq![vs[0]]);
        assert(join_nl(vs.take(1)) == vs[0]);
    }
    while i < vals.len()
        invariant
            1 <= i <= vals@.len(),
            vs == views(vals@),
            acc@ == join_nl(vs.take(i as int)),
        decreases vals@.len() - i,
    {
        acc.append("\n");
        acc.append(vals[i].as_str());
        proof {
            let k = i as int;
            assert(vs.take(k + 1).drop_last() =~= vs.take(k));
            assert(vs.take(k + 1).last() == vs[k]);
            assert(acc@ =~= join_nl(vs.take(k)) + "\n"@ + vs[k]);
        }
        i = i + 1;
    }
    proof {
        assert(vs.take(vals@.len() as int) =~= vs);
    }
    acc
}

fn revision_value(s: &Structure, off_major: usize, off_minor: usize) -> (r: Option<String>)
    ensures
        match revision_of(*s, off_major as int, off_minor as int) {
            Option::None => r is None,
            Option::Some(v) => r is Some && r->0@ == v,
        },
{
    match (s.read_byte(off_major), s.read_byte(off_minor)) {
        (Some(major), Some(minor)) => {
            proof {
                reveal_strlit(".");
            }
            let r = u64_to_dec(major as u64).concat(".").concat(u64_to_dec(minor as u64).as_str());
            proof {
                assert(r@ =~= dec_of(major as nat) + "."@ + dec_of(minor as nat));
            }
            Some(r)
        },
        _ => None,
    }
}

fn family_value(s: &Structure) -> (r: Option<String>)
    ensures
        match family_of(*s) {
            Option::None => r is None,
            Option::Some(v) => r is Some && r->0@ == v,
        },
{
    match s.read_byte(0x06) {
        None => None,
        Some(raw) => {
            if raw == 0xFE {
                match s.read_word(0x28) {
                    None => None,
                    Some(raw2) => Some(family2_name(raw2)),
                }
            } else {
                Some(family_name(raw))
            }
        },
    }
}

fn frequency_value(s: &Structure) -> (r: Option<String>)
    ensures
        match frequency_of(*s) {
            Option::None => r is None,
            Option::Some(v) => r is Some && r->0@ == v,
        },
{
    match s.read_word(0x16) {
        None => None,
        Some(mhz) => {
            if mhz == 0 {
                Some(String::from_str("Unknown"))
            } else {
                let r = u64_to_dec(mhz as u64).concat(" MHz");
                Some(r)
            }
        },
    }
}

fn uuid_value(s: &Structure) -> (r: Option<String>)
    ensures
        match uuid_of(*s) {
            Option::None => r is None,
            Option::Some(v) => r is Some && r->0@ == v,
        },
{
    if s.fields.len() < 0x18 {
        return None;
    }
    let mut all_zero = true;
    let mut all_ones = true;
    let mut k: usize = 0x08;
    while k < 0x18
        invariant
            0x08 <= k <= 0x18,
            s.fields@.len() >= 0x18,
            all_zero == (forall|j: int| 0x08 <= j < k ==> s.fields@[j] == 0),
            all_ones == (forall|j: int| 0x08 <= j < k ==> s.fields@[j] == 0xFF),
        decreases 0x18 - k,
    {
        let b = s.fields[k];
        if b != 0 {
            all_zero = false;
        }
        if b != 0xFF {
            all_ones = false;
        }
        k = k + 1;
    }
    if all_zero {
        Some(String::from_str("IdNotPresentButSettable"))
    } else if all_ones {
        Some(String::from_str("IdNotPresent"))
    } else {
        let f = &s.fields;
        let mut r = byte_to_hex(f[11]);
        r.append(byte_to_hex(f[10]).as_str());
        r.append(byte_to_hex(f[9]).as_str());
        r.append(byte_to_hex(f[8]).as_str());
        r.append("-");
        r.append(byte_to_hex(f[13]).as_str());
        r.append(byte_to_hex(f[12]).as_str());
        r.append("-");
        r.append(byte_to_hex(f[15]).as_str());
        r.append(byte_to_hex(f[14]).as_str());
        r.append("-");
        r.append(byte_to_hex(f[16]).as_str());
        r.append(byte_to_hex(f[17]).as_str());
        r.append("-");
        r.append(byte_to_hex(f[18]).as_str());
        r.append(byte_to_hex(f[19]).as_str());
        r.append(byte_to_hex(f[20]).as_str());
        r.append(byte_to_hex(f[21]).as_str());
        r.append(byte_to_hex(f[22]).as_str());
        r.append(byte_to_hex(f[23]).as_str());
        proof {
            assert(r@ =~= uuid_chars(*s));
        }
        Some(r)
    }
}

/// A semantic grouping of structures; each maps to a fixed set of raw type
/// codes.
#[derive(Debug, Clone, Copy, PartialEq, Eq)]
pub enum BiosType {
    Bios,
    System,
    Baseboard,
    Chassis,
    Processor,
    Memory,
    Cache,
    Connector,
    Slot,
    Numeric(u8),
}

impl BiosType {
    /// Whether a raw type code belongs to this grouping's fixed code set.
    pub open spec fn has_code(self, c: u8) -> bool {
        match self {
            BiosType::Bios => c == 0 || c == 13,
            BiosType::System => c == 1 || c == 12 || c == 15 || c == 23 || c == 32,
            BiosType::Baseboard => c == 2 || c == 10 || c == 41,
            BiosType::Chassis => c == 3,
            BiosType::Processor => c == 4,
            BiosType::Memory => c == 5 || c == 6 || c == 16 || c == 17,
            BiosType::Cache => c == 7,
            BiosType::Connector => c == 8,
            BiosType::Slot => c == 9,
            BiosType::Numeric(n) => c == n,
        }
    }

    /// Tests a raw type code against this grouping.
    pub fn matches_code(&self, c: u8) -> (r: bool)
        ensures
            r == self.has_code(c),
    {
        match *self {
            BiosType::Bios => c == 0 || c == 13,
            BiosType::System => c == 1 || c == 12 || c == 15 || c == 23 || c == 32,
            BiosType::Baseboard => c == 2 || c == 10 || c == 41,
            BiosType::Chassis => c == 3,
            BiosType::Processor => c == 4,
            BiosType::Memory => c == 5 || c == 6 || c == 16 || c == 17,
            BiosType::Cache => c == 7,
            BiosType::Connector => c == 8,
            BiosType::Slot => c == 9,
            BiosType::Numeric(n) => c == n,
        }
    }
}

/// Whether a character is a decimal digit.
pub open spec fn is_digit(c: char) -> bool {
    48 <= c as u32 <= 57
}

/// Whether every character is a decimal digit.
pub open spec fn all_digits(s: Seq<char>) -> bool {
    forall|i: int| 0 <= i < s.len() ==> is_digit(#[trigger] s[i])
}

/// The numeric value of a run of decimal digits.
pub open spec fn dec_val(s: Seq<char>) -> int
    decreases s.len(),
{
    if s.len() == 0 {
        0
    } else {
        dec_val(s.drop_last()) * 10 + (s.last() as u32) - 48
    }
}

/// The grouping a name designates: one of the nine fixed names, or a plain
/// decimal type code that fits a byte, with an optional leading plus sign.
pub open spec fn bios_type_of(s: Seq<char>) -> Option<BiosType> {
    if s == "bios"@ {
        Option::Some(BiosType::Bios)
    } else if s == "system"@ {
        Option::Some(BiosType::System)
    } else if s == "baseboard"@ {
        Option::Some(BiosType::Baseboard)
    } else if s == "chassis"@ {
        Option::Some(BiosType::Chassis)
    } else if s == "processor"@ {
        Option::Some(BiosType::Processor)
    } else if s == "memory"@ {
        Option::Some(BiosType::Memory)
    } else if s == "cache"@ {
        Option::Some(BiosType::Cache)
    } else if s == "connector"@ {
        Option::Some(BiosType::Connector)
    } else if s == "slot"@ {
        Option::Some(BiosType::Slot)
    } else {
        let digits = if s.len() > 0 && s[0] == '+' {
            s.skip(1)
        } else {
            s
        };
        if digits.len() > 0 && all_digits(digits) && dec_val(digits) <= 255 {
            Option::Some(BiosType::Numeric(dec_val(digits) as u8))
        } else {
            Option::None
        }
    }
}

proof fn lemma_dec_val_nonneg(s: Seq<char>)
    requires
        all_digits(s),
    ensures
        dec_val(s) >= 0,
    decreases s.len(),
{
    if s.len() > 0 {
        assert(all_digits(s.drop_last())) by {
            assert(forall|i: int|
                0 <= i < s.len() - 1 ==> #[trigger] s.drop_last()[i] == s[i]);
        }
        lemma_dec_val_nonneg(s.drop_last());
    }
}

impl BiosType {
    /// The raw type codes of each grouping:
    ///
    /// | grouping  | codes             |
    /// |-----------|-------------------|
    /// | bios      | 0, 13             |
    /// | system    | 1, 12, 15, 23, 32 |
    /// | baseboard | 2, 10, 41         |
    /// | chassis   | 3                 |
    /// | processor | 4                 |
    /// | memory    | 5, 6, 16, 17      |
    /// | cache     | 7                 |
    /// | connector | 8                 |
    /// | slot      | 9                 |
    pub open spec fn codes_spec(self) -> Seq<u8> {
        match self {
            BiosType::Bios => seq![0u8, 13],
            BiosType::System => seq![1u8, 12, 15, 23, 32],
            BiosType::Baseboard => seq![2u8, 10, 41],
            BiosType::Chassis => seq![3u8],
            BiosType::Processor => seq![4u8],
            BiosType::Memory => seq![5u8, 6, 16, 17],
            BiosType::Cache => seq![7u8],
            BiosType::Connector => seq![8u8],
            BiosType::Slot => seq![9u8],
            BiosType::Numeric(n) => seq![n],
        }
    }

    /// Hands the grouping's code set out, in a fixed order.
    pub fn codes(&self) -> (r: Vec<u8>)
        ensures
            r@ == self.codes_spec(),
    {
        let r = match *self {
            BiosType::Bios => vec![0u8, 13],
            BiosType::System => vec![1u8, 12, 15, 23, 32],
            BiosType::Baseboard => vec![2u8, 10, 41],
            BiosType::Chassis => vec![3u8],
            BiosType::Processor => vec![4u8],
            BiosType::Memory => vec![5u8, 6, 16, 17],
            BiosType::Cache => vec![7u8],
            BiosType::Connector => vec![8u8],
            BiosType::Slot => vec![9u8],
            BiosType::Numeric(n) => vec![n],
        };
        proof {
            assert(r@ =~= self.codes_spec());
        }
        r
    }

    /// Parses a grouping name: one of the nine fixed names, else a decimal
    /// type code that must fit a byte.
    pub fn from_name(s: &str) -> (r: Option<BiosType>)
        ensures
            r == bios_type_of(s@),
    {
        if str_eq(s, "bios") {
            Some(BiosType::Bios)
        } else if str_eq(s, "system") {
            Some(BiosType::System)
        } else if str_eq(s, "baseboard") {
            Some(BiosType::Baseboard)
        } else if str_eq(s, "chassis") {
            Some(BiosType::Chassis)
        } else if str_eq(s, "processor") {
            Some(BiosType::Processor)
        } else if str_eq(s, "memory") {
            Some(BiosType::Memory)
        } else if str_eq(s, "cache") {
            Some(BiosType::Cache)
        } else if str_eq(s, "connector") {
            Some(BiosType::Connector)
        } else if str_eq(s, "slot") {
            Some(BiosType::Slot)
        } else {
            Self::parse_code(s)
        }
    }

    #[verifier::loop_isolation(false)]
    fn parse_code(s: &str) -> (r: Option<BiosType>)
        requires
            s@ != "bios"@,
            s@ != "system"@,
            s@ != "baseboard"@,
            s@ != "chassis"@,
            s@ != "processor"@,
            s@ != "memory"@,
            s@ != "cache"@,
            s@ != "connector"@,
            s@ != "slot"@,
        ensures
            r == bios_type_of(s@),
    {
        let n = s.unicode_len();
        let start: usize = if n > 0 && s.get_char(0) == '+' {
            1
        } else {
            0
        };
        let ghost digits = if start == 1 {
            s@.skip(1)
        } else {
            s@
        };
        if n == start {
            proof {
                assert(digits.len() == 0);
                assert(bios_type_of(s@) is None);
            }
            return None;
        }
        let mut i: usize = start;
        let mut v: u32 = 0;
        let mut too_big = false;
        proof {
            assert(digits.take(0) =~= Seq::<char>::empty());
        }
        while i < n
            invariant
                start <= i <= n,
                digits.len() == n - start,
                forall|k: int| 0 <= k < digits.len() ==> digits[k] == s@[k + start],
                all_digits(digits.take(i - start)),
                !too_big ==> v == dec_val(digits.take(i - start)) && v <= 255,
                too_big ==> dec_val(digits.take(i - start)) > 255,
            decreases n - i,
        {
            let c = s.get_char(i);
            let code = c as u32;
            if code < 48 || code > 57 {
                proof {
                    assert(digits[i - start] == c);
                    assert(!all_digits(digits));
                }
                return None;
            }
            let ghost prefix = digits.take(i - start);
            let ghost longer = digits.take(i + 1 - start);
            proof {
                assert(longer.drop_last() =~= prefix);
                assert(longer.last() == c);
                assert(all_digits(longer)) by {
                    assert(forall|k: int|
                        0 <= k < longer.len() ==> #[trigger] longer[k] == digits[k]);
                }
            }
            if too_big {
                proof {
                    lemma_dec_val_nonneg(longer);
                    assert(dec_val(longer) == dec_val(prefix) * 10 + code - 48);
                }
            } else {
                let next = v * 10 + (code - 48);
                if next > 255 {
                    too_big = true;
                } else {
                    v = next;
                }
            }
            i = i + 1;
        }
        proof {
            assert(digits.take(n - start) =~= digits);
        }
        if too_big {
            None
        } else {
            Some(BiosType::Numeric(v as u8))
        }
    }
}

/// The structures whose type code belongs to the grouping, in table order;
/// unrecognized codes are excluded, never an error.
pub open spec fn matching(bt: BiosType, t: Seq<Structure>) -> Seq<Structure>
    decreases t.len(),
{
    if t.len() == 0 {
        Seq::<Structure>::empty()
    } else if bt.has_code(t[0].struct_type) {
        seq![t[0]] + matching(bt, t.skip(1))
    } else {
        matching(bt, t.skip(1))
    }
}

impl BiosType {
    /// The first structure of the grouping; the caller must know one exists.
    pub fn parse<'a>(bios_type: &BiosType, data: &'a RawTable) -> (r: &'a Structure)
        requires
            matching(*bios_type, data.structures@).len() > 0,
        ensures
            *r == matching(*bios_type, data.structures@)[0],
    {
        let ghost t = data.structures@;
        let n = data.structures.len();
        let mut i: usize = 0;
        proof {
            assert(t.skip(0) =~= t);
        }
        while i < n
            invariant
                n == t.len(),
                i <= n,
                data.structures@ == t,
                matching(*bios_type, t) == matching(*bios_type, t.skip(i as int)),
                matching(*bios_type, t).len() > 0,
            decreases n - i,
        {
            let s = &data.structures[i];
            proof {
                assert(t.skip(i as int)[0] == t[i as int]);
                assert(t.skip(i as int).skip(1) =~= t.skip(i as int + 1));
            }
            if bios_type.matches_code(s.struct_type) {
                proof {
                    assert((seq![t[i as int]] + matching(*bios_type, t.skip(i as int + 1)))[0] == t[
                        i as int
                    ]);
                }
                return s;
            }
            i = i + 1;
        }
        proof {
            assert(t.skip(n as int) =~= Seq::<Structure>::empty());
            assert(false);
        }
        unreached()
    }

    /// Every structure of the grouping, in table order.
    pub fn parse_vec<'a>(bios_type: &BiosType, data: &'a RawTable) -> (r: Vec<&'a Structure>)
        ensures
            r@.map_values(|x: &Structure| *x) == matching(*bios_type, data.structures@),
    {
        let ghost t = data.structures@;
        let n = data.structures.len();
        let mut out: Vec<&'a Structure> = Vec::new();
        let mut i: usize = 0;
        proof {
            assert(t.skip(0) =~= t);
            assert(out@.map_values(|x: &Structure| *x) =~= Seq::<Structure>::empty());
            assert(Seq::<Structure>::empty() + matching(*bios_type, t) =~= matching(*bios_type, t));
        }
        while i < n
            invariant
                n == t.len(),
                i <= n,
                data.structures@ == t,
                out@.map_values(|x: &Structure| *x) + matching(*bios_type, t.skip(i as int))
                    == matching(*bios_type, t),
            decreases n - i,
        {
            let s = &data.structures[i];
            proof {
                assert(t.skip(i as int)[0] == t[i as int]);
                assert(t.skip(i as int).skip(1) =~= t.skip(i as int + 1));
            }
            if bios_type.matches_code(s.struct_type) {
                let ghost old_out = out@;
                out.push(s);
                proof {
                    assert(out@.map_values(|x: &Structure| *x) =~= old_out.map_values(
                        |x: &Structure| *x,
                    ).push(t[i as int]));
                    assert(old_out.map_values(|x: &Structure| *x).push(t[i as int]) + matching(
                        *bios_type,
                        t.skip(i as int + 1),
                    ) =~= old_out.map_values(|x: &Structure| *x) + matching(
                        *bios_type,
                        t.skip(i as int),
                    ));
                }
            }
            i = i + 1;
        }
        proof {
            assert(t.skip(n as int) =~= Seq::<Structure>::empty());
            assert(out@.map_values(|x: &Structure| *x) + Seq::<Structure>::empty()
                =~= out@.map_values(|x: &Structure| *x));
        }
        out
    }
}

/// The matching structures whose value for the keyword is present.
pub open spec fn with_value(kw: Keyword, ss: Seq<Structure>) -> Seq<Structure>
    decreases ss.len(),
{
    if ss.len() == 0 {
        Seq::<Structure>::empty()
    } else if string_value(kw, ss[0]) is Some {
        seq![ss[0]] + with_value(kw, ss.skip(1))
    } else {
        with_value(kw, ss.skip(1))
    }
}

/// For every single-structure keyword, a table with no matching structure
/// resolves to the keyword's absence condition.
pub proof fn lemma_single_no_match_is_absent(kw: Keyword, t: Seq<Structure>)
    requires
        kw.is_single(),
        of_type(t, kw.type_code()).len() == 0,
    ensures
        resolve(kw, t) is None,
{
}

/// Structures whose value is absent contribute nothing to a multi-structure
/// keyword: resolution over the matching structures equals resolution over
/// only those with a present value — no separator and no empty segment
/// stands in for an absent one.
pub proof fn lemma_multi_skips_absent(kw: Keyword, t: Seq<Structure>)
    requires
        !kw.is_single(),
    ensures
        resolve(kw, t) == {
            let present = with_value(kw, of_type(t, kw.type_code()));
            if present.len() == 0 {
                Option::<Seq<char>>::None
            } else {
                Option::Some(join_nl(values_from(kw, present)))
            }
        },
{
    lemma_values_from_with_value(kw, of_type(t, kw.type_code()));
    lemma_values_from_len(kw, of_type(t, kw.type_code()));
}

/// For a multi-structure keyword with at least one present value, the
/// keyword resolves, and each present value stands whole inside the result.
pub proof fn lemma_multi_result_contains_value(kw: Keyword, t: Seq<Structure>, k: int)
    requires
        !kw.is_single(),
        0 <= k < values_from(kw, of_type(t, kw.type_code())).len(),
    ensures
        resolve(kw, t) is Some,
        exists|off: int|
            0 <= off && off + values_from(kw, of_type(t, kw.type_code()))[k].len() <= resolve(
                kw,
                t,
            )->0.len() && #[trigger] resolve(kw, t)->0.subrange(
                off,
                off + values_from(kw, of_type(t, kw.type_code()))[k].len(),
            ) == values_from(kw, of_type(t, kw.type_code()))[k],
{
    let vs = values_from(kw, of_type(t, kw.type_code()));
    lemma_join_contains(vs, k);
    let off = choose|off: int|
        0 <= off && off + vs[k].len() <= join_nl(vs).len() && #[trigger] join_nl(vs).subrange(
            off,
            off + vs[k].len(),
        ) == vs[k];
    assert(resolve(kw, t)->0.subrange(
        off,
        off + values_from(kw, of_type(t, kw.type_code()))[k].len(),
    ) == values_from(kw, of_type(t, kw.type_code()))[k]);
}

proof fn lemma_join_contains(vs: Seq<Seq<char>>, k: int)
    requires
        0 <= k < vs.len(),
    ensures
        exists|off: int|
            0 <= off && off + vs[k].len() <= join_nl(vs).len() && #[trigger] join_nl(vs).subrange(
                off,
                off + vs[k].len(),
            ) == vs[k],
    decreases vs.len(),
{
    if vs.len() == 1 {
        let off: int = 0;
        assert(join_nl(vs).subrange(off, off + vs[k].len()) =~= vs[k]);
        assert(join_nl(vs).subrange(off, off + vs[k].len()) == vs[k]);
    } else if k == vs.len() - 1 {
        let off = join_nl(vs.drop_last()).len() as int + 1;
        assert("\n"@.len() == 1) by {
            reveal_strlit("\n");
        }
        assert(join_nl(vs).subrange(off, off + vs[k].len()) =~= vs[k]);
        assert(join_nl(vs).subrange(off, off + vs[k].len()) == vs[k]);
    } else {
        assert(vs.drop_last()[k] == vs[k]);
        lemma_join_contains(vs.drop_last(), k);
        let prior = vs.drop_last();
        let off = choose|off: int|
            0 <= off && off + prior[k].len() <= join_nl(prior).len() && #[trigger] join_nl(
                prior,
            ).subrange(off, off + prior[k].len()) == prior[k];
        assert(join_nl(vs).subrange(off, off + vs[k].len()) =~= join_nl(prior).subrange(
            off,
            off + prior[k].len(),
        ));
        assert(join_nl(vs).subrange(off, off + vs[k].len()) == vs[k]);
    }
}

proof fn lemma_values_from_with_value(kw: Keyword, ss: Seq<Structure>)
    ensures
        values_from(kw, with_value(kw, ss)) == values_from(kw, ss),
    decreases ss.len(),
{
    if ss.len() == 0 {
    } else {
        lemma_values_from_with_value(kw, ss.skip(1));
        if string_value(kw, ss[0]) is Some {
            let cons = seq![ss[0]] + with_value(kw, ss.skip(1));
            assert(cons[0] == ss[0]);
            assert(cons.skip(1) =~= with_value(kw, ss.skip(1)));
            assert(values_from(kw, cons) == seq![string_value(kw, ss[0])->0] + values_from(
                kw,
                with_value(kw, ss.skip(1)),
            ));
        }
    }
}

proof fn lemma_values_from_len(kw: Keyword, ss: Seq<Structure>)
    ensures
        values_from(kw, ss).len() == with_value(kw, ss).len(),
    decreases ss.len(),
{
    if ss.len() == 0 {
    } else {
        lemma_values_from_len(kw, ss.skip(1));
    }
}

/// One separator per extra present value and nothing else: the joined text
/// is exactly as long as its pieces plus one newline between neighbours.
pub proof fn lemma_join_exact_length(vs: Seq<Seq<char>>)
    requires
        vs.len() > 0,
    ensures
        join_nl(vs).len() == total_len(vs) + vs.len() - 1,
    decreases vs.len(),
{
    reveal_strlit("\n");
    if vs.len() == 1 {
        assert(total_len(vs.drop_last()) == 0) by {
            assert(vs.drop_last().len() == 0);
        }
    } else {
        lemma_join_exact_length(vs.drop_last());
    }
}

/// The combined length of the pieces.
pub open spec fn total_len(vs: Seq<Seq<char>>) -> nat
    decreases vs.len(),
{
    if vs.len() == 0 {
        0
    } else {
        total_len(vs.drop_last()) + vs.last().len()
    }
}

} // verus!
