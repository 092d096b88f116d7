//! The fact aggregator: combines resolved table fields, host identity and
//! interface facts into one normalized inventory record.

use vstd::prelude::*;

use crate::json::json_of;
use crate::host::{
    hostname_of, lookup, lookup_value, opt_view, pair_views, pairs_of, parse_os_release,
    get_hostname, HostError, Uname,
};
use crate::net::NetIface;
use crate::schema::{
    network_views, processor_views, string_views, Devices, DevicesModel, MachineInfo,
    MachineInfoModel, Memory, MemoryModel, Network, NetworkModel, OsModel, Processor,
    ProcessorModel, OS,
};
use crate::smbios::opt::{resolve, BiosParseError, Keyword};
use crate::smbios::table::{field_byte, field_dword, field_word, string_field, RawTable, Structure};

verus! {

/// Why a collection cycle was aborted.  Only required facts abort a cycle;
/// decorative fields degrade to zero or empty instead.
#[derive(Debug, Clone, Copy, PartialEq, Eq)]
pub enum CollectError {
    Hostname(HostError),
    SerialNumber(BiosParseError),
    UnameFailed,
    OsRelease(HostError),
    OsNameNotFound,
    OsVersionNotFound,
}

/// Everything the aggregator needs from the host environment, gathered
/// outside and handed in as plain values.
#[derive(Debug, Clone)]
pub struct HostFacts {
    /// Whether the orchestration-environment probe succeeded.
    pub in_kube: bool,
    /// The designated node-name variable, when set.
    pub node_name: Option<String>,
    /// The raw syscall-reported hostname, when the syscall succeeded.
    pub sys_hostname: Option<String>,
    /// The lines of the OS release file.
    pub os_release_lines: Vec<String>,
    /// The UTS identity, when the syscall succeeded.
    pub uname: Option<Uname>,
    /// The build platform name.
    pub platform: String,
    /// The build architecture name.
    pub arch: String,
    /// The enumerated interfaces, already filtered.
    pub ifaces: Vec<NetIface>,
}

/// A two-tier numeric field: the legacy byte unless it carries the
/// see-extended sentinel, then the extended word; unknown or reserved
/// sentinels degrade to zero, as does a missing field.
pub open spec fn two_tier_byte(s: Structure, off_legacy: int, off_ext: int) -> u16 {
    match field_byte(s, off_legacy) {
        Option::None => 0,
        Option::Some(b) => if b == 0 {
            0
        } else if b == 0xFF {
            match field_word(s, off_ext) {
                Option::None => 0,
                Option::Some(w) => if w == 0xFFFF {
                    0
                } else {
                    w
                },
            }
        } else {
            b as u16
        },
    }
}

/// A speed word: the value in megahertz, zero meaning unknown or absent.
pub open spec fn speed_word(s: Structure, off: int) -> u16 {
    match field_word(s, off) {
        Option::None => 0,
        Option::Some(w) => w,
    }
}

/// The record one processor structure yields.
pub open spec fn processor_of(s: Structure) -> ProcessorModel {
    ProcessorModel {
        version: match string_field(s, 0x10) {
            Option::Some(v) => v,
            Option::None => Seq::<char>::empty(),
        },
        max_speed: speed_word(s, 0x14),
        current_speed: speed_word(s, 0x16),
        core_count: two_tier_byte(s, 0x23, 0x2A),
        cores_enabled: two_tier_byte(s, 0x24, 0x2C),
        thread_count: two_tier_byte(s, 0x25, 0x2E),
        thread_enabled: 0,
    }
}

/// The records of every processor structure, in table order.
pub open spec fn processors_of(t: Seq<Structure>) -> Seq<ProcessorModel>
    decreases t.len(),
{
    if t.len() == 0 {
        Seq::<ProcessorModel>::empty()
    } else if t[0].struct_type == 4 {
        seq![processor_of(t[0])] + processors_of(t.skip(1))
    } else {
        processors_of(t.skip(1))
    }
}

/// The bytes one memory-device structure contributes: kilobyte and megabyte
/// encodings are normalized to bytes; not-installed, unknown and reserved
/// values contribute nothing.
pub open spec fn device_bytes(s: Structure) -> nat {
    match field_word(s, 0x0C) {
        Option::None => 0,
        Option::Some(w) => if w == 0 {
            0
        } else if w == 0xFFFF {
            0
        } else if w == 0x7FFF {
            match field_dword(s, 0x1C) {
                Option::None => 0,
                Option::Some(d) => ((d & 0x7FFFFFFF) as nat) * 1024 * 1024,
            }
        } else if w & 0x8000 == 0x8000 {
            ((w & 0x7FFF) as nat) * 1024
        } else {
            (w as nat) * 1024 * 1024
        },
    }
}

/// The byte total over every memory-device structure of the table.
pub open spec fn mem_total(t: Seq<Structure>) -> nat
    decreases t.len(),
{
    if t.len() == 0 {
        0
    } else {
        mem_total(t.drop_last()) + (if t.last().struct_type == 17 {
            device_bytes(t.last())
        } else {
            0
        })
    }
}

/// Clamps an unbounded total into the reportable range.
pub open spec fn sat_u64(n: nat) -> u64 {
    if n > u64::MAX {
        u64::MAX
    } else {
        n as u64
    }
}

/// The memory summary: the clamped byte total, in the fixed unit.
pub open spec fn memory_of(t: Seq<Structure>) -> MemoryModel {
    MemoryModel { total_memory: sat_u64(mem_total(t)), unit: "B"@ }
}

/// The record one interface yields: its name, its rendered addresses in
/// listing order, and its hardware address, empty when it has none.
pub open spec fn network_of(i: NetIface) -> NetworkModel {
    NetworkModel {
        name: i.name@,
        address: string_views(i.ipv4@) + string_views(i.ipv6@),
        mac_address: match i.mac_addr {
            Option::Some(m) => m@,
            Option::None => Seq::<char>::empty(),
        },
    }
}

/// The records of every given interface, in order.
pub open spec fn networks_of(ifaces: Seq<NetIface>) -> Seq<NetworkModel> {
    Seq::new(ifaces.len(), |i: int| network_of(ifaces[i]))
}

/// The whole aggregation policy: which facts are required, in which order
/// their absence aborts the cycle, and what the record holds on success.
pub open spec fn collect_model(t: Seq<Structure>, f: HostFacts) -> Result<
    MachineInfoModel,
    CollectError,
> {
    match hostname_of(f.in_kube, opt_view(f.node_name), opt_view(f.sys_hostname)) {
        Result::Err(e) => Result::Err(CollectError::Hostname(e)),
        Result::Ok(hostname) => match resolve(Keyword::SystemSerialNumber, t) {
            Option::None => Result::Err(
                CollectError::SerialNumber(BiosParseError::SystemSerialNumberNotFound),
            ),
            Option::Some(serial) => match f.uname {
                Option::None => Result::Err(CollectError::UnameFailed),
                Option::Some(u) => match pairs_of(string_views(f.os_release_lines@)) {
                    Option::None => Result::Err(
                        CollectError::OsRelease(HostError::MalformedReleaseLine),
                    ),
                    Option::Some(pairs) => match lookup(pairs, "NAME"@) {
                        Option::None => Result::Err(CollectError::OsNameNotFound),
                        Option::Some(name) => match lookup(pairs, "VERSION"@) {
                            Option::None => Result::Err(CollectError::OsVersionNotFound),
                            Option::Some(version) => Result::Ok(
                                MachineInfoModel {
                                    hostname,
                                    serial_number: serial,
                                    cloud: Option::None,
                                    os: OsModel {
                                        platform: f.platform@,
                                        os: name,
                                        version,
                                        arch: f.arch@,
                                        kernel: u.release@,
                                    },
                                    devices: DevicesModel {
                                        processor: processors_of(t),
                                        memory: memory_of(t),
                                    },
                                    networks: networks_of(f.ifaces@),
                                },
                            ),
                        },
                    },
                },
            },
        },
    }
}

fn sat_add_u64(a: u64, b: u64) -> (r: u64)
    ensures
        r as nat == sat_u64(a as nat + b as nat),
{
    if a > u64::MAX - b {
        u64::MAX
    } else {
        a + b
    }
}

fn two_tier(s: &Structure, off_legacy: usize, off_ext: usize) -> (r: u16)
    ensures
        r == two_tier_byte(*s, off_legacy as int, off_ext as int),
{
    match s.read_byte(off_legacy) {
        None => 0,
        Some(b) => {
            if b == 0 {
                0
            } else if b == 0xFF {
                match s.read_word(off_ext) {
                    None => 0,
                    Some(w) => if w == 0xFFFF {
                        0
                    } else {
                        w
                    },
                }
            } else {
                b as u16
            }
        },
    }
}

fn speed(s: &Structure, off: usize) -> (r: u16)
    ensures
        r == speed_word(*s, off as int),
{
    match s.read_word(off) {
        None => 0,
        Some(w) => w,
    }
}

fn device_total_bytes(s: &Structure) -> (r: u64)
    ensures
        r as nat == device_bytes(*s),
{
    match s.read_word(0x0C) {
        None => 0,
        Some(w) => {
            if w == 0 {
                0
            } else if w == 0xFFFF {
                0
            } else if w == 0x7FFF {
                match s.read_dword(0x1C) {
                    None => 0,
                    Some(d) => {
                        let mb = d & 0x7FFFFFFF;
                        proof {
                            assert(d & 0x7FFFFFFF <= 0x7FFFFFFF) by (bit_vector);
                        }
                        (mb as u64) * 1024 * 1024
                    },
                }
            } else if w & 0x8000 == 0x8000 {
                let kb = w & 0x7FFF;
                proof {
                    assert(w & 0x7FFF <= 0x7FFF) by (bit_vector);
                }
                (kb as u64) * 1024
            } else {
                (w as u64) * 1024 * 1024
            }
        },
    }
}

/// Resolves the one required table field.
pub fn get_serial_number(smbios: &RawTable) -> (r: Result<String, CollectError>)
    ensures
        match r {
            Result::Ok(v) => resolve(Keyword::SystemSerialNumber, smbios.structures@) is Some && v@
                == resolve(Keyword::SystemSerialNumber, smbios.structures@)->0,
            Result::Err(e) => resolve(Keyword::SystemSerialNumber, smbios.structures@) is None && e
                == CollectError::SerialNumber(BiosParseError::SystemSerialNumberNotFound),
        },
{
    match Keyword::SystemSerialNumber.parse(smbios) {
        Ok(v) => Ok(v),
        Err(e) => Err(CollectError::SerialNumber(e)),
    }
}

/// Builds the OS descriptor from release-file pairs and the UTS identity.
pub fn get_os(facts: &HostFacts) -> (r: Result<OS, CollectError>)
    ensures
        match r {
            Result::Ok(os) => facts.uname is Some && pairs_of(
                string_views(facts.os_release_lines@),
            ) is Some && {
                let pairs = pairs_of(string_views(facts.os_release_lines@))->0;
                lookup(pairs, "NAME"@) is Some && lookup(pairs, "VERSION"@) is Some && os@
                    == (OsModel {
                    platform: facts.platform@,
                    os: lookup(pairs, "NAME"@)->0,
                    version: lookup(pairs, "VERSION"@)->0,
                    arch: facts.arch@,
                    kernel: facts.uname->0.release@,
                })
            },
            Result::Err(e) => match e {
                CollectError::UnameFailed => facts.uname is None,
                CollectError::OsRelease(he) => facts.uname is Some && he
                    == HostError::MalformedReleaseLine && pairs_of(
                    string_views(facts.os_release_lines@),
                ) is None,
                CollectError::OsNameNotFound => facts.uname is Some && pairs_of(
                    string_views(facts.os_release_lines@),
                ) is Some && lookup(
                    pairs_of(string_views(facts.os_release_lines@))->0,
                    "NAME"@,
                ) is None,
                CollectError::OsVersionNotFound => facts.uname is Some && pairs_of(
                    string_views(facts.os_release_lines@),
                ) is Some && lookup(
                    pairs_of(string_views(facts.os_release_lines@))->0,
                    "NAME"@,
                ) is Some && lookup(
                    pairs_of(string_views(facts.os_release_lines@))->0,
                    "VERSION"@,
                ) is None,
                _ => false,
            },
        },
{
    let uname = match &facts.uname {
        Some(u) => u,
        None => {
            return Err(CollectError::UnameFailed);
        },
    };
    let pairs = match parse_os_release(&facts.os_release_lines) {
        Ok(ps) => ps,
        Err(_) => {
            return Err(CollectError::OsRelease(HostError::MalformedReleaseLine));
        },
    };
    let name = match lookup_value(&pairs, "NAME") {
        Some(v) => v,
        None => {
            return Err(CollectError::OsNameNotFound);
        },
    };
    let version = match lookup_value(&pairs, "VERSION") {
        Some(v) => v,
        None => {
            return Err(CollectError::OsVersionNotFound);
        },
    };
    Ok(
        OS {
            platform: facts.platform.clone(),
            os: name,
            version,
            arch: facts.arch.clone(),
            kernel: uname.release.clone(),
        },
    )
}

/// Reads every processor structure into a record, decorative absences
/// degrading to zero or empty.
pub fn get_processor(smbios: &RawTable) -> (r: Vec<Processor>)
    ensures
        processor_views(r@) == processors_of(smbios.structures@),
{
    let ghost t = smbios.structures@;
    let n = smbios.structures.len();
    let mut out: Vec<Processor> = Vec::new();
    let mut i: usize = 0;
    proof {
        assert(t.skip(0) =~= t);
        assert(processor_views(out@) =~= Seq::<ProcessorModel>::empty());
        assert(Seq::<ProcessorModel>::empty() + processors_of(t) =~= processors_of(t));
    }
    while i < n
        invariant
            n == t.len(),
            i <= n,
            smbios.structures@ == t,
            processor_views(out@) + processors_of(t.skip(i as int)) == processors_of(t),
        decreases n - i,
    {
        let s = &smbios.structures[i];
        proof {
            assert(t.skip(i as int)[0] == t[i as int]);
            assert(t.skip(i as int).skip(1) =~= t.skip(i as int + 1));
        }
        if s.struct_type == 4 {
            let version = match s.read_string(0x10) {
                Some(v) => v,
                None => String::new(),
            };
            let p = Processor {
                version,
                max_speed: speed(s, 0x14),
                current_speed: speed(s, 0x16),
                core_count: two_tier(s, 0x23, 0x2A),
                cores_enabled: two_tier(s, 0x24, 0x2C),
                thread_count: two_tier(s, 0x25, 0x2E),
                thread_enabled: 0,
            };
            let ghost old_out = out@;
            out.push(p);
            proof {
                assert(processor_views(out@) =~= processor_views(old_out).push(
                    processor_of(t[i as int]),
                ));
                assert(processor_views(old_out).push(processor_of(t[i as int])) + processors_of(
                    t.skip(i as int + 1),
                ) =~= processor_views(old_out) + processors_of(t.skip(i as int)));
            }
        }
        i = i + 1;
    }
    proof {
        assert(t.skip(n as int) =~= Seq::<Structure>::empty());
        assert(processor_views(out@) + Seq::<ProcessorModel>::empty() =~= processor_views(out@));
    }
    out
}

/// Sums every memory device's size, normalized to bytes, clamping at the
/// representable maximum.
pub fn get_memory(smbios: &RawTable) -> (r: Memory)
    ensures
        r@ == memory_of(smbios.structures@),
{
    let ghost t = smbios.structures@;
    let n = smbios.structures.len();
    let mut total: u64 = 0;
    let mut i: usize = 0;
    proof {
        assert(t.take(0) =~= Seq::<Structure>::empty());
    }
    while i < n
        invariant
            n == t.len(),
            i <= n,
            smbios.structures@ == t,
            total as nat == sat_u64(mem_total(t.take(i as int))),
        decreases n - i,
    {
        let s = &smbios.structures[i];
        proof {
            assert(t.take(i as int + 1).drop_last() =~= t.take(i as int));
            assert(t.take(i as int + 1).last() == t[i as int]);
        }
        if s.struct_type == 17 {
            let v = device_total_bytes(s);
            total = sat_add_u64(total, v);
        }
        i = i + 1;
    }
    proof {
        assert(t.take(n as int) =~= t);
    }
    Memory { total_memory: total, unit: String::from_str("B") }
}

/// Builds the device descriptors.
pub fn get_devices(smbios: &RawTable) -> (r: Devices)
    ensures
        r@ == (DevicesModel {
            processor: processors_of(smbios.structures@),
            memory: memory_of(smbios.structures@),
        }),
{
    Devices { processor: get_processor(smbios), memory: get_memory(smbios) }
}

/// Turns the enumerated interfaces into reported records; an interface
/// without a hardware address is reported with an empty one.
#[verifier::loop_isolation(false)]
pub fn get_networks(ifaces: &Vec<NetIface>) -> (r: Vec<Network>)
    ensures
        network_views(r@) == networks_of(ifaces@),
{
    let n = ifaces.len();
    let mut out: Vec<Network> = Vec::new();
    let mut i: usize = 0;
    proof {
        assert(network_views(out@) =~= networks_of(ifaces@.take(0)));
    }
    while i < n
        invariant
            n == ifaces@.len(),
            i <= n,
            network_views(out@) == networks_of(ifaces@.take(i as int)),
        decreases n - i,
    {
        let iface = &ifaces[i];
        let mut address: Vec<String> = Vec::new();
        let mut j: usize = 0;
        proof {
            assert(string_views(address@) =~= string_views(iface.ipv4@).take(0));
        }
        while j < iface.ipv4.len()
            invariant
                j <= iface.ipv4@.len(),
                string_views(address@) == string_views(iface.ipv4@).take(j as int),
            decreases iface.ipv4@.len() - j,
        {
            address.push(iface.ipv4[j].clone());
            proof {
                assert(string_views(address@) =~= string_views(iface.ipv4@).take(j as int + 1));
            }
            j = j + 1;
        }
        proof {
            assert(string_views(iface.ipv4@).take(iface.ipv4@.len() as int) =~= string_views(
                iface.ipv4@,
            ));
        }
        let mut k: usize = 0;
        while k < iface.ipv6.len()
            invariant
                k <= iface.ipv6@.len(),
                string_views(address@) == string_views(iface.ipv4@) + string_views(
                    iface.ipv6@,
                ).take(k as int),
            decreases iface.ipv6@.len() - k,
        {
            let ghost old_addr = address@;
            address.push(iface.ipv6[k].clone());
            proof {
                let l4 = string_views(iface.ipv4@);
                let l6 = string_views(iface.ipv6@);
                assert(old_addr.len() == l4.len() + k);
                assert forall|l: int| 0 <= l < old_addr.len() + 1 implies #[trigger] string_views(
                    address@,
                )[l] == (l4 + l6.take(k as int + 1))[l] by {
                    if l < old_addr.len() {
                        assert(string_views(old_addr)[l] == (l4 + l6.take(k as int))[l]);
                    } else {
                        assert(address@[l] == iface.ipv6@[k as int]);
                    }
                }
                assert(string_views(address@) =~= l4 + l6.take(k as int + 1));
            }
            k = k + 1;
        }
        proof {
            assert(string_views(iface.ipv6@).take(iface.ipv6@.len() as int) =~= string_views(
                iface.ipv6@,
            ));
        }
        let mac_address = match &iface.mac_addr {
            Some(m) => m.clone(),
            None => String::new(),
        };
        let rec = Network { name: iface.name.clone(), address, mac_address };
        proof {
            assert(rec@ == network_of(ifaces@[i as int]));
        }
        let ghost old_out = out@;
        out.push(rec);
        proof {
            assert forall|l: int| 0 <= l < old_out.len() + 1 implies #[trigger] network_views(
                out@,
            )[l] == networks_of(ifaces@.take(i as int + 1))[l] by {
                if l < old_out.len() {
                    assert(network_views(old_out)[l] == networks_of(ifaces@.take(i as int))[l]);
                    assert(networks_of(ifaces@.take(i as int))[l] == network_of(
                        ifaces@.take(i as int)[l],
                    ));
                } else {
                    assert(out@[l] == rec);
                }
            }
            assert(network_views(out@) =~= networks_of(ifaces@.take(i as int + 1)));
        }
        i = i + 1;
    }
    proof {
        assert(ifaces@.take(n as int) =~= ifaces@);
    }
    out
}

/// One full aggregation pass.  Required facts — hostname, serial number,
/// identity, OS name and version — abort the cycle with the matching error;
/// everything else degrades.  The record is a pure function of the table
/// and the gathered facts.
pub fn get_machine_info(smbios: &RawTable, facts: &HostFacts) -> (r: Result<
    MachineInfo,
    CollectError,
>)
    ensures
        match r {
            Result::Ok(m) => collect_model(smbios.structures@, *facts) is Ok && m@ == collect_model(
                smbios.structures@,
                *facts,
            )->Ok_0,
            Result::Err(e) => collect_model(smbios.structures@, *facts) is Err && e
                == collect_model(smbios.structures@, *facts)->Err_0,
        },
{
    let hostname = match get_hostname(facts.in_kube, &facts.node_name, &facts.sys_hostname) {
        Ok(h) => h,
        Err(e) => {
            return Err(CollectError::Hostname(e));
        },
    };
    let serial_number = match get_serial_number(smbios) {
        Ok(s) => s,
        Err(e) => {
            return Err(e);
        },
    };
    let os = match get_os(facts) {
        Ok(o) => o,
        Err(e) => {
            return Err(e);
        },
    };
    let devices = get_devices(smbios);
    let networks = get_networks(&facts.ifaces);
    Ok(MachineInfo { hostname, serial_number, cloud: None, os, devices, networks })
}

/// Aggregation is idempotent: against an unchanged table and unchanged host
/// facts, two runs produce the same record.
pub proof fn lemma_collect_idempotent(
    t: Seq<Structure>,
    f: HostFacts,
    m1: MachineInfoModel,
    m2: MachineInfoModel,
)
    requires
        collect_model(t, f) == Result::<MachineInfoModel, CollectError>::Ok(m1),
        collect_model(t, f) == Result::<MachineInfoModel, CollectError>::Ok(m2),
    ensures
        m1 == m2,
{
}

/// Stronger still: two aggregation passes over one unchanged host state
/// serialize to byte-identical wire bodies — no field of the record varies
/// with time.
pub proof fn lemma_report_bytes_identical(
    t: Seq<Structure>,
    f: HostFacts,
    m1: MachineInfoModel,
    m2: MachineInfoModel,
)
    requires
        collect_model(t, f) == Result::<MachineInfoModel, CollectError>::Ok(m1),
        collect_model(t, f) == Result::<MachineInfoModel, CollectError>::Ok(m2),
    ensures
        json_of(m1) == json_of(m2),
{
}

/// The two-tier resolution rules, stated for every structure: a legacy
/// value that is no sentinel stands on its own, whatever the extended field
/// holds; the see-extended sentinel defers to the extended field; an
/// unknown or reserved extended value degrades to zero.
pub proof fn lemma_two_tier_rules(s: Structure, off_legacy: int, off_ext: int)
    ensures
        (field_byte(s, off_legacy) is Some && field_byte(s, off_legacy)->0 != 0 && field_byte(
            s,
            off_legacy,
        )->0 != 0xFF) ==> two_tier_byte(s, off_legacy, off_ext) == field_byte(
            s,
            off_legacy,
        )->0 as u16,
        (field_byte(s, off_legacy) == Option::Some(0xFFu8) && field_word(s, off_ext) is Some
            && field_word(s, off_ext)->0 != 0xFFFF) ==> two_tier_byte(s, off_legacy, off_ext)
            == field_word(s, off_ext)->0,
        (field_byte(s, off_legacy) == Option::Some(0xFFu8) && field_word(s, off_ext)
            == Option::Some(0xFFFFu16)) ==> two_tier_byte(s, off_legacy, off_ext) == 0,
        field_byte(s, off_legacy) == Option::Some(0u8) ==> two_tier_byte(s, off_legacy, off_ext)
            == 0,
{
}

} // verus!
