//! The wire rendering of the inventory record: a fixed JSON shape with
//! lower-camel-case field names, built byte by byte so the signed body is
//! pinned down exactly.

use vstd::prelude::*;

use vstd::string::StringSliceAdditionalSpecFns;

use crate::schema::{
    network_views, processor_views, string_views, DevicesModel, MachineInfo, MachineInfoModel,
    Memory, MemoryModel, Network, NetworkModel, OsModel, Processor, ProcessorModel, OS,
};
use crate::text::{dec_of, digit, u64_to_dec};

verus! {

/// The lowercase hexadecimal digit byte for a value below sixteen.
pub open spec fn hex_digit_byte(n: nat) -> u8 {
    if n < 10 {
        (48 + n) as u8
    } else {
        (87 + n) as u8
    }
}

/// Four lowercase hexadecimal digit bytes, most significant first.
pub open spec fn hex4(n: nat) -> Seq<u8> {
    seq![
        hex_digit_byte((n / 0x1000) % 16),
        hex_digit_byte((n / 0x100) % 16),
        hex_digit_byte((n / 16) % 16),
        hex_digit_byte(n % 16),
    ]
}

/// One character of a JSON string: quote and backslash are escaped, other
/// printable seven-bit characters stand as themselves, and everything else
/// is a universal escape, paired for the supplementary planes.
pub open spec fn esc_char(c: char) -> Seq<u8> {
    if c == '"' {
        seq![92u8, 34u8]
    } else if c == '\\' {
        seq![92u8, 92u8]
    } else if (c as u32) >= 0x20 && (c as u32) < 0x7F {
        seq![(c as u32) as u8]
    } else if (c as u32) < 0x10000 {
        seq![92u8, 117u8] + hex4((c as u32) as nat)
    } else {
        seq![92u8, 117u8] + hex4((0xD800 + ((c as u32) - 0x10000) / 0x400) as nat) + seq![
            92u8,
            117u8,
        ] + hex4((0xDC00 + ((c as u32) - 0x10000) % 0x400) as nat)
    }
}

/// A whole string escaped, character by character.
pub open spec fn esc(s: Seq<char>) -> Seq<u8>
    decreases s.len(),
{
    if s.len() == 0 {
        Seq::<u8>::empty()
    } else {
        esc(s.drop_last()) + esc_char(s.last())
    }
}

/// A JSON string: the escaped text between quotes.
pub open spec fn jstr(s: Seq<char>) -> Seq<u8> {
    seq![34u8] + esc(s) + seq![34u8]
}

/// Digit characters taken as bytes.
pub open spec fn ascii_bytes(s: Seq<char>) -> Seq<u8> {
    Seq::new(s.len(), |i: int| s[i] as u8)
}

/// A JSON number: the decimal digits.
pub open spec fn jnum(n: nat) -> Seq<u8> {
    ascii_bytes(dec_of(n))
}

/// The nullable cloud hint.
pub open spec fn jcloud(c: Option<Seq<char>>) -> Seq<u8> {
    match c {
        Option::Some(s) => jstr(s),
        Option::None => ("null").spec_bytes(),
    }
}

/// The OS descriptor object.
pub open spec fn jos(o: OsModel) -> Seq<u8> {
    ("{\"platform\":").spec_bytes() + jstr(o.platform) + (",\"os\":").spec_bytes() + jstr(o.os) + (
    ",\"version\":").spec_bytes() + jstr(o.version) + (",\"arch\":").spec_bytes() + jstr(o.arch) + (
    ",\"kernel\":").spec_bytes() + jstr(o.kernel) + ("}").spec_bytes()
}

/// One processor object.
pub open spec fn jproc(p: ProcessorModel) -> Seq<u8> {
    ("{\"version\":").spec_bytes() + jstr(p.version) + (",\"maxSpeed\":").spec_bytes() + jnum(
        p.max_speed as nat,
    ) + (",\"currentSpeed\":").spec_bytes() + jnum(p.current_speed as nat) + (
    ",\"coreCount\":").spec_bytes() + jnum(p.core_count as nat) + (
    ",\"coresEnabled\":").spec_bytes() + jnum(p.cores_enabled as nat) + (
    ",\"threadCount\":").spec_bytes() + jnum(p.thread_count as nat) + (
    ",\"threadEnabled\":").spec_bytes() + jnum(p.thread_enabled as nat) + ("}").spec_bytes()
}

/// The comma-separated processor objects.
pub open spec fn jprocs_items(ps: Seq<ProcessorModel>) -> Seq<u8>
    decreases ps.len(),
{
    if ps.len() == 0 {
        Seq::<u8>::empty()
    } else if ps.len() == 1 {
        jproc(ps[0])
    } else {
        jprocs_items(ps.drop_last()) + seq![44u8] + jproc(ps.last())
    }
}

/// The memory summary object.
pub open spec fn jmem(m: MemoryModel) -> Seq<u8> {
    ("{\"totalMemory\":").spec_bytes() + jnum(m.total_memory as nat) + (
    ",\"unit\":").spec_bytes() + jstr(m.unit) + ("}").spec_bytes()
}

/// The devices object.
pub open spec fn jdevices(d: DevicesModel) -> Seq<u8> {
    ("{\"processor\":[").spec_bytes() + jprocs_items(d.processor) + ("],\"memory\":").spec_bytes()
        + jmem(d.memory) + ("}").spec_bytes()
}

/// The comma-separated address strings.
pub open spec fn jaddrs_items(ss: Seq<Seq<char>>) -> Seq<u8>
    decreases ss.len(),
{
    if ss.len() == 0 {
        Seq::<u8>::empty()
    } else if ss.len() == 1 {
        jstr(ss[0])
    } else {
        jaddrs_items(ss.drop_last()) + seq![44u8] + jstr(ss.last())
    }
}

/// One network object.
pub open spec fn jnet(n: NetworkModel) -> Seq<u8> {
    ("{\"name\":").spec_bytes() + jstr(n.name) + (",\"address\":[").spec_bytes() + jaddrs_items(
        n.address,
    ) + ("],\"macAddress\":").spec_bytes() + jstr(n.mac_address) + ("}").spec_bytes()
}

/// The comma-separated network objects.
pub open spec fn jnets_items(ns: Seq<NetworkModel>) -> Seq<u8>
    decreases ns.len(),
{
    if ns.len() == 0 {
        Seq::<u8>::empty()
    } else if ns.len() == 1 {
        jnet(ns[0])
    } else {
        jnets_items(ns.drop_last()) + seq![44u8] + jnet(ns.last())
    }
}

/// The whole record on the wire.
pub open spec fn json_of(m: MachineInfoModel) -> Seq<u8> {
    ("{\"hostname\":").spec_bytes() + jstr(m.hostname) + (",\"serialNumber\":").spec_bytes() + jstr(
        m.serial_number,
    ) + (",\"cloud\":").spec_bytes() + jcloud(m.cloud) + (",\"os\":").spec_bytes() + jos(m.os) + (
    ",\"devices\":").spec_bytes() + jdevices(m.devices) + (",\"networks\":[").spec_bytes()
        + jnets_items(m.networks) + ("]}").spec_bytes()
}

#[verifier::loop_isolation(false)]
fn push_lit(out: &mut Vec<u8>, s: &str)
    ensures
        final(out)@ == old(out)@ + s.spec_bytes(),
{
    let b = s.as_bytes_vec();
    let mut i: usize = 0;
    proof {
        assert(out@ =~= old(out)@ + b@.take(0));
    }
    while i < b.len()
        invariant
            i <= b@.len(),
            out@ == old(out)@ + b@.take(i as int),
        decreases b@.len() - i,
    {
        out.push(b[i]);
        proof {
            assert(out@ =~= old(out)@ + b@.take(i as int + 1));
        }
        i = i + 1;
    }
    proof {
        assert(b@.take(b@.len() as int) =~= b@);
    }
}

fn hex_digit_b(d: u32) -> (r: u8)
    requires
        d < 16,
    ensures
        r == hex_digit_byte(d as nat),
{
    if d < 10 {
        48 + (d as u8)
    } else {
        87 + (d as u8)
    }
}

fn push_hex4(out: &mut Vec<u8>, n: u32)
    requires
        n < 0x10000,
    ensures
        final(out)@ == old(out)@ + hex4(n as nat),
{
    out.push(hex_digit_b((n / 0x1000) % 16));
    out.push(hex_digit_b((n / 0x100) % 16));
    out.push(hex_digit_b((n / 16) % 16));
    out.push(hex_digit_b(n % 16));
    proof {
        assert(out@ =~= old(out)@ + hex4(n as nat));
    }
}

fn push_esc_char(out: &mut Vec<u8>, c: char)
    ensures
        final(out)@ == old(out)@ + esc_char(c),
{
    let n = c as u32;
    if c == '"' {
        out.push(92);
        out.push(34);
        proof {
            assert(out@ =~= old(out)@ + esc_char(c));
        }
    } else if c == '\\' {
        out.push(92);
        out.push(92);
        proof {
            assert(out@ =~= old(out)@ + esc_char(c));
        }
    } else if n >= 0x20 && n < 0x7F {
        out.push(n as u8);
        proof {
            assert(out@ =~= old(out)@ + esc_char(c));
        }
    } else if n < 0x10000 {
        out.push(92);
        out.push(117);
        push_hex4(out, n);
        proof {
            assert(out@ =~= old(out)@ + esc_char(c));
        }
    } else {
        out.push(92);
        out.push(117);
        push_hex4(out, 0xD800 + (n - 0x10000) / 0x400);
        out.push(92);
        out.push(117);
        push_hex4(out, 0xDC00 + (n - 0x10000) % 0x400);
        proof {
            assert(out@ =~= old(out)@ + esc_char(c));
        }
    }
}

#[verifier::loop_isolation(false)]
fn push_jstr(out: &mut Vec<u8>, s: &String)
    ensures
        final(out)@ == old(out)@ + jstr(s@),
{
    out.push(34);
    let t = s.as_str();
    let m = t.unicode_len();
    let mut i: usize = 0;
    proof {
        assert(esc(t@.take(0)) =~= Seq::<u8>::empty());
        assert(out@ =~= old(out)@ + seq![34u8] + esc(t@.take(0)));
    }
    while i < m
        invariant
            i <= m,
            m == t@.len(),
            out@ == old(out)@ + seq![34u8] + esc(t@.take(i as int)),
        decreases m - i,
    {
        push_esc_char(out, t.get_char(i));
        proof {
            assert(t@.take(i as int + 1).drop_last() =~= t@.take(i as int));
            assert(t@.take(i as int + 1).last() == t@[i as int]);
            assert(out@ =~= old(out)@ + seq![34u8] + esc(t@.take(i as int + 1)));
        }
        i = i + 1;
    }
    out.push(34);
    proof {
        assert(t@.take(m as int) =~= t@);
        assert(out@ =~= old(out)@ + jstr(s@));
    }
}

proof fn lemma_digit_code(k: nat)
    requires
        k < 10,
    ensures
        48 <= digit(k) as u32 <= 57,
{
    assert('0' as u32 == 48);
    assert('1' as u32 == 49);
    assert('2' as u32 == 50);
    assert('3' as u32 == 51);
    assert('4' as u32 == 52);
    assert('5' as u32 == 53);
    assert('6' as u32 == 54);
    assert('7' as u32 == 55);
    assert('8' as u32 == 56);
    assert('9' as u32 == 57);
}

proof fn lemma_dec_digits(n: nat)
    ensures
        forall|i: int|
            0 <= i < dec_of(n).len() ==> 48 <= (#[trigger] dec_of(n)[i] as u32) <= 57,
    decreases n,
{
    if n < 10 {
        lemma_digit_code(n);
        assert(dec_of(n)[0] == digit(n));
    } else {
        lemma_dec_digits(n / 10);
        lemma_digit_code(n % 10);
        let prefix = dec_of(n / 10);
        assert forall|i: int| 0 <= i < dec_of(n).len() implies 48 <= (#[trigger] dec_of(n)[i]
            as u32) <= 57 by {
            if i < prefix.len() {
                assert(dec_of(n)[i] == prefix[i]);
            } else {
                assert(dec_of(n)[i] == digit(n % 10));
            }
        }
    }
}

#[verifier::loop_isolation(false)]
fn push_dec(out: &mut Vec<u8>, n: u64)
    ensures
        final(out)@ == old(out)@ + jnum(n as nat),
{
    let s = u64_to_dec(n);
    let t = s.as_str();
    let m = t.unicode_len();
    let mut i: usize = 0;
    proof {
        lemma_dec_digits(n as nat);
        assert(out@ =~= old(out)@ + ascii_bytes(t@.take(0)));
    }
    while i < m
        invariant
            i <= m,
            m == t@.len(),
            t@ == dec_of(n as nat),
            out@ == old(out)@ + ascii_bytes(t@.take(i as int)),
        decreases m - i,
    {
        let c = t.get_char(i);
        proof {
            lemma_dec_digits(n as nat);
        }
        out.push((c as u32) as u8);
        proof {
            assert(out@ =~= old(out)@ + ascii_bytes(t@.take(i as int + 1)));
        }
        i = i + 1;
    }
    proof {
        assert(t@.take(m as int) =~= t@);
        assert(ascii_bytes(t@) =~= jnum(n as nat));
    }
}

#[verifier::loop_isolation(false)]
fn push_os(out: &mut Vec<u8>, o: &OS)
    ensures
        final(out)@ == old(out)@ + jos(o@),
{
    push_lit(out, "{\"platform\":");
    push_jstr(out, &o.platform);
    push_lit(out, ",\"os\":");
    push_jstr(out, &o.os);
    push_lit(out, ",\"version\":");
    push_jstr(out, &o.version);
    push_lit(out, ",\"arch\":");
    push_jstr(out, &o.arch);
    push_lit(out, ",\"kernel\":");
    push_jstr(out, &o.kernel);
    push_lit(out, "}");
    proof {
        assert(out@ =~= old(out)@ + jos(o@));
    }
}

#[verifier::loop_isolation(false)]
#[verifier::rlimit(100)]
fn push_proc(out: &mut Vec<u8>, p: &Processor)
    ensures
        final(out)@ == old(out)@ + jproc(p@),
{
    push_lit(out, "{\"version\":");
    push_jstr(out, &p.version);
    push_lit(out, ",\"maxSpeed\":");
    push_dec(out, p.max_speed as u64);
    push_lit(out, ",\"currentSpeed\":");
    push_dec(out, p.current_speed as u64);
    push_lit(out, ",\"coreCount\":");
    push_dec(out, p.core_count as u64);
    push_lit(out, ",\"coresEnabled\":");
    push_dec(out, p.cores_enabled as u64);
    push_lit(out, ",\"threadCount\":");
    push_dec(out, p.thread_count as u64);
    push_lit(out, ",\"threadEnabled\":");
    push_dec(out, p.thread_enabled as u64);
    push_lit(out, "}");
    proof {
        assert(out@ =~= old(out)@ + jproc(p@));
    }
}

#[verifier::loop_isolation(false)]
fn push_mem(out: &mut Vec<u8>, m: &Memory)
    ensures
        final(out)@ == old(out)@ + jmem(m@),
{
    push_lit(out, "{\"totalMemory\":");
    push_dec(out, m.total_memory);
    push_lit(out, ",\"unit\":");
    push_jstr(out, &m.unit);
    push_lit(out, "}");
    proof {
        assert(out@ =~= old(out)@ + jmem(m@));
    }
}

#[verifier::loop_isolation(false)]
fn push_procs(out: &mut Vec<u8>, ps: &Vec<Processor>)
    ensures
        final(out)@ == old(out)@ + jprocs_items(processor_views(ps@)),
{
    let ghost vs = processor_views(ps@);
    let n = ps.len();
    let mut i: usize = 0;
    proof {
        assert(jprocs_items(vs.take(0)) =~= Seq::<u8>::empty());
        assert(out@ =~= old(out)@ + jprocs_items(vs.take(0)));
    }
    while i < n
        invariant
            i <= n,
            n == ps@.len(),
            out@ == old(out)@ + jprocs_items(vs.take(i as int)),
        decreases n - i,
    {
        if i > 0 {
            out.push(44);
        }
        push_proc(out, &ps[i]);
        proof {
            assert(vs.take(i as int + 1).drop_last() =~= vs.take(i as int));
            assert(vs.take(i as int + 1).last() == vs[i as int]);
            assert(out@ =~= old(out)@ + jprocs_items(vs.take(i as int + 1)));
        }
        i = i + 1;
    }
    proof {
        assert(vs.take(n as int) =~= vs);
    }
}

#[verifier::loop_isolation(false)]
fn push_addrs(out: &mut Vec<u8>, addrs: &Vec<String>)
    ensures
        final(out)@ == old(out)@ + jaddrs_items(string_views(addrs@)),
{
    let ghost vs = string_views(addrs@);
    let n = addrs.len();
    let mut i: usize = 0;
    proof {
        assert(jaddrs_items(vs.take(0)) =~= Seq::<u8>::empty());
        assert(out@ =~= old(out)@ + jaddrs_items(vs.take(0)));
    }
    while i < n
        invariant
            i <= n,
            n == addrs@.len(),
            out@ == old(out)@ + jaddrs_items(vs.take(i as int)),
        decreases n - i,
    {
        if i > 0 {
            out.push(44);
        }
        push_jstr(out, &addrs[i]);
        proof {
            assert(vs.take(i as int + 1).drop_last() =~= vs.take(i as int));
            assert(vs.take(i as int + 1).last() == vs[i as int]);
            assert(out@ =~= old(out)@ + jaddrs_items(vs.take(i as int + 1)));
        }
        i = i + 1;
    }
    proof {
        assert(vs.take(n as int) =~= vs);
    }
}

#[verifier::loop_isolation(false)]
fn push_net(out: &mut Vec<u8>, n: &Network)
    ensures
        final(out)@ == old(out)@ + jnet(n@),
{
    push_lit(out, "{\"name\":");
    push_jstr(out, &n.name);
    push_lit(out, ",\"address\":[");
    push_addrs(out, &n.address);
    push_lit(out, "],\"macAddress\":");
    push_jstr(out, &n.mac_address);
    push_lit(out, "}");
    proof {
        assert(out@ =~= old(out)@ + jnet(n@));
    }
}

#[verifier::loop_isolation(false)]
fn push_nets(out: &mut Vec<u8>, ns: &Vec<Network>)
    ensures
        final(out)@ == old(out)@ + jnets_items(network_views(ns@)),
{
    let ghost vs = network_views(ns@);
    let n = ns.len();
    let mut i: usize = 0;
    proof {
        assert(jnets_items(vs.take(0)) =~= Seq::<u8>::empty());
        assert(out@ =~= old(out)@ + jnets_items(vs.take(0)));
    }
    while i < n
        invariant
            i <= n,
            n == ns@.len(),
            out@ == old(out)@ + jnets_items(vs.take(i as int)),
        decreases n - i,
    {
        if i > 0 {
            out.push(44);
        }
        push_net(out, &ns[i]);
        proof {
            assert(vs.take(i as int + 1).drop_last() =~= vs.take(i as int));
            assert(vs.take(i as int + 1).last() == vs[i as int]);
            assert(out@ =~= old(out)@ + jnets_items(vs.take(i as int + 1)));
        }
        i = i + 1;
    }
    proof {
        assert(vs.take(n as int) =~= vs);
    }
}

/// Serializes one record into its exact wire bytes.
#[verifier::loop_isolation(false)]
#[verifier::rlimit(100)]
pub fn json_bytes(m: &MachineInfo) -> (r: Vec<u8>)
    ensures
        r@ == json_of(m@),
{
    let mut out: Vec<u8> = Vec::new();
    push_lit(&mut out, "{\"hostname\":");
    push_jstr(&mut out, &m.hostname);
    push_lit(&mut out, ",\"serialNumber\":");
    push_jstr(&mut out, &m.serial_number);
    push_lit(&mut out, ",\"cloud\":");
    match &m.cloud {
        Some(c) => push_jstr(&mut out, c),
        None => push_lit(&mut out, "null"),
    }
    push_lit(&mut out, ",\"os\":");
    push_os(&mut out, &m.os);
    push_lit(&mut out, ",\"devices\":");
    push_lit(&mut out, "{\"processor\":[");
    push_procs(&mut out, &m.devices.processor);
    push_lit(&mut out, "],\"memory\":");
    push_mem(&mut out, &m.devices.memory);
    push_lit(&mut out, "}");
    push_lit(&mut out, ",\"networks\":[");
    push_nets(&mut out, &m.networks);
    push_lit(&mut out, "]}");
    proof {
        assert(out@ =~= json_of(m@));
    }
    out
}

/// Serialization is a function of the record alone: equal records give
/// byte-identical wire bodies.
pub proof fn lemma_json_deterministic(m1: MachineInfoModel, m2: MachineInfoModel)
    requires
        m1 == m2,
    ensures
        json_of(m1) == json_of(m2),
{
}

} // verus!
