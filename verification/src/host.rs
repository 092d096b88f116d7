//! Host identity facts: hostname resolution and the release-file key/value
//! format.

use vstd::prelude::*;

use crate::schema::string_views;

verus! {

/// UTS-style system identity, five free-form names.
#[derive(Debug, Clone)]
pub struct Uname {
    pub sysname: String,
    pub nodename: String,
    pub release: String,
    pub version: String,
    pub machine: String,
}

/// Why a host fact could not be resolved.
#[derive(Debug, Clone, Copy, PartialEq, Eq)]
pub enum HostError {
    /// The orchestration node-name variable is missing although the
    /// orchestration probe succeeded.
    NodeNameNotFound,
    /// The host identity syscall failed.
    SyscallFailed,
    /// A release-file line carries no separator.
    MalformedReleaseLine,
}

/// The position of the first NUL in `s`, or its length when none occurs.
pub open spec fn nul_end(s: Seq<char>) -> int
    decreases s.len(),
{
    if s.len() == 0 {
        0
    } else if s[0] == '\0' {
        0
    } else {
        1 + nul_end(s.skip(1))
    }
}

proof fn lemma_nul_end_at(s: Seq<char>, i: int)
    requires
        0 <= i <= s.len(),
        forall|j: int| 0 <= j < i ==> s[j] != '\0',
        i == s.len() || s[i] == '\0',
    ensures
        nul_end(s) == i,
    decreases i,
{
    if i == 0 {
    } else {
        assert(s[0] != '\0');
        lemma_nul_end_at(s.skip(1), i - 1);
    }
}

/// The view of an optional string.
pub open spec fn opt_view(o: Option<String>) -> Option<Seq<char>> {
    match o {
        Option::Some(s) => Option::Some(s@),
        Option::None => Option::None,
    }
}

/// The hostname the agent reports, as a function of the environment probe:
/// under orchestration the designated node name, whose absence is a hard
/// failure; otherwise the syscall-reported name truncated at the first NUL.
pub open spec fn hostname_of(
    in_kube: bool,
    node_name: Option<Seq<char>>,
    sys: Option<Seq<char>>,
) -> Result<Seq<char>, HostError> {
    if in_kube {
        match node_name {
            Option::Some(v) => Result::Ok(v),
            Option::None => Result::Err(HostError::NodeNameNotFound),
        }
    } else {
        match sys {
            Option::Some(b) => Result::Ok(b.take(nul_end(b))),
            Option::None => Result::Err(HostError::SyscallFailed),
        }
    }
}

/// Truncates at the first NUL character.
pub fn trim_at_nul(s: &str) -> (r: String)
    ensures
        r@ == s@.take(nul_end(s@)),
{
    let n = s.unicode_len();
    let mut i: usize = 0;
    while i < n
        invariant
            i <= n,
            n == s@.len(),
            forall|j: int| 0 <= j < i ==> s@[j] != '\0',
        decreases n - i,
    {
        if s.get_char(i) == '\0' {
            proof {
                lemma_nul_end_at(s@, i as int);
            }
            return s.substring_char(0, i).to_owned();
        }
        i = i + 1;
    }
    proof {
        lemma_nul_end_at(s@, n as int);
        assert(s@.take(n as int) =~= s@);
    }
    s.to_owned()
}

/// Resolves the hostname from the gathered environment facts.  The
/// orchestration probe alone decides which source is consulted.
pub fn get_hostname(in_kube: bool, node_name: &Option<String>, sys: &Option<String>) -> (r: Result<
    String,
    HostError,
>)
    ensures
        match r {
            Result::Ok(v) => hostname_of(in_kube, opt_view(*node_name), opt_view(*sys)) is Ok && v@
                == hostname_of(in_kube, opt_view(*node_name), opt_view(*sys))->Ok_0,
            Result::Err(e) => hostname_of(in_kube, opt_view(*node_name), opt_view(*sys)) is Err && e
                == hostname_of(in_kube, opt_view(*node_name), opt_view(*sys))->Err_0,
        },
{
    if in_kube {
        match node_name {
            Some(v) => Ok(v.clone()),
            None => Err(HostError::NodeNameNotFound),
        }
    } else {
        match sys {
            Some(b) => Ok(trim_at_nul(b.as_str())),
            None => Err(HostError::SyscallFailed),
        }
    }
}

/// Builds the UTS identity from the NUL-padded fields the identity syscall
/// fills: each name is truncated at its first NUL.
pub fn uname(sysname: &str, nodename: &str, release: &str, version: &str, machine: &str) -> (u:
    Uname)
    ensures
        u.sysname@ == sysname@.take(nul_end(sysname@)),
        u.nodename@ == nodename@.take(nul_end(nodename@)),
        u.release@ == release@.take(nul_end(release@)),
        u.version@ == version@.take(nul_end(version@)),
        u.machine@ == machine@.take(nul_end(machine@)),
{
    Uname {
        sysname: trim_at_nul(sysname),
        nodename: trim_at_nul(nodename),
        release: trim_at_nul(release),
        version: trim_at_nul(version),
        machine: trim_at_nul(machine),
    }
}

/// Under orchestration, resolution is probe-driven: the syscall-reported
/// name has no bearing on the result.
pub proof fn lemma_hostname_probe_driven(
    node_name: Option<Seq<char>>,
    sys1: Option<Seq<char>>,
    sys2: Option<Seq<char>>,
)
    ensures
        hostname_of(true, node_name, sys1) == hostname_of(true, node_name, sys2),
{
}

/// Without orchestration, resolution reports the syscall name exactly,
/// truncated at the first NUL; the node-name variable has no bearing.
pub proof fn lemma_hostname_syscall_exact(
    node1: Option<Seq<char>>,
    node2: Option<Seq<char>>,
    sys: Seq<char>,
)
    ensures
        hostname_of(false, node1, Option::Some(sys)) == Result::<Seq<char>, HostError>::Ok(
            sys.take(nul_end(sys)),
        ),
        hostname_of(false, node1, Option::Some(sys)) == hostname_of(
            false,
            node2,
            Option::Some(sys),
        ),
{
}

/// The position of the first `=` in `s`, or its length when none occurs.
pub open spec fn eq_pos(s: Seq<char>) -> int
    decreases s.len(),
{
    if s.len() == 0 {
        0
    } else if s[0] == '=' {
        0
    } else {
        1 + eq_pos(s.skip(1))
    }
}

proof fn lemma_eq_pos_at(s: Seq<char>, i: int)
    requires
        0 <= i <= s.len(),
        forall|j: int| 0 <= j < i ==> s[j] != '=',
        i == s.len() || s[i] == '=',
    ensures
        eq_pos(s) == i,
    decreases i,
{
    if i == 0 {
    } else {
        lemma_eq_pos_at(s.skip(1), i - 1);
    }
}

/// One release-file line split at its first separator; absent when the line
/// carries none.
pub open spec fn split_line(line: Seq<char>) -> Option<(Seq<char>, Seq<char>)> {
    let k = eq_pos(line);
    if k == line.len() {
        Option::None
    } else {
        Option::Some((line.take(k), line.skip(k + 1)))
    }
}

/// The key/value pairs of the release file, in line order; a line without a
/// separator makes the whole file malformed.
pub open spec fn pairs_of(lines: Seq<Seq<char>>) -> Option<Seq<(Seq<char>, Seq<char>)>>
    decreases lines.len(),
{
    if lines.len() == 0 {
        Option::Some(Seq::<(Seq<char>, Seq<char>)>::empty())
    } else {
        match split_line(lines[0]) {
            Option::None => Option::None,
            Option::Some(p) => match pairs_of(lines.skip(1)) {
                Option::None => Option::None,
                Option::Some(rest) => Option::Some(seq![p] + rest),
            },
        }
    }
}

/// The views of a vector of string pairs.
pub open spec fn pair_views(ps: Seq<(String, String)>) -> Seq<(Seq<char>, Seq<char>)> {
    ps.map_values(|p: (String, String)| (p.0@, p.1@))
}

fn split_one(line: &String) -> (r: Option<(String, String)>)
    ensures
        match split_line(line@) {
            Option::None => r is None,
            Option::Some(p) => r is Some && (r->0).0@ == p.0 && (r->0).1@ == p.1,
        },
{
    let s = line.as_str();
    let n = s.unicode_len();
    let mut i: usize = 0;
    while i < n
        invariant
            s@ == line@,
            i <= n,
            n == s@.len(),
            forall|j: int| 0 <= j < i ==> s@[j] != '=',
        decreases n - i,
    {
        if s.get_char(i) == '=' {
            proof {
                lemma_eq_pos_at(s@, i as int);
            }
            let key = s.substring_char(0, i).to_owned();
            let value = s.substring_char(i + 1, n).to_owned();
            proof {
                assert(s@.subrange(0, i as int) =~= s@.take(i as int));
                assert(s@.subrange(i as int + 1, n as int) =~= s@.skip(i as int + 1));
            }
            return Some((key, value));
        }
        i = i + 1;
    }
    proof {
        lemma_eq_pos_at(s@, n as int);
    }
    None
}

/// Parses the release file's lines into key/value pairs, split at the first
/// separator of each line.
pub fn parse_os_release(lines: &Vec<String>) -> (r: Result<Vec<(String, String)>, HostError>)
    ensures
        match r {
            Result::Ok(ps) => pairs_of(string_views(lines@)) is Some && pair_views(
                ps@,
            ) == pairs_of(string_views(lines@))->0,
            Result::Err(e) => pairs_of(string_views(lines@)) is None && e
                == HostError::MalformedReleaseLine,
        },
{
    let ghost lv = string_views(lines@);
    let n = lines.len();
    let mut out: Vec<(String, String)> = Vec::new();
    let mut i: usize = 0;
    proof {
        assert(lv.skip(0) =~= lv);
        assert(pair_views(out@) =~= Seq::<(Seq<char>, Seq<char>)>::empty());
    }
    while i < n
        invariant
            i <= n,
            n == lines@.len(),
            lv == string_views(lines@),
            pairs_of(lv) == match pairs_of(lv.skip(i as int)) {
                Option::None => Option::<Seq<(Seq<char>, Seq<char>)>>::None,
                Option::Some(rest) => Option::Some(pair_views(out@) + rest),
            },
        decreases n - i,
    {
        proof {
            assert(lv.skip(i as int)[0] == lv[i as int]);
            assert(lv.skip(i as int).skip(1) =~= lv.skip(i as int + 1));
        }
        match split_one(&lines[i]) {
            None => {
                return Err(HostError::MalformedReleaseLine);
            },
            Some(p) => {
                let ghost old_out = out@;
                out.push(p);
                proof {
                    assert(pair_views(out@) =~= pair_views(old_out).push(
                        split_line(lv[i as int])->0,
                    ));
                    if pairs_of(lv.skip(i as int + 1)) is Some {
                        assert(pair_views(old_out).push(split_line(lv[i as int])->0) + pairs_of(
                            lv.skip(i as int + 1),
                        )->0 =~= pair_views(old_out) + (seq![split_line(lv[i as int])->0]
                            + pairs_of(lv.skip(i as int + 1))->0));
                    }
                }
            },
        }
        i = i + 1;
    }
    proof {
        assert(lv.skip(n as int) =~= Seq::<Seq<char>>::empty());
        assert(pair_views(out@) + Seq::<(Seq<char>, Seq<char>)>::empty() =~= pair_views(out@));
    }
    Ok(out)
}

/// The value stored under `key`, the last occurrence winning, as a map
/// built by repeated insertion would hold it.
pub open spec fn lookup(ps: Seq<(Seq<char>, Seq<char>)>, key: Seq<char>) -> Option<Seq<char>>
    decreases ps.len(),
{
    if ps.len() == 0 {
        Option::None
    } else if ps.last().0 == key {
        Option::Some(ps.last().1)
    } else {
        lookup(ps.drop_last(), key)
    }
}

/// Looks a key up among the parsed pairs; of several occurrences the last
/// one wins.
pub fn lookup_value(ps: &Vec<(String, String)>, key: &str) -> (r: Option<String>)
    ensures
        match lookup(pair_views(ps@), key@) {
            Option::None => r is None,
            Option::Some(v) => r is Some && r->0@ == v,
        },
{
    let mut i: usize = ps.len();
    proof {
        assert(pair_views(ps@).take(ps@.len() as int) =~= pair_views(ps@));
    }
    while i > 0
        invariant
            i <= ps@.len(),
            lookup(pair_views(ps@), key@) == lookup(pair_views(ps@).take(i as int), key@),
        decreases i,
    {
        i = i - 1;
        let hit = {
            let k = ps[i].0.as_str();
            str_eq(k, key)
        };
        proof {
            assert(pair_views(ps@).take(i as int + 1).last() == pair_views(ps@)[i as int]);
            assert(pair_views(ps@).take(i as int + 1).drop_last() =~= pair_views(ps@).take(
                i as int,
            ));
        }
        if hit {
            return Some(ps[i].1.clone());
        }
    }
    proof {
        assert(pair_views(ps@).take(0) =~= Seq::<(Seq<char>, Seq<char>)>::empty());
    }
    None
}

/// Character-for-character string comparison.
pub fn str_eq(a: &str, b: &str) -> (r: bool)
    ensures
        r == (a@ == b@),
{
    let na = a.unicode_len();
    let nb = b.unicode_len();
    if na != nb {
        return false;
    }
    let mut i: usize = 0;
    while i < na
        invariant
            i <= na,
            na == a@.len(),
            na == b@.len(),
            forall|j: int| 0 <= j < i ==> a@[j] == b@[j],
        decreases na - i,
    {
        if a.get_char(i) != b.get_char(i) {
            return false;
        }
        i = i + 1;
    }
    proof {
        assert(a@ =~= b@);
    }
    true
}

} // verus!
