//! The SMBIOS table model and the keyword resolution engine on top of it.

pub mod opt;
pub mod table;

use vstd::prelude::*;

use crate::smbios::opt::{all_keywords, keyword_name, resolve, BiosParseError, Keyword};
use crate::smbios::table::RawTable;

verus! {

/// Resolves every keyword against the table, pairing each keyword's name
/// with its value; the first keyword that resolves to nothing ends the pass
/// with that keyword's own absence condition.
pub fn collect_dmidecode(data: &RawTable) -> (r: Result<Vec<(String, String)>, BiosParseError>)
    ensures
        match r {
            Result::Ok(pairs) => pairs@.len() == all_keywords().len() && forall|i: int|
                #![auto]
                0 <= i < pairs@.len() ==> resolve(all_keywords()[i], data.structures@) is Some
                    && pairs@[i].0@ == keyword_name(all_keywords()[i]) && pairs@[i].1@ == resolve(
                    all_keywords()[i],
                    data.structures@,
                )->0,
            Result::Err(e) => exists|i: int|
                #![auto]
                0 <= i < all_keywords().len() && resolve(all_keywords()[i], data.structures@)
                    is None && e == all_keywords()[i].absence() && (forall|j: int|
                    #![auto]
                    0 <= j < i ==> resolve(all_keywords()[j], data.structures@) is Some),
        },
{
    let kws = Keyword::all();
    let mut pairs: Vec<(String, String)> = Vec::new();
    let mut i: usize = 0;
    while i < kws.len()
        invariant
            i <= kws@.len(),
            kws@ == all_keywords(),
            pairs@.len() == i,
            forall|j: int|
                #![auto]
                0 <= j < i ==> resolve(all_keywords()[j], data.structures@) is Some && pairs@[j].0@
                    == keyword_name(all_keywords()[j]) && pairs@[j].1@ == resolve(
                    all_keywords()[j],
                    data.structures@,
                )->0,
        decreases kws@.len() - i,
    {
        let kw = kws[i];
        match kw.parse(data) {
            Ok(v) => {
                pairs.push((kw.name(), v));
            },
            Err(e) => {
                return Err(e);
            },
        }
        i = i + 1;
    }
    Ok(pairs)
}

} // verus!
