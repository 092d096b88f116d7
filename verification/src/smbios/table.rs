//! The raw structure table: a sequence of typed, length-prefixed records,
//! each made of a formatted area (header included, so offsets follow the
//! SMBIOS specification) and a string-set.

use vstd::prelude::*;

verus! {

/// The structure type code that marks the end of the table.
pub const END_OF_TABLE: u8 = 127;

/// One raw structure of the table.
///
/// `fields` holds the header and the formatted area: index 0 is the first
/// header byte, so field offsets match the ones the SMBIOS standard gives.
/// `strings` holds the string-set in order; string number 1 is `strings[0]`.
#[derive(Debug, Clone)]
pub struct Structure {
    pub struct_type: u8,
    pub handle: u16,
    pub fields: Vec<u8>,
    pub strings: Vec<String>,
}

/// The whole table, in iteration order.
#[derive(Debug, Clone)]
pub struct RawTable {
    pub structures: Vec<Structure>,
}

/// The byte at `off` in the formatted area, absent when the structure is too
/// short to hold it.
pub open spec fn field_byte(s: Structure, off: int) -> Option<u8> {
    if 0 <= off && off < s.fields@.len() {
        Some(s.fields@[off])
    } else {
        None
    }
}

/// The little-endian word at `off`, absent when out of bounds.
pub open spec fn field_word(s: Structure, off: int) -> Option<u16> {
    if 0 <= off && off + 2 <= s.fields@.len() {
        Some((s.fields@[off] + s.fields@[off + 1] * 256) as u16)
    } else {
        None
    }
}

/// The little-endian double word at `off`, absent when out of bounds.
pub open spec fn field_dword(s: Structure, off: int) -> Option<u32> {
    if 0 <= off && off + 4 <= s.fields@.len() {
        let b0 = s.fields@[off];
        let b1 = s.fields@[off + 1];
        let b2 = s.fields@[off + 2];
        let b3 = s.fields@[off + 3];
        Some((b0 + b1 * 0x100 + b2 * 0x10000 + b3 * 0x1000000) as u32)
    } else {
        None
    }
}

/// A string field: the byte at `off` is a 1-based string number.
/// Number 0 references no string and reads as the empty string; an absent
/// field or a number past the string-set reads as absent.
pub open spec fn string_field(s: Structure, off: int) -> Option<Seq<char>> {
    match field_byte(s, off) {
        Option::None => Option::None,
        Option::Some(idx) => if idx == 0 {
            Option::Some(Seq::<char>::empty())
        } else if idx <= s.strings@.len() {
            Option::Some(s.strings@[idx - 1]@)
        } else {
            Option::None
        },
    }
}

impl Structure {
    /// Reads the formatted-area byte at `off`.
    pub fn read_byte(&self, off: usize) -> (r: Option<u8>)
        ensures
            r == field_byte(*self, off as int),
    {
        if off < self.fields.len() {
            Some(self.fields[off])
        } else {
            None
        }
    }

    /// Reads the little-endian word at `off`.
    pub fn read_word(&self, off: usize) -> (r: Option<u16>)
        ensures
            r == field_word(*self, off as int),
    {
        if self.fields.len() >= 2 && off <= self.fields.len() - 2 {
            let lo = self.fields[off];
            let hi = self.fields[off + 1];
            Some(lo as u16 + (hi as u16) * 256)
        } else {
            None
        }
    }

    /// Reads the little-endian double word at `off`.
    pub fn read_dword(&self, off: usize) -> (r: Option<u32>)
        ensures
            r == field_dword(*self, off as int),
    {
        if self.fields.len() >= 4 && off <= self.fields.len() - 4 {
            let b0 = self.fields[off];
            let b1 = self.fields[off + 1];
            let b2 = self.fields[off + 2];
            let b3 = self.fields[off + 3];
            Some(b0 as u32 + (b1 as u32) * 0x100 + (b2 as u32) * 0x10000 + (b3 as u32) * 0x1000000)
        } else {
            None
        }
    }

    /// Reads the string field whose number stands at `off`.
    pub fn read_string(&self, off: usize) -> (r: Option<String>)
        ensures
            match string_field(*self, off as int) {
                Option::None => r is None,
                Option::Some(v) => r is Some && r->0@ == v,
            },
    {
        match self.read_byte(off) {
            None => None,
            Some(idx) => {
                if idx == 0 {
                    Some(String::new())
                } else if (idx as usize) <= self.strings.len() {
                    Some(self.strings[(idx - 1) as usize].clone())
                } else {
                    None
                }
            },
        }
    }
}

} // verus!
