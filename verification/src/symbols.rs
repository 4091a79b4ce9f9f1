//! Symbol strings and the shared symbol table.
//!
//! Symbol records carry NUL-terminated strings in fixed-width buffers: the
//! decoded text is the valid-UTF-8 reading of the bytes before the first
//! NUL.  A buffer that is entirely NUL decodes to the empty string; invalid
//! UTF-8 before the first NUL is garbled data and drops the frame.

use vstd::prelude::*;
use vstd::slice::{slice_subrange, slice_to_vec};
use vstd::utf8::{decode_utf8, valid_utf8};

use crate::sample::{decode_symbol, RawSymbol, SYMBOL_SIZE};

verus! {

/// The bytes of a fixed-width string buffer before its first NUL (the whole
/// buffer when no NUL is present).
pub open spec fn spec_nul_prefix(b: Seq<u8>) -> Seq<u8>
    decreases b.len(),
{
    if b.len() == 0 {
        b
    } else if b[0] == 0 {
        Seq::empty()
    } else {
        seq![b[0]] + spec_nul_prefix(b.drop_first())
    }
}

proof fn lemma_nul_prefix_take(b: Seq<u8>, i: int)
    requires
        0 <= i <= b.len(),
        forall|j: int| 0 <= j < i ==> b[j] != 0,
        i == b.len() || b[i] == 0,
    ensures
        spec_nul_prefix(b) == b.take(i),
    decreases i,
{
    if i == 0 {
        if b.len() == 0 {
            assert(spec_nul_prefix(b) =~= b.take(0));
        } else {
            assert(spec_nul_prefix(b) =~= b.take(0));
        }
    } else {
        lemma_nul_prefix_take(b.drop_first(), i - 1);
        assert(seq![b[0]] + b.drop_first().take(i - 1) =~= b.take(i));
    }
}

/// Decoding of the NUL-truncated buffer, when it is valid UTF-8.
pub open spec fn spec_symbol_chars(b: Seq<u8>) -> Seq<char> {
    decode_utf8(spec_nul_prefix(b))
}

/// True when the NUL-truncated buffer reads as valid UTF-8.
pub open spec fn symbol_readable(b: Seq<u8>) -> bool {
    valid_utf8(spec_nul_prefix(b))
}

/// Relies on `String::from_utf8`: it succeeds exactly on the byte sequences
/// that are valid UTF-8, and then returns the decoded character sequence.
#[verifier::external_body]
fn bytes_to_utf8(bytes: Vec<u8>) -> (r: Option<String>)
    ensures
        r is Some <==> valid_utf8(bytes@),
        r is Some ==> r.unwrap()@ == decode_utf8(bytes@),
{
    match String::from_utf8(bytes) {
        Ok(s) => Some(s),
        Err(_) => None,
    }
}

/// Reads a fixed-width string buffer: truncates at the first NUL and decodes
/// the prefix as UTF-8.  `None` means garbled data (invalid UTF-8); an
/// all-NUL buffer gives the empty string.
pub fn str_from_u8_nul(bytes: &Vec<u8>) -> (r: Option<String>)
    ensures
        r is Some <==> symbol_readable(bytes@),
        r is Some ==> r.unwrap()@ == spec_symbol_chars(bytes@),
{
    let mut i: usize = 0;
    while i < bytes.len() && *bytes.get(i).unwrap() != 0
        invariant
            i <= bytes@.len(),
            forall|j: int| 0 <= j < i ==> bytes@[j] != 0,
        decreases bytes@.len() - i,
    {
        i = i + 1;
    }
    proof {
        lemma_nul_prefix_take(bytes@, i as int);
    }
    let prefix = slice_to_vec(slice_subrange(bytes.as_slice(), 0, i));
    bytes_to_utf8(prefix)
}

/// The shared symbol table, snapshotted from the kernel map: pairs of a
/// symbol id and its record.  Ids are assigned by the kernel and never
/// recycled within a session.
pub struct SymbolTable {
    pub entries: Vec<(u32, RawSymbol)>,
}

impl SymbolTable {
    pub open spec fn wf(self) -> bool {
        forall|k: int| 0 <= k < self.entries@.len() ==> (#[trigger] self.entries@[k]).1.wf()
    }

    /// True when some entry carries the id.
    pub open spec fn contains_id(self, id: u32) -> bool {
        exists|k: int| 0 <= k < self.entries@.len() && (#[trigger] self.entries@[k]).0 == id
    }

    /// Index of the first entry with the id.
    pub open spec fn spec_index_of(self, id: u32) -> int {
        choose|k: int|
            0 <= k < self.entries@.len() && (#[trigger] self.entries@[k]).0 == id && forall|j: int|
                0 <= j < k ==> (#[trigger] self.entries@[j]).0 != id
    }

    /// Builds a table from a raw dump of the kernel symbol map: each pair is
    /// an encoded symbol record (the map key) and its 4-byte little-endian id
    /// (the map value).  A malformed pair is a programming error and fails
    /// the whole build.
    pub fn from_entries(raw: &Vec<(Vec<u8>, Vec<u8>)>) -> (r: Option<SymbolTable>)
        ensures
            r is Some <==> forall|k: int|
                0 <= k < raw@.len() ==> {
                    &&& (#[trigger] raw@[k]).0@.len() >= SYMBOL_SIZE
                    &&& raw@[k].1@.len() == 4
                },
            r is Some ==> {
                let t = r.unwrap();
                &&& t.wf()
                &&& t.entries@.len() == raw@.len()
                &&& forall|k: int|
                    0 <= k < raw@.len() ==> {
                        &&& (#[trigger] t.entries@[k]).0 == vstd::bytes::spec_u32_from_le_bytes(
                            raw@[k].1@,
                        )
                        &&& t.entries@[k].1.file@ == crate::sample::spec_symbol_file(raw@[k].0@)
                        &&& t.entries@[k].1.class@ == crate::sample::spec_symbol_class(raw@[k].0@)
                        &&& t.entries@[k].1.func@ == crate::sample::spec_symbol_func(raw@[k].0@)
                        &&& t.entries@[k].1.line == crate::sample::spec_symbol_line(raw@[k].0@)
                    }
            },
    {
        let mut entries: Vec<(u32, RawSymbol)> = Vec::new();
        let mut k: usize = 0;
        while k < raw.len()
            invariant
                k <= raw@.len(),
                entries@.len() == k,
                forall|j: int|
                    0 <= j < k ==> {
                        &&& (#[trigger] raw@[j]).0@.len() >= SYMBOL_SIZE
                        &&& raw@[j].1@.len() == 4
                    },
                forall|j: int|
                    0 <= j < k ==> {
                        &&& (#[trigger] entries@[j]).1.wf()
                        &&& entries@[j].0 == vstd::bytes::spec_u32_from_le_bytes(raw@[j].1@)
                        &&& entries@[j].1.file@ == crate::sample::spec_symbol_file(raw@[j].0@)
                        &&& entries@[j].1.class@ == crate::sample::spec_symbol_class(raw@[j].0@)
                        &&& entries@[j].1.func@ == crate::sample::spec_symbol_func(raw@[j].0@)
                        &&& entries@[j].1.line == crate::sample::spec_symbol_line(raw@[j].0@)
                    },
            decreases raw@.len() - k,
        {
            let pair = raw.get(k).unwrap();
            let sym = match decode_symbol(&pair.0) {
                Some(s) => s,
                None => {
                    return None;
                },
            };
            if pair.1.len() != 4 {
                return None;
            }
            let id = vstd::bytes::u32_from_le_bytes(pair.1.as_slice());
            entries.push((id, sym));
            k = k + 1;
        }
        Some(SymbolTable { entries })
    }

    /// Looks a symbol id up; returns the first record carrying it, or `None`
    /// when the id is absent from the table.
    pub fn lookup(&self, id: u32) -> (r: Option<&RawSymbol>)
        ensures
            r is Some <==> self.contains_id(id),
            r is Some ==> *r.unwrap() == self.entries@[self.spec_index_of(id)].1,
    {
        let mut k: usize = 0;
        while k < self.entries.len()
            invariant
                k <= self.entries@.len(),
                forall|j: int| 0 <= j < k ==> (#[trigger] self.entries@[j]).0 != id,
            decreases self.entries@.len() - k,
        {
            let pair = self.entries.get(k).unwrap();
            if pair.0 == id {
                proof {
                    let idx = self.spec_index_of(id);
                    assert(0 <= k < self.entries@.len() && self.entries@[k as int].0 == id
                        && forall|j: int| 0 <= j < k ==> (#[trigger] self.entries@[j]).0 != id);
                    assert(idx == k);
                }
                return Some(&pair.1);
            }
            k = k + 1;
        }
        None
    }
}

} // verus!
