//! Fixed-layout records shared with the kernel unwinder, and their decoders.
//!
//! Both record kinds travel as little-endian byte buffers.  A sample is laid
//! out as: `pid: i32`, `tid: i32`, `comm: [u8; COMM_LEN]`, `timestamp: u64`,
//! `kernel_stack_id: i32`, `user_stack_id: i32`, `stack.len: u32`,
//! `stack.frames: [u32; MAX_STACK_DEPTH]`.  A symbol is laid out as:
//! `file: [u8; FILE_NAME_LEN]`, `class: [u8; CLASS_NAME_LEN]`,
//! `func: [u8; FUNCTION_NAME_LEN]`, `line: u32`; its strings are
//! NUL-terminated within their fixed buffers.

use vstd::bytes::{spec_u32_from_le_bytes, spec_u64_from_le_bytes, u32_from_le_bytes,
    u64_from_le_bytes};
use vstd::prelude::*;
use vstd::slice::{slice_subrange, slice_to_vec};

verus! {

/// Greatest number of frames the kernel unwinder records for one sample.
pub const MAX_STACK_DEPTH: usize = 128;

/// Width of the fixed `comm` (thread command name) buffer.
pub const COMM_LEN: usize = 16;

/// Width of the fixed source-file buffer of a symbol.
pub const FILE_NAME_LEN: usize = 128;

/// Width of the fixed class-name buffer of a symbol.
pub const CLASS_NAME_LEN: usize = 64;

/// Width of the fixed function-name buffer of a symbol.
pub const FUNCTION_NAME_LEN: usize = 64;

/// Size in bytes of one sample record.
pub const SAMPLE_SIZE: usize = 4 + 4 + COMM_LEN + 8 + 4 + 4 + 4 + 4 * MAX_STACK_DEPTH;

/// Size in bytes of one symbol record.
pub const SYMBOL_SIZE: usize = FILE_NAME_LEN + CLASS_NAME_LEN + FUNCTION_NAME_LEN + 4;

/// The per-sample stack: the first `len` entries of `frames` are symbol ids
/// assigned by the kernel unwinder; the rest is unspecified.
pub struct StackTrace {
    pub len: u32,
    pub frames: Vec<u32>,
}

impl StackTrace {
    /// The frame buffer always has its full fixed width.
    pub open spec fn wf(self) -> bool {
        self.frames@.len() == MAX_STACK_DEPTH
    }
}

/// One decoded sample record.
pub struct RawSample {
    pub pid: i32,
    pub tid: i32,
    pub comm: Vec<u8>,
    pub timestamp: u64,
    pub kernel_stack_id: i32,
    pub user_stack_id: i32,
    pub stack: StackTrace,
}

impl RawSample {
    pub open spec fn wf(self) -> bool {
        &&& self.comm@.len() == COMM_LEN
        &&& self.stack.wf()
    }
}

/// The pid field of an encoded sample.
pub open spec fn spec_sample_pid(d: Seq<u8>) -> i32 {
    spec_u32_from_le_bytes(d.subrange(0, 4)) as i32
}

/// The tid field of an encoded sample.
pub open spec fn spec_sample_tid(d: Seq<u8>) -> i32 {
    spec_u32_from_le_bytes(d.subrange(4, 8)) as i32
}

/// The comm field of an encoded sample.
pub open spec fn spec_sample_comm(d: Seq<u8>) -> Seq<u8> {
    d.subrange(8, 8 + COMM_LEN as int)
}

/// The timestamp field of an encoded sample, in the unit the kernel side
/// documents (the two sides must agree; this library does not convert it).
pub open spec fn spec_sample_timestamp(d: Seq<u8>) -> u64 {
    spec_u64_from_le_bytes(d.subrange(24, 32))
}

/// The kernel-side native stack id of an encoded sample.
pub open spec fn spec_sample_kernel_stack_id(d: Seq<u8>) -> i32 {
    spec_u32_from_le_bytes(d.subrange(32, 36)) as i32
}

/// The user-side native stack id of an encoded sample.
pub open spec fn spec_sample_user_stack_id(d: Seq<u8>) -> i32 {
    spec_u32_from_le_bytes(d.subrange(36, 40)) as i32
}

/// The stack length field of an encoded sample.
pub open spec fn spec_sample_stack_len(d: Seq<u8>) -> u32 {
    spec_u32_from_le_bytes(d.subrange(40, 44))
}

/// Frame `k` of an encoded sample.
pub open spec fn spec_sample_frame(d: Seq<u8>, k: int) -> u32 {
    spec_u32_from_le_bytes(d.subrange(44 + 4 * k, 48 + 4 * k))
}

/// Decodes one sample record.  Succeeds exactly when the buffer holds at
/// least one full record; extra trailing bytes are ignored.
pub fn decode_sample(data: &Vec<u8>) -> (r: Option<RawSample>)
    ensures
        r is Some <==> data@.len() >= SAMPLE_SIZE,
        r is Some ==> {
            let s = r.unwrap();
            &&& s.wf()
            &&& s.pid == spec_sample_pid(data@)
            &&& s.tid == spec_sample_tid(data@)
            &&& s.comm@ == spec_sample_comm(data@)
            &&& s.timestamp == spec_sample_timestamp(data@)
            &&& s.kernel_stack_id == spec_sample_kernel_stack_id(data@)
            &&& s.user_stack_id == spec_sample_user_stack_id(data@)
            &&& s.stack.len == spec_sample_stack_len(data@)
            &&& forall|k: int|
                0 <= k < MAX_STACK_DEPTH ==> s.stack.frames@[k] == spec_sample_frame(data@, k)
        },
{
    if data.len() < SAMPLE_SIZE {
        return None;
    }
    let d = data.as_slice();
    let pid = u32_from_le_bytes(slice_subrange(d, 0, 4)) as i32;
    let tid = u32_from_le_bytes(slice_subrange(d, 4, 8)) as i32;
    let comm = slice_to_vec(slice_subrange(d, 8, 8 + COMM_LEN));
    let timestamp = u64_from_le_bytes(slice_subrange(d, 24, 32));
    let kernel_stack_id = u32_from_le_bytes(slice_subrange(d, 32, 36)) as i32;
    let user_stack_id = u32_from_le_bytes(slice_subrange(d, 36, 40)) as i32;
    let len = u32_from_le_bytes(slice_subrange(d, 40, 44));
    let mut frames: Vec<u32> = Vec::new();
    let mut k: usize = 0;
    while k < MAX_STACK_DEPTH
        invariant
            data@.len() >= SAMPLE_SIZE,
            d@ == data@,
            k <= MAX_STACK_DEPTH,
            frames@.len() == k,
            forall|j: int| 0 <= j < k ==> frames@[j] == spec_sample_frame(data@, j),
        decreases MAX_STACK_DEPTH - k,
    {
        let f = u32_from_le_bytes(slice_subrange(d, 44 + 4 * k, 48 + 4 * k));
        frames.push(f);
        k = k + 1;
    }
    Some(RawSample {
        pid,
        tid,
        comm,
        timestamp,
        kernel_stack_id,
        user_stack_id,
        stack: StackTrace { len, frames },
    })
}

/// One decoded symbol record from the shared symbol map.
pub struct RawSymbol {
    pub file: Vec<u8>,
    pub class: Vec<u8>,
    pub func: Vec<u8>,
    pub line: u32,
}

impl RawSymbol {
    pub open spec fn wf(self) -> bool {
        &&& self.file@.len() == FILE_NAME_LEN
        &&& self.class@.len() == CLASS_NAME_LEN
        &&& self.func@.len() == FUNCTION_NAME_LEN
    }
}

/// The file buffer of an encoded symbol.
pub open spec fn spec_symbol_file(d: Seq<u8>) -> Seq<u8> {
    d.subrange(0, FILE_NAME_LEN as int)
}

/// The class buffer of an encoded symbol.
pub open spec fn spec_symbol_class(d: Seq<u8>) -> Seq<u8> {
    d.subrange(FILE_NAME_LEN as int, FILE_NAME_LEN as int + CLASS_NAME_LEN as int)
}

/// The function buffer of an encoded symbol.
pub open spec fn spec_symbol_func(d: Seq<u8>) -> Seq<u8> {
    d.subrange(
        FILE_NAME_LEN as int + CLASS_NAME_LEN as int,
        FILE_NAME_LEN as int + CLASS_NAME_LEN as int + FUNCTION_NAME_LEN as int,
    )
}

/// The line field of an encoded symbol.
pub open spec fn spec_symbol_line(d: Seq<u8>) -> u32 {
    spec_u32_from_le_bytes(
        d.subrange(
            FILE_NAME_LEN as int + CLASS_NAME_LEN as int + FUNCTION_NAME_LEN as int,
            SYMBOL_SIZE as int,
        ),
    )
}

/// Decodes one symbol record.  Succeeds exactly when the buffer holds at
/// least one full record; extra trailing bytes are ignored.
pub fn decode_symbol(data: &Vec<u8>) -> (r: Option<RawSymbol>)
    ensures
        r is Some <==> data@.len() >= SYMBOL_SIZE,
        r is Some ==> {
            let s = r.unwrap();
            &&& s.wf()
            &&& s.file@ == spec_symbol_file(data@)
            &&& s.class@ == spec_symbol_class(data@)
            &&& s.func@ == spec_symbol_func(data@)
            &&& s.line == spec_symbol_line(data@)
        },
{
    if data.len() < SYMBOL_SIZE {
        return None;
    }
    let d = data.as_slice();
    let file = slice_to_vec(slice_subrange(d, 0, FILE_NAME_LEN));
    let class = slice_to_vec(slice_subrange(d, FILE_NAME_LEN, FILE_NAME_LEN + CLASS_NAME_LEN));
    let func = slice_to_vec(
        slice_subrange(
            d,
            FILE_NAME_LEN + CLASS_NAME_LEN,
            FILE_NAME_LEN + CLASS_NAME_LEN + FUNCTION_NAME_LEN,
        ),
    );
    let line = u32_from_le_bytes(
        slice_subrange(d, FILE_NAME_LEN + CLASS_NAME_LEN + FUNCTION_NAME_LEN, SYMBOL_SIZE),
    );
    Some(RawSymbol { file, class, func, line })
}

} // verus!
