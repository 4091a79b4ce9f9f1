//! The per-version offset record and its two external forms: the canonical
//! configuration text it is loaded from, and the byte image shared with the
//! kernel unwinder.
//!
//! An offset of `-1` means "not applicable to this version": the kernel
//! side must skip that dereference or take its alternative path.

use vstd::bytes::{spec_u32_to_le_bytes, spec_u64_to_le_bytes, u32_to_le_bytes, u64_to_le_bytes};
use vstd::prelude::*;

use crate::text::{spec_dec, u64_to_dec};

verus! {

/// A flat record of byte offsets into the interpreter structs of one Python
/// version, plus the version triple itself.  Field names follow the
/// interpreter member each offset points at, prefixed by its struct.
#[derive(Clone, Copy, Debug, PartialEq, Eq, Structural)]
pub struct VersionOffsets {
    pub major_version: u32,
    pub minor_version: u32,
    pub patch_version: u32,
    pub py_object_ob_type: i64,
    pub py_string_data: i64,
    pub py_string_size: i64,
    pub py_type_object_tp_name: i64,
    pub py_thread_state_interp: i64,
    pub py_thread_state_next: i64,
    pub py_thread_state_frame: i64,
    pub py_thread_state_thread_id: i64,
    pub py_thread_state_native_thread_id: i64,
    pub py_thread_state_cframe: i64,
    pub py_cframe_current_frame: i64,
    pub py_interpreter_state_tstate_head: i64,
    pub py_runtime_state_interp_main: i64,
    pub py_frame_object_f_back: i64,
    pub py_frame_object_f_code: i64,
    pub py_frame_object_f_lineno: i64,
    pub py_frame_object_f_localsplus: i64,
    pub py_code_object_co_filename: i64,
    pub py_code_object_co_name: i64,
    pub py_code_object_co_varnames: i64,
    pub py_code_object_co_firstlineno: i64,
    pub py_tuple_object_ob_item: i64,
}

/// Decimal rendering of a signed value (the sentinel `-1` renders with its
/// sign).
#[verifier::opaque]
pub open spec fn spec_i64_chars(v: int) -> Seq<char> {
    if v < 0 {
        seq!['-'] + spec_dec((-v) as nat)
    } else {
        spec_dec(v as nat)
    }
}

/// Renders a signed value in decimal.
pub fn i64_to_dec(v: i64) -> (s: String)
    ensures
        s@ == spec_i64_chars(v as int),
{
    proof {
        reveal_strlit("-");
        reveal(spec_i64_chars);
    }
    if v < 0 {
        // `-(v + 1) + 1` avoids the overflow of negating `i64::MIN`.
        let m: u64 = ((-(v + 1)) as u64) + 1;
        let mut s = "-".to_owned();
        s.append(u64_to_dec(m).as_str());
        proof {
            assert(m == -(v as int));
            assert(s@ =~= spec_i64_chars(v as int));
        }
        s
    } else {
        u64_to_dec(v as u64)
    }
}

/// A top-level configuration line: `name: value` and a newline.
pub open spec fn spec_top_line(name: Seq<char>, v: int) -> Seq<char> {
    name + seq![':', ' '] + spec_i64_chars(v) + seq!['\n']
}

/// A section header line: `name:` and a newline.
pub open spec fn spec_section_line(name: Seq<char>) -> Seq<char> {
    name + seq![':', '\n']
}

/// An indented field line: two spaces, `name: value` and a newline.
pub open spec fn spec_field_line(name: Seq<char>, v: int) -> Seq<char> {
    seq![' ', ' '] + name + seq![':', ' '] + spec_i64_chars(v) + seq!['\n']
}

/// The canonical configuration text of one offsets record: the version
/// triple, then one section per interpreter struct.
pub open spec fn spec_render_config(o: VersionOffsets) -> Seq<char> {
    spec_top_line("major_version"@, o.major_version as int) + spec_top_line(
        "minor_version"@,
        o.minor_version as int,
    ) + spec_top_line("patch_version"@, o.patch_version as int) + spec_section_line("py_object"@)
        + spec_field_line("ob_type"@, o.py_object_ob_type as int) + spec_section_line("py_string"@)
        + spec_field_line("data"@, o.py_string_data as int) + spec_field_line(
        "size"@,
        o.py_string_size as int,
    ) + spec_section_line("py_type_object"@) + spec_field_line(
        "tp_name"@,
        o.py_type_object_tp_name as int,
    ) + spec_section_line("py_thread_state"@) + spec_field_line(
        "interp"@,
        o.py_thread_state_interp as int,
    ) + spec_field_line("next"@, o.py_thread_state_next as int) + spec_field_line(
        "frame"@,
        o.py_thread_state_frame as int,
    ) + spec_field_line("thread_id"@, o.py_thread_state_thread_id as int) + spec_field_line(
        "native_thread_id"@,
        o.py_thread_state_native_thread_id as int,
    ) + spec_field_line("cframe"@, o.py_thread_state_cframe as int) + spec_section_line(
        "py_cframe"@,
    ) + spec_field_line("current_frame"@, o.py_cframe_current_frame as int) + spec_section_line(
        "py_interpreter_state"@,
    ) + spec_field_line("tstate_head"@, o.py_interpreter_state_tstate_head as int)
        + spec_section_line("py_runtime_state"@) + spec_field_line(
        "interp_main"@,
        o.py_runtime_state_interp_main as int,
    ) + spec_section_line("py_frame_object"@) + spec_field_line(
        "f_back"@,
        o.py_frame_object_f_back as int,
    ) + spec_field_line("f_code"@, o.py_frame_object_f_code as int) + spec_field_line(
        "f_lineno"@,
        o.py_frame_object_f_lineno as int,
    ) + spec_field_line("f_localsplus"@, o.py_frame_object_f_localsplus as int)
        + spec_section_line("py_code_object"@) + spec_field_line(
        "co_filename"@,
        o.py_code_object_co_filename as int,
    ) + spec_field_line("co_name"@, o.py_code_object_co_name as int) + spec_field_line(
        "co_varnames"@,
        o.py_code_object_co_varnames as int,
    ) + spec_field_line("co_firstlineno"@, o.py_code_object_co_firstlineno as int)
        + spec_section_line("py_tuple_object"@) + spec_field_line(
        "ob_item"@,
        o.py_tuple_object_ob_item as int,
    )
}

fn push_top_line(s: &mut String, name: &str, v: i64)
    ensures
        final(s)@ == old(s)@ + spec_top_line(name@, v as int),
{
    proof {
        reveal_strlit(": ");
        reveal_strlit("\n");
    }
    s.append(name);
    s.append(": ");
    s.append(i64_to_dec(v).as_str());
    s.append("\n");
    proof {
        assert(s@ =~= old(s)@ + spec_top_line(name@, v as int));
    }
}

fn push_section_line(s: &mut String, name: &str)
    ensures
        final(s)@ == old(s)@ + spec_section_line(name@),
{
    proof {
        reveal_strlit(":\n");
    }
    s.append(name);
    s.append(":\n");
    proof {
        assert(s@ =~= old(s)@ + spec_section_line(name@));
    }
}

fn push_field_line(s: &mut String, name: &str, v: i64)
    ensures
        final(s)@ == old(s)@ + spec_field_line(name@, v as int),
{
    proof {
        reveal_strlit("  ");
        reveal_strlit(": ");
        reveal_strlit("\n");
    }
    s.append("  ");
    s.append(name);
    s.append(": ");
    s.append(i64_to_dec(v).as_str());
    s.append("\n");
    proof {
        assert(s@ =~= old(s)@ + spec_field_line(name@, v as int));
    }
}

/// Renders the canonical configuration text of one offsets record.
pub fn render_config(o: &VersionOffsets) -> (s: String)
    ensures
        s@ == spec_render_config(*o),
{
    let mut s = String::new();
    push_top_line(&mut s, "major_version", o.major_version as i64);
    push_top_line(&mut s, "minor_version", o.minor_version as i64);
    push_top_line(&mut s, "patch_version", o.patch_version as i64);
    push_section_line(&mut s, "py_object");
    push_field_line(&mut s, "ob_type", o.py_object_ob_type);
    push_section_line(&mut s, "py_string");
    push_field_line(&mut s, "data", o.py_string_data);
    push_field_line(&mut s, "size", o.py_string_size);
    push_section_line(&mut s, "py_type_object");
    push_field_line(&mut s, "tp_name", o.py_type_object_tp_name);
    push_section_line(&mut s, "py_thread_state");
    push_field_line(&mut s, "interp", o.py_thread_state_interp);
    push_field_line(&mut s, "next", o.py_thread_state_next);
    push_field_line(&mut s, "frame", o.py_thread_state_frame);
    push_field_line(&mut s, "thread_id", o.py_thread_state_thread_id);
    push_field_line(&mut s, "native_thread_id", o.py_thread_state_native_thread_id);
    push_field_line(&mut s, "cframe", o.py_thread_state_cframe);
    push_section_line(&mut s, "py_cframe");
    push_field_line(&mut s, "current_frame", o.py_cframe_current_frame);
    push_section_line(&mut s, "py_interpreter_state");
    push_field_line(&mut s, "tstate_head", o.py_interpreter_state_tstate_head);
    push_section_line(&mut s, "py_runtime_state");
    push_field_line(&mut s, "interp_main", o.py_runtime_state_interp_main);
    push_section_line(&mut s, "py_frame_object");
    push_field_line(&mut s, "f_back", o.py_frame_object_f_back);
    push_field_line(&mut s, "f_code", o.py_frame_object_f_code);
    push_field_line(&mut s, "f_lineno", o.py_frame_object_f_lineno);
    push_field_line(&mut s, "f_localsplus", o.py_frame_object_f_localsplus);
    push_section_line(&mut s, "py_code_object");
    push_field_line(&mut s, "co_filename", o.py_code_object_co_filename);
    push_field_line(&mut s, "co_name", o.py_code_object_co_name);
    push_field_line(&mut s, "co_varnames", o.py_code_object_co_varnames);
    push_field_line(&mut s, "co_firstlineno", o.py_code_object_co_firstlineno);
    push_section_line(&mut s, "py_tuple_object");
    push_field_line(&mut s, "ob_item", o.py_tuple_object_ob_item);
    proof {
        assert(s@ =~= spec_render_config(*o));
    }
    s
}

/// The little-endian byte image of a signed offset field.
pub open spec fn spec_i64_bytes(v: i64) -> Seq<u8> {
    spec_u64_to_le_bytes(v as u64)
}

/// The byte image of one offsets record as written into the kernel map:
/// the three version words, four bytes of alignment padding, then each
/// offset in declaration order, all little-endian.
pub open spec fn spec_offsets_bytes(o: VersionOffsets) -> Seq<u8> {
    spec_u32_to_le_bytes(o.major_version) + spec_u32_to_le_bytes(o.minor_version)
        + spec_u32_to_le_bytes(o.patch_version) + seq![0u8, 0u8, 0u8, 0u8] + spec_i64_bytes(
        o.py_object_ob_type,
    ) + spec_i64_bytes(o.py_string_data) + spec_i64_bytes(o.py_string_size) + spec_i64_bytes(
        o.py_type_object_tp_name,
    ) + spec_i64_bytes(o.py_thread_state_interp) + spec_i64_bytes(o.py_thread_state_next)
        + spec_i64_bytes(o.py_thread_state_frame) + spec_i64_bytes(o.py_thread_state_thread_id)
        + spec_i64_bytes(o.py_thread_state_native_thread_id) + spec_i64_bytes(
        o.py_thread_state_cframe,
    ) + spec_i64_bytes(o.py_cframe_current_frame) + spec_i64_bytes(
        o.py_interpreter_state_tstate_head,
    ) + spec_i64_bytes(o.py_runtime_state_interp_main) + spec_i64_bytes(o.py_frame_object_f_back)
        + spec_i64_bytes(o.py_frame_object_f_code) + spec_i64_bytes(o.py_frame_object_f_lineno)
        + spec_i64_bytes(o.py_frame_object_f_localsplus) + spec_i64_bytes(
        o.py_code_object_co_filename,
    ) + spec_i64_bytes(o.py_code_object_co_name) + spec_i64_bytes(o.py_code_object_co_varnames)
        + spec_i64_bytes(o.py_code_object_co_firstlineno) + spec_i64_bytes(
        o.py_tuple_object_ob_item,
    )
}

fn push_u32(out: &mut Vec<u8>, v: u32)
    ensures
        final(out)@ == old(out)@ + spec_u32_to_le_bytes(v),
{
    let mut b = u32_to_le_bytes(v);
    out.append(&mut b);
}

fn push_i64(out: &mut Vec<u8>, v: i64)
    ensures
        final(out)@ == old(out)@ + spec_i64_bytes(v),
{
    let mut b = u64_to_le_bytes(v as u64);
    out.append(&mut b);
}

/// Encodes one offsets record for the kernel map.
pub fn offsets_to_bytes(o: &VersionOffsets) -> (out: Vec<u8>)
    ensures
        out@ == spec_offsets_bytes(*o),
{
    let mut out: Vec<u8> = Vec::new();
    push_u32(&mut out, o.major_version);
    push_u32(&mut out, o.minor_version);
    push_u32(&mut out, o.patch_version);
    out.push(0u8);
    out.push(0u8);
    out.push(0u8);
    out.push(0u8);
    push_i64(&mut out, o.py_object_ob_type);
    push_i64(&mut out, o.py_string_data);
    push_i64(&mut out, o.py_string_size);
    push_i64(&mut out, o.py_type_object_tp_name);
    push_i64(&mut out, o.py_thread_state_interp);
    push_i64(&mut out, o.py_thread_state_next);
    push_i64(&mut out, o.py_thread_state_frame);
    push_i64(&mut out, o.py_thread_state_thread_id);
    push_i64(&mut out, o.py_thread_state_native_thread_id);
    push_i64(&mut out, o.py_thread_state_cframe);
    push_i64(&mut out, o.py_cframe_current_frame);
    push_i64(&mut out, o.py_interpreter_state_tstate_head);
    push_i64(&mut out, o.py_runtime_state_interp_main);
    push_i64(&mut out, o.py_frame_object_f_back);
    push_i64(&mut out, o.py_frame_object_f_code);
    push_i64(&mut out, o.py_frame_object_f_lineno);
    push_i64(&mut out, o.py_frame_object_f_localsplus);
    push_i64(&mut out, o.py_code_object_co_filename);
    push_i64(&mut out, o.py_code_object_co_name);
    push_i64(&mut out, o.py_code_object_co_varnames);
    push_i64(&mut out, o.py_code_object_co_firstlineno);
    push_i64(&mut out, o.py_tuple_object_ob_item);
    proof {
        assert(out@ =~= spec_offsets_bytes(*o));
    }
    out
}

} // verus!
