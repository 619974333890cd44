//! Loader bootstrap: drives the scan/decode/indirect pipeline to recover
//! the entry addresses of the foundational symbol-resolution routines,
//! keeps the recovered handles and addresses, and plans the calls made
//! through them. A zero address is the "not resolved" sentinel; no call
//! is ever planned against it.

use vstd::prelude::*;
use vstd::string::StrSliceExecFns;
use vstd::string::StringSliceAdditionalSpecFns;
use crate::scanner::first_match;
use crate::scanner::find_needle;
use crate::decoder::spec_absolute_target;
use crate::decoder::decode_displacement;
use crate::slot::le64_at;
use crate::slot::read_slot;

verus! {

/// Byte distance from the end of the anchor to the displacement field of
/// the call into the proc-address-lookup routine.
pub const PROC_ADDRESS_FIELD_DISTANCE: usize = 30;

/// Byte distance from the end of the anchor to the displacement field of
/// the call into the module-handle-lookup routine.
pub const MODULE_HANDLE_FIELD_DISTANCE: usize = 9;

/// The machine-code anchor that sits near the bootstrap call sites of
/// both foundational lookup routines in the targeted binary. Derived by
/// offline disassembly; it must be re-derived whenever the build changes.
pub open spec fn stub_pattern() -> Seq<u8> {
    seq![0x48u8, 0x8d, 0x6c, 0x24, 0x20, 0x48, 0x89, 0xd6, 0x48, 0x89, 0xcf]
}

/// The anchor bytes as a runtime value.
pub fn stub_pattern_bytes() -> (v: Vec<u8>)
    ensures
        v@ == stub_pattern(),
{
    let mut v: Vec<u8> = Vec::new();
    v.push(0x48);
    v.push(0x8d);
    v.push(0x6c);
    v.push(0x24);
    v.push(0x20);
    v.push(0x48);
    v.push(0x89);
    v.push(0xd6);
    v.push(0x48);
    v.push(0x89);
    v.push(0xcf);
    proof {
        assert(v@ =~= stub_pattern());
    }
    v
}

/// The bytes of `s` with a terminating NUL, as handed to the loader
/// routines.
pub open spec fn c_string_bytes(s: &str) -> Seq<u8> {
    s.spec_bytes().push(0u8)
}

/// Builds the NUL-terminated byte form of a name.
pub fn make_c_str(seq: &str) -> (r: Vec<u8>)
    ensures
        r@ == c_string_bytes(seq),
{
    let mut b = seq.as_bytes_vec();
    b.push(0u8);
    b
}

/// Address recovered from a match of the anchor at offset `k`: the
/// 4-byte displacement field sits `off` bytes past the end of the
/// needle, its decoded target must name a pointer-sized slot inside the
/// region, and the slot's contents are the recovered address. Any step
/// that leaves the region yields the zero sentinel.
pub open spec fn resolved_from_match(
    mem: Seq<u8>,
    base: int,
    needle_len: int,
    off: int,
    k: int,
) -> int {
    let f = k + needle_len + off;
    if f + 4 > mem.len() {
        0
    } else {
        let t = spec_absolute_target(mem, base, f);
        if t < base || t - base + 8 > mem.len() {
            0
        } else {
            le64_at(mem, t - base)
        }
    }
}

/// What the whole pipeline recovers for a needle and field distance over
/// a region based at `base`: the contents of the table slot the leftmost
/// anchor match leads to, or the zero sentinel when the anchor is absent
/// or any step leaves the region.
pub open spec fn spec_resolve(mem: Seq<u8>, base: int, needle: Seq<u8>, off: int) -> int {
    match first_match(mem, needle) {
        None => 0,
        Some(k) => resolved_from_match(mem, base, needle.len() as int, off, k),
    }
}

/// Law: when the anchor occurs nowhere in the region, the pipeline
/// yields the zero sentinel, whatever the base and field distance.
pub proof fn lemma_sentinel_propagation(mem: Seq<u8>, base: int, needle: Seq<u8>, off: int)
    requires
        forall|k: int| !crate::scanner::matches_at(mem, needle, k),
    ensures
        spec_resolve(mem, base, needle, off) == 0,
{
    crate::scanner::lemma_scan_miss(mem, needle);
}

/// Law: success is owed whenever the anchor's leftmost match leads to a
/// displacement field and a table slot that both lie inside the region:
/// the pipeline then recovers exactly the slot's contents, not the
/// sentinel and not any other value.
pub proof fn lemma_resolution_success(mem: Seq<u8>, base: int, needle: Seq<u8>, off: int, k: int)
    requires
        crate::scanner::matches_at(mem, needle, k),
        forall|j: int| 0 <= j < k ==> !crate::scanner::matches_at(mem, needle, j),
        k + needle.len() + off + 4 <= mem.len(),
        base <= spec_absolute_target(mem, base, k + needle.len() + off),
        spec_absolute_target(mem, base, k + needle.len() + off) - base + 8 <= mem.len(),
        off >= 0,
    ensures
        spec_resolve(mem, base, needle, off) == le64_at(
            mem,
            spec_absolute_target(mem, base, k + needle.len() + off) - base,
        ),
{
    crate::scanner::lemma_scan_finds_leftmost(mem, needle, k);
}

/// Recovers a routine's entry address from the region: scans for the
/// leftmost anchor match, decodes the relative displacement `off` bytes
/// past it, and reads the pointer-sized table slot the target names.
/// Returns the zero sentinel when the anchor is absent or a step leaves
/// the region.
pub fn resolve_fnaddr_from_iat(
    mem: &[u8],
    base: u64,
    needle: &[u8],
    offset_from_needle: usize,
) -> (r: u64)
    requires
        needle@.len() >= 1,
    ensures
        r as int == spec_resolve(mem@, base as int, needle@, offset_from_needle as int),
{
    match find_needle(mem, needle) {
        None => 0,
        Some(position) => {
            let m = mem.len();
            let f_wide: u128 = position as u128 + needle.len() as u128
                + offset_from_needle as u128;
            if f_wide + 4 > m as u128 {
                return 0;
            }
            let f = f_wide as usize;
            let d = decode_displacement(mem, f);
            let t_wide: i128 = base as i128 + f as i128 + 4 + d as i128;
            if t_wide < base as i128 {
                return 0;
            }
            let idx_wide: i128 = t_wide - base as i128;
            if idx_wide + 8 > m as i128 {
                return 0;
            }
            let idx = idx_wide as usize;
            read_slot(mem, idx)
        },
    }
}

/// Loader-bootstrap state: the handles and entry addresses recovered so
/// far. Zero in any field means "not resolved", and no call is planned
/// through a zero address.
pub struct SafeWinapi {
    pub h_thismodule: u64,
    pub h_kernel32: u64,
    pub p_get_module_handle_a: u64,
    pub p_get_proc_address: u64,
    pub p_load_library_a: u64,
}

impl SafeWinapi {
    /// Fresh state with every handle and entry address unresolved.
    pub fn new() -> (w: SafeWinapi)
        ensures
            w.h_thismodule == 0,
            w.h_kernel32 == 0,
            w.p_get_module_handle_a == 0,
            w.p_get_proc_address == 0,
            w.p_load_library_a == 0,
    {
        SafeWinapi {
            h_thismodule: 0,
            h_kernel32: 0,
            p_get_module_handle_a: 0,
            p_get_proc_address: 0,
            p_load_library_a: 0,
        }
    }

    /// Scans the code region for the two anchors and records the entry
    /// addresses of the proc-address-lookup and module-handle-lookup
    /// routines; an unresolved anchor leaves the zero sentinel.
    pub fn locate_core_routines(&mut self, mem: &[u8], base: u64)
        ensures
            final(self).p_get_proc_address as int == spec_resolve(
                mem@,
                base as int,
                stub_pattern(),
                PROC_ADDRESS_FIELD_DISTANCE as int,
            ),
            final(self).p_get_module_handle_a as int == spec_resolve(
                mem@,
                base as int,
                stub_pattern(),
                MODULE_HANDLE_FIELD_DISTANCE as int,
            ),
            final(self).h_thismodule == old(self).h_thismodule,
            final(self).h_kernel32 == old(self).h_kernel32,
            final(self).p_load_library_a == old(self).p_load_library_a,
    {
        let stub = stub_pattern_bytes();
        self.p_get_proc_address = resolve_fnaddr_from_iat(
            mem,
            base,
            stub.as_slice(),
            PROC_ADDRESS_FIELD_DISTANCE,
        );
        self.p_get_module_handle_a = resolve_fnaddr_from_iat(
            mem,
            base,
            stub.as_slice(),
            MODULE_HANDLE_FIELD_DISTANCE,
        );
    }

    /// Records the module handle the module-handle-lookup routine
    /// returned for a null argument: this process's own module.
    pub fn record_this_module(&mut self, h: u64)
        ensures
            final(self).h_thismodule == h,
            final(self).h_kernel32 == old(self).h_kernel32,
            final(self).p_get_module_handle_a == old(self).p_get_module_handle_a,
            final(self).p_get_proc_address == old(self).p_get_proc_address,
            final(self).p_load_library_a == old(self).p_load_library_a,
    {
        self.h_thismodule = h;
    }

    /// Records the handle of the core library, whether from the first
    /// lookup or from the later full load.
    pub fn record_kernel32(&mut self, h: u64)
        ensures
            final(self).h_kernel32 == h,
            final(self).h_thismodule == old(self).h_thismodule,
            final(self).p_get_module_handle_a == old(self).p_get_module_handle_a,
            final(self).p_get_proc_address == old(self).p_get_proc_address,
            final(self).p_load_library_a == old(self).p_load_library_a,
    {
        self.h_kernel32 = h;
    }

    /// Records the entry address of the library-loading routine.
    pub fn record_loader(&mut self, p: u64)
        ensures
            final(self).p_load_library_a == p,
            final(self).h_thismodule == old(self).h_thismodule,
            final(self).h_kernel32 == old(self).h_kernel32,
            final(self).p_get_module_handle_a == old(self).p_get_module_handle_a,
            final(self).p_get_proc_address == old(self).p_get_proc_address,
    {
        self.p_load_library_a = p;
    }

    /// Plans the module-handle lookup for a library name: the entry
    /// address to call and the NUL-terminated name to hand it. Refused
    /// when that routine is unresolved.
    pub fn get_module_handle_call(&self, name: &str) -> (r: Option<(u64, Vec<u8>)>)
        ensures
            r is None <==> self.p_get_module_handle_a == 0,
            r matches Some(c) ==> c.0 == self.p_get_module_handle_a && c.1@ == c_string_bytes(
                name,
            ),
    {
        if self.p_get_module_handle_a == 0 {
            None
        } else {
            Some((self.p_get_module_handle_a, make_c_str(name)))
        }
    }

    /// Plans the lookup of a routine by name in a module's export table:
    /// the entry address to call, the module handle to pass, and the
    /// NUL-terminated name. Refused when the lookup routine is
    /// unresolved.
    pub fn get_proc_address_call(&self, hmodule: u64, name: &str) -> (r: Option<
        (u64, u64, Vec<u8>),
    >)
        ensures
            r is None <==> self.p_get_proc_address == 0,
            r matches Some(c) ==> c.0 == self.p_get_proc_address && c.1 == hmodule && c.2@
                == c_string_bytes(name),
    {
        if self.p_get_proc_address == 0 {
            None
        } else {
            Some((self.p_get_proc_address, hmodule, make_c_str(name)))
        }
    }

    /// Plans the full load of a library by name: the entry address of
    /// the library-loading routine and the NUL-terminated name. Refused
    /// when that routine is unresolved.
    pub fn load_library_call(&self, name: &str) -> (r: Option<(u64, Vec<u8>)>)
        ensures
            r is None <==> self.p_load_library_a == 0,
            r matches Some(c) ==> c.0 == self.p_load_library_a && c.1@ == c_string_bytes(name),
    {
        if self.p_load_library_a == 0 {
            None
        } else {
            Some((self.p_load_library_a, make_c_str(name)))
        }
    }
}

} // verus!
