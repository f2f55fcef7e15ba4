//! The decisions of the Windows backend: which page protection and view
//! access a mapping is created with, how its offset and length are handed to
//! `MapViewOfFile`, and how its protection is changed in place.
use vstd::prelude::*;
use crate::error::MmapError;
use crate::inner::{MmapInner, Region};
use crate::layout::place;
use crate::protection::Protection;

verus! {

/// The Windows flag values that the mapping calls take.
#[derive(Clone, Copy, Debug, PartialEq, Eq, Hash, Structural)]
pub struct WinFlags {
    pub page_noaccess: u32,
    pub page_readonly: u32,
    pub page_readwrite: u32,
    pub page_writecopy: u32,
    pub page_execute_read: u32,
    pub page_execute_readwrite: u32,
    pub page_execute_writecopy: u32,
    pub file_map_read: u32,
    pub file_map_write: u32,
    pub file_map_copy: u32,
    pub file_map_execute: u32,
    pub file_map_all_access: u32,
}

/// How a view of a file is created: the page protection of the file mapping
/// object, the access of the view, and the protection that the view is
/// changed to right after it is mapped, if any.
#[derive(Clone, Copy, Debug, PartialEq, Eq, Hash, Structural)]
pub struct ViewPlan {
    pub protect: u32,
    pub access: u32,
    /// The view is copy-on-write.
    pub copy: bool,
    /// `VirtualProtect` flag to apply once the view is mapped.
    pub reprotect: Option<u32>,
    /// The protection the mapping has once created.
    pub protection: Protection,
}

/// The page protection that gives protection `p` to a view, copy-on-write
/// or not.
pub open spec fn page_flag(f: WinFlags, copy: bool, p: Protection) -> u32 {
    match p {
        Protection::Read => f.page_readonly,
        Protection::ReadExecute => if copy {
            f.page_execute_writecopy
        } else {
            f.page_execute_read
        },
        Protection::ReadWrite | Protection::ReadCopy => if copy {
            f.page_writecopy
        } else {
            f.page_readwrite
        },
        Protection::NoAccess => f.page_noaccess,
    }
}

/// Returns the page protection that gives protection `p` to a view,
/// copy-on-write or not (`make_read_only`, `make_exec`, `make_mut`).
pub fn page_protection(f: &WinFlags, copy: bool, p: Protection) -> (r: u32)
    ensures
        r == page_flag(*f, copy, p),
{
    match p {
        Protection::Read => f.page_readonly,
        Protection::ReadExecute => if copy {
            f.page_execute_writecopy
        } else {
            f.page_execute_read
        },
        Protection::ReadWrite | Protection::ReadCopy => if copy {
            f.page_writecopy
        } else {
            f.page_readwrite
        },
        Protection::NoAccess => f.page_noaccess,
    }
}

/// The plan of a read-only view. The file mapping object is created with the
/// widest protection that the file supports (`write`, `exec`: what probing
/// found), so that the view can be made writable or executable later; the
/// view is then made read-only.
pub open spec fn read_plan(f: WinFlags, write: bool, exec: bool) -> ViewPlan {
    ViewPlan {
        protect: if write && exec {
            f.page_execute_readwrite
        } else if write {
            f.page_readwrite
        } else if exec {
            f.page_execute_read
        } else {
            f.page_readonly
        },
        access: f.file_map_read | (if write {
            f.file_map_write
        } else {
            0u32
        }) | (if exec {
            f.file_map_execute
        } else {
            0u32
        }),
        copy: false,
        reprotect: if write || exec {
            Some(f.page_readonly)
        } else {
            Option::None
        },
        protection: Protection::Read,
    }
}

/// Plans a read-only view.
pub fn map(f: &WinFlags, write: bool, exec: bool) -> (r: ViewPlan)
    ensures
        r == read_plan(*f, write, exec),
{
    let write_bit = if write {
        f.file_map_write
    } else {
        0u32
    };
    let exec_bit = if exec {
        f.file_map_execute
    } else {
        0u32
    };
    let access = f.file_map_read | write_bit | exec_bit;
    let protect = if write && exec {
        f.page_execute_readwrite
    } else if write {
        f.page_readwrite
    } else if exec {
        f.page_execute_read
    } else {
        f.page_readonly
    };
    let reprotect = if write || exec {
        Some(page_protection(f, false, Protection::Read))
    } else {
        Option::None
    };
    ViewPlan { protect, access, copy: false, reprotect, protection: Protection::Read }
}

/// The plan of an executable view; it is created writable when the file
/// supports it (`write`), then made executable.
pub open spec fn exec_plan(f: WinFlags, write: bool) -> ViewPlan {
    ViewPlan {
        protect: if write {
            f.page_execute_readwrite
        } else {
            f.page_execute_read
        },
        access: f.file_map_read | f.file_map_execute | (if write {
            f.file_map_write
        } else {
            0u32
        }),
        copy: false,
        reprotect: if write {
            Some(f.page_execute_read)
        } else {
            Option::None
        },
        protection: Protection::ReadExecute,
    }
}

/// Plans an executable view.
pub fn map_exec(f: &WinFlags, write: bool) -> (r: ViewPlan)
    ensures
        r == exec_plan(*f, write),
{
    let write_bit = if write {
        f.file_map_write
    } else {
        0u32
    };
    ViewPlan {
        protect: if write {
            f.page_execute_readwrite
        } else {
            f.page_execute_read
        },
        access: f.file_map_read | f.file_map_execute | write_bit,
        copy: false,
        reprotect: if write {
            Some(page_protection(f, false, Protection::ReadExecute))
        } else {
            Option::None
        },
        protection: Protection::ReadExecute,
    }
}

/// The plan of a writable view; it is created executable too when the file
/// supports it (`exec`), then made writable only.
pub open spec fn mut_plan(f: WinFlags, exec: bool) -> ViewPlan {
    ViewPlan {
        protect: if exec {
            f.page_execute_readwrite
        } else {
            f.page_readwrite
        },
        access: f.file_map_read | f.file_map_write | (if exec {
            f.file_map_execute
        } else {
            0u32
        }),
        copy: false,
        reprotect: if exec {
            Some(f.page_readwrite)
        } else {
            Option::None
        },
        protection: Protection::ReadWrite,
    }
}

/// Plans a writable view.
pub fn map_mut(f: &WinFlags, exec: bool) -> (r: ViewPlan)
    ensures
        r == mut_plan(*f, exec),
{
    let exec_bit = if exec {
        f.file_map_execute
    } else {
        0u32
    };
    ViewPlan {
        protect: if exec {
            f.page_execute_readwrite
        } else {
            f.page_readwrite
        },
        access: f.file_map_read | f.file_map_write | exec_bit,
        copy: false,
        reprotect: if exec {
            Some(page_protection(f, false, Protection::ReadWrite))
        } else {
            Option::None
        },
        protection: Protection::ReadWrite,
    }
}

/// The plan of a copy-on-write view; it is created executable too when the
/// file supports it (`exec`), then made copy-on-write only.
pub open spec fn copy_plan(f: WinFlags, exec: bool) -> ViewPlan {
    ViewPlan {
        protect: if exec {
            f.page_execute_writecopy
        } else {
            f.page_writecopy
        },
        access: f.file_map_copy | (if exec {
            f.file_map_execute
        } else {
            0u32
        }),
        copy: true,
        reprotect: if exec {
            Some(f.page_writecopy)
        } else {
            Option::None
        },
        protection: Protection::ReadCopy,
    }
}

/// Plans a copy-on-write view.
pub fn map_copy(f: &WinFlags, exec: bool) -> (r: ViewPlan)
    ensures
        r == copy_plan(*f, exec),
{
    let exec_bit = if exec {
        f.file_map_execute
    } else {
        0u32
    };
    ViewPlan {
        protect: if exec {
            f.page_execute_writecopy
        } else {
            f.page_writecopy
        },
        access: f.file_map_copy | exec_bit,
        copy: true,
        reprotect: if exec {
            Some(page_protection(f, true, Protection::ReadCopy))
        } else {
            Option::None
        },
        protection: Protection::ReadCopy,
    }
}

/// A planned pair of calls: `CreateFileMappingW` with `protect` and the
/// size halves, then `MapViewOfFile` with `access`, the offset halves and
/// `len`; then `VirtualProtect` with `then`, if any.
#[derive(Clone, Copy, Debug, PartialEq, Eq, Hash, Structural)]
pub struct ViewCall {
    pub protect: u32,
    pub access: u32,
    /// High and low halves of the maximum size of the mapping object (zero
    /// for a file: the file's size).
    pub size_high: u32,
    pub size_low: u32,
    /// High and low halves of the file offset of the view.
    pub offset_high: u32,
    pub offset_low: u32,
    /// Length of the view.
    pub len: usize,
    pub reprotect: Option<u32>,
    /// The view maps the caller's file (else the paging file).
    pub file_backed: bool,
    /// How far the requested start lies past the start of the view.
    pub alignment: usize,
    pub copy: bool,
    pub protection: Protection,
}

/// Whether `hi` and `lo` are the high and low 32-bit halves of `v`.
pub open spec fn halves(hi: u32, lo: u32, v: int) -> bool {
    hi * 0x1_0000_0000 + lo == v
}

/// Splits a value into its high and low 32-bit halves.
fn split_halves(v: usize) -> (r: (u32, u32))
    ensures
        halves(r.0, r.1, v as int),
{
    let w = v as u64;
    let hi = (w >> 32u64) as u32;
    let lo = (w & 0xffff_ffffu64) as u32;
    assert(((w >> 32u64) as u32) * 0x1_0000_0000u64 + ((w & 0xffff_ffffu64) as u32) == w) by (bit_vector);
    (hi, lo)
}

/// Plans the view of bytes `[offset, offset + len)` of a file, with the view
/// starting at the allocation granularity at or before `offset`. A length
/// of zero gives `ZeroLengthMapping`; a widened length that does not fit
/// gives `Overflow`; no call is made in either case.
pub fn new(plan: ViewPlan, offset: usize, len: usize, granularity: usize) -> (r: Result<ViewCall, MmapError>)
    requires
        granularity > 0,
    ensures
        len == 0 ==> r == Err::<ViewCall, MmapError>(MmapError::ZeroLengthMapping),
        len > 0 && len + offset % granularity > usize::MAX ==> r == Err::<ViewCall, MmapError>(
            MmapError::Overflow,
        ),
        len > 0 && len + offset % granularity <= usize::MAX ==> (r matches Ok(c) && {
            &&& c.protect == plan.protect && c.access == plan.access && c.reprotect == plan.reprotect
            &&& c.copy == plan.copy && c.protection == plan.protection && c.file_backed
            &&& c.size_high == 0 && c.size_low == 0
            &&& c.alignment == offset % granularity
            &&& halves(c.offset_high, c.offset_low, offset - offset % granularity)
            &&& c.len == len + offset % granularity
        }),
{
    if len == 0 {
        return Err(MmapError::ZeroLengthMapping);
    }
    let placed = match place(offset, len, granularity) {
        Some(p) => p,
        Option::None => {
            return Err(MmapError::Overflow);
        },
    };
    let (offset_high, offset_low) = split_halves(placed.aligned_start);
    Ok(
        ViewCall {
            protect: plan.protect,
            access: plan.access,
            size_high: 0,
            size_low: 0,
            offset_high,
            offset_low,
            len: placed.aligned_len,
            reprotect: plan.reprotect,
            file_backed: true,
            alignment: placed.alignment,
            copy: plan.copy,
            protection: plan.protection,
        },
    )
}

/// Plans an anonymous view of `len` bytes. The mapping object and the view
/// are created with every access, so that any protection can be set later,
/// then the view is made read-write. A length of zero gives
/// `ZeroLengthMapping`, and no call is made.
pub fn map_anon(f: &WinFlags, len: usize) -> (r: Result<ViewCall, MmapError>)
    ensures
        len == 0 ==> r == Err::<ViewCall, MmapError>(MmapError::ZeroLengthMapping),
        len > 0 ==> (r matches Ok(c) && {
            &&& c.protect == f.page_execute_readwrite
            &&& c.access == f.file_map_all_access | f.file_map_execute
            &&& halves(c.size_high, c.size_low, len as int)
            &&& c.offset_high == 0 && c.offset_low == 0
            &&& c.len == len && c.alignment == 0
            &&& c.reprotect == Some(f.page_readwrite)
            &&& !c.copy && !c.file_backed && c.protection == Protection::ReadWrite
        }),
{
    if len == 0 {
        return Err(MmapError::ZeroLengthMapping);
    }
    let (size_high, size_low) = split_halves(len);
    Ok(
        ViewCall {
            protect: f.page_execute_readwrite,
            access: f.file_map_all_access | f.file_map_execute,
            size_high,
            size_low,
            offset_high: 0,
            offset_low: 0,
            len,
            reprotect: Some(page_protection(f, false, Protection::ReadWrite)),
            file_backed: false,
            alignment: 0,
            copy: false,
            protection: Protection::ReadWrite,
        },
    )
}

/// The region that a view call establishes at address `a`.
pub open spec fn view_region(c: ViewCall, a: usize) -> Region {
    Region {
        base: a,
        alignment: c.alignment,
        len: (c.len - c.alignment) as usize,
        protection: c.protection,
        private: c.copy,
        file_backed: c.file_backed,
    }
}

impl ViewCall {
    /// Takes the outcome of the calls: the address of the view, or the OS
    /// error code. The view lies inside the address space.
    pub fn establish(self, outcome: Result<usize, i32>) -> (r: Result<MmapInner, MmapError>)
        requires
            self.alignment < self.len,
            outcome matches Ok(a) ==> a + self.len <= usize::MAX,
        ensures
            outcome matches Err(e) ==> r == Err::<MmapInner, MmapError>(MmapError::OsMappingFailed(e)),
            outcome matches Ok(a) ==> r matches Ok(m) && m@ == view_region(self, a),
    {
        match outcome {
            Err(e) => Err(MmapError::OsMappingFailed(e)),
            Ok(a) => Ok(
                MmapInner::from_region(
                    Region {
                        base: a,
                        alignment: self.alignment,
                        len: self.len - self.alignment,
                        protection: self.protection,
                        private: self.copy,
                        file_backed: self.file_backed,
                    },
                ),
            ),
        }
    }
}

/// A planned `FlushViewOfFile` call, followed by a sync of the file's data
/// when `sync_file`: the view flush alone only reaches the cache.
#[derive(Clone, Copy, Debug, PartialEq, Eq, Hash, Structural)]
pub struct WinFlushCall {
    pub addr: usize,
    pub len: usize,
    pub sync_file: bool,
}

/// Plans the flush of bytes `[offset, offset + len)` of mapping `m`: durable
/// (`sync`) flushes of a file's view also sync the file.
pub fn flush(m: &MmapInner, offset: usize, len: usize, sync: bool) -> (r: WinFlushCall)
    requires
        offset + len <= m@.len,
    ensures
        r.addr == m@.addr(offset as int),
        r.len == len,
        r.sync_file == (sync && m@.file_backed),
{
    let _ = m.len();
    let file_backed = m.file_backed();
    WinFlushCall { addr: m.ptr() + offset, len, sync_file: sync && file_backed }
}

/// A planned `VirtualProtect` call.
#[derive(Clone, Copy, Debug, PartialEq, Eq, Hash, Structural)]
pub struct WinProtectCall {
    pub addr: usize,
    pub len: usize,
    pub protect: u32,
}

/// Plans the change of mapping `m` to protection `p`, over the whole view
/// from its aligned start; refused when `m` cannot take `p` in place.
pub fn virtual_protect(m: &MmapInner, p: Protection, f: &WinFlags) -> (r: Result<WinProtectCall, MmapError>)
    ensures
        !crate::inner::transition_allowed(m@.private, p) ==> r == Err::<WinProtectCall, MmapError>(
            MmapError::InvalidProtectionTransition,
        ),
        crate::inner::transition_allowed(m@.private, p) ==> r == Ok::<WinProtectCall, MmapError>(
            WinProtectCall {
                addr: m@.base,
                len: (m@.alignment + m@.len) as usize,
                protect: page_flag(*f, m@.private, p),
            },
        ),
{
    if !m.allows(p) {
        return Err(MmapError::InvalidProtectionTransition);
    }
    let u = m.unmap_call();
    let copy = m.is_private();
    Ok(WinProtectCall { addr: u.addr, len: u.len, protect: page_protection(f, copy, p) })
}

} // verus!
