//! Builders for anonymous and file-backed mappings, and the `mmap` call that
//! each of them plans.
use vstd::prelude::*;
use crate::error::MmapError;
use crate::inner::{anonymous_call_plan, open_plan, planned, MapCall, MapPlan, MmapInner};
use crate::protection::{Platform, Protection};

verus! {

/// The protection that was set, else the default.
pub open spec fn chosen(p: Option<Protection>, default: Protection) -> Protection {
    match p {
        Some(q) => q,
        Option::None => default,
    }
}

/// Options that configure how an anonymous mapping is created.
///
/// Create it with `anonymous`, configure it with the chained methods, then
/// plan the mapping with `map_mut`.
#[derive(Clone, Copy, Debug, PartialEq, Eq, Hash)]
pub struct AnonymousMmapOptions {
    protection: Option<Protection>,
    len: usize,
    stack: bool,
}

/// Configures a new anonymous mapping of `len` bytes.
pub fn anonymous(len: usize) -> (r: AnonymousMmapOptions)
    ensures
        r.spec_len() == len,
        r.spec_protection() == Option::<Protection>::None,
        !r.spec_stack(),
{
    AnonymousMmapOptions { protection: Option::None, len, stack: false }
}

/// The `mmap` call of an anonymous mapping, or why none is made.
pub open spec fn anonymous_plan(len: usize, protection: Option<Protection>, stack: bool, pf: Platform) -> Result<
    MapPlan,
    MmapError,
> {
    let p = chosen(protection, Protection::ReadWrite);
    if !p.spec_requires_write() {
        Err(MmapError::NotWritable)
    } else {
        anonymous_call_plan(len, p, stack, pf)
    }
}

impl AnonymousMmapOptions {
    pub closed spec fn spec_len(&self) -> usize {
        self.len
    }

    pub closed spec fn spec_protection(&self) -> Option<Protection> {
        self.protection
    }

    pub closed spec fn spec_stack(&self) -> bool {
        self.stack
    }

    /// Makes the mapping suitable to be a process or thread stack
    /// (`MAP_STACK`, a hint that the platform may ignore).
    pub fn stack(&mut self) -> (r: &mut Self)
        ensures
            r.spec_stack(),
            r.spec_len() == old(self).spec_len(),
            r.spec_protection() == old(self).spec_protection(),
            *final(self) == *final(r),
    {
        self.stack = true;
        self
    }

    /// Sets the protection of the mapping.
    pub fn protection(&mut self, protection: Protection) -> (r: &mut Self)
        ensures
            r.spec_protection() == Some(protection),
            r.spec_len() == old(self).spec_len(),
            r.spec_stack() == old(self).spec_stack(),
            *final(self) == *final(r),
    {
        self.protection = Some(protection);
        self
    }

    /// Plans the `mmap` call of this mapping.
    ///
    /// The protection defaults to `ReadWrite`. A protection that does not
    /// allow writes gives `NotWritable`, and a length of zero gives
    /// `ZeroLengthMapping`, before any call is made.
    pub fn map_mut(&self, platform: &Platform) -> (r: Result<MapCall, MmapError>)
        ensures
            planned(r, anonymous_plan(self.spec_len(), self.spec_protection(), self.spec_stack(), *platform)),
    {
        let p = match self.protection {
            Some(q) => q,
            Option::None => Protection::ReadWrite,
        };
        if !p.requires_write() {
            return Err(MmapError::NotWritable);
        }
        MmapInner::anonymous(self.len, p, self.stack, platform)
    }
}

/// Options that configure how a file-backed mapping is created.
///
/// Create it with `file`, configure it with the chained methods, then plan
/// the mapping with `map` or `map_mut`.
#[derive(Clone, Copy, Debug, PartialEq, Eq, Hash)]
pub struct FileMmapOptions {
    file_len: u64,
    protection: Option<Protection>,
    offset: usize,
    len: Option<usize>,
}

/// Configures a new mapping of a file that is `file_len` bytes long.
///
/// The mapping is only as safe as the file: no other process or thread may
/// modify the mapped bytes while the mapping is in use.
pub fn file(file_len: u64) -> (r: FileMmapOptions)
    ensures
        r.spec_file_len() == file_len,
        r.spec_protection() == Option::<Protection>::None,
        r.spec_offset() == 0,
        r.spec_len() == Option::<usize>::None,
{
    FileMmapOptions { file_len, protection: Option::None, offset: 0, len: Option::None }
}

/// The length of the window of a file mapping: the one that was set, else
/// the rest of the file after `offset` (none when the offset is at or past
/// its end); `Overflow` when the file is too long for `usize`.
pub open spec fn window_len(file_len: u64, offset: usize, len: Option<usize>) -> Result<usize, MmapError> {
    match len {
        Some(l) => Ok(l),
        Option::None => if file_len > usize::MAX {
            Err(MmapError::Overflow)
        } else if file_len <= offset {
            Ok(0usize)
        } else {
            Ok((file_len - offset) as usize)
        },
    }
}

/// The `mmap` call of a file mapping, or why none is made. `mutable` asks
/// for a protection that allows writes.
pub open spec fn file_plan(
    file_len: u64,
    offset: usize,
    len: Option<usize>,
    p: Protection,
    mutable: bool,
    pf: Platform,
) -> Result<MapPlan, MmapError> {
    if mutable && !p.spec_requires_write() {
        Err(MmapError::NotWritable)
    } else {
        match window_len(file_len, offset, len) {
            Err(e) => Err(e),
            Ok(l) => open_plan(p, offset, l, pf),
        }
    }
}

impl FileMmapOptions {
    pub closed spec fn spec_file_len(&self) -> u64 {
        self.file_len
    }

    pub closed spec fn spec_protection(&self) -> Option<Protection> {
        self.protection
    }

    pub closed spec fn spec_offset(&self) -> usize {
        self.offset
    }

    pub closed spec fn spec_len(&self) -> Option<usize> {
        self.len
    }

    /// Starts the mapping at byte `offset` of the file.
    pub fn offset(&mut self, offset: usize) -> (r: &mut Self)
        ensures
            r.spec_offset() == offset,
            r.spec_file_len() == old(self).spec_file_len(),
            r.spec_protection() == old(self).spec_protection(),
            r.spec_len() == old(self).spec_len(),
            *final(self) == *final(r),
    {
        self.offset = offset;
        self
    }

    /// Makes the mapping `len` bytes long.
    pub fn len(&mut self, len: usize) -> (r: &mut Self)
        ensures
            r.spec_len() == Some(len),
            r.spec_file_len() == old(self).spec_file_len(),
            r.spec_protection() == old(self).spec_protection(),
            r.spec_offset() == old(self).spec_offset(),
            *final(self) == *final(r),
    {
        self.len = Some(len);
        self
    }

    /// Sets the protection of the mapping.
    pub fn protection(&mut self, protection: Protection) -> (r: &mut Self)
        ensures
            r.spec_protection() == Some(protection),
            r.spec_file_len() == old(self).spec_file_len(),
            r.spec_offset() == old(self).spec_offset(),
            r.spec_len() == old(self).spec_len(),
            *final(self) == *final(r),
    {
        self.protection = Some(protection);
        self
    }

    /// Plans the call with protection `p`.
    fn map_inner(&self, p: Protection, mutable: bool, platform: &Platform) -> (r: Result<MapCall, MmapError>)
        requires
            platform.wf(),
        ensures
            planned(
                r,
                file_plan(self.file_len, self.offset, self.len, p, mutable, *platform),
            ),
    {
        if mutable && !p.requires_write() {
            return Err(MmapError::NotWritable);
        }
        let len: usize = match self.len {
            Some(l) => l,
            Option::None => {
                if self.file_len > usize::MAX as u64 {
                    return Err(MmapError::Overflow);
                }
                let file_len = self.file_len as usize;
                if file_len <= self.offset {
                    0
                } else {
                    file_len - self.offset
                }
            },
        };
        MmapInner::open(p, self.offset, len, platform)
    }

    /// Plans the `mmap` call of an immutable mapping.
    ///
    /// The protection defaults to `Read`. Without a length set, the mapping
    /// runs to the end of the file, and a file too long for `usize` gives
    /// `Overflow`. A window of zero bytes gives `ZeroLengthMapping`. No call
    /// is made in either case.
    pub fn map(&self, platform: &Platform) -> (r: Result<MapCall, MmapError>)
        requires
            platform.wf(),
        ensures
            planned(
                r,
                file_plan(
                    self.spec_file_len(),
                    self.spec_offset(),
                    self.spec_len(),
                    chosen(self.spec_protection(), Protection::Read),
                    false,
                    *platform,
                ),
            ),
    {
        let p = match self.protection {
            Some(q) => q,
            Option::None => Protection::Read,
        };
        self.map_inner(p, false, platform)
    }

    /// Plans the `mmap` call of a mutable mapping.
    ///
    /// The protection defaults to `ReadWrite`; one that does not allow writes
    /// gives `NotWritable` before any call is made. Otherwise as `map`.
    pub fn map_mut(&self, platform: &Platform) -> (r: Result<MapCall, MmapError>)
        requires
            platform.wf(),
        ensures
            planned(
                r,
                file_plan(
                    self.spec_file_len(),
                    self.spec_offset(),
                    self.spec_len(),
                    chosen(self.spec_protection(), Protection::ReadWrite),
                    true,
                    *platform,
                ),
            ),
    {
        let p = match self.protection {
            Some(q) => q,
            Option::None => Protection::ReadWrite,
        };
        self.map_inner(p, true, platform)
    }
}

} // verus!

verus! {

/// No planned file mapping is empty: a window of zero bytes (an empty file
/// mapped to its end, or an offset at or past its end) is refused with
/// `ZeroLengthMapping`, unless the protection was refused first.
pub proof fn lemma_no_empty_file_mapping(
    file_len: u64,
    offset: usize,
    len: Option<usize>,
    p: Protection,
    mutable: bool,
    pf: Platform,
)
    requires
        pf.wf(),
    ensures
        file_plan(file_len, offset, len, p, mutable, pf) matches Ok(plan) ==> plan.wf()
            && plan.requested_len() > 0,
        len is None && file_len <= offset ==> file_plan(file_len, offset, len, p, mutable, pf) == Err::<
            MapPlan,
            MmapError,
        >(if mutable && !p.spec_requires_write() {
            MmapError::NotWritable
        } else {
            MmapError::ZeroLengthMapping
        }),
{
}

/// A planned file mapping starts its window exactly at the requested offset:
/// the call maps from a page boundary at or before it, and the window skips
/// the alignment, so byte `i` of the window is byte `offset + i` of the file,
/// for each of the window's bytes.
pub proof fn lemma_file_window_at_offset(
    file_len: u64,
    offset: usize,
    len: Option<usize>,
    p: Protection,
    mutable: bool,
    pf: Platform,
)
    requires
        pf.wf(),
    ensures
        file_plan(file_len, offset, len, p, mutable, pf) matches Ok(plan) ==> {
            &&& plan.offset + plan.alignment == offset
            &&& (plan.offset as int) % (pf.page_size as int) == 0
            &&& plan.alignment < pf.page_size
            &&& window_len(file_len, offset, len) == Ok::<usize, MmapError>(plan.requested_len() as usize)
        },
{
    let alignment = offset % pf.page_size;
    assert((offset - alignment) % (pf.page_size as int) == 0 && alignment < pf.page_size && alignment <= offset) by {
        vstd::arithmetic::div_mod::lemma_fundamental_div_mod(offset as int, pf.page_size as int);
        vstd::arithmetic::div_mod::lemma_div_pos_is_pos(offset as int, pf.page_size as int);
        vstd::arithmetic::div_mod::lemma_mod_multiples_basic(offset as int / pf.page_size as int, pf.page_size as int);
        assert(offset - alignment == (offset as int / pf.page_size as int) * pf.page_size) by (nonlinear_arith)
            requires
                offset == pf.page_size * (offset as int / pf.page_size as int) + alignment,
        ;
        assert((offset as int / pf.page_size as int) * pf.page_size >= 0) by (nonlinear_arith)
            requires
                offset as int / pf.page_size as int >= 0,
                pf.page_size > 0,
        ;
    }
    if let Ok(plan) = file_plan(file_len, offset, len, p, mutable, pf) {
        assert(plan.offset == offset - alignment);
        assert(plan.alignment == alignment);
    }
}

} // verus!
