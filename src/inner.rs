//! One operating-system mapping: the call that creates it, the state it is
//! in, and the calls that flush, re-protect and unmap it.
use vstd::prelude::*;
use crate::error::MmapError;
use crate::layout::{place, Placement};
use crate::protection::{Platform, PosixFlags, Protection};

verus! {

/// The arguments of one `mmap` call, and what the mapping it creates stands for.
#[derive(Clone, Copy, Debug, PartialEq, Eq, Hash, Structural)]
pub struct MapPlan {
    /// Length handed to the call: the requested length plus the alignment.
    pub len: usize,
    /// Protection bits handed to the call.
    pub prot: i32,
    /// Mapping flags handed to the call.
    pub flags: i32,
    /// File offset handed to the call: the requested offset rounded down.
    pub offset: i64,
    /// The call maps the caller's file (else an anonymous region).
    pub file_backed: bool,
    /// How far the requested start lies past the start of the mapped region.
    pub alignment: usize,
    /// The protection the mapping is created with.
    pub protection: Protection,
}

impl MapPlan {
    /// The length of the window that the caller asked for.
    pub open spec fn requested_len(self) -> int {
        self.len - self.alignment
    }

    pub open spec fn wf(self) -> bool {
        self.alignment < self.len
    }
}

/// A planned `mmap` call. Perform it, then hand its outcome to `establish`.
pub struct MapCall {
    plan: MapPlan,
}

impl View for MapCall {
    type V = MapPlan;

    closed spec fn view(&self) -> MapPlan {
        self.plan
    }
}

impl MapCall {
    #[verifier::type_invariant]
    closed spec fn inv(self) -> bool {
        self.plan.wf()
    }

    /// Plans the call from its parts.
    pub fn new(plan: MapPlan) -> (r: MapCall)
        requires
            plan.wf(),
        ensures
            r@ == plan,
    {
        MapCall { plan }
    }

    /// Length to pass to `mmap`.
    pub fn len(&self) -> (r: usize)
        ensures
            r == self@.len,
    {
        self.plan.len
    }

    /// Protection bits to pass to `mmap`.
    pub fn prot(&self) -> (r: i32)
        ensures
            r == self@.prot,
    {
        self.plan.prot
    }

    /// Flags to pass to `mmap`.
    pub fn flags(&self) -> (r: i32)
        ensures
            r == self@.flags,
    {
        self.plan.flags
    }

    /// File offset to pass to `mmap`.
    pub fn offset(&self) -> (r: i64)
        ensures
            r == self@.offset,
    {
        self.plan.offset
    }

    /// Whether the caller's file is to be passed (else no file, `-1`).
    pub fn file_backed(&self) -> (r: bool)
        ensures
            r == self@.file_backed,
    {
        self.plan.file_backed
    }

    /// The protection the mapping is created with.
    pub fn protection(&self) -> (r: Protection)
        ensures
            r == self@.protection,
    {
        self.plan.protection
    }

    /// Takes the outcome of the call: the address of the mapped region, or the
    /// OS error code. The region of an address lies inside the address space.
    pub fn establish(self, outcome: Result<usize, i32>) -> (r: Result<MmapInner, MmapError>)
        requires
            outcome matches Ok(a) ==> a + self@.len <= usize::MAX,
        ensures
            outcome matches Err(e) ==> r == Err::<MmapInner, MmapError>(MmapError::OsMappingFailed(e)),
            outcome matches Ok(a) ==> r matches Ok(m) && m@ == region_of(self@, a) && m@.wf(),
    {
        proof {
            use_type_invariant(&self);
        }
        match outcome {
            Err(e) => Err(MmapError::OsMappingFailed(e)),
            Ok(base) => Ok(
                MmapInner {
                    base,
                    alignment: self.plan.alignment,
                    len: self.plan.len - self.plan.alignment,
                    protection: self.plan.protection,
                    private: self.plan.protection.is_private(),
                    file_backed: self.plan.file_backed,
                },
            ),
        }
    }
}

/// Whether `r` is the call, or the error, that `s` describes.
pub open spec fn planned(r: Result<MapCall, MmapError>, s: Result<MapPlan, MmapError>) -> bool {
    match r {
        Ok(c) => s == Ok::<MapPlan, MmapError>(c@),
        Err(e) => s == Err::<MapPlan, MmapError>(e),
    }
}

/// The `mmap` call that maps bytes `[offset, offset + len)` of a file with
/// protection `p`, or why none is made. The call starts at the page boundary
/// at or before `offset`.
pub open spec fn open_plan(p: Protection, offset: usize, len: usize, pf: Platform) -> Result<MapPlan, MmapError> {
    let alignment = offset % pf.page_size;
    if len == 0 {
        Err(MmapError::ZeroLengthMapping)
    } else if len + alignment > usize::MAX || offset - alignment > i64::MAX {
        Err(MmapError::Overflow)
    } else {
        Ok(
            MapPlan {
                len: (len + alignment) as usize,
                prot: p.prot_bits(pf.flags),
                flags: p.share_bits(pf.flags),
                offset: (offset - alignment) as i64,
                file_backed: true,
                alignment: alignment as usize,
                protection: p,
            },
        )
    }
}

/// The `mmap` call of an anonymous region of `len` bytes with protection `p`,
/// or why none is made.
pub open spec fn anonymous_call_plan(len: usize, p: Protection, stack: bool, pf: Platform) -> Result<
    MapPlan,
    MmapError,
> {
    let f = pf.flags;
    if len == 0 {
        Err(MmapError::ZeroLengthMapping)
    } else {
        Ok(
            MapPlan {
                len,
                prot: p.prot_bits(f),
                flags: p.share_bits(f) | f.map_anon | (if stack { f.map_stack } else { 0i32 }),
                offset: 0,
                file_backed: false,
                alignment: 0,
                protection: p,
            },
        )
    }
}

/// The state of an established mapping.
#[derive(Clone, Copy, Debug, PartialEq, Eq, Hash, Structural)]
pub struct Region {
    /// Address of the region that the OS mapped.
    pub base: usize,
    /// How far the caller's window starts past `base`.
    pub alignment: usize,
    /// Length of the caller's window.
    pub len: usize,
    /// The protection the region has now.
    pub protection: Protection,
    /// The region was mapped copy-on-write.
    pub private: bool,
    /// The region maps a file.
    pub file_backed: bool,
}

impl Region {
    /// Address of the first byte of the caller's window.
    pub open spec fn ptr(self) -> int {
        self.base + self.alignment
    }

    /// Address of byte `i` of the caller's window.
    pub open spec fn addr(self, i: int) -> int {
        self.ptr() + i
    }

    pub open spec fn wf(self) -> bool {
        &&& self.len > 0
        &&& self.base + self.alignment + self.len <= usize::MAX
    }
}

/// The region that a planned call establishes at address `a`.
pub open spec fn region_of(plan: MapPlan, a: usize) -> Region {
    Region {
        base: a,
        alignment: plan.alignment,
        len: (plan.len - plan.alignment) as usize,
        protection: plan.protection,
        private: plan.protection.spec_is_private(),
        file_backed: plan.file_backed,
    }
}

/// Whether a mapping created private (or shared) can be given protection `p`
/// in place: write access carried to the file needs a shared mapping, and
/// copy-on-write access needs a private one.
pub open spec fn transition_allowed(private: bool, p: Protection) -> bool {
    &&& (p is ReadWrite ==> !private)
    &&& (p is ReadCopy ==> private)
}

/// The `mprotect` call that gives region `m` protection `p`, or why none is
/// made. `need_write` asks for a protection that allows writes.
pub open spec fn protect_plan(m: Region, p: Protection, need_write: bool, f: PosixFlags) -> Result<
    ProtectCall,
    MmapError,
> {
    if need_write && !p.spec_requires_write() {
        Err(MmapError::NotWritable)
    } else if !transition_allowed(m.private, p) {
        Err(MmapError::InvalidProtectionTransition)
    } else {
        Ok(protect_of(m, p, f))
    }
}

/// The state of region `m` once the `mprotect` call that `protect_plan`
/// gives has had `outcome`, or the error.
pub open spec fn protected(m: Region, p: Protection, need_write: bool, outcome: Result<(), i32>) -> Result<
    Region,
    MmapError,
> {
    if need_write && !p.spec_requires_write() {
        Err(MmapError::NotWritable)
    } else if !transition_allowed(m.private, p) {
        Err(MmapError::InvalidProtectionTransition)
    } else {
        match outcome {
            Err(e) => Err(MmapError::OsCallFailed(e)),
            Ok(()) => Ok(Region { protection: p, ..m }),
        }
    }
}

/// Whether `r` is what `protected` gives, with the region `after` on success.
pub open spec fn protect_result(r: Result<(), MmapError>, after: Region, s: Result<Region, MmapError>) -> bool {
    match s {
        Ok(m) => r is Ok && after == m,
        Err(e) => r == Err::<(), MmapError>(e),
    }
}

/// A planned `msync` call.
#[derive(Clone, Copy, Debug, PartialEq, Eq, Hash, Structural)]
pub struct FlushCall {
    pub addr: usize,
    pub len: usize,
    pub flags: i32,
}

/// A planned `mprotect` call.
#[derive(Clone, Copy, Debug, PartialEq, Eq, Hash, Structural)]
pub struct ProtectCall {
    pub addr: usize,
    pub len: usize,
    pub prot: i32,
}

/// A planned `munmap` call.
#[derive(Clone, Copy, Debug, PartialEq, Eq, Hash, Structural)]
pub struct UnmapCall {
    pub addr: usize,
    pub len: usize,
}

/// The flush of bytes `[offset, offset + len)` of region `m`: the range is
/// widened down to the page boundary, as `msync` asks.
pub open spec fn flush_of(m: Region, offset: int, len: int, sync: bool, pf: Platform) -> FlushCall {
    let start = m.addr(offset);
    FlushCall {
        addr: (start - start % (pf.page_size as int)) as usize,
        len: (len + start % (pf.page_size as int)) as usize,
        flags: if sync { pf.flags.ms_sync } else { pf.flags.ms_async },
    }
}

/// The protection change of the whole mapped region of `m`.
pub open spec fn protect_of(m: Region, p: Protection, f: PosixFlags) -> ProtectCall {
    ProtectCall { addr: m.base, len: (m.alignment + m.len) as usize, prot: p.prot_bits(f) }
}

/// The unmapping of the whole mapped region of `m`.
pub open spec fn unmap_of(m: Region) -> UnmapCall {
    UnmapCall { addr: m.base, len: (m.alignment + m.len) as usize }
}

/// Owner of one operating-system mapping.
pub struct MmapInner {
    base: usize,
    alignment: usize,
    len: usize,
    protection: Protection,
    private: bool,
    file_backed: bool,
}

impl View for MmapInner {
    type V = Region;

    closed spec fn view(&self) -> Region {
        Region {
            base: self.base,
            alignment: self.alignment,
            len: self.len,
            protection: self.protection,
            private: self.private,
            file_backed: self.file_backed,
        }
    }
}

impl MmapInner {
    #[verifier::type_invariant]
    closed spec fn inv(self) -> bool {
        self@.wf()
    }

    /// Plans the mapping of bytes `[offset, offset + len)` of a file with
    /// protection `protection`. A length of zero gives `ZeroLengthMapping`;
    /// a widened length or an offset that does not fit the call gives
    /// `Overflow`. No call is made in either case.
    pub fn open(protection: Protection, offset: usize, len: usize, platform: &Platform) -> (r: Result<
        MapCall,
        MmapError,
    >)
        requires
            platform.wf(),
        ensures
            planned(r, open_plan(protection, offset, len, *platform)),
    {
        if len == 0 {
            return Err(MmapError::ZeroLengthMapping);
        }
        let placed = match place(offset, len, platform.page_size) {
            Some(placed) => placed,
            Option::None => {
                return Err(MmapError::Overflow);
            },
        };
        if placed.aligned_start as u64 > i64::MAX as u64 {
            return Err(MmapError::Overflow);
        }
        let f = &platform.flags;
        Ok(
            MapCall::new(
                MapPlan {
                    len: placed.aligned_len,
                    prot: protection.as_prot(f),
                    flags: protection.as_flag(f),
                    offset: placed.aligned_start as i64,
                    file_backed: true,
                    alignment: placed.alignment,
                    protection,
                },
            ),
        )
    }

    /// Plans an anonymous mapping of `len` bytes with protection
    /// `protection`, suited to a stack when `stack`. A length of zero gives
    /// `ZeroLengthMapping`, and no call is made.
    pub fn anonymous(len: usize, protection: Protection, stack: bool, platform: &Platform) -> (r: Result<
        MapCall,
        MmapError,
    >)
        ensures
            planned(r, anonymous_call_plan(len, protection, stack, *platform)),
    {
        if len == 0 {
            return Err(MmapError::ZeroLengthMapping);
        }
        let f = &platform.flags;
        let stack_flag = if stack {
            f.map_stack
        } else {
            0i32
        };
        Ok(
            MapCall::new(
                MapPlan {
                    len,
                    prot: protection.as_prot(f),
                    flags: protection.as_flag(f) | f.map_anon | stack_flag,
                    offset: 0,
                    file_backed: false,
                    alignment: 0,
                    protection,
                },
            ),
        )
    }

    /// Takes ownership of an established region.
    pub fn from_region(m: Region) -> (r: MmapInner)
        requires
            m.wf(),
        ensures
            r@ == m,
    {
        MmapInner {
            base: m.base,
            alignment: m.alignment,
            len: m.len,
            protection: m.protection,
            private: m.private,
            file_backed: m.file_backed,
        }
    }

    /// Address of the first byte of the caller's window.
    pub fn ptr(&self) -> (r: usize)
        ensures
            r == self@.ptr(),
    {
        proof {
            use_type_invariant(self);
        }
        self.base + self.alignment
    }

    /// Length of the caller's window.
    pub fn len(&self) -> (r: usize)
        ensures
            r == self@.len,
            self@.wf(),
    {
        proof {
            use_type_invariant(self);
        }
        self.len
    }

    /// Whether the mapping was created copy-on-write.
    pub fn is_private(&self) -> (r: bool)
        ensures
            r == self@.private,
    {
        self.private
    }

    /// Whether the mapping maps a file.
    pub fn file_backed(&self) -> (r: bool)
        ensures
            r == self@.file_backed,
    {
        self.file_backed
    }

    /// The protection the mapping has now.
    pub fn protection(&self) -> (r: Protection)
        ensures
            r == self@.protection,
    {
        self.protection
    }

    /// The `msync` call that flushes bytes `[offset, offset + len)` of the
    /// window and waits until they are durable. It may cover more than the
    /// range asked for, never less.
    pub fn flush(&self, offset: usize, len: usize, platform: &Platform) -> (r: FlushCall)
        requires
            offset + len <= self@.len,
            platform.wf(),
        ensures
            r == flush_of(self@, offset as int, len as int, true, *platform),
            r.addr <= self@.addr(offset as int),
            r.addr + r.len == self@.addr(offset as int) + len,
            r.addr % platform.page_size == 0,
    {
        self.flush_call(offset, len, true, platform)
    }

    /// The `msync` call that starts flushing bytes `[offset, offset + len)`
    /// of the window without waiting. It may cover more than the range asked
    /// for, never less.
    pub fn flush_async(&self, offset: usize, len: usize, platform: &Platform) -> (r: FlushCall)
        requires
            offset + len <= self@.len,
            platform.wf(),
        ensures
            r == flush_of(self@, offset as int, len as int, false, *platform),
            r.addr <= self@.addr(offset as int),
            r.addr + r.len == self@.addr(offset as int) + len,
            r.addr % platform.page_size == 0,
    {
        self.flush_call(offset, len, false, platform)
    }

    /// The `msync` call for bytes `[offset, offset + len)` of the window:
    /// synchronous when `sync`, else asynchronous.
    pub(crate) fn flush_call(&self, offset: usize, len: usize, sync: bool, platform: &Platform) -> (r: FlushCall)
        requires
            offset + len <= self@.len,
            platform.wf(),
        ensures
            r == flush_of(self@, offset as int, len as int, sync, *platform),
            r.addr <= self@.addr(offset as int),
            r.addr + r.len == self@.addr(offset as int) + len,
            r.addr % platform.page_size == 0,
    {
        proof {
            use_type_invariant(self);
        }
        let start = self.base + self.alignment + offset;
        let p: Placement = match place(start, len, platform.page_size) {
            Some(p) => p,
            None => {
                proof {
                    assert(start % platform.page_size <= start) by (nonlinear_arith)
                        requires
                            platform.page_size > 0,
                    ;
                }
                assert(false);
                Placement { alignment: 0, aligned_start: 0, aligned_len: 0 }
            },
        };
        let flags = if sync {
            platform.flags.ms_sync
        } else {
            platform.flags.ms_async
        };
        FlushCall { addr: p.aligned_start, len: p.aligned_len, flags }
    }

    /// The `mprotect` call that gives the mapping protection `p`, or why none
    /// is made: `need_write` refuses a protection that does not allow writes,
    /// and a protection the mapping cannot take in place is refused.
    pub fn protect_call(&self, p: Protection, need_write: bool, platform: &Platform) -> (r: Result<
        ProtectCall,
        MmapError,
    >)
        ensures
            r == protect_plan(self@, p, need_write, platform.flags),
    {
        proof {
            use_type_invariant(self);
        }
        if need_write && !p.requires_write() {
            return Err(MmapError::NotWritable);
        }
        if !self.allows(p) {
            return Err(MmapError::InvalidProtectionTransition);
        }
        Ok(ProtectCall { addr: self.base, len: self.alignment + self.len, prot: p.as_prot(&platform.flags) })
    }

    /// Whether the mapping can be given protection `p` in place.
    pub fn allows(&self, p: Protection) -> (r: bool)
        ensures
            r == transition_allowed(self@.private, p),
        no_unwind
    {
        match p {
            Protection::ReadWrite => !self.private,
            Protection::ReadCopy => self.private,
            _ => true,
        }
    }

    /// Takes the outcome of the `mprotect` call planned by `protect_call`:
    /// on success the mapping has protection `p`, else it is unchanged.
    pub fn set_protection(&mut self, p: Protection, need_write: bool, outcome: Result<(), i32>) -> (r: Result<
        (),
        MmapError,
    >)
        ensures
            protect_result(r, final(self)@, protected(old(self)@, p, need_write, outcome)),
            r is Err ==> final(self)@ == old(self)@,
        no_unwind
    {
        proof {
            use_type_invariant(&*self);
        }
        if need_write && !p.requires_write() {
            return Err(MmapError::NotWritable);
        }
        if !self.allows(p) {
            return Err(MmapError::InvalidProtectionTransition);
        }
        match outcome {
            Err(e) => Err(MmapError::OsCallFailed(e)),
            Ok(()) => {
                self.protection = p;
                Ok(())
            },
        }
    }

    /// The `munmap` call that removes the whole mapped region.
    pub fn unmap_call(&self) -> (r: UnmapCall)
        ensures
            r == unmap_of(self@),
    {
        proof {
            use_type_invariant(self);
        }
        UnmapCall { addr: self.base, len: self.alignment + self.len }
    }
}

} // verus!

verus! {

/// Changing the protection, and changing it again, keeps the mapping where
/// it is: the same region, window and sharing, with only the protection
/// changed. Bytes written between the changes stay at the same addresses.
pub proof fn lemma_reprotect_keeps_region(
    m: Region,
    p1: Protection,
    w1: bool,
    o1: Result<(), i32>,
    p2: Protection,
    w2: bool,
    o2: Result<(), i32>,
)
    ensures
        protected(m, p1, w1, o1) matches Ok(m1) ==> (protected(m1, p2, w2, o2) matches Ok(m2) ==> m2
            == (Region { protection: p2, ..m })),
{
}

/// A copy-on-write mapping is created private, and stays private: no
/// protection change makes it carry writes to the file, and a shared mapping
/// never becomes copy-on-write.
pub proof fn lemma_copy_stays_private(plan: MapPlan, a: usize, p: Protection, w: bool, o: Result<(), i32>, f: PosixFlags)
    ensures
        plan.protection is ReadCopy ==> region_of(plan, a).private,
        Protection::ReadCopy.share_bits(f) == f.map_private,
        forall|m: Region| #[trigger] protected(m, p, w, o) matches Ok(m2) ==> m2.private == m.private && (
        m2.protection is ReadWrite ==> !m2.private) && (m2.protection is ReadCopy ==> m2.private),
{
}

} // verus!
