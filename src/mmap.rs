//! The immutable and the mutable mapping handles.
use vstd::prelude::*;
use crate::error::MmapError;
use crate::inner::{
    flush_of, protect_plan, protect_result, protected, region_of, unmap_of, FlushCall, MapCall,
    MmapInner, ProtectCall, Region, UnmapCall,
};
use crate::protection::{Platform, Protection};

verus! {

/// An immutable memory-mapped buffer: the owner of one mapping.
///
/// The bytes of the buffer are `len()` bytes from address `ptr()`. They may
/// be read while no other process, thread or mapping modifies them; that is
/// the caller's to ensure.
pub struct Mmap {
    inner: MmapInner,
}

/// A mutable memory-mapped buffer: the owner of one mapping whose protection
/// allows writes.
///
/// The bytes of the buffer are `len()` bytes from address `ptr()`. They may
/// be read and written while no other process, thread or mapping modifies
/// them; that is the caller's to ensure.
pub struct MmapMut {
    inner: MmapInner,
}

impl View for Mmap {
    type V = Region;

    closed spec fn view(&self) -> Region {
        self.inner@
    }
}

impl View for MmapMut {
    type V = Region;

    closed spec fn view(&self) -> Region {
        self.inner@
    }
}

impl MapCall {
    /// Takes the outcome of the `mmap` call as an immutable mapping.
    pub fn finish(self, outcome: Result<usize, i32>) -> (r: Result<Mmap, MmapError>)
        requires
            outcome matches Ok(a) ==> a + self@.len <= usize::MAX,
        ensures
            outcome matches Err(e) ==> r == Err::<Mmap, MmapError>(MmapError::OsMappingFailed(e)),
            outcome matches Ok(a) ==> r matches Ok(m) && m@ == region_of(self@, a),
    {
        match self.establish(outcome) {
            Ok(inner) => Ok(Mmap { inner }),
            Err(e) => Err(e),
        }
    }

    /// Takes the outcome of the `mmap` call as a mutable mapping.
    pub fn finish_mut(self, outcome: Result<usize, i32>) -> (r: Result<MmapMut, MmapError>)
        requires
            outcome matches Ok(a) ==> a + self@.len <= usize::MAX,
            self@.protection.spec_requires_write(),
        ensures
            outcome matches Err(e) ==> r == Err::<MmapMut, MmapError>(MmapError::OsMappingFailed(e)),
            outcome matches Ok(a) ==> r matches Ok(m) && m@ == region_of(self@, a),
    {
        match self.establish(outcome) {
            Ok(inner) => Ok(MmapMut { inner }),
            Err(e) => Err(e),
        }
    }
}

impl Mmap {

    /// Address of the first byte of the buffer.
    pub fn ptr(&self) -> (r: usize)
        ensures
            r == self@.ptr(),
    {
        self.inner.ptr()
    }

    /// Length of the buffer.
    pub fn len(&self) -> (r: usize)
        ensures
            r == self@.len,
            r > 0,
    {
        self.inner.len()
    }

    /// The protection the mapping has now.
    pub fn protection(&self) -> (r: Protection)
        ensures
            r == self@.protection,
    {
        self.inner.protection()
    }

    /// The `mprotect` call of `set_protection(p, ..)`, or why none is made.
    pub fn protect_call(&self, p: Protection, platform: &Platform) -> (r: Result<ProtectCall, MmapError>)
        ensures
            r == protect_plan(self@, p, false, platform.flags),
    {
        self.inner.protect_call(p, false, platform)
    }

    /// Changes the protection of the mapping in place, taking the outcome of
    /// the call that `protect_call` planned. A mapping created read-only from
    /// a read-only file cannot be made writable this way: the call fails.
    pub fn set_protection(&mut self, protection: Protection, outcome: Result<(), i32>) -> (r: Result<(), MmapError>)
        ensures
            protect_result(r, final(self)@, protected(old(self)@, protection, false, outcome)),
            r is Err ==> final(self)@ == old(self)@,
    {
        self.inner.set_protection(protection, false, outcome)
    }

    /// The `mprotect` call of `make_mut(p, ..)`, or why none is made.
    pub fn make_mut_call(&self, p: Protection, platform: &Platform) -> (r: Result<ProtectCall, MmapError>)
        ensures
            r == protect_plan(self@, p, true, platform.flags),
    {
        self.inner.protect_call(p, true, platform)
    }

    /// Makes the mapping mutable with protection `protection`, taking the
    /// outcome of the call that `make_mut_call` planned. A protection that
    /// does not allow writes gives `NotWritable`.
    pub fn make_mut(self, protection: Protection, outcome: Result<(), i32>) -> (r: Result<MmapMut, MmapError>)
        ensures
            match protected(self@, protection, true, outcome) {
                Ok(m) => r matches Ok(x) && x@ == m,
                Err(e) => r matches Err(x) && x == e,
            },
    {
        let mut inner = self.inner;
        match inner.set_protection(protection, true, outcome) {
            Ok(()) => Ok(MmapMut { inner }),
            Err(e) => Err(e),
        }
    }

    /// The `munmap` call that releases the mapping.
    pub fn unmap_call(&self) -> (r: UnmapCall)
        ensures
            r == unmap_of(self@),
    {
        self.inner.unmap_call()
    }
}

impl MmapMut {
    #[verifier::type_invariant]
    closed spec fn inv(self) -> bool {
        self.inner@.protection.spec_requires_write()
    }

    /// Address of the first byte of the buffer.
    pub fn ptr(&self) -> (r: usize)
        ensures
            r == self@.ptr(),
    {
        self.inner.ptr()
    }

    /// Length of the buffer.
    pub fn len(&self) -> (r: usize)
        ensures
            r == self@.len,
            r > 0,
    {
        self.inner.len()
    }

    /// The protection the mapping has now.
    pub fn protection(&self) -> (r: Protection)
        ensures
            r == self@.protection,
    {
        self.inner.protection()
    }

    /// The `msync` call that flushes the whole buffer and waits until the
    /// changes are durable.
    pub fn flush(&self, platform: &Platform) -> (r: FlushCall)
        requires
            platform.wf(),
        ensures
            r == flush_of(self@, 0, self@.len as int, true, *platform),
    {
        let len = self.inner.len();
        self.inner.flush(0, len, platform)
    }

    /// The `msync` call that starts flushing the whole buffer without waiting.
    pub fn flush_async(&self, platform: &Platform) -> (r: FlushCall)
        requires
            platform.wf(),
        ensures
            r == flush_of(self@, 0, self@.len as int, false, *platform),
    {
        let len = self.inner.len();
        self.inner.flush_async(0, len, platform)
    }

    /// The `msync` call that flushes bytes `[offset, offset + len)` and waits
    /// until they are durable. Other changes may be flushed as well.
    pub fn flush_range(&self, offset: usize, len: usize, platform: &Platform) -> (r: FlushCall)
        requires
            offset + len <= self@.len,
            platform.wf(),
        ensures
            r == flush_of(self@, offset as int, len as int, true, *platform),
    {
        self.inner.flush(offset, len, platform)
    }

    /// The `msync` call that starts flushing bytes `[offset, offset + len)`
    /// without waiting. Other changes may be flushed as well.
    pub fn flush_async_range(&self, offset: usize, len: usize, platform: &Platform) -> (r: FlushCall)
        requires
            offset + len <= self@.len,
            platform.wf(),
        ensures
            r == flush_of(self@, offset as int, len as int, false, *platform),
    {
        self.inner.flush_async(offset, len, platform)
    }

    /// The `mprotect` call of `set_protection(p, ..)`, or why none is made.
    pub fn protect_call(&self, p: Protection, platform: &Platform) -> (r: Result<ProtectCall, MmapError>)
        ensures
            r == protect_plan(self@, p, true, platform.flags),
    {
        self.inner.protect_call(p, true, platform)
    }

    /// Changes the protection of the mapping in place, taking the outcome of
    /// the call that `protect_call` planned. A protection that does not allow
    /// writes gives `NotWritable`: use `make_read_only` for that.
    pub fn set_protection(&mut self, protection: Protection, outcome: Result<(), i32>) -> (r: Result<(), MmapError>)
        ensures
            protect_result(r, final(self)@, protected(old(self)@, protection, true, outcome)),
            r is Err ==> final(self)@ == old(self)@,
    {
        proof {
            use_type_invariant(&*self);
        }
        self.inner.set_protection(protection, true, outcome)
    }

    /// The `mprotect` call of `make_read_only(p, ..)`, or why none is made.
    pub fn make_read_only_call(&self, p: Protection, platform: &Platform) -> (r: Result<ProtectCall, MmapError>)
        ensures
            r == protect_plan(self@, p, false, platform.flags),
    {
        self.inner.protect_call(p, false, platform)
    }

    /// Makes the mapping immutable with protection `protection`, taking the
    /// outcome of the call that `make_read_only_call` planned. Any protection
    /// that the mapping can take in place is accepted, writable ones too.
    pub fn make_read_only(self, protection: Protection, outcome: Result<(), i32>) -> (r: Result<Mmap, MmapError>)
        ensures
            match protected(self@, protection, false, outcome) {
                Ok(m) => r matches Ok(x) && x@ == m,
                Err(e) => r matches Err(x) && x == e,
            },
    {
        let mut inner = self.inner;
        match inner.set_protection(protection, false, outcome) {
            Ok(()) => Ok(Mmap { inner }),
            Err(e) => Err(e),
        }
    }

    /// The `munmap` call that releases the mapping.
    pub fn unmap_call(&self) -> (r: UnmapCall)
        ensures
            r == unmap_of(self@),
    {
        self.inner.unmap_call()
    }

    /// Gives up the handle for its mapping.
    pub fn into_inner(self) -> (r: MmapInner)
        ensures
            r@ == self@,
            r@.protection.spec_requires_write(),
    {
        proof {
            use_type_invariant(&self);
        }
        self.inner
    }
}

} // verus!
