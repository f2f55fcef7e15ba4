//! Protection levels and their translation into POSIX flags.
use vstd::prelude::*;

verus! {

/// Memory map protection.
///
/// Determines how a memory map may be used. If the memory map is backed by a
/// file, then the file must have been opened with the rights that
/// `open_mode` gives for the protection.
#[derive(Clone, Copy, Debug, PartialEq, Eq, Hash, Structural)]
pub enum Protection {
    /// A read-only memory map.
    Read,
    /// A read-write memory map. Writes are carried through to the file.
    ReadWrite,
    /// A read, copy-on-write memory map. Writes are not carried through to
    /// the underlying file.
    ReadCopy,
    /// A readable and executable memory map.
    ReadExecute,
    /// A memory map that can be neither read, written nor executed.
    NoAccess,
}

/// The rights with which a file must be opened before it is mapped.
#[derive(Clone, Copy, Debug, PartialEq, Eq, Hash, Structural)]
pub struct OpenMode {
    pub read: bool,
    pub write: bool,
}

/// The POSIX flag values that the mapping calls take.
#[derive(Clone, Copy, Debug, PartialEq, Eq, Hash, Structural)]
pub struct PosixFlags {
    pub prot_none: i32,
    pub prot_read: i32,
    pub prot_write: i32,
    pub prot_exec: i32,
    pub map_shared: i32,
    pub map_private: i32,
    pub map_anon: i32,
    pub map_stack: i32,
    pub ms_sync: i32,
    pub ms_async: i32,
}

impl PosixFlags {
    /// No-access is no bit; read, write and execute are distinct bits; and
    /// shared and private mappings are told apart.
    pub open spec fn wf(self) -> bool {
        &&& self.prot_none == 0
        &&& self.prot_read != 0 && self.prot_write != 0 && self.prot_exec != 0
        &&& self.prot_read & self.prot_write == 0
        &&& self.prot_read & self.prot_exec == 0
        &&& self.prot_write & self.prot_exec == 0
        &&& self.map_shared != self.map_private
    }
}

/// Relies on libc's constants for `mmap`, `mprotect` and `msync`. On every
/// target that libc describes, `PROT_NONE` is zero, `PROT_READ`,
/// `PROT_WRITE` and `PROT_EXEC` are distinct bits, and `MAP_SHARED` differs
/// from `MAP_PRIVATE`.
#[verifier::external_body]
fn libc_flags() -> (r: PosixFlags)
    ensures
        r.wf(),
{
    PosixFlags {
        prot_none: libc::PROT_NONE,
        prot_read: libc::PROT_READ,
        prot_write: libc::PROT_WRITE,
        prot_exec: libc::PROT_EXEC,
        map_shared: libc::MAP_SHARED,
        map_private: libc::MAP_PRIVATE,
        map_anon: libc::MAP_ANON,
        map_stack: libc::MAP_STACK,
        ms_sync: libc::MS_SYNC,
        ms_async: libc::MS_ASYNC,
    }
}

/// What the mapping decisions need to know of the host: its flag values and
/// its page granularity (the boundary that mapping offsets must lie on).
#[derive(Clone, Copy, Debug, PartialEq, Eq, Hash, Structural)]
pub struct Platform {
    pub flags: PosixFlags,
    pub page_size: usize,
}

impl Platform {
    pub open spec fn wf(self) -> bool {
        self.page_size > 0
    }

    /// The host's flags, with the given page size; `None` when the page size
    /// is zero.
    pub fn host(page_size: usize) -> (r: Option<Platform>)
        ensures
            r is Some <==> page_size > 0,
            r matches Some(p) ==> {
                &&& p.wf()
                &&& p.page_size == page_size
                &&& p.flags.wf()
            },
    {
        if page_size == 0 {
            None
        } else {
            Some(Platform { flags: libc_flags(), page_size })
        }
    }

    /// The given flags, with the given page size; `None` when the page size
    /// is zero.
    pub fn with_flags(flags: PosixFlags, page_size: usize) -> (r: Option<Platform>)
        ensures
            r is Some <==> page_size > 0,
            r matches Some(p) ==> p.wf() && p.flags == flags && p.page_size == page_size,
    {
        if page_size == 0 {
            None
        } else {
            Some(Platform { flags, page_size })
        }
    }
}

/// Whether a mapping must be opened on a writable file for copy-on-write
/// mappings. POSIX maps a file privately from a read-only descriptor.
pub open spec fn spec_needs_write_handle_for_copy() -> bool {
    false
}

/// Whether copy-on-write mappings need a writable file on this platform.
pub fn needs_write_handle_for_copy() -> (r: bool)
    ensures
        r == spec_needs_write_handle_for_copy(),
{
    false
}

impl Protection {
    /// Writes through the mapping are allowed.
    pub open spec fn spec_requires_write(self) -> bool {
        self is ReadWrite || self is ReadCopy
    }

    /// Code in the mapping may be executed.
    pub open spec fn spec_requires_execute(self) -> bool {
        self is ReadExecute
    }

    /// Writes through the mapping are private to it.
    pub open spec fn spec_is_private(self) -> bool {
        self is ReadCopy
    }

    pub open spec fn spec_open_mode(self) -> OpenMode {
        OpenMode {
            read: true,
            write: self is ReadWrite || (self is ReadCopy && spec_needs_write_handle_for_copy()),
        }
    }

    /// The `mmap` / `mprotect` protection bits for this protection.
    pub open spec fn prot_bits(self, f: PosixFlags) -> i32 {
        match self {
            Protection::Read => f.prot_read,
            Protection::ReadWrite => f.prot_read | f.prot_write,
            Protection::ReadCopy => f.prot_read | f.prot_write,
            Protection::ReadExecute => f.prot_read | f.prot_exec,
            Protection::NoAccess => f.prot_none,
        }
    }

    /// The `mmap` sharing flag for this protection.
    pub open spec fn share_bits(self, f: PosixFlags) -> i32 {
        if self is ReadCopy {
            f.map_private
        } else {
            f.map_shared
        }
    }

    /// Returns whether this protection allows writes (`ReadWrite`, `ReadCopy`).
    pub fn requires_write(self) -> (r: bool)
        ensures
            r == self.spec_requires_write(),
        no_unwind
    {
        match self {
            Protection::ReadWrite | Protection::ReadCopy => true,
            _ => false,
        }
    }

    /// Returns whether this protection allows execution (`ReadExecute`).
    pub fn requires_execute(self) -> (r: bool)
        ensures
            r == self.spec_requires_execute(),
    {
        match self {
            Protection::ReadExecute => true,
            _ => false,
        }
    }

    /// Returns whether writes through the mapping stay private to it.
    pub fn is_private(self) -> (r: bool)
        ensures
            r == self.spec_is_private(),
    {
        match self {
            Protection::ReadCopy => true,
            _ => false,
        }
    }

    /// The rights to open a file with before mapping it with this protection.
    pub fn open_mode(self) -> (r: OpenMode)
        ensures
            r == self.spec_open_mode(),
    {
        let write = match self {
            Protection::ReadWrite => true,
            Protection::ReadCopy => needs_write_handle_for_copy(),
            _ => false,
        };
        OpenMode { read: true, write }
    }

    /// Returns the protection as POSIX protection bits.
    pub fn as_prot(self, f: &PosixFlags) -> (r: i32)
        ensures
            r == self.prot_bits(*f),
    {
        match self {
            Protection::Read => f.prot_read,
            Protection::ReadWrite => f.prot_read | f.prot_write,
            Protection::ReadCopy => f.prot_read | f.prot_write,
            Protection::ReadExecute => f.prot_read | f.prot_exec,
            Protection::NoAccess => f.prot_none,
        }
    }

    /// Returns the protection as a POSIX sharing flag.
    pub fn as_flag(self, f: &PosixFlags) -> (r: i32)
        ensures
            r == self.share_bits(*f),
    {
        match self {
            Protection::ReadCopy => f.map_private,
            _ => f.map_shared,
        }
    }
}

/// A protection asks for the write bit exactly when it allows writes, for
/// the execute bit exactly when it allows execution, and for the read bit
/// unless it allows no access; it maps privately exactly when it is
/// copy-on-write.
pub proof fn lemma_prot_bits_match_rights(p: Protection, f: PosixFlags)
    requires
        f.wf(),
    ensures
        (p.prot_bits(f) & f.prot_write != 0) <==> p.spec_requires_write(),
        (p.prot_bits(f) & f.prot_exec != 0) <==> p.spec_requires_execute(),
        (p.prot_bits(f) & f.prot_read != 0) <==> !(p is NoAccess),
        (p.share_bits(f) == f.map_private) <==> p.spec_is_private(),
{
    let (r, w, x) = (f.prot_read, f.prot_write, f.prot_exec);
    assert((r | w) & w != 0 && (r | w) & x == 0 && (r | w) & r != 0) by (bit_vector)
        requires
            r != 0 && w != 0 && x != 0 && r & w == 0 && r & x == 0 && w & x == 0,
    ;
    assert((r | x) & w == 0 && (r | x) & x != 0 && (r | x) & r != 0) by (bit_vector)
        requires
            r != 0 && w != 0 && x != 0 && r & w == 0 && r & x == 0 && w & x == 0,
    ;
    assert(r & w == 0 && r & x == 0 && r & r != 0) by (bit_vector)
        requires
            r != 0 && r & w == 0 && r & x == 0,
    ;
    assert(0i32 & w == 0 && 0i32 & x == 0 && 0i32 & r == 0) by (bit_vector);
}

} // verus!
