//! A cross-platform engine for memory maps.
//!
//! The library decides everything that surrounds the operating system's
//! mapping calls: which flags a protection level asks for, how a requested
//! file offset is aligned to the page granularity, which requests are
//! refused before any call is made, what state a mapping is in after a call
//! succeeded, and when a mapping shared by several views may be unmapped.
//! Each decision is a verified function that hands back the exact call to
//! perform (`MapCall`, `FlushCall`, `ProtectCall`, `UnmapCall`); the caller
//! performs it and passes the outcome back.
pub mod error;
pub mod inner;
pub mod layout;
pub mod mmap;
pub mod mmap_sliver;
pub mod options;
pub mod protection;
pub mod windows;

pub use error::MmapError;
pub use inner::{FlushCall, MapCall, MapPlan, MmapInner, ProtectCall, Region, UnmapCall};
pub use layout::Placement;
pub use mmap::{Mmap, MmapMut};
pub use mmap_sliver::{carve, carve_allowed, split_at, MmapSliver, SharedMapping, Window};
pub use options::{anonymous, AnonymousMmapOptions, FileMmapOptions};
pub use protection::{OpenMode, Platform, PosixFlags, Protection};
