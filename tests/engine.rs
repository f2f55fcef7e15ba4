use memmap::layout::place;
use memmap::mmap_sliver::{split_at, SharedMapping};
use memmap::protection::needs_write_handle_for_copy;
use memmap::{anonymous, carve, carve_allowed, MmapError, MmapInner, OpenMode, Platform, PosixFlags, Protection, UnmapCall};

fn platform() -> Platform {
    Platform::host(4096).unwrap()
}

#[test]
fn host_flags_are_libc_values() {
    let pf = platform();
    assert_eq!(pf.page_size, 4096);
    assert_eq!(pf.flags.prot_none, 0);
    assert_eq!(pf.flags.prot_read, 1);
    assert_eq!(pf.flags.prot_write, 2);
    assert_eq!(pf.flags.prot_exec, 4);
    assert_eq!(pf.flags.map_shared, 1);
    assert_eq!(pf.flags.map_private, 2);
    assert_eq!(pf.flags.map_anon, 0x20);
    assert_eq!(pf.flags.map_stack, 0x20000);
    assert_eq!(pf.flags.ms_async, 1);
    assert_eq!(pf.flags.ms_sync, 4);
}

#[test]
fn zero_page_size_is_refused() {
    assert!(Platform::host(0).is_none());
    let f = platform().flags;
    assert!(Platform::with_flags(f, 0).is_none());
    assert_eq!(Platform::with_flags(f, 65536).unwrap().page_size, 65536);
}

#[test]
fn protection_bits_and_flags() {
    let f = platform().flags;
    assert_eq!(Protection::Read.as_prot(&f), 1);
    assert_eq!(Protection::ReadWrite.as_prot(&f), 3);
    assert_eq!(Protection::ReadCopy.as_prot(&f), 3);
    assert_eq!(Protection::ReadExecute.as_prot(&f), 5);
    assert_eq!(Protection::NoAccess.as_prot(&f), 0);
    assert_eq!(Protection::ReadCopy.as_flag(&f), 2);
    assert_eq!(Protection::ReadWrite.as_flag(&f), 1);
    assert_eq!(Protection::Read.as_flag(&f), 1);
}

#[test]
fn protection_rights() {
    assert!(Protection::ReadWrite.requires_write());
    assert!(Protection::ReadCopy.requires_write());
    assert!(!Protection::Read.requires_write());
    assert!(!Protection::ReadExecute.requires_write());
    assert!(!Protection::NoAccess.requires_write());
    assert!(Protection::ReadExecute.requires_execute());
    assert!(!Protection::ReadWrite.requires_execute());
    assert!(Protection::ReadCopy.is_private());
    assert!(!Protection::ReadWrite.is_private());
    assert!(!needs_write_handle_for_copy());
    assert_eq!(Protection::ReadWrite.open_mode(), OpenMode { read: true, write: true });
    assert_eq!(Protection::ReadCopy.open_mode(), OpenMode { read: true, write: false });
    assert_eq!(Protection::Read.open_mode(), OpenMode { read: true, write: false });
}

#[test]
fn placement_rounds_down() {
    let p = place(5099, 50050, 4096).unwrap();
    assert_eq!(p.alignment, 1003);
    assert_eq!(p.aligned_start, 4096);
    assert_eq!(p.aligned_len, 51053);
    let q = place(8192, 10, 4096).unwrap();
    assert_eq!(q.alignment, 0);
    assert_eq!(q.aligned_start, 8192);
    assert_eq!(q.aligned_len, 10);
    assert!(place(4095, usize::MAX, 4096).is_none());
}

#[test]
fn anonymous_stack_and_protection() {
    let pf = platform();
    let call = anonymous(4096).protection(Protection::ReadCopy).stack().map_mut(&pf).unwrap();
    assert_eq!(call.flags(), 2 | 0x20 | 0x20000);
    assert_eq!(call.protection(), Protection::ReadCopy);
}

#[test]
fn anonymous_refusals() {
    let pf = platform();
    assert_eq!(anonymous(0).map_mut(&pf).err(), Some(MmapError::ZeroLengthMapping));
    assert_eq!(anonymous(128).protection(Protection::Read).map_mut(&pf).err(), Some(MmapError::NotWritable));
    assert_eq!(
        anonymous(128).protection(Protection::ReadExecute).map_mut(&pf).err(),
        Some(MmapError::NotWritable)
    );
}

#[test]
fn file_refusals() {
    let pf = platform();
    assert_eq!(memmap::options::file(128).protection(Protection::Read).map_mut(&pf).err(), Some(MmapError::NotWritable));
    assert_eq!(memmap::options::file(100).offset(200).map(&pf).err(), Some(MmapError::ZeroLengthMapping));
    assert_eq!(memmap::options::file(100).offset(100).map(&pf).err(), Some(MmapError::ZeroLengthMapping));
    assert_eq!(memmap::options::file(100).len(0).map(&pf).err(), Some(MmapError::ZeroLengthMapping));
    assert_eq!(memmap::options::file(10).offset(4095).len(usize::MAX).map(&pf).err(), Some(MmapError::Overflow));
    assert_eq!(memmap::options::file(10).offset(usize::MAX).len(10).map(&pf).err(), Some(MmapError::Overflow));
}

#[test]
fn file_window_defaults_to_rest_of_file() {
    let pf = platform();
    let call = memmap::options::file(10000).offset(5000).map(&pf).unwrap();
    assert_eq!(call.offset(), 4096);
    assert_eq!(call.len(), 5000 + 904);
    assert_eq!(call.protection(), Protection::Read);
    let mmap = call.finish(Ok(0x1000)).unwrap();
    assert_eq!(mmap.len(), 5000);
    assert_eq!(mmap.ptr(), 0x1000 + 904);
}

#[test]
fn os_failure_is_reported() {
    let pf = platform();
    let call = memmap::options::file(128).map(&pf).unwrap();
    assert_eq!(call.finish(Err(12)).err(), Some(MmapError::OsMappingFailed(12)));
}

#[test]
fn protection_transitions() {
    let pf = platform();
    let mut shared = memmap::options::file(128).map_mut(&pf).unwrap().finish_mut(Ok(0x1000)).unwrap();
    assert_eq!(shared.protect_call(Protection::ReadCopy, &pf).err(), Some(MmapError::InvalidProtectionTransition));
    assert_eq!(shared.set_protection(Protection::ReadCopy, Ok(())), Err(MmapError::InvalidProtectionTransition));
    assert_eq!(shared.protect_call(Protection::Read, &pf).err(), Some(MmapError::NotWritable));
    assert_eq!(shared.set_protection(Protection::ReadWrite, Err(13)), Err(MmapError::OsCallFailed(13)));
    assert_eq!(shared.protection(), Protection::ReadWrite);
    let private = memmap::options::file(128).protection(Protection::ReadCopy).map_mut(&pf).unwrap().finish_mut(Ok(0x2000)).unwrap();
    assert_eq!(
        private.make_read_only_call(Protection::ReadWrite, &pf).err(),
        Some(MmapError::InvalidProtectionTransition)
    );
    let ro = private.make_read_only(Protection::Read, Ok(())).unwrap();
    assert_eq!(ro.protection(), Protection::Read);
    assert_eq!(ro.make_mut_call(Protection::Read, &pf).err(), Some(MmapError::NotWritable));
    let back = ro.make_mut(Protection::ReadCopy, Ok(())).unwrap();
    assert_eq!(back.protection(), Protection::ReadCopy);
}

#[test]
fn make_mut_refuses_read_only_protection() {
    let pf = platform();
    let ro = memmap::options::file(128).map(&pf).unwrap().finish(Ok(0x3000)).unwrap();
    assert_eq!(ro.make_mut(Protection::ReadExecute, Ok(())).err(), Some(MmapError::NotWritable));
}

#[test]
fn reprotect_keeps_bytes_in_place() {
    let pf = platform();
    let mut m = anonymous(8192).map_mut(&pf).unwrap().finish_mut(Ok(0x4000)).unwrap();
    let ptr = m.ptr();
    assert_eq!(m.set_protection(Protection::ReadWrite, Ok(())), Ok(()));
    let ro = m.make_read_only(Protection::Read, Ok(())).unwrap();
    assert_eq!(ro.ptr(), ptr);
    assert_eq!(ro.len(), 8192);
    assert_eq!(ro.unmap_call(), UnmapCall { addr: 0x4000, len: 8192 });
}

#[test]
fn async_flushes() {
    let pf = platform();
    let m = memmap::options::file(10000).offset(100).map_mut(&pf).unwrap().finish_mut(Ok(0x10000)).unwrap();
    let f = m.flush_async(&pf);
    assert_eq!((f.addr, f.len, f.flags), (0x10000, 9900 + 100, pf.flags.ms_async));
    let g = m.flush_async_range(5000, 10, &pf);
    assert_eq!(g.addr, 0x10000 + 4096);
    assert_eq!(g.len, 10 + (100 + 5000 - 4096));
    assert_eq!(g.flags, pf.flags.ms_async);
}

#[test]
fn split_views_share_the_mapping() {
    let pf = platform();
    let m = anonymous(100).map_mut(&pf).unwrap().finish_mut(Ok(0x1000)).unwrap();
    let (mut shared, left, right) = split_at(m, 40);
    assert_eq!((left.offset(), left.len()), (0, 40));
    assert_eq!((right.offset(), right.len()), (40, 60));
    assert_eq!(left.ptr(&shared), 0x1000);
    assert_eq!(right.ptr(&shared), 0x1000 + 40);
    let f = right.flush_async(&shared, &pf);
    assert_eq!((f.addr, f.len, f.flags), (0x1000, 100, pf.flags.ms_async));
    assert!(shared.holds(&left) && shared.holds(&right));
    assert_eq!(shared.remaining(), 2);
    assert_eq!(shared.release(right), None);
    assert_eq!(shared.remaining(), 1);
    assert_eq!(shared.release(left), Some(UnmapCall { addr: 0x1000, len: 100 }));
    assert_eq!(shared.remaining(), 0);
}

fn release_in(order: &[usize]) -> Vec<Option<UnmapCall>> {
    let pf = platform();
    let m = anonymous(300).map_mut(&pf).unwrap().finish_mut(Ok(0x8000)).unwrap();
    let (mut shared, views): (SharedMapping, _) = carve(m, vec![(0, 100), (100, 100), (200, 100)]);
    let mut views: Vec<Option<_>> = views.into_iter().map(Some).collect();
    order.iter().map(|&i| shared.release(views[i].take().unwrap())).collect()
}

#[test]
fn views_unmap_exactly_once_in_any_order() {
    let orders: [[usize; 3]; 6] = [[0, 1, 2], [0, 2, 1], [1, 0, 2], [1, 2, 0], [2, 0, 1], [2, 1, 0]];
    for order in orders.iter() {
        let r = release_in(order);
        assert_eq!(r[0], None);
        assert_eq!(r[1], None);
        assert_eq!(r[2], Some(UnmapCall { addr: 0x8000, len: 300 }));
    }
}

#[test]
fn carve_checks_ranges() {
    assert!(carve_allowed(128, &vec![(0, 10), (10, 10), (100, 28)]));
    assert!(!carve_allowed(128, &vec![(0, 10), (5, 10)]));
    assert!(!carve_allowed(128, &vec![(120, 10)]));
    assert!(!carve_allowed(128, &vec![(usize::MAX, 2)]));
    assert!(carve_allowed(128, &vec![(5, 0), (0, 10)]));
    assert!(carve_allowed(128, &vec![]));
}

#[test]
fn flags_record_is_used_as_given() {
    let f = PosixFlags {
        prot_none: 0,
        prot_read: 0x10,
        prot_write: 0x100,
        prot_exec: 0x1000,
        map_shared: 7,
        map_private: 8,
        map_anon: 0x40,
        map_stack: 0x80,
        ms_sync: 3,
        ms_async: 9,
    };
    let pf = Platform::with_flags(f, 16).unwrap();
    let call = anonymous(32).stack().map_mut(&pf).unwrap();
    assert_eq!(call.prot(), 0x110);
    assert_eq!(call.flags(), 7 | 0x40 | 0x80);
    let call = memmap::options::file(64).offset(20).map(&pf).unwrap();
    assert_eq!(call.offset(), 16);
    assert_eq!(call.len(), 48);
}

#[test]
fn backend_open_and_anonymous() {
    let pf = platform();
    let call = MmapInner::open(Protection::ReadCopy, 4097, 10, &pf).unwrap();
    assert_eq!((call.offset(), call.len(), call.prot(), call.flags()), (4096, 11, 3, 2));
    assert_eq!(MmapInner::open(Protection::Read, 4097, 0, &pf).err(), Some(MmapError::ZeroLengthMapping));
    let call = MmapInner::anonymous(64, Protection::ReadWrite, true, &pf).unwrap();
    assert_eq!((call.len(), call.flags(), call.offset()), (64, 1 | 0x20 | 0x20000, 0));
    assert_eq!(MmapInner::anonymous(0, Protection::ReadWrite, false, &pf).err(), Some(MmapError::ZeroLengthMapping));
    let inner = call.establish(Ok(0x9000)).unwrap();
    let f = inner.flush(10, 20, &pf);
    assert_eq!((f.addr, f.len, f.flags), (0x9000, 30, 4));
    let g = inner.flush_async(0, 64, &pf);
    assert_eq!((g.addr, g.len, g.flags), (0x9000, 64, 1));
}
