use memmap::{anonymous, carve, MmapError, Platform, Protection};

fn platform() -> Platform {
    Platform::host(4096).unwrap()
}

#[test]
fn map_file() {
    let expected_len = 128;
    let pf = platform();
    let call = memmap::options::file(expected_len as u64).map_mut(&pf).unwrap();
    assert_eq!(call.len(), expected_len);
    assert_eq!(call.prot(), 3);
    assert_eq!(call.flags(), 1);
    assert_eq!(call.offset(), 0);
    assert!(call.file_backed());
    let mmap = call.finish_mut(Ok(0x10000)).unwrap();
    let len = mmap.len();
    assert_eq!(expected_len, len);
    assert_eq!(mmap.ptr(), 0x10000);
    assert_eq!(mmap.protection(), Protection::ReadWrite);
}

#[test]
fn map_empty_file() {
    let pf = platform();
    let mmap = memmap::options::file(0).map(&pf);
    assert!(mmap.is_err());
    assert_eq!(mmap.err(), Some(MmapError::ZeroLengthMapping));
}

#[test]
fn map_anon() {
    let expected_len = 128;
    let pf = platform();
    let call = anonymous(expected_len).map_mut(&pf).unwrap();
    assert_eq!(call.len(), 128);
    assert_eq!(call.prot(), 3);
    assert_eq!(call.flags(), 1 | 0x20);
    assert!(!call.file_backed());
    let mmap = call.finish_mut(Ok(0x20000)).unwrap();
    let len = mmap.len();
    assert_eq!(expected_len, len);
}

#[test]
fn file_write() {
    let pf = platform();
    let mmap = memmap::options::file(128).map_mut(&pf).unwrap().finish_mut(Ok(0x30000)).unwrap();
    let flush = mmap.flush(&pf);
    assert_eq!(flush.addr, 0x30000);
    assert_eq!(flush.len, 128);
    assert_eq!(flush.flags, pf.flags.ms_sync);
}

#[test]
fn flush_range() {
    let pf = platform();
    let write = b"abc123";
    let call = memmap::options::file(128).offset(2).len(write.len()).map_mut(&pf).unwrap();
    assert_eq!(call.len(), 8);
    assert_eq!(call.offset(), 0);
    let mmap = call.finish_mut(Ok(0x7000)).unwrap();
    assert_eq!(mmap.ptr(), 0x7002);
    assert_eq!(mmap.len(), 6);
    let flush = mmap.flush_range(0, write.len(), &pf);
    assert_eq!(flush.addr, 0x7000);
    assert_eq!(flush.len, 8);
    assert_eq!(flush.flags, pf.flags.ms_sync);
}

#[test]
fn map_copy() {
    let pf = platform();
    let call = memmap::options::file(128).protection(Protection::ReadCopy).map_mut(&pf).unwrap();
    assert_eq!(call.flags(), 2);
    assert_eq!(call.prot(), 3);
    let mmap = call.finish_mut(Ok(0x40000)).unwrap();
    assert_eq!(mmap.protection(), Protection::ReadCopy);
    // another mapping of the same file is shared and read-only
    let call2 = memmap::options::file(128).map(&pf).unwrap();
    assert_eq!(call2.flags(), 1);
    assert_eq!(call2.prot(), 1);
}

#[test]
fn map_offset() {
    let pf = platform();
    let offset = 5099;
    let len = 50050;
    let call = memmap::options::file(500000).offset(offset).len(len).map_mut(&pf).unwrap();
    assert_eq!(call.offset(), 4096);
    assert_eq!(call.len(), 51053);
    let mmap = call.finish_mut(Ok(0x100000)).unwrap();
    assert_eq!(len, mmap.len());
    assert_eq!(mmap.ptr(), 0x100000 + 1003);
}

#[test]
fn jit_x86() {
    let pf = platform();
    let mmap = anonymous(4096).map_mut(&pf).unwrap().finish_mut(Ok(0x50000)).unwrap();
    let call = mmap.make_read_only_call(Protection::ReadExecute, &pf).unwrap();
    assert_eq!(call.prot, 5);
    assert_eq!(call.addr, 0x50000);
    assert_eq!(call.len, 4096);
    let mmap = mmap.make_read_only(Protection::ReadExecute, Ok(())).unwrap();
    assert_eq!(mmap.protection(), Protection::ReadExecute);
}

#[test]
fn offset_set_protection() {
    let pf = platform();
    let offset = 5099;
    let len = 50050;
    let mmap = memmap::options::file(500000).offset(offset).len(len).map_mut(&pf).unwrap().finish_mut(Ok(0x200000)).unwrap();
    assert_eq!(len, mmap.len());
    let call = mmap.make_read_only_call(Protection::Read, &pf).unwrap();
    assert_eq!(call.addr, 0x200000);
    assert_eq!(call.len, 51053);
    assert_eq!(call.prot, 1);
    let mmap = mmap.make_read_only(Protection::Read, Ok(())).unwrap();
    assert_eq!(mmap.len(), len);
    assert_eq!(mmap.ptr(), 0x200000 + 1003);
    assert_eq!(mmap.protection(), Protection::Read);
}

#[test]
fn carve_mmap() {
    let expected_len = 128;
    let pf = platform();
    let mmap = anonymous(expected_len).map_mut(&pf).unwrap().finish_mut(Ok(0x60000)).unwrap();
    let (shared, slivers) = carve(mmap, vec![(10, 10)]);
    assert_eq!(slivers.len(), 1);
    let sliver = &slivers[0];
    assert_eq!(sliver.len(), 10);
    assert_eq!(sliver.ptr(&shared), 0x6000a);
    let flush = sliver.flush(&shared, &pf);
    assert_eq!(flush.addr, 0x60000);
    assert_eq!(flush.len, 20);
    assert_eq!(flush.flags, pf.flags.ms_sync);
}
