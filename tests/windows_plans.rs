use memmap::windows::{map_anon, map_copy, map_exec, map_mut, new, page_protection, virtual_protect, WinFlags};
use memmap::{MmapError, Platform, Protection};

fn win() -> WinFlags {
    WinFlags {
        page_noaccess: 0x01,
        page_readonly: 0x02,
        page_readwrite: 0x04,
        page_writecopy: 0x08,
        page_execute_read: 0x20,
        page_execute_readwrite: 0x40,
        page_execute_writecopy: 0x80,
        file_map_read: 0x4,
        file_map_write: 0x2,
        file_map_copy: 0x1,
        file_map_execute: 0x20,
        file_map_all_access: 0xf001f,
    }
}

#[test]
fn read_view_is_created_widest_then_narrowed() {
    let f = win();
    let p = memmap::windows::map(&f, true, true);
    assert_eq!((p.protect, p.access, p.reprotect), (0x40, 0x4 | 0x2 | 0x20, Some(0x02)));
    let p = memmap::windows::map(&f, true, false);
    assert_eq!((p.protect, p.access, p.reprotect), (0x04, 0x4 | 0x2, Some(0x02)));
    let p = memmap::windows::map(&f, false, true);
    assert_eq!((p.protect, p.access, p.reprotect), (0x20, 0x4 | 0x20, Some(0x02)));
    let p = memmap::windows::map(&f, false, false);
    assert_eq!((p.protect, p.access, p.reprotect), (0x02, 0x4, None));
    assert_eq!(p.protection, Protection::Read);
}

#[test]
fn exec_mut_copy_views() {
    let f = win();
    let e = map_exec(&f, true);
    assert_eq!((e.protect, e.access, e.reprotect), (0x40, 0x4 | 0x20 | 0x2, Some(0x20)));
    let e = map_exec(&f, false);
    assert_eq!((e.protect, e.access, e.reprotect), (0x20, 0x4 | 0x20, None));
    let m = map_mut(&f, true);
    assert_eq!((m.protect, m.access, m.reprotect), (0x40, 0x4 | 0x2 | 0x20, Some(0x04)));
    let m = map_mut(&f, false);
    assert_eq!((m.protect, m.access, m.reprotect), (0x04, 0x4 | 0x2, None));
    let c = map_copy(&f, true);
    assert_eq!((c.protect, c.access, c.reprotect, c.copy), (0x80, 0x1 | 0x20, Some(0x08), true));
    let c = map_copy(&f, false);
    assert_eq!((c.protect, c.access, c.reprotect, c.copy), (0x08, 0x1, None, true));
}

#[test]
fn view_offset_is_split_into_halves() {
    let f = win();
    let offset: usize = 0x2_0001_3456;
    let c = new(memmap::windows::map(&f, false, false), offset, 100, 65536).unwrap();
    assert_eq!(c.offset_high, 2);
    assert_eq!(c.offset_low, 0x0001_0000);
    assert_eq!(c.alignment, 0x3456);
    assert_eq!(c.len, 100 + 0x3456);
    assert_eq!((c.size_high, c.size_low), (0, 0));
    assert_eq!(new(memmap::windows::map(&f, false, false), 0, 0, 65536).err(), Some(MmapError::ZeroLengthMapping));
    assert_eq!(new(memmap::windows::map(&f, false, false), 65535, usize::MAX, 65536).err(), Some(MmapError::Overflow));
}

#[test]
fn anonymous_view() {
    let f = win();
    let c = map_anon(&f, 0x1_0000_0010).unwrap();
    assert_eq!((c.size_high, c.size_low), (1, 0x10));
    assert_eq!(c.protect, 0x40);
    assert_eq!(c.access, 0xf001f | 0x20);
    assert_eq!(c.reprotect, Some(0x04));
    assert_eq!(map_anon(&f, 0).err(), Some(MmapError::ZeroLengthMapping));
}

#[test]
fn copy_views_reprotect_as_copies() {
    let f = win();
    assert_eq!(page_protection(&f, true, Protection::ReadExecute), 0x80);
    assert_eq!(page_protection(&f, false, Protection::ReadExecute), 0x20);
    assert_eq!(page_protection(&f, true, Protection::ReadCopy), 0x08);
    assert_eq!(page_protection(&f, false, Protection::ReadWrite), 0x04);
    assert_eq!(page_protection(&f, false, Protection::Read), 0x02);
    let c = new(map_copy(&f, false), 70000, 10, 65536).unwrap();
    let inner = c.establish(Ok(0x10_0000)).unwrap();
    assert_eq!(inner.ptr(), 0x10_0000 + 70000 - 65536);
    let call = virtual_protect(&inner, Protection::ReadExecute, &f).unwrap();
    assert_eq!((call.addr, call.len, call.protect), (0x10_0000, 10 + 70000 - 65536, 0x80));
    assert_eq!(
        virtual_protect(&inner, Protection::ReadWrite, &f).err(),
        Some(MmapError::InvalidProtectionTransition)
    );
    let flush = memmap::windows::flush(&inner, 2, 5, true);
    assert_eq!((flush.addr, flush.len, flush.sync_file), (0x10_0000 + 70000 - 65536 + 2, 5, true));
}

#[test]
fn platform_plans_are_independent_of_windows_flags() {
    let pf = Platform::host(65536).unwrap();
    let call = memmap::options::file(200000).offset(70000).len(10).map(&pf).unwrap();
    assert_eq!(call.offset(), 65536);
}
