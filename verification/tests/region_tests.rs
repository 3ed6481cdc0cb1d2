use pages::{
    next_page_boundary, windows_protection, AllowExec, AllowRead, AllowWrite, DenyExec, DenyRead,
    DenyWrite, ExecPremisionMarker, Pages, PagesError, ReadPremisionMarker, WritePremisionMarker,
    PAGE_EXECUTE, PAGE_EXECUTE_READ, PAGE_EXECUTE_READWRITE, PAGE_NOACCESS, PAGE_READONLY,
    PAGE_READWRITE, PAGE_SIZE,
};

#[test]
fn test_alloc_rwe() {
    let _pages: Pages<AllowRead, AllowWrite, AllowExec> = Pages::new(256);
}

#[test]
fn test_alloc_rw() {
    let _pages: Pages<AllowRead, AllowWrite, DenyExec> = Pages::new(256);
}

#[test]
fn test_alloc_r() {
    let _pages: Pages<AllowRead, DenyWrite, DenyExec> = Pages::new(256);
}

#[test]
fn test_alloc_e() {
    let _pages: Pages<DenyRead, DenyWrite, AllowExec> = Pages::new(256);
}

#[test]
fn test_alloc_re() {
    let _pages: Pages<AllowRead, DenyWrite, AllowExec> = Pages::new(256);
}

#[test]
fn test_acces_rw() {
    let mut pages: Pages<AllowRead, AllowWrite, DenyExec> = Pages::new(256);
    for i in 0..256 {
        pages.write(i, i as u8);
    }
    for i in 0..256 {
        assert_eq!(pages.read(i), i as u8);
    }
}

#[test]
fn test_acces_r() {
    let pages: Pages<AllowRead, DenyWrite, DenyExec> = Pages::new(256);
    for i in 0..256 {
        assert_eq!(pages.read(i), 0);
    }
}

#[test]
fn test_allow_read() {}

#[test]
fn region_length_is_page_rounded() {
    let a: Pages<AllowRead, AllowWrite, DenyExec> = Pages::new(0x8000);
    assert_eq!(a.len(), 0x8000);
    let b: Pages<AllowRead, AllowWrite, DenyExec> = Pages::new(0x1234);
    assert_eq!(b.len(), 0x2000);
    let c: Pages<AllowRead, DenyWrite, DenyExec> = Pages::new(1);
    assert_eq!(c.len(), PAGE_SIZE);
    let d: Pages<DenyRead, DenyWrite, DenyExec> = Pages::new(256);
    assert_eq!(d.len(), PAGE_SIZE);
    assert_eq!(d.len() % PAGE_SIZE, 0);
}

#[test]
fn zero_length_region_is_refused() {
    let r: Result<Pages<AllowRead, AllowWrite, DenyExec>, PagesError> = Pages::try_new(0);
    assert_eq!(r.err(), Some(PagesError::InvalidSize));
    let r: Result<Pages<DenyRead, DenyWrite, AllowExec>, PagesError> = Pages::try_new(0);
    assert_eq!(r.err(), Some(PagesError::InvalidSize));
}

#[test]
fn nonzero_length_region_is_granted() {
    let r: Result<Pages<AllowRead, DenyWrite, DenyExec>, PagesError> = Pages::try_new(256);
    let p = r.ok().expect("a nonzero request is granted");
    assert_eq!(p.len(), PAGE_SIZE);
}

#[test]
fn relabel_to_current_state_issues_no_protect_call() {
    let pages: Pages<AllowRead, AllowWrite, DenyExec> = Pages::new(256);
    assert_eq!(pages.protection_calls(), 0);
    let pages = pages.allow_write();
    assert_eq!(pages.protection_calls(), 0);
    let pages = pages.allow_read();
    assert_eq!(pages.protection_calls(), 0);
    let pages = pages.deny_exec();
    assert_eq!(pages.protection_calls(), 0);
    let pages = pages.allow_write_no_exec();
    assert_eq!(pages.protection_calls(), 0);
}

#[test]
fn relabel_to_current_state_leaves_bytes_unchanged() {
    let mut pages: Pages<AllowRead, AllowWrite, DenyExec> = Pages::new(256);
    for i in 0..256 {
        pages.write(i, (i * 3) as u8);
    }
    let pages = pages.allow_write();
    for i in 0..256 {
        assert_eq!(pages.read(i), (i * 3) as u8);
    }
}

#[test]
fn changed_state_issues_exactly_one_protect_call() {
    let pages: Pages<AllowRead, AllowWrite, DenyExec> = Pages::new(256);
    let pages = pages.deny_write();
    assert_eq!(pages.protection_calls(), 1);
    let pages = pages.allow_write();
    assert_eq!(pages.protection_calls(), 2);
    let pages = pages.allow_exec();
    assert_eq!(pages.protection_calls(), 3);
    let pages = pages.set_protected_exec();
    assert_eq!(pages.protection_calls(), 4);
    let pages = pages.deny_read();
    assert_eq!(pages.protection_calls(), 5);
}

#[test]
fn written_pattern_survives_write_protection() {
    let mut pages: Pages<AllowRead, AllowWrite, DenyExec> = Pages::new(512);
    for i in 0..512 {
        pages.write(i, (i * 7) as u8);
    }
    let pages = pages.deny_write();
    for i in 0..512 {
        assert_eq!(pages.read(i), (i * 7) as u8);
    }
}

#[test]
fn posix_bit_contributions() {
    assert_eq!(<AllowRead as ReadPremisionMarker>::bitmask(), 0x1);
    assert_eq!(<DenyRead as ReadPremisionMarker>::bitmask(), 0);
    assert_eq!(<AllowWrite as WritePremisionMarker>::bitmask(), 0x2);
    assert_eq!(<DenyWrite as WritePremisionMarker>::bitmask(), 0);
    assert_eq!(<AllowExec as ExecPremisionMarker>::bitmask(), 0x4);
    assert_eq!(<DenyExec as ExecPremisionMarker>::bitmask(), 0);
    assert!(<AllowRead as ReadPremisionMarker>::allow_read());
    assert!(!<DenyRead as ReadPremisionMarker>::allow_read());
    assert!(<AllowWrite as WritePremisionMarker>::allow_write());
    assert!(!<DenyWrite as WritePremisionMarker>::allow_write());
    assert!(<AllowExec as ExecPremisionMarker>::allow_exec());
    assert!(!<DenyExec as ExecPremisionMarker>::allow_exec());
}

#[test]
fn windows_protection_table_entries() {
    assert_eq!(windows_protection(false, false, false), PAGE_NOACCESS);
    assert_eq!(windows_protection(true, false, false), PAGE_READONLY);
    assert_eq!(windows_protection(false, true, false), PAGE_READWRITE);
    assert_eq!(windows_protection(true, true, false), PAGE_READWRITE);
    assert_eq!(windows_protection(false, false, true), PAGE_EXECUTE);
    assert_eq!(windows_protection(true, false, true), PAGE_EXECUTE_READ);
    assert_eq!(windows_protection(false, true, true), PAGE_EXECUTE_READWRITE);
    assert_eq!(windows_protection(true, true, true), PAGE_EXECUTE_READWRITE);
}

#[test]
fn page_boundary_rounding() {
    assert_eq!(next_page_boundary(1), 0x1000);
    assert_eq!(next_page_boundary(0x1000), 0x1000);
    assert_eq!(next_page_boundary(0x1001), 0x2000);
    assert_eq!(next_page_boundary(0x1234), 0x2000);
    assert_eq!(next_page_boundary(0), 0);
}
