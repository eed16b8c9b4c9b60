use poller::events::{Events, ERROR_BIT, READABLE_BIT, WRITABLE_BIT};

fn all_sets() -> Vec<Events> {
    let mut v = Vec::new();
    for bits in 0u32..8 {
        let mut e = Events::new();
        if bits & 1 != 0 {
            e = e.with_read();
        }
        if bits & 2 != 0 {
            e = e.with_write();
        }
        if bits & 4 != 0 {
            e = e.with_error();
        }
        v.push(e);
    }
    v
}

#[test]
fn bits_match_the_kernel() {
    assert_eq!(READABLE_BIT, libc::EPOLLIN as u32);
    assert_eq!(WRITABLE_BIT, libc::EPOLLOUT as u32);
    assert_eq!(ERROR_BIT, libc::EPOLLERR as u32);
}

#[test]
fn empty_set_has_no_kind() {
    let e = Events::new();
    assert!(!e.has_read());
    assert!(!e.has_write());
    assert!(!e.has_error());
    assert_eq!(e.to_mask(), 0);
}

#[test]
fn builders_add_one_kind_each() {
    let e = Events::new().with_read().with_error();
    assert!(e.has_read());
    assert!(!e.has_write());
    assert!(e.has_error());
    let w = Events::new().with_write();
    assert!(!w.has_read());
    assert!(w.has_write());
    assert!(!w.has_error());
}

#[test]
fn encode_gives_exact_bits() {
    assert_eq!(Events::new().with_read().to_mask(), 0x001);
    assert_eq!(Events::new().with_write().to_mask(), 0x004);
    assert_eq!(Events::new().with_error().to_mask(), 0x008);
    assert_eq!(Events::new().with_read().with_write().with_error().to_mask(), 0x00d);
    let m: u32 = Events::new().with_read().with_write().into();
    assert_eq!(m, 0x005);
}

#[test]
fn decode_ignores_unknown_bits() {
    let e = Events::from_mask(0xffff_ffff);
    assert!(e.has_read() && e.has_write() && e.has_error());
    let h = Events::from(libc::EPOLLHUP as u32 | libc::EPOLLIN as u32);
    assert!(h.has_read());
    assert!(!h.has_write());
    assert!(!h.has_error());
    assert_eq!(h.to_mask(), READABLE_BIT);
    assert_eq!(Events::from_mask(0x010).to_mask(), 0);
}

#[test]
fn decode_of_encode_keeps_every_set() {
    for s in all_sets() {
        let back = Events::from_mask(s.to_mask());
        assert_eq!(back.has_read(), s.has_read());
        assert_eq!(back.has_write(), s.has_write());
        assert_eq!(back.has_error(), s.has_error());
        assert_eq!(back, s);
    }
}

#[test]
fn encode_of_decode_keeps_recognized_masks() {
    for m in 0u32..16 {
        if m & !(READABLE_BIT | WRITABLE_BIT | ERROR_BIT) == 0 {
            assert_eq!(Events::from_mask(m).to_mask(), m);
        }
    }
}
