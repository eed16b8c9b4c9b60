use poller::error::{SysError, NOT_FOUND};
use poller::events::Events;
use poller::poller::{CtlOp, Poller, MAX_CAPACITY};

fn open_poller() -> Poller {
    Poller::new(7, 0).unwrap()
}

#[test]
fn not_found_matches_the_kernel() {
    assert_eq!(NOT_FOUND, libc::ENOENT);
    assert!(SysError::not_found().is_not_found());
    assert_eq!(SysError::from(libc::EEXIST).code(), libc::EEXIST);
}

#[test]
fn check_follows_the_kernel_convention() {
    assert_eq!(SysError::check(4, 0), Ok(4));
    assert_eq!(SysError::check(0, 9), Ok(0));
    assert_eq!(SysError::check(-1, libc::EBADF), Err(SysError::from_code(libc::EBADF)));
}

#[test]
fn new_owns_the_handle_and_watches_nothing() {
    let p = open_poller();
    assert_eq!(p.handle(), 7);
    assert!(p.is_open());
    assert!(p.is_empty());
    assert_eq!(p.len(), 0);
}

#[test]
fn new_reports_creation_failure() {
    let r = Poller::new(-1, libc::EMFILE);
    assert_eq!(r.unwrap_err().code(), libc::EMFILE);
}

#[test]
fn add_request_carries_mask_and_token() {
    let p = open_poller();
    let q = p.add_request(5, Events::new().with_read().with_write());
    assert_eq!(q.handle, 7);
    assert_eq!(q.op, CtlOp::Add);
    assert_eq!(q.fd, 5);
    assert_eq!(q.mask, 0x005);
    assert_eq!(q.token, 5);
}

#[test]
fn add_then_remove_changes_watched() {
    let mut p = open_poller();
    let e = Events::new().with_read();
    assert!(p.add(5, e, 0, 0).is_ok());
    assert!(p.contains(5));
    assert_eq!(p.interest(5), Some(e));
    let q = p.remove_request(5).unwrap();
    assert_eq!(q.op, CtlOp::Delete);
    assert_eq!(q.fd, 5);
    assert!(p.remove(5, 0, 0).is_ok());
    assert!(!p.contains(5));
    assert_eq!(p.interest(5), None);
}

#[test]
fn failed_add_leaves_mapping() {
    let mut p = open_poller();
    let e = Events::new().with_read();
    assert!(p.add(5, e, 0, 0).is_ok());
    let r = p.add(5, Events::new().with_write(), -1, libc::EEXIST);
    assert_eq!(r, Err(SysError::from_code(libc::EEXIST)));
    assert_eq!(p.len(), 1);
    assert_eq!(p.interest(5), Some(e));
}

#[test]
fn remove_unwatched_is_not_found() {
    let mut p = open_poller();
    assert!(p.remove_request(9).unwrap_err().is_not_found());
    let r = p.remove(9, 0, 0);
    assert!(r.unwrap_err().is_not_found());
    assert_eq!(p.len(), 0);
    assert!(p.add(5, Events::new(), 0, 0).is_ok());
    assert!(p.remove(5, 0, 0).is_ok());
    assert_eq!(p.remove(5, 0, 0), Err(SysError::not_found()));
    assert_eq!(p.len(), 0);
}

#[test]
fn failed_remove_keeps_entry() {
    let mut p = open_poller();
    assert!(p.add(5, Events::new().with_read(), 0, 0).is_ok());
    let r = p.remove(5, -1, libc::EBADF);
    assert_eq!(r.unwrap_err().code(), libc::EBADF);
    assert!(p.contains(5));
}

#[test]
fn add_remove_cycles_leave_size() {
    let mut p = open_poller();
    assert!(p.add(4, Events::new().with_write(), 0, 0).is_ok());
    for _ in 0..1000 {
        assert!(p.add(5, Events::new().with_read(), 0, 0).is_ok());
        assert_eq!(p.len(), 2);
        assert!(p.remove(5, 0, 0).is_ok());
        assert_eq!(p.len(), 1);
    }
    assert!(p.contains(4));
}

#[test]
fn test_poller() {
    let fd: i32 = 3;
    let mut p = open_poller();
    let read = Events::new().with_read();
    let q = p.add_request(fd, read);
    assert_eq!(p.add(fd, read, 0, 0).is_ok(), true);
    for _ in 0..1000 {
        let w = p.wait_request(1000);
        assert_eq!(w.capacity, 1);
        let ready = vec![(q.token, libc::EPOLLIN as u32)];
        assert_eq!(p.pull_events(1, 0, &ready).unwrap().len(), 1);
    }
    assert_eq!(p.remove(fd, 0, 0).is_ok(), true);
    for _ in 0..1000 {
        assert_eq!(p.add(fd, read, 0, 0).is_ok(), true);
        assert_eq!(p.remove(fd, 0, 0).is_ok(), true);
    }
}

#[test]
fn pull_reports_the_readable_descriptor() {
    let mut p = open_poller();
    let fd: i32 = 12;
    assert!(p.add(fd, Events::new().with_read(), 0, 0).is_ok());
    let q = p.add_request(fd, Events::new().with_read());
    let ready = vec![(q.token, libc::EPOLLIN as u32)];
    let out = p.pull_events(1, 0, &ready).unwrap();
    assert_eq!(out.len(), 1);
    assert_eq!(out[0].0, fd);
    assert!(out[0].1.has_read());
    assert!(!out[0].1.has_write());
}

#[test]
fn pull_takes_only_filled_reports_in_order() {
    let p = open_poller();
    let ready = vec![(8u64, 0x004u32), (3u64, 0x019u32), (6u64, 0x001u32)];
    let out = p.pull_events(2, 0, &ready).unwrap();
    assert_eq!(out.len(), 2);
    assert_eq!(out[0], (8, Events::new().with_write()));
    assert_eq!(out[1], (3, Events::new().with_read().with_error()));
    assert_eq!(p.pull_events(9, 0, &ready).unwrap().len(), 3);
}

#[test]
fn pull_keeps_negative_descriptor_tokens() {
    let p = open_poller();
    let q = p.add_request(-1, Events::new());
    assert_eq!(q.token, u64::MAX);
    let out = p.pull_events(1, 0, &vec![(q.token, 0)]).unwrap();
    assert_eq!(out[0].0, -1);
}

#[test]
fn pull_reports_wait_failure() {
    let p = open_poller();
    let r = p.pull_events(-1, libc::EINTR, &vec![(1u64, 1u32)]);
    assert_eq!(r, Err(SysError::from_code(libc::EINTR)));
}

#[test]
fn pull_with_nothing_watched_is_empty() {
    let p = open_poller();
    let w = p.wait_request(0);
    assert_eq!(w.timeout_ms, 0);
    assert_eq!(w.capacity, 1);
    assert_eq!(w.handle, 7);
    let out = p.pull_events(0, 0, &vec![(0u64, 0u32)]).unwrap();
    assert!(out.is_empty());
}

#[test]
fn wait_capacity_follows_mapping() {
    let mut p = open_poller();
    for fd in 0..5 {
        assert!(p.add(fd, Events::new().with_read(), 0, 0).is_ok());
    }
    assert_eq!(p.wait_request(-1).capacity, 5);
    assert_eq!(p.wait_request(-1).timeout_ms, -1);
    assert_eq!(MAX_CAPACITY, i32::MAX);
}

#[test]
fn release_hands_out_handle_once() {
    let mut p = open_poller();
    assert!(p.add(5, Events::new().with_read(), 0, 0).is_ok());
    assert_eq!(p.release(), Some(7));
    assert!(!p.is_open());
    assert!(p.is_empty());
    assert_eq!(p.release(), None);
}

#[test]
fn release_without_handle_does_nothing() {
    let mut p = Poller::default();
    assert_eq!(p.handle(), -1);
    assert_eq!(p.release(), None);
    assert_eq!(p.handle(), -1);
}

#[test]
fn error_message_is_not_empty() {
    assert!(!SysError::from_code(libc::ENOENT).message().is_empty());
}
