//! A minimal I/O readiness notifier over the kernel's epoll facility, kept
//! free of system calls: `events` encodes and decodes readiness kinds,
//! `poller` holds the kernel handle and the watch mapping and decides, from
//! the outcome of each kernel call, what is returned and what changes, and
//! `error` carries system error numbers.

pub mod error;
pub mod events;
pub mod poller;
