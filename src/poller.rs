use vstd::prelude::*;

use crate::error::{outcome, SysError, NOT_FOUND};
use crate::events::Events;
use std::collections::HashMap;

verus! {

broadcast use vstd::std_specs::hash::group_hash_axioms;

/// The largest value a capacity passed to the kernel can take.
pub const MAX_CAPACITY: i32 = 0x7fff_ffff;

/// What a `Poller` holds, in specifications: its kernel handle (negative when
/// it holds none) and the descriptors it watches, each with the kinds of
/// readiness asked for.
pub struct PollerView {
    pub handle: i32,
    pub watched: Map<i32, Events>,
}

/// The state after registering `fd` for `events`, given the outcome of the
/// kernel's "add" request: the mapping gains the entry only on success.
pub open spec fn add_step(v: PollerView, fd: i32, events: Events, ret: i32, errno: i32) -> (
    Result<(), SysError>,
    PollerView,
) {
    match outcome(ret, errno) {
        Ok(_) => (Ok(()), PollerView { watched: v.watched.insert(fd, events), ..v }),
        Err(e) => (Err(e), v),
    }
}

/// The state after deregistering `fd`, given the outcome of the kernel's
/// "delete" request: an unwatched descriptor is "not found" (no request is
/// made for it); otherwise the entry goes only on success.
pub open spec fn remove_step(v: PollerView, fd: i32, ret: i32, errno: i32) -> (
    Result<(), SysError>,
    PollerView,
) {
    if !v.watched.contains_key(fd) {
        (Err(SysError::from_errno(NOT_FOUND)), v)
    } else {
        match outcome(ret, errno) {
            Ok(_) => (Ok(()), PollerView { watched: v.watched.remove(fd), ..v }),
            Err(e) => (Err(e), v),
        }
    }
}

/// The handle to close when a poller is torn down, and the state after:
/// a held handle is handed out once and forgotten with every registration;
/// without one nothing happens.
pub open spec fn release_step(v: PollerView) -> (Option<i32>, PollerView) {
    if v.handle >= 0 {
        (Some(v.handle), PollerView { handle: -1i32, watched: Map::empty() })
    } else {
        (None, v)
    }
}

/// The number of result slots a wait must offer: one per watched
/// descriptor, at least one, at most what the kernel accepts.
pub open spec fn capacity_for(len: nat) -> i32 {
    if len == 0 {
        1
    } else if len > MAX_CAPACITY {
        MAX_CAPACITY
    } else {
        len as i32
    }
}

/// The descriptor a readiness report's token stands for: the token is the
/// descriptor's value, widened.
pub open spec fn token_fd(token: u64) -> i32 {
    token as i32
}

/// The readiness pairs a report gives, in the kernel's order.
pub open spec fn decoded_report(ready: Seq<(u64, u32)>) -> Seq<(i32, Events)> {
    ready.map_values(|x: (u64, u32)| (token_fd(x.0), Events::of_mask(x.1)))
}

/// One registration of `fd` for `events` followed by its deregistration,
/// both accepted by the kernel: the two results and the state after.
pub open spec fn add_remove_cycle(v: PollerView, fd: i32, events: Events) -> (
    Result<(), SysError>,
    Result<(), SysError>,
    PollerView,
) {
    let (added, after_add) = add_step(v, fd, events, 0, 0);
    let (removed, after_remove) = remove_step(after_add, fd, 0, 0);
    (added, removed, after_remove)
}

/// The state after `n` such cycles.
pub open spec fn add_remove_cycles(v: PollerView, fd: i32, events: Events, n: nat) -> PollerView
    decreases n,
{
    if n == 0 {
        v
    } else {
        add_remove_cycle(add_remove_cycles(v, fd, events, (n - 1) as nat), fd, events).2
    }
}

/// Once the kernel accepts the registration of `fd`, it is watched; once it
/// then accepts its deregistration, it is not.
pub proof fn lemma_watched_after_add_then_remove(
    v: PollerView,
    fd: i32,
    events: Events,
    add_ret: i32,
    add_errno: i32,
    remove_ret: i32,
    remove_errno: i32,
)
    requires
        add_ret >= 0,
        remove_ret >= 0,
    ensures
        add_step(v, fd, events, add_ret, add_errno).0 is Ok,
        add_step(v, fd, events, add_ret, add_errno).1.watched.contains_key(fd),
        add_step(v, fd, events, add_ret, add_errno).1.watched[fd] == events,
        remove_step(add_step(v, fd, events, add_ret, add_errno).1, fd, remove_ret, remove_errno).0 is Ok,
        !remove_step(
            add_step(v, fd, events, add_ret, add_errno).1,
            fd,
            remove_ret,
            remove_errno,
        ).1.watched.contains_key(fd),
{
}

/// Deregistering a descriptor that is not watched fails with "not found"
/// and leaves the state, and so the number of watched descriptors, as it was.
pub proof fn lemma_remove_unwatched(v: PollerView, fd: i32, ret: i32, errno: i32)
    requires
        !v.watched.contains_key(fd),
    ensures
        remove_step(v, fd, ret, errno).0 == Err::<(), SysError>(SysError::from_errno(NOT_FOUND)),
        remove_step(v, fd, ret, errno).1 == v,
        remove_step(v, fd, ret, errno).1.watched.len() == v.watched.len(),
{
}

/// Any number of accepted registration and deregistration cycles of a
/// descriptor that was not watched each succeed and leave the state as it
/// was: no entry is left behind and the size does not change.
pub proof fn lemma_add_remove_cycles(v: PollerView, fd: i32, events: Events, n: nat)
    requires
        !v.watched.contains_key(fd),
    ensures
        add_remove_cycle(v, fd, events).0 is Ok,
        add_remove_cycle(v, fd, events).1 is Ok,
        add_remove_cycles(v, fd, events, n) == v,
        add_remove_cycles(v, fd, events, n).watched.len() == v.watched.len(),
    decreases n,
{
    assert(v.watched.insert(fd, events).remove(fd) =~= v.watched);
    if n > 0 {
        lemma_add_remove_cycles(v, fd, events, (n - 1) as nat);
    }
}

/// Tearing down releases the handle at most once: after a release, a second
/// one hands out nothing and changes nothing; a poller that never got a
/// handle hands out nothing either.
pub proof fn lemma_release_at_most_once(v: PollerView)
    ensures
        release_step(release_step(v).1).0 is None,
        release_step(release_step(v).1).1 == release_step(v).1,
        v.handle < 0 ==> release_step(v) == (None::<i32>, v),
{
}

/// The descriptor a report's token stands for is the one whose registration
/// carried that token.
pub proof fn lemma_token_round_trip(fd: i32)
    ensures
        token_fd(fd as u64) == fd,
{
    assert((fd as u64) as i32 == fd) by (bit_vector);
}

/// The kind of change a watch-set request makes.
#[derive(Clone, Copy, Debug, PartialEq, Eq, Structural)]
pub enum CtlOp {
    Add,
    Delete,
}

/// A request to change the kernel's watch set: on the handle, do `op` for
/// `fd`, with readiness mask `mask` and correlation token `token`.
#[derive(Clone, Copy, Debug, PartialEq, Eq, Structural)]
pub struct CtlRequest {
    pub handle: i32,
    pub op: CtlOp,
    pub fd: i32,
    pub mask: u32,
    pub token: u64,
}

/// A request to wait on the handle for readiness, with room for `capacity`
/// reports, for at most `timeout_ms` milliseconds (negative: no bound).
#[derive(Clone, Copy, Debug, PartialEq, Eq, Structural)]
pub struct WaitRequest {
    pub handle: i32,
    pub capacity: i32,
    pub timeout_ms: i32,
}

/// The state of an I/O readiness notifier: the kernel handle it owns and the
/// descriptors registered with it. The kernel calls are made by the caller,
/// from the requests this type forms, and their outcomes handed back.
#[derive(Debug)]
pub struct Poller {
    epoll_fd: i32,
    watches: HashMap<i32, Events>,
}

impl View for Poller {
    type V = PollerView;

    closed spec fn view(&self) -> PollerView {
        PollerView { handle: self.epoll_fd, watched: self.watches@ }
    }
}

impl Poller {
    /// Records the outcome of the kernel's "add" request for `fd` with
    /// `events` (see `add_request`): when it returned `ret >= 0`, `fd` is
    /// watched for `events`; otherwise the error with number `errno` is
    /// returned and nothing changes.
    pub fn add(&mut self, fd: i32, events: Events, ret: i32, errno: i32) -> (r: Result<(), SysError>)
        ensures
            (r, final(self)@) == add_step(old(self)@, fd, events, ret, errno),
    {
        match SysError::check(ret, errno) {
            Err(e) => Err(e),
            Ok(_) => {
                self.watches.insert(fd, events);
                Ok(())
            },
        }
    }

    /// Records the outcome of the kernel's "delete" request for `fd` (see
    /// `remove_request`): an unwatched `fd` gives "not found"; a failed
    /// request gives its error and keeps the entry; otherwise `fd` is no
    /// longer watched.
    pub fn remove(&mut self, fd: i32, ret: i32, errno: i32) -> (r: Result<(), SysError>)
        ensures
            (r, final(self)@) == remove_step(old(self)@, fd, ret, errno),
    {
        if !self.watches.contains_key(&fd) {
            return Err(SysError::not_found());
        }
        match SysError::check(ret, errno) {
            Err(e) => Err(e),
            Ok(_) => {
                self.watches.remove(&fd);
                Ok(())
            },
        }
    }

    /// Decides the outcome of a wait that returned `ret`, leaving error number
    /// `errno`, with the kernel's reports in `ready`: on failure the error;
    /// otherwise the first `ret` reports (as many as `ready` holds), in the
    /// kernel's order, each as a descriptor and the kinds observed. The watch
    /// mapping is not touched.
    pub fn pull_events(&self, ret: i32, errno: i32, ready: &Vec<(u64, u32)>) -> (r: Result<
        Vec<(i32, Events)>,
        SysError,
    >)
        ensures
            ret < 0 ==> r == Err::<Vec<(i32, Events)>, SysError>(SysError::from_errno(errno)),
            ret >= 0 ==> r is Ok && r->Ok_0@ == decoded_report(
                ready@.take(
                    if ret as int <= ready@.len() {
                        ret as int
                    } else {
                        ready@.len() as int
                    },
                ),
            ),
    {
        let n: usize = match SysError::check(ret, errno) {
            Err(e) => {
                return Err(e);
            },
            Ok(count) => if (count as usize) < ready.len() {
                count as usize
            } else {
                ready.len()
            },
        };
        let mut out: Vec<(i32, Events)> = Vec::new();
        let mut i: usize = 0;
        while i < n
            invariant
                n <= ready@.len(),
                i <= n,
                out@ == decoded_report(ready@.take(i as int)),
            decreases n - i,
        {
            let (token, mask) = ready[i];
            let fd = token as i32;
            out.push((fd, Events::from_mask(mask)));
            proof {
                assert(ready@.take(i as int + 1) == ready@.take(i as int).push(ready@[i as int]));
            }
            i = i + 1;
        }
        Ok(out)
    }
}

impl Poller {
    /// Records the outcome of the kernel's request for a new handle, which
    /// returned `ret` and left error number `errno`: a poller that owns the
    /// handle and watches nothing, or the error.
    pub fn new(ret: i32, errno: i32) -> (r: Result<Poller, SysError>)
        ensures
            match r {
                Ok(p) => ret >= 0 && p@.handle == ret && p@.watched == Map::<i32, Events>::empty(),
                Err(e) => ret < 0 && e == SysError::from_errno(errno),
            },
    {
        match SysError::check(ret, errno) {
            Err(e) => Err(e),
            Ok(handle) => Ok(Poller { epoll_fd: handle, watches: HashMap::new() }),
        }
    }

    /// The kernel handle, negative when none is held.
    pub fn handle(&self) -> (r: i32)
        ensures
            r == self@.handle,
    {
        self.epoll_fd
    }

    /// Whether a kernel handle is held.
    pub fn is_open(&self) -> (r: bool)
        ensures
            r == (self@.handle >= 0),
    {
        self.epoll_fd >= 0
    }

    /// The number of watched descriptors.
    pub fn len(&self) -> (r: usize)
        ensures
            r == self@.watched.len(),
    {
        self.watches.len()
    }

    /// Whether no descriptor is watched.
    pub fn is_empty(&self) -> (r: bool)
        ensures
            r == (self@.watched.len() == 0),
    {
        self.watches.len() == 0
    }

    /// Whether `fd` is watched.
    pub fn contains(&self, fd: i32) -> (r: bool)
        ensures
            r == self@.watched.contains_key(fd),
    {
        self.watches.contains_key(&fd)
    }

    /// The kinds of readiness `fd` is watched for, if it is watched.
    pub fn interest(&self, fd: i32) -> (r: Option<Events>)
        ensures
            match r {
                Some(e) => self@.watched.contains_key(fd) && self@.watched[fd] == e,
                None => !self@.watched.contains_key(fd),
            },
    {
        match self.watches.get(&fd) {
            Some(e) => Some(*e),
            None => None,
        }
    }

    /// The request that registers `fd` for `events`: its token is the
    /// descriptor itself, its mask the encoding of `events`.
    pub fn add_request(&self, fd: i32, events: Events) -> (r: CtlRequest)
        ensures
            r == (CtlRequest {
                handle: self@.handle,
                op: CtlOp::Add,
                fd,
                mask: events.mask_of(),
                token: fd as u64,
            }),
    {
        CtlRequest { handle: self.epoll_fd, op: CtlOp::Add, fd, mask: events.to_mask(), token: fd as u64 }
    }

    /// The request that deregisters `fd`, or "not found" when `fd` is not
    /// watched, in which case the kernel is not to be asked.
    pub fn remove_request(&self, fd: i32) -> (r: Result<CtlRequest, SysError>)
        ensures
            self@.watched.contains_key(fd) ==> r == Ok::<CtlRequest, SysError>(
                CtlRequest { handle: self@.handle, op: CtlOp::Delete, fd, mask: 0, token: fd as u64 },
            ),
            !self@.watched.contains_key(fd) ==> r == Err::<CtlRequest, SysError>(
                SysError::from_errno(NOT_FOUND),
            ),
    {
        if !self.watches.contains_key(&fd) {
            return Err(SysError::not_found());
        }
        Ok(CtlRequest { handle: self.epoll_fd, op: CtlOp::Delete, fd, mask: 0, token: fd as u64 })
    }

    /// The request for one wait of at most `timeout_ms` milliseconds, with a
    /// slot for every watched descriptor.
    pub fn wait_request(&self, timeout_ms: i32) -> (r: WaitRequest)
        ensures
            r == (WaitRequest {
                handle: self@.handle,
                capacity: capacity_for(self@.watched.len()),
                timeout_ms,
            }),
    {
        let len = self.watches.len();
        let capacity: i32 = if len == 0 {
            1
        } else if len > MAX_CAPACITY as usize {
            MAX_CAPACITY
        } else {
            len as i32
        };
        WaitRequest { handle: self.epoll_fd, capacity, timeout_ms }
    }

    /// Gives up the kernel handle for closing: the handle, once, if one is
    /// held, after which the poller holds none and watches nothing; `None`,
    /// with nothing changed, otherwise.
    pub fn release(&mut self) -> (r: Option<i32>)
        ensures
            (r, final(self)@) == release_step(old(self)@),
    {
        if self.epoll_fd >= 0 {
            let handle = self.epoll_fd;
            self.epoll_fd = -1;
            self.watches = HashMap::new();
            Some(handle)
        } else {
            None
        }
    }
}

impl Default for Poller {
    /// A poller that holds no kernel handle and watches nothing.
    fn default() -> (r: Poller)
        ensures
            r@ == (PollerView { handle: -1i32, watched: Map::empty() }),
    {
        Poller { epoll_fd: -1, watches: HashMap::new() }
    }
}

} // verus!
