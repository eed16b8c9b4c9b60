use vstd::prelude::*;

verus! {

/// Kernel bit reporting that a descriptor is readable.
pub const READABLE_BIT: u32 = 0x001;

/// Kernel bit reporting that a descriptor is writable.
pub const WRITABLE_BIT: u32 = 0x004;

/// Kernel bit reporting an error condition on a descriptor.
pub const ERROR_BIT: u32 = 0x008;

/// The bits of a native mask that this library recognizes.
pub open spec fn recognized_bits() -> u32 {
    READABLE_BIT | WRITABLE_BIT | ERROR_BIT
}

/// A combination of the readiness kinds this library models: readable,
/// writable and error condition.
#[derive(Clone, Copy, Debug, PartialEq, Eq, Structural)]
pub struct Events {
    read: bool,
    write: bool,
    error: bool,
}

impl Events {
    /// Whether the set holds the readable kind.
    pub closed spec fn reads(self) -> bool {
        self.read
    }

    /// Whether the set holds the writable kind.
    pub closed spec fn writes(self) -> bool {
        self.write
    }

    /// Whether the set holds the error-condition kind.
    pub closed spec fn errors(self) -> bool {
        self.error
    }

    /// Two sets hold the same kinds.
    pub open spec fn same_kinds(self, other: Events) -> bool {
        &&& self.reads() == other.reads()
        &&& self.writes() == other.writes()
        &&& self.errors() == other.errors()
    }

    /// The native mask of a set: one bit per kind present, nothing else.
    pub open spec fn mask_of(self) -> u32 {
        (if self.reads() { READABLE_BIT } else { 0u32 })
            | (if self.writes() { WRITABLE_BIT } else { 0u32 })
            | (if self.errors() { ERROR_BIT } else { 0u32 })
    }

    /// The set decoded from a native mask: the kinds whose bit is present.
    pub closed spec fn of_mask(mask: u32) -> Events {
        Events {
            read: mask & READABLE_BIT == READABLE_BIT,
            write: mask & WRITABLE_BIT == WRITABLE_BIT,
            error: mask & ERROR_BIT == ERROR_BIT,
        }
    }

    /// The set with no kind present.
    pub fn new() -> (r: Events)
        ensures
            !r.reads(),
            !r.writes(),
            !r.errors(),
    {
        Events { read: false, write: false, error: false }
    }

    /// This set with the readable kind added.
    pub fn with_read(self) -> (r: Events)
        ensures
            r.reads(),
            r.writes() == self.writes(),
            r.errors() == self.errors(),
    {
        Events { read: true, ..self }
    }

    /// This set with the writable kind added.
    pub fn with_write(self) -> (r: Events)
        ensures
            r.reads() == self.reads(),
            r.writes(),
            r.errors() == self.errors(),
    {
        Events { write: true, ..self }
    }

    /// This set with the error-condition kind added.
    pub fn with_error(self) -> (r: Events)
        ensures
            r.reads() == self.reads(),
            r.writes() == self.writes(),
            r.errors(),
    {
        Events { error: true, ..self }
    }

    pub fn has_read(&self) -> (r: bool)
        ensures
            r == self.reads(),
    {
        self.read
    }

    pub fn has_write(&self) -> (r: bool)
        ensures
            r == self.writes(),
    {
        self.write
    }

    pub fn has_error(&self) -> (r: bool)
        ensures
            r == self.errors(),
    {
        self.error
    }

    /// Decodes a native mask: each recognized bit present gives its kind;
    /// every other bit is ignored.
    pub fn from_mask(mask: u32) -> (r: Events)
        ensures
            r == Events::of_mask(mask),
            r.reads() == (mask & READABLE_BIT == READABLE_BIT),
            r.writes() == (mask & WRITABLE_BIT == WRITABLE_BIT),
            r.errors() == (mask & ERROR_BIT == ERROR_BIT),
    {
        let mut events = Events::new();
        if mask & READABLE_BIT == READABLE_BIT {
            events = events.with_read();
        }
        if mask & WRITABLE_BIT == WRITABLE_BIT {
            events = events.with_write();
        }
        if mask & ERROR_BIT == ERROR_BIT {
            events = events.with_error();
        }
        events
    }

    /// Encodes this set as a native mask, with exactly the bits of the kinds
    /// present.
    pub fn to_mask(self) -> (r: u32)
        ensures
            r == self.mask_of(),
            r & !recognized_bits() == 0,
    {
        let r: u32 = if self.read { READABLE_BIT } else { 0 };
        let w: u32 = if self.write { WRITABLE_BIT } else { 0 };
        let e: u32 = if self.error { ERROR_BIT } else { 0 };
        proof {
            lemma_encoded_bits(r, w, e);
            lemma_recognized_bits();
        }
        r | w | e
    }
}

impl From<u32> for Events {
    /// Decodes a native mask, as `Events::from_mask` does.
    fn from(mask: u32) -> (r: Events) {
        Events::from_mask(mask)
    }
}

impl vstd::std_specs::convert::FromSpecImpl<u32> for Events {
    open spec fn obeys_from_spec() -> bool {
        true
    }

    open spec fn from_spec(mask: u32) -> Events {
        Events::of_mask(mask)
    }
}

impl From<Events> for u32 {
    /// Encodes a set, as `Events::to_mask` does.
    fn from(events: Events) -> (r: u32) {
        events.to_mask()
    }
}

impl vstd::std_specs::convert::FromSpecImpl<Events> for u32 {
    open spec fn obeys_from_spec() -> bool {
        true
    }

    open spec fn from_spec(events: Events) -> u32 {
        events.mask_of()
    }
}

/// The kinds of a decoded mask are those whose bit is present.
pub broadcast proof fn lemma_of_mask_kinds(mask: u32)
    ensures
        #[trigger] Events::of_mask(mask).reads() == (mask & READABLE_BIT == READABLE_BIT),
        Events::of_mask(mask).writes() == (mask & WRITABLE_BIT == WRITABLE_BIT),
        Events::of_mask(mask).errors() == (mask & ERROR_BIT == ERROR_BIT),
{
}

/// Decoding the encoding of a set gives back the same set.
pub proof fn lemma_decode_encode(s: Events)
    ensures
        Events::of_mask(s.mask_of()) == s,
        Events::of_mask(s.mask_of()).same_kinds(s),
{
    let r: u32 = if s.read { READABLE_BIT } else { 0 };
    let w: u32 = if s.write { WRITABLE_BIT } else { 0 };
    let e: u32 = if s.error { ERROR_BIT } else { 0 };
    lemma_encoded_bits(r, w, e);
}

/// Encoding the decoding of a mask that holds only recognized bits gives
/// back the same mask.
pub proof fn lemma_encode_decode(m: u32)
    requires
        m & !recognized_bits() == 0,
    ensures
        Events::of_mask(m).mask_of() == m,
{
    lemma_recognized_bits();
    assert(m == (if m & 0x001 == 0x001 { 0x001u32 } else { 0u32 }) | (if m & 0x004 == 0x004 {
        0x004u32
    } else {
        0u32
    }) | (if m & 0x008 == 0x008 { 0x008u32 } else { 0u32 })) by (bit_vector)
        requires
            m & !0x00du32 == 0,
    ;
}

/// The recognized bits, as one constant.
proof fn lemma_recognized_bits()
    ensures
        recognized_bits() == 0x00d,
{
    assert(0x001u32 | 0x004u32 | 0x008u32 == 0x00du32) by (bit_vector);
}

/// A mask built from one optional bit per kind holds no other bit, and
/// each kind's bit is present exactly when it was put there.
proof fn lemma_encoded_bits(r: u32, w: u32, e: u32)
    requires
        r == 0 || r == 0x001,
        w == 0 || w == 0x004,
        e == 0 || e == 0x008,
    ensures
        (r | w | e) & !0x00du32 == 0,
        ((r | w | e) & 0x001 == 0x001) == (r == 0x001),
        ((r | w | e) & 0x004 == 0x004) == (w == 0x004),
        ((r | w | e) & 0x008 == 0x008) == (e == 0x008),
{
    assert((r | w | e) & !0x00du32 == 0) by (bit_vector)
        requires
            r == 0 || r == 0x001,
            w == 0 || w == 0x004,
            e == 0 || e == 0x008,
    ;
    assert(((r | w | e) & 0x001 == 0x001) == (r == 0x001)) by (bit_vector)
        requires
            r == 0 || r == 0x001,
            w == 0 || w == 0x004,
            e == 0 || e == 0x008,
    ;
    assert(((r | w | e) & 0x004 == 0x004) == (w == 0x004)) by (bit_vector)
        requires
            r == 0 || r == 0x001,
            w == 0 || w == 0x004,
            e == 0 || e == 0x008,
    ;
    assert(((r | w | e) & 0x008 == 0x008) == (e == 0x008)) by (bit_vector)
        requires
            r == 0 || r == 0x001,
            w == 0 || w == 0x004,
            e == 0 || e == 0x008,
    ;
}

} // verus!
