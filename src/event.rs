use vstd::prelude::*;

verus! {

/// Identifies a registration; chosen by the caller and handed back with each event.
#[derive(Clone, Copy, Debug, PartialEq, Eq, Structural)]
pub struct Token(pub usize);

/// Readable bit of a `Ready` set.
pub const READABLE: usize = 0b0_0001;
/// Writable bit of a `Ready` set.
pub const WRITABLE: usize = 0b0_0010;
/// Error bit of a `Ready` set.
pub const ERROR: usize = 0b0_0100;
/// Hang-up bit of a `Ready` set.
pub const HUP: usize = 0b0_1000;
/// Priority (out-of-band data) bit of a `Ready` set.
pub const PRIORITY: usize = 0b1_0000;

/// A set of readiness kinds, held as bits of a `usize`.
#[derive(Clone, Copy, Debug, PartialEq, Eq, Structural)]
pub struct Ready(pub usize);

impl Ready {
    pub open spec fn has(self, bit: usize) -> bool {
        self.0 & bit != 0
    }

    pub open spec fn readable_spec(self) -> bool {
        self.has(READABLE)
    }

    pub open spec fn writable_spec(self) -> bool {
        self.has(WRITABLE)
    }

    pub open spec fn error_spec(self) -> bool {
        self.has(ERROR)
    }

    pub open spec fn hup_spec(self) -> bool {
        self.has(HUP)
    }

    pub open spec fn priority_spec(self) -> bool {
        self.has(PRIORITY)
    }

    /// The empty set: nothing ready, or no interest.
    pub fn empty() -> (r: Ready)
        ensures
            r.0 == 0,
    {
        Ready(0)
    }

    pub fn readable() -> (r: Ready)
        ensures
            r.0 == READABLE,
    {
        Ready(READABLE)
    }

    pub fn writable() -> (r: Ready)
        ensures
            r.0 == WRITABLE,
    {
        Ready(WRITABLE)
    }

    pub fn error() -> (r: Ready)
        ensures
            r.0 == ERROR,
    {
        Ready(ERROR)
    }

    pub fn hup() -> (r: Ready)
        ensures
            r.0 == HUP,
    {
        Ready(HUP)
    }

    pub fn priority() -> (r: Ready)
        ensures
            r.0 == PRIORITY,
    {
        Ready(PRIORITY)
    }

    /// Union of two sets.
    pub fn union(self, other: Ready) -> (r: Ready)
        ensures
            r.0 == self.0 | other.0,
    {
        Ready(self.0 | other.0)
    }

    pub fn is_empty(self) -> (r: bool)
        ensures
            r == (self.0 == 0),
    {
        self.0 == 0
    }

    pub fn is_readable(self) -> (r: bool)
        ensures
            r == self.readable_spec(),
    {
        self.0 & READABLE != 0
    }

    pub fn is_writable(self) -> (r: bool)
        ensures
            r == self.writable_spec(),
    {
        self.0 & WRITABLE != 0
    }

    pub fn is_error(self) -> (r: bool)
        ensures
            r == self.error_spec(),
    {
        self.0 & ERROR != 0
    }

    pub fn is_hup(self) -> (r: bool)
        ensures
            r == self.hup_spec(),
    {
        self.0 & HUP != 0
    }

    pub fn is_priority(self) -> (r: bool)
        ensures
            r == self.priority_spec(),
    {
        self.0 & PRIORITY != 0
    }

    /// Whether every kind in `other` is also in `self`.
    pub fn contains(self, other: Ready) -> (r: bool)
        ensures
            r == (self.0 & other.0 == other.0),
    {
        self.0 & other.0 == other.0
    }
}

/// Edge-triggered delivery.
pub const EDGE: usize = 0b0001;
/// Level-triggered delivery.
pub const LEVEL: usize = 0b0010;
/// Disarm after the first delivery.
pub const ONESHOT: usize = 0b0100;

/// Registration options, held as bits of a `usize`.
#[derive(Clone, Copy, Debug, PartialEq, Eq, Structural)]
pub struct PollOpt(pub usize);

impl PollOpt {
    pub fn empty() -> (r: PollOpt)
        ensures
            r.0 == 0,
    {
        PollOpt(0)
    }

    pub fn edge() -> (r: PollOpt)
        ensures
            r.0 == EDGE,
    {
        PollOpt(EDGE)
    }

    pub fn level() -> (r: PollOpt)
        ensures
            r.0 == LEVEL,
    {
        PollOpt(LEVEL)
    }

    pub fn oneshot() -> (r: PollOpt)
        ensures
            r.0 == ONESHOT,
    {
        PollOpt(ONESHOT)
    }

    pub fn union(self, other: PollOpt) -> (r: PollOpt)
        ensures
            r.0 == self.0 | other.0,
    {
        PollOpt(self.0 | other.0)
    }

    pub fn is_edge(self) -> (r: bool)
        ensures
            r == (self.0 & EDGE != 0),
    {
        self.0 & EDGE != 0
    }

    pub fn is_level(self) -> (r: bool)
        ensures
            r == (self.0 & LEVEL != 0),
    {
        self.0 & LEVEL != 0
    }

    pub fn is_oneshot(self) -> (r: bool)
        ensures
            r == (self.0 & ONESHOT != 0),
    {
        self.0 & ONESHOT != 0
    }
}

/// A readiness event: the kinds that were ready, and the token of the registration.
#[derive(Clone, Copy, Debug, PartialEq, Eq, Structural)]
pub struct Event {
    pub kind: Ready,
    pub token: Token,
}

impl Event {
    pub fn new(kind: Ready, token: Token) -> (r: Event)
        ensures
            r.kind == kind,
            r.token == token,
    {
        Event { kind, token }
    }

    pub fn readiness(&self) -> (r: Ready)
        ensures
            r == self.kind,
    {
        self.kind
    }

    pub fn token(&self) -> (r: Token)
        ensures
            r == self.token,
    {
        self.token
    }
}

} // verus!
