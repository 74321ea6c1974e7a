use std::time::Duration;
use vstd::prelude::*;

use super::PollError;
use crate::event::{Event, PollOpt, Ready, Token, ERROR, HUP, PRIORITY, READABLE, WRITABLE};

verus! {

/// Nanoseconds in one millisecond.
pub const NANOS_PER_MILLI: u64 = 1_000_000;
/// Milliseconds in one second.
pub const MILLIS_PER_SEC: u64 = 1_000;

/// Whole seconds of a duration, as `Duration::as_secs` gives them.
pub uninterp spec fn duration_secs(d: Duration) -> u64;

/// Sub-second part of a duration in nanoseconds, as `Duration::subsec_nanos` gives it.
pub uninterp spec fn duration_subsec_nanos(d: Duration) -> u32;

/// Relies on `Duration::as_secs`: the whole seconds of the duration.
pub assume_specification[ Duration::as_secs ](d: &Duration) -> (r: u64)
    ensures
        r == duration_secs(*d),
;

/// Relies on `Duration::subsec_nanos`: the fractional part of a second, which
/// std documents as always below one billion.
pub assume_specification[ Duration::subsec_nanos ](d: &Duration) -> (r: u32)
    ensures
        r == duration_subsec_nanos(*d),
        r < 1_000_000_000,
;

/// Milliseconds in `secs` seconds and `nanos` nanoseconds, with any remainder
/// rounded up, before saturation.
pub open spec fn exact_millis(secs: u64, nanos: u32) -> int {
    secs * 1000 + (nanos + 999_999) / 1_000_000
}

/// `exact_millis`, saturated at `u64::MAX`.
pub open spec fn millis_spec(secs: u64, nanos: u32) -> u64 {
    if exact_millis(secs, nanos) > u64::MAX {
        u64::MAX
    } else {
        exact_millis(secs, nanos) as u64
    }
}

/// Converts seconds and nanoseconds to milliseconds, rounding up and
/// saturating at `u64::MAX`.
pub fn millis_from_parts(secs: u64, nanos: u32) -> (r: u64)
    ensures
        r == millis_spec(secs, nanos),
{
    let rounded: u64 = (nanos as u64 + (NANOS_PER_MILLI - 1)) / NANOS_PER_MILLI;
    assert(rounded <= 4295) by (nonlinear_arith)
        requires
            rounded == (nanos as u64 + 999_999) / 1_000_000,
            nanos <= u32::MAX,
    ;
    if secs > u64::MAX / MILLIS_PER_SEC {
        assert(secs * 1000 > u64::MAX) by (nonlinear_arith)
            requires
                secs > u64::MAX / 1000,
        ;
        u64::MAX
    } else {
        assert(secs * 1000 <= u64::MAX) by (nonlinear_arith)
            requires
                secs <= u64::MAX / 1000,
        ;
        let whole: u64 = secs * MILLIS_PER_SEC;
        whole.saturating_add(rounded)
    }
}

/// Converts a `Duration` to milliseconds, rounding up and saturating at
/// `u64::MAX`.
pub fn millis(duration: Duration) -> (r: u64)
    ensures
        r == millis_spec(duration_secs(duration), duration_subsec_nanos(duration)),
{
    millis_from_parts(duration.as_secs(), duration.subsec_nanos())
}

/// The timeout handed to `poll(2)`: `-1` waits without end, otherwise the
/// milliseconds of the duration, capped at `i32::MAX`.
pub open spec fn poll_timeout_spec(timeout: Option<Duration>) -> i32 {
    match timeout {
        None => -1i32,
        Some(d) => {
            let ms = millis_spec(duration_secs(d), duration_subsec_nanos(d));
            if ms > i32::MAX as u64 {
                i32::MAX
            } else {
                ms as i32
            }
        },
    }
}

/// Converts an optional duration to the millisecond timeout of `poll(2)`.
pub fn poll_timeout(timeout: Option<Duration>) -> (r: i32)
    ensures
        r == poll_timeout_spec(timeout),
{
    match timeout {
        None => -1,
        Some(d) => {
            let ms = millis(d);
            if ms > i32::MAX as u64 {
                i32::MAX
            } else {
                ms as i32
            }
        },
    }
}

/// A duration of more than zero never becomes a timeout of zero: any part of a
/// millisecond counts as a whole one, and the largest durations saturate.
pub proof fn lemma_millis_rounds_up(secs: u64, nanos: u32)
    requires
        nanos < 1_000_000_000,
    ensures
        (secs > 0 || nanos > 0) ==> millis_spec(secs, nanos) > 0,
        millis_spec(secs, nanos) >= secs * 1000 || millis_spec(secs, nanos) == u64::MAX,
        millis_spec(secs, nanos) as int * 1_000_000 >= secs * 1_000_000_000 + nanos
            || millis_spec(secs, nanos) == u64::MAX,
        secs == 0 ==> millis_spec(secs, nanos) == (nanos + 999_999) / 1_000_000,
        secs == u64::MAX ==> millis_spec(secs, nanos) == u64::MAX,
{
    assert((nanos + 999_999) / 1_000_000 * 1_000_000 >= nanos) by (nonlinear_arith);
    assert(nanos > 0 ==> (nanos + 999_999) / 1_000_000 > 0) by (nonlinear_arith);
    assert(secs * 1000 >= secs) by (nonlinear_arith);
    assert(secs == u64::MAX ==> secs * 1000 > u64::MAX) by (nonlinear_arith);
}

/// A duration of more than zero never becomes a `poll(2)` timeout of zero.
pub proof fn lemma_poll_timeout_nonzero(d: Duration)
    requires
        duration_subsec_nanos(d) < 1_000_000_000,
    ensures
        (duration_secs(d) > 0 || duration_subsec_nanos(d) > 0) ==> poll_timeout_spec(Some(d)) > 0,
        poll_timeout_spec(None) == -1,
{
    lemma_millis_rounds_up(duration_secs(d), duration_subsec_nanos(d));
}

/// Relies on `libc::POLLIN`, which libc defines as `0x1` on Linux.
#[verifier::external_body]
fn poll_in() -> (r: i16)
    ensures
        r == 0x1,
{
    libc::POLLIN
}

/// Relies on `libc::POLLPRI`, which libc defines as `0x2` on Linux.
#[verifier::external_body]
fn poll_pri() -> (r: i16)
    ensures
        r == 0x2,
{
    libc::POLLPRI
}

/// Relies on `libc::POLLOUT`, which libc defines as `0x4` on Linux.
#[verifier::external_body]
fn poll_out() -> (r: i16)
    ensures
        r == 0x4,
{
    libc::POLLOUT
}

/// Relies on `libc::POLLERR`, which libc defines as `0x8` on Linux.
#[verifier::external_body]
fn poll_err() -> (r: i16)
    ensures
        r == 0x8,
{
    libc::POLLERR
}

/// Relies on `libc::POLLHUP`, which libc defines as `0x10` on Linux.
#[verifier::external_body]
fn poll_hup() -> (r: i16)
    ensures
        r == 0x10,
{
    libc::POLLHUP
}

/// The `poll(2)` event mask that asks for the kinds in `interest`: readable,
/// writable and priority; the other kinds are always reported.
pub open spec fn interest_bits(interest: Ready) -> i16 {
    (if interest.readable_spec() { 0x1i16 } else { 0i16 }) | (if interest.writable_spec() {
        0x4i16
    } else {
        0i16
    }) | (if interest.priority_spec() { 0x2i16 } else { 0i16 })
}

/// The kinds that a `poll(2)` result mask reports. Priority data counts as
/// readable too.
pub open spec fn ready_of_revents(rev: i16) -> Ready {
    Ready(
        (if rev & 0x1 != 0 || rev & 0x2 != 0 { READABLE } else { 0usize }) | (if rev & 0x2 != 0 {
            PRIORITY
        } else {
            0usize
        }) | (if rev & 0x4 != 0 { WRITABLE } else { 0usize }) | (if rev & 0x8 != 0 {
            ERROR
        } else {
            0usize
        }) | (if rev & 0x10 != 0 { HUP } else { 0usize }),
    )
}

/// Translates an interest into the event mask of `poll(2)`. `poll(2)` is level
/// triggered: the options, edge-triggered included, do not change the mask.
pub fn ready_to_poll(interest: Ready, opts: PollOpt) -> (r: i16)
    ensures
        r == interest_bits(interest),
{
    let rd = if interest.is_readable() { poll_in() } else { 0 };
    let wr = if interest.is_writable() { poll_out() } else { 0 };
    let pr = if interest.is_priority() { poll_pri() } else { 0 };
    rd | wr | pr
}

/// Translates a `poll(2)` result mask into readiness kinds.
pub fn poll_to_ready(rev: i16) -> (r: Ready)
    ensures
        r == ready_of_revents(rev),
{
    let rd = if rev & poll_in() != 0 || rev & poll_pri() != 0 { READABLE } else { 0 };
    let pr = if rev & poll_pri() != 0 { PRIORITY } else { 0 };
    let wr = if rev & poll_out() != 0 { WRITABLE } else { 0 };
    let er = if rev & poll_err() != 0 { ERROR } else { 0 };
    let hp = if rev & poll_hup() != 0 { HUP } else { 0 };
    Ready(rd | pr | wr | er | hp)
}

/// One registration in a selector's table: the descriptor watched, the token
/// reported for it, and the `poll(2)` event mask it asks for.
#[derive(Clone, Copy, Debug, PartialEq, Eq, Structural)]
pub struct PollEntry {
    pub fd: i32,
    pub token: Token,
    pub events: i16,
}

/// One result of `poll(2)` kept in an event buffer until it is read: the
/// registration's token and the result mask.
#[derive(Clone, Copy, Debug, PartialEq, Eq, Structural)]
pub struct RawEvent {
    pub token: Token,
    pub revents: i16,
}

/// Whether `entries` holds a registration of `fd`.
pub open spec fn has_fd(entries: Seq<PollEntry>, fd: i32) -> bool {
    exists|i: int| 0 <= i < entries.len() && entries[i].fd == fd
}

/// No descriptor is registered twice.
pub open spec fn fds_unique(entries: Seq<PollEntry>) -> bool {
    forall|i: int, j: int|
        0 <= i < entries.len() && 0 <= j < entries.len() && entries[i].fd == entries[j].fd ==> i
            == j
}

/// The events gathered from the first `n` results of one `poll(2)` call, and
/// whether the awakener's registration was among the ready ones. Scanning
/// stops at the awakener.
pub open spec fn gather(
    entries: Seq<PollEntry>,
    revents: Seq<i16>,
    awakener: Token,
    n: nat,
) -> (Seq<RawEvent>, bool)
    decreases n,
{
    if n == 0 {
        (Seq::empty(), false)
    } else {
        let (evs, woken) = gather(entries, revents, awakener, (n - 1) as nat);
        let i = n - 1;
        if woken || revents[i] == 0 {
            (evs, woken)
        } else if entries[i].token == awakener {
            (evs, true)
        } else {
            (evs.push(RawEvent { token: entries[i].token, revents: revents[i] }), false)
        }
    }
}

/// Hands out the identifiers of selectors: each is above zero and above every
/// one handed out before.
pub struct SelectorIds {
    last: usize,
}

impl SelectorIds {
    pub closed spec fn last_spec(&self) -> usize {
        self.last
    }

    pub fn new() -> (r: SelectorIds)
        ensures
            r.last_spec() == 0,
    {
        SelectorIds { last: 0 }
    }

    /// The next identifier, or `IdsExhausted` once `usize::MAX` was handed out.
    pub fn next_id(&mut self) -> (r: Result<usize, PollError>)
        ensures
            old(self).last_spec() < usize::MAX ==> r == Ok::<usize, PollError>(
                (old(self).last_spec() + 1) as usize,
            ) && final(self).last_spec() == old(self).last_spec() + 1,
            old(self).last_spec() == usize::MAX ==> r == Err::<usize, PollError>(
                PollError::IdsExhausted,
            ) && final(self).last_spec() == old(self).last_spec(),
    {
        if self.last == usize::MAX {
            Err(PollError::IdsExhausted)
        } else {
            self.last = self.last + 1;
            Ok(self.last)
        }
    }
}

/// Whether a resource bound to selector `current` (zero: to none) is refused by
/// selector `selector_id`.
pub open spec fn bound_elsewhere(current: usize, selector_id: usize) -> bool {
    current != 0 && current != selector_id
}

/// The selector that a resource was first registered with; zero while it has
/// none.
pub struct SelectorId {
    id: usize,
}

impl SelectorId {
    pub closed spec fn id_spec(&self) -> usize {
        self.id
    }

    pub fn new() -> (r: SelectorId)
        ensures
            r.id_spec() == 0,
    {
        SelectorId { id: 0 }
    }

    /// Binds the resource to selector `selector_id`. Fails with `InvalidInput`
    /// when it is already bound to another selector.
    pub fn associate(&mut self, selector_id: usize) -> (r: Result<(), PollError>)
        ensures
            bound_elsewhere(old(self).id_spec(), selector_id) ==> r == Err::<
                (),
                PollError,
            >(PollError::InvalidInput) && final(self).id_spec() == old(self).id_spec(),
            !bound_elsewhere(old(self).id_spec(), selector_id) ==> r == Ok::<
                (),
                PollError,
            >(()) && final(self).id_spec() == selector_id,
    {
        if self.id != 0 && self.id != selector_id {
            Err(PollError::InvalidInput)
        } else {
            self.id = selector_id;
            Ok(())
        }
    }
}

/// What a selector is: its identifier and its table of registrations, in the
/// order in which they are handed to `poll(2)`.
pub struct SelectorView {
    pub id: usize,
    pub entries: Seq<PollEntry>,
}

impl SelectorView {
    pub open spec fn wf(self) -> bool {
        self.id > 0 && fds_unique(self.entries)
    }
}

/// The `poll(2)` event queue: a table of registrations, one per descriptor.
pub struct Selector {
    id: usize,
    entries: Vec<PollEntry>,
}

impl View for Selector {
    type V = SelectorView;

    closed spec fn view(&self) -> SelectorView {
        SelectorView { id: self.id, entries: self.entries@ }
    }
}

impl Selector {
    /// A selector with no registrations and a fresh identifier from `ids`.
    pub fn new(ids: &mut SelectorIds) -> (r: Result<Selector, PollError>)
        ensures
            old(ids).last_spec() < usize::MAX ==> r.is_ok() && r.unwrap()@.id == old(ids).last_spec() + 1 && r.unwrap()@.entries.len() == 0 && r.unwrap()@.wf()
                && final(ids).last_spec() == old(ids).last_spec() + 1,
            old(ids).last_spec() == usize::MAX ==> r == Err::<Selector, PollError>(
                PollError::IdsExhausted,
            ) && final(ids).last_spec() == old(ids).last_spec(),
    {
        match ids.next_id() {
            Ok(id) => Ok(Selector { id, entries: Vec::new() }),
            Err(e) => Err(e),
        }
    }

    pub fn id(&self) -> (r: usize)
        ensures
            r == self@.id,
    {
        self.id
    }

    /// The registrations, in table order.
    pub fn entries(&self) -> (r: &Vec<PollEntry>)
        ensures
            r@ == self@.entries,
    {
        &self.entries
    }

    /// The position of `fd` in the table, if it is registered.
    fn position(&self, fd: i32) -> (r: Option<usize>)
        ensures
            r.is_none() ==> !has_fd(self@.entries, fd),
            r.is_some() ==> r.unwrap() < self@.entries.len() && self@.entries[r.unwrap() as int].fd
                == fd,
    {
        let mut i: usize = 0;
        while i < self.entries.len()
            invariant
                i <= self.entries@.len(),
                forall|j: int| 0 <= j < i ==> self.entries@[j].fd != fd,
            decreases self.entries@.len() - i,
        {
            if self.entries[i].fd == fd {
                return Some(i);
            }
            i = i + 1;
        }
        None
    }

    /// Adds a registration of `fd` under `token` for the kinds in `interests`.
    /// Fails with `AlreadyRegistered` when `fd` has one.
    pub fn register(&mut self, fd: i32, token: Token, interests: Ready, opts: PollOpt) -> (r: Result<
        (),
        PollError,
    >)
        requires
            old(self)@.wf(),
        ensures
            final(self)@.wf(),
            final(self)@.id == old(self)@.id,
            has_fd(old(self)@.entries, fd) ==> r == Err::<(), PollError>(
                PollError::AlreadyRegistered,
            ) && final(self)@ == old(self)@,
            !has_fd(old(self)@.entries, fd) ==> r == Ok::<(), PollError>(()) && final(self)@.entries == old(self)@.entries.push(
                PollEntry { fd, token, events: interest_bits(interests) },
            ),
    {
        if self.position(fd).is_some() {
            return Err(PollError::AlreadyRegistered);
        }
        let entry = PollEntry { fd, token, events: ready_to_poll(interests, opts) };
        self.entries.push(entry);
        Ok(())
    }

    /// Replaces the token and interest of the registration of `fd`. Fails with
    /// `NotFound` when `fd` has none.
    pub fn reregister(&mut self, fd: i32, token: Token, interests: Ready, opts: PollOpt) -> (r:
        Result<(), PollError>)
        requires
            old(self)@.wf(),
        ensures
            final(self)@.wf(),
            final(self)@.id == old(self)@.id,
            !has_fd(old(self)@.entries, fd) ==> r == Err::<(), PollError>(PollError::NotFound)
                && final(self)@ == old(self)@,
            has_fd(old(self)@.entries, fd) ==> r == Ok::<(), PollError>(()) && final(self)@.entries.len() == old(self)@.entries.len() && forall|i: int|
                0 <= i < old(self)@.entries.len() ==> #[trigger] final(self)@.entries[i] == (
                if old(self)@.entries[i].fd == fd {
                    PollEntry { fd, token, events: interest_bits(interests) }
                } else {
                    old(self)@.entries[i]
                }),
    {
        match self.position(fd) {
            None => Err(PollError::NotFound),
            Some(i) => {
                let entry = PollEntry { fd, token, events: ready_to_poll(interests, opts) };
                self.entries.set(i, entry);
                Ok(())
            },
        }
    }

    /// Removes the registration of `fd`. Fails with `NotFound` when `fd` has
    /// none.
    pub fn deregister(&mut self, fd: i32) -> (r: Result<(), PollError>)
        requires
            old(self)@.wf(),
        ensures
            final(self)@.wf(),
            final(self)@.id == old(self)@.id,
            !has_fd(old(self)@.entries, fd) ==> r == Err::<(), PollError>(PollError::NotFound)
                && final(self)@ == old(self)@,
            has_fd(old(self)@.entries, fd) ==> r == Ok::<(), PollError>(()) && exists|i: int|
                0 <= i < old(self)@.entries.len() && old(self)@.entries[i].fd == fd
                    && final(self)@.entries == old(self)@.entries.remove(i),
            !has_fd(final(self)@.entries, fd),
    {
        match self.position(fd) {
            None => Err(PollError::NotFound),
            Some(i) => {
                let ghost before = self.entries@;
                self.entries.remove(i);
                assert(self.entries@ == before.remove(i as int));
                assert forall|j: int| 0 <= j < self.entries@.len() implies self.entries@[j].fd != fd by {
                    if j < i {
                        assert(self.entries@[j] == before[j]);
                    } else {
                        assert(self.entries@[j] == before[j + 1]);
                    }
                }
                Ok(())
            },
        }
    }

    /// Binds the resource to this selector through `binding`, then registers
    /// `fd`. A resource bound to another selector fails with `InvalidInput`
    /// and leaves the table as it was.
    pub fn register_checked(
        &mut self,
        binding: &mut SelectorId,
        fd: i32,
        token: Token,
        interests: Ready,
        opts: PollOpt,
    ) -> (r: Result<(), PollError>)
        requires
            old(self)@.wf(),
        ensures
            final(self)@.wf(),
            final(self)@.id == old(self)@.id,
            bound_elsewhere(old(binding).id_spec(), old(self)@.id) ==> r == Err::<
                (),
                PollError,
            >(PollError::InvalidInput) && final(self)@ == old(self)@ && final(binding).id_spec()
                == old(binding).id_spec(),
            !bound_elsewhere(old(binding).id_spec(), old(self)@.id) ==> final(binding).id_spec() == old(self)@.id && (if has_fd(
                old(self)@.entries,
                fd,
            ) {
                r == Err::<(), PollError>(PollError::AlreadyRegistered) && final(self)@ == old(self)@
            } else {
                r == Ok::<(), PollError>(()) && final(self)@.entries == old(self)@.entries.push(
                    PollEntry { fd, token, events: interest_bits(interests) },
                )
            }),
    {
        match binding.associate(self.id) {
            Err(e) => Err(e),
            Ok(()) => self.register(fd, token, interests, opts),
        }
    }

    /// Turns the results of one `poll(2)` call over this table into events.
    /// `revents[i]` is the result mask of the `i`-th registration. The buffer
    /// is cleared first; the scan stops at the first ready registration whose
    /// token is `awakener`, and the result says whether it met one.
    pub fn select(&self, evts: &mut Events, awakener: Token, revents: &Vec<i16>) -> (woken: bool)
        requires
            revents@.len() == self@.entries.len(),
        ensures
            (final(evts)@, woken) == gather(
                self@.entries,
                revents@,
                awakener,
                self@.entries.len(),
            ),
    {
        evts.events.clear();
        let mut i: usize = 0;
        while i < self.entries.len()
            invariant
                i <= self.entries@.len(),
                revents@.len() == self.entries@.len(),
                (evts.events@, false) == gather(self.entries@, revents@, awakener, i as nat),
            decreases self.entries@.len() - i,
        {
            let rev = revents[i];
            if rev != 0 {
                let entry = self.entries[i];
                if entry.token == awakener {
                    proof {
                        lemma_gather_stays_woken(self.entries@, revents@, awakener, (i + 1) as nat, self.entries@.len());
                    }
                    return true;
                }
                evts.events.push(RawEvent { token: entry.token, revents: rev });
            }
            i = i + 1;
        }
        false
    }
}

/// After one `select`: whether the wait goes on. A wakeup that brought no
/// event of the caller's, and for which no caller asked to stop waiting, is
/// not reported: the awakener is drained and the wait starts again.
pub fn wait_again(woken: bool, stop_requested: bool, evts: &Events) -> (r: bool)
    ensures
        r == (woken && !stop_requested && evts@.len() == 0),
{
    woken && !stop_requested && evts.is_empty()
}

/// Once the awakener is met, later results change nothing.
proof fn lemma_gather_stays_woken(
    entries: Seq<PollEntry>,
    revents: Seq<i16>,
    awakener: Token,
    n: nat,
    m: nat,
)
    requires
        n <= m,
        gather(entries, revents, awakener, n).1,
    ensures
        gather(entries, revents, awakener, m) == gather(entries, revents, awakener, n),
    decreases m - n,
{
    if n < m {
        lemma_gather_stays_woken(entries, revents, awakener, n, (m - 1) as nat);
    }
}

/// A reusable buffer of the events of one `poll(2)` call.
pub struct Events {
    events: Vec<RawEvent>,
}

impl View for Events {
    type V = Seq<RawEvent>;

    closed spec fn view(&self) -> Seq<RawEvent> {
        self.events@
    }
}

/// The event that a kept result stands for.
pub open spec fn event_of(raw: RawEvent) -> Event {
    Event { kind: ready_of_revents(raw.revents), token: raw.token }
}

/// Relies on `Vec::capacity`: how many elements the vector holds without
/// reallocating, never fewer than it has.
#[verifier::external_body]
fn vec_capacity(v: &Vec<RawEvent>) -> (r: usize)
    ensures
        r >= v@.len(),
{
    v.capacity()
}

impl Events {
    /// An empty buffer with room for `u` events.
    pub fn with_capacity(u: usize) -> (r: Events)
        ensures
            r@.len() == 0,
    {
        Events { events: Vec::with_capacity(u) }
    }

    pub fn len(&self) -> (r: usize)
        ensures
            r == self@.len(),
    {
        self.events.len()
    }

    pub fn capacity(&self) -> (r: usize)
        ensures
            r >= self@.len(),
    {
        vec_capacity(&self.events)
    }

    pub fn is_empty(&self) -> (r: bool)
        ensures
            r == (self@.len() == 0),
    {
        self.events.len() == 0
    }

    /// The event at position `idx`, if there is one.
    pub fn get(&self, idx: usize) -> (r: Option<Event>)
        ensures
            idx < self@.len() ==> r == Some(event_of(self@[idx as int])),
            idx >= self@.len() ==> r.is_none(),
    {
        if idx < self.events.len() {
            let raw = self.events[idx];
            Some(Event { kind: poll_to_ready(raw.revents), token: raw.token })
        } else {
            None
        }
    }

    /// Appends `event`, kept as the mask that `poll(2)` would report for its
    /// readable, writable and priority kinds.
    pub fn push_event(&mut self, event: Event)
        ensures
            final(self)@ == old(self)@.push(
                RawEvent { token: event.token, revents: interest_bits(event.kind) },
            ),
    {
        let raw = RawEvent {
            token: event.token(),
            revents: ready_to_poll(event.readiness(), PollOpt::empty()),
        };
        self.events.push(raw);
    }

    /// Empties the buffer; its storage is kept.
    pub fn clear(&mut self)
        ensures
            final(self)@.len() == 0,
    {
        self.events.clear();
    }
}

/// Every event gathered carries the token of a registration in the table, and
/// none carries the awakener's token.
pub proof fn lemma_gather_tokens(
    entries: Seq<PollEntry>,
    revents: Seq<i16>,
    awakener: Token,
    n: nat,
)
    requires
        n <= entries.len(),
        n <= revents.len(),
    ensures
        forall|k: int|
            0 <= k < gather(entries, revents, awakener, n).0.len() ==> {
                let ev = #[trigger] gather(entries, revents, awakener, n).0[k];
                ev.token != awakener && exists|i: int|
                    0 <= i < n && entries[i].token == ev.token && revents[i] == ev.revents
                        && revents[i] != 0
            },
    decreases n,
{
    if n > 0 {
        lemma_gather_tokens(entries, revents, awakener, (n - 1) as nat);
        let prev = gather(entries, revents, awakener, (n - 1) as nat).0;
        let cur = gather(entries, revents, awakener, n).0;
        assert forall|k: int| 0 <= k < cur.len() implies {
            let ev = #[trigger] cur[k];
            ev.token != awakener && exists|i: int|
                0 <= i < n && entries[i].token == ev.token && revents[i] == ev.revents
                    && revents[i] != 0
        } by {
            if k < prev.len() {
                assert(cur[k] == prev[k]);
                let i = choose|i: int|
                    0 <= i < n - 1 && entries[i].token == prev[k].token && revents[i]
                        == prev[k].revents && revents[i] != 0;
                assert(0 <= i < n);
            } else {
                assert(entries[n - 1].token == cur[k].token);
            }
        }
    }
}

/// With no result set in any registration, nothing is gathered and the
/// awakener is not met: two selects in a row with no activity in between both
/// leave the buffer empty.
pub proof fn lemma_quiet_select_is_empty(
    entries: Seq<PollEntry>,
    revents: Seq<i16>,
    awakener: Token,
    n: nat,
)
    requires
        n <= revents.len(),
        forall|i: int| 0 <= i < revents.len() ==> revents[i] == 0,
    ensures
        gather(entries, revents, awakener, n) == (Seq::<RawEvent>::empty(), false),
    decreases n,
{
    if n > 0 {
        lemma_quiet_select_is_empty(entries, revents, awakener, (n - 1) as nat);
    }
}

/// Registering a descriptor that the table lacks and then deregistering it
/// leaves the table as it was; so the events gathered afterwards, whatever
/// `poll(2)` reports, carry no token that only that registration had.
pub proof fn lemma_register_deregister_restores(
    entries: Seq<PollEntry>,
    added: PollEntry,
    removed_at: int,
    revents: Seq<i16>,
    awakener: Token,
)
    requires
        fds_unique(entries),
        !has_fd(entries, added.fd),
        0 <= removed_at < entries.len() + 1,
        entries.push(added)[removed_at].fd == added.fd,
        revents.len() == entries.len(),
        forall|i: int| 0 <= i < entries.len() ==> entries[i].token != added.token,
    ensures
        entries.push(added).remove(removed_at) == entries,
        forall|k: int|
            0 <= k < gather(entries.push(added).remove(removed_at), revents, awakener, entries.len()).0.len()
                ==> (#[trigger] gather(entries.push(added).remove(removed_at), revents, awakener, entries.len()).0[k]).token
                != added.token,
{
    if removed_at < entries.len() {
        assert(entries.push(added)[removed_at] == entries[removed_at]);
        assert(has_fd(entries, added.fd));
    }
    assert(removed_at == entries.len());
    assert(entries.push(added).remove(removed_at) =~= entries);
    lemma_gather_tokens(entries, revents, awakener, entries.len());
}

/// A resource that registered with selector `a` is refused by any other
/// selector `b`, and accepted again by `a`.
pub proof fn lemma_foreign_selector_refused(a: usize, b: usize)
    requires
        a > 0,
        a != b,
    ensures
        !bound_elsewhere(0, a),
        bound_elsewhere(a, b),
        !bound_elsewhere(a, a),
{
}

/// After a registration of `fd` and a reregistration of it with another
/// interest, the table asks `poll(2)` for the latest interest only, and the
/// rest of the table is untouched.
pub proof fn lemma_reregister_takes_latest(
    entries: Seq<PollEntry>,
    fd: i32,
    first: Ready,
    first_token: Token,
    latest: Ready,
    token: Token,
    after: Seq<PollEntry>,
)
    requires
        fds_unique(entries),
        !has_fd(entries, fd),
        after.len() == entries.len() + 1,
        forall|i: int|
            0 <= i < entries.len() + 1 ==> #[trigger] after[i] == (if entries.push(
                PollEntry { fd, token: first_token, events: interest_bits(first) },
            )[i].fd == fd {
                PollEntry { fd, token, events: interest_bits(latest) }
            } else {
                entries.push(PollEntry { fd, token: first_token, events: interest_bits(first) })[i]
            }),
    ensures
        after == entries.push(PollEntry { fd, token, events: interest_bits(latest) }),
{
    let pushed = entries.push(PollEntry { fd, token: first_token, events: interest_bits(first) });
    assert forall|i: int| 0 <= i < after.len() implies after[i] == entries.push(
        PollEntry { fd, token, events: interest_bits(latest) },
    )[i] by {
        if i < entries.len() {
            assert(pushed[i] == entries[i]);
            if entries[i].fd == fd {
                assert(has_fd(entries, fd));
            }
        }
    }
    assert(after =~= entries.push(PollEntry { fd, token, events: interest_bits(latest) }));
}

/// A kept result reads back as the event that was pushed, with priority data
/// counted as readable and the kinds that `poll(2)` is not asked for left out.
pub proof fn lemma_push_then_get(event: Event)
    ensures
        event_of(RawEvent { token: event.token, revents: interest_bits(event.kind) }).token
            == event.token,
        event_of(RawEvent { token: event.token, revents: interest_bits(event.kind) }).kind.readable_spec()
            == (event.kind.readable_spec() || event.kind.priority_spec()),
        event_of(RawEvent { token: event.token, revents: interest_bits(event.kind) }).kind.writable_spec()
            == event.kind.writable_spec(),
        event_of(RawEvent { token: event.token, revents: interest_bits(event.kind) }).kind.priority_spec()
            == event.kind.priority_spec(),
        !event_of(RawEvent { token: event.token, revents: interest_bits(event.kind) }).kind.error_spec(),
        !event_of(RawEvent { token: event.token, revents: interest_bits(event.kind) }).kind.hup_spec(),
{
    let rd = event.kind.readable_spec();
    let wr = event.kind.writable_spec();
    let pr = event.kind.priority_spec();
    let bits = interest_bits(event.kind);
    let out = ready_of_revents(bits).0;
    assert(bits & 0x1 != 0 <==> rd) by (bit_vector)
        requires bits == (if rd { 0x1i16 } else { 0i16 }) | (if wr { 0x4i16 } else { 0i16 }) | (if pr { 0x2i16 } else { 0i16 });
    assert(bits & 0x2 != 0 <==> pr) by (bit_vector)
        requires bits == (if rd { 0x1i16 } else { 0i16 }) | (if wr { 0x4i16 } else { 0i16 }) | (if pr { 0x2i16 } else { 0i16 });
    assert(bits & 0x4 != 0 <==> wr) by (bit_vector)
        requires bits == (if rd { 0x1i16 } else { 0i16 }) | (if wr { 0x4i16 } else { 0i16 }) | (if pr { 0x2i16 } else { 0i16 });
    assert(bits & 0x8 == 0 && bits & 0x10 == 0) by (bit_vector)
        requires bits == (if rd { 0x1i16 } else { 0i16 }) | (if wr { 0x4i16 } else { 0i16 }) | (if pr { 0x2i16 } else { 0i16 });
    let a = bits & 0x1 != 0 || bits & 0x2 != 0;
    let b = bits & 0x2 != 0;
    let c = bits & 0x4 != 0;
    let d = bits & 0x8 != 0;
    let e = bits & 0x10 != 0;
    assert(out & 1 != 0 <==> a) by (bit_vector)
        requires out == (if a { 1usize } else { 0usize }) | (if b { 16usize } else { 0usize }) | (if c { 2usize } else { 0usize }) | (if d { 4usize } else { 0usize }) | (if e { 8usize } else { 0usize });
    assert(out & 2 != 0 <==> c) by (bit_vector)
        requires out == (if a { 1usize } else { 0usize }) | (if b { 16usize } else { 0usize }) | (if c { 2usize } else { 0usize }) | (if d { 4usize } else { 0usize }) | (if e { 8usize } else { 0usize });
    assert(out & 16 != 0 <==> b) by (bit_vector)
        requires out == (if a { 1usize } else { 0usize }) | (if b { 16usize } else { 0usize }) | (if c { 2usize } else { 0usize }) | (if d { 4usize } else { 0usize }) | (if e { 8usize } else { 0usize });
    assert(out & 4 != 0 <==> d) by (bit_vector)
        requires out == (if a { 1usize } else { 0usize }) | (if b { 16usize } else { 0usize }) | (if c { 2usize } else { 0usize }) | (if d { 4usize } else { 0usize }) | (if e { 8usize } else { 0usize });
    assert(out & 8 != 0 <==> e) by (bit_vector)
        requires out == (if a { 1usize } else { 0usize }) | (if b { 16usize } else { 0usize }) | (if c { 2usize } else { 0usize }) | (if d { 4usize } else { 0usize }) | (if e { 8usize } else { 0usize });
}

} // verus!
