use vstd::prelude::*;

use super::poll::{has_fd, interest_bits, PollEntry, Selector};
use super::PollError;
use crate::event::{PollOpt, Ready, Token};

verus! {

/// How one read or write on a non-blocking descriptor ended.
#[derive(Clone, Copy, Debug, PartialEq, Eq, Structural)]
pub enum IoOutcome {
    /// It moved this many bytes.
    Done(usize),
    /// It would have blocked: the pipe was full, or empty.
    WouldBlock,
    /// It failed with this error number.
    Failed(i32),
}

/// The byte written to wake a blocked `select`.
pub const WAKEUP_BYTE: u8 = 1;

/// Wakes a thread blocked in `select` from any other thread, through a pipe
/// whose read end is registered with the selector.
pub struct Awakener {
    reader: i32,
    writer: i32,
}

impl Awakener {
    pub closed spec fn reader_spec(&self) -> i32 {
        self.reader
    }

    pub closed spec fn writer_spec(&self) -> i32 {
        self.writer
    }

    /// Builds an awakener on the two ends of a pipe, `(read end, write end)`.
    /// Fails with `InvalidInput` when either descriptor is negative or the two
    /// are the same.
    pub fn new(pipe: (i32, i32)) -> (r: Result<Awakener, PollError>)
        ensures
            (pipe.0 < 0 || pipe.1 < 0 || pipe.0 == pipe.1) ==> r == Err::<Awakener, PollError>(
                PollError::InvalidInput,
            ),
            !(pipe.0 < 0 || pipe.1 < 0 || pipe.0 == pipe.1) ==> r.is_ok() && r.unwrap().reader_spec()
                == pipe.0 && r.unwrap().writer_spec() == pipe.1,
    {
        let (reader, writer) = pipe;
        if reader < 0 || writer < 0 || reader == writer {
            Err(PollError::InvalidInput)
        } else {
            Ok(Awakener { reader, writer })
        }
    }

    /// The read end, the one that is registered.
    pub fn reader(&self) -> (r: i32)
        ensures
            r == self.reader_spec(),
    {
        self.reader
    }

    /// The write end, the one that `WAKEUP_BYTE` is written to.
    pub fn writer(&self) -> (r: i32)
        ensures
            r == self.writer_spec(),
    {
        self.writer
    }

    /// The result of a wakeup, given how the write of `WAKEUP_BYTE` ended. A
    /// full pipe means a wakeup is already pending, which is success too.
    pub fn wakeup(&self, written: IoOutcome) -> (r: Result<(), PollError>)
        ensures
            r == match written {
                IoOutcome::Failed(e) => Err::<(), PollError>(PollError::Os(e)),
                _ => Ok::<(), PollError>(()),
            },
    {
        match written {
            IoOutcome::Failed(e) => Err(PollError::Os(e)),
            _ => Ok(()),
        }
    }

    /// Whether draining goes on after a read of the read end ended with
    /// `read`: only a read that got bytes may leave more behind.
    pub fn cleanup(&self, read: IoOutcome) -> (r: bool)
        ensures
            r == match read {
                IoOutcome::Done(n) => n > 0,
                _ => false,
            },
    {
        match read {
            IoOutcome::Done(n) => n > 0,
            _ => false,
        }
    }

    /// Registers the read end with `selector` under `token`.
    pub fn register(
        &self,
        selector: &mut Selector,
        token: Token,
        interest: Ready,
        opts: PollOpt,
    ) -> (r: Result<(), PollError>)
        requires
            old(selector)@.wf(),
        ensures
            final(selector)@.wf(),
            final(selector)@.id == old(selector)@.id,
            has_fd(old(selector)@.entries, self.reader_spec()) ==> r == Err::<(), PollError>(
                PollError::AlreadyRegistered,
            ) && final(selector)@ == old(selector)@,
            !has_fd(old(selector)@.entries, self.reader_spec()) ==> r == Ok::<(), PollError>(())
                && final(selector)@.entries == old(selector)@.entries.push(
                PollEntry { fd: self.reader_spec(), token, events: interest_bits(interest) },
            ),
    {
        selector.register(self.reader, token, interest, opts)
    }

    /// Changes the token and interest of the read end's registration.
    pub fn reregister(
        &self,
        selector: &mut Selector,
        token: Token,
        interest: Ready,
        opts: PollOpt,
    ) -> (r: Result<(), PollError>)
        requires
            old(selector)@.wf(),
        ensures
            final(selector)@.wf(),
            final(selector)@.id == old(selector)@.id,
            !has_fd(old(selector)@.entries, self.reader_spec()) ==> r == Err::<(), PollError>(
                PollError::NotFound,
            ) && final(selector)@ == old(selector)@,
            has_fd(old(selector)@.entries, self.reader_spec()) ==> r == Ok::<(), PollError>(())
                && final(selector)@.entries.len() == old(selector)@.entries.len() && forall|i: int|
                0 <= i < old(selector)@.entries.len() ==> #[trigger] final(selector)@.entries[i] == (
                if old(selector)@.entries[i].fd == self.reader_spec() {
                    PollEntry { fd: self.reader_spec(), token, events: interest_bits(interest) }
                } else {
                    old(selector)@.entries[i]
                }),
    {
        selector.reregister(self.reader, token, interest, opts)
    }

    /// Removes the read end's registration.
    pub fn deregister(&self, selector: &mut Selector) -> (r: Result<(), PollError>)
        requires
            old(selector)@.wf(),
        ensures
            final(selector)@.wf(),
            final(selector)@.id == old(selector)@.id,
            !has_fd(old(selector)@.entries, self.reader_spec()) ==> r == Err::<(), PollError>(
                PollError::NotFound,
            ) && final(selector)@ == old(selector)@,
            has_fd(old(selector)@.entries, self.reader_spec()) ==> r == Ok::<(), PollError>(())
                && exists|i: int|
                0 <= i < old(selector)@.entries.len() && old(selector)@.entries[i].fd
                    == self.reader_spec() && final(selector)@.entries == old(selector)@.entries.remove(i),
            !has_fd(final(selector)@.entries, self.reader_spec()),
    {
        selector.deregister(self.reader)
    }
}

} // verus!
