use mio_poll::sys::awakener::{Awakener, IoOutcome, WAKEUP_BYTE};
use mio_poll::sys::poll::{wait_again, Events, Selector, SelectorIds};
use mio_poll::{Event, PollError, PollOpt, Ready, Token};

#[test]
fn new_checks_descriptors() {
    assert!(Awakener::new((-1, 4)).is_err());
    assert!(Awakener::new((3, -1)).is_err());
    assert_eq!(Awakener::new((3, 3)).err(), Some(PollError::InvalidInput));
    let a = Awakener::new((3, 4)).unwrap();
    assert_eq!(a.reader(), 3);
    assert_eq!(a.writer(), 4);
    assert_eq!(WAKEUP_BYTE, 1);
}

#[test]
fn wakeup_absorbs_would_block() {
    let a = Awakener::new((3, 4)).unwrap();
    assert_eq!(a.wakeup(IoOutcome::Done(1)), Ok(()));
    assert_eq!(a.wakeup(IoOutcome::WouldBlock), Ok(()));
    assert_eq!(a.wakeup(IoOutcome::Failed(9)), Err(PollError::Os(9)));
}

#[test]
fn cleanup_drains_until_empty() {
    let a = Awakener::new((3, 4)).unwrap();
    assert!(a.cleanup(IoOutcome::Done(128)));
    assert!(!a.cleanup(IoOutcome::Done(0)));
    assert!(!a.cleanup(IoOutcome::WouldBlock));
    assert!(!a.cleanup(IoOutcome::Failed(5)));
}

#[test]
fn awakener_registers_read_end() {
    let mut ids = SelectorIds::new();
    let mut s = Selector::new(&mut ids).unwrap();
    let a = Awakener::new((3, 4)).unwrap();
    let wake = Token(usize::MAX);
    assert_eq!(a.register(&mut s, wake, Ready::readable(), PollOpt::edge()), Ok(()));
    assert_eq!(s.entries()[0].fd, 3);
    assert_eq!(a.register(&mut s, wake, Ready::readable(), PollOpt::edge()), Err(PollError::AlreadyRegistered));
    assert_eq!(a.reregister(&mut s, wake, Ready::writable(), PollOpt::edge()), Ok(()));
    assert_eq!(s.entries()[0].events, libc::POLLOUT);
    let mut events = Events::with_capacity(2);
    assert!(!s.select(&mut events, wake, &vec![0]));
    assert_eq!(a.deregister(&mut s), Ok(()));
    assert!(s.entries().is_empty());
    assert_eq!(a.deregister(&mut s), Err(PollError::NotFound));
}

#[test]
fn wakeup_during_select_is_not_an_event() {
    let mut ids = SelectorIds::new();
    let mut s = Selector::new(&mut ids).unwrap();
    let a = Awakener::new((3, 4)).unwrap();
    let wake = Token(usize::MAX);
    a.register(&mut s, wake, Ready::readable(), PollOpt::edge()).unwrap();
    let mut events = Events::with_capacity(2);
    assert!(s.select(&mut events, wake, &vec![libc::POLLIN]));
    assert!(events.is_empty());
    assert!(!s.select(&mut events, wake, &vec![0]));
    assert!(events.is_empty());
}

#[test]
fn only_a_bare_wakeup_waits_again() {
    let mut events = Events::with_capacity(2);
    assert!(wait_again(true, false, &events));
    assert!(!wait_again(true, true, &events));
    assert!(!wait_again(false, false, &events));
    events.push_event(Event::new(Ready::readable(), Token(0)));
    assert!(!wait_again(true, false, &events));
}
