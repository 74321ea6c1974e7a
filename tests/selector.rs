use mio_poll::sys::cvt;
use mio_poll::sys::poll::{Events, PollEntry, Selector, SelectorId, SelectorIds};
use mio_poll::{Event, PollError, PollOpt, Ready, Token};

fn selector() -> Selector {
    let mut ids = SelectorIds::new();
    Selector::new(&mut ids).unwrap()
}

#[test]
fn selector_ids_start_above_zero_and_grow() {
    let mut ids = SelectorIds::new();
    let a = Selector::new(&mut ids).unwrap();
    let b = Selector::new(&mut ids).unwrap();
    assert_eq!(a.id(), 1);
    assert_eq!(b.id(), 2);
    assert_eq!(ids.next_id(), Ok(3));
}

#[test]
fn register_appends_entry() {
    let mut s = selector();
    assert_eq!(s.register(5, Token(0), Ready::readable(), PollOpt::edge()), Ok(()));
    assert_eq!(s.register(6, Token(1), Ready::writable(), PollOpt::level()), Ok(()));
    assert_eq!(
        s.entries(),
        &vec![
            PollEntry { fd: 5, token: Token(0), events: libc::POLLIN },
            PollEntry { fd: 6, token: Token(1), events: libc::POLLOUT },
        ]
    );
}

#[test]
fn register_twice_is_already_registered() {
    let mut s = selector();
    s.register(5, Token(0), Ready::readable(), PollOpt::edge()).unwrap();
    assert_eq!(
        s.register(5, Token(1), Ready::writable(), PollOpt::edge()),
        Err(PollError::AlreadyRegistered)
    );
    assert_eq!(s.entries().len(), 1);
}

#[test]
fn reregister_replaces_interest() {
    let mut s = selector();
    s.register(5, Token(0), Ready::readable(), PollOpt::edge()).unwrap();
    s.register(6, Token(1), Ready::readable(), PollOpt::edge()).unwrap();
    assert_eq!(s.reregister(5, Token(2), Ready::writable(), PollOpt::edge()), Ok(()));
    assert_eq!(s.entries()[0], PollEntry { fd: 5, token: Token(2), events: libc::POLLOUT });
    assert_eq!(s.entries()[1], PollEntry { fd: 6, token: Token(1), events: libc::POLLIN });
}

#[test]
fn reregister_unknown_is_not_found() {
    let mut s = selector();
    assert_eq!(
        s.reregister(9, Token(0), Ready::readable(), PollOpt::edge()),
        Err(PollError::NotFound)
    );
}

#[test]
fn deregister_removes_entry() {
    let mut s = selector();
    s.register(5, Token(0), Ready::readable(), PollOpt::edge()).unwrap();
    s.register(6, Token(1), Ready::readable(), PollOpt::edge()).unwrap();
    assert_eq!(s.deregister(5), Ok(()));
    assert_eq!(s.entries(), &vec![PollEntry { fd: 6, token: Token(1), events: libc::POLLIN }]);
    assert_eq!(s.deregister(5), Err(PollError::NotFound));
}

#[test]
fn register_then_deregister_gives_no_event() {
    let mut s = selector();
    s.register(5, Token(0), Ready::readable(), PollOpt::edge()).unwrap();
    s.deregister(5).unwrap();
    let mut events = Events::with_capacity(8);
    assert!(!s.select(&mut events, Token(99), &vec![]));
    assert!(events.is_empty());
}

#[test]
fn foreign_selector_is_invalid_input() {
    let mut ids = SelectorIds::new();
    let mut a = Selector::new(&mut ids).unwrap();
    let mut b = Selector::new(&mut ids).unwrap();
    let mut binding = SelectorId::new();
    assert_eq!(
        a.register_checked(&mut binding, 5, Token(0), Ready::readable(), PollOpt::edge()),
        Ok(())
    );
    assert_eq!(
        b.register_checked(&mut binding, 5, Token(0), Ready::readable(), PollOpt::edge()),
        Err(PollError::InvalidInput)
    );
    assert!(b.entries().is_empty());
    assert_eq!(a.reregister(5, Token(0), Ready::writable(), PollOpt::edge()), Ok(()));
    assert_eq!(a.entries()[0].events, libc::POLLOUT);
}

#[test]
fn associate_keeps_first_selector() {
    let mut binding = SelectorId::new();
    assert_eq!(binding.associate(3), Ok(()));
    assert_eq!(binding.associate(3), Ok(()));
    assert_eq!(binding.associate(4), Err(PollError::InvalidInput));
}

#[test]
fn listener_and_peer_scenario() {
    let mut s = selector();
    s.register(10, Token(0), Ready::readable(), PollOpt::edge()).unwrap();
    s.register(11, Token(1), Ready::readable(), PollOpt::edge()).unwrap();
    let mut events = Events::with_capacity(1024);
    assert!(!s.select(&mut events, Token(usize::MAX), &vec![libc::POLLIN, 0]));
    assert_eq!(events.len(), 1);
    assert_eq!(events.get(0), Some(Event::new(Ready::readable(), Token(0))));
    assert_eq!(events.get(1), None);
    assert!(!s.select(&mut events, Token(usize::MAX), &vec![0, libc::POLLIN | libc::POLLHUP]));
    assert_eq!(events.len(), 1);
    let e = events.get(0).unwrap();
    assert_eq!(e.token(), Token(1));
    assert!(e.readiness().is_readable() && e.readiness().is_hup());
}

#[test]
fn quiet_selects_stay_empty() {
    let mut s = selector();
    s.register(10, Token(0), Ready::readable(), PollOpt::level()).unwrap();
    let mut events = Events::with_capacity(4);
    assert!(!s.select(&mut events, Token(9), &vec![libc::POLLIN]));
    assert_eq!(events.len(), 1);
    assert!(!s.select(&mut events, Token(9), &vec![0]));
    assert!(events.is_empty());
    assert!(!s.select(&mut events, Token(9), &vec![0]));
    assert!(events.is_empty());
}

#[test]
fn awakener_slot_stops_scan_without_event() {
    let mut s = selector();
    s.register(10, Token(0), Ready::readable(), PollOpt::edge()).unwrap();
    s.register(3, Token(usize::MAX), Ready::readable(), PollOpt::edge()).unwrap();
    s.register(11, Token(1), Ready::readable(), PollOpt::edge()).unwrap();
    let mut events = Events::with_capacity(4);
    let woken = s.select(&mut events, Token(usize::MAX), &vec![libc::POLLIN, libc::POLLIN, libc::POLLIN]);
    assert!(woken);
    assert_eq!(events.len(), 1);
    assert_eq!(events.get(0).unwrap().token(), Token(0));
    let woken = s.select(&mut events, Token(usize::MAX), &vec![0, libc::POLLIN, 0]);
    assert!(woken);
    assert!(events.is_empty());
}

#[test]
fn events_buffer_keeps_capacity_on_clear() {
    let mut events = Events::with_capacity(16);
    assert!(events.capacity() >= 16);
    events.push_event(Event::new(Ready::writable(), Token(4)));
    assert_eq!(events.len(), 1);
    assert_eq!(events.get(0), Some(Event::new(Ready::writable(), Token(4))));
    events.clear();
    assert!(events.is_empty());
    assert!(events.capacity() >= 16);
}

#[test]
fn pushed_priority_reads_back_readable() {
    let mut events = Events::with_capacity(2);
    events.push_event(Event::new(Ready::priority().union(Ready::hup()), Token(2)));
    assert_eq!(
        events.get(0),
        Some(Event::new(Ready::readable().union(Ready::priority()), Token(2)))
    );
}

#[test]
fn cvt_maps_minus_one_to_os_error() {
    assert_eq!(cvt(-1i32, 4), Err(PollError::Os(4)));
    assert_eq!(cvt(3i32, 4), Ok(3));
    assert_eq!(cvt(-1isize, 11), Err(PollError::Os(11)));
    assert_eq!(cvt(0isize, 11), Ok(0));
}
