use socket_registry::{Event, Interest, RawSocket, RegistrationError, Registry, SourceSocket, Token};

#[test]
fn register_reregister_deregister_sequence() {
    let h: RawSocket = 42;
    let mut registry = Registry::new();

    assert_eq!(SourceSocket(&h).register(&mut registry, Token(1), Interest::readable()), Ok(()));
    assert_eq!(
        registry.event(h, true, true),
        Some(Event { token: Token(1), readable: true, writable: false })
    );

    assert_eq!(SourceSocket(&h).reregister(&mut registry, Token(2), Interest::writable()), Ok(()));
    assert_eq!(
        registry.event(h, true, true),
        Some(Event { token: Token(2), readable: false, writable: true })
    );
    assert_eq!(registry.event(h, true, false), None);

    assert_eq!(SourceSocket(&h).deregister(&mut registry), Ok(()));
    assert_eq!(SourceSocket(&h).deregister(&mut registry), Err(RegistrationError::NotFound));
    assert_eq!(h, 42);
}

#[test]
fn register_then_deregister_restores_registry() {
    let h: RawSocket = 3;
    let other: RawSocket = 4;
    let mut registry = Registry::new();
    assert_eq!(SourceSocket(&other).register(&mut registry, Token(9), Interest::readable()), Ok(()));

    let mut source = SourceSocket(&h);
    assert_eq!(source.register(&mut registry, Token(0), Interest::readable().add(Interest::writable())), Ok(()));
    assert!(registry.is_registered(h));
    assert_eq!(source.deregister(&mut registry), Ok(()));
    assert!(!registry.is_registered(h));
    assert_eq!(registry.event(h, true, true), None);
    assert!(registry.is_registered(other));
    assert_eq!(registry.registration(other).map(|r| r.token), Some(Token(9)));
}

#[test]
fn second_register_fails() {
    let h: RawSocket = 10;
    let mut registry = Registry::new();
    assert_eq!(SourceSocket(&h).register(&mut registry, Token(1), Interest::readable()), Ok(()));
    assert_eq!(
        SourceSocket(&h).register(&mut registry, Token(2), Interest::writable()),
        Err(RegistrationError::AlreadyExists)
    );
    // The first registration is kept unchanged.
    let reg = registry.registration(h).unwrap();
    assert_eq!(reg.token, Token(1));
    assert!(reg.interests.is_readable());
    assert!(!reg.interests.is_writable());
}

#[test]
fn deregister_never_registered_fails() {
    let h: RawSocket = 11;
    let mut registry = Registry::new();
    assert_eq!(SourceSocket(&h).deregister(&mut registry), Err(RegistrationError::NotFound));
    assert!(!registry.is_registered(h));
}

#[test]
fn reregister_changes_token_of_events() {
    let h: RawSocket = 12;
    let mut registry = Registry::new();
    let both = Interest::readable().add(Interest::writable());
    assert_eq!(SourceSocket(&h).register(&mut registry, Token(5), both), Ok(()));
    assert_eq!(SourceSocket(&h).reregister(&mut registry, Token(6), both), Ok(()));
    assert_eq!(
        registry.event(h, true, false),
        Some(Event { token: Token(6), readable: true, writable: false })
    );
    assert_eq!(
        registry.event(h, false, true),
        Some(Event { token: Token(6), readable: false, writable: true })
    );
}

#[test]
fn reregister_unregistered_fails() {
    let h: RawSocket = 13;
    let mut registry = Registry::new();
    assert_eq!(
        SourceSocket(&h).reregister(&mut registry, Token(1), Interest::readable()),
        Err(RegistrationError::NotFound)
    );
    assert!(!registry.is_registered(h));
}

#[test]
fn operations_leave_handle_unchanged() {
    let h: RawSocket = 0xdead_beef;
    let mut registry = Registry::new();
    let mut source = SourceSocket(&h);
    let _ = source.register(&mut registry, Token(1), Interest::readable());
    assert_eq!(*source.0, 0xdead_beef);
    let _ = source.reregister(&mut registry, Token(2), Interest::writable());
    assert_eq!(*source.0, 0xdead_beef);
    let _ = source.deregister(&mut registry);
    assert_eq!(*source.0, 0xdead_beef);
    assert_eq!(h, 0xdead_beef);
}

#[test]
fn no_event_without_ready_interest() {
    let h: RawSocket = 14;
    let mut registry = Registry::new();
    assert_eq!(SourceSocket(&h).register(&mut registry, Token(3), Interest::readable()), Ok(()));
    assert_eq!(registry.event(h, false, true), None);
    assert_eq!(registry.event(h, false, false), None);
    assert_eq!(registry.event(15, true, true), None);
}

#[test]
fn interest_sets() {
    let r = Interest::readable();
    let w = Interest::writable();
    assert!(r.is_readable() && !r.is_writable());
    assert!(!w.is_readable() && w.is_writable());
    let both = r.add(w);
    assert!(both.is_readable() && both.is_writable());
    assert_eq!(r.add(r), r);
}
