//! The registration table: one registration per raw socket handle.
use vstd::prelude::*;
use std::collections::HashMap;
use crate::interest::{Interest, Token};

verus! {

broadcast use vstd::std_specs::hash::group_hash_axioms;

/// An OS-level socket identifier, owned outside this library.
pub type RawSocket = u64;

/// What a registry holds for one handle: the token its events carry and the
/// conditions it asks to hear about.
#[derive(Clone, Copy, Debug, PartialEq, Eq, Structural)]
pub struct Registration {
    pub token: Token,
    pub interests: Interest,
}

/// A readiness notification for a registered handle.
#[derive(Clone, Copy, Debug, PartialEq, Eq, Structural)]
pub struct Event {
    pub token: Token,
    pub readable: bool,
    pub writable: bool,
}

/// Why a registration operation failed.
#[derive(Clone, Copy, Debug, PartialEq, Eq, Structural)]
pub enum RegistrationError {
    /// The handle is already registered with this registry.
    AlreadyExists,
    /// The handle is not registered with this registry.
    NotFound,
}

/// The registrations after `register`, or the error it gives.
pub open spec fn register_spec(m: Map<RawSocket, Registration>, s: RawSocket, reg: Registration)
    -> Result<Map<RawSocket, Registration>, RegistrationError> {
    if m.contains_key(s) {
        Err(RegistrationError::AlreadyExists)
    } else {
        Ok(m.insert(s, reg))
    }
}

/// The registrations after `reregister`, or the error it gives.
pub open spec fn reregister_spec(m: Map<RawSocket, Registration>, s: RawSocket, reg: Registration)
    -> Result<Map<RawSocket, Registration>, RegistrationError> {
    if m.contains_key(s) {
        Ok(m.insert(s, reg))
    } else {
        Err(RegistrationError::NotFound)
    }
}

/// The registrations after `deregister`, or the error it gives.
pub open spec fn deregister_spec(m: Map<RawSocket, Registration>, s: RawSocket)
    -> Result<Map<RawSocket, Registration>, RegistrationError> {
    if m.contains_key(s) {
        Ok(m.remove(s))
    } else {
        Err(RegistrationError::NotFound)
    }
}

/// The registrations a registry holds after an operation with outcome `step`:
/// the new ones on success, the old ones `m` on failure.
pub open spec fn applied(
    m: Map<RawSocket, Registration>,
    step: Result<Map<RawSocket, Registration>, RegistrationError>,
) -> Map<RawSocket, Registration> {
    match step {
        Ok(n) => n,
        Err(_) => m,
    }
}

/// What an operation with outcome `step` returns to its caller.
pub open spec fn status(step: Result<Map<RawSocket, Registration>, RegistrationError>) -> Result<
    (),
    RegistrationError,
> {
    match step {
        Ok(_) => Ok(()),
        Err(e) => Err(e),
    }
}

/// The event a registration yields when its handle reports the given
/// readiness: the conditions it asked for that are ready, tagged with its
/// token, or none if no such condition is ready.
pub open spec fn event_for(reg: Registration, readable: bool, writable: bool) -> Option<Event> {
    let r = readable && reg.interests.has_read();
    let w = writable && reg.interests.has_write();
    if r || w {
        Some(Event { token: reg.token, readable: r, writable: w })
    } else {
        None
    }
}

/// The event that registrations `m` yield when handle `s` reports the given
/// readiness.
pub open spec fn event_of(m: Map<RawSocket, Registration>, s: RawSocket, readable: bool, writable: bool)
    -> Option<Event> {
    if m.contains_key(s) {
        event_for(m[s], readable, writable)
    } else {
        None
    }
}

/// The table of registrations of a readiness registry.
pub struct Registry {
    table: HashMap<RawSocket, Registration>,
}

impl View for Registry {
    type V = Map<RawSocket, Registration>;

    closed spec fn view(&self) -> Map<RawSocket, Registration> {
        self.table@
    }
}

impl Registry {
    /// A registry with no registrations.
    pub fn new() -> (r: Registry)
        ensures
            r@ == Map::<RawSocket, Registration>::empty(),
    {
        Registry { table: HashMap::new() }
    }

    /// Whether handle `s` is registered.
    pub fn is_registered(&self, s: RawSocket) -> (r: bool)
        ensures
            r == self@.contains_key(s),
    {
        self.table.contains_key(&s)
    }

    /// The registration of handle `s`, if any.
    pub fn registration(&self, s: RawSocket) -> (r: Option<Registration>)
        ensures
            r == (if self@.contains_key(s) { Some(self@[s]) } else { None }),
    {
        match self.table.get(&s) {
            Some(reg) => Some(*reg),
            None => None,
        }
    }

    /// Starts delivering events for handle `s`, tagged `token`, for the
    /// conditions in `interests`; fails if `s` is already registered.
    pub fn add(&mut self, s: RawSocket, token: Token, interests: Interest) -> (r: Result<(), RegistrationError>)
        ensures
            r == status(register_spec(old(self)@, s, Registration { token, interests })),
            final(self)@ == applied(old(self)@, register_spec(old(self)@, s, Registration { token, interests })),
    {
        if self.table.contains_key(&s) {
            Err(RegistrationError::AlreadyExists)
        } else {
            self.table.insert(s, Registration { token, interests });
            Ok(())
        }
    }

    /// Replaces the token and interests of registered handle `s`; fails if
    /// `s` is not registered.
    pub fn modify(&mut self, s: RawSocket, token: Token, interests: Interest) -> (r: Result<(), RegistrationError>)
        ensures
            r == status(reregister_spec(old(self)@, s, Registration { token, interests })),
            final(self)@ == applied(old(self)@, reregister_spec(old(self)@, s, Registration { token, interests })),
    {
        if self.table.contains_key(&s) {
            self.table.insert(s, Registration { token, interests });
            Ok(())
        } else {
            Err(RegistrationError::NotFound)
        }
    }

    /// Stops all events for handle `s`; fails if `s` is not registered.
    pub fn delete(&mut self, s: RawSocket) -> (r: Result<(), RegistrationError>)
        ensures
            r == status(deregister_spec(old(self)@, s)),
            final(self)@ == applied(old(self)@, deregister_spec(old(self)@, s)),
    {
        if self.table.contains_key(&s) {
            self.table.remove(&s);
            Ok(())
        } else {
            Err(RegistrationError::NotFound)
        }
    }

    /// The event for handle `s` when the OS reports it read-ready and/or
    /// write-ready.
    pub fn event(&self, s: RawSocket, readable: bool, writable: bool) -> (r: Option<Event>)
        ensures
            r == event_of(self@, s, readable, writable),
    {
        match self.table.get(&s) {
            Some(reg) => {
                let rd = readable && reg.interests.is_readable();
                let wr = writable && reg.interests.is_writable();
                if rd || wr {
                    Some(Event { token: reg.token, readable: rd, writable: wr })
                } else {
                    None
                }
            },
            None => None,
        }
    }
}

} // verus!
