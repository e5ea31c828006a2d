//! The adapter that lets a borrowed raw socket take part in a registry.
use vstd::prelude::*;
use crate::interest::{Interest, Token};
use crate::registry::{
    applied, deregister_spec, register_spec, reregister_spec, status, RawSocket, Registration,
    RegistrationError, Registry,
};

verus! {

/// A non-owning view of a raw socket handle that can be registered with,
/// updated in and removed from a [`Registry`].
///
/// The adapter never closes, copies out or changes the handle: closing it
/// stays with whoever owns it, and each operation leaves both the adapter and
/// the handle it refers to as they were.
#[derive(Debug)]
pub struct SourceSocket<'a>(pub &'a RawSocket);

impl<'a> SourceSocket<'a> {
    /// Registers the handle with `registry` under `token` for `interests`.
    pub fn register(&mut self, registry: &mut Registry, token: Token, interests: Interest) -> (r: Result<
        (),
        RegistrationError,
    >)
        ensures
            *final(self) == *old(self),
            *final(self).0 == *old(self).0,
            r == status(register_spec(old(registry)@, *old(self).0, Registration { token, interests })),
            final(registry)@ == applied(
                old(registry)@,
                register_spec(old(registry)@, *old(self).0, Registration { token, interests }),
            ),
    {
        registry.add(*self.0, token, interests)
    }

    /// Replaces the token and interests under which the handle is registered
    /// with `registry`.
    pub fn reregister(&mut self, registry: &mut Registry, token: Token, interests: Interest) -> (r:
        Result<(), RegistrationError>)
        ensures
            *final(self) == *old(self),
            *final(self).0 == *old(self).0,
            r == status(reregister_spec(old(registry)@, *old(self).0, Registration { token, interests })),
            final(registry)@ == applied(
                old(registry)@,
                reregister_spec(old(registry)@, *old(self).0, Registration { token, interests }),
            ),
    {
        registry.modify(*self.0, token, interests)
    }

    /// Removes the handle's registration from `registry`.
    pub fn deregister(&mut self, registry: &mut Registry) -> (r: Result<(), RegistrationError>)
        ensures
            *final(self) == *old(self),
            *final(self).0 == *old(self).0,
            r == status(deregister_spec(old(registry)@, *old(self).0)),
            final(registry)@ == applied(old(registry)@, deregister_spec(old(registry)@, *old(self).0)),
    {
        registry.delete(*self.0)
    }
}

} // verus!
