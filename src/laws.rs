//! Properties of registration sequences, stated over the registry's model.
use vstd::prelude::*;
use crate::registry::{
    applied, deregister_spec, event_for, event_of, register_spec, reregister_spec, RawSocket,
    Registration, RegistrationError,
};

verus! {

/// Registering a handle that is not registered and then deregistering it
/// both succeed, and leave the registry as it was, with no events for the
/// handle.
pub proof fn register_then_deregister(m: Map<RawSocket, Registration>, s: RawSocket, reg: Registration)
    requires
        !m.contains_key(s),
    ensures
        register_spec(m, s, reg) is Ok,
        deregister_spec(applied(m, register_spec(m, s, reg)), s) == Ok::<
            Map<RawSocket, Registration>,
            RegistrationError,
        >(m),
        forall|rd: bool, wr: bool|
            #[trigger] event_of(applied(m, deregister_spec(applied(m, register_spec(m, s, reg)), s)), s, rd, wr)
                is None,
{
    assert(m.insert(s, reg).remove(s) =~= m);
}

/// Registering the same handle twice with no deregistration in between fails
/// the second time.
pub proof fn register_twice_fails(m: Map<RawSocket, Registration>, s: RawSocket, first: Registration, second: Registration)
    ensures
        register_spec(applied(m, register_spec(m, s, first)), s, second) == Err::<
            Map<RawSocket, Registration>,
            RegistrationError,
        >(RegistrationError::AlreadyExists),
{
}

/// Deregistering a handle that is not registered fails and changes nothing.
pub proof fn deregister_unregistered_fails(m: Map<RawSocket, Registration>, s: RawSocket)
    requires
        !m.contains_key(s),
    ensures
        deregister_spec(m, s) == Err::<Map<RawSocket, Registration>, RegistrationError>(
            RegistrationError::NotFound,
        ),
        applied(m, deregister_spec(m, s)) == m,
{
}

/// Reregistering a registered handle succeeds, and from then on its events
/// carry the new token and follow the new interests alone; other handles keep
/// their registrations.
pub proof fn reregister_retags(m: Map<RawSocket, Registration>, s: RawSocket, reg: Registration)
    requires
        m.contains_key(s),
    ensures
        reregister_spec(m, s, reg) is Ok,
        forall|rd: bool, wr: bool|
            #[trigger] event_of(applied(m, reregister_spec(m, s, reg)), s, rd, wr) == event_for(reg, rd, wr),
        forall|rd: bool, wr: bool|
            #[trigger] event_of(applied(m, reregister_spec(m, s, reg)), s, rd, wr) matches Some(e)
                ==> e.token == reg.token,
        forall|t: RawSocket|
            t != s ==> #[trigger] applied(m, reregister_spec(m, s, reg)).contains_key(t) == m.contains_key(t)
                && (m.contains_key(t) ==> applied(m, reregister_spec(m, s, reg))[t] == m[t]),
{
}

/// Reregistering a handle that is not registered fails and changes nothing.
pub proof fn reregister_unregistered_fails(m: Map<RawSocket, Registration>, s: RawSocket, reg: Registration)
    requires
        !m.contains_key(s),
    ensures
        reregister_spec(m, s, reg) == Err::<Map<RawSocket, Registration>, RegistrationError>(
            RegistrationError::NotFound,
        ),
        applied(m, reregister_spec(m, s, reg)) == m,
{
}

} // verus!
