//! Tokens and interest sets: the values a caller attaches to a registration.
use vstd::prelude::*;

verus! {

/// Caller-chosen identifier carried by every event of a registration.
#[derive(Clone, Copy, Debug, PartialEq, Eq, Structural, Hash)]
pub struct Token(pub usize);

/// Which readiness conditions a registration asks to hear about.
///
/// An interest set is never empty: it holds read readiness, write readiness,
/// or both.
#[derive(Clone, Copy, Debug, PartialEq, Eq, Structural)]
pub struct Interest {
    readable: bool,
    writable: bool,
}

impl Interest {
    #[verifier::type_invariant]
    spec fn inv(self) -> bool {
        self.readable || self.writable
    }

    /// Whether the set holds read readiness.
    pub closed spec fn has_read(self) -> bool {
        self.readable
    }

    /// Whether the set holds write readiness.
    pub closed spec fn has_write(self) -> bool {
        self.writable
    }

    /// The set that holds read readiness only.
    pub fn readable() -> (r: Interest)
        ensures
            r.has_read(),
            !r.has_write(),
    {
        Interest { readable: true, writable: false }
    }

    /// The set that holds write readiness only.
    pub fn writable() -> (r: Interest)
        ensures
            !r.has_read(),
            r.has_write(),
    {
        Interest { readable: false, writable: true }
    }

    /// The union of two sets.
    pub fn add(self, other: Interest) -> (r: Interest)
        ensures
            r.has_read() == (self.has_read() || other.has_read()),
            r.has_write() == (self.has_write() || other.has_write()),
    {
        proof {
            use_type_invariant(&self);
        }
        Interest { readable: self.readable || other.readable, writable: self.writable || other.writable }
    }

    pub fn is_readable(&self) -> (r: bool)
        ensures
            r == self.has_read(),
    {
        self.readable
    }

    pub fn is_writable(&self) -> (r: bool)
        ensures
            r == self.has_write(),
    {
        self.writable
    }
}

} // verus!
