//! The capability negotiator: decides when the virtual pointer object may be
//! created. It is created once the display server has announced pointer
//! capability and the pointer-manager global was already bound; after that
//! the binding is terminal for the life of the process.

use vstd::prelude::*;

verus! {

/// Negotiation state: whether the pointer-manager global has been bound, and
/// whether the virtual pointer object has been created from it.
pub struct Negotiator {
    manager_bound: bool,
    pointer_bound: bool,
}

impl Negotiator {
    /// Whether the pointer-manager global has been bound.
    pub closed spec fn spec_manager_bound(&self) -> bool {
        self.manager_bound
    }

    /// Whether the virtual pointer object has been created.
    pub closed spec fn spec_pointer_bound(&self) -> bool {
        self.pointer_bound
    }

    /// The unbound starting state.
    pub fn new() -> (n: Self)
        ensures
            !n.spec_manager_bound(),
            !n.spec_pointer_bound(),
    {
        Negotiator { manager_bound: false, pointer_bound: false }
    }

    /// Record that the pointer-manager global was discovered and bound.
    pub fn on_manager_bound(&mut self)
        ensures
            final(self).spec_manager_bound(),
            final(self).spec_pointer_bound() == old(self).spec_pointer_bound(),
    {
        self.manager_bound = true;
    }

    /// Decide on a capability announcement from the seat: the virtual
    /// pointer is to be created exactly when the announcement carries
    /// pointer capability, the manager is bound, and no pointer object
    /// exists yet. Once created, the binding never reverts.
    pub fn on_pointer_capability(&mut self, has_pointer: bool) -> (create: bool)
        ensures
            create == (has_pointer && old(self).spec_manager_bound() && !old(
                self,
            ).spec_pointer_bound()),
            final(self).spec_pointer_bound() == (old(self).spec_pointer_bound() || create),
            final(self).spec_manager_bound() == old(self).spec_manager_bound(),
    {
        if has_pointer && self.manager_bound && !self.pointer_bound {
            self.pointer_bound = true;
            true
        } else {
            false
        }
    }

    /// Whether emission may reach the sink yet.
    pub fn is_pointer_bound(&self) -> (b: bool)
        ensures
            b == self.spec_pointer_bound(),
    {
        self.pointer_bound
    }

    /// Whether the pointer-manager global has been bound.
    pub fn is_manager_bound(&self) -> (b: bool)
        ensures
            b == self.spec_manager_bound(),
    {
        self.manager_bound
    }
}

} // verus!
