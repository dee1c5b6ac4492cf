//! The choice of the backend that a connection goes to.
use vstd::prelude::*;

verus! {

/// Chooses backends. How it does is up to the implementation: the three
/// relations say what it may answer and do, and may allow everything.
pub trait BackendSelector {
    /// Whether `found` may be the answer to whether an address is a backend.
    open spec fn may_exist(&self, ip: [u8; 4], port: u16, found: bool) -> bool {
        true
    }

    /// Whether choosing may turn the selector into `after` and give `chosen`.
    open spec fn may_select(&self, after: &Self, chosen: Option<([u8; 4], u16)>) -> bool {
        true
    }

    /// Whether one more connection of a backend may turn the selector into
    /// `after`.
    open spec fn may_increase(&self, ip: [u8; 4], port: u16, after: &Self) -> bool {
        true
    }

    /// Says whether the address is that of a backend.
    fn backend_exist(&self, ip: [u8; 4], port: u16) -> (found: bool)
        ensures
            self.may_exist(ip, port, found),
    ;

    /// Chooses the backend of the next connection; `None` if there is none.
    fn select_backend(&mut self) -> (chosen: Option<([u8; 4], u16)>)
        ensures
            old(self).may_select(final(self), chosen),
    ;

    /// Notes one more connection to a backend.
    fn increase_conn(&mut self, ip: [u8; 4], port: u16)
        ensures
            old(self).may_increase(ip, port, final(self)),
    ;
}

} // verus!
