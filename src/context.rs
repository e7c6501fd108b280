use vstd::prelude::*;

use crate::claims::Claims;

verus! {

/// The per-request slot for the verified identity. It is filled once, by the
/// admission check, with the claims or with nothing (anonymous); later attempts to fill it
/// change nothing.
pub struct RequestContext {
    attached: bool,
    identity: Option<Claims>,
}

impl RequestContext {
    /// The slot has been filled.
    pub closed spec fn is_attached(&self) -> bool {
        self.attached
    }

    /// The identity in the slot; `None` while empty or when anonymous.
    pub closed spec fn identity(&self) -> Option<Claims> {
        self.identity
    }

    /// An empty slot, at the start of a request.
    pub fn new() -> (r: RequestContext)
        ensures
            !r.is_attached(),
            r.identity() is None,
    {
        RequestContext { attached: false, identity: None }
    }

    /// Fills the slot with `identity` if it is still empty; returns whether it
    /// did.
    pub fn attach(&mut self, identity: Option<Claims>) -> (r: bool)
        ensures
            r == !old(self).is_attached(),
            final(self).is_attached(),
            r ==> final(self).identity() == identity,
            !r ==> final(self).identity() == old(self).identity(),
    {
        if self.attached {
            false
        } else {
            self.attached = true;
            self.identity = identity;
            true
        }
    }

    pub fn is_filled(&self) -> (r: bool)
        ensures
            r == self.is_attached(),
    {
        self.attached
    }

    /// The verified claims, if the request carries any.
    pub fn claims(&self) -> (r: Option<Claims>)
        ensures
            r == self.identity(),
    {
        self.identity
    }
}

} // verus!
