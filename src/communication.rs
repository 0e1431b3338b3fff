//! The messages exchanged between the coordinator and the moderators, and
//! the choice of body for each moderator in a fan-out.
use vstd::prelude::*;

pub mod decryption;
pub mod setup;
pub mod signing;

verus! {

/// The bodies of one fan-out: one body for every moderator, or one body per
/// moderator in moderator order.
pub enum ModeratorRequest<T> {
    Same(T),
    Unique(Vec<T>),
}

impl<T> ModeratorRequest<T> {
    /// Whether the request holds a body for each of `n` moderators.
    pub open spec fn covers(&self, n: nat) -> bool {
        match self {
            ModeratorRequest::Same(_) => true,
            ModeratorRequest::Unique(bodies) => bodies@.len() == n,
        }
    }

    /// The body meant for moderator `i` (counting from zero).
    pub open spec fn body_spec(&self, i: int) -> T {
        match self {
            ModeratorRequest::Same(body) => *body,
            ModeratorRequest::Unique(bodies) => bodies@[i],
        }
    }

    /// The body to send to moderator `i` (counting from zero).
    pub fn body_for(&self, i: usize) -> (r: &T)
        requires
            self is Unique ==> i < self->Unique_0@.len(),
        ensures
            *r == self.body_spec(i as int),
    {
        match self {
            ModeratorRequest::Same(body) => body,
            ModeratorRequest::Unique(bodies) => &bodies[i],
        }
    }
}

} // verus!
