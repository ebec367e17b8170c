//! The session store: a single slot holding zero or one authenticated
//! identity. Exclusive access is enforced by Rust's borrow rules here; the
//! lock that shares one store between concurrent callers lives in the portal
//! facade.

use vstd::prelude::*;

verus! {

/// The identity a slot value records, as a mathematical value.
pub open spec fn slot_view(v: Option<String>) -> Option<Seq<char>> {
    match v {
        Some(identity) => Some(identity@),
        None => None,
    }
}

/// Holds at most one authenticated identity at a time. Created empty; set
/// only by a successful authenticate operation; cleared by end-session;
/// read without mutation by query-session.
pub struct SessionStore {
    current: Option<String>,
}

impl View for SessionStore {
    type V = Option<Seq<char>>;

    closed spec fn view(&self) -> Option<Seq<char>> {
        slot_view(self.current)
    }
}

impl SessionStore {
    /// A fresh store: no identity, not active.
    pub fn new() -> (s: Self)
        ensures
            s@ is None,
    {
        SessionStore { current: None }
    }

    /// Overwrites any existing identity with the new one. Never fails.
    pub fn set(&mut self, identity: String)
        ensures
            final(self)@ == Some(identity@),
    {
        self.current = Some(identity);
    }

    /// Removes any identity. Idempotent: clearing an empty store is a no-op,
    /// not an error.
    pub fn clear(&mut self)
        ensures
            final(self)@ is None,
    {
        self.current = None;
    }

    /// A copy of the current identity, or absent. No mutation.
    pub fn snapshot(&self) -> (r: Option<String>)
        ensures
            slot_view(r) == self@,
    {
        match &self.current {
            Some(identity) => Some(identity.clone()),
            None => None,
        }
    }
}

} // verus!
