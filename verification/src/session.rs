//! The single-slot, in-memory holder of the active derived key.
//!
//! The view of a `SessionManager` is the key in its slot, or `None`
//! while nobody is logged in. Storing replaces the slot unconditionally;
//! clearing overwrites the key bytes with zeros before the session is
//! dropped, and is a no-op on an empty slot. Sharing the slot between
//! threads, and surfacing a poisoned guard as `AuthError::Session`, is
//! the embedding program's concern: it wraps one manager in a
//! mutual-exclusion guard.

use vstd::prelude::*;

use crate::errors::AuthError;
use vstd::slice::slice_to_vec;

verus! {

/// An active session: the derived key and its creation time in Unix
/// seconds.
pub struct Session {
    pub key: Vec<u8>,
    pub created_at: i64,
}

impl Session {
    /// Overwrites every key byte with zero, so the secret does not
    /// outlive the session in memory.
    fn zeroize(&mut self)
        ensures
            final(self).key@ =~= Seq::new(old(self).key@.len(), |i: int| 0u8),
    {
        let n = self.key.len();
        let mut i: usize = 0;
        while i < n
            invariant
                i <= n,
                self.key@.len() == n,
                forall|j: int| 0 <= j < i ==> self.key@[j] == 0u8,
            decreases n - i,
        {
            self.key[i] = 0;
            i = i + 1;
        }
    }
}

/// Relies on chrono::Utc::now: the current wall-clock time in Unix
/// seconds. Nothing is promised about the value.
#[verifier::external_body]
fn now_unix_seconds() -> i64 {
    chrono::Utc::now().timestamp()
}

/// The single optional slot holding the active session.
pub struct SessionManager {
    session: Option<Session>,
}

impl View for SessionManager {
    type V = Option<Seq<u8>>;

    closed spec fn view(&self) -> Option<Seq<u8>> {
        match self.session {
            Some(s) => Some(s.key@),
            None => None,
        }
    }
}

impl SessionManager {
    /// A fresh manager with an empty slot: nobody is logged in.
    pub fn new() -> (r: SessionManager)
        ensures
            r@ is None,
    {
        SessionManager { session: None }
    }

    /// Unconditionally replaces the slot with a fresh session holding
    /// this key.
    pub fn store_session(&mut self, key: Vec<u8>) -> (r: Result<(), AuthError>)
        ensures
            final(self)@ == Some(key@),
            r is Ok,
    {
        let created_at = now_unix_seconds();
        self.session = Some(Session { key, created_at });
        Ok(())
    }

    /// Hands out a copy of the active key, or `NotLoggedIn` while the
    /// slot is empty.
    pub fn get_session_key(&self) -> (r: Result<Vec<u8>, AuthError>)
        ensures
            self@ matches Some(k) ==> (r matches Ok(v) && v@ == k),
            self@ is None ==> (r matches Err(e) && e is NotLoggedIn),
    {
        match &self.session {
            Some(s) => Ok(slice_to_vec(s.key.as_slice())),
            None => Err(AuthError::NotLoggedIn),
        }
    }

    /// Non-failing probe: whether a session is active.
    pub fn has_active_session(&self) -> (r: bool)
        ensures
            r == (self@ is Some),
    {
        match &self.session {
            Some(_) => true,
            None => false,
        }
    }

    /// Empties the slot. The key bytes are overwritten with zeros before
    /// the session is dropped; on an empty slot this is a safe no-op.
    pub fn clear_session(&mut self) -> (r: Result<(), AuthError>)
        ensures
            final(self)@ is None,
            r is Ok,
    {
        match &mut self.session {
            Some(s) => {
                s.zeroize();
            },
            None => {},
        }
        self.session = None;
        Ok(())
    }
}

impl Default for SessionManager {
    fn default() -> (r: Self)
        ensures
            r@ is None,
    {
        Self::new()
    }
}

} // verus!
