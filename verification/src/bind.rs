//! The rebind rule that recycling enforces.
//!
//! Every session handed out of the pool must be anonymous unless the caller
//! authenticates it afterwards.  Recycling guarantees this by issuing one
//! simple bind with empty name and empty password before a session re-enters
//! the free list; in the directory protocol such a bind asserts no identity.

use vstd::prelude::*;

verus! {

/// The identity a directory session asserts, as far as this library cares:
/// none, or some authenticated identity.
pub enum BindState {
    /// No identity is asserted on the session.
    Anonymous,
    /// Some identity was asserted by a simple bind with credentials.
    Authenticated,
}

/// The identity a simple bind with the given name and password leaves on a
/// session: empty name and empty password assert no identity at all.
pub open spec fn bind_outcome(dn: Seq<char>, pw: Seq<char>) -> BindState {
    if dn.len() == 0 && pw.len() == 0 {
        BindState::Anonymous
    } else {
        BindState::Authenticated
    }
}

/// A simple bind replaces a session's identity outright: the state it
/// leaves depends only on the new credentials, never on what the session
/// asserted before.
pub open spec fn after_simple_bind(prior: BindState, dn: Seq<char>, pw: Seq<char>) -> BindState {
    bind_outcome(dn, pw)
}

/// The credentials that recycling rebinds with: empty name and empty
/// password, the anonymous identity.
pub fn anonymous_rebind_credentials() -> (r: (String, String))
    ensures
        r.0@.len() == 0,
        r.1@.len() == 0,
        bind_outcome(r.0@, r.1@) == BindState::Anonymous,
{
    (String::new(), String::new())
}

/// Round trip: whatever identity a caller bound to a session — anonymous or
/// authenticated with any credentials — one simple bind with empty name and
/// empty password leaves the session anonymous again.
pub proof fn lemma_rebind_restores_anonymity(prior: BindState, dn: Seq<char>, pw: Seq<char>)
    requires
        dn.len() == 0,
        pw.len() == 0,
    ensures
        after_simple_bind(prior, dn, pw) == BindState::Anonymous,
{
}

} // verus!
