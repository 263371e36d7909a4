//! Trusted boundary: declarations for items of outside crates, and of std
//! where vstd leaves them unspecified.  Nothing here is checked by the
//! verifier; each contract states only what the item's own source or
//! documentation shows.

use vstd::prelude::*;

verus! {

/// Makes `ldap3::LdapConnSettings` known to the verifier as an opaque type.
/// It is a bundle of transport-level options (connection timeout, TLS
/// behaviour, a pre-opened stream) that this library stores and hands back
/// unchanged but never looks into.
#[verifier::external_type_specification]
#[verifier::external_body]
pub struct ExLdapConnSettings(ldap3::LdapConnSettings);

/// Relies on `ldap3::LdapConnSettings::new`: builds the option bundle with
/// all settings at their defaults.  The value is opaque here, so nothing is
/// assumed of it.
pub assume_specification[ ldap3::LdapConnSettings::new ]() -> ldap3::LdapConnSettings;

/// Relies on `alloc`'s `impl From<&str> for String`: the new `String` holds
/// exactly the characters of the given slice.  vstd specifies `Into` only by
/// deferring to `From`, and leaves this `From` impl itself unspecified.
pub assume_specification<'a>[ <String as core::convert::From<&'a str>>::from ](s: &str) -> (r: String)
    ensures
        r@ == s@,
;

} // verus!
