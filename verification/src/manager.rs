//! The manager's configuration: the server address and the connection
//! options, fixed at construction and never mutated in place.

use vstd::prelude::*;

verus! {

/// Configuration of the connection manager: where to connect and with which
/// transport-level options.  Built once, read-only afterwards; the fluent
/// constructors consume a value and return a new one.
pub struct Manager {
    url: String,
    settings: ldap3::LdapConnSettings,
}

impl Manager {
    /// The stored server address, as the `String` held by the manager.
    pub closed spec fn address_string(&self) -> String {
        self.url
    }

    /// The characters of the stored server address.
    pub open spec fn address_spec(&self) -> Seq<char> {
        self.address_string()@
    }

    /// The stored connection options.
    pub closed spec fn settings_spec(&self) -> ldap3::LdapConnSettings {
        self.settings
    }

    /// Creates a new manager with the given URL and default connection
    /// options.  The URL can be anything that converts into a `String`; the
    /// manager stores exactly what the conversion returned.  No validation
    /// and no I/O happen here: a malformed address surfaces only when a
    /// connection is attempted.
    pub fn new<S: core::convert::Into<String>>(ldap_url: S) -> (r: Self)
        ensures
            call_ensures(<S as core::convert::Into<String>>::into, (ldap_url,), r.address_string()),
    {
        Manager { url: ldap_url.into(), settings: ldap3::LdapConnSettings::new() }
    }

    /// Replaces the connection options, keeping the address: the result
    /// stores exactly the given options and the receiver's address.
    pub fn with_connection_settings(self, settings: ldap3::LdapConnSettings) -> (r: Self)
        ensures
            r.settings_spec() == settings,
            r.address_string() == self.address_string(),
    {
        Manager { url: self.url, settings }
    }

    /// The stored server address, for the code that opens connections.
    pub fn address(&self) -> (r: &str)
        ensures
            r@ == self.address_spec(),
    {
        self.url.as_str()
    }

    /// The stored connection options, for the code that opens connections.
    /// A reference, because cloning the options is not loss-free for every
    /// value (a pre-opened stream does not survive a clone).
    pub fn settings(&self) -> (r: &ldap3::LdapConnSettings)
        ensures
            *r == self.settings_spec(),
    {
        &self.settings
    }
}

/// Construction is pure and the two steps are independent: whatever `new`
/// stored as the address survives `with_connection_settings`, and the
/// options stored at the end are exactly those given — for every address
/// and every option bundle.
pub proof fn lemma_construction_pure<S: core::convert::Into<String>>(
    ldap_url: S,
    opts: ldap3::LdapConnSettings,
    fresh: Manager,
    configured: Manager,
)
    requires
        call_ensures(Manager::new::<S>, (ldap_url,), fresh),
        call_ensures(Manager::with_connection_settings, (fresh, opts), configured),
    ensures
        configured.settings_spec() == opts,
        call_ensures(
            <S as core::convert::Into<String>>::into,
            (ldap_url,),
            configured.address_string(),
        ),
{
}

} // verus!
