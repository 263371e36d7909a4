//! Connection manager for pooled LDAP sessions.
//!
//! A generic object pool needs two capabilities from the code that owns a
//! kind of resource: open a fresh resource, and restore a used one to a
//! clean state before it is handed out again.  For LDAP sessions those are:
//! connect to the configured server, and rebind the session to the anonymous
//! identity so that no caller inherits another caller's credentials.
//!
//! This crate holds the verified part of that manager: the immutable
//! configuration (server address and connection options), and the rule that
//! recycling rebinds with empty credentials, which is what makes a recycled
//! session anonymous.  The network calls themselves are asynchronous I/O
//! through the `ldap3` crate and live outside the verified library.

use vstd::prelude::*;

pub mod bind;
pub mod ext;
pub mod manager;

pub use bind::anonymous_rebind_credentials;
pub use bind::BindState;
pub use manager::Manager;
