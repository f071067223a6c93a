//! The pool error type.

use vstd::prelude::*;
use vstd::string::{to_string_from_display_ensures, StringExecFns};

verus! {

/// An error returned by a [`Pool`](crate::Pool) operation.
///
/// The type parameter `E` is the manager's own error type
/// ([`Manager::Error`](crate::Manager::Error)); a failure inside the manager is
/// carried unchanged in [`Error::Backend`].
#[non_exhaustive]
#[derive(Debug)]
pub enum Error<E> {
    /// The manager failed to create a resource. Carries the manager's error.
    Backend(E),
    /// The configured wait elapsed before a resource became available.
    Timeout,
    /// The pool has been shut down with [`Pool::close`](crate::Pool::close).
    Closed,
    /// The pool could not be built because its configuration is invalid; the
    /// message names the violated constraint.
    InvalidConfig(&'static str),
}

/// Text of [`Error::Timeout`].
pub open spec fn timeout_text() -> Seq<char> {
    "timed out waiting for a resource from the pool"@
}

/// Text of [`Error::Closed`].
pub open spec fn closed_text() -> Seq<char> {
    "the pool has been closed"@
}

/// Text that starts the message of [`Error::Backend`].
pub open spec fn backend_prefix() -> Seq<char> {
    "resource manager error: "@
}

/// Text that starts the message of [`Error::InvalidConfig`].
pub open spec fn invalid_config_prefix() -> Seq<char> {
    "invalid pool configuration: "@
}

impl<E> Error<E> {
    /// The human-readable message for this error.
    ///
    /// A backend failure is reported as `resource manager error: ` followed by
    /// the manager error's own `Display` text; an invalid configuration as
    /// `invalid pool configuration: ` followed by the violated constraint.
    pub fn to_string(&self) -> (msg: String)
        where
            E: std::fmt::Display,
        ensures
            self is Timeout ==> msg@ == timeout_text(),
            self is Closed ==> msg@ == closed_text(),
            self matches Error::InvalidConfig(reason) ==> msg@ == invalid_config_prefix() + reason@,
            self matches Error::Backend(source) ==> exists|text: String|
                to_string_from_display_ensures::<E>(source, text) && msg@ == backend_prefix()
                    + text@,
    {
        match self {
            Error::Backend(source) => {
                let text = source.to_string();
                let msg = String::from_str("resource manager error: ").concat(text.as_str());
                proof {
                    reveal_strlit("resource manager error: ");
                }
                msg
            },
            Error::Timeout => {
                proof {
                    reveal_strlit("timed out waiting for a resource from the pool");
                }
                String::from_str("timed out waiting for a resource from the pool")
            },
            Error::Closed => {
                proof {
                    reveal_strlit("the pool has been closed");
                }
                String::from_str("the pool has been closed")
            },
            Error::InvalidConfig(reason) => {
                proof {
                    reveal_strlit("invalid pool configuration: ");
                }
                String::from_str("invalid pool configuration: ").concat(reason)
            },
        }
    }

    /// The underlying manager error: present exactly for
    /// [`Error::Backend`].
    pub fn source(&self) -> (src: Option<&E>)
        ensures
            src is Some <==> self is Backend,
            self matches Error::Backend(inner) ==> src == Some(inner),
    {
        match self {
            Error::Backend(inner) => Some(inner),
            _ => None,
        }
    }
}

} // verus!
