//! The failures a command can end in, and the message each one shows.

use vstd::prelude::*;

verus! {

/// Why a command did not complete.
#[derive(Clone, Copy, Debug, PartialEq, Eq, Structural)]
pub enum Error {
    /// The local session record holds no usable user identifier.
    NotLoggedIn,
    /// The stored identifier no longer names a user at the store.
    AccountDeleted,
    /// No project matched the given name, or no default is designated.
    ProjectNotFound,
    /// More than one project matched; none is picked.
    AmbiguousProject,
    /// A request to the store failed, or its answer made no sense.
    StoreUnavailable,
    /// The local session record could not be read or written.
    ConfigIOError,
}

impl Error {
    /// The text of the message shown for this failure.
    pub open spec fn text(self) -> Seq<char> {
        match self {
            Error::NotLoggedIn => "Not logged in. Run `tte login`."@,
            Error::AccountDeleted =>
                "Your account has been deleted. Create new account by running `tte login`."@,
            Error::ProjectNotFound => "project not found"@,
            Error::AmbiguousProject => "multiple projects with that name"@,
            Error::StoreUnavailable => "The store could not be reached."@,
            Error::ConfigIOError => "The session record could not be read or written."@,
        }
    }

    /// The human-readable message for this failure.
    pub fn message(&self) -> (r: String)
        ensures
            r@ == self.text(),
    {
        match self {
            Error::NotLoggedIn => String::from_str("Not logged in. Run `tte login`."),
            Error::AccountDeleted => String::from_str(
                "Your account has been deleted. Create new account by running `tte login`.",
            ),
            Error::ProjectNotFound => String::from_str("project not found"),
            Error::AmbiguousProject => String::from_str("multiple projects with that name"),
            Error::StoreUnavailable => String::from_str("The store could not be reached."),
            Error::ConfigIOError => String::from_str(
                "The session record could not be read or written.",
            ),
        }
    }
}

} // verus!
