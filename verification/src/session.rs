//! The local session record: who is currently using this client.

use crate::error::Error;
use crate::ident::{uuid_text, UserId};
use vstd::prelude::*;

verus! {

/// The session record: at most one stored user identifier, as text.
#[derive(Debug, PartialEq, Eq)]
pub struct Session {
    pub user_id: Option<String>,
}

impl View for Session {
    type V = Option<Seq<char>>;

    open spec fn view(&self) -> Option<Seq<char>> {
        match self.user_id {
            Some(text) => Some(text@),
            None => None,
        }
    }
}

/// What reading the persisted session record gave.
#[derive(Debug, PartialEq, Eq)]
pub enum Loaded {
    /// The record was read and understood.
    Record(Session),
    /// There is no record yet.
    Missing,
    /// The record was read but is not a session record.
    Malformed,
    /// The record could not be read for another reason.
    Unreadable,
}

/// The user a stored identifier names, or [`Error::NotLoggedIn`] when none
/// is stored or the stored text is not a well-formed identifier.
pub open spec fn current_user_of(stored: Option<Seq<char>>) -> Result<UserId, Error> {
    match stored {
        Some(text) => match UserId::parsed(text) {
            Some(user) => Ok(user),
            None => Err(Error::NotLoggedIn),
        },
        None => Err(Error::NotLoggedIn),
    }
}

/// The user found in the session record, or the failure to report when
/// there is none.
pub fn require_user(found: Option<UserId>) -> (r: Result<UserId, Error>)
    ensures
        r == match found {
            Some(user) => Ok::<UserId, Error>(user),
            None => Err::<UserId, Error>(Error::NotLoggedIn),
        },
{
    match found {
        Some(user) => Ok(user),
        None => Err(Error::NotLoggedIn),
    }
}

impl Session {
    /// The record of a client nobody is logged in to.
    pub fn new() -> (r: Session)
        ensures
            r@ is None,
    {
        Session { user_id: None }
    }

    /// The session to start from, given what reading the persisted record
    /// gave. A missing record means nobody is logged in; a record that
    /// cannot be read or understood is [`Error::ConfigIOError`].
    pub fn load(read: Loaded) -> (r: Result<Session, Error>)
        ensures
            match read {
                Loaded::Record(session) => r matches Ok(s) && s@ == session@,
                Loaded::Missing => r matches Ok(s) && s@ is None,
                Loaded::Malformed => r matches Err(e) && e == Error::ConfigIOError,
                Loaded::Unreadable => r matches Err(e) && e == Error::ConfigIOError,
            },
    {
        match read {
            Loaded::Record(session) => Ok(session),
            Loaded::Missing => Ok(Session::new()),
            Loaded::Malformed => Err(Error::ConfigIOError),
            Loaded::Unreadable => Err(Error::ConfigIOError),
        }
    }

    /// The user who is logged in.
    pub fn current_user(&self) -> (r: Result<UserId, Error>)
        ensures
            r == current_user_of(self@),
    {
        match &self.user_id {
            Some(text) => require_user(UserId::parse(text.as_str())),
            None => require_user(None),
        }
    }

    /// Records `user` as logged in.
    pub fn remember(&mut self, user: UserId)
        ensures
            final(self)@ == Some(uuid_text(user.0)),
            current_user_of(final(self)@) == Ok::<UserId, Error>(user),
    {
        self.user_id = Some(user.to_text());
    }

    /// Records that nobody is logged in. Does nothing if that was so
    /// already.
    pub fn forget(&mut self)
        ensures
            final(self)@ is None,
    {
        self.user_id = None;
    }
}

} // verus!
