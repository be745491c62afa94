//! The vocabulary of a command: what the user asks for, what is asked of the
//! store and of the session record in turn, and what comes back.

use crate::error::Error;
use crate::ident::{ProjectId, UserId};
use crate::record::{Entry, EntrySpec, Project, ProjectSpec};
use crate::report::{EntryView, EntryViewSpec};
use vstd::prelude::*;

verus! {

/// What the user asks the client to do.
#[derive(Debug, PartialEq, Eq)]
pub enum Command {
    /// Log in with a shared secret; an unknown secret opens a new account.
    Login { secret: String },
    /// Forget the stored user.
    Logout,
    /// Start an entry on the named project, or on the default one.
    Start { project: Option<String> },
    /// Stop whatever is running.
    Stop,
    /// List the user's entries.
    List,
    /// List the user's projects.
    ProjectList,
    /// Add a project.
    ProjectAdd { name: String },
    /// Remove every project of that name.
    ProjectRemove { name: String },
    /// Make the named project the default.
    ProjectDefault { name: String },
}

/// What a [`Command`] holds.
pub enum CommandSpec {
    Login { secret: Seq<char> },
    Logout,
    Start { project: Option<Seq<char>> },
    Stop,
    List,
    ProjectList,
    ProjectAdd { name: Seq<char> },
    ProjectRemove { name: Seq<char> },
    ProjectDefault { name: Seq<char> },
}

impl View for Command {
    type V = CommandSpec;

    open spec fn view(&self) -> CommandSpec {
        match self {
            Command::Login { secret } => CommandSpec::Login { secret: secret@ },
            Command::Logout => CommandSpec::Logout,
            Command::Start { project } => CommandSpec::Start { project: project.deep_view() },
            Command::Stop => CommandSpec::Stop,
            Command::List => CommandSpec::List,
            Command::ProjectList => CommandSpec::ProjectList,
            Command::ProjectAdd { name } => CommandSpec::ProjectAdd { name: name@ },
            Command::ProjectRemove { name } => CommandSpec::ProjectRemove { name: name@ },
            Command::ProjectDefault { name } => CommandSpec::ProjectDefault { name: name@ },
        }
    }
}

/// One thing to carry out on the client's behalf: an operation of the store,
/// or the writing of the session record.
#[derive(Debug, PartialEq, Eq)]
pub enum Request {
    /// Look up the user with exactly this secret.
    FindUserBySecret { secret: String },
    /// Create a user with this secret.
    CreateUser { secret: String },
    /// Does this user still exist?
    UserExists { user: UserId },
    /// The user's projects, each with its default flag.
    ListProjects { user: UserId },
    /// Create a project owned by the user.
    CreateProject { user: UserId, name: String },
    /// Delete all of the user's projects of exactly this name.
    DeleteProjectsByName { user: UserId, name: String },
    /// Designate the user's project of this name as the sole default.
    SetDefaultProject { user: UserId, name: String },
    /// Set the stop time on every running entry of the user.
    StopAllActive { user: UserId },
    /// Create a running entry on the project, started now.
    CreateEntry { user: UserId, project: ProjectId },
    /// The user's entries.
    ListEntries { user: UserId },
    /// Persist the session record with this stored identifier.
    SaveSession { user_id: Option<String> },
}

/// What a [`Request`] holds.
pub enum RequestSpec {
    FindUserBySecret { secret: Seq<char> },
    CreateUser { secret: Seq<char> },
    UserExists { user: UserId },
    ListProjects { user: UserId },
    CreateProject { user: UserId, name: Seq<char> },
    DeleteProjectsByName { user: UserId, name: Seq<char> },
    SetDefaultProject { user: UserId, name: Seq<char> },
    StopAllActive { user: UserId },
    CreateEntry { user: UserId, project: ProjectId },
    ListEntries { user: UserId },
    SaveSession { user_id: Option<Seq<char>> },
}

impl View for Request {
    type V = RequestSpec;

    open spec fn view(&self) -> RequestSpec {
        match self {
            Request::FindUserBySecret { secret } => RequestSpec::FindUserBySecret {
                secret: secret@,
            },
            Request::CreateUser { secret } => RequestSpec::CreateUser { secret: secret@ },
            Request::UserExists { user } => RequestSpec::UserExists { user: *user },
            Request::ListProjects { user } => RequestSpec::ListProjects { user: *user },
            Request::CreateProject { user, name } => RequestSpec::CreateProject {
                user: *user,
                name: name@,
            },
            Request::DeleteProjectsByName { user, name } => RequestSpec::DeleteProjectsByName {
                user: *user,
                name: name@,
            },
            Request::SetDefaultProject { user, name } => RequestSpec::SetDefaultProject {
                user: *user,
                name: name@,
            },
            Request::StopAllActive { user } => RequestSpec::StopAllActive { user: *user },
            Request::CreateEntry { user, project } => RequestSpec::CreateEntry {
                user: *user,
                project: *project,
            },
            Request::ListEntries { user } => RequestSpec::ListEntries { user: *user },
            Request::SaveSession { user_id } => RequestSpec::SaveSession {
                user_id: user_id.deep_view(),
            },
        }
    }
}

/// What carrying out a [`Request`] gave.
#[derive(Debug, PartialEq, Eq)]
pub enum Response {
    /// Answer to [`Request::FindUserBySecret`].
    UserFound(Option<UserId>),
    /// Answer to [`Request::CreateUser`].
    UserCreated(UserId),
    /// Answer to [`Request::UserExists`].
    UserExists(bool),
    /// Answer to [`Request::ListProjects`].
    Projects(Vec<Project>),
    /// Answer to [`Request::CreateProject`].
    ProjectCreated(ProjectId),
    /// Answer to [`Request::DeleteProjectsByName`]: how many were deleted.
    Deleted(u64),
    /// Answer to a request that returns nothing.
    Done,
    /// Answer to [`Request::ListEntries`].
    Entries(Vec<Entry>),
    /// The request could not be carried out.
    Failed,
}

/// What a [`Response`] holds.
pub enum ResponseSpec {
    UserFound(Option<UserId>),
    UserCreated(UserId),
    UserExists(bool),
    Projects(Seq<ProjectSpec>),
    ProjectCreated(ProjectId),
    Deleted(u64),
    Done,
    Entries(Seq<EntrySpec>),
    Failed,
}

impl View for Response {
    type V = ResponseSpec;

    open spec fn view(&self) -> ResponseSpec {
        match self {
            Response::UserFound(user) => ResponseSpec::UserFound(*user),
            Response::UserCreated(user) => ResponseSpec::UserCreated(*user),
            Response::UserExists(exists) => ResponseSpec::UserExists(*exists),
            Response::Projects(projects) => ResponseSpec::Projects(projects.deep_view()),
            Response::ProjectCreated(project) => ResponseSpec::ProjectCreated(*project),
            Response::Deleted(count) => ResponseSpec::Deleted(*count),
            Response::Done => ResponseSpec::Done,
            Response::Entries(entries) => ResponseSpec::Entries(entries.deep_view()),
            Response::Failed => ResponseSpec::Failed,
        }
    }
}

/// What a completed command shows.
#[derive(Debug, PartialEq, Eq)]
pub enum Output {
    /// The user is now logged in.
    LoggedIn,
    /// Nobody is logged in any more.
    LoggedOut,
    /// The user's entries, one row each.
    Entries(Vec<EntryView>),
    /// The user's projects, one line each; after a removal, how many
    /// projects were deleted.
    Projects { deleted: Option<u64>, lines: Vec<String> },
}

/// What an [`Output`] holds.
pub enum OutputSpec {
    LoggedIn,
    LoggedOut,
    Entries(Seq<EntryViewSpec>),
    Projects { deleted: Option<u64>, lines: Seq<Seq<char>> },
}

impl View for Output {
    type V = OutputSpec;

    open spec fn view(&self) -> OutputSpec {
        match self {
            Output::LoggedIn => OutputSpec::LoggedIn,
            Output::LoggedOut => OutputSpec::LoggedOut,
            Output::Entries(rows) => OutputSpec::Entries(rows.deep_view()),
            Output::Projects { deleted, lines } => OutputSpec::Projects {
                deleted: *deleted,
                lines: lines.deep_view(),
            },
        }
    }
}

/// How a command ended.
pub type Outcome = Result<Output, Error>;

/// What an [`Outcome`] holds.
pub type OutcomeSpec = Result<OutputSpec, Error>;

/// What `outcome` holds.
pub open spec fn outcome_view(outcome: Outcome) -> OutcomeSpec {
    match outcome {
        Ok(output) => Ok(output@),
        Err(e) => Err(e),
    }
}

/// What to do next in a command: carry out a request and report back, or
/// stop with the outcome.
#[derive(Debug, PartialEq, Eq)]
pub enum Action {
    Ask(Request),
    Finish(Outcome),
}

/// What an [`Action`] holds.
pub enum ActionSpec {
    Ask(RequestSpec),
    Finish(OutcomeSpec),
}

impl View for Action {
    type V = ActionSpec;

    open spec fn view(&self) -> ActionSpec {
        match self {
            Action::Ask(request) => ActionSpec::Ask(request@),
            Action::Finish(outcome) => ActionSpec::Finish(outcome_view(*outcome)),
        }
    }
}

} // verus!
