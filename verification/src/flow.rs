//! The course of one command: which request comes next, given what the
//! last one returned, and how the command ends.
//!
//! The caller carries out each request and hands back the response; nothing
//! here waits or performs I/O.

use crate::error::Error;
use crate::ident::{uuid_text, UserId};
use crate::protocol::{
    Action, ActionSpec, Command, CommandSpec, Output, OutputSpec, Request, RequestSpec, Response,
    ResponseSpec,
};
use crate::report::{list_entries, list_projects, shown_entries, shown_projects};
use crate::resolver::{resolution, resolve};
use crate::session::{current_user_of, Session};
use vstd::prelude::*;

verus! {

/// Which response a command is waiting for.
#[derive(Clone, Copy, Debug, PartialEq, Eq, Structural)]
pub enum Stage {
    /// Login: whether a user with the secret exists.
    FindUser,
    /// Login: the user created for an unknown secret.
    CreateUser,
    /// Login or logout: the session record being written.
    SaveSession,
    /// Whether the logged-in user still exists.
    Validate,
    /// Start or stop: the running entries being stopped.
    StopActive,
    /// Start: the user's projects, to resolve the target among them.
    Resolve,
    /// Start: the new entry being created.
    CreateEntry,
    /// The user's entries, to show them.
    ListEntries,
    /// A project being added, removed or made the default.
    ChangeProjects,
    /// The user's projects, to show them.
    ListProjects,
    /// The command has ended.
    Finished,
}

impl Stage {
    /// An upper bound on the requests still to come.
    pub open spec fn rank(self) -> nat {
        match self {
            Stage::Finished => 0,
            Stage::SaveSession => 1,
            Stage::ListEntries => 1,
            Stage::ListProjects => 1,
            Stage::CreateUser => 2,
            Stage::CreateEntry => 2,
            Stage::ChangeProjects => 2,
            Stage::FindUser => 3,
            Stage::Resolve => 3,
            Stage::StopActive => 4,
            Stage::Validate => 5,
        }
    }
}

/// Where a command stands.
#[derive(Debug)]
pub struct State {
    pub stage: Stage,
    pub command: Command,
    /// The user the command acts for, once known.
    pub user: Option<UserId>,
    /// After a removal, how many projects the store deleted.
    pub deleted: Option<u64>,
}

/// What a [`State`] holds.
pub struct StateSpec {
    pub stage: Stage,
    pub command: CommandSpec,
    pub user: Option<UserId>,
    pub deleted: Option<u64>,
}

impl View for State {
    type V = StateSpec;

    open spec fn view(&self) -> StateSpec {
        StateSpec {
            stage: self.stage,
            command: self.command@,
            user: self.user,
            deleted: self.deleted,
        }
    }
}

/// The command ends with `outcome`.
pub open spec fn finish(state: StateSpec, outcome: Result<OutputSpec, Error>) -> (
    StateSpec,
    ActionSpec,
) {
    (StateSpec { stage: Stage::Finished, ..state }, ActionSpec::Finish(outcome))
}

/// The command goes on with `request` and waits at `stage`.
pub open spec fn ask(state: StateSpec, stage: Stage, request: RequestSpec) -> (
    StateSpec,
    ActionSpec,
) {
    (StateSpec { stage, ..state }, ActionSpec::Ask(request))
}

/// Login found or created `user`: the session record is written next.
pub open spec fn save_login(state: StateSpec, user: UserId) -> (StateSpec, ActionSpec) {
    ask(
        StateSpec { user: Some(user), ..state },
        Stage::SaveSession,
        RequestSpec::SaveSession { user_id: Some(uuid_text(user.0)) },
    )
}

/// How a command begins. Login and logout go straight to their work; every
/// other command first needs a logged-in user, and asks the store whether
/// that user still exists.
pub open spec fn begin_spec(command: CommandSpec, session: Option<Seq<char>>) -> (
    StateSpec,
    ActionSpec,
) {
    let state = StateSpec { stage: Stage::Finished, command, user: None, deleted: None };
    match command {
        CommandSpec::Login { secret } => ask(
            state,
            Stage::FindUser,
            RequestSpec::FindUserBySecret { secret },
        ),
        CommandSpec::Logout => ask(
            state,
            Stage::SaveSession,
            RequestSpec::SaveSession { user_id: None },
        ),
        _ => match current_user_of(session) {
            Ok(user) => ask(
                StateSpec { user: Some(user), ..state },
                Stage::Validate,
                RequestSpec::UserExists { user },
            ),
            Err(e) => finish(state, Err(e)),
        },
    }
}

/// What follows once the user is known to exist: the command's own work.
pub open spec fn after_validation(state: StateSpec, user: UserId) -> (StateSpec, ActionSpec) {
    match state.command {
        CommandSpec::Start { project } => ask(
            state,
            Stage::StopActive,
            RequestSpec::StopAllActive { user },
        ),
        CommandSpec::Stop => ask(state, Stage::StopActive, RequestSpec::StopAllActive { user }),
        CommandSpec::List => ask(state, Stage::ListEntries, RequestSpec::ListEntries { user }),
        CommandSpec::ProjectList => ask(
            state,
            Stage::ListProjects,
            RequestSpec::ListProjects { user },
        ),
        CommandSpec::ProjectAdd { name } => ask(
            state,
            Stage::ChangeProjects,
            RequestSpec::CreateProject { user, name },
        ),
        CommandSpec::ProjectRemove { name } => ask(
            state,
            Stage::ChangeProjects,
            RequestSpec::DeleteProjectsByName { user, name },
        ),
        CommandSpec::ProjectDefault { name } => ask(
            state,
            Stage::ChangeProjects,
            RequestSpec::SetDefaultProject { user, name },
        ),
        _ => finish(state, Err(Error::StoreUnavailable)),
    }
}

/// What follows the change of a project: the listing, if the store
/// answered as the change requires.
pub open spec fn after_change(state: StateSpec, user: UserId, response: ResponseSpec) -> (
    StateSpec,
    ActionSpec,
) {
    let listing = RequestSpec::ListProjects { user };
    match (state.command, response) {
        (CommandSpec::ProjectAdd { name }, ResponseSpec::ProjectCreated(_)) => ask(
            state,
            Stage::ListProjects,
            listing,
        ),
        (CommandSpec::ProjectRemove { name }, ResponseSpec::Deleted(count)) => ask(
            StateSpec { deleted: Some(count), ..state },
            Stage::ListProjects,
            listing,
        ),
        (CommandSpec::ProjectDefault { name }, ResponseSpec::Done) => ask(
            state,
            Stage::ListProjects,
            listing,
        ),
        _ => finish(state, Err(Error::StoreUnavailable)),
    }
}

/// The next state and action, given the response to the last request.
///
/// A failed request ends the command at once: with
/// [`Error::ConfigIOError`] where the session record was being written,
/// with [`Error::StoreUnavailable`] otherwise, which is also how a response
/// of the wrong kind is taken.
pub open spec fn step(state: StateSpec, response: ResponseSpec) -> (StateSpec, ActionSpec) {
    let unavailable = finish(state, Err(Error::StoreUnavailable));
    match state.stage {
        Stage::FindUser => match (state.command, response) {
            (CommandSpec::Login { secret }, ResponseSpec::UserFound(Some(user))) => save_login(
                state,
                user,
            ),
            (CommandSpec::Login { secret }, ResponseSpec::UserFound(None)) => ask(
                state,
                Stage::CreateUser,
                RequestSpec::CreateUser { secret },
            ),
            _ => unavailable,
        },
        Stage::CreateUser => match response {
            ResponseSpec::UserCreated(user) => save_login(state, user),
            _ => unavailable,
        },
        Stage::SaveSession => match (state.command, response) {
            (CommandSpec::Login { secret }, ResponseSpec::Done) => finish(
                state,
                Ok(OutputSpec::LoggedIn),
            ),
            (CommandSpec::Logout, ResponseSpec::Done) => finish(state, Ok(OutputSpec::LoggedOut)),
            (_, ResponseSpec::Done) => unavailable,
            _ => finish(state, Err(Error::ConfigIOError)),
        },
        Stage::Validate => match (state.user, response) {
            (Some(user), ResponseSpec::UserExists(true)) => after_validation(state, user),
            (Some(user), ResponseSpec::UserExists(false)) => finish(
                state,
                Err(Error::AccountDeleted),
            ),
            _ => unavailable,
        },
        Stage::StopActive => match (state.user, state.command, response) {
            (Some(user), CommandSpec::Start { project }, ResponseSpec::Done) => ask(
                state,
                Stage::Resolve,
                RequestSpec::ListProjects { user },
            ),
            (Some(user), CommandSpec::Stop, ResponseSpec::Done) => ask(
                state,
                Stage::ListEntries,
                RequestSpec::ListEntries { user },
            ),
            _ => unavailable,
        },
        Stage::Resolve => match (state.user, state.command, response) {
            (
                Some(user),
                CommandSpec::Start { project },
                ResponseSpec::Projects(projects),
            ) => match resolution(projects, project) {
                Ok(target) => ask(
                    state,
                    Stage::CreateEntry,
                    RequestSpec::CreateEntry { user, project: target.id },
                ),
                Err(e) => finish(state, Err(e)),
            },
            _ => unavailable,
        },
        Stage::CreateEntry => match (state.user, response) {
            (Some(user), ResponseSpec::Done) => ask(
                state,
                Stage::ListEntries,
                RequestSpec::ListEntries { user },
            ),
            _ => unavailable,
        },
        Stage::ListEntries => match response {
            ResponseSpec::Entries(entries) => finish(
                state,
                Ok(OutputSpec::Entries(shown_entries(entries))),
            ),
            _ => unavailable,
        },
        Stage::ChangeProjects => match state.user {
            Some(user) => after_change(state, user, response),
            None => unavailable,
        },
        Stage::ListProjects => match response {
            ResponseSpec::Projects(projects) => finish(
                state,
                Ok(
                    OutputSpec::Projects {
                        deleted: state.deleted,
                        lines: shown_projects(projects),
                    },
                ),
            ),
            _ => unavailable,
        },
        Stage::Finished => unavailable,
    }
}

/// Every command ends: each request leaves fewer to come, and the command
/// is finished exactly when it stops asking.
pub proof fn lemma_step_descends(state: StateSpec, response: ResponseSpec)
    ensures
        step(state, response).1 is Ask ==> step(state, response).0.stage.rank()
            < state.stage.rank(),
        step(state, response).1 is Finish ==> step(state, response).0.stage == Stage::Finished,
        step(state, response).0.command == state.command,
{
}

fn end(command: Command, user: Option<UserId>, deleted: Option<u64>, outcome: Result<
    Output,
    Error,
>) -> (r: (State, Action))
    ensures
        (r.0@, r.1@) == finish(
            StateSpec { stage: Stage::Finished, command: command@, user, deleted },
            crate::protocol::outcome_view(outcome),
        ),
{
    (State { stage: Stage::Finished, command, user, deleted }, Action::Finish(outcome))
}

fn go(
    stage: Stage,
    command: Command,
    user: Option<UserId>,
    deleted: Option<u64>,
    request: Request,
) -> (r: (State, Action))
    ensures
        (r.0@, r.1@) == ask(
            StateSpec { stage: Stage::Finished, command: command@, user, deleted },
            stage,
            request@,
        ),
{
    (State { stage, command, user, deleted }, Action::Ask(request))
}

/// Begins `command` for the client whose session record is `session`.
pub fn begin(command: Command, session: &Session) -> (r: (State, Action))
    ensures
        (r.0@, r.1@) == begin_spec(command@, session@),
{
    match &command {
        Command::Login { secret } => {
            let request = Request::FindUserBySecret { secret: secret.clone() };
            go(Stage::FindUser, command, None, None, request)
        },
        Command::Logout => go(
            Stage::SaveSession,
            command,
            None,
            None,
            Request::SaveSession { user_id: None },
        ),
        _ => match session.current_user() {
            Ok(user) => go(
                Stage::Validate,
                command,
                Some(user),
                None,
                Request::UserExists { user },
            ),
            Err(e) => end(command, None, None, Err(e)),
        },
    }
}

fn save(command: Command, deleted: Option<u64>, user: UserId) -> (r: (State, Action))
    ensures
        (r.0@, r.1@) == save_login(
            StateSpec { stage: Stage::Finished, command: command@, user: None, deleted },
            user,
        ),
{
    let request = Request::SaveSession { user_id: Some(user.to_text()) };
    go(Stage::SaveSession, command, Some(user), deleted, request)
}

fn validated(command: Command, deleted: Option<u64>, user: UserId) -> (r: (State, Action))
    ensures
        (r.0@, r.1@) == after_validation(
            StateSpec { stage: Stage::Finished, command: command@, user: Some(user), deleted },
            user,
        ),
{
    let known = Some(user);
    let request = match &command {
        Command::Start { project } => Some((Stage::StopActive, Request::StopAllActive { user })),
        Command::Stop => Some((Stage::StopActive, Request::StopAllActive { user })),
        Command::List => Some((Stage::ListEntries, Request::ListEntries { user })),
        Command::ProjectList => Some((Stage::ListProjects, Request::ListProjects { user })),
        Command::ProjectAdd { name } => Some(
            (Stage::ChangeProjects, Request::CreateProject { user, name: name.clone() }),
        ),
        Command::ProjectRemove { name } => Some(
            (Stage::ChangeProjects, Request::DeleteProjectsByName { user, name: name.clone() }),
        ),
        Command::ProjectDefault { name } => Some(
            (Stage::ChangeProjects, Request::SetDefaultProject { user, name: name.clone() }),
        ),
        _ => None,
    };
    match request {
        Some((stage, request)) => go(stage, command, known, deleted, request),
        None => end(command, known, deleted, Err(Error::StoreUnavailable)),
    }
}

fn changed(command: Command, deleted: Option<u64>, user: UserId, response: Response) -> (r: (
    State,
    Action,
))
    ensures
        (r.0@, r.1@) == after_change(
            StateSpec { stage: Stage::Finished, command: command@, user: Some(user), deleted },
            user,
            response@,
        ),
{
    let known = Some(user);
    let listing = Request::ListProjects { user };
    let count = match (&command, response) {
        (Command::ProjectAdd { name }, Response::ProjectCreated(_)) => Some(deleted),
        (Command::ProjectRemove { name }, Response::Deleted(count)) => Some(Some(count)),
        (Command::ProjectDefault { name }, Response::Done) => Some(deleted),
        _ => None,
    };
    match count {
        Some(deleted_now) => go(Stage::ListProjects, command, known, deleted_now, listing),
        None => end(command, known, deleted, Err(Error::StoreUnavailable)),
    }
}

/// Takes the response to the last request and decides what comes next.
pub fn advance(state: State, response: Response) -> (r: (State, Action))
    ensures
        (r.0@, r.1@) == step(state@, response@),
        r.1 is Ask ==> r.0.stage.rank() < state.stage.rank(),
        r.1 is Finish ==> r.0.stage == Stage::Finished,
{
    proof {
        lemma_step_descends(state@, response@);
    }
    let State { stage, command, user, deleted } = state;
    match stage {
        Stage::FindUser => {
            let secret = match &command {
                Command::Login { secret } => Some(secret.clone()),
                _ => None,
            };
            match (secret, response) {
                (Some(secret), Response::UserFound(Some(found))) => save(
                    command,
                    deleted,
                    found,
                ),
                (Some(secret), Response::UserFound(None)) => go(
                    Stage::CreateUser,
                    command,
                    user,
                    deleted,
                    Request::CreateUser { secret },
                ),
                _ => end(command, user, deleted, Err(Error::StoreUnavailable)),
            }
        },
        Stage::CreateUser => match response {
            Response::UserCreated(created) => save(command, deleted, created),
            _ => end(command, user, deleted, Err(Error::StoreUnavailable)),
        },
        Stage::SaveSession => {
            let outcome = match (&command, response) {
                (Command::Login { secret }, Response::Done) => Ok(Output::LoggedIn),
                (Command::Logout, Response::Done) => Ok(Output::LoggedOut),
                (_, Response::Done) => Err(Error::StoreUnavailable),
                _ => Err(Error::ConfigIOError),
            };
            end(command, user, deleted, outcome)
        },
        Stage::Validate => match (user, response) {
            (Some(known), Response::UserExists(true)) => validated(command, deleted, known),
            (Some(known), Response::UserExists(false)) => end(
                command,
                user,
                deleted,
                Err(Error::AccountDeleted),
            ),
            _ => end(command, user, deleted, Err(Error::StoreUnavailable)),
        },
        Stage::StopActive => {
            let next = match (user, &command, response) {
                (Some(known), Command::Start { project }, Response::Done) => Some(
                    (Stage::Resolve, Request::ListProjects { user: known }),
                ),
                (Some(known), Command::Stop, Response::Done) => Some(
                    (Stage::ListEntries, Request::ListEntries { user: known }),
                ),
                _ => None,
            };
            match next {
                Some((stage, request)) => go(stage, command, user, deleted, request),
                None => end(command, user, deleted, Err(Error::StoreUnavailable)),
            }
        },
        Stage::Resolve => {
            let target = match (user, &command, response) {
                (Some(known), Command::Start { project }, Response::Projects(projects)) => {
                    match resolve(project, &projects) {
                        Ok(target) => Ok(
                            Request::CreateEntry { user: known, project: target.id },
                        ),
                        Err(e) => Err(e),
                    }
                },
                _ => Err(Error::StoreUnavailable),
            };
            match target {
                Ok(request) => go(Stage::CreateEntry, command, user, deleted, request),
                Err(e) => end(command, user, deleted, Err(e)),
            }
        },
        Stage::CreateEntry => match (user, response) {
            (Some(known), Response::Done) => go(
                Stage::ListEntries,
                command,
                user,
                deleted,
                Request::ListEntries { user: known },
            ),
            _ => end(command, user, deleted, Err(Error::StoreUnavailable)),
        },
        Stage::ListEntries => match response {
            Response::Entries(entries) => end(
                command,
                user,
                deleted,
                Ok(Output::Entries(list_entries(&entries))),
            ),
            _ => end(command, user, deleted, Err(Error::StoreUnavailable)),
        },
        Stage::ChangeProjects => match user {
            Some(known) => changed(command, deleted, known, response),
            None => end(command, user, deleted, Err(Error::StoreUnavailable)),
        },
        Stage::ListProjects => match response {
            Response::Projects(projects) => end(
                command,
                user,
                deleted,
                Ok(Output::Projects { deleted, lines: list_projects(&projects) }),
            ),
            _ => end(command, user, deleted, Err(Error::StoreUnavailable)),
        },
        Stage::Finished => end(command, user, deleted, Err(Error::StoreUnavailable)),
    }
}

} // verus!
