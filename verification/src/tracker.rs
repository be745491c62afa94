//! The whole client against a store in memory: a session record, a store,
//! and commands run to their end.

use crate::error::Error;
use crate::flow::{advance, begin, begin_spec, lemma_step_descends, step, Stage, StateSpec};
use crate::ident::{uuid_text, UserId};
use crate::laws::law_execute_keeps_order;
use crate::model::StoreModel;
use crate::protocol::{
    outcome_view, Action, ActionSpec, Command, CommandSpec, Outcome, OutcomeSpec, OutputSpec,
    Request, RequestSpec, Response, ResponseSpec,
};
use crate::report::{shown_entries, shown_projects};
use crate::resolver::resolution;
use crate::session::{current_user_of, Session};
use crate::store::MemoryStore;
use vstd::prelude::*;

verus! {

/// A client together with the store it works against.
pub struct Tracker {
    pub store: MemoryStore,
    pub session: Session,
}

/// What a [`Tracker`] holds.
pub struct TrackerModel {
    pub store: StoreModel,
    pub session: Option<Seq<char>>,
}

impl View for Tracker {
    type V = TrackerModel;

    open spec fn view(&self) -> TrackerModel {
        TrackerModel { store: self.store@, session: self.session@ }
    }
}

impl TrackerModel {
    /// With another store in place of this one.
    pub open spec fn with_store(self, store: StoreModel) -> TrackerModel {
        TrackerModel { store, ..self }
    }

    /// With `user` recorded as logged in.
    pub open spec fn logged_in(self, user: UserId) -> TrackerModel {
        TrackerModel { session: Some(uuid_text(user.0)), ..self }
    }

    /// What carrying out a request gives: the session record is written
    /// here, everything else is the store's.
    pub open spec fn serve(self, request: RequestSpec) -> (TrackerModel, ResponseSpec) {
        match request {
            RequestSpec::SaveSession { user_id } => (
                TrackerModel { session: user_id, ..self },
                ResponseSpec::Done,
            ),
            _ => (self.with_store(self.store.respond(request).0), self.store.respond(request).1),
        }
    }

    /// Where a command that stands at `state` with `action` ends, when
    /// every request is carried out as [`TrackerModel::serve`] says.
    pub open spec fn drive(self, state: StateSpec, action: ActionSpec) -> (
        TrackerModel,
        OutcomeSpec,
    )
        decreases state.stage.rank(),
    {
        match action {
            ActionSpec::Finish(outcome) => (self, outcome),
            ActionSpec::Ask(request) => {
                let served = self.serve(request);
                let next = step(state, served.1);
                if next.0.stage.rank() < state.stage.rank() {
                    served.0.drive(next.0, next.1)
                } else {
                    (served.0, Err(Error::StoreUnavailable))
                }
            },
        }
    }

    /// The listing of the user's entries.
    pub open spec fn entries_shown(self, user: UserId) -> OutcomeSpec {
        Ok(OutputSpec::Entries(shown_entries(self.store.list_entries(user))))
    }

    /// The listing of the user's projects, after `deleted` were removed.
    pub open spec fn projects_shown(self, user: UserId, deleted: Option<u64>) -> OutcomeSpec {
        Ok(OutputSpec::Projects { deleted, lines: shown_projects(self.store.list_projects(user)) })
    }

    /// Login: the user with this secret is found, or created when there is
    /// none, and recorded as logged in. An unknown secret is never refused.
    pub open spec fn login(self, secret: Seq<char>) -> (TrackerModel, OutcomeSpec) {
        match self.store.find_user_by_secret(secret) {
            Some(user) => (self.logged_in(user), Ok(OutputSpec::LoggedIn)),
            None => match self.store.create_user(secret).1 {
                Some(user) => (
                    self.with_store(self.store.create_user(secret).0).logged_in(user),
                    Ok(OutputSpec::LoggedIn),
                ),
                None => (self, Err(Error::StoreUnavailable)),
            },
        }
    }

    /// Logout: nobody is recorded as logged in.
    pub open spec fn logout(self) -> (TrackerModel, OutcomeSpec) {
        (TrackerModel { session: None, ..self }, Ok(OutputSpec::LoggedOut))
    }

    /// Stop: every running entry of the user is stopped, then the entries
    /// are listed.
    pub open spec fn stop(self, user: UserId) -> (TrackerModel, OutcomeSpec) {
        let stopped = self.with_store(self.store.stop_all_active(user));
        (stopped, stopped.entries_shown(user))
    }

    /// Start: every running entry of the user is stopped; then the target
    /// is resolved among the user's projects, a running entry is created
    /// on it, and the entries are listed. When resolution fails the
    /// stopping stays done and no entry is created.
    pub open spec fn start(self, user: UserId, project: Option<Seq<char>>) -> (
        TrackerModel,
        OutcomeSpec,
    ) {
        let stopped = self.store.stop_all_active(user);
        match resolution(stopped.list_projects(user), project) {
            Ok(target) => if stopped.create_entry(user, target.id).1 {
                let started = self.with_store(stopped.create_entry(user, target.id).0);
                (started, started.entries_shown(user))
            } else {
                (self.with_store(stopped), Err(Error::StoreUnavailable))
            },
            Err(e) => (self.with_store(stopped), Err(e)),
        }
    }

    /// A project is added, then the projects are listed.
    pub open spec fn add_project(self, user: UserId, name: Seq<char>) -> (
        TrackerModel,
        OutcomeSpec,
    ) {
        match self.store.create_project(user, name).1 {
            Some(_) => {
                let added = self.with_store(self.store.create_project(user, name).0);
                (added, added.projects_shown(user, None))
            },
            None => (self, Err(Error::StoreUnavailable)),
        }
    }

    /// The user's projects of that name are removed and counted, then the
    /// projects are listed.
    pub open spec fn remove_project(self, user: UserId, name: Seq<char>) -> (
        TrackerModel,
        OutcomeSpec,
    ) {
        let removed = self.with_store(self.store.delete_projects_by_name(user, name).0);
        let count = self.store.delete_projects_by_name(user, name).1 as u64;
        (removed, removed.projects_shown(user, Some(count)))
    }

    /// The user's project of that name becomes the default, then the
    /// projects are listed.
    pub open spec fn default_project(self, user: UserId, name: Seq<char>) -> (
        TrackerModel,
        OutcomeSpec,
    ) {
        let designated = self.with_store(self.store.set_default_project(user, name));
        (designated, designated.projects_shown(user, None))
    }

    /// What a command does for a logged-in user who exists at the store.
    pub open spec fn perform(self, user: UserId, command: CommandSpec) -> (
        TrackerModel,
        OutcomeSpec,
    ) {
        match command {
            CommandSpec::Start { project } => self.start(user, project),
            CommandSpec::Stop => self.stop(user),
            CommandSpec::List => (self, self.entries_shown(user)),
            CommandSpec::ProjectList => (self, self.projects_shown(user, None)),
            CommandSpec::ProjectAdd { name } => self.add_project(user, name),
            CommandSpec::ProjectRemove { name } => self.remove_project(user, name),
            CommandSpec::ProjectDefault { name } => self.default_project(user, name),
            CommandSpec::Login { secret } => self.login(secret),
            CommandSpec::Logout => self.logout(),
        }
    }

    /// What a command does and how it ends.
    ///
    /// Login and logout need no session. Every other command fails with
    /// [`Error::NotLoggedIn`] without a stored user, and with
    /// [`Error::AccountDeleted`] when the stored user is gone from the
    /// store; in both cases nothing is changed.
    pub open spec fn execute(self, command: CommandSpec) -> (TrackerModel, OutcomeSpec) {
        match command {
            CommandSpec::Login { secret } => self.login(secret),
            CommandSpec::Logout => self.logout(),
            _ => match current_user_of(self.session) {
                Ok(user) => if self.store.user_exists(user) {
                    self.perform(user, command)
                } else {
                    (self, Err(Error::AccountDeleted))
                },
                Err(e) => (self, Err(e)),
            },
        }
    }
}

/// Where `command` ends when it is run request by request from its
/// beginning.
pub open spec fn driven(model: TrackerModel, command: CommandSpec) -> (TrackerModel, OutcomeSpec) {
    model.drive(begin_spec(command, model.session).0, begin_spec(command, model.session).1)
}

proof fn lemma_drive_login(model: TrackerModel, secret: Seq<char>)
    ensures
        driven(model, CommandSpec::Login { secret }) == model.login(secret),
{
    reveal_with_fuel(TrackerModel::drive, 4);
}

proof fn lemma_drive_logout(model: TrackerModel)
    ensures
        driven(model, CommandSpec::Logout) == model.logout(),
{
    reveal_with_fuel(TrackerModel::drive, 2);
}

proof fn lemma_drive_refused(model: TrackerModel, command: CommandSpec)
    requires
        !(command is Login),
        !(command is Logout),
        current_user_of(model.session) matches Ok(user) ==> !model.store.user_exists(user),
    ensures
        driven(model, command) == model.execute(command),
{
    reveal_with_fuel(TrackerModel::drive, 2);
}

proof fn lemma_drive_start(model: TrackerModel, user: UserId, project: Option<Seq<char>>)
    requires
        current_user_of(model.session) == Ok::<UserId, Error>(user),
        model.store.user_exists(user),
    ensures
        driven(model, CommandSpec::Start { project }) == model.start(user, project),
{
    reveal_with_fuel(TrackerModel::drive, 6);
}

proof fn lemma_drive_stop(model: TrackerModel, user: UserId)
    requires
        current_user_of(model.session) == Ok::<UserId, Error>(user),
        model.store.user_exists(user),
    ensures
        driven(model, CommandSpec::Stop) == model.stop(user),
{
    reveal_with_fuel(TrackerModel::drive, 4);
}

proof fn lemma_drive_list(model: TrackerModel, user: UserId, command: CommandSpec)
    requires
        current_user_of(model.session) == Ok::<UserId, Error>(user),
        model.store.user_exists(user),
        command is List || command is ProjectList,
    ensures
        driven(model, command) == model.perform(user, command),
{
    reveal_with_fuel(TrackerModel::drive, 3);
}

proof fn lemma_drive_change(model: TrackerModel, user: UserId, command: CommandSpec)
    requires
        current_user_of(model.session) == Ok::<UserId, Error>(user),
        model.store.user_exists(user),
        command is ProjectAdd || command is ProjectRemove || command is ProjectDefault,
    ensures
        driven(model, command) == model.perform(user, command),
{
    reveal_with_fuel(TrackerModel::drive, 4);
}

/// A command run request by request ends as [`TrackerModel::execute`] says.
pub proof fn lemma_drive_executes(model: TrackerModel, command: CommandSpec)
    ensures
        driven(model, command) == model.execute(command),
{
    match command {
        CommandSpec::Login { secret } => lemma_drive_login(model, secret),
        CommandSpec::Logout => lemma_drive_logout(model),
        _ => match current_user_of(model.session) {
            Ok(user) => if model.store.user_exists(user) {
                match command {
                    CommandSpec::Start { project } => lemma_drive_start(model, user, project),
                    CommandSpec::Stop => lemma_drive_stop(model, user),
                    CommandSpec::List => lemma_drive_list(model, user, command),
                    CommandSpec::ProjectList => lemma_drive_list(model, user, command),
                    _ => lemma_drive_change(model, user, command),
                }
            } else {
                lemma_drive_refused(model, command)
            },
            Err(_) => lemma_drive_refused(model, command),
        },
    }
}

impl Tracker {
    /// A client nobody is logged in to, against `store`.
    pub fn new(store: MemoryStore) -> (r: Tracker)
        ensures
            r@ == (TrackerModel { store: store@, session: None }),
    {
        Tracker { store, session: Session::new() }
    }

    /// Carries out one request: the session record is written here,
    /// everything else is handed to the store.
    pub fn serve(&mut self, request: Request) -> (r: Response)
        ensures
            (final(self)@, r@) == old(self)@.serve(request@),
    {
        match request {
            Request::SaveSession { user_id } => {
                self.session = Session { user_id };
                Response::Done
            },
            _ => self.store.handle(request),
        }
    }

    /// Runs a command to its end, carrying out each request in turn.
    pub fn execute(&mut self, command: Command) -> (r: Outcome)
        ensures
            (final(self)@, outcome_view(r)) == old(self)@.execute(command@),
            old(self)@.store.wf() ==> final(self)@.store.wf(),
    {
        proof {
            lemma_drive_executes(self@, command@);
            if self@.store.wf() {
                law_execute_keeps_order(self@, command@);
            }
        }
        let began = begin(command, &self.session);
        let mut state = began.0;
        let mut action = began.1;
        loop
            invariant
                self@.drive(state@, action@) == old(self)@.execute(command@),
                old(self)@.store.wf() ==> old(self)@.execute(command@).0.store.wf(),
                action is Finish ==> state.stage == Stage::Finished,
            decreases state.stage.rank() + (if action is Ask { 1nat } else { 0nat }),
        {
            match action {
                Action::Finish(outcome) => {
                    return outcome;
                },
                Action::Ask(request) => {
                    let response = self.serve(request);
                    let next = advance(state, response);
                    state = next.0;
                    action = next.1;
                },
            }
        }
    }
}

} // verus!
