//! What a store holds and what each of its operations does, stated over
//! plain sequences. Any store that behaves like this model serves the
//! client; the in-memory store is proved to.

use crate::ident::{EntryId, ProjectId, UserId};
use crate::protocol::{RequestSpec, ResponseSpec};
use crate::record::{EntrySpec, ProjectSpec};
use crate::seqs::keys_unique;
use vstd::prelude::*;

verus! {

/// A user: an identifier, the shared secret that is the sole credential, and
/// the project designated as default, if any.
pub struct UserRow {
    pub id: UserId,
    pub secret: Seq<char>,
    pub default_project: Option<ProjectId>,
}

/// A project and its owner.
pub struct ProjectRow {
    pub id: ProjectId,
    pub owner: UserId,
    pub name: Seq<char>,
}

/// An entry: the project it was started on, that project's owner, and its
/// start and stop times in microseconds since the Unix epoch. An entry
/// without a stop time is running.
pub struct EntryRow {
    pub id: EntryId,
    pub owner: UserId,
    pub project: ProjectId,
    pub start_at: int,
    pub stop_at: Option<int>,
}

/// Everything a store holds, in insertion order, with its clock and the
/// next identifier it will hand out.
pub struct StoreModel {
    pub users: Seq<UserRow>,
    pub projects: Seq<ProjectRow>,
    pub entries: Seq<EntryRow>,
    pub now: int,
    pub next_id: nat,
}

/// The identifier of a user, as a number.
pub open spec fn user_key() -> spec_fn(UserRow) -> u128 {
    |u: UserRow| u.id.0
}

/// The identifier of a project, as a number.
pub open spec fn project_key() -> spec_fn(ProjectRow) -> u128 {
    |p: ProjectRow| p.id.0
}

/// The identifier of an entry, as a number.
pub open spec fn entry_key() -> spec_fn(EntryRow) -> u128 {
    |e: EntryRow| e.id.0
}

/// The users with this secret.
pub open spec fn has_secret(secret: Seq<char>) -> spec_fn(UserRow) -> bool {
    |u: UserRow| u.secret == secret
}

/// The users with this identifier.
pub open spec fn is_user(user: UserId) -> spec_fn(UserRow) -> bool {
    |u: UserRow| u.id == user
}

/// Every user but this one.
pub open spec fn is_not_user(user: UserId) -> spec_fn(UserRow) -> bool {
    |u: UserRow| u.id != user
}

/// The projects of this owner.
pub open spec fn owned_by(user: UserId) -> spec_fn(ProjectRow) -> bool {
    |p: ProjectRow| p.owner == user
}

/// The projects of this owner with exactly this name.
pub open spec fn named(user: UserId, name: Seq<char>) -> spec_fn(ProjectRow) -> bool {
    |p: ProjectRow| p.owner == user && p.name == name
}

/// Every project but those of this owner with exactly this name.
pub open spec fn not_named(user: UserId, name: Seq<char>) -> spec_fn(ProjectRow) -> bool {
    |p: ProjectRow| !(p.owner == user && p.name == name)
}

/// The projects of this owner with this identifier.
pub open spec fn project_of(user: UserId, project: ProjectId) -> spec_fn(ProjectRow) -> bool {
    |p: ProjectRow| p.owner == user && p.id == project
}

/// The projects with this identifier.
pub open spec fn is_project(project: ProjectId) -> spec_fn(ProjectRow) -> bool {
    |p: ProjectRow| p.id == project
}

/// The entries of this owner.
pub open spec fn entry_of(user: UserId) -> spec_fn(EntryRow) -> bool {
    |e: EntryRow| e.owner == user
}

/// The running entries of this owner.
pub open spec fn active_of(user: UserId) -> spec_fn(EntryRow) -> bool {
    |e: EntryRow| e.owner == user && e.stop_at is None
}

impl EntryRow {
    /// The entry with its stop time set to `now`, if it is a running entry
    /// of `user`; the entry as it is otherwise.
    pub open spec fn stopped(self, user: UserId, now: int) -> EntryRow {
        if self.owner == user && self.stop_at is None {
            EntryRow { stop_at: Some(now), ..self }
        } else {
            self
        }
    }

    /// From start to stop, or to `now` while the entry is running.
    pub open spec fn duration(self, now: int) -> int {
        match self.stop_at {
            Some(stop) => stop - self.start_at,
            None => now - self.start_at,
        }
    }
}

impl UserRow {
    /// The user with `project` as default, if this is `user`; the user as
    /// it is otherwise.
    pub open spec fn designating(self, user: UserId, project: ProjectId) -> UserRow {
        if self.id == user {
            UserRow { default_project: Some(project), ..self }
        } else {
            self
        }
    }
}

impl StoreModel {
    /// A store that holds nothing, with its clock at `now`.
    pub open spec fn empty(now: int) -> StoreModel {
        StoreModel {
            users: Seq::empty(),
            projects: Seq::empty(),
            entries: Seq::empty(),
            now,
            next_id: 1,
        }
    }

    /// No entry starts after the store's current time, and none stops
    /// before it starts or after the current time.
    pub open spec fn times_in_order(self) -> bool {
        forall|i: int|
            0 <= i < self.entries.len() ==> {
                &&& (#[trigger] self.entries[i]).start_at <= self.now
                &&& self.entries[i].stop_at matches Some(stop) ==> self.entries[i].start_at
                    <= stop <= self.now
            }
    }

    /// The store is in order: no two users share an identifier, nor two
    /// projects, nor two entries; every identifier was handed out by this
    /// store; and the times of the entries are in order.
    pub open spec fn wf(self) -> bool {
        &&& keys_unique(self.users, user_key(), self.next_id)
        &&& keys_unique(self.projects, project_key(), self.next_id)
        &&& keys_unique(self.entries, entry_key(), self.next_id)
        &&& self.times_in_order()
    }

    /// Whether an identifier is left to hand out.
    pub open spec fn has_room(self) -> bool {
        self.next_id < u128::MAX
    }

    /// The store `micros` microseconds later.
    pub open spec fn later(self, micros: int) -> StoreModel {
        StoreModel { now: self.now + micros, ..self }
    }

    /// The first user with exactly this secret.
    pub open spec fn find_user_by_secret(self, secret: Seq<char>) -> Option<UserId> {
        let hits = self.users.filter(has_secret(secret));
        if hits.len() == 0 {
            None
        } else {
            Some(hits[0].id)
        }
    }

    /// A new user with this secret is added, without a default project;
    /// nothing happens when no identifier is left.
    pub open spec fn create_user(self, secret: Seq<char>) -> (StoreModel, Option<UserId>) {
        if self.has_room() {
            let id = UserId(self.next_id as u128);
            (
                StoreModel {
                    users: self.users.push(UserRow { id, secret, default_project: None }),
                    next_id: self.next_id + 1,
                    ..self
                },
                Some(id),
            )
        } else {
            (self, None)
        }
    }

    /// Whether a user with this identifier exists.
    pub open spec fn user_exists(self, user: UserId) -> bool {
        self.users.filter(is_user(user)).len() > 0
    }

    /// The user is gone; projects and entries stay as they are.
    pub open spec fn delete_user(self, user: UserId) -> StoreModel {
        StoreModel { users: self.users.filter(is_not_user(user)), ..self }
    }

    /// The project the user has designated as default.
    pub open spec fn default_of(self, user: UserId) -> Option<ProjectId> {
        let rows = self.users.filter(is_user(user));
        if rows.len() == 0 {
            None
        } else {
            rows[0].default_project
        }
    }

    /// A project as it is listed for its owner.
    pub open spec fn listed(self, user: UserId) -> spec_fn(ProjectRow) -> ProjectSpec {
        |p: ProjectRow|
            ProjectSpec {
                id: p.id,
                name: p.name,
                is_default: self.default_of(user) == Some(p.id),
            }
    }

    /// The user's projects, and no one else's, each with its default flag.
    pub open spec fn list_projects(self, user: UserId) -> Seq<ProjectSpec> {
        self.projects.filter(owned_by(user)).map_values(self.listed(user))
    }

    /// A new project of that name is added for the user, whether or not
    /// the name is taken; nothing happens when no identifier is left.
    pub open spec fn create_project(self, user: UserId, name: Seq<char>) -> (
        StoreModel,
        Option<ProjectId>,
    ) {
        if self.has_room() {
            let id = ProjectId(self.next_id as u128);
            (
                StoreModel {
                    projects: self.projects.push(ProjectRow { id, owner: user, name }),
                    next_id: self.next_id + 1,
                    ..self
                },
                Some(id),
            )
        } else {
            (self, None)
        }
    }

    /// All of the user's projects of exactly that name are removed, and
    /// counted.
    pub open spec fn delete_projects_by_name(self, user: UserId, name: Seq<char>) -> (
        StoreModel,
        nat,
    ) {
        (
            StoreModel { projects: self.projects.filter(not_named(user, name)), ..self },
            self.projects.filter(named(user, name)).len(),
        )
    }

    /// The user's first project of that name becomes the user's sole
    /// default; nothing happens when there is none.
    pub open spec fn set_default_project(self, user: UserId, name: Seq<char>) -> StoreModel {
        let hits = self.projects.filter(named(user, name));
        if hits.len() == 0 {
            self
        } else {
            StoreModel {
                users: self.users.map_values(|u: UserRow| u.designating(user, hits[0].id)),
                ..self
            }
        }
    }

    /// Every running entry of the user gets the current time as its stop
    /// time; all other entries stay as they are.
    pub open spec fn stop_all_active(self, user: UserId) -> StoreModel {
        StoreModel {
            entries: self.entries.map_values(|e: EntryRow| e.stopped(user, self.now)),
            ..self
        }
    }

    /// Whether the project exists and belongs to the user.
    pub open spec fn owns(self, user: UserId, project: ProjectId) -> bool {
        self.projects.filter(project_of(user, project)).len() > 0
    }

    /// A running entry on the user's project is added, started at the
    /// current time; nothing happens when the project is not the user's or
    /// no identifier is left.
    pub open spec fn create_entry(self, user: UserId, project: ProjectId) -> (
        StoreModel,
        bool,
    ) {
        if self.has_room() && self.owns(user, project) {
            (
                StoreModel {
                    entries: self.entries.push(
                        EntryRow {
                            id: EntryId(self.next_id as u128),
                            owner: user,
                            project,
                            start_at: self.now,
                            stop_at: None,
                        },
                    ),
                    next_id: self.next_id + 1,
                    ..self
                },
                true,
            )
        } else {
            (self, false)
        }
    }

    /// The name of a project, or nothing when the project is gone.
    pub open spec fn project_name(self, project: ProjectId) -> Seq<char> {
        let rows = self.projects.filter(is_project(project));
        if rows.len() == 0 {
            Seq::empty()
        } else {
            rows[0].name
        }
    }

    /// An entry as it is listed.
    pub open spec fn listed_entry(self) -> spec_fn(EntryRow) -> EntrySpec {
        |e: EntryRow|
            EntrySpec {
                id: e.id,
                start_at: e.start_at,
                stop_at: e.stop_at,
                duration: e.duration(self.now),
                project_name: self.project_name(e.project),
            }
    }

    /// The user's entries, and no one else's, in insertion order.
    pub open spec fn list_entries(self, user: UserId) -> Seq<EntrySpec> {
        self.entries.filter(entry_of(user)).map_values(self.listed_entry())
    }

    /// The user's running entries.
    pub open spec fn active_entries(self, user: UserId) -> Seq<EntryRow> {
        self.entries.filter(active_of(user))
    }

    /// What the store answers to a request, and what it holds afterwards.
    /// Writing the session record is not the store's to do.
    pub open spec fn respond(self, request: RequestSpec) -> (StoreModel, ResponseSpec) {
        match request {
            RequestSpec::FindUserBySecret { secret } => (
                self,
                ResponseSpec::UserFound(self.find_user_by_secret(secret)),
            ),
            RequestSpec::CreateUser { secret } => match self.create_user(secret).1 {
                Some(user) => (self.create_user(secret).0, ResponseSpec::UserCreated(user)),
                None => (self, ResponseSpec::Failed),
            },
            RequestSpec::UserExists { user } => (
                self,
                ResponseSpec::UserExists(self.user_exists(user)),
            ),
            RequestSpec::ListProjects { user } => (
                self,
                ResponseSpec::Projects(self.list_projects(user)),
            ),
            RequestSpec::CreateProject { user, name } => match self.create_project(user, name).1 {
                Some(project) => (
                    self.create_project(user, name).0,
                    ResponseSpec::ProjectCreated(project),
                ),
                None => (self, ResponseSpec::Failed),
            },
            RequestSpec::DeleteProjectsByName { user, name } => (
                self.delete_projects_by_name(user, name).0,
                ResponseSpec::Deleted(self.delete_projects_by_name(user, name).1 as u64),
            ),
            RequestSpec::SetDefaultProject { user, name } => (
                self.set_default_project(user, name),
                ResponseSpec::Done,
            ),
            RequestSpec::StopAllActive { user } => (self.stop_all_active(user), ResponseSpec::Done),
            RequestSpec::CreateEntry { user, project } => if self.create_entry(user, project).1 {
                (self.create_entry(user, project).0, ResponseSpec::Done)
            } else {
                (self, ResponseSpec::Failed)
            },
            RequestSpec::ListEntries { user } => (
                self,
                ResponseSpec::Entries(self.list_entries(user)),
            ),
            RequestSpec::SaveSession { user_id } => (self, ResponseSpec::Failed),
        }
    }
}

} // verus!
