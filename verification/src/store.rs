//! A store kept in memory. It behaves as the store model says, so whatever
//! holds of the model holds of what the client does against this store.

use crate::ident::{EntryId, ProjectId, UserId};
use crate::laws::{law_empty_in_order, law_respond_keeps_order};
use crate::model::{
    active_of, entry_of, has_secret, is_not_user, is_project, is_user, named, not_named,
    owned_by, project_of, EntryRow, ProjectRow, StoreModel, UserRow,
};
use crate::protocol::{Request, Response};
use crate::record::{Entry, Project};
use crate::seqs::{lemma_filter_empty, lemma_filter_step};
use crate::time::{representable, Timestamp, MAX_UNIX_MICROS};
use vstd::prelude::*;

verus! {

struct UserRecord {
    id: UserId,
    secret: String,
    default_project: Option<ProjectId>,
}

impl View for UserRecord {
    type V = UserRow;

    closed spec fn view(&self) -> UserRow {
        UserRow { id: self.id, secret: self.secret@, default_project: self.default_project }
    }
}

impl DeepView for UserRecord {
    type V = UserRow;

    closed spec fn deep_view(&self) -> UserRow {
        self@
    }
}

struct ProjectRecord {
    id: ProjectId,
    owner: UserId,
    name: String,
}

impl View for ProjectRecord {
    type V = ProjectRow;

    closed spec fn view(&self) -> ProjectRow {
        ProjectRow { id: self.id, owner: self.owner, name: self.name@ }
    }
}

impl DeepView for ProjectRecord {
    type V = ProjectRow;

    closed spec fn deep_view(&self) -> ProjectRow {
        self@
    }
}

#[derive(Clone, Copy)]
struct EntryRecord {
    id: EntryId,
    owner: UserId,
    project: ProjectId,
    start_at: Timestamp,
    stop_at: Option<Timestamp>,
}

impl View for EntryRecord {
    type V = EntryRow;

    closed spec fn view(&self) -> EntryRow {
        EntryRow {
            id: self.id,
            owner: self.owner,
            project: self.project,
            start_at: self.start_at@,
            stop_at: match self.stop_at {
                Some(t) => Some(t@),
                None => None,
            },
        }
    }
}

impl DeepView for EntryRecord {
    type V = EntryRow;

    closed spec fn deep_view(&self) -> EntryRow {
        self@
    }
}

/// A store held in memory, with a clock that moves only when told to.
pub struct MemoryStore {
    users: Vec<UserRecord>,
    projects: Vec<ProjectRecord>,
    entries: Vec<EntryRecord>,
    now: Timestamp,
    next_id: u128,
}

impl View for MemoryStore {
    type V = StoreModel;

    closed spec fn view(&self) -> StoreModel {
        StoreModel {
            users: self.users.deep_view(),
            projects: self.projects.deep_view(),
            entries: self.entries.deep_view(),
            now: self.now@,
            next_id: self.next_id as nat,
        }
    }
}

fn without_user(users: &Vec<UserRecord>, user: UserId) -> (kept: Vec<UserRecord>)
    ensures
        kept.deep_view() == users.deep_view().filter(is_not_user(user)),
{
    let ghost rows = users.deep_view();
    let mut kept: Vec<UserRecord> = Vec::new();
    let mut i: usize = 0;
    proof {
        lemma_filter_empty(is_not_user(user));
        assert(rows.take(0) =~= Seq::<UserRow>::empty());
        assert(kept.deep_view() =~= Seq::<UserRow>::empty());
    }
    while i < users.len()
        invariant
            i <= users.len(),
            rows == users.deep_view(),
            kept.deep_view() == rows.take(i as int).filter(is_not_user(user)),
        decreases users.len() - i,
    {
        proof {
            lemma_filter_step(rows, is_not_user(user), i as int);
        }
        if users[i].id != user {
            let ghost before = kept.deep_view();
            kept.push(
                UserRecord {
                    id: users[i].id,
                    secret: users[i].secret.clone(),
                    default_project: users[i].default_project,
                },
            );
            assert(kept.deep_view() =~= before.push(rows[i as int]));
        }
        i += 1;
    }
    assert(rows.take(i as int) =~= rows);
    kept
}

fn without_named(projects: &Vec<ProjectRecord>, user: UserId, name: &String) -> (r: (
    Vec<ProjectRecord>,
    usize,
))
    ensures
        r.0.deep_view() == projects.deep_view().filter(not_named(user, name@)),
        r.1 == projects.deep_view().filter(named(user, name@)).len(),
{
    let ghost rows = projects.deep_view();
    let mut kept: Vec<ProjectRecord> = Vec::new();
    let mut removed: usize = 0;
    let mut i: usize = 0;
    proof {
        lemma_filter_empty(not_named(user, name@));
        lemma_filter_empty(named(user, name@));
        assert(rows.take(0) =~= Seq::<ProjectRow>::empty());
        assert(kept.deep_view() =~= Seq::<ProjectRow>::empty());
    }
    while i < projects.len()
        invariant
            i <= projects.len(),
            rows == projects.deep_view(),
            kept.deep_view() == rows.take(i as int).filter(not_named(user, name@)),
            removed == rows.take(i as int).filter(named(user, name@)).len(),
            removed <= i,
        decreases projects.len() - i,
    {
        proof {
            lemma_filter_step(rows, not_named(user, name@), i as int);
            lemma_filter_step(rows, named(user, name@), i as int);
        }
        if projects[i].owner == user && projects[i].name == *name {
            removed += 1;
        } else {
            let ghost before = kept.deep_view();
            kept.push(
                ProjectRecord {
                    id: projects[i].id,
                    owner: projects[i].owner,
                    name: projects[i].name.clone(),
                },
            );
            assert(kept.deep_view() =~= before.push(rows[i as int]));
        }
        i += 1;
    }
    assert(rows.take(i as int) =~= rows);
    (kept, removed)
}

fn designate(users: &mut Vec<UserRecord>, user: UserId, project: ProjectId)
    ensures
        final(users).deep_view() == old(users).deep_view().map_values(
            |u: UserRow| u.designating(user, project),
        ),
{
    let mut i: usize = 0;
    while i < users.len()
        invariant
            i <= users.len(),
            users.len() == old(users).len(),
            forall|k: int|
                0 <= k < i ==> (#[trigger] users[k])@ == old(users)[k]@.designating(user, project),
            forall|k: int| i <= k < users.len() ==> (#[trigger] users[k])@ == old(users)[k]@,
        decreases users.len() - i,
    {
        if users[i].id == user {
            users[i].default_project = Some(project);
        }
        i += 1;
    }
    assert(users.deep_view() =~= old(users).deep_view().map_values(
        |u: UserRow| u.designating(user, project),
    ));
}

fn stopped(entries: &Vec<EntryRecord>, user: UserId, now: Timestamp) -> (r: Vec<EntryRecord>)
    ensures
        r.deep_view() == entries.deep_view().map_values(|e: EntryRow| e.stopped(user, now@)),
{
    let mut out: Vec<EntryRecord> = Vec::new();
    let mut i: usize = 0;
    while i < entries.len()
        invariant
            i <= entries.len(),
            out.len() == i,
            forall|k: int| 0 <= k < i ==> (#[trigger] out[k])@ == entries[k]@.stopped(user, now@),
        decreases entries.len() - i,
    {
        let e = entries[i];
        if e.owner == user && e.stop_at.is_none() {
            out.push(EntryRecord { stop_at: Some(now), ..e });
        } else {
            out.push(e);
        }
        i += 1;
    }
    assert(out.deep_view() =~= entries.deep_view().map_values(
        |e: EntryRow| e.stopped(user, now@),
    ));
    out
}

impl MemoryStore {
    /// An empty store whose clock shows `now`.
    pub fn new(now: Timestamp) -> (r: MemoryStore)
        ensures
            r@ == StoreModel::empty(now@),
            r@.wf(),
    {
        proof {
            law_empty_in_order(now@);
        }
        let r = MemoryStore {
            users: Vec::new(),
            projects: Vec::new(),
            entries: Vec::new(),
            now,
            next_id: 1,
        };
        assert(r.users.deep_view() =~= Seq::<UserRow>::empty());
        assert(r.projects.deep_view() =~= Seq::<ProjectRow>::empty());
        assert(r.entries.deep_view() =~= Seq::<EntryRow>::empty());
        r
    }

    /// The store's current time.
    pub fn now(&self) -> (r: Timestamp)
        ensures
            r@ == self@.now,
    {
        self.now
    }

    /// Moves the clock forward by `micros` microseconds, unless that would
    /// pass the last instant the store can hold. Says whether it moved.
    pub fn advance_clock(&mut self, micros: u64) -> (moved: bool)
        ensures
            moved == representable(old(self)@.now + micros),
            final(self)@ == if moved {
                old(self)@.later(micros as int)
            } else {
                old(self)@
            },
    {
        let current = self.now.unix_micros();
        let room: i128 = MAX_UNIX_MICROS as i128 - current as i128;
        if micros as i128 <= room {
            let target: i64 = (current as i128 + micros as i128) as i64;
            match Timestamp::from_unix_micros(target) {
                Some(t) => {
                    self.now = t;
                    true
                },
                None => false,
            }
        } else {
            false
        }
    }

    /// The first user with exactly this secret.
    pub fn find_user_by_secret(&self, secret: &String) -> (r: Option<UserId>)
        ensures
            r == self@.find_user_by_secret(secret@),
    {
        let ghost rows = self.users.deep_view();
        let mut found: Option<UserId> = None;
        let mut i: usize = 0;
        proof {
            lemma_filter_empty(has_secret(secret@));
            assert(rows.take(0) =~= Seq::<UserRow>::empty());
        }
        while i < self.users.len()
            invariant
                i <= self.users.len(),
                rows == self.users.deep_view(),
                found is None <==> rows.take(i as int).filter(has_secret(secret@)).len() == 0,
                found matches Some(id) ==> rows.take(i as int).filter(has_secret(secret@))[0].id
                    == id,
            decreases self.users.len() - i,
        {
            proof {
                lemma_filter_step(rows, has_secret(secret@), i as int);
            }
            if found.is_none() && self.users[i].secret == *secret {
                found = Some(self.users[i].id);
            }
            i += 1;
        }
        assert(rows.take(i as int) =~= rows);
        found
    }

    /// Adds a user with this secret and returns its identifier, or nothing
    /// when no identifier is left.
    pub fn create_user(&mut self, secret: String) -> (r: Option<UserId>)
        ensures
            (final(self)@, r) == old(self)@.create_user(secret@),
    {
        if self.next_id < u128::MAX {
            let id = UserId(self.next_id);
            let ghost before = self.users.deep_view();
            let record = UserRecord { id, secret, default_project: None };
            self.users.push(record);
            self.next_id = self.next_id + 1;
            assert(self.users.deep_view() =~= before.push(record@));
            Some(id)
        } else {
            None
        }
    }

    /// Whether a user with this identifier exists.
    pub fn user_exists(&self, user: UserId) -> (r: bool)
        ensures
            r == self@.user_exists(user),
    {
        let ghost rows = self.users.deep_view();
        let mut found = false;
        let mut i: usize = 0;
        proof {
            lemma_filter_empty(is_user(user));
            assert(rows.take(0) =~= Seq::<UserRow>::empty());
        }
        while i < self.users.len()
            invariant
                i <= self.users.len(),
                rows == self.users.deep_view(),
                found <==> rows.take(i as int).filter(is_user(user)).len() > 0,
            decreases self.users.len() - i,
        {
            proof {
                lemma_filter_step(rows, is_user(user), i as int);
            }
            if self.users[i].id == user {
                found = true;
            }
            i += 1;
        }
        assert(rows.take(i as int) =~= rows);
        found
    }

    /// Removes a user behind the client's back. Projects and entries stay.
    pub fn delete_user(&mut self, user: UserId)
        ensures
            final(self)@ == old(self)@.delete_user(user),
    {
        self.users = without_user(&self.users, user);
    }

    /// The project the user has designated as default.
    pub fn default_of(&self, user: UserId) -> (r: Option<ProjectId>)
        ensures
            r == self@.default_of(user),
    {
        let ghost rows = self.users.deep_view();
        let mut found: Option<Option<ProjectId>> = None;
        let mut i: usize = 0;
        proof {
            lemma_filter_empty(is_user(user));
            assert(rows.take(0) =~= Seq::<UserRow>::empty());
        }
        while i < self.users.len()
            invariant
                i <= self.users.len(),
                rows == self.users.deep_view(),
                found is None <==> rows.take(i as int).filter(is_user(user)).len() == 0,
                found matches Some(d) ==> rows.take(i as int).filter(
                    is_user(user),
                )[0].default_project == d,
            decreases self.users.len() - i,
        {
            proof {
                lemma_filter_step(rows, is_user(user), i as int);
            }
            if found.is_none() && self.users[i].id == user {
                found = Some(self.users[i].default_project);
            }
            i += 1;
        }
        assert(rows.take(i as int) =~= rows);
        match found {
            Some(d) => d,
            None => None,
        }
    }

    /// The user's projects, each with its default flag.
    pub fn list_projects(&self, user: UserId) -> (r: Vec<Project>)
        ensures
            r.deep_view() == self@.list_projects(user),
    {
        let ghost rows = self.projects.deep_view();
        let ghost listed = self@.listed(user);
        let default = self.default_of(user);
        let mut out: Vec<Project> = Vec::new();
        let mut i: usize = 0;
        proof {
            lemma_filter_empty(owned_by(user));
            assert(rows.take(0) =~= Seq::<ProjectRow>::empty());
            assert(out.deep_view() =~= rows.take(0).filter(owned_by(user)).map_values(listed));
        }
        while i < self.projects.len()
            invariant
                i <= self.projects.len(),
                rows == self.projects.deep_view(),
                listed == self@.listed(user),
                default == self@.default_of(user),
                out.deep_view() == rows.take(i as int).filter(owned_by(user)).map_values(listed),
            decreases self.projects.len() - i,
        {
            proof {
                lemma_filter_step(rows, owned_by(user), i as int);
            }
            if self.projects[i].owner == user {
                let id = self.projects[i].id;
                let is_default = match default {
                    Some(d) => d == id,
                    None => false,
                };
                let ghost before = out.deep_view();
                let ghost kept = rows.take(i as int).filter(owned_by(user));
                out.push(Project { id, name: self.projects[i].name.clone(), is_default });
                assert(out.deep_view() =~= before.push(listed(rows[i as int])));
                assert(kept.push(rows[i as int]).map_values(listed) =~= kept.map_values(
                    listed,
                ).push(listed(rows[i as int])));
            }
            i += 1;
        }
        assert(rows.take(i as int) =~= rows);
        out
    }

    /// Adds a project of that name for the user and returns its identifier,
    /// or nothing when no identifier is left. Names are not checked for
    /// duplicates.
    pub fn create_project(&mut self, user: UserId, name: String) -> (r: Option<ProjectId>)
        ensures
            (final(self)@, r) == old(self)@.create_project(user, name@),
    {
        if self.next_id < u128::MAX {
            let id = ProjectId(self.next_id);
            let ghost before = self.projects.deep_view();
            let record = ProjectRecord { id, owner: user, name };
            self.projects.push(record);
            self.next_id = self.next_id + 1;
            assert(self.projects.deep_view() =~= before.push(record@));
            Some(id)
        } else {
            None
        }
    }

    /// Removes all of the user's projects of exactly that name and returns
    /// how many there were.
    pub fn delete_projects_by_name(&mut self, user: UserId, name: &String) -> (r: usize)
        ensures
            (final(self)@, r as nat) == old(self)@.delete_projects_by_name(user, name@),
    {
        let (kept, removed) = without_named(&self.projects, user, name);
        self.projects = kept;
        removed
    }

    /// Makes the user's first project of that name the user's sole default.
    /// Does nothing when the user has no project of that name.
    pub fn set_default_project(&mut self, user: UserId, name: &String)
        ensures
            final(self)@ == old(self)@.set_default_project(user, name@),
    {
        let ghost rows = self.projects.deep_view();
        let mut target: Option<ProjectId> = None;
        let mut i: usize = 0;
        proof {
            lemma_filter_empty(named(user, name@));
            assert(rows.take(0) =~= Seq::<ProjectRow>::empty());
        }
        while i < self.projects.len()
            invariant
                i <= self.projects.len(),
                *self == *old(self),
                rows == self.projects.deep_view(),
                target is None <==> rows.take(i as int).filter(named(user, name@)).len() == 0,
                target matches Some(id) ==> rows.take(i as int).filter(named(user, name@))[0].id
                    == id,
            decreases self.projects.len() - i,
        {
            proof {
                lemma_filter_step(rows, named(user, name@), i as int);
            }
            if target.is_none() && self.projects[i].owner == user && self.projects[i].name
                == *name {
                target = Some(self.projects[i].id);
            }
            i += 1;
        }
        assert(rows.take(i as int) =~= rows);
        match target {
            Some(id) => {
                designate(&mut self.users, user, id);
                assert(self.users.deep_view() =~= old(self).users.deep_view().map_values(
                    |u: UserRow| u.designating(user, rows.filter(named(user, name@))[0].id),
                ));
            },
            None => {},
        }
    }

    /// Sets the stop time of every running entry of the user to the
    /// current time.
    pub fn stop_all_active(&mut self, user: UserId)
        ensures
            final(self)@ == old(self)@.stop_all_active(user),
    {
        self.entries = stopped(&self.entries, user, self.now);
    }

    /// Whether the project exists and belongs to the user.
    pub fn owns(&self, user: UserId, project: ProjectId) -> (r: bool)
        ensures
            r == self@.owns(user, project),
    {
        let ghost rows = self.projects.deep_view();
        let mut found = false;
        let mut i: usize = 0;
        proof {
            lemma_filter_empty(project_of(user, project));
            assert(rows.take(0) =~= Seq::<ProjectRow>::empty());
        }
        while i < self.projects.len()
            invariant
                i <= self.projects.len(),
                rows == self.projects.deep_view(),
                found <==> rows.take(i as int).filter(project_of(user, project)).len() > 0,
            decreases self.projects.len() - i,
        {
            proof {
                lemma_filter_step(rows, project_of(user, project), i as int);
            }
            if self.projects[i].owner == user && self.projects[i].id == project {
                found = true;
            }
            i += 1;
        }
        assert(rows.take(i as int) =~= rows);
        found
    }

    /// Adds a running entry on the user's project, started at the current
    /// time. Says whether it did: not when the project is not the user's,
    /// and not when no identifier is left.
    pub fn create_entry(&mut self, user: UserId, project: ProjectId) -> (r: bool)
        ensures
            (final(self)@, r) == old(self)@.create_entry(user, project),
    {
        if self.next_id < u128::MAX && self.owns(user, project) {
            let ghost before = self.entries.deep_view();
            let record = EntryRecord {
                id: EntryId(self.next_id),
                owner: user,
                project,
                start_at: self.now,
                stop_at: None,
            };
            self.entries.push(record);
            self.next_id = self.next_id + 1;
            assert(self.entries.deep_view() =~= before.push(record@));
            true
        } else {
            false
        }
    }

    /// The name of a project, or an empty name when the project is gone.
    pub fn project_name(&self, project: ProjectId) -> (r: String)
        ensures
            r@ == self@.project_name(project),
    {
        let ghost rows = self.projects.deep_view();
        let mut found: Option<String> = None;
        let mut i: usize = 0;
        proof {
            lemma_filter_empty(is_project(project));
            assert(rows.take(0) =~= Seq::<ProjectRow>::empty());
        }
        while i < self.projects.len()
            invariant
                i <= self.projects.len(),
                rows == self.projects.deep_view(),
                found is None <==> rows.take(i as int).filter(is_project(project)).len() == 0,
                found matches Some(name) ==> rows.take(i as int).filter(
                    is_project(project),
                )[0].name == name@,
            decreases self.projects.len() - i,
        {
            proof {
                lemma_filter_step(rows, is_project(project), i as int);
            }
            if found.is_none() && self.projects[i].id == project {
                found = Some(self.projects[i].name.clone());
            }
            i += 1;
        }
        assert(rows.take(i as int) =~= rows);
        match found {
            Some(name) => name,
            None => String::new(),
        }
    }

    /// The user's entries in insertion order, each with its duration up to
    /// its stop time, or up to the current time while it is running.
    pub fn list_entries(&self, user: UserId) -> (r: Vec<Entry>)
        ensures
            r.deep_view() == self@.list_entries(user),
    {
        let ghost rows = self.entries.deep_view();
        let ghost listed = self@.listed_entry();
        let mut out: Vec<Entry> = Vec::new();
        let mut i: usize = 0;
        proof {
            lemma_filter_empty(entry_of(user));
            assert(rows.take(0) =~= Seq::<EntryRow>::empty());
            assert(out.deep_view() =~= rows.take(0).filter(entry_of(user)).map_values(listed));
        }
        while i < self.entries.len()
            invariant
                i <= self.entries.len(),
                rows == self.entries.deep_view(),
                listed == self@.listed_entry(),
                out.deep_view() == rows.take(i as int).filter(entry_of(user)).map_values(listed),
            decreases self.entries.len() - i,
        {
            proof {
                lemma_filter_step(rows, entry_of(user), i as int);
            }
            let e = self.entries[i];
            if e.owner == user {
                let duration = match e.stop_at {
                    Some(stop) => stop.micros_since(e.start_at),
                    None => self.now.micros_since(e.start_at),
                };
                let ghost before = out.deep_view();
                let ghost kept = rows.take(i as int).filter(entry_of(user));
                let entry = Entry {
                    id: e.id,
                    start_at: e.start_at,
                    stop_at: e.stop_at,
                    duration,
                    project_name: self.project_name(e.project),
                };
                assert(entry@ == listed(rows[i as int]));
                out.push(entry);
                assert(out.deep_view() =~= before.push(listed(rows[i as int])));
                assert(kept.push(rows[i as int]).map_values(listed) =~= kept.map_values(
                    listed,
                ).push(listed(rows[i as int])));
            }
            i += 1;
        }
        assert(rows.take(i as int) =~= rows);
        out
    }

    /// How many of the user's entries are running.
    pub fn active_count(&self, user: UserId) -> (r: usize)
        ensures
            r == self@.active_entries(user).len(),
    {
        let ghost rows = self.entries.deep_view();
        let mut count: usize = 0;
        let mut i: usize = 0;
        proof {
            lemma_filter_empty(active_of(user));
            assert(rows.take(0) =~= Seq::<EntryRow>::empty());
        }
        while i < self.entries.len()
            invariant
                i <= self.entries.len(),
                rows == self.entries.deep_view(),
                count == rows.take(i as int).filter(active_of(user)).len(),
                count <= i,
            decreases self.entries.len() - i,
        {
            proof {
                lemma_filter_step(rows, active_of(user), i as int);
            }
            if self.entries[i].owner == user && self.entries[i].stop_at.is_none() {
                count += 1;
            }
            i += 1;
        }
        assert(rows.take(i as int) =~= rows);
        count
    }

    /// Carries out a request and answers it.
    pub fn handle(&mut self, request: Request) -> (r: Response)
        ensures
            (final(self)@, r@) == old(self)@.respond(request@),
            old(self)@.wf() ==> final(self)@.wf(),
    {
        proof {
            if self@.wf() {
                law_respond_keeps_order(self@, request@);
            }
        }
        match request {
            Request::FindUserBySecret { secret } => Response::UserFound(
                self.find_user_by_secret(&secret),
            ),
            Request::CreateUser { secret } => match self.create_user(secret) {
                Some(user) => Response::UserCreated(user),
                None => Response::Failed,
            },
            Request::UserExists { user } => Response::UserExists(self.user_exists(user)),
            Request::ListProjects { user } => Response::Projects(self.list_projects(user)),
            Request::CreateProject { user, name } => match self.create_project(user, name) {
                Some(project) => Response::ProjectCreated(project),
                None => Response::Failed,
            },
            Request::DeleteProjectsByName { user, name } => Response::Deleted(
                self.delete_projects_by_name(user, &name) as u64,
            ),
            Request::SetDefaultProject { user, name } => {
                self.set_default_project(user, &name);
                Response::Done
            },
            Request::StopAllActive { user } => {
                self.stop_all_active(user);
                Response::Done
            },
            Request::CreateEntry { user, project } => if self.create_entry(user, project) {
                Response::Done
            } else {
                Response::Failed
            },
            Request::ListEntries { user } => Response::Entries(self.list_entries(user)),
            Request::SaveSession { user_id } => Response::Failed,
        }
    }
}

} // verus!
