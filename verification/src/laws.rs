//! What holds of the client whatever the store held before: the rules the
//! commands are there to keep.

use crate::error::Error;
use crate::flow::{begin_spec, step};
use crate::ident::{ProjectId, UserId};
use crate::model::{
    active_of, entry_key, has_secret, is_not_user, is_user, named, not_named, owned_by,
    project_key, user_key, EntryRow, StoreModel, UserRow,
};
use crate::protocol::{ActionSpec, CommandSpec, OutputSpec, RequestSpec, ResponseSpec};
use crate::record::ProjectSpec;
use crate::resolver::{candidates, is_candidate, resolution};
use crate::seqs::{
    lemma_bound_keeps_unique, lemma_filter_at_most_one, lemma_filter_keeps_unique,
    lemma_filter_none, lemma_filter_push, lemma_map_keeps_unique, lemma_push_keeps_unique,
};
use crate::session::current_user_of;
use crate::tracker::TrackerModel;
use vstd::prelude::*;

verus! {

/// One call of the entry lifecycle: start on a named or default project,
/// or stop.
pub enum Call {
    Start { project: Option<Seq<char>> },
    Stop,
}

/// The client after one call for `user`.
pub open spec fn after_call(model: TrackerModel, user: UserId, call: Call) -> TrackerModel {
    match call {
        Call::Start { project } => model.start(user, project).0,
        Call::Stop => model.stop(user).0,
    }
}

/// The client after a sequence of calls for `user`, one after the other.
pub open spec fn after_calls(model: TrackerModel, user: UserId, calls: Seq<Call>) -> TrackerModel
    decreases calls.len(),
{
    if calls.len() == 0 {
        model
    } else {
        after_call(after_calls(model, user, calls.drop_last()), user, calls.last())
    }
}

/// Stopping leaves the user no running entry, whatever ran before.
pub proof fn law_stop_leaves_none_active(store: StoreModel, user: UserId)
    ensures
        store.stop_all_active(user).active_entries(user).len() == 0,
{
    let stopped = store.stop_all_active(user).entries;
    assert forall|k: int| 0 <= k < stopped.len() implies !active_of(user)(
        #[trigger] stopped[k],
    ) by {
        assert(stopped[k] == store.entries[k].stopped(user, store.now));
    }
    lemma_filter_none(stopped, active_of(user));
}

/// After a start or a stop the user has at most one running entry: exactly
/// one after a start that succeeded, none otherwise.
pub proof fn law_call_leaves_one_active(model: TrackerModel, user: UserId, call: Call)
    ensures
        after_call(model, user, call).store.active_entries(user).len() <= 1,
        call is Stop ==> after_call(model, user, call).store.active_entries(user).len() == 0,
        call matches Call::Start { project } ==> (model.start(user, project).1 is Ok
            <==> after_call(model, user, call).store.active_entries(user).len() == 1),
{
    law_stop_leaves_none_active(model.store, user);
    match call {
        Call::Stop => {},
        Call::Start { project } => {
            let stopped = model.store.stop_all_active(user);
            if model.start(user, project).1 is Ok {
                let started = model.start(user, project).0.store;
                lemma_filter_push(stopped.entries, started.entries.last(), active_of(user));
                assert(started.entries =~= stopped.entries.push(started.entries.last()));
            }
        },
    }
}

/// Single active entry: after any sequence of start and stop calls for one
/// user, run one after the other, at most one of the user's entries is
/// running. An empty sequence keeps what held before.
pub proof fn law_single_active(model: TrackerModel, user: UserId, calls: Seq<Call>)
    ensures
        calls.len() > 0 ==> after_calls(model, user, calls).store.active_entries(user).len()
            <= 1,
        model.store.active_entries(user).len() <= 1 ==> after_calls(
            model,
            user,
            calls,
        ).store.active_entries(user).len() <= 1,
{
    if calls.len() > 0 {
        law_call_leaves_one_active(
            after_calls(model, user, calls.drop_last()),
            user,
            calls.last(),
        );
    }
}

/// Idempotent stop: a second stop changes nothing, however much later it
/// comes.
pub proof fn law_stop_twice(store: StoreModel, user: UserId, micros: int)
    ensures
        store.stop_all_active(user).later(micros).stop_all_active(user)
            == store.stop_all_active(user).later(micros),
        store.stop_all_active(user).stop_all_active(user) == store.stop_all_active(user),
{
    let once = store.stop_all_active(user);
    assert(once.later(micros).stop_all_active(user).entries =~= once.entries);
    assert(once.stop_all_active(user).entries =~= once.entries);
}

/// Start and stop for one user leave every other user's entries alone.
pub proof fn law_stop_spares_others(store: StoreModel, user: UserId, k: int)
    requires
        0 <= k < store.entries.len(),
        store.entries[k].owner != user,
    ensures
        store.stop_all_active(user).entries[k] == store.entries[k],
{
}

/// The user a login with `secret` logs in: the one found, or the one
/// created.
pub open spec fn login_user(model: TrackerModel, secret: Seq<char>) -> Option<UserId> {
    match model.store.find_user_by_secret(secret) {
        Some(user) => Some(user),
        None => model.store.create_user(secret).1,
    }
}

/// Login determinism: a second login with the same secret logs in the same
/// user as the first, creates nobody, and leaves the same session record.
pub proof fn law_login_twice(model: TrackerModel, secret: Seq<char>)
    requires
        model.login(secret).1 is Ok,
    ensures
        login_user(model, secret) is Some,
        login_user(model.login(secret).0, secret) == login_user(model, secret),
        model.login(secret).0.store.find_user_by_secret(secret) == login_user(model, secret),
        model.login(secret).0.login(secret) == model.login(secret),
{
    let first = model.login(secret).0;
    if model.store.find_user_by_secret(secret) is None {
        let user = model.store.create_user(secret).1->0;
        let row = UserRow { id: user, secret, default_project: None };
        lemma_filter_push(model.store.users, row, has_secret(secret));
        assert(first.store.users.filter(has_secret(secret)) =~= seq![row]);
    }
}

/// Session invalidation: when the stored user is gone from the store, any
/// command but login and logout fails with `AccountDeleted`. The one
/// request it makes is whether the user exists; nothing is changed.
pub proof fn law_deleted_account(model: TrackerModel, command: CommandSpec, user: UserId)
    requires
        !(command is Login),
        !(command is Logout),
        current_user_of(model.session) == Ok::<UserId, Error>(user),
        !model.store.user_exists(user),
    ensures
        model.execute(command) == (model, Err::<OutputSpec, Error>(
            Error::AccountDeleted,
        )),
        begin_spec(command, model.session).1 == ActionSpec::Ask(RequestSpec::UserExists { user }),
        step(begin_spec(command, model.session).0, ResponseSpec::UserExists(false)).1
            == ActionSpec::Finish(Err(Error::AccountDeleted)),
{
}

/// Without a usable stored identifier, any command but login and logout
/// fails with `NotLoggedIn` before any request is made.
pub proof fn law_not_logged_in(model: TrackerModel, command: CommandSpec)
    requires
        !(command is Login),
        !(command is Logout),
        current_user_of(model.session) is Err,
    ensures
        model.execute(command) == (model, Err::<OutputSpec, Error>(
            Error::NotLoggedIn,
        )),
        begin_spec(command, model.session).1 == ActionSpec::Finish(Err(Error::NotLoggedIn)),
{
}

/// A store that holds nothing is in order.
pub proof fn law_empty_in_order(now: int)
    ensures
        StoreModel::empty(now).wf(),
{
}

/// Time moving forward keeps the store in order.
pub proof fn law_later_keeps_order(store: StoreModel, micros: int)
    requires
        store.wf(),
        micros >= 0,
    ensures
        store.later(micros).wf(),
{
}

proof fn lemma_stop_keeps_order(store: StoreModel, user: UserId)
    requires
        store.wf(),
    ensures
        store.stop_all_active(user).wf(),
{
    let after = store.stop_all_active(user);
    lemma_map_keeps_unique(
        store.entries,
        |e: EntryRow| e.stopped(user, store.now),
        entry_key(),
        store.next_id,
    );
    assert forall|i: int| 0 <= i < after.entries.len() implies {
        &&& (#[trigger] after.entries[i]).start_at <= after.now
        &&& after.entries[i].stop_at matches Some(stop) ==> after.entries[i].start_at <= stop
            <= after.now
    } by {
        assert(after.entries[i] == store.entries[i].stopped(user, store.now));
    }
}

proof fn lemma_create_entry_keeps_order(store: StoreModel, user: UserId, project: ProjectId)
    requires
        store.wf(),
    ensures
        store.create_entry(user, project).0.wf(),
{
    let after = store.create_entry(user, project).0;
    if store.create_entry(user, project).1 {
        lemma_push_keeps_unique(
            store.entries,
            after.entries.last(),
            entry_key(),
            store.next_id,
        );
        lemma_bound_keeps_unique(store.users, user_key(), store.next_id);
        lemma_bound_keeps_unique(store.projects, project_key(), store.next_id);
        assert forall|i: int| 0 <= i < after.entries.len() implies {
            &&& (#[trigger] after.entries[i]).start_at <= after.now
            &&& after.entries[i].stop_at matches Some(stop) ==> after.entries[i].start_at <= stop
                <= after.now
        } by {
            if i < store.entries.len() {
                assert(after.entries[i] == store.entries[i]);
            }
        }
    }
}

/// Whatever is asked of a store in order, it stays in order: identifiers
/// stay unique, and no entry stops before it starts.
pub proof fn law_respond_keeps_order(store: StoreModel, request: RequestSpec)
    requires
        store.wf(),
    ensures
        store.respond(request).0.wf(),
{
    let after = store.respond(request).0;
    match request {
        RequestSpec::CreateUser { secret } => {
            if store.has_room() {
                lemma_push_keeps_unique(
                    store.users,
                    after.users.last(),
                    user_key(),
                    store.next_id,
                );
                lemma_bound_keeps_unique(store.projects, project_key(), store.next_id);
                lemma_bound_keeps_unique(store.entries, entry_key(), store.next_id);
            }
        },
        RequestSpec::CreateProject { user, name } => {
            if store.has_room() {
                lemma_push_keeps_unique(
                    store.projects,
                    after.projects.last(),
                    project_key(),
                    store.next_id,
                );
                lemma_bound_keeps_unique(store.users, user_key(), store.next_id);
                lemma_bound_keeps_unique(store.entries, entry_key(), store.next_id);
            }
        },
        RequestSpec::DeleteProjectsByName { user, name } => {
            lemma_filter_keeps_unique(
                store.projects,
                not_named(user, name),
                project_key(),
                store.next_id,
            );
        },
        RequestSpec::SetDefaultProject { user, name } => {
            let hits = store.projects.filter(named(user, name));
            if hits.len() > 0 {
                lemma_map_keeps_unique(
                    store.users,
                    |u: UserRow| u.designating(user, hits[0].id),
                    user_key(),
                    store.next_id,
                );
            }
        },
        RequestSpec::StopAllActive { user } => lemma_stop_keeps_order(store, user),
        RequestSpec::CreateEntry { user, project } => lemma_create_entry_keeps_order(
            store,
            user,
            project,
        ),
        _ => {},
    }
}

/// Removing a user behind the client's back keeps the store in order.
pub proof fn law_delete_user_keeps_order(store: StoreModel, user: UserId)
    requires
        store.wf(),
    ensures
        store.delete_user(user).wf(),
{
    lemma_filter_keeps_unique(store.users, is_not_user(user), user_key(), store.next_id);
}

/// At most one default: in a store in order, at most one of a user's
/// projects is listed as the default, so a start without a name is never
/// ambiguous.
pub proof fn law_one_default(store: StoreModel, user: UserId)
    requires
        store.wf(),
    ensures
        candidates(store.list_projects(user), None).len() <= 1,
        resolution(store.list_projects(user), None) != Err::<ProjectSpec, Error>(
            Error::AmbiguousProject,
        ),
{
    let own = store.projects.filter(owned_by(user));
    let listed = store.list_projects(user);
    let wanted = |p: ProjectSpec| is_candidate(p, None);
    lemma_filter_keeps_unique(store.projects, owned_by(user), project_key(), store.next_id);
    assert forall|i: int, j: int| 0 <= i < j < listed.len() implies !(wanted(listed[i])
        && wanted(listed[j])) by {
        assert(listed[i] == store.listed(user)(own[i]));
        assert(listed[j] == store.listed(user)(own[j]));
        assert(project_key()(own[i]) != project_key()(own[j]));
    }
    lemma_filter_at_most_one(listed, wanted);
}

/// A created user is new: no user had the identifier before.
pub proof fn law_created_user_is_new(store: StoreModel, secret: Seq<char>)
    requires
        store.wf(),
        store.create_user(secret).1 is Some,
    ensures
        !store.user_exists(store.create_user(secret).1->0),
{
    let id = store.create_user(secret).1->0;
    assert forall|k: int| 0 <= k < store.users.len() implies !is_user(id)(
        #[trigger] store.users[k],
    ) by {
        assert(user_key()(store.users[k]) < store.next_id);
    }
    lemma_filter_none(store.users, is_user(id));
}

/// Every command leaves a store that is in order in order.
pub proof fn law_execute_keeps_order(model: TrackerModel, command: CommandSpec)
    requires
        model.store.wf(),
    ensures
        model.execute(command).0.store.wf(),
{
    match command {
        CommandSpec::Login { secret } => {
            law_respond_keeps_order(model.store, RequestSpec::CreateUser { secret });
        },
        CommandSpec::Logout => {},
        _ => match current_user_of(model.session) {
            Ok(user) => if model.store.user_exists(user) {
                match command {
                    CommandSpec::Start { project } => {
                        let stopped = model.store.stop_all_active(user);
                        law_respond_keeps_order(
                            model.store,
                            RequestSpec::StopAllActive { user },
                        );
                        match resolution(stopped.list_projects(user), project) {
                            Ok(target) => law_respond_keeps_order(
                                stopped,
                                RequestSpec::CreateEntry { user, project: target.id },
                            ),
                            Err(_) => {},
                        }
                    },
                    CommandSpec::Stop => law_respond_keeps_order(
                        model.store,
                        RequestSpec::StopAllActive { user },
                    ),
                    CommandSpec::ProjectAdd { name } => law_respond_keeps_order(
                        model.store,
                        RequestSpec::CreateProject { user, name },
                    ),
                    CommandSpec::ProjectRemove { name } => law_respond_keeps_order(
                        model.store,
                        RequestSpec::DeleteProjectsByName { user, name },
                    ),
                    CommandSpec::ProjectDefault { name } => law_respond_keeps_order(
                        model.store,
                        RequestSpec::SetDefaultProject { user, name },
                    ),
                    _ => {},
                }
            },
            Err(_) => {},
        },
    }
}

} // verus!
