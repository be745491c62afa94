use time_tracker::error::Error;
use time_tracker::ident::UserId;
use time_tracker::protocol::{Command, Output, Request, Response};
use time_tracker::session::Session;
use time_tracker::store::MemoryStore;
use time_tracker::time::Timestamp;
use time_tracker::tracker::Tracker;

const T0: i64 = 1_700_000_000_000_000;

fn fresh() -> Tracker {
    Tracker::new(MemoryStore::new(Timestamp::from_unix_micros(T0).unwrap()))
}

fn login(tracker: &mut Tracker, secret: &str) -> UserId {
    assert_eq!(
        tracker.execute(Command::Login { secret: secret.to_string() }),
        Ok(Output::LoggedIn)
    );
    tracker.session.current_user().unwrap()
}

fn add(tracker: &mut Tracker, name: &str) {
    assert!(tracker.execute(Command::ProjectAdd { name: name.to_string() }).is_ok());
}

fn start(tracker: &mut Tracker, project: Option<&str>) -> Result<Output, Error> {
    tracker.execute(Command::Start { project: project.map(|p| p.to_string()) })
}

fn with_a_default_and_b() -> (Tracker, UserId) {
    let mut tracker = fresh();
    let user = login(&mut tracker, "secret");
    add(&mut tracker, "A");
    add(&mut tracker, "B");
    assert!(tracker.execute(Command::ProjectDefault { name: "A".to_string() }).is_ok());
    (tracker, user)
}

#[test]
fn at_most_one_entry_is_active_after_starts_and_stops() {
    let (mut tracker, user) = with_a_default_and_b();
    let calls: [Option<Option<&str>>; 9] = [
        Some(None),
        Some(Some("B")),
        Some(Some("B")),
        None,
        None,
        Some(Some("missing")),
        Some(None),
        Some(Some("A")),
        None,
    ];
    let expected: [usize; 9] = [1, 1, 1, 0, 0, 0, 1, 1, 0];
    for (call, active) in calls.iter().zip(expected) {
        assert!(tracker.store.advance_clock(1_000_000));
        match call {
            Some(project) => {
                let _ = start(&mut tracker, *project);
            },
            None => {
                assert!(tracker.execute(Command::Stop).is_ok());
            },
        }
        assert_eq!(tracker.store.active_count(user), active);
    }
    assert_eq!(tracker.store.list_entries(user).len(), 5);
}

#[test]
fn a_start_repairs_a_store_with_several_active_entries() {
    let (mut tracker, user) = with_a_default_and_b();
    let a = tracker.store.list_projects(user)[0].id;
    assert!(tracker.store.create_entry(user, a));
    assert!(tracker.store.create_entry(user, a));
    assert!(tracker.store.create_entry(user, a));
    assert_eq!(tracker.store.active_count(user), 3);
    assert!(start(&mut tracker, None).is_ok());
    assert_eq!(tracker.store.active_count(user), 1);
    assert_eq!(tracker.store.list_entries(user).len(), 4);
}

#[test]
fn a_second_stop_changes_nothing() {
    let (mut tracker, user) = with_a_default_and_b();
    assert!(start(&mut tracker, None).is_ok());
    assert!(tracker.store.advance_clock(3_000_000));
    let first = tracker.execute(Command::Stop);
    let entries = tracker.store.list_entries(user);
    assert!(tracker.store.advance_clock(3_000_000));
    let second = tracker.execute(Command::Stop);
    assert_eq!(first, second);
    assert_eq!(tracker.store.list_entries(user), entries);
    assert_eq!(entries[0].stop_at.unwrap().unix_micros(), T0 + 3_000_000);
}

#[test]
fn a_stop_with_nothing_running_succeeds() {
    let (mut tracker, _) = with_a_default_and_b();
    assert_eq!(tracker.execute(Command::Stop), Ok(Output::Entries(Vec::new())));
}

#[test]
fn start_without_a_name_uses_the_default() {
    let (mut tracker, user) = with_a_default_and_b();
    assert!(start(&mut tracker, None).is_ok());
    let entries = tracker.store.list_entries(user);
    assert_eq!(entries.len(), 1);
    assert_eq!(entries[0].project_name, "A");
}

#[test]
fn start_with_a_name_uses_that_project() {
    let (mut tracker, user) = with_a_default_and_b();
    assert!(start(&mut tracker, Some("B")).is_ok());
    let entries = tracker.store.list_entries(user);
    assert_eq!(entries.len(), 1);
    assert_eq!(entries[0].project_name, "B");
}

#[test]
fn start_with_an_unknown_name_fails_after_stopping() {
    let (mut tracker, user) = with_a_default_and_b();
    assert!(start(&mut tracker, None).is_ok());
    assert!(tracker.store.advance_clock(1_000_000));
    assert_eq!(start(&mut tracker, Some("C")), Err(Error::ProjectNotFound));
    let entries = tracker.store.list_entries(user);
    assert_eq!(entries.len(), 1);
    assert_eq!(entries[0].stop_at.unwrap().unix_micros(), T0 + 1_000_000);
    assert_eq!(tracker.store.active_count(user), 0);
}

#[test]
fn start_without_a_default_is_not_found() {
    let mut tracker = fresh();
    let user = login(&mut tracker, "secret");
    add(&mut tracker, "A");
    add(&mut tracker, "B");
    assert_eq!(start(&mut tracker, None), Err(Error::ProjectNotFound));
    assert!(tracker.store.list_entries(user).is_empty());
}

#[test]
fn start_on_a_duplicated_name_is_ambiguous() {
    let mut tracker = fresh();
    let user = login(&mut tracker, "secret");
    add(&mut tracker, "X");
    add(&mut tracker, "X");
    assert_eq!(start(&mut tracker, Some("X")), Err(Error::AmbiguousProject));
    assert!(tracker.store.list_entries(user).is_empty());
    assert_eq!(tracker.store.list_projects(user).len(), 2);
}

#[test]
fn start_sees_only_the_users_own_projects() {
    let mut tracker = fresh();
    let ann = login(&mut tracker, "ann");
    add(&mut tracker, "Work");
    let bob = login(&mut tracker, "bob");
    assert_ne!(ann, bob);
    assert_eq!(start(&mut tracker, Some("Work")), Err(Error::ProjectNotFound));
    add(&mut tracker, "Work");
    assert!(start(&mut tracker, Some("Work")).is_ok());
    assert_eq!(tracker.store.list_entries(bob).len(), 1);
    assert!(tracker.store.list_entries(ann).is_empty());
}

#[test]
fn login_twice_with_a_new_secret_gives_the_same_user() {
    let mut tracker = fresh();
    let first = login(&mut tracker, "brand new");
    let record = tracker.session.user_id.clone();
    let second = login(&mut tracker, "brand new");
    assert_eq!(first, second);
    assert_eq!(tracker.session.user_id, record);
    assert!(tracker.store.user_exists(first));
    assert_eq!(tracker.store.find_user_by_secret(&"brand new".to_string()), Some(first));
}

#[test]
fn login_after_logout_finds_the_same_user() {
    let mut tracker = fresh();
    let first = login(&mut tracker, "secret");
    assert_eq!(tracker.execute(Command::Logout), Ok(Output::LoggedOut));
    assert_eq!(tracker.session.user_id, None);
    assert_eq!(login(&mut tracker, "secret"), first);
}

#[test]
fn a_different_secret_is_a_different_account() {
    let mut tracker = fresh();
    let first = login(&mut tracker, "secret");
    let second = login(&mut tracker, "Secret");
    assert_ne!(first, second);
    assert!(tracker.store.user_exists(first));
    assert!(tracker.store.user_exists(second));
}

#[test]
fn logout_always_succeeds() {
    let mut tracker = fresh();
    assert_eq!(tracker.execute(Command::Logout), Ok(Output::LoggedOut));
    assert_eq!(tracker.execute(Command::Logout), Ok(Output::LoggedOut));
    assert_eq!(tracker.session.user_id, None);
}

#[test]
fn nothing_but_login_works_without_a_session() {
    let mut tracker = fresh();
    assert_eq!(tracker.execute(Command::List), Err(Error::NotLoggedIn));
    assert_eq!(tracker.execute(Command::Stop), Err(Error::NotLoggedIn));
    assert_eq!(start(&mut tracker, None), Err(Error::NotLoggedIn));
    assert_eq!(tracker.execute(Command::ProjectList), Err(Error::NotLoggedIn));
    tracker.session = Session { user_id: Some("garbage".to_string()) };
    assert_eq!(tracker.execute(Command::List), Err(Error::NotLoggedIn));
}

#[test]
fn a_deleted_account_fails_every_command_and_changes_nothing() {
    let (mut tracker, user) = with_a_default_and_b();
    assert!(start(&mut tracker, None).is_ok());
    tracker.store.delete_user(user);
    let commands = [
        Command::Start { project: None },
        Command::Start { project: Some("B".to_string()) },
        Command::Stop,
        Command::List,
        Command::ProjectList,
        Command::ProjectAdd { name: "C".to_string() },
        Command::ProjectRemove { name: "A".to_string() },
        Command::ProjectDefault { name: "B".to_string() },
    ];
    for command in commands {
        assert_eq!(tracker.execute(command), Err(Error::AccountDeleted));
    }
    assert_eq!(tracker.store.active_count(user), 1);
    assert_eq!(tracker.store.list_entries(user).len(), 1);
    assert_eq!(tracker.store.list_projects(user).len(), 2);
    assert!(tracker.session.user_id.is_some());
}

#[test]
fn a_deleted_account_can_log_in_again_as_a_new_user() {
    let mut tracker = fresh();
    let old = login(&mut tracker, "secret");
    tracker.store.delete_user(old);
    assert_eq!(tracker.execute(Command::List), Err(Error::AccountDeleted));
    let new = login(&mut tracker, "secret");
    assert_ne!(old, new);
    assert_eq!(tracker.execute(Command::List), Ok(Output::Entries(Vec::new())));
}

#[test]
fn a_fresh_user_works_on_a_default_project() {
    let mut tracker = fresh();
    let user = login(&mut tracker, "secret");
    assert_eq!(
        tracker.execute(Command::ProjectAdd { name: "Work".to_string() }),
        Ok(Output::Projects { deleted: None, lines: vec!["Work".to_string()] })
    );
    assert_eq!(
        tracker.execute(Command::ProjectDefault { name: "Work".to_string() }),
        Ok(Output::Projects { deleted: None, lines: vec!["Work (*)".to_string()] })
    );

    assert!(start(&mut tracker, None).is_ok());
    let entries = tracker.store.list_entries(user);
    assert_eq!(entries.len(), 1);
    assert_eq!(entries[0].project_name, "Work");
    assert_eq!(entries[0].stop_at, None);

    assert!(tracker.store.advance_clock(90_700_000));
    let shown = start(&mut tracker, Some("Work"));
    let entries = tracker.store.list_entries(user);
    assert_eq!(entries.len(), 2);
    assert_eq!(entries[0].project_name, "Work");
    assert_eq!(entries[1].project_name, "Work");
    let first_stop = entries[0].stop_at.unwrap();
    assert!(first_stop.unix_micros() >= entries[0].start_at.unix_micros());
    assert_eq!(first_stop.unix_micros(), T0 + 90_700_000);
    assert_eq!(entries[1].stop_at, None);
    assert_eq!(entries[1].start_at.unix_micros(), T0 + 90_700_000);
    assert_ne!(entries[0].id, entries[1].id);

    match shown {
        Ok(Output::Entries(rows)) => {
            assert_eq!(rows.len(), 2);
            assert_eq!(rows[0].start, "2023-11-14 22:13:20 UTC");
            assert_eq!(rows[0].stop, "2023-11-14 22:14:50.700 UTC");
            assert_eq!(rows[0].duration, "0:01:30");
            assert_eq!(rows[1].start, "2023-11-14 22:14:50.700 UTC");
            assert_eq!(rows[1].stop, "");
            assert_eq!(rows[1].duration, "0:00:00");
        },
        other => panic!("unexpected {:?}", other),
    }

    let listed = tracker.execute(Command::List);
    let again = tracker.execute(Command::List);
    assert_eq!(listed, again);
    match listed {
        Ok(Output::Entries(rows)) => assert_eq!(rows.len(), 2),
        other => panic!("unexpected {:?}", other),
    }
}

#[test]
fn a_running_entry_lasts_until_now() {
    let (mut tracker, _) = with_a_default_and_b();
    assert!(start(&mut tracker, None).is_ok());
    assert!(tracker.store.advance_clock(3_661_999_999));
    match tracker.execute(Command::List) {
        Ok(Output::Entries(rows)) => {
            assert_eq!(rows[0].duration, "1:01:01");
            assert_eq!(rows[0].stop, "");
        },
        other => panic!("unexpected {:?}", other),
    }
}

#[test]
fn project_remove_shows_the_count_and_the_rest() {
    let mut tracker = fresh();
    login(&mut tracker, "secret");
    add(&mut tracker, "X");
    add(&mut tracker, "Y");
    add(&mut tracker, "X");
    assert_eq!(
        tracker.execute(Command::ProjectRemove { name: "X".to_string() }),
        Ok(Output::Projects { deleted: Some(2), lines: vec!["Y".to_string()] })
    );
    assert_eq!(
        tracker.execute(Command::ProjectRemove { name: "X".to_string() }),
        Ok(Output::Projects { deleted: Some(0), lines: vec!["Y".to_string()] })
    );
    assert_eq!(
        tracker.execute(Command::ProjectList),
        Ok(Output::Projects { deleted: None, lines: vec!["Y".to_string()] })
    );
}

#[test]
fn project_default_of_an_unknown_name_keeps_the_default() {
    let (mut tracker, _) = with_a_default_and_b();
    assert_eq!(
        tracker.execute(Command::ProjectDefault { name: "Nope".to_string() }),
        Ok(Output::Projects {
            deleted: None,
            lines: vec!["A (*)".to_string(), "B".to_string()]
        })
    );
}

#[test]
fn the_session_record_is_written_through_the_tracker() {
    let mut tracker = fresh();
    assert_eq!(
        tracker.serve(Request::SaveSession { user_id: Some("abc".to_string()) }),
        Response::Done
    );
    assert_eq!(tracker.session.user_id, Some("abc".to_string()));
    assert_eq!(tracker.serve(Request::SaveSession { user_id: None }), Response::Done);
    assert_eq!(tracker.session.user_id, None);
    assert_eq!(
        tracker.serve(Request::UserExists { user: UserId(1) }),
        Response::UserExists(false)
    );
}
