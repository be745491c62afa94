use time_tracker::error::Error;
use time_tracker::flow::{advance, begin, Stage, State};
use time_tracker::ident::{EntryId, ProjectId, UserId};
use time_tracker::protocol::{Action, Command, Output, Request, Response};
use time_tracker::record::{Entry, Project};
use time_tracker::session::Session;
use time_tracker::time::Timestamp;

const USER_TEXT: &str = "00000000-0000-0000-0000-000000000007";

fn logged_in() -> Session {
    Session { user_id: Some(USER_TEXT.to_string()) }
}

fn user() -> UserId {
    UserId(7)
}

fn validated(command: Command) -> (State, Action) {
    let (state, action) = begin(command, &logged_in());
    assert_eq!(action, Action::Ask(Request::UserExists { user: user() }));
    assert_eq!(state.stage, Stage::Validate);
    advance(state, Response::UserExists(true))
}

fn work() -> Project {
    Project { id: ProjectId(3), name: "Work".to_string(), is_default: true }
}

#[test]
fn login_with_a_known_secret_finds_and_saves() {
    let (state, action) = begin(Command::Login { secret: "s3cret".to_string() }, &Session::new());
    assert_eq!(action, Action::Ask(Request::FindUserBySecret { secret: "s3cret".to_string() }));
    let (state, action) = advance(state, Response::UserFound(Some(UserId(9))));
    assert_eq!(
        action,
        Action::Ask(Request::SaveSession {
            user_id: Some("00000000-0000-0000-0000-000000000009".to_string())
        })
    );
    assert_eq!(state.user, Some(UserId(9)));
    let (state, action) = advance(state, Response::Done);
    assert_eq!(action, Action::Finish(Ok(Output::LoggedIn)));
    assert_eq!(state.stage, Stage::Finished);
}

#[test]
fn login_with_an_unknown_secret_creates_the_user() {
    let (state, _) = begin(Command::Login { secret: "new".to_string() }, &Session::new());
    let (state, action) = advance(state, Response::UserFound(None));
    assert_eq!(action, Action::Ask(Request::CreateUser { secret: "new".to_string() }));
    let (state, action) = advance(state, Response::UserCreated(UserId(1)));
    assert_eq!(
        action,
        Action::Ask(Request::SaveSession {
            user_id: Some("00000000-0000-0000-0000-000000000001".to_string())
        })
    );
    let (_, action) = advance(state, Response::Done);
    assert_eq!(action, Action::Finish(Ok(Output::LoggedIn)));
}

#[test]
fn login_needs_no_session_and_ignores_one() {
    let (_, action) = begin(Command::Login { secret: "s".to_string() }, &logged_in());
    assert_eq!(action, Action::Ask(Request::FindUserBySecret { secret: "s".to_string() }));
}

#[test]
fn login_fails_when_the_record_cannot_be_written() {
    let (state, _) = begin(Command::Login { secret: "s".to_string() }, &Session::new());
    let (state, _) = advance(state, Response::UserFound(Some(UserId(9))));
    let (_, action) = advance(state, Response::Failed);
    assert_eq!(action, Action::Finish(Err(Error::ConfigIOError)));
}

#[test]
fn login_fails_when_the_store_fails() {
    let (state, _) = begin(Command::Login { secret: "s".to_string() }, &Session::new());
    let (_, action) = advance(state, Response::Failed);
    assert_eq!(action, Action::Finish(Err(Error::StoreUnavailable)));
    let (state, _) = begin(Command::Login { secret: "s".to_string() }, &Session::new());
    let (state, _) = advance(state, Response::UserFound(None));
    let (_, action) = advance(state, Response::Failed);
    assert_eq!(action, Action::Finish(Err(Error::StoreUnavailable)));
}

#[test]
fn logout_clears_the_record_whoever_was_logged_in() {
    for session in [Session::new(), logged_in()] {
        let (state, action) = begin(Command::Logout, &session);
        assert_eq!(action, Action::Ask(Request::SaveSession { user_id: None }));
        let (_, action) = advance(state, Response::Done);
        assert_eq!(action, Action::Finish(Ok(Output::LoggedOut)));
    }
}

#[test]
fn logout_fails_when_the_record_cannot_be_written() {
    let (state, _) = begin(Command::Logout, &logged_in());
    let (_, action) = advance(state, Response::Failed);
    assert_eq!(action, Action::Finish(Err(Error::ConfigIOError)));
}

#[test]
fn every_other_command_needs_a_logged_in_user() {
    let commands = [
        Command::Start { project: None },
        Command::Start { project: Some("Work".to_string()) },
        Command::Stop,
        Command::List,
        Command::ProjectList,
        Command::ProjectAdd { name: "Work".to_string() },
        Command::ProjectRemove { name: "Work".to_string() },
        Command::ProjectDefault { name: "Work".to_string() },
    ];
    for command in commands {
        let (state, action) = begin(command, &Session::new());
        assert_eq!(action, Action::Finish(Err(Error::NotLoggedIn)));
        assert_eq!(state.stage, Stage::Finished);
    }
    let malformed = Session { user_id: Some("x".to_string()) };
    let (_, action) = begin(Command::List, &malformed);
    assert_eq!(action, Action::Finish(Err(Error::NotLoggedIn)));
}

#[test]
fn a_deleted_account_ends_every_other_command_at_once() {
    let commands = [
        Command::Start { project: None },
        Command::Stop,
        Command::List,
        Command::ProjectList,
        Command::ProjectAdd { name: "Work".to_string() },
        Command::ProjectRemove { name: "Work".to_string() },
        Command::ProjectDefault { name: "Work".to_string() },
    ];
    for command in commands {
        let (state, action) = begin(command, &logged_in());
        assert_eq!(action, Action::Ask(Request::UserExists { user: user() }));
        let (state, action) = advance(state, Response::UserExists(false));
        assert_eq!(action, Action::Finish(Err(Error::AccountDeleted)));
        assert_eq!(state.stage, Stage::Finished);
    }
}

#[test]
fn start_stops_resolves_creates_and_lists() {
    let (state, action) = validated(Command::Start { project: None });
    assert_eq!(action, Action::Ask(Request::StopAllActive { user: user() }));
    let (state, action) = advance(state, Response::Done);
    assert_eq!(action, Action::Ask(Request::ListProjects { user: user() }));
    let (state, action) = advance(state, Response::Projects(vec![work()]));
    assert_eq!(action, Action::Ask(Request::CreateEntry { user: user(), project: ProjectId(3) }));
    let (state, action) = advance(state, Response::Done);
    assert_eq!(action, Action::Ask(Request::ListEntries { user: user() }));
    let entry = Entry {
        id: EntryId(4),
        start_at: Timestamp::from_unix_micros(0).unwrap(),
        stop_at: None,
        duration: 1_500_000,
        project_name: "Work".to_string(),
    };
    let (_, action) = advance(state, Response::Entries(vec![entry]));
    match action {
        Action::Finish(Ok(Output::Entries(rows))) => {
            assert_eq!(rows.len(), 1);
            assert_eq!(rows[0].start, "1970-01-01 00:00:00 UTC");
            assert_eq!(rows[0].stop, "");
            assert_eq!(rows[0].duration, "0:00:01");
            assert_eq!(rows[0].project_name, "Work");
        },
        other => panic!("unexpected {:?}", other),
    }
}

#[test]
fn start_fails_after_stopping_when_nothing_resolves() {
    let (state, _) = validated(Command::Start { project: Some("C".to_string()) });
    let (state, action) = advance(state, Response::Done);
    assert_eq!(action, Action::Ask(Request::ListProjects { user: user() }));
    let (state, action) = advance(state, Response::Projects(vec![work()]));
    assert_eq!(action, Action::Finish(Err(Error::ProjectNotFound)));
    assert_eq!(state.stage, Stage::Finished);
}

#[test]
fn start_fails_when_the_name_is_ambiguous() {
    let (state, _) = validated(Command::Start { project: Some("X".to_string()) });
    let (state, _) = advance(state, Response::Done);
    let twins = vec![
        Project { id: ProjectId(1), name: "X".to_string(), is_default: false },
        Project { id: ProjectId(2), name: "X".to_string(), is_default: false },
    ];
    let (_, action) = advance(state, Response::Projects(twins));
    assert_eq!(action, Action::Finish(Err(Error::AmbiguousProject)));
}

#[test]
fn stop_stops_and_lists() {
    let (state, action) = validated(Command::Stop);
    assert_eq!(action, Action::Ask(Request::StopAllActive { user: user() }));
    let (state, action) = advance(state, Response::Done);
    assert_eq!(action, Action::Ask(Request::ListEntries { user: user() }));
    let (_, action) = advance(state, Response::Entries(Vec::new()));
    assert_eq!(action, Action::Finish(Ok(Output::Entries(Vec::new()))));
}

#[test]
fn list_only_lists() {
    let (state, action) = validated(Command::List);
    assert_eq!(action, Action::Ask(Request::ListEntries { user: user() }));
    let (_, action) = advance(state, Response::Entries(Vec::new()));
    assert_eq!(action, Action::Finish(Ok(Output::Entries(Vec::new()))));
}

#[test]
fn project_list_shows_the_lines() {
    let (state, action) = validated(Command::ProjectList);
    assert_eq!(action, Action::Ask(Request::ListProjects { user: user() }));
    let (_, action) = advance(state, Response::Projects(vec![work()]));
    assert_eq!(
        action,
        Action::Finish(Ok(Output::Projects { deleted: None, lines: vec!["Work (*)".to_string()] }))
    );
}

#[test]
fn project_add_creates_then_lists() {
    let (state, action) = validated(Command::ProjectAdd { name: "Work".to_string() });
    assert_eq!(
        action,
        Action::Ask(Request::CreateProject { user: user(), name: "Work".to_string() })
    );
    let (state, action) = advance(state, Response::ProjectCreated(ProjectId(3)));
    assert_eq!(action, Action::Ask(Request::ListProjects { user: user() }));
    let (_, action) = advance(state, Response::Projects(Vec::new()));
    assert_eq!(action, Action::Finish(Ok(Output::Projects { deleted: None, lines: Vec::new() })));
}

#[test]
fn project_remove_reports_the_count() {
    let (state, action) = validated(Command::ProjectRemove { name: "Work".to_string() });
    assert_eq!(
        action,
        Action::Ask(Request::DeleteProjectsByName { user: user(), name: "Work".to_string() })
    );
    let (state, action) = advance(state, Response::Deleted(2));
    assert_eq!(action, Action::Ask(Request::ListProjects { user: user() }));
    assert_eq!(state.deleted, Some(2));
    let (_, action) = advance(state, Response::Projects(Vec::new()));
    assert_eq!(
        action,
        Action::Finish(Ok(Output::Projects { deleted: Some(2), lines: Vec::new() }))
    );
}

#[test]
fn project_default_designates_then_lists() {
    let (state, action) = validated(Command::ProjectDefault { name: "Work".to_string() });
    assert_eq!(
        action,
        Action::Ask(Request::SetDefaultProject { user: user(), name: "Work".to_string() })
    );
    let (_, action) = advance(state, Response::Done);
    assert_eq!(action, Action::Ask(Request::ListProjects { user: user() }));
}

#[test]
fn a_failed_request_ends_the_command_at_every_stage() {
    let (state, _) = begin(Command::Start { project: None }, &logged_in());
    let (_, action) = advance(state, Response::Failed);
    assert_eq!(action, Action::Finish(Err(Error::StoreUnavailable)));

    let (state, _) = validated(Command::Start { project: None });
    let (_, action) = advance(state, Response::Failed);
    assert_eq!(action, Action::Finish(Err(Error::StoreUnavailable)));

    let (state, _) = validated(Command::Start { project: None });
    let (state, _) = advance(state, Response::Done);
    let (_, action) = advance(state, Response::Failed);
    assert_eq!(action, Action::Finish(Err(Error::StoreUnavailable)));

    let (state, _) = validated(Command::Start { project: None });
    let (state, _) = advance(state, Response::Done);
    let (state, _) = advance(state, Response::Projects(vec![work()]));
    let (_, action) = advance(state, Response::Failed);
    assert_eq!(action, Action::Finish(Err(Error::StoreUnavailable)));

    let (state, _) = validated(Command::List);
    let (_, action) = advance(state, Response::Failed);
    assert_eq!(action, Action::Finish(Err(Error::StoreUnavailable)));

    let (state, _) = validated(Command::ProjectAdd { name: "W".to_string() });
    let (_, action) = advance(state, Response::Failed);
    assert_eq!(action, Action::Finish(Err(Error::StoreUnavailable)));
}

#[test]
fn an_answer_of_the_wrong_kind_ends_the_command() {
    let (state, _) = begin(Command::List, &logged_in());
    let (_, action) = advance(state, Response::Done);
    assert_eq!(action, Action::Finish(Err(Error::StoreUnavailable)));

    let (state, _) = validated(Command::ProjectAdd { name: "W".to_string() });
    let (_, action) = advance(state, Response::Deleted(1));
    assert_eq!(action, Action::Finish(Err(Error::StoreUnavailable)));

    let (state, _) = validated(Command::ProjectRemove { name: "W".to_string() });
    let (_, action) = advance(state, Response::Done);
    assert_eq!(action, Action::Finish(Err(Error::StoreUnavailable)));
}

#[test]
fn a_finished_command_stays_finished() {
    let (state, _) = validated(Command::List);
    let (state, _) = advance(state, Response::Entries(Vec::new()));
    assert_eq!(state.stage, Stage::Finished);
    let (state, action) = advance(state, Response::Done);
    assert_eq!(action, Action::Finish(Err(Error::StoreUnavailable)));
    assert_eq!(state.stage, Stage::Finished);
}
