use git_mover::upsert::{upsert_action, upsert_start, upsert_step, UpsertAction, UpsertEvent, UpsertState};
use git_mover::{GitMoverError, GitMoverErrorKind, Repo};

fn repo(name: &str, description: &str) -> Repo {
    Repo {
        name: name.to_string(),
        path: name.to_string(),
        description: description.to_string(),
        private: false,
        fork: false,
    }
}

struct FakeAdapter {
    create: Result<(), GitMoverError>,
    get: Result<Repo, GitMoverError>,
    update: Result<(), GitMoverError>,
    creates: usize,
    gets: usize,
    updates: Vec<Repo>,
}

fn drive(adapter: &mut FakeAdapter, intended: &Repo) -> Result<(), GitMoverError> {
    let mut state = upsert_start();
    loop {
        let event = match upsert_action(intended, &state) {
            UpsertAction::Create(_) => {
                adapter.creates += 1;
                match adapter.create.clone() {
                    Ok(()) => UpsertEvent::Created,
                    Err(e) => UpsertEvent::CreateFailed(e),
                }
            }
            UpsertAction::Lookup(_) => {
                adapter.gets += 1;
                match adapter.get.clone() {
                    Ok(r) => UpsertEvent::Found(r),
                    Err(e) => UpsertEvent::LookupFailed(e),
                }
            }
            UpsertAction::Update(r) => {
                adapter.updates.push(r);
                match adapter.update.clone() {
                    Ok(()) => UpsertEvent::Updated,
                    Err(e) => UpsertEvent::UpdateFailed(e),
                }
            }
            UpsertAction::Stop(outcome) => return outcome,
        };
        state = upsert_step(intended, state, event);
    }
}

fn conflict() -> GitMoverError {
    GitMoverError::with_kind(GitMoverErrorKind::Conflict, "already exists".to_string())
}

#[test]
fn create_that_succeeds_needs_nothing_more() {
    let intended = repo("a", "x");
    let mut adapter = FakeAdapter {
        create: Ok(()),
        get: Ok(repo("a", "x")),
        update: Ok(()),
        creates: 0,
        gets: 0,
        updates: Vec::new(),
    };
    assert!(drive(&mut adapter, &intended).is_ok());
    assert_eq!(adapter.creates, 1);
    assert_eq!(adapter.gets, 0);
    assert!(adapter.updates.is_empty());
}

#[test]
fn identical_record_is_success_without_update() {
    let intended = repo("a", "x");
    let mut adapter = FakeAdapter {
        create: Err(conflict()),
        get: Ok(repo("a", "x")),
        update: Err(conflict()),
        creates: 0,
        gets: 0,
        updates: Vec::new(),
    };
    assert!(drive(&mut adapter, &intended).is_ok());
    assert_eq!(adapter.creates, 1);
    assert_eq!(adapter.gets, 1);
    assert!(adapter.updates.is_empty());
}

#[test]
fn different_record_is_updated_once_with_the_intended_value() {
    let intended = repo("a", "new");
    let mut adapter = FakeAdapter {
        create: Err(conflict()),
        get: Ok(repo("a", "old")),
        update: Ok(()),
        creates: 0,
        gets: 0,
        updates: Vec::new(),
    };
    assert!(drive(&mut adapter, &intended).is_ok());
    assert_eq!(adapter.creates, 1);
    assert_eq!(adapter.gets, 1);
    assert_eq!(adapter.updates.len(), 1);
    assert_eq!(adapter.updates[0], intended);
    assert_eq!(adapter.updates[0].description, "new");
}

#[test]
fn failed_update_is_the_outcome() {
    let intended = repo("a", "new");
    let mut adapter = FakeAdapter {
        create: Err(conflict()),
        get: Ok(repo("a", "old")),
        update: Err(GitMoverError::with_kind(GitMoverErrorKind::AuthFailure, "denied".to_string())),
        creates: 0,
        gets: 0,
        updates: Vec::new(),
    };
    let e = drive(&mut adapter, &intended).unwrap_err();
    assert_eq!(e.kind(), GitMoverErrorKind::AuthFailure);
    assert_eq!(e.to_text(), "denied");
    assert_eq!(adapter.updates.len(), 1);
}

#[test]
fn failed_lookup_reports_the_refusal_with_its_cause() {
    let intended = repo("a", "x");
    let mut adapter = FakeAdapter {
        create: Err(conflict()),
        get: Err(GitMoverError::with_kind(GitMoverErrorKind::NotFound, "no such repo".to_string())),
        update: Ok(()),
        creates: 0,
        gets: 0,
        updates: Vec::new(),
    };
    let e = drive(&mut adapter, &intended).unwrap_err();
    assert_eq!(e.kind(), GitMoverErrorKind::Conflict);
    assert_eq!(e.message(), "already exists");
    assert_eq!(e.source_text(), Some("no such repo"));
    assert_eq!(e.to_text(), "already exists - no such repo");
    assert_eq!(adapter.gets, 1);
    assert!(adapter.updates.is_empty());
}

#[test]
fn answers_out_of_turn_change_nothing() {
    let intended = repo("a", "x");
    let state = upsert_step(&intended, upsert_start(), UpsertEvent::Updated);
    assert!(matches!(state, UpsertState::Creating));
    let state = upsert_step(&intended, state, UpsertEvent::Found(repo("a", "y")));
    assert!(matches!(state, UpsertState::Creating));
    let state = upsert_step(&intended, state, UpsertEvent::Created);
    assert!(matches!(state, UpsertState::Succeeded));
    let state = upsert_step(&intended, state, UpsertEvent::CreateFailed(conflict()));
    assert!(matches!(state, UpsertState::Succeeded));
    assert!(matches!(upsert_action(&intended, &state), UpsertAction::Stop(Ok(()))));
}

#[test]
fn lookup_goes_by_identity_not_by_path() {
    let intended = repo("a", "x");
    let mut found = repo("a", "x");
    found.path = "elsewhere".to_string();
    let state = upsert_step(&intended, upsert_start(), UpsertEvent::CreateFailed(conflict()));
    let state = upsert_step(&intended, state, UpsertEvent::Found(found));
    assert!(matches!(state, UpsertState::Succeeded));
}
