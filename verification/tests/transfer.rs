use git_mover::codeberg::CodebergPlatform;
use git_mover::github::GithubPlatform;
use git_mover::transfer::{
    ProgressEvent, Stage, Transfer, TransferAction, TransferEvent, TransferPhase,
};
use git_mover::{GitMoverError, GitMoverErrorKind, Repo};

fn project() -> Repo {
    Repo {
        name: "Project".to_string(),
        path: "proj".to_string(),
        description: "a project".to_string(),
        private: false,
        fork: false,
    }
}

fn start() -> Transfer {
    let source = GithubPlatform::new("alice".to_string(), "t1".to_string());
    let destination = CodebergPlatform::new("bob".to_string(), "t2".to_string());
    Transfer::new(&source, &destination, project())
}

fn failure(text: &str) -> GitMoverError {
    GitMoverError::with_kind(GitMoverErrorKind::Transport, text.to_string())
}

struct Outcome {
    result: Result<(), GitMoverError>,
    actions: Vec<String>,
    events: Vec<ProgressEvent>,
}

fn describe(action: &TransferAction) -> String {
    match action {
        TransferAction::Upsert(r) => format!("upsert {}", r.name),
        TransferAction::CloneBare { url, directory } => format!("clone {} {}", url, directory),
        TransferAction::AddRemote { name, url } => format!("remote {} {}", name, url),
        TransferAction::ConnectPush { remote } => format!("connect {}", remote),
        TransferAction::ListReferences => "list".to_string(),
        TransferAction::PushReference { remote, refspec } => format!("push {} {}", remote, refspec),
        TransferAction::RemoveDirectory { directory } => format!("remove {}", directory),
        TransferAction::Stop(_) => "stop".to_string(),
    }
}

fn run(refs: Vec<&str>, fails: Vec<&str>) -> Outcome {
    let mut transfer = start();
    let mut actions = Vec::new();
    let mut events = Vec::new();
    loop {
        let action = transfer.pending();
        let text = describe(&action);
        actions.push(text.clone());
        let event = match action {
            TransferAction::Stop(result) => {
                assert!(transfer.is_finished());
                return Outcome { result, actions, events };
            }
            TransferAction::ListReferences => {
                if fails.contains(&"list") {
                    TransferEvent::Failed(failure("list failed"))
                } else {
                    TransferEvent::Listed(refs.iter().map(|r| r.to_string()).collect())
                }
            }
            _ => {
                if fails.iter().any(|f| text.starts_with(f)) {
                    TransferEvent::Failed(failure(&format!("{} failed", text)))
                } else {
                    TransferEvent::Succeeded
                }
            }
        };
        let (next, mut reported) = transfer.step(event);
        transfer = next;
        events.append(&mut reported);
    }
}

fn stages(events: &Vec<ProgressEvent>) -> Vec<String> {
    events
        .iter()
        .map(|e| match &e.stage {
            Stage::Created => "Created".to_string(),
            Stage::Cloning => "Cloning".to_string(),
            Stage::Cloned => "Cloned".to_string(),
            Stage::RemoteAdded => "RemoteAdded".to_string(),
            Stage::Pushing(r) => format!("Pushing {}", r),
            Stage::Pushed(r) => format!("Pushed {}", r),
            Stage::PushFailed { reference, .. } => format!("PushFailed {}", reference),
            Stage::Done => "Done".to_string(),
            Stage::Failed(_) => "Failed".to_string(),
        })
        .collect()
}

#[test]
fn successful_transfer_goes_through_every_step() {
    let out = run(vec!["refs/heads/main", "refs/tags/v1"], vec![]);
    assert!(out.result.is_ok());
    assert_eq!(
        out.actions,
        vec![
            "upsert Project",
            "clone ssh://git@github.com/alice/proj.git Project.git",
            "remote new_origin ssh://git@codeberg.org/bob/proj.git",
            "connect new_origin",
            "list",
            "push new_origin +refs/heads/main:refs/heads/main",
            "push new_origin +refs/tags/v1:refs/tags/v1",
            "remove Project.git",
            "stop",
        ]
    );
    assert_eq!(
        stages(&out.events),
        vec![
            "Created",
            "Cloning",
            "Cloned",
            "RemoteAdded",
            "Pushing refs/heads/main",
            "Pushed refs/heads/main",
            "Pushing refs/tags/v1",
            "Pushed refs/tags/v1",
            "Done",
        ]
    );
    for e in &out.events {
        assert_eq!(e.repository, "Project");
    }
}

#[test]
fn progress_messages_read_as_lines() {
    let out = run(vec!["refs/heads/main"], vec![]);
    let messages: Vec<&str> = out.events.iter().map(|e| e.message.as_str()).collect();
    assert_eq!(
        messages,
        vec![
            "Creating repo to destination done",
            "Cloning from 'ssh://git@github.com/alice/proj.git'...",
            "Cloning from 'ssh://git@github.com/alice/proj.git' done",
            "Adding remote new_origin to ssh://git@codeberg.org/bob/proj.git",
            "Pushing 'refs/heads/main'...",
            "Pushing 'refs/heads/main' done",
            "Successfully synced",
        ]
    );
}

#[test]
fn failed_reference_does_not_stop_the_others() {
    let refs = vec!["r1", "r2", "r3", "r4", "r5"];
    let out = run(refs, vec!["push new_origin +r3:r3"]);
    let pushes: Vec<&String> = out.actions.iter().filter(|a| a.starts_with("push")).collect();
    assert_eq!(
        pushes,
        vec![
            "push new_origin +r1:r1",
            "push new_origin +r2:r2",
            "push new_origin +r3:r3",
            "push new_origin +r4:r4",
            "push new_origin +r5:r5",
        ]
    );
    let names = stages(&out.events);
    assert_eq!(names.iter().filter(|s| s.starts_with("Pushed ")).count(), 4);
    assert_eq!(names.iter().filter(|s| s.starts_with("PushFailed ")).count(), 1);
    assert!(names.contains(&"PushFailed r3".to_string()));
    assert!(names.contains(&"Pushed r4".to_string()));
    assert!(names.contains(&"Pushed r5".to_string()));
    assert_eq!(names.last().unwrap(), "Failed");
    let e = out.result.unwrap_err();
    assert_eq!(e.to_text(), "push new_origin +r3:r3 failed");
    assert!(out.actions.contains(&"remove Project.git".to_string()));
    let last = out.events.last().unwrap();
    assert_eq!(last.message, "Error syncing push new_origin +r3:r3 failed");
    let failed = out.events.iter().find(|e| matches!(e.stage, Stage::PushFailed { .. })).unwrap();
    assert_eq!(failed.message, "Pushing 'r3' failed: push new_origin +r3:r3 failed");
}

#[test]
fn counts_follow_the_references() {
    let mut transfer = start();
    for _ in 0..4 {
        transfer = transfer.step(TransferEvent::Succeeded).0;
    }
    assert_eq!(transfer.phase(), TransferPhase::ListingRefs);
    transfer =
        transfer.step(TransferEvent::Listed(vec!["a".to_string(), "b".to_string(), "c".to_string()])).0;
    assert_eq!(transfer.phase(), TransferPhase::Pushing);
    transfer = transfer.step(TransferEvent::Failed(failure("first"))).0;
    transfer = transfer.step(TransferEvent::Succeeded).0;
    assert_eq!(transfer.phase(), TransferPhase::Pushing);
    transfer = transfer.step(TransferEvent::Failed(failure("second"))).0;
    assert_eq!(transfer.phase(), TransferPhase::CleaningUp);
    assert_eq!(transfer.pushed(), 1);
    assert_eq!(transfer.push_failures(), 2);
    assert_eq!(transfer.outcome().unwrap_err().to_text(), "first");
}

#[test]
fn failed_creation_ends_the_transfer_at_once() {
    let out = run(vec!["r1"], vec!["upsert"]);
    assert_eq!(out.actions, vec!["upsert Project", "stop"]);
    assert_eq!(stages(&out.events), vec!["Failed"]);
    assert_eq!(out.result.unwrap_err().to_text(), "upsert Project failed");
}

#[test]
fn failure_after_the_clone_started_removes_the_scratch_directory() {
    for step in ["clone", "remote", "connect", "list"] {
        let out = run(vec!["r1"], vec![step]);
        assert!(out.result.is_err(), "{}", step);
        let n = out.actions.len();
        assert_eq!(out.actions[n - 2], "remove Project.git", "{}", step);
        assert!(!out.actions.iter().any(|a| a.starts_with("push")), "{}", step);
        assert_eq!(stages(&out.events).last().unwrap(), "Failed");
    }
}

#[test]
fn failed_removal_fails_a_transfer_that_went_well() {
    let out = run(vec!["r1"], vec!["remove"]);
    assert_eq!(out.result.unwrap_err().to_text(), "remove Project.git failed");
    assert_eq!(stages(&out.events).last().unwrap(), "Failed");
}

#[test]
fn first_failure_is_the_outcome() {
    let out = run(vec!["r1", "r2"], vec!["push new_origin +r1:r1", "remove"]);
    assert_eq!(out.result.unwrap_err().to_text(), "push new_origin +r1:r1 failed");
}

#[test]
fn clone_without_references_is_removed_and_done() {
    let out = run(vec![], vec![]);
    assert!(out.result.is_ok());
    assert_eq!(stages(&out.events), vec!["Created", "Cloning", "Cloned", "RemoteAdded", "Done"]);
    assert!(out.actions.contains(&"remove Project.git".to_string()));
}

#[test]
fn events_out_of_turn_change_nothing() {
    let transfer = start();
    let (transfer, events) = transfer.step(TransferEvent::Listed(vec!["r".to_string()]));
    assert!(events.is_empty());
    assert_eq!(transfer.phase(), TransferPhase::Creating);
    let mut transfer = transfer;
    for _ in 0..4 {
        transfer = transfer.step(TransferEvent::Succeeded).0;
    }
    let (transfer, events) = transfer.step(TransferEvent::Succeeded);
    assert!(events.is_empty());
    assert_eq!(transfer.phase(), TransferPhase::ListingRefs);
    let (transfer, _) = transfer.step(TransferEvent::Listed(Vec::new()));
    let (transfer, _) = transfer.step(TransferEvent::Succeeded);
    assert!(transfer.is_finished());
    let (transfer, events) = transfer.step(TransferEvent::Failed(failure("late")));
    assert!(events.is_empty());
    assert!(transfer.outcome().is_ok());
}
