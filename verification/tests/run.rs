use git_mover::codeberg::CodebergPlatform;
use git_mover::github::GithubPlatform;
use git_mover::run::{Run, RunAction, RunEvent, RunPhase, RunReport};
use git_mover::sync::{Batch, BatchAction, BatchEvent, Lane};
use git_mover::{GitMoverCli, GitMoverError, Repo};

fn repo(name: &str, private: bool, fork: bool) -> Repo {
    Repo {
        name: name.to_string(),
        path: name.to_string(),
        description: String::new(),
        private,
        fork,
    }
}

fn new_run(cli: &GitMoverCli) -> Run {
    let source = GithubPlatform::new("alice".to_string(), "t".to_string());
    let destination = CodebergPlatform::new("alice".to_string(), "t".to_string());
    Run::new(cli, &source, &destination)
}

struct World {
    source: Result<Vec<Repo>, GitMoverError>,
    destination: Result<Vec<Repo>, GitMoverError>,
    probe_source: Result<(), GitMoverError>,
    probe_destination: Result<(), GitMoverError>,
    answers: Vec<bool>,
    failing: Vec<&'static str>,
    create_workspace: Result<(), GitMoverError>,
    remove_workspace: Result<(), GitMoverError>,
    workspace_exists: bool,
    log: Vec<String>,
    reports: Vec<RunReport>,
}

fn world(source: Vec<Repo>, destination: Vec<Repo>, answers: Vec<bool>) -> World {
    World {
        source: Ok(source),
        destination: Ok(destination),
        probe_source: Ok(()),
        probe_destination: Ok(()),
        answers,
        failing: Vec::new(),
        create_workspace: Ok(()),
        remove_workspace: Ok(()),
        workspace_exists: false,
        log: Vec::new(),
        reports: Vec::new(),
    }
}

fn run_batch(w: &mut World, repos: Vec<Repo>, manual: bool) {
    let (mut batch, mut todo) = Batch::new(&repos, manual).step(BatchEvent::Begin);
    let mut running: Vec<(Lane, bool)> = Vec::new();
    let mut guard = 0;
    loop {
        guard += 1;
        assert!(guard < 1000);
        let mut events = Vec::new();
        for action in todo.drain(..) {
            match action {
                BatchAction::Start { job, lane } => {
                    assert!(w.workspace_exists, "transfer without a workspace");
                    w.log.push(format!("transfer {}", job.repo.name));
                    running.push((lane, !w.failing.contains(&job.repo.name.as_str())));
                }
                BatchAction::Ask { job, .. } => {
                    w.log.push(format!("ask about {}", job.repo.name));
                    events.push(BatchEvent::Answer(w.answers.remove(0)));
                }
                BatchAction::Skip { job } => w.log.push(format!("skip {}", job.repo.name)),
                BatchAction::Complete { succeeded, failed, skipped } => {
                    w.log.push(format!("batch done {} {} {}", succeeded, failed, skipped));
                    assert!(running.is_empty());
                    assert!(batch.is_completed());
                    return;
                }
            }
        }
        if events.is_empty() {
            let (lane, succeeded) = running.pop().expect("a transfer is under way");
            assert!(w.workspace_exists, "workspace removed under a transfer");
            events.push(BatchEvent::Finished { lane, succeeded });
        }
        for event in events {
            let next = batch.step(event);
            batch = next.0;
            todo.extend(next.1);
        }
    }
}

fn drive(cli: &GitMoverCli, w: &mut World) -> Result<(), GitMoverError> {
    let mut run = new_run(cli);
    let mut guard = 0;
    loop {
        guard += 1;
        assert!(guard < 100);
        let event = match run.pending() {
            RunAction::ProbeAccess => RunEvent::Probed {
                source: w.probe_source.clone(),
                destination: w.probe_destination.clone(),
            },
            RunAction::Enumerate => RunEvent::Enumerated {
                source_repos: w.source.clone(),
                destination_repos: w.destination.clone(),
            },
            RunAction::Ask(question) => {
                w.log.push(format!("ask {}", question));
                RunEvent::Answer(w.answers.remove(0))
            }
            RunAction::CreateWorkspace => {
                assert!(!w.workspace_exists);
                w.log.push("create workspace".to_string());
                if w.create_workspace.is_ok() {
                    w.workspace_exists = true;
                }
                RunEvent::WorkspaceCreated(w.create_workspace.clone())
            }
            RunAction::RunBatch { repos, manual } => {
                assert!(run.has_workspace());
                run_batch(w, repos, manual);
                RunEvent::BatchFinished
            }
            RunAction::RunDeletion { repos } => {
                w.log.push(format!("deletion of {}", repos.len()));
                RunEvent::DeletionFinished
            }
            RunAction::RemoveWorkspace => {
                assert!(w.workspace_exists);
                w.log.push("remove workspace".to_string());
                if w.remove_workspace.is_ok() {
                    w.workspace_exists = false;
                }
                RunEvent::WorkspaceRemoved(w.remove_workspace.clone())
            }
            RunAction::Stop(outcome) => return outcome,
        };
        let next = run.step(event);
        run = next.0;
        w.reports.extend(next.1);
    }
}

fn source() -> Vec<Repo> {
    vec![
        repo("A", false, false),
        repo("B", false, true),
        repo("C", true, false),
        repo("E", false, false),
    ]
}

#[test]
fn workspace_outlives_every_transfer_and_is_gone_at_the_end() {
    let cli = GitMoverCli::default();
    // start syncing: yes; private C: yes; forks: yes; delete: yes
    let mut w = world(source(), vec![repo("D", false, false)], vec![true, true, true, true]);
    w.failing = vec!["A", "B"];
    let outcome = drive(&cli, &mut w);
    assert!(outcome.is_ok());
    assert!(!w.workspace_exists);
    assert_eq!(
        w.log,
        vec![
            "ask Do you want to start syncing ? (y/n)",
            "create workspace",
            "transfer A",
            "transfer E",
            "ask about C",
            "transfer C",
            "batch done 2 1 0",
            "ask Do you want to sync forks (1)? (y/n)",
            "transfer B",
            "batch done 0 1 0",
            "ask Do you want to delete the missing (1) repos (manually)? (y/n)",
            "deletion of 1",
            "remove workspace",
        ]
    );
    assert_eq!(
        w.reports,
        vec![
            RunReport::Summary {
                source_total: 4,
                forks: 1,
                non_forks: 3,
                destination_total: 1,
                to_sync: 3,
                to_delete: 1,
            },
            RunReport::AllReposSynced,
            RunReport::AllForksSynced,
            RunReport::AllReposDeleted,
        ]
    );
}

#[test]
fn declined_stages_create_no_workspace() {
    let cli = GitMoverCli::default();
    let mut w = world(source(), vec![repo("D", false, false)], vec![false, false, false]);
    assert!(drive(&cli, &mut w).is_ok());
    assert_eq!(
        w.log,
        vec![
            "ask Do you want to start syncing ? (y/n)",
            "ask Do you want to sync forks (1)? (y/n)",
            "ask Do you want to delete the missing (1) repos (manually)? (y/n)",
        ]
    );
    assert!(!w.workspace_exists);
}

#[test]
fn forks_alone_get_a_workspace() {
    let cli = GitMoverCli::default();
    let mut w = world(source(), Vec::new(), vec![false, true]);
    assert!(drive(&cli, &mut w).is_ok());
    assert_eq!(
        w.log,
        vec![
            "ask Do you want to start syncing ? (y/n)",
            "ask Do you want to sync forks (1)? (y/n)",
            "create workspace",
            "transfer B",
            "batch done 1 0 0",
            "remove workspace",
        ]
    );
    assert_eq!(w.reports.last(), Some(&RunReport::NothingToDelete));
    assert!(!w.workspace_exists);
}

#[test]
fn switches_skip_forks_and_removals() {
    let mut cli = GitMoverCli::default();
    cli.no_forks = true;
    cli.no_delete = true;
    let mut w = world(source(), vec![repo("D", false, false)], vec![false]);
    assert!(drive(&cli, &mut w).is_ok());
    assert_eq!(w.log, vec!["ask Do you want to start syncing ? (y/n)"]);
    assert_eq!(
        w.reports[1..].to_vec(),
        vec![RunReport::NotSyncingForks, RunReport::NotPromptingForDeletion]
    );
}

#[test]
fn nothing_to_do_asks_nothing() {
    let cli = GitMoverCli::default();
    let same = vec![repo("A", false, false)];
    let mut w = world(same.clone(), same, Vec::new());
    assert!(drive(&cli, &mut w).is_ok());
    assert!(w.log.is_empty());
    assert_eq!(
        w.reports,
        vec![
            RunReport::Summary {
                source_total: 1,
                forks: 0,
                non_forks: 1,
                destination_total: 1,
                to_sync: 0,
                to_delete: 0,
            },
            RunReport::NoForksFound,
            RunReport::NothingToDelete,
        ]
    );
}

#[test]
fn resync_transfers_what_the_destination_has() {
    let mut cli = GitMoverCli::default();
    cli.resync = true;
    let same = vec![repo("A", false, false)];
    let mut w = world(same.clone(), same, vec![true]);
    assert!(drive(&cli, &mut w).is_ok());
    assert!(w.log.contains(&"transfer A".to_string()));
}

#[test]
fn manual_mode_is_handed_to_the_batch() {
    let mut cli = GitMoverCli::default();
    cli.manual = true;
    let mut w = world(vec![repo("A", false, false)], Vec::new(), vec![true, false]);
    assert!(drive(&cli, &mut w).is_ok());
    assert_eq!(
        w.log,
        vec![
            "ask Do you want to start syncing ? (y/n)",
            "create workspace",
            "ask about A",
            "skip A",
            "batch done 0 0 1",
            "remove workspace",
        ]
    );
}

#[test]
fn failed_probe_aborts_before_anything_else() {
    let cli = GitMoverCli::default();
    let mut w = world(source(), Vec::new(), Vec::new());
    w.probe_destination = Err(GitMoverError::new("no access".to_string()));
    let e = drive(&cli, &mut w).unwrap_err();
    assert_eq!(e.to_text(), "no access");
    assert!(w.log.is_empty());
    assert!(w.reports.is_empty());
    let mut w = world(source(), Vec::new(), Vec::new());
    w.probe_source = Err(GitMoverError::new("source".to_string()));
    w.probe_destination = Err(GitMoverError::new("destination".to_string()));
    assert_eq!(drive(&cli, &mut w).unwrap_err().to_text(), "source");
}

#[test]
fn failed_enumeration_aborts_with_the_side_named() {
    let cli = GitMoverCli::default();
    let mut w = world(source(), Vec::new(), Vec::new());
    w.source = Err(GitMoverError::new("timeout".to_string()));
    assert_eq!(
        drive(&cli, &mut w).unwrap_err().to_text(),
        "Error getting repositories for source: timeout"
    );
    let mut w = world(source(), Vec::new(), Vec::new());
    w.destination = Err(GitMoverError::new_with_source("listing", "timeout"));
    assert_eq!(
        drive(&cli, &mut w).unwrap_err().to_text(),
        "Error getting repositories for destination: listing - timeout"
    );
    assert!(w.log.is_empty());
}

#[test]
fn workspace_that_cannot_be_made_aborts() {
    let cli = GitMoverCli::default();
    let mut w = world(source(), Vec::new(), vec![true]);
    w.create_workspace = Err(GitMoverError::new("disk full".to_string()));
    assert_eq!(drive(&cli, &mut w).unwrap_err().to_text(), "disk full");
    assert_eq!(w.log, vec!["ask Do you want to start syncing ? (y/n)", "create workspace"]);
}

#[test]
fn workspace_that_cannot_be_removed_aborts() {
    let cli = GitMoverCli::default();
    let mut w = world(vec![repo("A", false, false)], Vec::new(), vec![true]);
    w.remove_workspace = Err(GitMoverError::new("busy".to_string()));
    assert_eq!(drive(&cli, &mut w).unwrap_err().to_text(), "busy");
    assert_eq!(w.log.last().unwrap(), "remove workspace");
}

#[test]
fn same_host_on_both_sides_is_refused() {
    let cli = GitMoverCli::default();
    let source = GithubPlatform::new("alice".to_string(), "t".to_string());
    let destination = GithubPlatform::new("bob".to_string(), "t".to_string());
    let run = Run::new(&cli, &source, &destination);
    assert_eq!(run.phase(), RunPhase::Aborted);
    match run.pending() {
        RunAction::Stop(Err(e)) => {
            assert_eq!(e.to_text(), "Source and destination can't be the same")
        }
        _ => panic!("the run should have stopped"),
    }
}

#[test]
fn run_ignores_what_it_did_not_ask_for() {
    let cli = GitMoverCli::default();
    let run = new_run(&cli);
    assert_eq!(run.phase(), RunPhase::Probing);
    let (run, reports) = run.step(RunEvent::Answer(true));
    assert!(reports.is_empty());
    let (run, _) = run.step(RunEvent::BatchFinished);
    let (run, _) = run.step(RunEvent::WorkspaceRemoved(Ok(())));
    assert_eq!(run.phase(), RunPhase::Probing);
    assert!(run.plan().to_sync.is_empty());
    let (run, _) = run.step(RunEvent::Probed { source: Ok(()), destination: Ok(()) });
    assert_eq!(run.phase(), RunPhase::Enumerating);
    let (run, _) = run.step(RunEvent::Enumerated {
        source_repos: Ok(vec![repo("A", false, false)]),
        destination_repos: Ok(Vec::new()),
    });
    assert_eq!(run.phase(), RunPhase::SyncGate);
    assert_eq!(run.plan().to_sync.len(), 1);
    let (run, _) = run.step(RunEvent::DeletionFinished);
    assert_eq!(run.phase(), RunPhase::SyncGate);
    assert!(!run.has_workspace());
}
