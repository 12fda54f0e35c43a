use git_mover::diff::{
    copy_inventory, diff_inventories, is_listed, select_by_fork, select_by_privacy, select_missing,
};
use git_mover::sync::Batch;
use git_mover::Repo;

fn repo(name: &str, private: bool, fork: bool) -> Repo {
    Repo {
        name: name.to_string(),
        path: name.to_string(),
        description: String::new(),
        private,
        fork,
    }
}

fn names(repos: &Vec<Repo>) -> Vec<String> {
    repos.iter().map(|r| r.name.clone()).collect()
}

#[test]
fn end_to_end_plan() {
    let source = vec![repo("A", false, false), repo("B", false, true), repo("C", true, false)];
    let destination = vec![repo("D", false, false)];
    let plan = diff_inventories(&source, &destination, false);
    assert_eq!(names(&plan.forks), vec!["B"]);
    assert_eq!(names(&plan.to_delete), vec!["D"]);
    // A and C both need to be created; C is private and is held back for
    // the operator's consent, so that A alone is transferred unasked.
    assert_eq!(names(&plan.to_sync), vec!["A", "C"]);
    assert_eq!(names(&plan.unattended()), vec!["A"]);
    assert_eq!(names(&plan.held_for_consent()), vec!["C"]);
    let (batch, actions) = Batch::new(&plan.to_sync, false).step(git_mover::sync::BatchEvent::Begin);
    let mut started = Vec::new();
    let mut asked = Vec::new();
    for action in &actions {
        match action {
            git_mover::sync::BatchAction::Start { job, .. } => started.push(job.repo.name.clone()),
            git_mover::sync::BatchAction::Ask { job, .. } => asked.push(job.repo.name.clone()),
            _ => {}
        }
    }
    assert_eq!(started, vec!["A"]);
    assert_eq!(asked, vec!["C"]);
    assert!(!batch.is_completed());
}

#[test]
fn nothing_is_transferred_and_removed_at_once() {
    let source = vec![
        repo("a", false, false),
        repo("b", false, false),
        repo("c", false, true),
        repo("d", true, false),
    ];
    let destination = vec![
        repo("b", false, false),
        repo("c", false, true),
        repo("d", false, false),
        repo("e", false, false),
    ];
    for resync in [false, true] {
        let plan = diff_inventories(&source, &destination, resync);
        for s in &plan.to_sync {
            for d in &plan.to_delete {
                assert_ne!(s, d);
            }
        }
    }
}

#[test]
fn to_delete_is_what_no_non_fork_source_repository_denotes() {
    let source = vec![repo("a", false, false), repo("b", false, false), repo("c", false, true)];
    let destination = vec![
        repo("z", false, false),
        repo("b", false, false),
        repo("c", false, true),
        repo("y", false, false),
    ];
    let plan = diff_inventories(&source, &destination, false);
    // "c" is a fork at the source, so the source's non-forks do not list it.
    assert_eq!(names(&plan.to_delete), vec!["z", "c", "y"]);
    assert_eq!(names(&plan.to_sync), vec!["a"]);
    assert_eq!(names(&plan.forks), vec!["c"]);
}

#[test]
fn resync_takes_every_non_fork_whatever_the_destination_holds() {
    let source = vec![repo("a", false, false), repo("b", false, true), repo("c", true, false)];
    let empty: Vec<Repo> = Vec::new();
    let same = vec![repo("a", false, false), repo("c", true, false)];
    let other = vec![repo("x", false, false)];
    for destination in [&empty, &same, &other] {
        let plan = diff_inventories(&source, destination, true);
        assert_eq!(names(&plan.to_sync), vec!["a", "c"]);
    }
    let plan = diff_inventories(&source, &same, false);
    assert!(plan.to_sync.is_empty());
    assert!(plan.to_delete.is_empty());
}

#[test]
fn changed_description_is_both_created_and_removed() {
    let mut changed = repo("a", false, false);
    changed.description = "new".to_string();
    let source = vec![changed];
    let destination = vec![repo("a", false, false)];
    let plan = diff_inventories(&source, &destination, false);
    assert_eq!(names(&plan.to_sync), vec!["a"]);
    assert_eq!(plan.to_sync[0].description, "new");
    assert_eq!(names(&plan.to_delete), vec!["a"]);
    assert_eq!(plan.to_delete[0].description, "");
}

#[test]
fn order_is_kept_within_each_part() {
    let source = vec![
        repo("5", false, false),
        repo("f2", false, true),
        repo("3", false, false),
        repo("f1", false, true),
        repo("9", false, false),
        repo("1", false, false),
    ];
    let destination = vec![repo("q", false, false), repo("3", false, false), repo("p", false, false)];
    let plan = diff_inventories(&source, &destination, false);
    assert_eq!(names(&plan.to_sync), vec!["5", "9", "1"]);
    assert_eq!(names(&plan.forks), vec!["f2", "f1"]);
    assert_eq!(names(&plan.to_delete), vec!["q", "p"]);
}

#[test]
fn empty_inventories_give_an_empty_plan() {
    let empty: Vec<Repo> = Vec::new();
    for resync in [false, true] {
        let plan = diff_inventories(&empty, &empty, resync);
        assert!(plan.to_sync.is_empty());
        assert!(plan.forks.is_empty());
        assert!(plan.to_delete.is_empty());
    }
}

#[test]
fn duplicates_are_kept() {
    let source = vec![repo("a", false, false), repo("a", false, false)];
    let destination = vec![repo("b", false, false), repo("b", false, false)];
    let plan = diff_inventories(&source, &destination, false);
    assert_eq!(names(&plan.to_sync), vec!["a", "a"]);
    assert_eq!(names(&plan.to_delete), vec!["b", "b"]);
}

#[test]
fn listing_goes_by_identity() {
    let inventory = vec![repo("a", false, false), repo("b", true, false)];
    assert!(is_listed(&inventory, &repo("a", false, false)));
    assert!(is_listed(&inventory, &repo("b", true, false)));
    assert!(!is_listed(&inventory, &repo("b", false, false)));
    assert!(!is_listed(&inventory, &repo("c", false, false)));
    assert!(!is_listed(&Vec::new(), &repo("a", false, false)));
}

#[test]
fn selections_split_the_inventory() {
    let source = vec![repo("a", false, false), repo("b", false, true), repo("c", false, false)];
    assert_eq!(names(&select_by_fork(&source, false)), vec!["a", "c"]);
    assert_eq!(names(&select_by_fork(&source, true)), vec!["b"]);
    let other = vec![repo("c", false, false)];
    assert_eq!(names(&select_missing(&source, &other)), vec!["a", "b"]);
    assert_eq!(names(&copy_inventory(&source)), vec!["a", "b", "c"]);
    let mixed = vec![repo("p", true, false), repo("q", false, false), repo("r", true, true)];
    assert_eq!(names(&select_by_privacy(&mixed, true)), vec!["p", "r"]);
    assert_eq!(names(&select_by_privacy(&mixed, false)), vec!["q"]);
}
