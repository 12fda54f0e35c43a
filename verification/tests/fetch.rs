use git_mover::fetch::{FetchAction, Fetcher, PageProgress, PAGE_SIZE};
use git_mover::Repo;

fn page(first: usize, count: usize) -> Vec<Repo> {
    (first..first + count)
        .map(|i| Repo {
            name: format!("repo-{}", i),
            path: format!("repo-{}", i),
            description: String::new(),
            private: false,
            fork: false,
        })
        .collect()
}

fn enumerate(pages: Vec<Vec<Repo>>) -> (Vec<Repo>, Vec<usize>, Vec<PageProgress>) {
    let mut fetcher = Fetcher::new();
    let mut asked = Vec::new();
    let mut progress = Vec::new();
    let mut pages = pages.into_iter();
    loop {
        match fetcher.pending() {
            FetchAction::Request { page, per_page } => {
                assert_eq!(per_page, PAGE_SIZE);
                asked.push(page);
                let answer = pages.next().unwrap_or_default();
                assert!(fetcher.next_page() < usize::MAX);
                if let Some(p) = fetcher.accept(answer) {
                    progress.push(p);
                }
            }
            FetchAction::Finished => break,
        }
    }
    (fetcher.into_inventory(), asked, progress)
}

#[test]
fn three_pages_give_the_whole_inventory() {
    let (inventory, asked, progress) =
        enumerate(vec![page(0, 100), page(100, 100), page(200, 37), Vec::new()]);
    assert_eq!(inventory.len(), 237);
    for (i, r) in inventory.iter().enumerate() {
        assert_eq!(r.name, format!("repo-{}", i));
    }
    // Three requests bring records; the enumeration ends on the empty page
    // that the fourth brings.
    assert_eq!(asked, vec![1, 2, 3, 4]);
    let with_records: Vec<&PageProgress> = progress.iter().filter(|p| p.count > 0).collect();
    assert_eq!(with_records.len(), 3);
    assert_eq!(
        progress,
        vec![
            PageProgress { page: 1, count: 100 },
            PageProgress { page: 2, count: 100 },
            PageProgress { page: 3, count: 37 },
            PageProgress { page: 4, count: 0 },
        ]
    );
}

#[test]
fn empty_first_page_gives_an_empty_inventory() {
    let (inventory, asked, progress) = enumerate(vec![Vec::new()]);
    assert!(inventory.is_empty());
    assert_eq!(asked, vec![1]);
    assert_eq!(progress, vec![PageProgress { page: 1, count: 0 }]);
}

#[test]
fn short_page_does_not_end_the_enumeration() {
    let (inventory, asked, _) = enumerate(vec![page(0, 3), page(3, 100), page(103, 1), Vec::new()]);
    assert_eq!(inventory.len(), 104);
    assert_eq!(asked, vec![1, 2, 3, 4]);
}

#[test]
fn pages_after_the_end_are_ignored() {
    let mut fetcher = Fetcher::new();
    assert_eq!(fetcher.pending(), FetchAction::Request { page: 1, per_page: 100 });
    assert!(fetcher.accept(page(0, 2)).is_some());
    assert!(!fetcher.is_finished());
    assert_eq!(fetcher.next_page(), 2);
    assert!(fetcher.accept(Vec::new()).is_some());
    assert!(fetcher.is_finished());
    assert_eq!(fetcher.pending(), FetchAction::Finished);
    assert_eq!(fetcher.accept(page(2, 5)), None);
    assert_eq!(fetcher.next_page(), 2);
    assert_eq!(fetcher.into_inventory().len(), 2);
}

#[test]
fn page_size_is_one_hundred() {
    assert_eq!(PAGE_SIZE, 100);
}
