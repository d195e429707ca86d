use twiggy::error::TwiggyError;
use twiggy::git::repository::{BranchState, GitRepository, RepositoryHealth, RepositoryType};

fn commit_on_head(repo: &git2::Repository, message: &str, author: &str, time: i64) -> git2::Oid {
    let email = format!("{}@example.com", author.to_lowercase());
    let who = git2::Signature::new(author, &email, &git2::Time::new(time, 0)).unwrap();
    let tree_id = repo.index().unwrap().write_tree().unwrap();
    let tree = repo.find_tree(tree_id).unwrap();
    let parents: Vec<git2::Commit> = match repo.head() {
        Ok(head) => vec![head.peel_to_commit().unwrap()],
        Err(_) => Vec::new(),
    };
    let parent_refs: Vec<&git2::Commit> = parents.iter().collect();
    repo.commit(Some("HEAD"), &who, &who, message, &tree, &parent_refs).unwrap()
}

fn linear_store(dir: &std::path::Path, commits: usize) -> Vec<git2::Oid> {
    let repo = git2::Repository::init(dir).unwrap();
    let mut ids = Vec::new();
    for i in 0..commits {
        let message = format!("feat: implement feature {}\n\nDetails of step {}", i + 1, i + 1);
        let author = format!("Developer{}", (i % 5) + 1);
        ids.push(commit_on_head(&repo, &message, &author, 1_695_000_000 + (i as i64) * 3600));
    }
    ids
}

fn open_at(dir: &std::path::Path) -> GitRepository {
    GitRepository::open(dir.to_str().unwrap()).expect("Failed to open test repository")
}

#[test]
fn test_commit_loading_basic() {
    let temp_dir = tempfile::tempdir().expect("Failed to create temp directory");
    linear_store(temp_dir.path(), 12);
    let mut repo = open_at(temp_dir.path());

    let result = repo.load_commits(Some(10));
    assert!(result.is_ok(), "Failed to load commits: {:?}", result.err());

    let commits = repo.get_commits();
    assert!(!commits.is_empty(), "No commits were loaded");
    assert!(commits.len() <= 10, "Loaded more commits than requested");
    assert_eq!(commits.len(), 10);
}

#[test]
fn test_commit_caching() {
    let temp_dir = tempfile::tempdir().expect("Failed to create temp directory");
    linear_store(temp_dir.path(), 8);
    let mut repo = open_at(temp_dir.path());

    repo.load_commits(Some(5)).expect("Failed to load commits");
    let initial_cache_size = repo.cache_size();
    let first: Vec<String> = repo.get_commits().iter().map(|c| c.id.as_str()).collect();

    assert!(initial_cache_size > 0, "Cache should contain commits after loading");
    assert_eq!(initial_cache_size, 5);

    repo.load_commits(Some(5)).expect("Failed to reload commits");
    let final_cache_size = repo.cache_size();
    let second: Vec<String> = repo.get_commits().iter().map(|c| c.id.as_str()).collect();

    assert_eq!(initial_cache_size, final_cache_size, "Cache size should remain stable on reload");
    assert_eq!(first, second);
}

#[test]
fn test_commit_data_integrity() {
    let temp_dir = tempfile::tempdir().expect("Failed to create temp directory");
    linear_store(temp_dir.path(), 4);
    let mut repo = open_at(temp_dir.path());

    repo.load_commits(Some(3)).expect("Failed to load commits");
    let commits = repo.get_commits();
    assert_eq!(commits.len(), 3);

    for commit in commits {
        assert!(!commit.id.as_str().is_empty(), "Commit ID should not be empty");
        assert!(!commit.author.name.is_empty(), "Author name should not be empty");
        assert!(!commit.tree_id.is_empty(), "Tree ID should not be empty");
        assert_eq!(commit.id.as_str().len(), 40);
        assert_eq!(commit.tree_id.len(), 40);
    }
}

#[test]
fn test_commit_search_functionality() {
    let temp_dir = tempfile::tempdir().expect("Failed to create temp directory");
    linear_store(temp_dir.path(), 6);
    let mut repo = open_at(temp_dir.path());

    repo.load_commits(Some(50)).expect("Failed to load commits");

    let all_commits = repo.get_commits();
    assert!(!all_commits.is_empty());

    let first_commit = &all_commits[0];
    let search_term = first_commit.author.name[..3].to_string();

    let search_results = repo.search_commits(&search_term);
    assert!(!search_results.is_empty(), "Search should find at least one commit");
}

#[test]
fn test_performance_large_load() {
    let temp_dir = tempfile::tempdir().expect("Failed to create temp directory");
    linear_store(temp_dir.path(), 40);
    let mut repo = open_at(temp_dir.path());

    let start_time = std::time::Instant::now();
    let result = repo.load_commits(Some(1000));
    let elapsed = start_time.elapsed();

    assert!(result.is_ok(), "Failed to load large number of commits");
    assert_eq!(repo.get_commits().len(), 40);
    assert!(elapsed.as_secs() < 10, "Loading should complete within 10 seconds");
}

#[test]
fn test_empty_repository_handling() {
    let temp_dir = tempfile::tempdir().expect("Failed to create temp directory");
    let repo_path = temp_dir.path();

    git2::Repository::init(repo_path).expect("Failed to initialize empty repository");

    let mut repo = GitRepository::open(repo_path.to_str().unwrap())
        .expect("Failed to open empty repository");

    let result = repo.load_commits(Some(10));
    assert!(result.is_ok(), "Loading commits from empty repository should not fail");

    let commits = repo.get_commits();
    assert!(commits.is_empty(), "Empty repository should have no commits");
}

#[test]
fn empty_store_is_empty_healthy_and_unborn() {
    let temp_dir = tempfile::tempdir().unwrap();
    git2::Repository::init(temp_dir.path()).unwrap();
    let mut repo = open_at(temp_dir.path());

    assert!(repo.is_empty().unwrap());
    assert_eq!(repo.commit_count(), 0);
    assert_eq!(repo.total_commit_count().unwrap(), 0);
    for bound in [None, Some(0), Some(1), Some(5000)] {
        assert!(repo.load_commits(bound).is_ok());
        assert_eq!(repo.get_commits().len(), 0);
    }
    assert_eq!(repo.load_commits_lazy(0, 10).unwrap().len(), 0);
    assert_eq!(repo.validate().unwrap(), RepositoryHealth::Healthy);

    let info = repo.get_branch_info().unwrap();
    assert_eq!(info.state, BranchState::Unborn);
    assert_eq!(info.name, "main");
    assert_eq!(info.upstream, None);
    assert_eq!((info.ahead, info.behind), (0, 0));
    assert_eq!(repo.current_branch(), Some("main"));
    assert!(!repo.is_detached());

    repo.set_default_branch("trunk");
    repo.refresh_branch_info().unwrap();
    assert_eq!(repo.current_branch(), Some("trunk"));
    assert_eq!(repo.get_branch_info().unwrap().name, "trunk");
}

#[test]
fn three_linear_commits_load_newest_first() {
    let temp_dir = tempfile::tempdir().unwrap();
    let ids = linear_store(temp_dir.path(), 3);
    let (a, b, c) = (ids[0].to_string(), ids[1].to_string(), ids[2].to_string());
    let mut repo = open_at(temp_dir.path());

    repo.load_commits(Some(2)).unwrap();
    let loaded: Vec<String> = repo.get_commits().iter().map(|x| x.id.as_str()).collect();
    assert_eq!(loaded, vec![c.clone(), b.clone()]);
    assert_eq!(repo.commit_count(), 2);
    assert_eq!(repo.cache_size(), 2);

    let range = repo.load_commits_range(&a, &c, None).unwrap();
    let ranged: Vec<String> = range.iter().map(|x| x.id.as_str()).collect();
    assert_eq!(ranged, vec![c.clone(), b.clone()]);
    assert!(!ranged.contains(&a));
    assert_eq!(repo.commit_count(), 2);

    repo.load_commits(None).unwrap();
    let names: Vec<String> = repo.get_commits().iter().map(|x| x.author.name.clone()).collect();
    assert_eq!(names, vec!["Developer3", "Developer2", "Developer1"]);
    assert_eq!(repo.search_commits("DEVELOPER1").len(), 1);
    assert_eq!(repo.search_commits("developer1")[0].id.as_str(), a);
    assert_eq!(repo.search_commits("Feature 2")[0].id.as_str(), b);
    assert_eq!(repo.search_commits("developer3@example").len(), 1);
    assert_eq!(repo.search_commits(&c[..9])[0].id.as_str(), c);
    assert_eq!(repo.search_commits(&c[1..9]).len(), 0);
    assert_eq!(repo.search_commits("").len(), 3);
    assert_eq!(repo.search_commits("no such text").len(), 0);
    assert_eq!(repo.total_commit_count().unwrap(), 3);
}

#[test]
fn parents_never_precede_their_children() {
    let temp_dir = tempfile::tempdir().unwrap();
    linear_store(temp_dir.path(), 7);
    let mut repo = open_at(temp_dir.path());
    repo.load_commits(None).unwrap();
    let commits = repo.get_commits();
    assert_eq!(commits.len(), 7);
    for (position, commit) in commits.iter().enumerate() {
        for parent in &commit.parents {
            let at = commits.iter().position(|other| other.id == *parent).unwrap();
            assert!(at >= position);
        }
    }
    assert!(commits[6].is_root());
    assert!(!commits[0].is_root());
    assert!(!commits[0].is_merge());
    assert_eq!(commits[0].parents, vec![commits[1].id]);
}

#[test]
fn loaded_commits_carry_what_the_store_holds() {
    let temp_dir = tempfile::tempdir().unwrap();
    let ids = linear_store(temp_dir.path(), 2);
    let mut repo = open_at(temp_dir.path());
    repo.load_commits(None).unwrap();
    let head = &repo.get_commits()[0];
    assert_eq!(head.id.as_str(), ids[1].to_string());
    assert_eq!(head.id.short(), ids[1].to_string()[..7].to_string());
    assert_eq!(head.message, "feat: implement feature 2\n\nDetails of step 2");
    assert_eq!(head.summary, "feat: implement feature 2");
    assert_eq!(head.author.name, "Developer2");
    assert_eq!(head.author.email, "developer2@example.com");
    assert_eq!(head.author.time, 1_695_003_600);
    assert_eq!(head.committer.name, "Developer2");
    assert_eq!(head.committer.time, 1_695_003_600);
    let store = git2::Repository::open(temp_dir.path()).unwrap();
    assert_eq!(head.tree_id, store.find_commit(ids[1]).unwrap().tree_id().to_string());
}

#[test]
fn paging_serves_from_the_view_and_then_from_the_store() {
    let temp_dir = tempfile::tempdir().unwrap();
    let ids = linear_store(temp_dir.path(), 6);
    let newest_first: Vec<String> = ids.iter().rev().map(|id| id.to_string()).collect();
    let mut repo = open_at(temp_dir.path());
    repo.load_commits(Some(3)).unwrap();

    let page: Vec<String> = repo.load_commits_lazy(1, 5).unwrap().iter().map(|c| c.id.as_str()).collect();
    assert_eq!(page, newest_first[1..3].to_vec());
    let page: Vec<String> = repo.load_commits_lazy(0, 2).unwrap().iter().map(|c| c.id.as_str()).collect();
    assert_eq!(page, newest_first[0..2].to_vec());
    let page: Vec<String> = repo.load_commits_lazy(2, usize::MAX).unwrap().iter().map(|c| c.id.as_str()).collect();
    assert_eq!(page, newest_first[2..3].to_vec());
    assert_eq!(repo.cache_size(), 3);

    let page: Vec<String> = repo.load_commits_lazy(3, 2).unwrap().iter().map(|c| c.id.as_str()).collect();
    assert_eq!(page, newest_first[3..5].to_vec());
    assert_eq!(repo.cache_size(), 5);
    assert_eq!(repo.commit_count(), 3);
    assert_eq!(repo.load_commits_lazy(10, 4).unwrap().len(), 0);
    assert_eq!(repo.load_commits_lazy(5, 0).unwrap().len(), 0);
}

#[test]
fn branch_loads_start_at_the_branch_tip() {
    let temp_dir = tempfile::tempdir().unwrap();
    let ids = linear_store(temp_dir.path(), 4);
    {
        let store = git2::Repository::open(temp_dir.path()).unwrap();
        let second = store.find_commit(ids[1]).unwrap();
        store.branch("older", &second, false).unwrap();
    }
    let mut repo = open_at(temp_dir.path());
    let older: Vec<String> = repo
        .load_commits_for_branch("older", None)
        .unwrap()
        .iter()
        .map(|c| c.id.as_str())
        .collect();
    assert_eq!(older, vec![ids[1].to_string(), ids[0].to_string()]);
    assert_eq!(repo.load_commits_for_branch("older", Some(1)).unwrap().len(), 1);
    assert_eq!(repo.commit_count(), 0);
    assert_eq!(repo.cache_size(), 2);
    assert!(matches!(
        repo.load_commits_for_branch("no-such-branch", None),
        Err(TwiggyError::BranchNotFound { .. })
    ));
    assert_eq!(repo.cache_size(), 2);
}

#[test]
fn range_loads_reject_bad_endpoints() {
    let temp_dir = tempfile::tempdir().unwrap();
    let ids = linear_store(temp_dir.path(), 3);
    let mut repo = open_at(temp_dir.path());
    let head = ids[2].to_string();
    assert!(matches!(
        repo.load_commits_range("not-hex", &head, None),
        Err(TwiggyError::InvalidIdentity { .. })
    ));
    assert!(matches!(
        repo.load_commits_range(&head, "", None),
        Err(TwiggyError::InvalidIdentity { .. })
    ));
    let absent = "1234567890123456789012345678901234567890";
    assert!(matches!(
        repo.load_commits_range(absent, &head, None),
        Err(TwiggyError::InvalidIdentity { .. })
    ));
    assert_eq!(repo.cache_size(), 0);
    let all = repo.load_commits_range(&ids[0].to_string(), &head, Some(1)).unwrap();
    assert_eq!(all.len(), 1);
    assert_eq!(all[0].id.as_str(), head);
    assert_eq!(repo.load_commits_range(&head, &head, None).unwrap().len(), 0);
}

#[test]
fn commits_are_found_by_hash_in_cache_and_store() {
    let temp_dir = tempfile::tempdir().unwrap();
    let ids = linear_store(temp_dir.path(), 3);
    let mut repo = open_at(temp_dir.path());
    repo.load_commits(Some(1)).unwrap();

    let cached = repo.find_commit_by_hash(&ids[2].to_string()).unwrap().unwrap();
    assert_eq!(cached.summary, "feat: implement feature 3");
    let stored = repo.find_commit_by_hash(&ids[0].to_string()).unwrap().unwrap();
    assert_eq!(stored.summary, "feat: implement feature 1");
    assert_eq!(repo.cache_size(), 1);
    assert!(repo.find_commit_by_hash("1234567890123456789012345678901234567890").unwrap().is_none());
    assert!(matches!(
        repo.find_commit_by_hash("zz"),
        Err(TwiggyError::InvalidIdentity { .. })
    ));

    let id = loaded_id(&repo);
    assert_eq!(repo.get_commit_by_id(&id).unwrap().summary, "feat: implement feature 3");
    assert!(repo.get_commit_by_id(&stored.id).is_none());

    repo.load_commits_for_branch("master", None).or_else(|_| repo.load_commits_for_branch("main", None)).unwrap();
    assert_eq!(repo.cache_size(), 3);
    repo.clear_commit_cache();
    assert_eq!(repo.cache_size(), 0);
    assert_eq!(repo.commit_count(), 0);
    assert!(repo.get_commits().is_empty());
    assert!(repo.get_commit_by_id(&id).is_none());
    repo.load_commits(Some(2)).unwrap();
    assert_eq!(repo.cache_size(), 2);
    assert_eq!(repo.commit_count(), 2);
}

fn loaded_id(repo: &GitRepository) -> twiggy::git::types::CommitId {
    repo.get_commits()[0].id
}

#[test]
fn detached_head_is_named_after_its_commit() {
    let temp_dir = tempfile::tempdir().unwrap();
    let ids = linear_store(temp_dir.path(), 2);
    {
        let store = git2::Repository::open(temp_dir.path()).unwrap();
        store.set_head_detached(ids[0]).unwrap();
    }
    let repo = open_at(temp_dir.path());
    let short = ids[0].to_string()[..7].to_string();
    assert!(repo.is_detached());
    assert_eq!(repo.current_branch(), Some(format!("HEAD detached at {}", short).as_str()));
    let info = repo.get_branch_info().unwrap();
    assert_eq!(info.state, BranchState::DetachedHead);
    assert!(info.name.contains(&short));
    assert_eq!(info.name, format!("HEAD detached at {}", short));
    assert_eq!(info.upstream, None);
    assert_eq!((info.ahead, info.behind), (0, 0));
}

#[test]
fn attached_branch_reports_its_name_and_no_divergence() {
    let temp_dir = tempfile::tempdir().unwrap();
    linear_store(temp_dir.path(), 2);
    let repo = open_at(temp_dir.path());
    let info = repo.get_branch_info().unwrap();
    assert_eq!(info.state, BranchState::Normal);
    assert_eq!(Some(info.name.as_str()), repo.current_branch());
    assert_eq!(info.upstream, None);
    assert_eq!((info.ahead, info.behind), (0, 0));
    assert!(!repo.is_detached());
    assert_eq!(*repo.repo_type(), RepositoryType::Normal);
    assert_eq!(repo.validate().unwrap(), RepositoryHealth::Healthy);
    assert!(!repo.is_empty().unwrap());
    assert_eq!(repo.path(), temp_dir.path().to_str().unwrap());
    assert!(repo.workdir().is_some());
    assert_eq!(
        repo.repository_name(),
        temp_dir.path().file_name().unwrap().to_str().unwrap()
    );
}

#[test]
fn tracking_branch_counts_ahead_and_behind() {
    let temp_dir = tempfile::tempdir().unwrap();
    let ids = linear_store(temp_dir.path(), 3);
    {
        let store = git2::Repository::open(temp_dir.path()).unwrap();
        store.remote("origin", "https://example.com/none.git").unwrap();
        store.reference("refs/remotes/origin/up", ids[0], true, "tracking").unwrap();
        let head = store.head().unwrap();
        let mut branch = store.find_branch(head.shorthand().unwrap(), git2::BranchType::Local).unwrap();
        branch.set_upstream(Some("origin/up")).unwrap();
    }
    let repo = open_at(temp_dir.path());
    let info = repo.get_branch_info().unwrap();
    assert_eq!(info.state, BranchState::Normal);
    assert_eq!(info.upstream, Some("origin/up".to_string()));
    assert_eq!((info.ahead, info.behind), (2, 0));
}

#[test]
fn a_store_in_a_merge_is_in_operation() {
    let temp_dir = tempfile::tempdir().unwrap();
    let ids = linear_store(temp_dir.path(), 2);
    {
        let store = git2::Repository::open(temp_dir.path()).unwrap();
        let who = git2::Signature::new("Side", "side@example.com", &git2::Time::new(5, 0)).unwrap();
        let root = store.find_commit(ids[0]).unwrap();
        let tree = root.tree().unwrap();
        let side = store.commit(None, &who, &who, "side work", &tree, &[&root]).unwrap();
        let theirs = store.find_annotated_commit(side).unwrap();
        store.merge(&[&theirs], None, None).unwrap();
    }
    let repo = open_at(temp_dir.path());
    assert_eq!(repo.validate().unwrap(), RepositoryHealth::InOperation("merge".to_string()));
}

#[test]
fn bare_stores_are_classified_and_missing_ones_reported() {
    let temp_dir = tempfile::tempdir().unwrap();
    git2::Repository::init_bare(temp_dir.path()).unwrap();
    let repo = open_at(temp_dir.path());
    assert_eq!(*repo.repo_type(), RepositoryType::Bare);
    assert!(repo.workdir().is_none());

    let nothing = tempfile::tempdir().unwrap();
    let missing = nothing.path().join("absent");
    assert!(matches!(
        GitRepository::open(missing.to_str().unwrap()),
        Err(TwiggyError::RepositoryNotFound { .. })
    ));
    assert!(GitRepository::detect(missing.to_str().unwrap()).unwrap().is_none());
    assert!(!twiggy::git::repository::is_git_repository(missing.to_str().unwrap()));
    assert!(twiggy::git::repository::is_git_repository(temp_dir.path().to_str().unwrap()));
}

#[test]
fn detection_searches_the_ancestors() {
    let temp_dir = tempfile::tempdir().unwrap();
    linear_store(temp_dir.path(), 1);
    let inner = tempfile::tempdir_in(temp_dir.path()).unwrap();
    let nested = inner.path().to_path_buf();
    assert!(matches!(
        GitRepository::open(nested.to_str().unwrap()),
        Err(TwiggyError::RepositoryNotFound { .. })
    ));
    let found = GitRepository::detect(nested.to_str().unwrap()).unwrap().unwrap();
    assert_eq!(found.total_commit_count().unwrap(), 1);
    let git_dir = twiggy::git::repository::discover_repository(nested.to_str().unwrap())
        .unwrap()
        .unwrap();
    assert!(git_dir.contains(".git"));
}

#[test]
fn loads_report_what_they_did() {
    let temp_dir = tempfile::tempdir().unwrap();
    linear_store(temp_dir.path(), 5);
    let mut repo = open_at(temp_dir.path());
    let report = repo.last_load();
    assert_eq!((report.visited, report.reused, report.read, report.skipped), (0, 0, 0, 0));

    repo.load_commits(Some(3)).unwrap();
    let report = repo.last_load();
    assert_eq!((report.visited, report.reused, report.read, report.skipped), (3, 0, 3, 0));

    repo.load_commits(None).unwrap();
    let report = repo.last_load();
    assert_eq!((report.visited, report.reused, report.read, report.skipped), (5, 3, 2, 0));

    repo.load_commits_lazy(1, 2).unwrap();
    assert_eq!(repo.last_load().visited, 5);
    repo.load_commits_lazy(9, 2).unwrap();
    assert_eq!(repo.last_load().visited, 0);
    assert!(repo.load_commits_range("zz", "zz", None).is_err());
    assert_eq!(repo.last_load().visited, 0);

    repo.refresh_commits(Some(2)).unwrap();
    let report = repo.last_load();
    assert_eq!((report.visited, report.reused, report.read, report.skipped), (2, 2, 0, 0));
    assert_eq!(repo.commit_count(), 2);
    repo.refresh().unwrap();
    assert_eq!(repo.commit_count(), 2);
}

#[test]
fn a_load_of_nothing_visits_nothing() {
    let temp_dir = tempfile::tempdir().unwrap();
    linear_store(temp_dir.path(), 3);
    let mut repo = open_at(temp_dir.path());
    repo.load_commits(Some(0)).unwrap();
    assert_eq!(repo.commit_count(), 0);
    assert_eq!(repo.last_load().visited, 0);
    assert_eq!(repo.load_commits_lazy(1, 0).unwrap().len(), 0);
    assert_eq!(repo.load_commits_for_branch("older", Some(0)).is_err(), true);
    let head = repo.find_commit_by_hash(&repo_head_text(&temp_dir)).unwrap().unwrap();
    assert_eq!(repo.load_commits_range(&head.parents[0].as_str(), &head.id.as_str(), Some(0)).unwrap().len(), 0);
    assert_eq!(repo.total_commit_count().unwrap(), 3);
}

fn repo_head_text(dir: &tempfile::TempDir) -> String {
    let store = git2::Repository::open(dir.path()).unwrap();
    let id = store.head().unwrap().target().unwrap();
    id.to_string()
}
