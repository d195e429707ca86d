use twiggy::git::types::{Commit, CommitId, Signature};
use twiggy::ui::components::commit_list::{
    CommitListComponent, CommitListResponse, KeysPressed,
};

fn create_test_commit(id: &str, summary: &str, author: &str, timestamp: i64) -> Commit {
    let commit_id = CommitId::parse(id).unwrap_or_else(|_| {
        CommitId::parse("0000000000000000000000000000000000000000").unwrap()
    });

    Commit {
        id: commit_id,
        summary: summary.to_string(),
        message: format!("{}\n\nDetailed commit message", summary),
        author: Signature {
            name: author.to_string(),
            email: format!("{}@example.com", author.to_lowercase()),
            time: timestamp,
        },
        committer: Signature {
            name: author.to_string(),
            email: format!("{}@example.com", author.to_lowercase()),
            time: timestamp,
        },
        parents: vec![],
        tree_id: "tree123".to_string(),
    }
}

fn create_test_commits(count: usize) -> Vec<Commit> {
    let mut commits = Vec::new();
    let base_timestamp = 1695000000;

    for i in 0..count {
        let commit = create_test_commit(
            &format!("{:040x}", i),
            &format!("feat: implement feature {}", i + 1),
            &format!("Developer{}", (i % 5) + 1),
            base_timestamp + (i as i64 * 3600),
        );
        commits.push(commit);
    }

    commits
}

#[test]
fn test_commit_selection() {
    let mut commit_list = CommitListComponent::new();
    let commits = create_test_commits(5);

    let first_commit_id = commits[0].id;
    commit_list.set_selected_commit(Some(first_commit_id));

    assert_eq!(commit_list.selected_commit(), Some(first_commit_id));
}

#[test]
fn test_commit_navigation() {
    let mut commit_list = CommitListComponent::new();
    let commits = create_test_commits(10);

    commit_list.set_selected_commit(Some(commits[0].id));

    commit_list.select_next(&commits);
    assert_eq!(commit_list.selected_commit(), Some(commits[1].id));

    commit_list.select_previous(&commits);
    assert_eq!(commit_list.selected_commit(), Some(commits[0].id));

    commit_list.select_previous(&commits);
    assert_eq!(commit_list.selected_commit(), Some(commits[0].id));
}

#[test]
fn test_commit_navigation_bounds() {
    let mut commit_list = CommitListComponent::new();
    let commits = create_test_commits(3);

    commit_list.set_selected_commit(Some(commits[2].id));

    commit_list.select_next(&commits);
    assert_eq!(commit_list.selected_commit(), Some(commits[2].id));

    commit_list.select_first(&commits);
    assert_eq!(commit_list.selected_commit(), Some(commits[0].id));

    commit_list.select_last(&commits);
    assert_eq!(commit_list.selected_commit(), Some(commits[2].id));
}

#[test]
fn test_empty_commit_list() {
    let mut commit_list = CommitListComponent::new();
    let empty_commits: Vec<Commit> = vec![];

    commit_list.select_next(&empty_commits);
    assert_eq!(commit_list.selected_commit(), None);

    commit_list.select_previous(&empty_commits);
    assert_eq!(commit_list.selected_commit(), None);

    commit_list.select_first(&empty_commits);
    assert_eq!(commit_list.selected_commit(), None);

    commit_list.select_last(&empty_commits);
    assert_eq!(commit_list.selected_commit(), None);
}

#[test]
fn test_large_commit_list_performance() {
    let start_time = std::time::Instant::now();
    let commits = create_test_commits(1000);
    let creation_time = start_time.elapsed();

    assert!(creation_time.as_millis() < 100, "Creating 1000 commits should take less than 100ms");

    let mut commit_list = CommitListComponent::new();

    let selection_start = std::time::Instant::now();
    commit_list.set_selected_commit(Some(commits[500].id));
    let selection_time = selection_start.elapsed();

    assert!(selection_time.as_millis() < 10, "Selecting a commit should take less than 10ms");

    let navigation_start = std::time::Instant::now();
    for _ in 0..100 {
        commit_list.select_next(&commits);
    }
    let navigation_time = navigation_start.elapsed();

    assert!(navigation_time.as_millis() < 50, "100 navigation operations should take less than 50ms");
    assert_eq!(commit_list.selected_commit(), Some(commits[600].id));
}

#[test]
fn test_commit_list_state_consistency() {
    let mut commit_list = CommitListComponent::new();
    let commits = create_test_commits(5);

    commit_list.set_selected_commit(Some(commits[2].id));
    assert_eq!(commit_list.selected_commit(), Some(commits[2].id));

    commit_list.set_selected_commit(None);
    assert_eq!(commit_list.selected_commit(), None);

    commit_list.set_selected_commit(Some(commits[4].id));
    assert_eq!(commit_list.selected_commit(), Some(commits[4].id));
}

#[test]
fn test_commit_list_with_duplicates() {
    let mut commit_list = CommitListComponent::new();
    let mut commits = create_test_commits(3);
    commits.push(commits[0].clone());

    commit_list.set_selected_commit(Some(commits[0].id));
    assert_eq!(commit_list.selected_commit(), Some(commits[0].id));

    commit_list.select_next(&commits);
    assert_eq!(commit_list.selected_commit(), Some(commits[1].id));
}

#[test]
fn an_unselected_list_starts_at_either_end() {
    let commits = create_test_commits(4);
    let mut list = CommitListComponent::new();
    assert_eq!(list.selected_commit(), None);
    assert_eq!(list.hover_commit(), None);
    assert_eq!(list.get_visible_range(), (0, 0));
    list.select_next(&commits);
    assert_eq!(list.selected_commit(), Some(commits[0].id));
    list.clear_selection();
    list.select_previous(&commits);
    assert_eq!(list.selected_commit(), Some(commits[3].id));
    list.clear_selection();
    list.select_page_down(&commits);
    assert_eq!(list.selected_commit(), Some(commits[0].id));
    list.clear_selection();
    list.select_page_up(&commits);
    assert_eq!(list.selected_commit(), Some(commits[3].id));
}

#[test]
fn pages_move_by_ten_and_stop_at_the_ends() {
    let commits = create_test_commits(25);
    let mut list = CommitListComponent::new();
    list.set_selected_commit(Some(commits[3].id));
    list.select_page_down(&commits);
    assert_eq!(list.selected_commit(), Some(commits[13].id));
    list.select_page_down(&commits);
    assert_eq!(list.selected_commit(), Some(commits[23].id));
    list.select_page_down(&commits);
    assert_eq!(list.selected_commit(), Some(commits[24].id));
    list.select_page_down(&commits);
    assert_eq!(list.selected_commit(), Some(commits[24].id));
    list.select_page_up(&commits);
    assert_eq!(list.selected_commit(), Some(commits[14].id));
    list.select_page_up(&commits);
    assert_eq!(list.selected_commit(), Some(commits[4].id));
    list.select_page_up(&commits);
    assert_eq!(list.selected_commit(), Some(commits[0].id));

    let stranger = CommitId::parse("ffffffffffffffffffffffffffffffffffffffff").unwrap();
    list.set_selected_commit(Some(stranger));
    list.select_next(&commits);
    list.select_previous(&commits);
    list.select_page_down(&commits);
    list.select_page_up(&commits);
    assert_eq!(list.selected_commit(), Some(stranger));
    list.select_last(&commits);
    assert_eq!(list.selected_commit(), Some(commits[24].id));
}

#[test]
fn hover_rows_and_responses_are_recorded() {
    let commits = create_test_commits(2);
    let mut list = CommitListComponent::new();
    list.set_hover_commit(Some(commits[1].id));
    list.set_visible_range(3, 9);
    list.set_selected_commit(Some(commits[0].id));
    assert_eq!(list.hover_commit(), Some(commits[1].id));
    assert_eq!(list.get_visible_range(), (3, 9));
    list.clear_selection();
    assert_eq!(list.hover_commit(), None);
    assert_eq!(list.selected_commit(), None);
    assert_eq!(list.get_visible_range(), (3, 9));

    let response = CommitListResponse {
        selected: Some(commits[0].id),
        clicked: None,
        double_clicked: Some(commits[0].id),
    };
    assert!(!response.has_selection_changed(Some(commits[0].id)));
    assert!(response.has_selection_changed(Some(commits[1].id)));
    assert!(response.has_selection_changed(None));
    assert!(!response.was_clicked());
    assert!(response.was_double_clicked());
    let idle = CommitListResponse { selected: None, clicked: None, double_clicked: None };
    assert!(!idle.has_selection_changed(None));
    assert!(idle.has_selection_changed(Some(commits[0].id)));
}

fn no_keys() -> KeysPressed {
    KeysPressed {
        arrow_down: false,
        arrow_up: false,
        home: false,
        end: false,
        page_down: false,
        page_up: false,
    }
}

#[test]
fn keys_move_the_selection_in_their_order() {
    let commits = create_test_commits(30);
    let empty: Vec<Commit> = Vec::new();
    let mut list = CommitListComponent::new();

    assert!(!list.handle_keyboard(no_keys(), &commits));
    assert_eq!(list.selected_commit(), None);
    assert!(!list.handle_keyboard(KeysPressed { arrow_down: true, ..no_keys() }, &empty));
    assert_eq!(list.selected_commit(), None);

    assert!(list.handle_keyboard(KeysPressed { arrow_down: true, ..no_keys() }, &commits));
    assert_eq!(list.selected_commit(), Some(commits[0].id));
    assert!(list.handle_keyboard(KeysPressed { arrow_up: true, ..no_keys() }, &commits));
    assert_eq!(list.selected_commit(), Some(commits[0].id));
    assert!(list.handle_keyboard(KeysPressed { page_down: true, ..no_keys() }, &commits));
    assert_eq!(list.selected_commit(), Some(commits[10].id));
    assert!(list.handle_keyboard(
        KeysPressed { arrow_down: true, arrow_up: true, ..no_keys() },
        &commits
    ));
    assert_eq!(list.selected_commit(), Some(commits[10].id));
    assert!(list.handle_keyboard(
        KeysPressed { home: true, page_down: true, ..no_keys() },
        &commits
    ));
    assert_eq!(list.selected_commit(), Some(commits[10].id));
    assert!(list.handle_keyboard(KeysPressed { end: true, page_up: true, ..no_keys() }, &commits));
    assert_eq!(list.selected_commit(), Some(commits[19].id));
    assert!(list.handle_keyboard(KeysPressed { end: true, ..no_keys() }, &commits));
    assert_eq!(list.selected_commit(), Some(commits[29].id));
    assert!(list.handle_keyboard(KeysPressed { home: true, ..no_keys() }, &commits));
    assert_eq!(list.selected_commit(), Some(commits[0].id));
}
