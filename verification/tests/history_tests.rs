use twiggy::git::cache::CommitCache;
use twiggy::git::types::{Commit, CommitId, RawCommit, RawSignature, Signature};

fn id_of(n: u8) -> CommitId {
    let mut bytes = [0u8; 20];
    bytes[19] = n;
    CommitId { bytes }
}

fn commit(n: u8, parents: &[u8], stamp: i64) -> Commit {
    let who = Signature { name: format!("Author{}", n), email: String::new(), time: stamp };
    Commit {
        id: id_of(n),
        author: who.clone(),
        committer: who,
        message: format!("commit {}", n),
        summary: format!("commit {}", n),
        parents: parents.iter().map(|p| id_of(*p)).collect(),
        tree_id: "4b825dc642cb6eb9a060e54bf8d69288fbee4904".to_string(),
    }
}

fn load(cache: &mut CommitCache, walk: &[(u8, Option<Commit>)]) -> Vec<Commit> {
    let mut list = Vec::new();
    for (n, outcome) in walk {
        cache.visit(&mut list, &id_of(*n), outcome.clone());
    }
    list
}

fn ids(list: &[Commit]) -> Vec<u8> {
    list.iter().map(|c| c.id.bytes[19]).collect()
}

#[test]
fn loading_the_same_walk_twice_changes_nothing() {
    let walk = vec![
        (3, Some(commit(3, &[2], 30))),
        (2, Some(commit(2, &[1], 20))),
        (1, Some(commit(1, &[], 10))),
    ];
    let mut cache = CommitCache::new();
    let first = load(&mut cache, &walk);
    assert_eq!(ids(&first), vec![3, 2, 1]);
    assert_eq!(cache.len(), 3);

    let second = load(&mut cache, &walk);
    assert_eq!(ids(&second), vec![3, 2, 1]);
    assert_eq!(cache.len(), 3);
    for (a, b) in first.iter().zip(second.iter()) {
        assert_eq!(a.id, b.id);
        assert_eq!(a.message, b.message);
        assert_eq!(a.parents, b.parents);
        assert_eq!(a.author.time, b.author.time);
    }
}

#[test]
fn a_cached_commit_is_reused_whatever_the_store_gives() {
    let mut cache = CommitCache::new();
    cache.insert(commit(7, &[], 70));
    let mut other = commit(7, &[], 71);
    other.message = "rewritten".to_string();
    let list = load(&mut cache, &[(7, Some(other)), (7, None)]);
    assert_eq!(ids(&list), vec![7, 7]);
    assert_eq!(list[0].message, "commit 7");
    assert_eq!(list[1].author.time, 70);
    assert_eq!(cache.len(), 1);
    assert_eq!(cache.get(&id_of(7)).unwrap().message, "commit 7");
}

#[test]
fn one_unreadable_commit_is_passed_over() {
    let walk = vec![
        (5, Some(commit(5, &[4], 50))),
        (4, Some(commit(4, &[3], 40))),
        (3, None),
        (2, Some(commit(2, &[1], 20))),
        (1, Some(commit(1, &[], 10))),
    ];
    let mut cache = CommitCache::new();
    let list = load(&mut cache, &walk);
    assert_eq!(list.len(), 4);
    assert_eq!(ids(&list), vec![5, 4, 2, 1]);
    assert_eq!(cache.len(), 4);
    assert!(!cache.contains(&id_of(3)));
    assert!(cache.get(&id_of(3)).is_none());
}

#[test]
fn the_list_keeps_the_order_of_the_walk() {
    let walk = vec![
        (9, Some(commit(9, &[7, 8], 90))),
        (8, Some(commit(8, &[6], 50))),
        (7, Some(commit(7, &[6], 80))),
        (6, Some(commit(6, &[], 10))),
    ];
    let mut cache = CommitCache::new();
    cache.insert(commit(7, &[6], 80));
    let list = load(&mut cache, &walk);
    assert_eq!(ids(&list), vec![9, 8, 7, 6]);
    for (position, c) in list.iter().enumerate() {
        for parent in &c.parents {
            let at = list.iter().position(|other| other.id == *parent).unwrap();
            assert!(at >= position);
        }
    }
    assert!(list[0].is_merge());
    assert!(list[3].is_root());
}

#[test]
fn an_empty_walk_yields_an_empty_list() {
    let mut cache = CommitCache::new();
    cache.insert(commit(1, &[], 10));
    let list = load(&mut cache, &[]);
    assert!(list.is_empty());
    assert_eq!(cache.len(), 1);
}

#[test]
fn the_cache_replaces_and_forgets() {
    let mut cache = CommitCache::new();
    assert_eq!(cache.len(), 0);
    cache.insert(commit(1, &[], 10));
    cache.insert(commit(2, &[1], 20));
    let mut newer = commit(1, &[], 11);
    newer.message = "amended".to_string();
    cache.insert(newer);
    assert_eq!(cache.len(), 2);
    assert_eq!(cache.get(&id_of(1)).unwrap().message, "amended");
    assert_eq!(cache.get(&id_of(2)).unwrap().parents, vec![id_of(1)]);
    assert!(id_of(1).same(&id_of(1)));
    assert!(!id_of(1).same(&id_of(2)));
    cache.clear();
    assert_eq!(cache.len(), 0);
    assert!(!cache.contains(&id_of(1)));
}

fn raw(name: Option<&str>, email: Option<&str>, seconds: i64) -> RawSignature {
    RawSignature {
        name: name.map(|s| s.to_string()),
        email: email.map(|s| s.to_string()),
        seconds,
    }
}

#[test]
fn signatures_degrade_one_by_one() {
    let full = Signature::from_raw(&raw(Some("Ada"), Some("ada@example.com"), 1_431_648_000), 99);
    assert_eq!(full.name, "Ada");
    assert_eq!(full.email, "ada@example.com");
    assert_eq!(full.time, 1_431_648_000);

    let no_email = Signature::from_raw(&raw(Some("Ada"), None, -5), 99);
    assert_eq!(no_email.name, "Ada");
    assert_eq!(no_email.email, "");
    assert_eq!(no_email.time, -5);

    let no_name = Signature::from_raw(&raw(None, Some("ada@example.com"), 1_431_648_000), 99);
    assert_eq!(no_name.name, "Unknown");
    assert_eq!(no_name.email, "");
    assert_eq!(no_name.time, 99);

    let far = Signature::from_raw(&raw(Some("Ada"), Some("a@b"), i64::MAX), 99);
    assert_eq!(far.name, "Ada");
    assert_eq!(far.time, 99);
    let early = Signature::from_raw(&raw(Some("Ada"), Some("a@b"), i64::MIN), 7);
    assert_eq!(early.time, 7);
}

#[test]
fn commits_are_made_from_raw_records() {
    let record = RawCommit {
        message: Some("fix: first line\nsecond line\n\nbody".to_string()),
        parents: vec![id_of(2), id_of(1)],
        tree: id_of(0xab),
        author: raw(None, None, 5),
        committer: raw(Some("Bob"), None, 6),
    };
    let made = Commit::from_raw(id_of(3), &record, 1000);
    assert_eq!(made.id, id_of(3));
    assert_eq!(made.message, "fix: first line\nsecond line\n\nbody");
    assert_eq!(made.summary, "fix: first line");
    assert_eq!(made.parents, vec![id_of(2), id_of(1)]);
    assert_eq!(made.tree_id, "00000000000000000000000000000000000000ab");
    assert_eq!(made.author.name, "Unknown");
    assert_eq!(made.author.time, 1000);
    assert_eq!(made.committer.name, "Bob");
    assert_eq!(made.committer.time, 6);
    assert!(made.is_merge());
    assert!(!made.is_root());

    let bare = RawCommit {
        message: None,
        parents: Vec::new(),
        tree: id_of(0),
        author: raw(Some("A"), Some("a@x"), 1),
        committer: raw(Some("A"), Some("a@x"), 1),
    };
    let root = Commit::from_raw(id_of(1), &bare, 0);
    assert_eq!(root.message, "");
    assert_eq!(root.summary, "");
    assert!(root.is_root());
    assert!(!root.is_merge());
    let copy = root.clone();
    assert_eq!(copy.id, root.id);
    assert_eq!(copy.author.email, "a@x");
}

#[test]
fn test_commit_metadata_integrity() {
    let commits: Vec<Commit> = (0..3u8)
        .map(|i| {
            let author = format!("Developer{}", (i % 5) + 1);
            let stamp = 1_695_000_000 + (i as i64) * 3600;
            let who = Signature {
                name: author.clone(),
                email: format!("{}@example.com", author.to_lowercase()),
                time: stamp,
            };
            let summary = format!("feat: implement feature {}", i + 1);
            Commit {
                id: CommitId::parse(&format!("{:040x}", i)).unwrap(),
                summary: summary.clone(),
                message: format!("{}\n\nDetailed commit message", summary),
                author: who.clone(),
                committer: who,
                parents: vec![],
                tree_id: "tree123".to_string(),
            }
        })
        .collect();

    assert_eq!(commits[0].summary, "feat: implement feature 1");
    assert_eq!(commits[1].summary, "feat: implement feature 2");
    assert_eq!(commits[2].summary, "feat: implement feature 3");

    assert_eq!(commits[0].author.name, "Developer1");
    assert_eq!(commits[1].author.name, "Developer2");
    assert_eq!(commits[2].author.name, "Developer3");

    assert!(commits[0].author.time < commits[1].author.time);
    assert!(commits[1].author.time < commits[2].author.time);
}
