use privateer_core::walk::{Walk, WalkAction, WalkEvent, WalkPhase};

/// A stand-in for a directory tree: the entries of each directory, by path.
struct Tree {
    dirs: Vec<(String, Vec<String>)>,
}

fn tree(dirs: &[(&str, &[&str])]) -> Tree {
    Tree {
        dirs: dirs
            .iter()
            .map(|(d, es)| (d.to_string(), es.iter().map(|e| e.to_string()).collect()))
            .collect(),
    }
}

fn entries<'a>(t: &'a Tree, path: &str) -> Option<&'a Vec<String>> {
    t.dirs.iter().find(|(d, _)| d == path).map(|(_, es)| es)
}

/// Runs a copy of the tree below `root`, failing at the file `fail_at` if
/// one is given. Gives back what was done, in order, and how it ended.
fn run(t: &Tree, root: &str, fail_at: Option<&str>) -> (Vec<String>, bool) {
    let mut items: Vec<String> = vec![root.to_string()];
    let mut done: Vec<String> = Vec::new();
    let mut walk = Walk::new();
    let mut event = WalkEvent::Begin;
    for _ in 0..10_000 {
        event = match walk.step(event) {
            WalkAction::Classify { item } => {
                WalkEvent::Classified { is_dir: entries(t, &items[item]).is_some() }
            }
            WalkAction::MakeDir { item } => {
                done.push(format!("mkdir {}", items[item]));
                WalkEvent::Made
            }
            WalkAction::List { item } => {
                let here = items[item].clone();
                let found = entries(t, &here).unwrap();
                for e in found {
                    items.push(format!("{}/{}", here, e));
                }
                WalkEvent::Listed { count: found.len() }
            }
            WalkAction::MakeParent { item } => {
                done.push(format!("parent {}", items[item]));
                WalkEvent::Made
            }
            WalkAction::CopyFile { item } => {
                if fail_at == Some(items[item].as_str()) {
                    WalkEvent::Failed
                } else {
                    done.push(format!("copy {}", items[item]));
                    WalkEvent::Copied
                }
            }
            WalkAction::Finish { ok } => {
                assert_eq!(walk.phase, WalkPhase::Finished);
                assert!(walk.pending.is_empty());
                assert_eq!(walk.known, items.len());
                return (done, ok);
            }
        };
    }
    panic!("the copy did not end");
}

#[test]
fn a_new_walk_has_the_root_pending() {
    let w = Walk::new();
    assert_eq!(w.pending, vec![0]);
    assert_eq!(w.current, 0);
    assert_eq!(w.known, 1);
    assert_eq!(w.phase, WalkPhase::Ready);
}

#[test]
fn a_single_file_is_copied_after_its_parent_is_made() {
    let t = tree(&[]);
    let (done, ok) = run(&t, "film.mkv", None);
    assert!(ok);
    assert_eq!(done, vec!["parent film.mkv", "copy film.mkv"]);
}

#[test]
fn an_empty_directory_is_made() {
    let t = tree(&[("Film", &[])]);
    let (done, ok) = run(&t, "Film", None);
    assert!(ok);
    assert_eq!(done, vec!["mkdir Film"]);
}

#[test]
fn a_tree_is_copied_depth_first_in_listing_order() {
    let t = tree(&[
        ("Show", &["s1", "extras.txt", "s2"]),
        ("Show/s1", &["e1.mkv", "e2.mkv"]),
        ("Show/s2", &["subs", "e1.mkv"]),
        ("Show/s2/subs", &["en.srt"]),
    ]);
    let (done, ok) = run(&t, "Show", None);
    assert!(ok);
    assert_eq!(
        done,
        vec![
            "mkdir Show",
            "mkdir Show/s1",
            "parent Show/s1/e1.mkv",
            "copy Show/s1/e1.mkv",
            "parent Show/s1/e2.mkv",
            "copy Show/s1/e2.mkv",
            "parent Show/extras.txt",
            "copy Show/extras.txt",
            "mkdir Show/s2",
            "mkdir Show/s2/subs",
            "parent Show/s2/subs/en.srt",
            "copy Show/s2/subs/en.srt",
            "parent Show/s2/e1.mkv",
            "copy Show/s2/e1.mkv",
        ]
    );
}

#[test]
fn the_first_failure_ends_the_copy() {
    let t = tree(&[
        ("Show", &["s1", "extras.txt", "s2"]),
        ("Show/s1", &["e1.mkv", "e2.mkv"]),
        ("Show/s2", &["e1.mkv"]),
    ]);
    let (done, ok) = run(&t, "Show", Some("Show/s1/e2.mkv"));
    assert!(!ok);
    assert_eq!(
        done,
        vec!["mkdir Show", "mkdir Show/s1", "parent Show/s1/e1.mkv", "copy Show/s1/e1.mkv", "parent Show/s1/e2.mkv"]
    );
}

#[test]
fn each_step_of_a_small_walk() {
    let mut w = Walk::new();
    assert_eq!(w.step(WalkEvent::Begin), WalkAction::Classify { item: 0 });
    assert_eq!(w.phase, WalkPhase::Classifying);
    assert_eq!(w.step(WalkEvent::Classified { is_dir: true }), WalkAction::MakeDir { item: 0 });
    assert_eq!(w.step(WalkEvent::Made), WalkAction::List { item: 0 });
    assert_eq!(w.step(WalkEvent::Listed { count: 3 }), WalkAction::Classify { item: 1 });
    assert_eq!(w.pending, vec![3, 2]);
    assert_eq!(w.known, 4);
    assert_eq!(w.step(WalkEvent::Classified { is_dir: false }), WalkAction::MakeParent { item: 1 });
    assert_eq!(w.step(WalkEvent::Made), WalkAction::CopyFile { item: 1 });
    assert_eq!(w.step(WalkEvent::Copied), WalkAction::Classify { item: 2 });
    assert_eq!(w.step(WalkEvent::Classified { is_dir: true }), WalkAction::MakeDir { item: 2 });
    assert_eq!(w.step(WalkEvent::Made), WalkAction::List { item: 2 });
    assert_eq!(w.step(WalkEvent::Listed { count: 2 }), WalkAction::Classify { item: 4 });
    assert_eq!(w.pending, vec![3, 5]);
    assert_eq!(w.known, 6);
    assert_eq!(w.step(WalkEvent::Classified { is_dir: true }), WalkAction::MakeDir { item: 4 });
    assert_eq!(w.step(WalkEvent::Made), WalkAction::List { item: 4 });
    assert_eq!(w.step(WalkEvent::Listed { count: 0 }), WalkAction::Classify { item: 5 });
    assert_eq!(w.step(WalkEvent::Classified { is_dir: false }), WalkAction::MakeParent { item: 5 });
    assert_eq!(w.step(WalkEvent::Made), WalkAction::CopyFile { item: 5 });
    assert_eq!(w.step(WalkEvent::Copied), WalkAction::Classify { item: 3 });
    assert_eq!(w.step(WalkEvent::Classified { is_dir: false }), WalkAction::MakeParent { item: 3 });
    assert_eq!(w.step(WalkEvent::Made), WalkAction::CopyFile { item: 3 });
    assert_eq!(w.step(WalkEvent::Copied), WalkAction::Finish { ok: true });
    assert_eq!(w.phase, WalkPhase::Finished);
    assert_eq!(w.step(WalkEvent::Begin), WalkAction::Finish { ok: false });
}

#[test]
fn a_failure_in_any_phase_finishes_without_success() {
    let lead: [&[WalkEvent]; 6] = [
        &[],
        &[WalkEvent::Begin],
        &[WalkEvent::Begin, WalkEvent::Classified { is_dir: true }],
        &[WalkEvent::Begin, WalkEvent::Classified { is_dir: true }, WalkEvent::Made],
        &[WalkEvent::Begin, WalkEvent::Classified { is_dir: false }],
        &[WalkEvent::Begin, WalkEvent::Classified { is_dir: false }, WalkEvent::Made],
    ];
    for events in lead {
        let mut w = Walk::new();
        for e in events {
            w.step(*e);
        }
        assert_eq!(w.step(WalkEvent::Failed), WalkAction::Finish { ok: false });
        assert_eq!(w.phase, WalkPhase::Finished);
        assert!(w.pending.is_empty());
    }
}

#[test]
fn an_unexpected_report_finishes_without_success() {
    let mut w = Walk::new();
    assert_eq!(w.step(WalkEvent::Copied), WalkAction::Finish { ok: false });
    let mut w = Walk::new();
    w.step(WalkEvent::Begin);
    assert_eq!(w.step(WalkEvent::Listed { count: 1 }), WalkAction::Finish { ok: false });
    let mut w = Walk::new();
    w.step(WalkEvent::Begin);
    w.step(WalkEvent::Classified { is_dir: true });
    assert_eq!(w.step(WalkEvent::Copied), WalkAction::Finish { ok: false });
}

#[test]
fn a_listing_beyond_all_numbers_finishes_without_success() {
    let mut w = Walk::new();
    w.step(WalkEvent::Begin);
    w.step(WalkEvent::Classified { is_dir: true });
    w.step(WalkEvent::Made);
    assert_eq!(w.step(WalkEvent::Listed { count: usize::MAX }), WalkAction::Finish { ok: false });
    assert!(w.pending.is_empty());
    assert_eq!(w.known, 1);
}
