use gb_sync::{collect_refs, push_all_refs, RefKind, Refname, Refspec};

fn r(kind: RefKind, name: &str) -> Refname {
    Refname { kind, name: name.to_string() }
}

fn names(specs: &[Refspec]) -> Vec<String> {
    specs
        .iter()
        .map(|s| match s {
            Refspec::Mirror { name } => name.clone(),
            _ => panic!("not a mirror refspec"),
        })
        .collect()
}

#[test]
fn mirror_takes_local_remote_and_virtual_only() {
    let refs = vec![
        r(RefKind::Local, "refs/heads/a"),
        r(RefKind::Remote, "refs/remotes/origin/b"),
        r(RefKind::Virtual, "refs/gitbutler/c"),
        r(RefKind::Other, "refs/tags/d"),
    ];
    assert_eq!(
        names(&push_all_refs(&refs)),
        vec!["refs/heads/a", "refs/remotes/origin/b", "refs/gitbutler/c"]
    );
}

#[test]
fn mirror_of_no_references_is_empty() {
    assert!(push_all_refs(&Vec::new()).is_empty());
    assert!(push_all_refs(&vec![r(RefKind::Other, "refs/tags/v1")]).is_empty());
}

#[test]
fn mirror_keeps_order() {
    let refs = vec![
        r(RefKind::Virtual, "refs/gitbutler/z"),
        r(RefKind::Other, "refs/notes/x"),
        r(RefKind::Local, "refs/heads/a"),
    ];
    assert_eq!(names(&push_all_refs(&refs)), vec!["refs/gitbutler/z", "refs/heads/a"]);
}

#[test]
fn collect_refs_drops_unreadable_entries_and_keeps_order() {
    let listing = vec![
        None,
        Some(r(RefKind::Remote, "refs/remotes/origin/b")),
        None,
        Some(r(RefKind::Other, "refs/tags/d")),
        Some(r(RefKind::Local, "refs/heads/a")),
    ];
    let refs = collect_refs(listing);
    let got: Vec<(RefKind, String)> = refs.into_iter().map(|x| (x.kind, x.name)).collect();
    assert_eq!(
        got,
        vec![
            (RefKind::Remote, "refs/remotes/origin/b".to_string()),
            (RefKind::Other, "refs/tags/d".to_string()),
            (RefKind::Local, "refs/heads/a".to_string()),
        ]
    );
}

#[test]
fn collect_refs_of_empty_listing() {
    assert!(collect_refs(Vec::new()).is_empty());
    assert!(collect_refs(vec![None, None]).is_empty());
}
