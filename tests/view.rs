use fwto::git::{ChangeEvent, ChangeKind};
use fwto::view::{Extraction, View};

fn ev(kind: ChangeKind, p: &[u8]) -> ChangeEvent {
    ChangeEvent { kind, similarity: 0, old_path: p.to_vec(), new_path: p.to_vec() }
}

fn x(rev: &[u8], path: &[u8], dest: &[u8]) -> Extraction {
    Extraction { revision: rev.to_vec(), path: path.to_vec(), dest: dest.to_vec() }
}

#[test]
fn old_revision_defaults_to_parent() {
    let v = View { new: b"HEAD".to_vec(), old: None };
    assert_eq!(v.old_revision(), b"HEAD~".to_vec());
    let v = View { new: b"HEAD".to_vec(), old: Some(b"v1".to_vec()) };
    assert_eq!(v.old_revision(), b"v1".to_vec());
}

#[test]
fn diff_query_arguments() {
    let v = View { new: b"n".to_vec(), old: Some(b"o".to_vec()) };
    let args = v.diff_no_format(b"ADM", &vec![b"Dst".to_vec(), b"Org".to_vec()], true);
    let args: Vec<String> = args.into_iter().map(|a| String::from_utf8(a).unwrap()).collect();
    assert_eq!(
        args,
        vec!["diff", "--format=", "--name-only", "--find-renames=100%", "--diff-filter=ADM", "o", "n", "--", ":!:Dst", ":!:Org"]
    );
    let args = v.diff_no_format(b"A", &vec![], false);
    assert_eq!(args.len(), 7);
}

#[test]
fn review_outside_overrides() {
    let v = View { new: b"n".to_vec(), old: None };
    assert_eq!(
        v.review_nonovrd(&ev(ChangeKind::Modified, b"a.c")),
        vec![x(b"n~", b"a.c", b"0.fwto/view/old/a.c"), x(b"n", b"a.c", b"0.fwto/view/new/a.c")]
    );
}

#[test]
fn review_inside_override_directory() {
    let v = View { new: b"n".to_vec(), old: Some(b"o".to_vec()) };
    assert_eq!(
        v.review_ovrd(&ev(ChangeKind::Added, b"Dst/a.c"), b"Dst"),
        vec![x(b"n", b"a.c", b"0.fwto/view/old/a.c"), x(b"n", b"Dst/a.c", b"0.fwto/view/new/a.c")]
    );
    assert_eq!(
        v.review_ovrd(&ev(ChangeKind::Deleted, b"Dst/a.c"), b"Dst"),
        vec![x(b"o", b"Dst/a.c", b"0.fwto/view/old/a.c"), x(b"n", b"a.c", b"0.fwto/view/new/a.c")]
    );
    assert_eq!(
        v.review_ovrd(&ev(ChangeKind::Modified, b"Dst/a.c"), b"Dst"),
        vec![x(b"o", b"Dst/a.c", b"0.fwto/view/old/a.c"), x(b"n", b"Dst/a.c", b"0.fwto/view/new/a.c")]
    );
    assert!(v.review_ovrd(&ev(ChangeKind::Modified, b"Else/a.c"), b"Dst").is_empty());
}
