use fwto::cbup::{audit_path_of, layer_source, rename_log_line, rename_log_path, Action, AuditSide, Cbup, CbupFlags, Facts};
use fwto::git::{ChangeEvent, ChangeKind};
use fwto::ovrd::Ovrd;

fn cbup(pure: bool) -> Cbup {
    Cbup { commit: b"c0ffee".to_vec(), flags: CbupFlags { pure } }
}

fn event(kind: ChangeKind, similarity: u32, old: &[u8], new: &[u8]) -> ChangeEvent {
    ChangeEvent { kind, similarity, old_path: old.to_vec(), new_path: new.to_vec() }
}

fn facts(override_exists: bool) -> Facts {
    Facts { override_exists, old_snapshot: false, new_snapshot: false, src_exists: true }
}

#[test]
fn partial_rename_with_override_migrates_it() {
    let ev = event(ChangeKind::RenamedPartial, 80, b"A.c", b"B.c");
    let plan = cbup(false).codebase_oemovrd(&ev, b"dst", facts(true));
    assert_eq!(
        plan,
        vec![
            Action::LogRename { line: b"R80 A.c B.c".to_vec() },
            Action::Extract { parent: true, path: b"A.c".to_vec(), dest: b"0.fwto/cbup/R75/base.old/B.c".to_vec() },
            Action::Extract { parent: false, path: b"B.c".to_vec(), dest: b"0.fwto/cbup/R75/base.new/B.c".to_vec() },
            Action::Extract { parent: false, path: b"dst/A.c".to_vec(), dest: b"0.fwto/cbup/R75/ovrd/B.c".to_vec() },
            Action::Replace { old: Ovrd::new(b"A.c", false, false), new: Ovrd::new(b"B.c", false, false) },
        ]
    );
}

#[test]
fn deletion_without_override_does_nothing() {
    let ev = event(ChangeKind::Deleted, 0, b"Foo/Bar.c", b"Foo/Bar.c");
    assert!(cbup(false).codebase_oemovrd(&ev, b"dst", facts(false)).is_empty());
    assert!(cbup(true).codebase_oemovrd(&ev, b"dst", facts(false)).is_empty());
}

#[test]
fn deletion_with_override_cleans_it() {
    let ev = event(ChangeKind::Deleted, 0, b"Foo/Bar.c", b"Foo/Bar.c");
    let plan = cbup(false).codebase_oemovrd(&ev, b"dst", facts(true));
    assert_eq!(
        plan,
        vec![
            Action::Extract { parent: true, path: b"Foo/Bar.c".to_vec(), dest: b"0.fwto/cbup/!R/base.old/Foo/Bar.c".to_vec() },
            Action::Extract { parent: false, path: b"dst/Foo/Bar.c".to_vec(), dest: b"0.fwto/cbup/!R/ovrd/Foo/Bar.c".to_vec() },
            Action::Delete { ovrd: Ovrd::new(b"Foo/Bar.c", true, false) },
        ]
    );
}

#[test]
fn modification_with_override_refreshes_it() {
    let ev = event(ChangeKind::Modified, 0, b"M.c", b"M.c");
    let plan = cbup(true).codebase_oemovrd(&ev, b"dst", facts(true));
    assert_eq!(plan.len(), 4);
    assert_eq!(plan[1], Action::Extract { parent: false, path: b"M.c".to_vec(), dest: b"0.fwto/cbup/!R/base.new/M.c".to_vec() });
    assert_eq!(plan[3], Action::Add { ovrd: Ovrd::new(b"M.c", false, true) });
    let plan = cbup(false).codebase_oemovrd(&ev, b"dst", facts(true));
    assert_eq!(plan[3], Action::Add { ovrd: Ovrd::new(b"M.c", false, false) });
}

#[test]
fn pure_mode_makes_one_light_override_per_change() {
    let cases = vec![
        event(ChangeKind::Added, 0, b"N.c", b"N.c"),
        event(ChangeKind::Modified, 0, b"N.c", b"N.c"),
        event(ChangeKind::RenamedExact, 100, b"O.c", b"N.c"),
        event(ChangeKind::RenamedPartial, 90, b"O.c", b"N.c"),
    ];
    for ev in &cases {
        assert_eq!(
            cbup(true).codebase_oemovrd(ev, b"dst", facts(false)),
            vec![Action::Add { ovrd: Ovrd::new(b"N.c", false, true) }]
        );
        assert!(cbup(false).codebase_oemovrd(ev, b"dst", facts(false)).is_empty());
    }
}

#[test]
fn exact_rename_with_override_replaces_it() {
    let ev = event(ChangeKind::RenamedExact, 100, b"O.c", b"N.c");
    assert_eq!(
        cbup(false).codebase_oemovrd(&ev, b"dst", facts(true)),
        vec![Action::Replace { old: Ovrd::new(b"O.c", false, false), new: Ovrd::new(b"N.c", false, false) }]
    );
}

#[test]
fn secondary_addition_updates_new_snapshot() {
    let ev = event(ChangeKind::Added, 0, b"Ibv/X/y.c", b"Ibv/X/y.c");
    let f = Facts { override_exists: false, old_snapshot: false, new_snapshot: true, src_exists: true };
    assert_eq!(
        cbup(false).codebase_ibvovrd(&ev, b"Ibv", f),
        vec![Action::Extract { parent: false, path: b"Ibv/X/y.c".to_vec(), dest: b"0.fwto/cbup/!R/base.new/X/y.c".to_vec() }]
    );
}

#[test]
fn secondary_pure_mode_uses_placeholder_when_file_is_absent() {
    let ev = event(ChangeKind::Modified, 0, b"Ibv/X/y.c", b"Ibv/X/y.c");
    let f = Facts { override_exists: false, old_snapshot: false, new_snapshot: false, src_exists: false };
    assert_eq!(
        cbup(true).codebase_ibvovrd(&ev, b"Ibv", f),
        vec![Action::AddPlaceholder { ovrd: Ovrd::new(b"X/y.c", false, true) }]
    );
    let f = Facts { src_exists: true, ..f };
    assert_eq!(cbup(true).codebase_ibvovrd(&ev, b"Ibv", f), vec![Action::Add { ovrd: Ovrd::new(b"X/y.c", false, true) }]);
    assert!(cbup(false).codebase_ibvovrd(&ev, b"Ibv", f).is_empty());
}

#[test]
fn secondary_modification_with_snapshot_updates_both() {
    let ev = event(ChangeKind::Modified, 0, b"Ibv/m.c", b"Ibv/m.c");
    let f = Facts { override_exists: true, old_snapshot: false, new_snapshot: false, src_exists: true };
    assert_eq!(
        cbup(true).codebase_ibvovrd(&ev, b"Ibv", f),
        vec![
            Action::Extract { parent: true, path: b"Ibv/m.c".to_vec(), dest: b"0.fwto/cbup/!R/base.old/m.c".to_vec() },
            Action::Extract { parent: false, path: b"Ibv/m.c".to_vec(), dest: b"0.fwto/cbup/!R/base.new/m.c".to_vec() },
        ]
    );
}

#[test]
fn secondary_partial_rename_with_override() {
    let ev = event(ChangeKind::RenamedPartial, 77, b"Ibv/a.c", b"Ibv/b.c");
    assert_eq!(
        cbup(false).codebase_ibvovrd(&ev, b"Ibv", facts(true)),
        vec![
            Action::Extract { parent: true, path: b"Ibv/a.c".to_vec(), dest: b"0.fwto/cbup/R75/base.old/b.c".to_vec() },
            Action::Extract { parent: false, path: b"Ibv/b.c".to_vec(), dest: b"0.fwto/cbup/R75/base.new/b.c".to_vec() },
        ]
    );
}

#[test]
fn secondary_ignores_paths_outside_layer() {
    let ev = event(ChangeKind::Added, 0, b"Other/y.c", b"Other/y.c");
    assert!(cbup(true).codebase_ibvovrd(&ev, b"Ibv", facts(false)).is_empty());
}

#[test]
fn layer_source_strips_prefix() {
    assert_eq!(layer_source(b"Ibv/Ovrd", b"Ibv/Ovrd/a/b.c"), Some(b"a/b.c".to_vec()));
    assert_eq!(layer_source(b"Ibv/Ovrd", b"Ibv/OvrdX/b.c"), None);
    assert_eq!(layer_source(b"Ibv", b"Ibv"), None);
}

#[test]
fn audit_and_log_paths() {
    assert_eq!(audit_path_of(false, AuditSide::Ovrd, b"a.c"), b"0.fwto/cbup/!R/ovrd/a.c".to_vec());
    assert_eq!(audit_path_of(true, AuditSide::Old, b"a.c"), b"0.fwto/cbup/R75/base.old/a.c".to_vec());
    assert_eq!(rename_log_path(), b"0.fwto/cbup/R75/R75.log".to_vec());
    let ev = event(ChangeKind::RenamedPartial, 7, b"x", b"y");
    assert_eq!(rename_log_line(&ev), b"R7 x y".to_vec());
}
