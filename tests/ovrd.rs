use fwto::ovrd::{FileOp, MaterializeFacts, Ovrd, OvrdError};

fn facts(dst_exists: bool) -> MaterializeFacts {
    MaterializeFacts { src_is_file: true, dst_exists, layer_has_file: false, org_is_dir: true }
}

fn copy(from: &[u8], to: &[u8]) -> FileOp {
    FileOp::Copy { from: from.to_vec(), to: to.to_vec() }
}

#[test]
fn first_materialization_copies_file_and_original() {
    let o = Ovrd::new(b"Foo/Bar.c", false, false);
    let r = o.add_override_files(b"dst", &Some(b"org".to_vec()), &None, facts(false));
    assert_eq!(r, Ok((vec![copy(b"Foo/Bar.c", b"dst/Foo/Bar.c"), copy(b"Foo/Bar.c", b"org/Foo/Bar.c")], true)));
}

#[test]
fn second_materialization_leaves_destination() {
    let o = Ovrd::new(b"Foo/Bar.c", false, false);
    let r = o.add_override_files(b"dst", &Some(b"org".to_vec()), &Some(b"ibv".to_vec()), facts(true));
    assert_eq!(r, Ok((vec![copy(b"Foo/Bar.c", b"org/Foo/Bar.c")], false)));
    let light = Ovrd::new(b"Foo/Bar.c", false, true);
    let r = light.add_override_files(b"dst", &Some(b"org".to_vec()), &None, facts(true));
    assert_eq!(r, Ok((vec![], false)));
}

#[test]
fn secondary_layer_content_wins_on_creation() {
    let o = Ovrd::new(b"a.c", false, true);
    let f = MaterializeFacts { layer_has_file: true, ..facts(false) };
    let r = o.add_override_files(b"dst", &None, &Some(b"ibv".to_vec()), f);
    assert_eq!(r, Ok((vec![copy(b"a.c", b"dst/a.c"), copy(b"ibv/a.c", b"dst/a.c")], true)));
}

#[test]
fn materialization_errors() {
    let o = Ovrd::new(b"a.c", false, false);
    let f = MaterializeFacts { src_is_file: false, ..facts(false) };
    assert_eq!(o.add_override_files(b"dst", &None, &None, f), Err(OvrdError::NotAFile));
    let f = MaterializeFacts { org_is_dir: false, ..facts(false) };
    assert_eq!(o.add_override_files(b"dst", &Some(b"org".to_vec()), &None, f), Err(OvrdError::OrgNotDir));
    let light = Ovrd::new(b"a.c", false, true);
    assert!(light.add_override_files(b"dst", &Some(b"org".to_vec()), &None, f).is_ok());
}

#[test]
fn cleanup_paths() {
    let o = Ovrd::new(b"a/b.c", true, false);
    assert_eq!(o.del_override_files(b"dst", &Some(b"org".to_vec())), vec![b"dst/a/b.c".to_vec(), b"org/a/b.c".to_vec()]);
    assert_eq!(o.del_override_files(b"dst", &None), vec![b"dst/a/b.c".to_vec()]);
    let light = Ovrd::new(b"a/b.c", true, true);
    assert_eq!(light.del_override_files(b"dst", &Some(b"org".to_vec())), vec![b"dst/a/b.c".to_vec()]);
}

#[test]
fn override_line() {
    let o = Ovrd::new(b"Foo/Bar.c", false, false);
    assert_eq!(o.build_cif_override_line(b"OEM"), b"\"OEM/Foo/Bar.c\";\"Foo/Bar.c\"".to_vec());
}
