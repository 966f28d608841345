use fwto::git::{create_file_from, parse_changes, parse_rename_line, parse_score, show_no_format, ChangeEvent, ChangeKind};

fn strs(v: Vec<Vec<u8>>) -> Vec<String> {
    v.into_iter().map(|b| String::from_utf8(b).unwrap()).collect()
}

#[test]
fn single_added_file_gives_one_event() {
    let events = parse_changes(b"Foo/Bar.c\n", ChangeKind::Added);
    assert_eq!(
        events,
        vec![ChangeEvent {
            kind: ChangeKind::Added,
            similarity: 0,
            old_path: b"Foo/Bar.c".to_vec(),
            new_path: b"Foo/Bar.c".to_vec(),
        }]
    );
}

#[test]
fn empty_lines_give_no_event() {
    let events = parse_changes(b"\nA.c\r\n\nB.c", ChangeKind::Modified);
    assert_eq!(events.len(), 2);
    assert_eq!(events[0].new_path, b"A.c".to_vec());
    assert_eq!(events[1].new_path, b"B.c".to_vec());
    assert_eq!(events[1].kind, ChangeKind::Modified);
}

#[test]
fn renames_split_into_exact_and_partial() {
    let out = b"R100\tX.c\tY.c\nR080\tA.c\tB.c\n";
    let exact = parse_changes(out, ChangeKind::RenamedExact);
    assert_eq!(exact.len(), 1);
    assert_eq!(exact[0].similarity, 100);
    assert_eq!(exact[0].old_path, b"X.c".to_vec());
    assert_eq!(exact[0].new_path, b"Y.c".to_vec());
    let partial = parse_changes(out, ChangeKind::RenamedPartial);
    assert_eq!(partial.len(), 1);
    assert_eq!(partial[0].similarity, 80);
    assert_eq!(partial[0].kind, ChangeKind::RenamedPartial);
    assert_eq!(partial[0].old_path, b"A.c".to_vec());
}

#[test]
fn malformed_rename_lines_are_skipped() {
    assert_eq!(parse_rename_line(b"R080 A.c"), None);
    assert_eq!(parse_rename_line(b"M A.c B.c"), None);
    assert_eq!(parse_rename_line(b"R101 A.c B.c"), None);
    assert_eq!(parse_rename_line(b"R8x A.c B.c"), None);
    assert_eq!(parse_changes(b"garbage\nR075 a b\n", ChangeKind::RenamedPartial).len(), 1);
}

#[test]
fn score_values() {
    assert_eq!(parse_score(b"R100"), Some(100));
    assert_eq!(parse_score(b"R075"), Some(75));
    assert_eq!(parse_score(b"R9"), Some(9));
    assert_eq!(parse_score(b"R"), None);
    assert_eq!(parse_score(b"R1000"), None);
}

#[test]
fn query_arguments_for_additions() {
    let args = show_no_format(b"abc123", ChangeKind::Added, &Some(b"Ibv/Ovrd".to_vec()), true);
    assert_eq!(
        strs(args),
        vec!["show", "--format=", "--name-only", "--find-renames=75%", "--diff-filter=A", "abc123", "--", ":!:Ibv/Ovrd"]
    );
}

#[test]
fn query_arguments_for_exact_renames() {
    let args = show_no_format(b"HEAD", ChangeKind::RenamedExact, &None, false);
    assert_eq!(
        strs(args),
        vec!["show", "--format=", "--name-status", "--find-renames=100%", "--diff-filter=R", "HEAD"]
    );
    let args = show_no_format(b"HEAD", ChangeKind::RenamedPartial, &Some(b"L".to_vec()), false);
    assert_eq!(
        strs(args),
        vec!["show", "--format=", "--name-status", "--find-renames=75%", "--diff-filter=R", "HEAD", "--", "L"]
    );
}

#[test]
fn revision_paths() {
    assert_eq!(create_file_from(b"abc", false, b"Foo/Bar.c"), b"abc:Foo/Bar.c".to_vec());
    assert_eq!(create_file_from(b"abc", true, b"Foo/Bar.c"), b"abc~:Foo/Bar.c".to_vec());
}
