use fwto::manifest::{declaration_line, Manifest};
use fwto::ovrd::Ovrd;

fn lines(m: &Manifest) -> Vec<Vec<u8>> {
    (0..m.len()).map(|i| m.line(i)).collect()
}

#[test]
fn append_inserts_before_end_component() {
    let text = b"<Component>\r\nname = \"Oem\"\r\n<EndComponent>\r\n";
    let mut m = Manifest::parse(text);
    let ovrd = Ovrd::new(b"Foo/Bar.c", false, false);
    assert!(ovrd.override_add(&mut m, b"OEM", true));
    assert_eq!(
        m.render(),
        b"<Component>\r\nname = \"Oem\"\r\n\"OEM/Foo/Bar.c\";\"Foo/Bar.c\"\r\n<EndComponent>\r\n".to_vec()
    );
}

#[test]
fn append_uses_first_terminator_only() {
    let text = b"a\r\n<ENDCOMPONENT>\r\nb\r\n<endcomponent>\r\n";
    let mut m = Manifest::parse(text);
    assert!(m.append(b"x".to_vec()));
    assert_eq!(m.render(), b"a\r\nx\r\n<ENDCOMPONENT>\r\nb\r\n<endcomponent>\r\n".to_vec());
}

#[test]
fn append_without_terminator_changes_nothing() {
    let mut m = Manifest::parse(b"a\r\nb\r\n");
    assert!(!m.append(b"x".to_vec()));
    assert_eq!(m.render(), b"a\r\nb\r\n".to_vec());
}

#[test]
fn append_when_not_first_time_changes_nothing() {
    let mut m = Manifest::parse(b"<EndComponent>\r\n");
    let ovrd = Ovrd::new(b"Foo/Bar.c", false, false);
    assert!(!ovrd.override_add(&mut m, b"OEM", false));
    assert_eq!(m.render(), b"<EndComponent>\r\n".to_vec());
}

#[test]
fn append_then_remove_restores_bytes() {
    let text = b"<Component>\r\n\"OEM/x.c\";\"x.c\"\r\n<EndComponent>\r\n";
    let mut m = Manifest::parse(text);
    let ovrd = Ovrd::new(b"Foo/Bar.c", false, false);
    assert!(ovrd.override_add(&mut m, b"OEM", true));
    assert_eq!(ovrd.override_del(&mut m, b"OEM"), 1);
    assert_eq!(m.render(), text.to_vec());
}

#[test]
fn remove_ignores_case_and_keeps_others() {
    let text = b"\"OEM/Foo/Bar.c\";\"Foo/Bar.c\"\r\n\"oem/foo/bar.C\";\"foo/bar.C\"\r\n\"OEM/Foo/Bar.cpp\";\"Foo/Bar.cpp\"\r\n<EndComponent>\r\n";
    let mut m = Manifest::parse(text);
    assert_eq!(m.remove(b"OEM/Foo/Bar.c"), 2);
    assert_eq!(m.render(), b"\"OEM/Foo/Bar.cpp\";\"Foo/Bar.cpp\"\r\n<EndComponent>\r\n".to_vec());
}

#[test]
fn replace_swaps_declaration() {
    let text = b"\"OEM/A.c\";\"A.c\"\r\nkeep\r\n<EndComponent>\r\n";
    let mut m = Manifest::parse(text);
    let old = Ovrd::new(b"A.c", false, false);
    let new = Ovrd::new(b"B.c", false, false);
    assert_eq!(old.override_replace_with(&new, &mut m, b"OEM"), 1);
    assert_eq!(m.render(), b"\"OEM/B.c\";\"B.c\"\r\nkeep\r\n<EndComponent>\r\n".to_vec());
    assert_eq!(m.count_declarations(b"OEM/B.c"), 1);
    assert_eq!(m.count_declarations(b"OEM/A.c"), 0);
}

#[test]
fn parse_handles_lf_and_crlf() {
    let m = Manifest::parse(b"a\nb\r\n\r\nc");
    assert_eq!(lines(&m), vec![b"a".to_vec(), b"b".to_vec(), b"".to_vec(), b"c".to_vec()]);
    assert_eq!(m.render(), b"a\r\nb\r\n\r\nc\r\n".to_vec());
}

#[test]
fn parse_empty_text() {
    let m = Manifest::parse(b"");
    assert_eq!(m.len(), 0);
    assert_eq!(m.render(), Vec::<u8>::new());
}

#[test]
fn declaration_line_format() {
    assert_eq!(declaration_line(b"OEM", b"Foo/Bar.c"), b"\"OEM/Foo/Bar.c\";\"Foo/Bar.c\"".to_vec());
}

#[test]
fn lines_render_with_crlf() {
    let m = Manifest::from_lines(vec![b"R80 A.c B.c".to_vec(), b"R76 C.c D.c".to_vec()]);
    assert_eq!(m.render(), b"R80 A.c B.c\r\nR76 C.c D.c\r\n".to_vec());
}
