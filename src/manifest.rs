use vstd::prelude::*;

use crate::text::{copy_range, find_byte, lower, lines_of, strip_cr, push_all, split_lines, starts_with_ci, starts_with_ignore_case, views, CR, LF};

verus! {

pub const QUOTE: u8 = 34;

pub const SLASH: u8 = 47;

pub const SEMICOLON: u8 = 59;

/// The token that closes a component of the manifest, in lower case.
pub open spec fn end_component_tag() -> Seq<u8> {
    seq![60u8, 101u8, 110u8, 100u8, 99u8, 111u8, 109u8, 112u8, 111u8, 110u8, 101u8, 110u8, 116u8, 62u8]
}

pub fn end_component() -> (r: Vec<u8>)
    ensures
        r@ == end_component_tag(),
{
    vec![60u8, 101u8, 110u8, 100u8, 99u8, 111u8, 109u8, 112u8, 111u8, 110u8, 101u8, 110u8, 116u8, 62u8]
}

/// A line that closes a component: it begins with the tag, in any case.
pub open spec fn is_terminator(line: Seq<u8>) -> bool {
    starts_with_ci(line, end_component_tag())
}

/// Where an override of `src` lives, relative to the parent of the destination directory.
pub open spec fn dest_path(dest_dir: Seq<u8>, src: Seq<u8>) -> Seq<u8> {
    dest_dir + seq![SLASH] + src
}

pub open spec fn quoted(p: Seq<u8>) -> Seq<u8> {
    seq![QUOTE] + p + seq![QUOTE]
}

/// The manifest line that declares the override of `src` in `dest_dir`:
/// `"<dest_dir>/<src>";"<src>"`.
pub open spec fn declaration(dest_dir: Seq<u8>, src: Seq<u8>) -> Seq<u8> {
    quoted(dest_path(dest_dir, src)) + seq![SEMICOLON] + quoted(src)
}

/// `line` declares an override whose destination field is `dest`, ignoring ASCII case.
pub open spec fn declares(line: Seq<u8>, dest: Seq<u8>) -> bool {
    starts_with_ci(line, quoted(dest))
}

/// The bytes of a manifest: each line followed by a carriage return and a line feed.
pub open spec fn render_lines(lines: Seq<Seq<u8>>) -> Seq<u8>
    decreases lines.len(),
{
    if lines.len() == 0 {
        Seq::empty()
    } else {
        render_lines(lines.drop_last()) + lines.last() + seq![CR, LF]
    }
}

/// Index of the first terminator line at or after `i`; `lines.len()` where there is none.
pub open spec fn first_terminator_from(lines: Seq<Seq<u8>>, i: int) -> int
    decreases lines.len() - i,
{
    if i >= lines.len() {
        lines.len() as int
    } else if is_terminator(lines[i]) {
        i
    } else {
        first_terminator_from(lines, i + 1)
    }
}

pub open spec fn first_terminator(lines: Seq<Seq<u8>>) -> int {
    first_terminator_from(lines, 0)
}

/// The lines that do not declare `dest`, in their order.
pub open spec fn without(lines: Seq<Seq<u8>>, dest: Seq<u8>) -> Seq<Seq<u8>>
    decreases lines.len(),
{
    if lines.len() == 0 {
        Seq::empty()
    } else if declares(lines.last(), dest) {
        without(lines.drop_last(), dest)
    } else {
        without(lines.drop_last(), dest).push(lines.last())
    }
}

/// How many lines declare `dest`.
pub open spec fn count_declaring(lines: Seq<Seq<u8>>, dest: Seq<u8>) -> nat
    decreases lines.len(),
{
    if lines.len() == 0 {
        0
    } else if declares(lines.last(), dest) {
        count_declaring(lines.drop_last(), dest) + 1
    } else {
        count_declaring(lines.drop_last(), dest)
    }
}

/// Each line that declares `dest` put in the place of `line`; the others kept.
pub open spec fn replaced(lines: Seq<Seq<u8>>, dest: Seq<u8>, line: Seq<u8>) -> Seq<Seq<u8>> {
    lines.map_values(|l: Seq<u8>| if declares(l, dest) { line } else { l })
}

/// `<dest_dir>/<src>`.
pub fn dest_path_of(dest_dir: &[u8], src: &[u8]) -> (r: Vec<u8>)
    ensures
        r@ == dest_path(dest_dir@, src@),
{
    let mut r: Vec<u8> = Vec::new();
    push_all(&mut r, dest_dir);
    r.push(SLASH);
    push_all(&mut r, src);
    assert(r@ =~= dest_path(dest_dir@, src@));
    r
}

/// `"<p>"`.
pub fn quote(p: &[u8]) -> (r: Vec<u8>)
    ensures
        r@ == quoted(p@),
{
    let mut r: Vec<u8> = Vec::new();
    r.push(QUOTE);
    push_all(&mut r, p);
    r.push(QUOTE);
    assert(r@ =~= quoted(p@));
    r
}

/// The line that declares the override of `src` in `dest_dir`.
pub fn declaration_line(dest_dir: &[u8], src: &[u8]) -> (r: Vec<u8>)
    ensures
        r@ == declaration(dest_dir@, src@),
{
    let d = dest_path_of(dest_dir, src);
    let mut r = quote(d.as_slice());
    r.push(SEMICOLON);
    let q = quote(src);
    push_all(&mut r, q.as_slice());
    assert(r@ =~= declaration(dest_dir@, src@));
    r
}

pub fn is_terminator_line(line: &[u8]) -> (r: bool)
    ensures
        r == is_terminator(line@),
{
    let tag = end_component();
    starts_with_ignore_case(line, tag.as_slice())
}

proof fn lemma_first_terminator(lines: Seq<Seq<u8>>, i: int, m: int)
    requires
        0 <= i <= m <= lines.len(),
        forall|j: int| i <= j < m ==> !is_terminator(#[trigger] lines[j]),
        m == lines.len() || is_terminator(lines[m]),
    ensures
        first_terminator_from(lines, i) == m,
    decreases m - i,
{
    if i < m {
        lemma_first_terminator(lines, i + 1, m);
    }
}

/// The override manifest: its lines, without their line terminators.
pub struct Manifest {
    lines: Vec<Vec<u8>>,
}

impl View for Manifest {
    type V = Seq<Seq<u8>>;

    closed spec fn view(&self) -> Seq<Seq<u8>> {
        views(self.lines@)
    }
}

impl Manifest {
    /// Reads a manifest from its bytes.
    pub fn parse(text: &[u8]) -> (r: Manifest)
        ensures
            r@ == lines_of(text@),
    {
        Manifest { lines: split_lines(text) }
    }

    /// A text of the given lines.
    pub fn from_lines(lines: Vec<Vec<u8>>) -> (r: Manifest)
        ensures
            r@ == views(lines@),
    {
        Manifest { lines }
    }

    pub fn len(&self) -> (r: usize)
        ensures
            r == self@.len(),
    {
        self.lines.len()
    }

    /// The line at `i`.
    pub fn line(&self, i: usize) -> (r: Vec<u8>)
        requires
            i < self@.len(),
        ensures
            r@ == self@[i as int],
    {
        copy_range(self.lines[i].as_slice(), 0, self.lines[i].len())
    }

    /// The bytes of the manifest, each line ended by a carriage return and a line feed.
    pub fn render(&self) -> (r: Vec<u8>)
        ensures
            r@ == render_lines(self@),
    {
        let mut r: Vec<u8> = Vec::new();
        let mut i: usize = 0;
        while i < self.lines.len()
            invariant
                i <= self@.len(),
                r@ == render_lines(self@.subrange(0, i as int)),
            decreases self@.len() - i,
        {
            push_all(&mut r, self.lines[i].as_slice());
            r.push(CR);
            r.push(LF);
            proof {
                let s = self@.subrange(0, i + 1);
                assert(s.drop_last() =~= self@.subrange(0, i as int));
                assert(r@ =~= render_lines(s));
            }
            i = i + 1;
        }
        assert(self@.subrange(0, self@.len() as int) =~= self@);
        r
    }

    /// Index of the first line that closes a component, or the number of lines.
    pub fn find_terminator(&self) -> (r: usize)
        ensures
            r == first_terminator(self@),
    {
        let mut i: usize = 0;
        while i < self.lines.len() && !is_terminator_line(self.lines[i].as_slice())
            invariant
                i <= self@.len(),
                forall|j: int| 0 <= j < i ==> !is_terminator(#[trigger] self@[j]),
            decreases self@.len() - i,
        {
            i = i + 1;
        }
        proof {
            lemma_first_terminator(self@, 0, i as int);
        }
        i
    }

    /// Inserts `line` just before the first line that closes a component. Where no
    /// line closes one, the manifest is left as it is and `false` is returned.
    pub fn append(&mut self, line: Vec<u8>) -> (r: bool)
        ensures
            r == (first_terminator(old(self)@) < old(self)@.len()),
            r ==> final(self)@ == old(self)@.insert(first_terminator(old(self)@), line@),
            !r ==> final(self)@ == old(self)@,
            final(self)@ == appended(old(self)@, line@),
            r ==> final(self)@.len() == old(self)@.len() + 1,
    {
        let i = self.find_terminator();
        if i < self.lines.len() {
            let ghost line_v = line@;
            self.lines.insert(i, line);
            assert(self@ =~= old(self)@.insert(i as int, line_v));
            true
        } else {
            false
        }
    }

    /// Drops every line that declares `dest`; returns how many were dropped.
    pub fn remove(&mut self, dest: &[u8]) -> (r: usize)
        ensures
            final(self)@ == without(old(self)@, dest@),
            r == count_declaring(old(self)@, dest@),
    {
        let q = quote(dest);
        let mut kept: Vec<Vec<u8>> = Vec::new();
        let mut n: usize = 0;
        let mut i: usize = 0;
        while i < self.lines.len()
            invariant
                q@ == quoted(dest@),
                i <= self@.len(),
                views(kept@) == without(self@.subrange(0, i as int), dest@),
                n == count_declaring(self@.subrange(0, i as int), dest@),
                n <= i,
            decreases self@.len() - i,
        {
            let ghost before = views(kept@);
            let ghost s = self@.subrange(0, i + 1);
            assert(s.drop_last() =~= self@.subrange(0, i as int));
            if starts_with_ignore_case(self.lines[i].as_slice(), q.as_slice()) {
                n = n + 1;
            } else {
                let l = copy_range(self.lines[i].as_slice(), 0, self.lines[i].len());
                kept.push(l);
                assert(self.lines[i as int]@.subrange(0, self.lines[i as int]@.len() as int) =~= self@[i as int]);
                assert(views(kept@) =~= before.push(self@[i as int]));
            }
            i = i + 1;
        }
        assert(self@.subrange(0, self@.len() as int) =~= self@);
        self.lines = kept;
        n
    }

    /// Puts `line` in the place of each line that declares `dest`; returns how many were replaced.
    pub fn replace(&mut self, dest: &[u8], line: &[u8]) -> (r: usize)
        ensures
            final(self)@ == replaced(old(self)@, dest@, line@),
            r == count_declaring(old(self)@, dest@),
    {
        let q = quote(dest);
        let mut out: Vec<Vec<u8>> = Vec::new();
        let mut n: usize = 0;
        let mut i: usize = 0;
        while i < self.lines.len()
            invariant
                q@ == quoted(dest@),
                i <= self@.len(),
                views(out@) == replaced(self@.subrange(0, i as int), dest@, line@),
                n == count_declaring(self@.subrange(0, i as int), dest@),
                n <= i,
            decreases self@.len() - i,
        {
            let ghost before = views(out@);
            let ghost s = self@.subrange(0, i + 1);
            assert(s.drop_last() =~= self@.subrange(0, i as int));
            assert(self@[i as int] == self.lines[i as int]@);
            assert forall|j: int| 0 <= j < i implies #[trigger] replaced(s, dest@, line@)[j] == before[j] by {
                assert(s[j] == self@.subrange(0, i as int)[j]);
            }
            if starts_with_ignore_case(self.lines[i].as_slice(), q.as_slice()) {
                n = n + 1;
                let l = copy_range(line, 0, line.len());
                out.push(l);
                assert(line@.subrange(0, line@.len() as int) =~= line@);
                assert(views(out@) =~= before.push(line@));
            } else {
                let l = copy_range(self.lines[i].as_slice(), 0, self.lines[i].len());
                out.push(l);
                assert(self.lines[i as int]@.subrange(0, self.lines[i as int]@.len() as int) =~= self@[i as int]);
                assert(views(out@) =~= before.push(self@[i as int]));
            }
            assert(views(out@) =~= replaced(s, dest@, line@));
            i = i + 1;
        }
        assert(self@.subrange(0, self@.len() as int) =~= self@);
        self.lines = out;
        n
    }

    /// How many lines declare `dest`.
    pub fn count_declarations(&self, dest: &[u8]) -> (r: usize)
        ensures
            r == count_declaring(self@, dest@),
    {
        let q = quote(dest);
        let mut n: usize = 0;
        let mut i: usize = 0;
        while i < self.lines.len()
            invariant
                q@ == quoted(dest@),
                i <= self@.len(),
                n == count_declaring(self@.subrange(0, i as int), dest@),
                n <= i,
            decreases self@.len() - i,
        {
            let ghost s = self@.subrange(0, i + 1);
            assert(s.drop_last() =~= self@.subrange(0, i as int));
            if starts_with_ignore_case(self.lines[i].as_slice(), q.as_slice()) {
                n = n + 1;
            }
            i = i + 1;
        }
        assert(self@.subrange(0, self@.len() as int) =~= self@);
        n
    }
}

/// The lines of `lines` once `line` is inserted before the first terminator, where there is one.
pub open spec fn appended(lines: Seq<Seq<u8>>, line: Seq<u8>) -> Seq<Seq<u8>> {
    if first_terminator(lines) < lines.len() {
        lines.insert(first_terminator(lines), line)
    } else {
        lines
    }
}

/// A declaration declares its own destination.
pub proof fn lemma_declaration_declares(dest_dir: Seq<u8>, src: Seq<u8>)
    ensures
        declares(declaration(dest_dir, src), dest_path(dest_dir, src)),
{
    let d = declaration(dest_dir, src);
    let q = quoted(dest_path(dest_dir, src));
    assert forall|i: int| 0 <= i < q.len() implies lower(#[trigger] d[i]) == lower(q[i]) by {
        assert(d[i] == q[i]);
    }
}

proof fn lemma_without_none(lines: Seq<Seq<u8>>, dest: Seq<u8>)
    requires
        forall|i: int| 0 <= i < lines.len() ==> !declares(#[trigger] lines[i], dest),
    ensures
        without(lines, dest) == lines,
    decreases lines.len(),
{
    if lines.len() > 0 {
        let d = lines.drop_last();
        assert forall|i: int| 0 <= i < d.len() implies !declares(#[trigger] d[i], dest) by {
            assert(d[i] == lines[i]);
        }
        lemma_without_none(d, dest);
        assert(d.push(lines.last()) =~= lines);
    }
}

proof fn lemma_without_insert(lines: Seq<Seq<u8>>, dest: Seq<u8>, i: int, line: Seq<u8>)
    requires
        0 <= i <= lines.len(),
        declares(line, dest),
    ensures
        without(lines.insert(i, line), dest) == without(lines, dest),
    decreases lines.len(),
{
    let ins = lines.insert(i, line);
    if i == lines.len() {
        assert(ins.drop_last() =~= lines);
    } else {
        assert(ins.drop_last() =~= lines.drop_last().insert(i, line));
        assert(ins.last() == lines.last());
        lemma_without_insert(lines.drop_last(), dest, i, line);
    }
}

/// Appending the declaration of an override and then removing the declarations of
/// its destination gives back the manifest, byte for byte, when no line declared
/// that destination before.
pub proof fn lemma_append_remove_round_trip(lines: Seq<Seq<u8>>, dest_dir: Seq<u8>, src: Seq<u8>)
    requires
        forall|i: int| 0 <= i < lines.len() ==> !declares(#[trigger] lines[i], dest_path(dest_dir, src)),
    ensures
        without(appended(lines, declaration(dest_dir, src)), dest_path(dest_dir, src)) == lines,
        render_lines(without(appended(lines, declaration(dest_dir, src)), dest_path(dest_dir, src)))
            == render_lines(lines),
{
    let dest = dest_path(dest_dir, src);
    lemma_declaration_declares(dest_dir, src);
    lemma_without_none(lines, dest);
    if first_terminator(lines) < lines.len() {
        assert(0 <= first_terminator(lines)) by {
            lemma_first_terminator_bounds(lines, 0);
        }
        lemma_without_insert(lines, dest, first_terminator(lines), declaration(dest_dir, src));
    }
}

proof fn lemma_first_terminator_bounds(lines: Seq<Seq<u8>>, i: int)
    requires
        0 <= i,
    ensures
        i <= first_terminator_from(lines, i) || first_terminator_from(lines, i) == lines.len(),
        0 <= first_terminator_from(lines, i) <= lines.len() || i > lines.len(),
    decreases lines.len() - i,
{
    if i < lines.len() && !is_terminator(lines[i]) {
        lemma_first_terminator_bounds(lines, i + 1);
    }
}

proof fn lemma_replace_counts(lines: Seq<Seq<u8>>, old_dest: Seq<u8>, new_dest: Seq<u8>, line: Seq<u8>)
    requires
        count_declaring(lines, new_dest) == 0,
        declares(line, new_dest),
        !declares(line, old_dest),
    ensures
        count_declaring(replaced(lines, old_dest, line), new_dest) == count_declaring(lines, old_dest),
        count_declaring(replaced(lines, old_dest, line), old_dest) == 0,
    decreases lines.len(),
{
    if lines.len() > 0 {
        let r = replaced(lines, old_dest, line);
        assert(r.drop_last() =~= replaced(lines.drop_last(), old_dest, line));
        lemma_replace_counts(lines.drop_last(), old_dest, new_dest, line);
    }
}

/// Replacing the declaration of `old_src` by that of `new_src` leaves exactly one
/// declaration of the new destination and none of the old, when the manifest held
/// one declaration of the old destination, none of the new, and the two
/// destinations differ.
pub proof fn lemma_replace_declaration(lines: Seq<Seq<u8>>, dest_dir: Seq<u8>, old_src: Seq<u8>, new_src: Seq<u8>)
    requires
        count_declaring(lines, dest_path(dest_dir, old_src)) == 1,
        count_declaring(lines, dest_path(dest_dir, new_src)) == 0,
        !declares(declaration(dest_dir, new_src), dest_path(dest_dir, old_src)),
    ensures
        count_declaring(
            replaced(lines, dest_path(dest_dir, old_src), declaration(dest_dir, new_src)),
            dest_path(dest_dir, new_src),
        ) == 1,
        count_declaring(
            replaced(lines, dest_path(dest_dir, old_src), declaration(dest_dir, new_src)),
            dest_path(dest_dir, old_src),
        ) == 0,
{
    lemma_declaration_declares(dest_dir, new_src);
    lemma_replace_counts(
        lines,
        dest_path(dest_dir, old_src),
        dest_path(dest_dir, new_src),
        declaration(dest_dir, new_src),
    );
}

proof fn lemma_render_front(l: Seq<u8>, rest: Seq<Seq<u8>>)
    ensures
        render_lines(seq![l] + rest) == l + seq![CR, LF] + render_lines(rest),
    decreases rest.len(),
{
    let s = seq![l] + rest;
    if rest.len() == 0 {
        assert(s.drop_last() =~= Seq::<Seq<u8>>::empty());
        assert(render_lines(s) =~= l + seq![CR, LF] + render_lines(rest));
    } else {
        assert(s.drop_last() =~= seq![l] + rest.drop_last());
        lemma_render_front(l, rest.drop_last());
        assert(s.last() == rest.last());
        assert(render_lines(s) == render_lines(s.drop_last()) + s.last() + seq![CR, LF]);
        assert(render_lines(rest) == render_lines(rest.drop_last()) + rest.last() + seq![CR, LF]);
        assert(render_lines(s) =~= l + seq![CR, LF] + render_lines(rest));
    }
}

proof fn lemma_lines_of_front(l: Seq<u8>, rest: Seq<u8>)
    requires
        forall|j: int| 0 <= j < l.len() ==> l[j] != LF,
    ensures
        lines_of(l + seq![CR, LF] + rest) == seq![l] + lines_of(rest),
{
    let t = l + seq![CR, LF] + rest;
    let k = l.len() as int + 1;
    assert(t[k] == LF);
    assert forall|j: int| 0 <= j < k implies t[j] != LF by {
        if j < l.len() {
            assert(t[j] == l[j]);
        } else {
            assert(t[j] == CR);
        }
    }
    lemma_find_byte_at(t, k);
    assert(t.subrange(0, k) =~= l.push(CR));
    assert(strip_cr(l.push(CR)) =~= l);
    assert(t.subrange(k + 1, t.len() as int) =~= rest);
}

proof fn lemma_find_byte_at(t: Seq<u8>, k: int)
    requires
        0 <= k < t.len(),
        t[k] == LF,
        forall|j: int| 0 <= j < k ==> t[j] != LF,
    ensures
        find_byte(t, LF, 0) == k,
{
    lemma_find_byte_from(t, 0, k);
}

proof fn lemma_find_byte_from(t: Seq<u8>, i: int, k: int)
    requires
        0 <= i <= k < t.len(),
        t[k] == LF,
        forall|j: int| 0 <= j < k ==> t[j] != LF,
    ensures
        find_byte(t, LF, i) == k,
    decreases k - i,
{
    if i < k {
        lemma_find_byte_from(t, i + 1, k);
    }
}

/// Reading back the bytes of a manifest gives its lines, when no line holds a line feed.
pub proof fn lemma_parse_render(lines: Seq<Seq<u8>>)
    requires
        forall|i: int, j: int| 0 <= i < lines.len() && 0 <= j < lines[i].len() ==> #[trigger] lines[i][j] != LF,
    ensures
        lines_of(render_lines(lines)) == lines,
    decreases lines.len(),
{
    if lines.len() > 0 {
        let rest = lines.subrange(1, lines.len() as int);
        assert(lines =~= seq![lines[0]] + rest);
        assert forall|i: int, j: int| 0 <= i < rest.len() && 0 <= j < rest[i].len() implies #[trigger] rest[i][j] != LF by {
            assert(rest[i] == lines[i + 1]);
        }
        lemma_parse_render(rest);
        lemma_render_front(lines[0], rest);
        assert forall|j: int| 0 <= j < lines[0].len() implies lines[0][j] != LF by {
            assert(lines[0][j] == lines[0][j]);
        }
        lemma_lines_of_front(lines[0], render_lines(rest));
    }
}

/// For a manifest file as this library writes it, appending the declaration of an
/// override and then removing the declarations of its destination gives back the
/// file byte for byte, when no line declared that destination before.
pub proof fn lemma_file_round_trip(lines: Seq<Seq<u8>>, dest_dir: Seq<u8>, src: Seq<u8>)
    requires
        forall|i: int, j: int| 0 <= i < lines.len() && 0 <= j < lines[i].len() ==> #[trigger] lines[i][j] != LF,
        forall|i: int| 0 <= i < lines.len() ==> !declares(#[trigger] lines[i], dest_path(dest_dir, src)),
    ensures
        render_lines(
            without(appended(lines_of(render_lines(lines)), declaration(dest_dir, src)), dest_path(dest_dir, src)),
        ) == render_lines(lines),
{
    lemma_parse_render(lines);
    lemma_append_remove_round_trip(lines, dest_dir, src);
}

} // verus!
