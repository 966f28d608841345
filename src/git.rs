use vstd::prelude::*;

use crate::text::{copy_range, lines_of, push_all, split_lines, split_words, views, words_of};

verus! {

/// `show`: the subcommand that shows a revision.
pub open spec fn show() -> Seq<u8> {
    seq![115u8, 104u8, 111u8, 119u8]
}

pub fn show_bytes() -> (r: Vec<u8>)
    ensures
        r@ == show(),
{
    vec![115u8, 104u8, 111u8, 119u8]
}

/// `--format=`: an empty commit header.
pub open spec fn format_none() -> Seq<u8> {
    seq![45u8, 45u8, 102u8, 111u8, 114u8, 109u8, 97u8, 116u8, 61u8]
}

pub fn format_none_bytes() -> (r: Vec<u8>)
    ensures
        r@ == format_none(),
{
    vec![45u8, 45u8, 102u8, 111u8, 114u8, 109u8, 97u8, 116u8, 61u8]
}

/// `--name-only`: paths alone.
pub open spec fn name_only() -> Seq<u8> {
    seq![45u8, 45u8, 110u8, 97u8, 109u8, 101u8, 45u8, 111u8, 110u8, 108u8, 121u8]
}

pub fn name_only_bytes() -> (r: Vec<u8>)
    ensures
        r@ == name_only(),
{
    vec![45u8, 45u8, 110u8, 97u8, 109u8, 101u8, 45u8, 111u8, 110u8, 108u8, 121u8]
}

/// `--name-status`: paths with their status.
pub open spec fn name_status() -> Seq<u8> {
    seq![45u8, 45u8, 110u8, 97u8, 109u8, 101u8, 45u8, 115u8, 116u8, 97u8, 116u8, 117u8, 115u8]
}

pub fn name_status_bytes() -> (r: Vec<u8>)
    ensures
        r@ == name_status(),
{
    vec![45u8, 45u8, 110u8, 97u8, 109u8, 101u8, 45u8, 115u8, 116u8, 97u8, 116u8, 117u8, 115u8]
}

/// `--find-renames=`: the rename threshold option.
pub open spec fn find_renames() -> Seq<u8> {
    seq![45u8, 45u8, 102u8, 105u8, 110u8, 100u8, 45u8, 114u8, 101u8, 110u8, 97u8, 109u8, 101u8, 115u8, 61u8]
}

pub fn find_renames_bytes() -> (r: Vec<u8>)
    ensures
        r@ == find_renames(),
{
    vec![45u8, 45u8, 102u8, 105u8, 110u8, 100u8, 45u8, 114u8, 101u8, 110u8, 97u8, 109u8, 101u8, 115u8, 61u8]
}

/// `--diff-filter=`: the status filter option.
pub open spec fn diff_filter() -> Seq<u8> {
    seq![45u8, 45u8, 100u8, 105u8, 102u8, 102u8, 45u8, 102u8, 105u8, 108u8, 116u8, 101u8, 114u8, 61u8]
}

pub fn diff_filter_bytes() -> (r: Vec<u8>)
    ensures
        r@ == diff_filter(),
{
    vec![45u8, 45u8, 100u8, 105u8, 102u8, 102u8, 45u8, 102u8, 105u8, 108u8, 116u8, 101u8, 114u8, 61u8]
}

/// `--`: the end of options; paths follow.
pub open spec fn dashes() -> Seq<u8> {
    seq![45u8, 45u8]
}

pub fn dashes_bytes() -> (r: Vec<u8>)
    ensures
        r@ == dashes(),
{
    vec![45u8, 45u8]
}

/// `:!:`: the magic that excludes a path.
pub open spec fn exclude_magic() -> Seq<u8> {
    seq![58u8, 33u8, 58u8]
}

pub fn exclude_magic_bytes() -> (r: Vec<u8>)
    ensures
        r@ == exclude_magic(),
{
    vec![58u8, 33u8, 58u8]
}

/// `75%`: the least similarity of a reported rename.
pub open spec fn partial_threshold() -> Seq<u8> {
    seq![55u8, 53u8, 37u8]
}

pub fn partial_threshold_bytes() -> (r: Vec<u8>)
    ensures
        r@ == partial_threshold(),
{
    vec![55u8, 53u8, 37u8]
}

/// `100%`: the similarity of an exact rename.
pub open spec fn exact_threshold() -> Seq<u8> {
    seq![49u8, 48u8, 48u8, 37u8]
}

pub fn exact_threshold_bytes() -> (r: Vec<u8>)
    ensures
        r@ == exact_threshold(),
{
    vec![49u8, 48u8, 48u8, 37u8]
}

/// The status of a path between a revision and its parent.
#[derive(Clone, Copy, Debug, PartialEq, Eq, Structural)]
pub enum ChangeKind {
    Added,
    Deleted,
    Modified,
    /// Renamed with its content unchanged.
    RenamedExact,
    /// Renamed with its content changed, yet similar above the threshold.
    RenamedPartial,
}

/// A path that changed between a revision and its parent. For a rename the
/// similarity is a percentage and the two paths differ; otherwise the similarity
/// is zero and the two paths are the same.
#[derive(Debug, PartialEq, Eq)]
pub struct ChangeEvent {
    pub kind: ChangeKind,
    pub similarity: u32,
    pub old_path: Vec<u8>,
    pub new_path: Vec<u8>,
}

/// What a [`ChangeEvent`] stands for.
pub struct Change {
    pub kind: ChangeKind,
    pub similarity: nat,
    pub old_path: Seq<u8>,
    pub new_path: Seq<u8>,
}

impl ChangeEvent {
    pub open spec fn model(&self) -> Change {
        Change {
            kind: self.kind,
            similarity: self.similarity as nat,
            old_path: self.old_path@,
            new_path: self.new_path@,
        }
    }
}

pub open spec fn models(r: Seq<ChangeEvent>) -> Seq<Change> {
    r.map_values(|e: ChangeEvent| e.model())
}

pub open spec fn is_rename(kind: ChangeKind) -> bool {
    kind == ChangeKind::RenamedExact || kind == ChangeKind::RenamedPartial
}

/// The letter that selects a status in the version-control query.
pub open spec fn status_letter(kind: ChangeKind) -> u8 {
    match kind {
        ChangeKind::Added => 65,
        ChangeKind::Deleted => 68,
        ChangeKind::Modified => 77,
        _ => 82,
    }
}

/// The arguments of the query that lists the paths of one status in `commit`,
/// restricted to the paths under `scope`, or to all others where `exclude`.
pub open spec fn query_args(commit: Seq<u8>, kind: ChangeKind, scope: Option<Seq<u8>>, exclude: bool) -> Seq<Seq<u8>> {
    let head = seq![
        show(),
        format_none(),
        if is_rename(kind) { name_status() } else { name_only() },
        find_renames() + if kind == ChangeKind::RenamedExact { exact_threshold() } else { partial_threshold() },
        diff_filter() + seq![status_letter(kind)],
        commit,
    ];
    match scope {
        Some(d) => head + seq![dashes(), if exclude { exclude_magic() + d } else { d }],
        None => head,
    }
}

/// `<commit>:<path>`, or `<commit>~:<path>` for the parent of `commit`.
pub open spec fn revision_path(commit: Seq<u8>, parent: bool, path: Seq<u8>) -> Seq<u8> {
    commit + if parent { seq![126u8] } else { Seq::empty() } + seq![58u8] + path
}

/// The changes that a list of paths of one status gives; empty lines give none.
pub open spec fn path_changes(lines: Seq<Seq<u8>>, kind: ChangeKind) -> Seq<Change>
    decreases lines.len(),
{
    if lines.len() == 0 {
        Seq::empty()
    } else if lines.last().len() == 0 {
        path_changes(lines.drop_last(), kind)
    } else {
        path_changes(lines.drop_last(), kind).push(
            Change { kind, similarity: 0, old_path: lines.last(), new_path: lines.last() },
        )
    }
}

pub open spec fn is_digit(c: u8) -> bool {
    48 <= c <= 57
}

/// The number that decimal digits write.
pub open spec fn digits_value(d: Seq<u8>) -> nat
    decreases d.len(),
{
    if d.len() == 0 {
        0
    } else {
        digits_value(d.drop_last()) * 10 + (d.last() - 48) as nat
    }
}

/// The similarity that a status word such as `R086` gives: `R` and one to three
/// digits that write at most 100.
pub open spec fn score(w: Seq<u8>) -> Option<nat> {
    if 2 <= w.len() <= 4 && w[0] == 82 && (forall|i: int| 1 <= i < w.len() ==> is_digit(#[trigger] w[i]))
        && digits_value(w.subrange(1, w.len() as int)) <= 100 {
        Some(digits_value(w.subrange(1, w.len() as int)))
    } else {
        None
    }
}

/// The rename that a line `<status> <old path> <new path>` reports, where it is
/// well formed.
pub open spec fn rename_change(line: Seq<u8>) -> Option<Change> {
    let w = words_of(line);
    if w.len() >= 3 && score(w[0]) is Some {
        let v = score(w[0])->0;
        Some(
            Change {
                kind: if v == 100 { ChangeKind::RenamedExact } else { ChangeKind::RenamedPartial },
                similarity: v,
                old_path: w[1],
                new_path: w[2],
            },
        )
    } else {
        None
    }
}

/// The renames of one kind that the lines report.
pub open spec fn rename_changes(lines: Seq<Seq<u8>>, kind: ChangeKind) -> Seq<Change>
    decreases lines.len(),
{
    if lines.len() == 0 {
        Seq::empty()
    } else {
        let p = rename_changes(lines.drop_last(), kind);
        match rename_change(lines.last()) {
            Some(c) => if c.kind == kind { p.push(c) } else { p },
            None => p,
        }
    }
}

/// The changes of one kind that the output of its query reports.
pub open spec fn changes_of(output: Seq<u8>, kind: ChangeKind) -> Seq<Change> {
    if is_rename(kind) {
        rename_changes(lines_of(output), kind)
    } else {
        path_changes(lines_of(output), kind)
    }
}

/// The letter of a status, in the query.
pub fn status_letter_of(kind: ChangeKind) -> (r: u8)
    ensures
        r == status_letter(kind),
{
    match kind {
        ChangeKind::Added => 65,
        ChangeKind::Deleted => 68,
        ChangeKind::Modified => 77,
        _ => 82,
    }
}

/// The arguments of the version-control query for the paths of one status in
/// `commit`; `scope`, where given, is a directory in slash form.
pub fn show_no_format(commit: &[u8], kind: ChangeKind, scope: &Option<Vec<u8>>, exclude: bool) -> (r: Vec<Vec<u8>>)
    ensures
        views(r@) == query_args(commit@, kind, crate::ovrd::opt_view(*scope), exclude),
{
    let mut r: Vec<Vec<u8>> = Vec::new();
    r.push(show_bytes());
    r.push(format_none_bytes());
    let renames = match kind {
        ChangeKind::RenamedExact => true,
        ChangeKind::RenamedPartial => true,
        _ => false,
    };
    if renames {
        r.push(name_status_bytes());
    } else {
        r.push(name_only_bytes());
    }
    let mut fr = find_renames_bytes();
    let t = match kind {
        ChangeKind::RenamedExact => exact_threshold_bytes(),
        _ => partial_threshold_bytes(),
    };
    push_all(&mut fr, t.as_slice());
    r.push(fr);
    let mut df = diff_filter_bytes();
    df.push(status_letter_of(kind));
    r.push(df);
    r.push(copy_range(commit, 0, commit.len()));
    assert(commit@.subrange(0, commit@.len() as int) =~= commit@);
    assert(t@ == if kind == ChangeKind::RenamedExact { exact_threshold() } else { partial_threshold() });
    assert(df@ =~= diff_filter() + seq![status_letter(kind)]);
    let ghost head = seq![
        show(),
        format_none(),
        if is_rename(kind) { name_status() } else { name_only() },
        find_renames() + if kind == ChangeKind::RenamedExact { exact_threshold() } else { partial_threshold() },
        diff_filter() + seq![status_letter(kind)],
        commit@,
    ];
    assert(views(r@) =~= head);
    match scope {
        Some(d) => {
            r.push(dashes_bytes());
            let mut p: Vec<u8> = Vec::new();
            if exclude {
                p = exclude_magic_bytes();
            }
            push_all(&mut p, d.as_slice());
            assert(p@ =~= if exclude { exclude_magic() + d@ } else { d@ });
            r.push(p);
        },
        None => {},
    }
    assert(views(r@) =~= query_args(commit@, kind, crate::ovrd::opt_view(*scope), exclude));
    r
}

/// `<commit>:<path>`, or `<commit>~:<path>` for the parent of `commit`: where the
/// content of `path` at that revision is read from.
pub fn create_file_from(commit: &[u8], parent: bool, path: &[u8]) -> (r: Vec<u8>)
    ensures
        r@ == revision_path(commit@, parent, path@),
{
    let mut r = copy_range(commit, 0, commit.len());
    if parent {
        r.push(126u8);
    }
    r.push(58u8);
    push_all(&mut r, path);
    assert(r@ =~= revision_path(commit@, parent, path@));
    r
}

/// The similarity that a status word such as `R086` gives.
pub fn parse_score(w: &[u8]) -> (r: Option<u32>)
    ensures
        match (r, score(w@)) {
            (Some(v), Some(s)) => v as nat == s,
            (None, None) => true,
            _ => false,
        },
{
    if w.len() < 2 || w.len() > 4 || w[0] != 82 {
        return None;
    }
    let mut v: u32 = 0;
    let mut i: usize = 1;
    while i < w.len()
        invariant
            2 <= w@.len() <= 4,
            1 <= i <= w@.len(),
            forall|j: int| 1 <= j < i ==> is_digit(#[trigger] w@[j]),
            v as nat == digits_value(w@.subrange(1, i as int)),
            v < 1000,
            i < 4 ==> v < 100,
            i < 3 ==> v < 10,
        decreases w@.len() - i,
    {
        if w[i] < 48 || w[i] > 57 {
            return None;
        }
        assert(w@.subrange(1, i + 1).drop_last() =~= w@.subrange(1, i as int));
        v = v * 10 + (w[i] - 48) as u32;
        i = i + 1;
    }
    if v > 100 {
        return None;
    }
    Some(v)
}

/// The rename that one line of the query's output reports, where it is well formed.
pub fn parse_rename_line(line: &[u8]) -> (r: Option<ChangeEvent>)
    ensures
        match (r, rename_change(line@)) {
            (Some(e), Some(c)) => e.model() == c,
            (None, None) => true,
            _ => false,
        },
{
    let w = split_words(line);
    if w.len() < 3 {
        return None;
    }
    assert(w[0]@ == words_of(line@)[0]);
    match parse_score(w[0].as_slice()) {
        Some(v) => {
            let kind = if v == 100 { ChangeKind::RenamedExact } else { ChangeKind::RenamedPartial };
            let old_path = copy_range(w[1].as_slice(), 0, w[1].len());
            let new_path = copy_range(w[2].as_slice(), 0, w[2].len());
            assert(w[1]@.subrange(0, w[1]@.len() as int) =~= words_of(line@)[1]);
            assert(w[2]@.subrange(0, w[2]@.len() as int) =~= words_of(line@)[2]);
            Some(ChangeEvent { kind, similarity: v, old_path, new_path })
        },
        None => None,
    }
}

/// The changes of one kind that the output of its query reports: one per
/// non-empty line for additions, deletions and modifications; one per well-formed
/// line of that kind for renames.
pub fn parse_changes(output: &[u8], kind: ChangeKind) -> (r: Vec<ChangeEvent>)
    ensures
        models(r@) == changes_of(output@, kind),
{
    let lines = split_lines(output);
    let ghost ls = lines_of(output@);
    let renames = match kind {
        ChangeKind::RenamedExact => true,
        ChangeKind::RenamedPartial => true,
        _ => false,
    };
    let mut r: Vec<ChangeEvent> = Vec::new();
    let mut i: usize = 0;
    while i < lines.len()
        invariant
            views(lines@) == ls,
            ls == lines_of(output@),
            renames == is_rename(kind),
            i <= ls.len(),
            renames ==> models(r@) == rename_changes(ls.subrange(0, i as int), kind),
            !renames ==> models(r@) == path_changes(ls.subrange(0, i as int), kind),
        decreases ls.len() - i,
    {
        let ghost before = models(r@);
        let ghost s = ls.subrange(0, i + 1);
        assert(s.drop_last() =~= ls.subrange(0, i as int));
        assert(s.last() == lines[i as int]@);
        let line = lines[i].as_slice();
        if renames {
            match parse_rename_line(line) {
                Some(e) => {
                    if e.kind == kind {
                        r.push(e);
                        assert(models(r@) =~= before.push(rename_change(s.last())->0));
                    }
                },
                None => {},
            }
        } else if line.len() > 0 {
            let p = copy_range(line, 0, line.len());
            let q = copy_range(line, 0, line.len());
            assert(line@.subrange(0, line@.len() as int) =~= line@);
            r.push(ChangeEvent { kind, similarity: 0, old_path: p, new_path: q });
            assert(models(r@) =~= before.push(Change { kind, similarity: 0, old_path: s.last(), new_path: s.last() }));
        }
        i = i + 1;
    }
    assert(ls.subrange(0, ls.len() as int) =~= ls);
    r
}

} // verus!
