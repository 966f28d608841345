use vstd::prelude::*;
use vstd::view::View as Viewable;

use crate::cbup::{layer_relative, layer_source};
use crate::git::{exact_threshold, find_renames, find_renames_bytes, exact_threshold_bytes, diff_filter, diff_filter_bytes, dashes, dashes_bytes, exclude_magic, exclude_magic_bytes, format_none, format_none_bytes, name_only, name_only_bytes, ChangeEvent, ChangeKind};
use crate::manifest::{dest_path, dest_path_of};
use crate::ovrd::opt_view;
use crate::text::{copy_range, push_all, views};

verus! {

/// `diff`: the subcommand that compares two revisions.
pub open spec fn diff() -> Seq<u8> {
    seq![100u8, 105u8, 102u8, 102u8]
}

pub fn diff_bytes() -> (r: Vec<u8>)
    ensures
        r@ == diff(),
{
    vec![100u8, 105u8, 102u8, 102u8]
}

/// `0.fwto/view/old`: the review tree of the older revision.
pub open spec fn view_old() -> Seq<u8> {
    seq![48u8, 46u8, 102u8, 119u8, 116u8, 111u8, 47u8, 118u8, 105u8, 101u8, 119u8, 47u8, 111u8, 108u8, 100u8]
}

pub fn view_old_bytes() -> (r: Vec<u8>)
    ensures
        r@ == view_old(),
{
    vec![48u8, 46u8, 102u8, 119u8, 116u8, 111u8, 47u8, 118u8, 105u8, 101u8, 119u8, 47u8, 111u8, 108u8, 100u8]
}

/// `0.fwto/view/new`: the review tree of the newer revision.
pub open spec fn view_new() -> Seq<u8> {
    seq![48u8, 46u8, 102u8, 119u8, 116u8, 111u8, 47u8, 118u8, 105u8, 101u8, 119u8, 47u8, 110u8, 101u8, 119u8]
}

pub fn view_new_bytes() -> (r: Vec<u8>)
    ensures
        r@ == view_new(),
{
    vec![48u8, 46u8, 102u8, 119u8, 116u8, 111u8, 47u8, 118u8, 105u8, 101u8, 119u8, 47u8, 110u8, 101u8, 119u8]
}

/// A review of the changes between two revisions of the workspace.
#[derive(Debug)]
pub struct View {
    /// The newer revision.
    pub new: Vec<u8>,
    /// The older revision; the parent of the newer one where none is given.
    pub old: Option<Vec<u8>>,
}

/// Write the content of `path` at `revision` to `dest`.
#[derive(Debug, PartialEq, Eq)]
pub struct Extraction {
    pub revision: Vec<u8>,
    pub path: Vec<u8>,
    pub dest: Vec<u8>,
}

/// What an [`Extraction`] stands for.
pub struct Extract {
    pub revision: Seq<u8>,
    pub path: Seq<u8>,
    pub dest: Seq<u8>,
}

impl Extraction {
    pub open spec fn model(&self) -> Extract {
        Extract { revision: self.revision@, path: self.path@, dest: self.dest@ }
    }
}

pub open spec fn extracts(r: Seq<Extraction>) -> Seq<Extract> {
    r.map_values(|e: Extraction| e.model())
}

/// The older revision of a review.
pub open spec fn old_revision(new: Seq<u8>, old: Option<Seq<u8>>) -> Seq<u8> {
    match old {
        Some(o) => o,
        None => new + seq![126u8],
    }
}

/// The arguments of the query that lists the paths with one of `letters` as status
/// between `old` and `new`, restricted to the paths under `scopes`, or to all
/// others where `exclude`; renames are reported only when exact.
pub open spec fn diff_query(old: Seq<u8>, new: Seq<u8>, letters: Seq<u8>, scopes: Seq<Seq<u8>>, exclude: bool) -> Seq<Seq<u8>> {
    let head = seq![
        diff(),
        format_none(),
        name_only(),
        find_renames() + exact_threshold(),
        diff_filter() + letters,
        old,
        new,
    ];
    if scopes.len() == 0 {
        head
    } else {
        head + seq![dashes()] + scopes.map_values(|d: Seq<u8>| if exclude { exclude_magic() + d } else { d })
    }
}

/// The extractions that review the change of `path`, outside every override
/// directory: the path at both revisions.
pub open spec fn review_plain(old: Seq<u8>, new: Seq<u8>, path: Seq<u8>) -> Seq<Extract> {
    seq![
        Extract { revision: old, path, dest: dest_path(view_old(), path) },
        Extract { revision: new, path, dest: dest_path(view_new(), path) },
    ]
}

/// The extractions that review a change of `path` inside the override directory
/// `dir`, both trees keyed by the path of the working tree it stands for: an
/// added override is compared with the file it overrides, a removed one with the
/// file it gave way to. A path outside `dir` gives none.
pub open spec fn review_in(old: Seq<u8>, new: Seq<u8>, kind: ChangeKind, dir: Seq<u8>, path: Seq<u8>) -> Seq<Extract> {
    match layer_relative(dir, path) {
        None => Seq::empty(),
        Some(s) => {
            let o = dest_path(view_old(), s);
            let n = dest_path(view_new(), s);
            match kind {
                ChangeKind::Added => seq![
                    Extract { revision: new, path: s, dest: o },
                    Extract { revision: new, path, dest: n },
                ],
                ChangeKind::Deleted => seq![
                    Extract { revision: old, path, dest: o },
                    Extract { revision: new, path: s, dest: n },
                ],
                _ => seq![
                    Extract { revision: old, path, dest: o },
                    Extract { revision: new, path, dest: n },
                ],
            }
        },
    }
}

fn copy_vec(v: &[u8]) -> (r: Vec<u8>)
    ensures
        r@ == v@,
{
    let r = copy_range(v, 0, v.len());
    assert(v@.subrange(0, v@.len() as int) =~= v@);
    r
}

impl View {
    /// The older revision of the review.
    pub fn old_revision(&self) -> (r: Vec<u8>)
        ensures
            r@ == old_revision(self.new@, opt_view(self.old)),
    {
        match &self.old {
            Some(o) => copy_vec(o.as_slice()),
            None => {
                let mut r = copy_vec(self.new.as_slice());
                r.push(126u8);
                r
            },
        }
    }

    /// The arguments of the query for the paths with one of `letters` as status
    /// between the two revisions, under `scopes` (in slash form) or outside them.
    pub fn diff_no_format(&self, letters: &[u8], scopes: &Vec<Vec<u8>>, exclude: bool) -> (r: Vec<Vec<u8>>)
        ensures
            views(r@) == diff_query(old_revision(self.new@, opt_view(self.old)), self.new@, letters@, views(scopes@), exclude),
    {
        let mut r: Vec<Vec<u8>> = Vec::new();
        r.push(diff_bytes());
        r.push(format_none_bytes());
        r.push(name_only_bytes());
        let mut fr = find_renames_bytes();
        let t = exact_threshold_bytes();
        push_all(&mut fr, t.as_slice());
        r.push(fr);
        let mut df = diff_filter_bytes();
        push_all(&mut df, letters);
        r.push(df);
        r.push(self.old_revision());
        r.push(copy_vec(self.new.as_slice()));
        let ghost head = views(r@);
        if scopes.len() > 0 {
            r.push(dashes_bytes());
            let mut i: usize = 0;
            while i < scopes.len()
                invariant
                    i <= scopes@.len(),
                    views(r@) == head + seq![dashes()] + views(scopes@).subrange(0, i as int).map_values(
                        |d: Seq<u8>| if exclude { exclude_magic() + d } else { d },
                    ),
                decreases scopes@.len() - i,
            {
                let mut p: Vec<u8> = Vec::new();
                if exclude {
                    p = exclude_magic_bytes();
                }
                push_all(&mut p, scopes[i].as_slice());
                let ghost before = views(r@);
                r.push(p);
                proof {
                    let f = |d: Seq<u8>| if exclude { exclude_magic() + d } else { d };
                    assert(views(scopes@).subrange(0, i + 1) =~= views(scopes@).subrange(0, i as int).push(scopes@[i as int]@));
                    assert(views(r@) =~= before.push(f(scopes@[i as int]@)));
                    assert(views(scopes@).subrange(0, i + 1).map_values(f) =~= views(scopes@).subrange(0, i as int).map_values(f).push(f(scopes@[i as int]@)));
                }
                i = i + 1;
            }
            assert(views(scopes@).subrange(0, scopes@.len() as int) =~= views(scopes@));
        }
        assert(views(r@) =~= diff_query(old_revision(self.new@, opt_view(self.old)), self.new@, letters@, views(scopes@), exclude));
        r
    }

    /// The extractions that review the change of a path outside every override directory.
    pub fn review_nonovrd(&self, ev: &ChangeEvent) -> (r: Vec<Extraction>)
        ensures
            extracts(r@) == review_plain(old_revision(self.new@, opt_view(self.old)), self.new@, ev.new_path@),
    {
        let p = ev.new_path.as_slice();
        let mut r: Vec<Extraction> = Vec::new();
        r.push(Extraction { revision: self.old_revision(), path: copy_vec(p), dest: dest_path_of(view_old_bytes().as_slice(), p) });
        r.push(Extraction { revision: copy_vec(self.new.as_slice()), path: copy_vec(p), dest: dest_path_of(view_new_bytes().as_slice(), p) });
        assert(extracts(r@) =~= review_plain(old_revision(self.new@, opt_view(self.old)), self.new@, ev.new_path@));
        r
    }

    /// The extractions that review a change inside the override directory `dir`,
    /// that of the secondary layer or of the primary one.
    pub fn review_ovrd(&self, ev: &ChangeEvent, dir: &[u8]) -> (r: Vec<Extraction>)
        ensures
            extracts(r@) == review_in(old_revision(self.new@, opt_view(self.old)), self.new@, ev.kind, dir@, ev.new_path@),
    {
        let mut r: Vec<Extraction> = Vec::new();
        let p = ev.new_path.as_slice();
        let src = match layer_source(dir, p) {
            Some(s) => s,
            None => {
                assert(extracts(r@) =~= Seq::<Extract>::empty());
                return r;
            },
        };
        let s = src.as_slice();
        let o = dest_path_of(view_old_bytes().as_slice(), s);
        let n = dest_path_of(view_new_bytes().as_slice(), s);
        match ev.kind {
            ChangeKind::Added => {
                r.push(Extraction { revision: copy_vec(self.new.as_slice()), path: copy_vec(s), dest: o });
                r.push(Extraction { revision: copy_vec(self.new.as_slice()), path: copy_vec(p), dest: n });
            },
            ChangeKind::Deleted => {
                r.push(Extraction { revision: self.old_revision(), path: copy_vec(p), dest: o });
                r.push(Extraction { revision: copy_vec(self.new.as_slice()), path: copy_vec(s), dest: n });
            },
            _ => {
                r.push(Extraction { revision: self.old_revision(), path: copy_vec(p), dest: o });
                r.push(Extraction { revision: copy_vec(self.new.as_slice()), path: copy_vec(p), dest: n });
            },
        }
        assert(extracts(r@) =~= review_in(old_revision(self.new@, opt_view(self.old)), self.new@, ev.kind, dir@, ev.new_path@));
        r
    }
}

} // verus!
