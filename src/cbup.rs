use vstd::prelude::*;

use crate::git::{Change, ChangeEvent, ChangeKind};
use crate::manifest::{dest_path, dest_path_of, SLASH};
use crate::ovrd::{Ovrd, OvrdFlags, OvrdModel};
use crate::text::{copy_range, push_all, SPACE};

verus! {

/// The flags of a codebase upgrade.
#[derive(Clone, Copy, Debug, PartialEq, Eq, Structural)]
pub struct CbupFlags {
    /// Extraction mode: every touched file becomes a light override.
    pub pure: bool,
}

/// A codebase upgrade: the overrides are reconciled with the changes of `commit`.
#[derive(Debug)]
pub struct Cbup {
    pub commit: Vec<u8>,
    pub flags: CbupFlags,
}

/// One of the three subtrees of an audit tree.
#[derive(Clone, Copy, Debug, PartialEq, Eq, Structural)]
pub enum AuditSide {
    /// The content before the change.
    Old,
    /// The content after the change.
    New,
    /// The content of the override.
    Ovrd,
}

/// The root of one audit tree: `0.fwto/cbup/<!R or R75>/<base.old, base.new or ovrd>`.
pub open spec fn audit_root(renamed: bool, side: AuditSide) -> Seq<u8> {
    match (renamed, side) {
        (false, AuditSide::Old) => seq![48u8, 46u8, 102u8, 119u8, 116u8, 111u8, 47u8, 99u8, 98u8, 117u8, 112u8, 47u8, 33u8, 82u8, 47u8, 98u8, 97u8, 115u8, 101u8, 46u8, 111u8, 108u8, 100u8],
        (false, AuditSide::New) => seq![48u8, 46u8, 102u8, 119u8, 116u8, 111u8, 47u8, 99u8, 98u8, 117u8, 112u8, 47u8, 33u8, 82u8, 47u8, 98u8, 97u8, 115u8, 101u8, 46u8, 110u8, 101u8, 119u8],
        (false, AuditSide::Ovrd) => seq![48u8, 46u8, 102u8, 119u8, 116u8, 111u8, 47u8, 99u8, 98u8, 117u8, 112u8, 47u8, 33u8, 82u8, 47u8, 111u8, 118u8, 114u8, 100u8],
        (true, AuditSide::Old) => seq![48u8, 46u8, 102u8, 119u8, 116u8, 111u8, 47u8, 99u8, 98u8, 117u8, 112u8, 47u8, 82u8, 55u8, 53u8, 47u8, 98u8, 97u8, 115u8, 101u8, 46u8, 111u8, 108u8, 100u8],
        (true, AuditSide::New) => seq![48u8, 46u8, 102u8, 119u8, 116u8, 111u8, 47u8, 99u8, 98u8, 117u8, 112u8, 47u8, 82u8, 55u8, 53u8, 47u8, 98u8, 97u8, 115u8, 101u8, 46u8, 110u8, 101u8, 119u8],
        (true, AuditSide::Ovrd) => seq![48u8, 46u8, 102u8, 119u8, 116u8, 111u8, 47u8, 99u8, 98u8, 117u8, 112u8, 47u8, 82u8, 55u8, 53u8, 47u8, 111u8, 118u8, 114u8, 100u8],
    }
}

pub fn audit_root_bytes(renamed: bool, side: AuditSide) -> (r: Vec<u8>)
    ensures
        r@ == audit_root(renamed, side),
{
    match (renamed, side) {
        (false, AuditSide::Old) => vec![48u8, 46u8, 102u8, 119u8, 116u8, 111u8, 47u8, 99u8, 98u8, 117u8, 112u8, 47u8, 33u8, 82u8, 47u8, 98u8, 97u8, 115u8, 101u8, 46u8, 111u8, 108u8, 100u8],
        (false, AuditSide::New) => vec![48u8, 46u8, 102u8, 119u8, 116u8, 111u8, 47u8, 99u8, 98u8, 117u8, 112u8, 47u8, 33u8, 82u8, 47u8, 98u8, 97u8, 115u8, 101u8, 46u8, 110u8, 101u8, 119u8],
        (false, AuditSide::Ovrd) => vec![48u8, 46u8, 102u8, 119u8, 116u8, 111u8, 47u8, 99u8, 98u8, 117u8, 112u8, 47u8, 33u8, 82u8, 47u8, 111u8, 118u8, 114u8, 100u8],
        (true, AuditSide::Old) => vec![48u8, 46u8, 102u8, 119u8, 116u8, 111u8, 47u8, 99u8, 98u8, 117u8, 112u8, 47u8, 82u8, 55u8, 53u8, 47u8, 98u8, 97u8, 115u8, 101u8, 46u8, 111u8, 108u8, 100u8],
        (true, AuditSide::New) => vec![48u8, 46u8, 102u8, 119u8, 116u8, 111u8, 47u8, 99u8, 98u8, 117u8, 112u8, 47u8, 82u8, 55u8, 53u8, 47u8, 98u8, 97u8, 115u8, 101u8, 46u8, 110u8, 101u8, 119u8],
        (true, AuditSide::Ovrd) => vec![48u8, 46u8, 102u8, 119u8, 116u8, 111u8, 47u8, 99u8, 98u8, 117u8, 112u8, 47u8, 82u8, 55u8, 53u8, 47u8, 111u8, 118u8, 114u8, 100u8],
    }
}

/// `0.fwto/cbup/R75/R75.log`: where the partial renames that touched an override are listed.
pub open spec fn rename_log() -> Seq<u8> {
    seq![48u8, 46u8, 102u8, 119u8, 116u8, 111u8, 47u8, 99u8, 98u8, 117u8, 112u8, 47u8, 82u8, 55u8, 53u8, 47u8, 82u8, 55u8, 53u8, 46u8, 108u8, 111u8, 103u8]
}

pub fn rename_log_path() -> (r: Vec<u8>)
    ensures
        r@ == rename_log(),
{
    vec![48u8, 46u8, 102u8, 119u8, 116u8, 111u8, 47u8, 99u8, 98u8, 117u8, 112u8, 47u8, 82u8, 55u8, 53u8, 47u8, 82u8, 55u8, 53u8, 46u8, 108u8, 111u8, 103u8]
}

/// Where `path` stands in an audit tree.
pub open spec fn audit_path(renamed: bool, side: AuditSide, path: Seq<u8>) -> Seq<u8> {
    audit_root(renamed, side) + seq![SLASH] + path
}

pub fn audit_path_of(renamed: bool, side: AuditSide, path: &[u8]) -> (r: Vec<u8>)
    ensures
        r@ == audit_path(renamed, side, path@),
{
    let root = audit_root_bytes(renamed, side);
    dest_path_of(root.as_slice(), path)
}

/// Decimal digits of `n`.
pub open spec fn decimal(n: nat) -> Seq<u8>
    decreases n,
{
    if n < 10 {
        seq![(48 + n) as u8]
    } else {
        decimal(n / 10).push((48 + n % 10) as u8)
    }
}

fn push_decimal(v: &mut Vec<u8>, n: u32)
    ensures
        final(v)@ == old(v)@ + decimal(n as nat),
    decreases n,
{
    if n < 10 {
        v.push(48 + n as u8);
        assert(v@ =~= old(v)@ + decimal(n as nat));
    } else {
        push_decimal(v, n / 10);
        v.push((48 + n % 10) as u8);
        assert(v@ =~= old(v)@ + decimal(n as nat));
    }
}

/// The log line of a rename: `R<similarity> <old path> <new path>`.
pub open spec fn rename_line(c: Change) -> Seq<u8> {
    seq![82u8] + decimal(c.similarity) + seq![SPACE] + c.old_path + seq![SPACE] + c.new_path
}

pub fn rename_log_line(ev: &ChangeEvent) -> (r: Vec<u8>)
    ensures
        r@ == rename_line(ev.model()),
{
    let mut r: Vec<u8> = vec![82u8];
    push_decimal(&mut r, ev.similarity);
    r.push(SPACE);
    push_all(&mut r, ev.old_path.as_slice());
    r.push(SPACE);
    push_all(&mut r, ev.new_path.as_slice());
    assert(r@ =~= rename_line(ev.model()));
    r
}

/// What the file system holds where the reconciliation of one change looks.
#[derive(Clone, Copy, Debug, PartialEq, Eq, Structural)]
pub struct Facts {
    /// The destination tree holds an override of the path.
    pub override_exists: bool,
    /// The audit tree holds the content before the change.
    pub old_snapshot: bool,
    /// The audit tree holds the content after the change.
    pub new_snapshot: bool,
    /// The working tree holds the path as a file.
    pub src_exists: bool,
}

/// A step of the reconciliation of one change.
#[derive(Debug, PartialEq, Eq)]
pub enum Action {
    /// Write the content of `path` at the revision, or at its parent, to `dest`.
    Extract { parent: bool, path: Vec<u8>, dest: Vec<u8> },
    /// Make or refresh an override, declaring it when it is new.
    Add { ovrd: Ovrd },
    /// Make a light override of a path that the working tree may lack: an empty
    /// file stands in for it while the override is made, and is removed after.
    AddPlaceholder { ovrd: Ovrd },
    /// Clean an override: its declaration and its files go.
    Delete { ovrd: Ovrd },
    /// Move the override of `old` to `new`: `new` is materialized, takes the
    /// content of the old override, and its declaration takes the place of the old one.
    Replace { old: Ovrd, new: Ovrd },
    /// Add a line to the log of partial renames.
    LogRename { line: Vec<u8> },
}

/// What an [`Action`] stands for.
pub enum Step {
    Extract { parent: bool, path: Seq<u8>, dest: Seq<u8> },
    Add { ovrd: OvrdModel },
    AddPlaceholder { ovrd: OvrdModel },
    Delete { ovrd: OvrdModel },
    Replace { old: OvrdModel, new: OvrdModel },
    LogRename { line: Seq<u8> },
}

impl Action {
    pub open spec fn step(&self) -> Step {
        match self {
            Action::Extract { parent, path, dest } => Step::Extract { parent: *parent, path: path@, dest: dest@ },
            Action::Add { ovrd } => Step::Add { ovrd: ovrd.model() },
            Action::AddPlaceholder { ovrd } => Step::AddPlaceholder { ovrd: ovrd.model() },
            Action::Delete { ovrd } => Step::Delete { ovrd: ovrd.model() },
            Action::Replace { old, new } => Step::Replace { old: old.model(), new: new.model() },
            Action::LogRename { line } => Step::LogRename { line: line@ },
        }
    }
}

pub open spec fn steps_of(a: Seq<Action>) -> Seq<Step> {
    a.map_values(|x: Action| x.step())
}

pub open spec fn override_of(src: Seq<u8>, clean: bool, skip_org: bool) -> OvrdModel {
    OvrdModel { src, flags: OvrdFlags { clean, skip_org } }
}

/// A light override: no copy of the original is kept.
pub open spec fn light(src: Seq<u8>) -> OvrdModel {
    override_of(src, false, true)
}

/// The steps that reconcile the primary override layer with one change; `dst` is
/// the destination directory and `facts.override_exists` tells whether it holds
/// an override of the changed path (the old path of a rename).
pub open spec fn primary_steps(c: Change, dst: Seq<u8>, pure: bool, facts: Facts) -> Seq<Step> {
    let p = c.new_path;
    let o = c.old_path;
    let forced: Seq<Step> = if pure { seq![Step::Add { ovrd: light(p) }] } else { Seq::empty() };
    match c.kind {
        ChangeKind::Added => forced,
        ChangeKind::Deleted => if facts.override_exists {
            seq![
                Step::Extract { parent: true, path: p, dest: audit_path(false, AuditSide::Old, p) },
                Step::Extract { parent: false, path: dest_path(dst, p), dest: audit_path(false, AuditSide::Ovrd, p) },
                Step::Delete { ovrd: override_of(p, true, false) },
            ]
        } else {
            Seq::empty()
        },
        ChangeKind::Modified => if facts.override_exists {
            seq![
                Step::Extract { parent: true, path: p, dest: audit_path(false, AuditSide::Old, p) },
                Step::Extract { parent: false, path: p, dest: audit_path(false, AuditSide::New, p) },
                Step::Extract { parent: false, path: dest_path(dst, p), dest: audit_path(false, AuditSide::Ovrd, p) },
                Step::Add { ovrd: override_of(p, false, pure) },
            ]
        } else {
            forced
        },
        ChangeKind::RenamedExact => if facts.override_exists {
            seq![Step::Replace { old: override_of(o, false, pure), new: override_of(p, false, pure) }]
        } else {
            forced
        },
        ChangeKind::RenamedPartial => if facts.override_exists {
            seq![
                Step::LogRename { line: rename_line(c) },
                Step::Extract { parent: true, path: o, dest: audit_path(true, AuditSide::Old, p) },
                Step::Extract { parent: false, path: p, dest: audit_path(true, AuditSide::New, p) },
                Step::Extract { parent: false, path: dest_path(dst, o), dest: audit_path(true, AuditSide::Ovrd, p) },
                Step::Replace { old: override_of(o, false, pure), new: override_of(p, false, pure) },
            ]
        } else {
            forced
        },
    }
}

/// The path of the working tree that a path of the secondary layer stands for:
/// what follows `<layer>/`.
pub open spec fn layer_relative(layer: Seq<u8>, path: Seq<u8>) -> Option<Seq<u8>> {
    let pre = layer + seq![SLASH];
    if pre.len() <= path.len() && path.subrange(0, pre.len() as int) == pre {
        Some(path.subrange(pre.len() as int, path.len() as int))
    } else {
        None
    }
}

/// The steps that reconcile the secondary layer with one change; `facts` is taken
/// at the path of the working tree that the new path stands for. A path outside
/// the layer gives no step.
pub open spec fn secondary_steps(c: Change, layer: Seq<u8>, pure: bool, facts: Facts) -> Seq<Step> {
    match layer_relative(layer, c.new_path) {
        None => Seq::empty(),
        Some(s) => {
            let forced: Seq<Step> = if !pure {
                Seq::empty()
            } else if facts.src_exists {
                seq![Step::Add { ovrd: light(s) }]
            } else {
                seq![Step::AddPlaceholder { ovrd: light(s) }]
            };
            let p = c.new_path;
            match c.kind {
                ChangeKind::Added => if facts.override_exists || facts.new_snapshot {
                    seq![Step::Extract { parent: false, path: p, dest: audit_path(false, AuditSide::New, s) }]
                } else {
                    forced
                },
                ChangeKind::Deleted => if facts.override_exists || facts.old_snapshot {
                    seq![Step::Extract { parent: true, path: p, dest: audit_path(false, AuditSide::Old, s) }]
                } else {
                    Seq::empty()
                },
                ChangeKind::Modified => if facts.override_exists || facts.old_snapshot || facts.new_snapshot {
                    seq![
                        Step::Extract { parent: true, path: p, dest: audit_path(false, AuditSide::Old, s) },
                        Step::Extract { parent: false, path: p, dest: audit_path(false, AuditSide::New, s) },
                    ]
                } else {
                    forced
                },
                ChangeKind::RenamedExact => forced,
                ChangeKind::RenamedPartial => if facts.override_exists {
                    seq![
                        Step::Extract { parent: true, path: c.old_path, dest: audit_path(true, AuditSide::Old, s) },
                        Step::Extract { parent: false, path: p, dest: audit_path(true, AuditSide::New, s) },
                    ]
                } else {
                    forced
                },
            }
        },
    }
}

fn copy_vec(v: &Vec<u8>) -> (r: Vec<u8>)
    ensures
        r@ == v@,
{
    let r = copy_range(v.as_slice(), 0, v.len());
    assert(v@.subrange(0, v@.len() as int) =~= v@);
    r
}

/// The path of the working tree that a path of the secondary `layer` stands for,
/// where it lies under the layer.
pub fn layer_source(layer: &[u8], path: &[u8]) -> (r: Option<Vec<u8>>)
    ensures
        crate::ovrd::opt_view(r) == layer_relative(layer@, path@),
{
    let n = layer.len();
    if n >= path.len() {
        return None;
    }
    let mut i: usize = 0;
    while i < n
        invariant
            n == layer@.len(),
            n < path@.len(),
            i <= n,
            forall|j: int| 0 <= j < i ==> path@[j] == layer@[j],
        decreases n - i,
    {
        if path[i] != layer[i] {
            assert((layer@ + seq![SLASH])[i as int] == layer@[i as int]);
            return None;
        }
        i = i + 1;
    }
    if path[n] != SLASH {
        assert((layer@ + seq![SLASH])[n as int] == SLASH);
        return None;
    }
    assert(path@.subrange(0, n + 1) =~= layer@ + seq![SLASH]);
    Some(copy_range(path, n + 1, path.len()))
}

impl Cbup {
    /// The steps that reconcile the primary override layer, in destination
    /// directory `dst`, with one change.
    pub fn codebase_oemovrd(&self, ev: &ChangeEvent, dst: &[u8], facts: Facts) -> (r: Vec<Action>)
        ensures
            steps_of(r@) == primary_steps(ev.model(), dst@, self.flags.pure, facts),
    {
        let pure = self.flags.pure;
        let p = ev.new_path.as_slice();
        let o = ev.old_path.as_slice();
        let mut r: Vec<Action> = Vec::new();
        match ev.kind {
            ChangeKind::Deleted => {
                if facts.override_exists {
                    r.push(Action::Extract { parent: true, path: copy_vec(&ev.new_path), dest: audit_path_of(false, AuditSide::Old, p) });
                    r.push(Action::Extract { parent: false, path: dest_path_of(dst, p), dest: audit_path_of(false, AuditSide::Ovrd, p) });
                    r.push(Action::Delete { ovrd: Ovrd::new(p, true, false) });
                }
            },
            ChangeKind::Modified => {
                if facts.override_exists {
                    r.push(Action::Extract { parent: true, path: copy_vec(&ev.new_path), dest: audit_path_of(false, AuditSide::Old, p) });
                    r.push(Action::Extract { parent: false, path: copy_vec(&ev.new_path), dest: audit_path_of(false, AuditSide::New, p) });
                    r.push(Action::Extract { parent: false, path: dest_path_of(dst, p), dest: audit_path_of(false, AuditSide::Ovrd, p) });
                    r.push(Action::Add { ovrd: Ovrd::new(p, false, pure) });
                } else if pure {
                    r.push(Action::Add { ovrd: Ovrd::new(p, false, true) });
                }
            },
            ChangeKind::RenamedExact => {
                if facts.override_exists {
                    r.push(Action::Replace { old: Ovrd::new(o, false, pure), new: Ovrd::new(p, false, pure) });
                } else if pure {
                    r.push(Action::Add { ovrd: Ovrd::new(p, false, true) });
                }
            },
            ChangeKind::RenamedPartial => {
                if facts.override_exists {
                    r.push(Action::LogRename { line: rename_log_line(ev) });
                    r.push(Action::Extract { parent: true, path: copy_vec(&ev.old_path), dest: audit_path_of(true, AuditSide::Old, p) });
                    r.push(Action::Extract { parent: false, path: copy_vec(&ev.new_path), dest: audit_path_of(true, AuditSide::New, p) });
                    r.push(Action::Extract { parent: false, path: dest_path_of(dst, o), dest: audit_path_of(true, AuditSide::Ovrd, p) });
                    r.push(Action::Replace { old: Ovrd::new(o, false, pure), new: Ovrd::new(p, false, pure) });
                } else if pure {
                    r.push(Action::Add { ovrd: Ovrd::new(p, false, true) });
                }
            },
            ChangeKind::Added => {
                if pure {
                    r.push(Action::Add { ovrd: Ovrd::new(p, false, true) });
                }
            },
        }
        assert(steps_of(r@) =~= primary_steps(ev.model(), dst@, self.flags.pure, facts));
        r
    }

    /// The steps that reconcile the secondary layer, in directory `layer`, with one change.
    pub fn codebase_ibvovrd(&self, ev: &ChangeEvent, layer: &[u8], facts: Facts) -> (r: Vec<Action>)
        ensures
            steps_of(r@) == secondary_steps(ev.model(), layer@, self.flags.pure, facts),
    {
        let pure = self.flags.pure;
        let mut r: Vec<Action> = Vec::new();
        let src = match layer_source(layer, ev.new_path.as_slice()) {
            Some(s) => s,
            None => {
                assert(steps_of(r@) =~= secondary_steps(ev.model(), layer@, self.flags.pure, facts));
                return r;
            },
        };
        let s = src.as_slice();
        let p = ev.new_path.as_slice();
        let mut forced: Vec<Action> = Vec::new();
        if pure {
            if facts.src_exists {
                forced.push(Action::Add { ovrd: Ovrd::new(s, false, true) });
            } else {
                forced.push(Action::AddPlaceholder { ovrd: Ovrd::new(s, false, true) });
            }
        }
        match ev.kind {
            ChangeKind::Added => {
                if facts.override_exists || facts.new_snapshot {
                    r.push(Action::Extract { parent: false, path: copy_vec(&ev.new_path), dest: audit_path_of(false, AuditSide::New, s) });
                } else {
                    r = forced;
                }
            },
            ChangeKind::Deleted => {
                if facts.override_exists || facts.old_snapshot {
                    r.push(Action::Extract { parent: true, path: copy_vec(&ev.new_path), dest: audit_path_of(false, AuditSide::Old, s) });
                }
            },
            ChangeKind::Modified => {
                if facts.override_exists || facts.old_snapshot || facts.new_snapshot {
                    r.push(Action::Extract { parent: true, path: copy_vec(&ev.new_path), dest: audit_path_of(false, AuditSide::Old, s) });
                    r.push(Action::Extract { parent: false, path: copy_vec(&ev.new_path), dest: audit_path_of(false, AuditSide::New, s) });
                } else {
                    r = forced;
                }
            },
            ChangeKind::RenamedExact => {
                r = forced;
            },
            ChangeKind::RenamedPartial => {
                if facts.override_exists {
                    r.push(Action::Extract { parent: true, path: copy_vec(&ev.old_path), dest: audit_path_of(true, AuditSide::Old, s) });
                    r.push(Action::Extract { parent: false, path: copy_vec(&ev.new_path), dest: audit_path_of(true, AuditSide::New, s) });
                } else {
                    r = forced;
                }
            },
        }
        assert(steps_of(r@) =~= secondary_steps(ev.model(), layer@, self.flags.pure, facts));
        r
    }
}

/// In the primary layer, a change other than a deletion whose path has no
/// override yet gives, in extraction mode, exactly one step: a light override of
/// the new path; out of extraction mode it gives none.
pub proof fn lemma_pure_mode_coverage(c: Change, dst: Seq<u8>, facts: Facts)
    requires
        !facts.override_exists,
        c.kind != ChangeKind::Deleted,
    ensures
        primary_steps(c, dst, true, facts) == seq![Step::Add { ovrd: light(c.new_path) }],
        primary_steps(c, dst, false, facts) == Seq::<Step>::empty(),
{
}

/// In the secondary layer, a change other than a deletion, under the layer, whose
/// path has neither an override nor an audit snapshot gives, in extraction mode,
/// exactly one step: a light override of the path it stands for (through a
/// placeholder where the working tree lacks it); out of extraction mode it gives none.
pub proof fn lemma_pure_mode_coverage_secondary(c: Change, layer: Seq<u8>, facts: Facts)
    requires
        !facts.override_exists,
        !facts.old_snapshot,
        !facts.new_snapshot,
        c.kind != ChangeKind::Deleted,
        layer_relative(layer, c.new_path) is Some,
    ensures
        ({
            let s = layer_relative(layer, c.new_path)->0;
            secondary_steps(c, layer, true, facts) == if facts.src_exists {
                seq![Step::Add { ovrd: light(s) }]
            } else {
                seq![Step::AddPlaceholder { ovrd: light(s) }]
            }
        }),
        secondary_steps(c, layer, false, facts) == Seq::<Step>::empty(),
{
}

} // verus!
