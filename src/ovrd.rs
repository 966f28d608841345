use vstd::prelude::*;

use crate::manifest::{
    appended, declaration, declaration_line, dest_path, dest_path_of, replaced, count_declaring,
    without, Manifest,
};

verus! {

/// The flags of an override.
#[derive(Clone, Copy, Debug, PartialEq, Eq, Structural)]
pub struct OvrdFlags {
    /// The override is to be cleaned rather than made.
    pub clean: bool,
    /// No copy of the original is kept: a light override.
    pub skip_org: bool,
}

/// An override of one file of the workspace, named by its path relative to the
/// workspace, with `/` between its components.
#[derive(Debug, PartialEq, Eq)]
pub struct Ovrd {
    pub src: Vec<u8>,
    pub flags: OvrdFlags,
}

/// What an [`Ovrd`] stands for.
pub struct OvrdModel {
    pub src: Seq<u8>,
    pub flags: OvrdFlags,
}

impl Ovrd {
    pub open spec fn model(&self) -> OvrdModel {
        OvrdModel { src: self.src@, flags: self.flags }
    }
}

/// A step on the file system.
#[derive(Debug, PartialEq, Eq)]
pub enum FileOp {
    /// Copy `from` to `to`, creating the parents of `to` and clearing its
    /// read-only attribute first.
    Copy { from: Vec<u8>, to: Vec<u8> },
    /// Remove `path` where it is a file.
    Remove { path: Vec<u8> },
}

/// What a [`FileOp`] stands for.
pub enum FileStep {
    Copy { from: Seq<u8>, to: Seq<u8> },
    Remove { path: Seq<u8> },
}

impl FileOp {
    pub open spec fn step(&self) -> FileStep {
        match self {
            FileOp::Copy { from, to } => FileStep::Copy { from: from@, to: to@ },
            FileOp::Remove { path } => FileStep::Remove { path: path@ },
        }
    }
}

pub open spec fn steps(ops: Seq<FileOp>) -> Seq<FileStep> {
    ops.map_values(|o: FileOp| o.step())
}

pub open spec fn opt_view(o: Option<Vec<u8>>) -> Option<Seq<u8>> {
    match o {
        Some(v) => Some(v@),
        None => None,
    }
}

/// Why an override could not be made.
#[derive(Clone, Copy, Debug, PartialEq, Eq, Structural)]
pub enum OvrdError {
    /// The file to override is not a regular file.
    NotAFile,
    /// A directory for the originals is given but is not a directory.
    OrgNotDir,
}

/// What the file system holds where materializing an override looks.
#[derive(Clone, Copy, Debug, PartialEq, Eq, Structural)]
pub struct MaterializeFacts {
    /// `src` is a regular file.
    pub src_is_file: bool,
    /// `<dst>/<src>` exists: the override was made before.
    pub dst_exists: bool,
    /// `<layer>/<src>` is a file of the secondary layer.
    pub layer_has_file: bool,
    /// The directory for the originals is a directory.
    pub org_is_dir: bool,
}

/// The steps that materialize the override of `src`, and whether it is made for
/// the first time.
pub open spec fn materialize_steps(
    src: Seq<u8>,
    skip_org: bool,
    dst: Seq<u8>,
    org: Option<Seq<u8>>,
    layer: Option<Seq<u8>>,
    facts: MaterializeFacts,
) -> Result<(Seq<FileStep>, bool), OvrdError> {
    if !facts.src_is_file {
        Err(OvrdError::NotAFile)
    } else if !skip_org && org is Some && !facts.org_is_dir {
        Err(OvrdError::OrgNotDir)
    } else {
        let fdst = dest_path(dst, src);
        let made: Seq<FileStep> = if facts.dst_exists {
            Seq::empty()
        } else if layer is Some && facts.layer_has_file {
            seq![
                FileStep::Copy { from: src, to: fdst },
                FileStep::Copy { from: dest_path(layer->0, src), to: fdst },
            ]
        } else {
            seq![FileStep::Copy { from: src, to: fdst }]
        };
        let baseline: Seq<FileStep> = if !skip_org && org is Some {
            seq![FileStep::Copy { from: src, to: dest_path(org->0, src) }]
        } else {
            Seq::empty()
        };
        Ok((made + baseline, !facts.dst_exists))
    }
}

/// The files that cleaning the override of `src` removes.
pub open spec fn cleanup_paths(src: Seq<u8>, skip_org: bool, dst: Seq<u8>, org: Option<Seq<u8>>) -> Seq<Seq<u8>> {
    if !skip_org && org is Some {
        seq![dest_path(dst, src), dest_path(org->0, src)]
    } else {
        seq![dest_path(dst, src)]
    }
}

impl Ovrd {
    pub fn new(src: &[u8], clean: bool, skip_org: bool) -> (r: Ovrd)
        ensures
            r.src@ == src@,
            r.flags == (OvrdFlags { clean, skip_org }),
    {
        let mut v: Vec<u8> = Vec::new();
        crate::text::push_all(&mut v, src);
        Ovrd { src: v, flags: OvrdFlags { clean, skip_org } }
    }

    /// The manifest line that declares this override in the directory named `dst_name`.
    pub fn build_cif_override_line(&self, dst_name: &[u8]) -> (r: Vec<u8>)
        ensures
            r@ == declaration(dst_name@, self.src@),
    {
        declaration_line(dst_name, self.src.as_slice())
    }

    /// The steps that make or refresh this override in `dst`, keeping the original
    /// in `org` unless the override is light, and taking the content of the
    /// secondary `layer` where it has the file and the override is new.
    pub fn add_override_files(
        &self,
        dst: &[u8],
        org: &Option<Vec<u8>>,
        layer: &Option<Vec<u8>>,
        facts: MaterializeFacts,
    ) -> (r: Result<(Vec<FileOp>, bool), OvrdError>)
        ensures
            match (r, materialize_steps(self.src@, self.flags.skip_org, dst@, opt_view(*org), opt_view(*layer), facts)) {
                (Ok((ops, first)), Ok((s, f))) => steps(ops@) == s && first == f,
                (Err(e), Err(f)) => e == f,
                _ => false,
            },
    {
        if !facts.src_is_file {
            return Err(OvrdError::NotAFile);
        }
        if !self.flags.skip_org && org.is_some() && !facts.org_is_dir {
            return Err(OvrdError::OrgNotDir);
        }
        let src = self.src.as_slice();
        let mut ops: Vec<FileOp> = Vec::new();
        if !facts.dst_exists {
            ops.push(FileOp::Copy { from: self.src.clone(), to: dest_path_of(dst, src) });
            match layer {
                Some(l) => {
                    if facts.layer_has_file {
                        ops.push(FileOp::Copy { from: dest_path_of(l.as_slice(), src), to: dest_path_of(dst, src) });
                    }
                },
                None => {},
            }
        }
        if !self.flags.skip_org {
            match org {
                Some(o) => {
                    ops.push(FileOp::Copy { from: self.src.clone(), to: dest_path_of(o.as_slice(), src) });
                },
                None => {},
            }
        }
        proof {
            match materialize_steps(self.src@, self.flags.skip_org, dst@, opt_view(*org), opt_view(*layer), facts) {
                Ok((s, f)) => {
                    assert(steps(ops@) =~= s);
                },
                Err(_) => {},
            }
        }
        Ok((ops, !facts.dst_exists))
    }

    /// The files that cleaning this override removes, where they are files: its
    /// copy in `dst` and, unless the override is light, its original in `org`.
    pub fn del_override_files(&self, dst: &[u8], org: &Option<Vec<u8>>) -> (r: Vec<Vec<u8>>)
        ensures
            crate::text::views(r@) == cleanup_paths(self.src@, self.flags.skip_org, dst@, opt_view(*org)),
    {
        let src = self.src.as_slice();
        let mut r: Vec<Vec<u8>> = Vec::new();
        r.push(dest_path_of(dst, src));
        if !self.flags.skip_org {
            match org {
                Some(o) => {
                    r.push(dest_path_of(o.as_slice(), src));
                },
                None => {},
            }
        }
        assert(crate::text::views(r@) =~= cleanup_paths(self.src@, self.flags.skip_org, dst@, opt_view(*org)));
        r
    }

    /// Declares this override in the manifest, before its first component
    /// terminator, when it was made for the first time; returns whether a line went in.
    pub fn override_add(&self, manifest: &mut Manifest, dst_name: &[u8], first_time: bool) -> (r: bool)
        ensures
            first_time ==> final(manifest)@ == appended(old(manifest)@, declaration(dst_name@, self.src@)),
            !first_time ==> final(manifest)@ == old(manifest)@,
            r == (first_time && final(manifest)@ != old(manifest)@),
    {
        if first_time {
            let line = self.build_cif_override_line(dst_name);
            let done = manifest.append(line);
            proof {
                if done {
                    assert(manifest@.len() == old(manifest)@.len() + 1);
                }
            }
            done
        } else {
            false
        }
    }

    /// Drops the declarations of this override from the manifest; returns how many went.
    pub fn override_del(&self, manifest: &mut Manifest, dst_name: &[u8]) -> (r: usize)
        ensures
            final(manifest)@ == without(old(manifest)@, dest_path(dst_name@, self.src@)),
            r == count_declaring(old(manifest)@, dest_path(dst_name@, self.src@)),
    {
        let d = dest_path_of(dst_name, self.src.as_slice());
        manifest.remove(d.as_slice())
    }

    /// Puts the declaration of `new` in the place of each declaration of this
    /// override; returns how many were replaced.
    pub fn override_replace_with(&self, new: &Ovrd, manifest: &mut Manifest, dst_name: &[u8]) -> (r: usize)
        ensures
            final(manifest)@ == replaced(
                old(manifest)@,
                dest_path(dst_name@, self.src@),
                declaration(dst_name@, new.src@),
            ),
            r == count_declaring(old(manifest)@, dest_path(dst_name@, self.src@)),
    {
        let d = dest_path_of(dst_name, self.src.as_slice());
        let line = new.build_cif_override_line(dst_name);
        manifest.replace(d.as_slice(), line.as_slice())
    }
}

/// Materializing an override a second time, with nothing else changed, does not
/// write its destination copy again: once the first call has made the copy, the
/// second call only refreshes the original and reports that the override is not new.
pub proof fn lemma_materialize_idempotent(
    src: Seq<u8>,
    skip_org: bool,
    dst: Seq<u8>,
    org: Option<Seq<u8>>,
    layer: Option<Seq<u8>>,
    facts: MaterializeFacts,
)
    requires
        materialize_steps(src, skip_org, dst, org, layer, facts) is Ok,
    ensures
        ({
            let again = MaterializeFacts { dst_exists: true, ..facts };
            let baseline: Seq<FileStep> = if !skip_org && org is Some {
                seq![FileStep::Copy { from: src, to: dest_path(org->0, src) }]
            } else {
                Seq::empty()
            };
            &&& materialize_steps(src, skip_org, dst, org, layer, again) == Ok::<(Seq<FileStep>, bool), OvrdError>((baseline, false))
            &&& !facts.dst_exists ==> materialize_steps(src, skip_org, dst, org, layer, facts)->Ok_0.0[0]
                == (FileStep::Copy { from: src, to: dest_path(dst, src) })
        }),
{
    let again = MaterializeFacts { dst_exists: true, ..facts };
    match materialize_steps(src, skip_org, dst, org, layer, again) {
        Ok((s, f)) => {
            let baseline: Seq<FileStep> = if !skip_org && org is Some {
                seq![FileStep::Copy { from: src, to: dest_path(org->0, src) }]
            } else {
                Seq::empty()
            };
            assert(s =~= baseline);
        },
        Err(_) => {},
    }
}

} // verus!
