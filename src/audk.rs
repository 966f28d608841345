use vstd::prelude::*;

use crate::ovrd::opt_view;

verus! {

/// The configuration of the tool, as its file holds it. Paths are in slash form.
#[derive(Debug)]
pub struct Json {
    pub project: Project,
    pub ibvovrd: Option<StdOvrd>,
    pub oemovrd: Option<StdOvrd>,
    pub aptio_v: Option<AptioV>,
}

/// The workspace of the development kit.
#[derive(Debug)]
pub struct Project {
    pub workspace: Option<Vec<u8>>,
}

/// An override layer: its manifest, where the overrides are, where the originals are.
#[derive(Debug)]
pub struct StdOvrd {
    pub cif: Option<Vec<u8>>,
    pub dst: Option<Vec<u8>>,
    pub org: Option<Vec<u8>>,
}

/// What building a project needs.
#[derive(Debug)]
pub struct AptioV {
    pub project: AptioProject,
    pub toolkit: AptioToolkit,
    pub scripts: Option<Scripts>,
}

#[derive(Debug)]
pub struct AptioProject {
    pub veb: Option<Vec<u8>>,
}

#[derive(Debug)]
pub struct AptioToolkit {
    pub ewdk: Option<Vec<u8>>,
    pub tools: Option<Vec<u8>>,
    pub pycmd: Option<Vec<u8>>,
}

/// Scripts run before and after a build.
#[derive(Debug)]
pub struct Scripts {
    pub fore_build: Option<Vec<ScriptsDesc>>,
    pub post_build: Option<Vec<ScriptsDesc>>,
}

#[derive(Debug)]
pub struct ScriptsDesc {
    pub interpreter: Vec<u8>,
    pub opts: Option<Vec<u8>>,
    pub file: Vec<u8>,
}

/// A setting that neither the command line nor the configuration gives.
#[derive(Clone, Copy, Debug, PartialEq, Eq, Structural)]
pub enum ConfigError {
    /// The configuration has no primary override layer.
    NoOemovrd,
    /// Neither gives the manifest.
    NoCif,
    /// Neither gives the destination directory.
    NoDst,
}

/// The settings of a reconciliation: the manifest, the destination directory, the
/// directory of originals and the secondary layer's directory, where given.
#[derive(Debug, PartialEq, Eq)]
pub struct Resolved {
    pub cif: Vec<u8>,
    pub dst: Vec<u8>,
    pub org: Option<Vec<u8>>,
    pub layer: Option<Vec<u8>>,
}

/// A setting: the command line's where it gives one, else the configuration's.
pub open spec fn pick(
    given: Option<Seq<u8>>,
    cfg: Option<Option<Seq<u8>>>,
    missing: ConfigError,
) -> Result<Seq<u8>, ConfigError> {
    match given {
        Some(v) => Ok(v),
        None => match cfg {
            None => Err(ConfigError::NoOemovrd),
            Some(None) => Err(missing),
            Some(Some(v)) => Ok(v),
        },
    }
}

pub open spec fn field_cif(o: Option<StdOvrd>) -> Option<Option<Seq<u8>>> {
    match o {
        Some(s) => Some(opt_view(s.cif)),
        None => None,
    }
}

pub open spec fn field_dst(o: Option<StdOvrd>) -> Option<Option<Seq<u8>>> {
    match o {
        Some(s) => Some(opt_view(s.dst)),
        None => None,
    }
}

fn copy_opt(o: &Option<Vec<u8>>) -> (r: Option<Vec<u8>>)
    ensures
        opt_view(r) == opt_view(*o),
{
    match o {
        Some(v) => {
            let c = crate::text::copy_range(v.as_slice(), 0, v.len());
            assert(v@.subrange(0, v@.len() as int) =~= v@);
            Some(c)
        },
        None => None,
    }
}

fn pick_setting(given: &Option<Vec<u8>>, cfg: Option<&Option<Vec<u8>>>, missing: ConfigError) -> (r: Result<Vec<u8>, ConfigError>)
    ensures
        match (r, pick(opt_view(*given), match cfg { Some(c) => Some(opt_view(*c)), None => None }, missing)) {
            (Ok(v), Ok(w)) => v@ == w,
            (Err(e), Err(f)) => e == f,
            _ => false,
        },
{
    match copy_opt(given) {
        Some(v) => Ok(v),
        None => match cfg {
            None => Err(ConfigError::NoOemovrd),
            Some(c) => match copy_opt(c) {
                Some(v) => Ok(v),
                None => Err(missing),
            },
        },
    }
}

impl StdOvrd {
    /// The settings of a reconciliation, each taken from the command line (`self`)
    /// where it gives one, else from the configured primary layer; the secondary
    /// layer's directory comes from the configuration alone.
    pub fn resolve(&self, cfg_oemovrd: &Option<StdOvrd>, cfg_ibvovrd: &Option<StdOvrd>) -> (r: Result<Resolved, ConfigError>)
        ensures
            match r {
                Ok(s) => {
                    &&& pick(opt_view(self.cif), field_cif(*cfg_oemovrd), ConfigError::NoCif) == Ok::<Seq<u8>, ConfigError>(s.cif@)
                    &&& pick(opt_view(self.dst), field_dst(*cfg_oemovrd), ConfigError::NoDst) == Ok::<Seq<u8>, ConfigError>(s.dst@)
                    &&& opt_view(s.org) == match self.org {
                        Some(o) => Some(o@),
                        None => opt_view(cfg_oemovrd->0.org),
                    }
                    &&& (self.org is None ==> cfg_oemovrd is Some)
                    &&& opt_view(s.layer) == match cfg_ibvovrd {
                        Some(l) => opt_view(l.dst),
                        None => None,
                    }
                },
                Err(e) => {
                    ||| pick(opt_view(self.cif), field_cif(*cfg_oemovrd), ConfigError::NoCif) == Err::<Seq<u8>, ConfigError>(e)
                    ||| (pick(opt_view(self.cif), field_cif(*cfg_oemovrd), ConfigError::NoCif) is Ok
                        && pick(opt_view(self.dst), field_dst(*cfg_oemovrd), ConfigError::NoDst) == Err::<Seq<u8>, ConfigError>(e))
                    ||| (pick(opt_view(self.cif), field_cif(*cfg_oemovrd), ConfigError::NoCif) is Ok
                        && pick(opt_view(self.dst), field_dst(*cfg_oemovrd), ConfigError::NoDst) is Ok
                        && self.org is None && cfg_oemovrd is None && e == ConfigError::NoOemovrd)
                },
            },
    {
        let cfg_cif = match cfg_oemovrd {
            Some(c) => Some(&c.cif),
            None => None,
        };
        let cif = match pick_setting(&self.cif, cfg_cif, ConfigError::NoCif) {
            Ok(v) => v,
            Err(e) => return Err(e),
        };
        let cfg_dst = match cfg_oemovrd {
            Some(c) => Some(&c.dst),
            None => None,
        };
        let dst = match pick_setting(&self.dst, cfg_dst, ConfigError::NoDst) {
            Ok(v) => v,
            Err(e) => return Err(e),
        };
        let org = match &self.org {
            Some(o) => copy_opt(&self.org),
            None => match cfg_oemovrd {
                Some(c) => copy_opt(&c.org),
                None => return Err(ConfigError::NoOemovrd),
            },
        };
        let layer = match cfg_ibvovrd {
            Some(l) => copy_opt(&l.dst),
            None => None,
        };
        Ok(Resolved { cif, dst, org, layer })
    }
}

} // verus!
