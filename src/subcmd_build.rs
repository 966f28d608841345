use vstd::prelude::*;

use crate::audk::AptioProject;
use crate::audk::AptioToolkit;
use crate::audk::AptioV as Build;

verus! {

impl Build {
    /// Nothing given: every setting of the build comes from the configuration.
    pub fn new() -> (r: Build)
        ensures
            r.project.veb is None,
            r.toolkit.ewdk is None,
            r.toolkit.tools is None,
            r.toolkit.pycmd is None,
            r.scripts is None,
    {
        Build {
            project: AptioProject { veb: None },
            toolkit: AptioToolkit { ewdk: None, tools: None, pycmd: None },
            scripts: None,
        }
    }
}

} // verus!
