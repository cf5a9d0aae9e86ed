//! Type-declaration export for `tinvoke`: the fixed declaration stub, the
//! record definitions that are exported, and the decisions of an export run.
//!
//! Nothing here touches the file system. The library says which file holds
//! which text and which step of an export run comes next; the caller reads,
//! writes and reports back.

use vstd::prelude::*;
use crate::path::{join, joined};
use crate::stub::{Artifact, ArtifactView, STUB_CONTENT, STUB_FILE_NAME};

pub mod directory;
pub mod export;
pub mod path;
pub mod record;
pub mod registry;
pub mod stub;
pub mod trace;
pub mod user;

verus! {

/// The stub file for the directory `dir_path`: `tinvoke.d.ts` directly inside
/// it, holding the fixed stub text whatever the directory is.
///
/// Writing the file replaces one of the same name and leaves the rest of the
/// directory alone; the directory itself has to exist already.
pub fn build(dir_path: &str) -> (stub: Artifact)
    ensures
        stub@ == (ArtifactView {
            path: joined(dir_path@, STUB_FILE_NAME@),
            content: STUB_CONTENT@,
        }),
{
    Artifact::new(join(dir_path, STUB_FILE_NAME), String::from_str(STUB_CONTENT))
}

} // verus!
