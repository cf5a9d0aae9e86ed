//! The declaration stub: one fixed text that opens the `tinvoke` module's
//! `RouteMap` interface for later augmentation.

use vstd::prelude::*;

verus! {

/// The name of the stub file.
pub const STUB_FILE_NAME: &'static str = "tinvoke.d.ts";

/// The text of the stub file.
pub const STUB_CONTENT: &'static str =
    "export {};\n\ndeclare module \"tinvoke\" {\n  export interface RouteMap {}\n}\n";

/// A file to be written, as the contracts see it.
pub struct ArtifactView {
    pub path: Seq<char>,
    pub content: Seq<char>,
}

/// A file to be written: where it goes and the text it holds.
#[derive(Debug, PartialEq, Eq)]
pub struct Artifact {
    path: String,
    content: String,
}

impl View for Artifact {
    type V = ArtifactView;

    closed spec fn view(&self) -> ArtifactView {
        ArtifactView { path: self.path@, content: self.content@ }
    }
}

impl Artifact {
    pub fn new(path: String, content: String) -> (artifact: Artifact)
        ensures
            artifact@ == (ArtifactView { path: path@, content: content@ }),
    {
        Artifact { path, content }
    }

    pub fn path(&self) -> (path: &str)
        ensures
            path@ == self@.path,
    {
        self.path.as_str()
    }

    pub fn content(&self) -> (content: &str)
        ensures
            content@ == self@.content,
    {
        self.content.as_str()
    }
}

} // verus!
