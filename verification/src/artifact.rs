//! Resolved artifacts: a source file together with the component that owns
//! it, and the output path that follows from the two.

use vstd::prelude::*;
use crate::blueprint::{FileView, XcFile};

verus! {

/// What a resolved artifact is: the display name of the owning component,
/// that component's ancestor-qualified path, and the file.
pub struct ArtifactView {
    pub component: Seq<char>,
    pub path: Seq<char>,
    pub file: FileView,
}

/// The output path of an artifact, relative to the write root: below the
/// owning component's path when files are collated, the bare file name when
/// they are not.
pub open spec fn output_path(a: ArtifactView, collate: bool) -> Seq<char> {
    if collate {
        a.path + seq!['/'] + a.file.name
    } else {
        a.file.name
    }
}

/// A source file paired with the component that owns it.
#[derive(Debug)]
pub struct XcFileMeta {
    component_name: String,
    component_path: String,
    inner: XcFile,
}

impl View for XcFileMeta {
    type V = ArtifactView;

    closed spec fn view(&self) -> ArtifactView {
        ArtifactView {
            component: self.component_name@,
            path: self.component_path@,
            file: self.inner@,
        }
    }
}

impl XcFileMeta {
    /// The artifact of a file owned by a top-level component, whose path is
    /// its display name.
    pub fn new(component_name: String, inner: XcFile) -> (r: XcFileMeta)
        ensures
            r@ == (ArtifactView {
                component: component_name@,
                path: component_name@,
                file: inner@,
            }),
    {
        let component_path = component_name.clone();
        XcFileMeta { component_name, component_path, inner }
    }

    /// The artifact of a file owned by a component at any depth, given the
    /// component's display name and its ancestor-qualified path.
    pub fn nested(component_name: String, component_path: String, inner: XcFile) -> (r: XcFileMeta)
        ensures
            r@ == (ArtifactView {
                component: component_name@,
                path: component_path@,
                file: inner@,
            }),
    {
        XcFileMeta { component_name, component_path, inner }
    }

    /// The display name of the owning component.
    pub fn component(&self) -> (r: &str)
        ensures
            r@ == self@.component,
    {
        self.component_name.as_str()
    }

    /// The ancestor-qualified path of the owning component.
    pub fn component_path(&self) -> (r: &str)
        ensures
            r@ == self@.path,
    {
        self.component_path.as_str()
    }

    /// The name of the file.
    pub fn file_name(&self) -> (r: &str)
        ensures
            r@ == self@.file.name,
    {
        self.inner.name.as_str()
    }

    /// The text of the file.
    pub fn file_content(&self) -> (r: &str)
        ensures
            r@ == self@.file.content,
    {
        self.inner.plain_code.as_str()
    }

    /// The path at which the file is written, relative to the write root.
    pub fn output_path(&self, collate: bool) -> (r: String)
        ensures
            r@ == output_path(self@, collate),
    {
        if collate {
            let mut r = self.component_path.clone();
            proof {
                reveal_strlit("/");
            }
            r.append("/");
            r.append(self.inner.name.as_str());
            r
        } else {
            self.inner.name.clone()
        }
    }
}

impl Clone for XcFileMeta {
    fn clone(&self) -> (r: XcFileMeta)
        ensures
            r@ == self@,
    {
        XcFileMeta {
            component_name: self.component_name.clone(),
            component_path: self.component_path.clone(),
            inner: self.inner.clone(),
        }
    }
}

} // verus!
