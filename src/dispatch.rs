//! Which external viewer opens a document, chosen by its extension.
use vstd::prelude::*;
use crate::text::str_eq;

verus! {

/// How a document is opened.
#[derive(Clone, Copy, Debug, PartialEq, Eq, Structural)]
pub enum Viewer {
    /// The dedicated PDF viewer.
    Pdf,
    /// The operating system's opener for the file's default application.
    Generic,
}

/// The viewer for a (lower-cased) extension: `pdf` has its own, all others the generic one.
pub open spec fn viewer_of(ext: Seq<char>) -> Viewer {
    if ext == "pdf"@ {
        Viewer::Pdf
    } else {
        Viewer::Generic
    }
}

pub fn viewer_for(ext: &str) -> (r: Viewer)
    ensures
        r == viewer_of(ext@),
{
    if str_eq(ext, "pdf") {
        Viewer::Pdf
    } else {
        Viewer::Generic
    }
}

impl Viewer {
    /// The program run with the document's path as its only argument.
    pub fn program(&self) -> (r: &'static str)
        ensures
            *self == Viewer::Pdf ==> r@ == "zathura"@,
            *self == Viewer::Generic ==> r@ == "xdg-open"@,
    {
        match self {
            Viewer::Pdf => "zathura",
            Viewer::Generic => "xdg-open",
        }
    }
}

/// A document to open: the viewer to run and the path to hand it.
pub struct OpenRequest {
    pub viewer: Viewer,
    pub path: String,
}

impl OpenRequest {
    pub fn program(&self) -> (r: &'static str)
        ensures
            self.viewer == Viewer::Pdf ==> r@ == "zathura"@,
            self.viewer == Viewer::Generic ==> r@ == "xdg-open"@,
    {
        self.viewer.program()
    }
}

} // verus!
