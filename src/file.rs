//! Files held by the portal, and the errors met while reading its pages.

use vstd::prelude::*;
use crate::date::{DateParseError, WallClock};

verus! {

/// The characters of an optional string.
pub open spec fn opt_view(o: Option<String>) -> Option<Seq<char>> {
    match o {
        Some(s) => Some(s@),
        None => None,
    }
}

/// The text of an optional string; empty where there is none.
pub open spec fn text_or_empty(o: Option<String>) -> Seq<char> {
    match o {
        Some(s) => s@,
        None => Seq::empty(),
    }
}

/// A file on the portal. Only a file with an `id` can be deleted.
pub struct File {
    pub name: String,
    pub description: Option<String>,
    pub date: Option<WallClock>,
    pub download_querypath: Option<String>,
    pub id: Option<String>,
}

/// A file on the portal, as plain values.
pub struct FileView {
    pub name: Seq<char>,
    pub description: Option<Seq<char>>,
    pub date: Option<WallClock>,
    pub download_querypath: Option<Seq<char>>,
    pub id: Option<Seq<char>>,
}

impl View for File {
    type V = FileView;

    open spec fn view(&self) -> FileView {
        FileView {
            name: self.name@,
            description: opt_view(self.description),
            date: self.date,
            download_querypath: opt_view(self.download_querypath),
            id: opt_view(self.id),
        }
    }
}

impl File {
    /// The text a file is shown by: its name.
    pub fn label(&self) -> (r: String)
        ensures
            r@ == self.name@,
    {
        self.name.clone()
    }
}

/// A part of a page that the portal's markup is expected to hold.
#[derive(Clone, Copy, Debug, PartialEq, Eq, Structural)]
pub enum PageElement {
    Name,
    SectionHeader,
    Instructions,
    InstructionText,
    Schedule,
    Deadline,
    AttachmentName,
    AttachmentLink,
    SubmissionLink,
    FileId,
    FileName,
    FileDate,
    DownloadLink,
    DeleteForm,
    UploadButton,
    UploadForm,
    FolderId,
    ConfirmationForm,
    UploadEndpoint,
    DeletionLink,
}

/// Why a page could not be read.
#[derive(Clone, Copy, Debug, PartialEq, Eq, Structural)]
pub enum ParseError {
    /// The page lacks an element that it must hold.
    MissingElement(PageElement),
    /// A date on the page is not in the portal's format.
    Date(DateParseError),
}

} // verus!
