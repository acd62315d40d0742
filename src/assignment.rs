//! Assignments of an exercise, and the submission of files to one.

use vstd::prelude::*;
use crate::date::{DateParseError, date_of, parse_local_date, WallClock};
use crate::file::{File, FileView, PageElement, ParseError};
use crate::form::{FormField, FormPart, FormPartView, text_field};
use crate::text::{decimal, decimal_string};
use crate::upload::{NamedLocalFile, PreselectDeleteSetting, UploadProvider, preselect_name, preselected};
use crate::sections::{AttachmentRow, InfoSection, find_labelled, first_labelled};

verus! {

/// A submission as first read from the assignment (a link to its page), or
/// as read from that page.
pub enum Submission {
    Unresolved(String),
    Parsed(AssignmentSubmission),
}

/// The files already handed in for an assignment and the two form endpoints
/// that delete and upload them.
pub struct AssignmentSubmission {
    pub submissions: Vec<File>,
    delete_querypath: String,
    upload_querypath: String,
}

/// An assignment: its texts, its deadline, the files attached to it and,
/// where one can be made, its submission.
pub struct Assignment {
    pub name: String,
    pub instructions: String,
    pub submission_date: WallClock,
    pub attachments: Vec<File>,
    submission: Option<Submission>,
}

/// A submission as plain values.
pub struct AssignmentSubmissionView {
    pub submissions: Seq<FileView>,
    pub delete_querypath: Seq<char>,
    pub upload_querypath: Seq<char>,
}

pub enum SubmissionView {
    Unresolved(Seq<char>),
    Parsed(AssignmentSubmissionView),
}

/// An assignment as plain values.
pub struct AssignmentView {
    pub name: Seq<char>,
    pub instructions: Seq<char>,
    pub submission_date: WallClock,
    pub attachments: Seq<FileView>,
    pub submission: Option<SubmissionView>,
}

pub open spec fn files_view(files: Seq<File>) -> Seq<FileView> {
    files.map_values(|f: File| f@)
}

impl View for AssignmentSubmission {
    type V = AssignmentSubmissionView;

    closed spec fn view(&self) -> AssignmentSubmissionView {
        AssignmentSubmissionView {
            submissions: files_view(self.submissions@),
            delete_querypath: self.delete_querypath@,
            upload_querypath: self.upload_querypath@,
        }
    }
}

impl View for Submission {
    type V = SubmissionView;

    open spec fn view(&self) -> SubmissionView {
        match self {
            Submission::Unresolved(l) => SubmissionView::Unresolved(l@),
            Submission::Parsed(s) => SubmissionView::Parsed(s@),
        }
    }
}

pub open spec fn submission_view(s: Option<Submission>) -> Option<SubmissionView> {
    match s {
        Some(s) => Some(s@),
        None => None,
    }
}

impl View for Assignment {
    type V = AssignmentView;

    closed spec fn view(&self) -> AssignmentView {
        AssignmentView {
            name: self.name@,
            instructions: self.instructions@,
            submission_date: self.submission_date,
            attachments: files_view(self.attachments@),
            submission: submission_view(self.submission),
        }
    }
}

/// The file that an attachment row stands for, or the part it lacks.
pub open spec fn attachment_of(row: AttachmentRow) -> Result<FileView, ParseError> {
    match row.name {
        None => Err(ParseError::MissingElement(PageElement::AttachmentName)),
        Some(n) => match row.link {
            None => Err(ParseError::MissingElement(PageElement::AttachmentLink)),
            Some(l) => Ok(
                FileView {
                    name: n@,
                    description: None,
                    date: None,
                    download_querypath: Some(l@),
                    id: None,
                },
            ),
        },
    }
}

/// The files of a list of attachment rows, or the first part missing.
pub open spec fn attachments_of(rows: Seq<AttachmentRow>) -> Result<Seq<FileView>, ParseError>
    decreases rows.len(),
{
    if rows.len() == 0 {
        Ok(Seq::empty())
    } else {
        match attachments_of(rows.drop_last()) {
            Err(e) => Err(e),
            Ok(fs) => match attachment_of(rows.last()) {
                Err(e) => Err(e),
                Ok(f) => Ok(fs.push(f)),
            },
        }
    }
}

/// Every section has a header.
pub open spec fn headers_complete(secs: Seq<InfoSection>) -> bool {
    forall|k: int| 0 <= k < secs.len() ==> (#[trigger] secs[k]).header is Some
}

/// What the sections of an assignment say of it, `now` being the current time:
/// the assignment, or the first thing found missing.
pub open spec fn assignment_of(
    name: Option<String>,
    secs: Seq<InfoSection>,
    now: WallClock,
) -> Result<AssignmentView, ParseError> {
    let ii = first_labelled(secs, "Arbeitsanweisung"@, "Work Instructions"@);
    let si = first_labelled(secs, "Terminplan"@, "Schedule"@);
    let ai = first_labelled(secs, "Dateien"@, "Files"@);
    let bi = first_labelled(secs, "Ihre Einreichung"@, "Your Submission"@);
    if name is None {
        Err(ParseError::MissingElement(PageElement::Name))
    } else if !headers_complete(secs) {
        Err(ParseError::MissingElement(PageElement::SectionHeader))
    } else if ii < 0 {
        Err(ParseError::MissingElement(PageElement::Instructions))
    } else if secs[ii].first_value is None {
        Err(ParseError::MissingElement(PageElement::InstructionText))
    } else if si < 0 {
        Err(ParseError::MissingElement(PageElement::Schedule))
    } else if secs[si].first_value is None {
        Err(ParseError::MissingElement(PageElement::Deadline))
    } else {
        match date_of(secs[si].first_value.unwrap()@, now) {
            Err(e) => Err(ParseError::Date(e)),
            Ok(deadline) => {
                let attachments = if ai < 0 {
                    Ok(Seq::empty())
                } else {
                    attachments_of(secs[ai].rows@)
                };
                match attachments {
                    Err(e) => Err(e),
                    Ok(files) => if bi < 0 {
                        Ok(
                            AssignmentView {
                                name: name.unwrap()@,
                                instructions: secs[ii].first_value.unwrap()@,
                                submission_date: deadline,
                                attachments: files,
                                submission: None,
                            },
                        )
                    } else {
                        match secs[bi].first_link {
                            Some(None) => Err(ParseError::MissingElement(PageElement::SubmissionLink)),
                            Some(Some(l)) => Ok(
                                AssignmentView {
                                    name: name.unwrap()@,
                                    instructions: secs[ii].first_value.unwrap()@,
                                    submission_date: deadline,
                                    attachments: files,
                                    submission: Some(SubmissionView::Unresolved(l@)),
                                },
                            ),
                            None => Ok(
                                AssignmentView {
                                    name: name.unwrap()@,
                                    instructions: secs[ii].first_value.unwrap()@,
                                    submission_date: deadline,
                                    attachments: files,
                                    submission: None,
                                },
                            ),
                        }
                    },
                }
            },
        }
    }
}

/// The sections are complete up to the deadline, and the deadline is a
/// well-formed date: only the local time zone can still refuse it.
pub open spec fn deadline_refusable(name: Option<String>, secs: Seq<InfoSection>, now: WallClock) -> bool {
    let ii = first_labelled(secs, "Arbeitsanweisung"@, "Work Instructions"@);
    let si = first_labelled(secs, "Terminplan"@, "Schedule"@);
    &&& name is Some
    &&& headers_complete(secs)
    &&& ii >= 0
    &&& secs[ii].first_value is Some
    &&& si >= 0
    &&& secs[si].first_value is Some
    &&& date_of(secs[si].first_value.unwrap()@, now) is Ok
}

/// The error for a wall-clock time that the local time zone skips.
pub open spec fn zone_refusal() -> ParseError {
    ParseError::Date(DateParseError::NonexistentLocalTime)
}

/// Reads the attached files of an assignment.
fn parse_attachments(rows: &Vec<AttachmentRow>) -> (r: Result<Vec<File>, ParseError>)
    ensures
        match r {
            Ok(fs) => attachments_of(rows@) == Ok::<Seq<FileView>, ParseError>(files_view(fs@)),
            Err(e) => attachments_of(rows@) == Err::<Seq<FileView>, ParseError>(e),
        },
{
    let mut files: Vec<File> = Vec::new();
    let mut i: usize = 0;
    assert(rows@.subrange(0, 0) =~= Seq::<AttachmentRow>::empty());
    assert(files_view(files@) =~= Seq::<FileView>::empty());
    while i < rows.len()
        invariant
            i <= rows.len(),
            attachments_of(rows@.subrange(0, i as int)) == Ok::<Seq<FileView>, ParseError>(
                files_view(files@),
            ),
        decreases rows.len() - i,
    {
        assert(rows@.subrange(0, i + 1).drop_last() =~= rows@.subrange(0, i as int));
        let row = &rows[i];
        let name = match &row.name {
            Some(n) => n.clone(),
            None => {
                proof { lemma_attachments_stop(rows@, i as int + 1); }
                return Err(ParseError::MissingElement(PageElement::AttachmentName));
            },
        };
        let link = match &row.link {
            Some(l) => l.clone(),
            None => {
                proof { lemma_attachments_stop(rows@, i as int + 1); }
                return Err(ParseError::MissingElement(PageElement::AttachmentLink));
            },
        };
        let ghost before = files@;
        files.push(File { name, description: None, date: None, download_querypath: Some(link), id: None });
        assert(files_view(files@) =~= files_view(before).push(files@.last()@));
        i = i + 1;
    }
    assert(rows@.subrange(0, rows.len() as int) =~= rows@);
    Ok(files)
}

impl Assignment {
    /// Reads an assignment from its name and its information sections, `now`
    /// being the current time: the instructions and the schedule must be
    /// there, the attached files and the submission may be absent. A
    /// deadline that the local time zone skips is refused.
    pub fn parse(name: Option<String>, secs: &Vec<InfoSection>, now: &WallClock) -> (r: Result<
        Assignment,
        ParseError,
    >)
        requires
            now.wf(),
        ensures
            match r {
                Ok(a) => assignment_of(name, secs@, *now) == Ok::<AssignmentView, ParseError>(a@),
                Err(e) => assignment_of(name, secs@, *now) == Err::<AssignmentView, ParseError>(e) || (e
                    == zone_refusal() && deadline_refusable(name, secs@, *now)),
            },
    {
        if name.is_none() {
            return Err(ParseError::MissingElement(PageElement::Name));
        }
        let mut k: usize = 0;
        while k < secs.len()
            invariant
                k <= secs.len(),
                name is Some,
                forall|j: int| 0 <= j < k ==> (#[trigger] secs@[j]).header is Some,
            decreases secs.len() - k,
        {
            if secs[k].header.is_none() {
                assert((secs@[k as int]).header is None);
                return Err(ParseError::MissingElement(PageElement::SectionHeader));
            }
            k = k + 1;
        }
        let title = name.unwrap();
        let ii = match find_labelled(secs, "Arbeitsanweisung", "Work Instructions") {
            Some(i) => i,
            None => return Err(ParseError::MissingElement(PageElement::Instructions)),
        };
        let instructions = match &secs[ii].first_value {
            Some(v) => v.clone(),
            None => return Err(ParseError::MissingElement(PageElement::InstructionText)),
        };
        let si = match find_labelled(secs, "Terminplan", "Schedule") {
            Some(i) => i,
            None => return Err(ParseError::MissingElement(PageElement::Schedule)),
        };
        let deadline_text = match &secs[si].first_value {
            Some(v) => v,
            None => return Err(ParseError::MissingElement(PageElement::Deadline)),
        };
        let submission_date = match parse_local_date(deadline_text.as_str(), now) {
            Ok(d) => d,
            Err(e) => return Err(ParseError::Date(e)),
        };
        let attachments = match find_labelled(secs, "Dateien", "Files") {
            Some(ai) => parse_attachments(&secs[ai].rows)?,
            None => Vec::new(),
        };
        let submission = match find_labelled(secs, "Ihre Einreichung", "Your Submission") {
            Some(bi) => match &secs[bi].first_link {
                Some(Some(l)) => Some(Submission::Unresolved(l.clone())),
                Some(None) => return Err(ParseError::MissingElement(PageElement::SubmissionLink)),
                None => None,
            },
            None => None,
        };
        let a = Assignment { name: title, instructions, submission_date, attachments, submission };
        proof {
            if a.attachments.len() == 0 {
                assert(files_view(a.attachments@) =~= Seq::<FileView>::empty());
            }
        }
        Ok(a)
    }

    /// Whether the deadline is still ahead of `now`.
    pub fn is_active(&self, now: &WallClock) -> (r: bool)
        ensures
            r == now.precedes(self@.submission_date),
    {
        now.is_before(&self.submission_date)
    }
}

impl Assignment {
    /// The link to the submission page, while the submission is not read yet.
    pub fn submission_link(&self) -> (r: Option<String>)
        ensures
            match r {
                Some(l) => self@.submission == Some(SubmissionView::Unresolved(l@)),
                None => !(self@.submission matches Some(SubmissionView::Unresolved(_))),
            },
    {
        match &self.submission {
            Some(Submission::Unresolved(l)) => Some(l.clone()),
            _ => None,
        }
    }

    /// Records the submission read from the submission page. This happens
    /// once: a submission that was read already, or an assignment without
    /// one, stays as it is.
    pub fn resolve_submission(&mut self, parsed: AssignmentSubmission)
        ensures
            old(self)@.submission matches Some(SubmissionView::Unresolved(_)) ==> final(self)@ == (
            AssignmentView { submission: Some(SubmissionView::Parsed(parsed@)), ..old(self)@ }),
            !(old(self)@.submission matches Some(SubmissionView::Unresolved(_))) ==> final(self)@
                == old(self)@,
    {
        if let Some(Submission::Unresolved(_)) = &self.submission {
            self.submission = Some(Submission::Parsed(parsed));
        }
    }

    /// The submission, once it was read.
    pub fn get_submission(&self) -> (r: Option<&AssignmentSubmission>)
        ensures
            match r {
                Some(s) => self@.submission == Some(SubmissionView::Parsed(s@)),
                None => !(self@.submission matches Some(SubmissionView::Parsed(_))),
            },
    {
        match &self.submission {
            Some(Submission::Parsed(s)) => Some(s),
            _ => None,
        }
    }
}

/// The field name of the `i`-th file of a submission upload.
pub open spec fn deliver_field(i: nat) -> Seq<char> {
    "deliver["@ + decimal(i) + "]"@
}

impl AssignmentSubmission {
    /// The endpoint that the deletion form goes to.
    pub fn delete_querypath(&self) -> (r: &String)
        ensures
            r@ == self.delete_view(),
    {
        &self.delete_querypath
    }

    /// The endpoint that the upload form goes to.
    pub fn upload_querypath(&self) -> (r: &String)
        ensures
            r@ == self.upload_view(),
    {
        &self.upload_querypath
    }

    /// The deletion form for the chosen handed-in files: one `delivered[]`
    /// field with each file's id, then the delete command. `None` where a
    /// chosen file has no id.
    pub fn delete_form(&self, chosen: &Vec<usize>) -> (r: Option<Vec<FormField>>)
        requires
            forall|i: int| 0 <= i < chosen.len() ==> chosen[i] < self@.submissions.len(),
        ensures
            (exists|i: int| 0 <= i < chosen.len() && self@.submissions[#[trigger] chosen[i] as int].id is None)
                <==> r is None,
            r matches Some(fs) ==> {
                &&& fs.len() == chosen.len() + 1
                &&& forall|i: int| 0 <= i < chosen.len() ==> fs[i].name@ == "delivered[]"@
                    && self@.submissions[#[trigger] chosen[i] as int].id == Some(fs[i].value@)
                &&& fs[chosen.len() as int].name@ == "cmd[deleteDelivered]"@
                &&& fs[chosen.len() as int].value@ == "Löschen"@
            },
    {
        let mut fs: Vec<FormField> = Vec::new();
        let mut i: usize = 0;
        while i < chosen.len()
            invariant
                i <= chosen.len(),
                fs.len() == i,
                forall|k: int| 0 <= k < chosen.len() ==> chosen[k] < self@.submissions.len(),
                forall|k: int| 0 <= k < i ==> fs[k].name@ == "delivered[]"@
                    && self@.submissions[#[trigger] chosen[k] as int].id == Some(fs[k].value@),
            decreases chosen.len() - i,
        {
            let f = &self.submissions[chosen[i]];
            assert(self@.submissions[chosen[i as int] as int] == f@);
            match &f.id {
                Some(id) => fs.push(text_field("delivered[]", id.as_str())),
                None => return None,
            }
            i = i + 1;
        }
        fs.push(text_field("cmd[deleteDelivered]", "Löschen"));
        Some(fs)
    }

    /// The upload form for the given files: the `i`-th file under
    /// `deliver[i]` with its target name, then the upload command and the
    /// form's hash field.
    pub fn upload_form(&self, files: &Vec<NamedLocalFile>) -> (r: Vec<FormPart>)
        requires
            files.len() < usize::MAX,
        ensures
            r.len() == files.len() + 2,
            forall|i: int| 0 <= i < files.len() ==> r[i]@ == (FormPartView::File {
                field: deliver_field(i as nat),
                path: files[i].path@,
                file_name: files[i].name@,
            }),
            r[files.len() as int]@ == (FormPartView::Text { field: "cmd[uploadFile]"@, value: "Hochladen"@ }),
            r[files.len() + 1]@ == (FormPartView::Text { field: "ilfilehash"@, value: "aaaa"@ }),
    {
        let mut parts: Vec<FormPart> = Vec::new();
        let mut i: usize = 0;
        while i < files.len()
            invariant
                i <= files.len(),
                parts.len() == i,
                forall|k: int| 0 <= k < i ==> parts[k]@ == (FormPartView::File {
                    field: deliver_field(k as nat),
                    path: files[k].path@,
                    file_name: files[k].name@,
                }),
            decreases files.len() - i,
        {
            let mut field = "deliver[".to_owned();
            field.append(decimal_string(i).as_str());
            field.append("]");
            parts.push(FormPart::File { field, path: files[i].path.clone(), file_name: files[i].name.clone() });
            i = i + 1;
        }
        parts.push(FormPart::Text { field: "cmd[uploadFile]".to_owned(), value: "Hochladen".to_owned() });
        parts.push(FormPart::Text { field: "ilfilehash".to_owned(), value: "aaaa".to_owned() });
        parts
    }
}

impl UploadProvider for AssignmentSubmission {
    open spec fn existing_names(&self) -> Seq<Seq<char>> {
        self@.submissions.map_values(|f: FileView| f.name)
    }

    fn get_existing_files(&self) -> (r: Vec<String>) {
        let mut r: Vec<String> = Vec::new();
        let mut i: usize = 0;
        while i < self.submissions.len()
            invariant
                i <= self.submissions.len(),
                r.len() == i,
                forall|k: int| 0 <= k < i ==> r[k]@ == self@.submissions[k].name,
            decreases self.submissions.len() - i,
        {
            r.push(self.submissions[i].name.clone());
            i = i + 1;
        }
        r
    }

    fn preselect_files(&self, setting: PreselectDeleteSetting, uploads: &Vec<NamedLocalFile>) -> (r: Vec<bool>) {
        let mut r: Vec<bool> = Vec::new();
        let mut i: usize = 0;
        while i < self.submissions.len()
            invariant
                i <= self.submissions.len(),
                r.len() == i,
                forall|k: int| 0 <= k < i ==> r[k] == preselected(setting, uploads@, self@.submissions[k].name),
            decreases self.submissions.len() - i,
        {
            r.push(preselect_name(setting, uploads, self.submissions[i].name.as_str()));
            i = i + 1;
        }
        r
    }
}

/// An assignment is active exactly when its deadline is later than the
/// current time: a deadline at or before the current time is not active.
pub proof fn lemma_active_iff_deadline_ahead(deadline: WallClock, now: WallClock)
    ensures
        now.precedes(deadline) <==> !(deadline == now || deadline.precedes(now)),
{
}

/// A row of the table of handed-in files, as read from the submission page.
pub struct SubmissionRow {
    /// The value of the row's checkbox.
    pub id: Option<String>,
    pub name: Option<String>,
    pub date: Option<String>,
    pub link: Option<String>,
}

/// The file that a row of handed-in files stands for, or what it lacks.
pub open spec fn submitted_file_of(row: SubmissionRow, now: WallClock) -> Result<FileView, ParseError> {
    match row.id {
        None => Err(ParseError::MissingElement(PageElement::FileId)),
        Some(id) => match row.name {
            None => Err(ParseError::MissingElement(PageElement::FileName)),
            Some(n) => match row.date {
                None => Err(ParseError::MissingElement(PageElement::FileDate)),
                Some(d) => match date_of(d@, now) {
                    Err(e) => Err(ParseError::Date(e)),
                    Ok(date) => match row.link {
                        None => Err(ParseError::MissingElement(PageElement::DownloadLink)),
                        Some(l) => Ok(
                            FileView {
                                name: n@,
                                description: None,
                                date: Some(date),
                                download_querypath: Some(l@),
                                id: Some(id@),
                            },
                        ),
                    },
                },
            },
        },
    }
}

/// The row has an id and a name, and its date is well-formed: only the
/// local time zone can still refuse it.
pub open spec fn row_refusable(row: SubmissionRow, now: WallClock) -> bool {
    &&& row.id is Some
    &&& row.name is Some
    &&& row.date matches Some(d) && date_of(d@, now) is Ok
}

/// What is wrong with a submission page, if anything: the first thing missing
/// among its rows, then its deletion form, then its upload button.
pub open spec fn page_error(
    rows: Seq<SubmissionRow>,
    delete_action: Option<String>,
    upload_button_action: Option<String>,
    now: WallClock,
) -> Option<ParseError> {
    match submitted_files_of(rows, now) {
        Err(e) => Some(e),
        Ok(_) => if delete_action is None {
            Some(ParseError::MissingElement(PageElement::DeleteForm))
        } else if upload_button_action is None {
            Some(ParseError::MissingElement(PageElement::UploadButton))
        } else {
            None
        },
    }
}

/// The files of the rows of handed-in files, or the first thing missing.
pub open spec fn submitted_files_of(rows: Seq<SubmissionRow>, now: WallClock) -> Result<Seq<FileView>, ParseError>
    decreases rows.len(),
{
    if rows.len() == 0 {
        Ok(Seq::empty())
    } else {
        match submitted_files_of(rows.drop_last(), now) {
            Err(e) => Err(e),
            Ok(fs) => match submitted_file_of(rows.last(), now) {
                Err(e) => Err(e),
                Ok(f) => Ok(fs.push(f)),
            },
        }
    }
}

proof fn lemma_submitted_files_stop(rows: Seq<SubmissionRow>, now: WallClock, k: int)
    requires
        0 < k <= rows.len(),
        submitted_files_of(rows.subrange(0, k), now) is Err,
    ensures
        submitted_files_of(rows, now) == submitted_files_of(rows.subrange(0, k), now),
    decreases rows.len() - k,
{
    if k < rows.len() {
        assert(rows.subrange(0, k + 1).drop_last() =~= rows.subrange(0, k));
        lemma_submitted_files_stop(rows, now, k + 1);
    } else {
        assert(rows.subrange(0, k) =~= rows);
    }
}

/// Reads one row of handed-in files.
fn parse_submitted_file(row: &SubmissionRow, now: &WallClock) -> (r: Result<File, ParseError>)
    requires
        now.wf(),
    ensures
        match r {
            Ok(f) => submitted_file_of(*row, *now) == Ok::<FileView, ParseError>(f@),
            Err(e) => submitted_file_of(*row, *now) == Err::<FileView, ParseError>(e) || (e == zone_refusal()
                && row_refusable(*row, *now)),
        },
{
    let id = match &row.id {
        Some(v) => v.clone(),
        None => return Err(ParseError::MissingElement(PageElement::FileId)),
    };
    let name = match &row.name {
        Some(v) => v.clone(),
        None => return Err(ParseError::MissingElement(PageElement::FileName)),
    };
    let date = match &row.date {
        Some(v) => match parse_local_date(v.as_str(), now) {
            Ok(d) => d,
            Err(e) => return Err(ParseError::Date(e)),
        },
        None => return Err(ParseError::MissingElement(PageElement::FileDate)),
    };
    let link = match &row.link {
        Some(v) => v.clone(),
        None => return Err(ParseError::MissingElement(PageElement::DownloadLink)),
    };
    Ok(File { name, description: None, date: Some(date), download_querypath: Some(link), id: Some(id) })
}

/// The submission page before its upload dialog was read: the handed-in
/// files, the deletion endpoint and the link that opens the upload dialog.
pub struct SubmissionPage {
    pub submissions: Vec<File>,
    pub delete_querypath: String,
    pub upload_dialog_querypath: String,
}

impl AssignmentSubmission {
    pub closed spec fn delete_view(&self) -> Seq<char> {
        self.delete_querypath@
    }

    pub closed spec fn upload_view(&self) -> Seq<char> {
        self.upload_querypath@
    }

    /// Reads the submission page from its rows of handed-in files, the
    /// action of its deletion form and the target of its upload button.
    pub fn parse_submissions_page(
        rows: &Vec<SubmissionRow>,
        delete_action: Option<String>,
        upload_button_action: Option<String>,
        now: &WallClock,
    ) -> (r: Result<SubmissionPage, ParseError>)
        requires
            now.wf(),
        ensures
            r matches Ok(p) ==> page_error(rows@, delete_action, upload_button_action, *now) is None
                && submitted_files_of(rows@, *now) == Ok::<Seq<FileView>, ParseError>(files_view(p.submissions@))
                && delete_action == Some(p.delete_querypath)
                && upload_button_action == Some(p.upload_dialog_querypath),
            r matches Err(e) ==> page_error(rows@, delete_action, upload_button_action, *now) == Some(e) || (e
                == zone_refusal() && exists|k: int| 0 <= k < rows.len() && row_refusable(#[trigger] rows@[k], *now)),
    {
        let mut files: Vec<File> = Vec::new();
        let mut i: usize = 0;
        assert(rows@.subrange(0, 0) =~= Seq::<SubmissionRow>::empty());
        assert(files_view(files@) =~= Seq::<FileView>::empty());
        while i < rows.len()
            invariant
                i <= rows.len(),
                now.wf(),
                submitted_files_of(rows@.subrange(0, i as int), *now) == Ok::<Seq<FileView>, ParseError>(
                    files_view(files@),
                ),
            decreases rows.len() - i,
        {
            assert(rows@.subrange(0, i + 1).drop_last() =~= rows@.subrange(0, i as int));
            match parse_submitted_file(&rows[i], now) {
                Ok(f) => {
                    let ghost before = files@;
                    files.push(f);
                    assert(files_view(files@) =~= files_view(before).push(files@.last()@));
                },
                Err(e) => {
                    proof {
                        if submitted_file_of(rows@[i as int], *now) == Err::<FileView, ParseError>(e) {
                            lemma_submitted_files_stop(rows@, *now, i as int + 1);
                        } else {
                            assert(row_refusable(rows@[i as int], *now));
                        }
                    }
                    return Err(e);
                },
            }
            i = i + 1;
        }
        assert(rows@.subrange(0, rows.len() as int) =~= rows@);
        let delete_querypath = match delete_action {
            Some(a) => a,
            None => return Err(ParseError::MissingElement(PageElement::DeleteForm)),
        };
        let upload_dialog_querypath = match upload_button_action {
            Some(a) => a,
            None => return Err(ParseError::MissingElement(PageElement::UploadButton)),
        };
        Ok(SubmissionPage { submissions: files, delete_querypath, upload_dialog_querypath })
    }

    /// Completes a submission page with the action of the upload dialog's form.
    pub fn from_pages(page: SubmissionPage, upload_form_action: Option<String>) -> (r: Result<
        AssignmentSubmission,
        ParseError,
    >)
        ensures
            upload_form_action is None ==> r == Err::<AssignmentSubmission, ParseError>(
                ParseError::MissingElement(PageElement::UploadForm),
            ),
            upload_form_action matches Some(u) ==> r matches Ok(s) && s@ == (AssignmentSubmissionView {
                submissions: files_view(page.submissions@),
                delete_querypath: page.delete_querypath@,
                upload_querypath: u@,
            }),
    {
        match upload_form_action {
            Some(u) => Ok(
                AssignmentSubmission {
                    submissions: page.submissions,
                    delete_querypath: page.delete_querypath,
                    upload_querypath: u,
                },
            ),
            None => Err(ParseError::MissingElement(PageElement::UploadForm)),
        }
    }
}

/// Once a prefix of the rows fails, all the rows fail the same way.
proof fn lemma_attachments_stop(rows: Seq<AttachmentRow>, k: int)
    requires
        0 < k <= rows.len(),
        attachments_of(rows.subrange(0, k)) is Err,
    ensures
        attachments_of(rows) == attachments_of(rows.subrange(0, k)),
    decreases rows.len() - k,
{
    if k < rows.len() {
        assert(rows.subrange(0, k + 1).drop_last() =~= rows.subrange(0, k));
        lemma_attachments_stop(rows, k + 1);
    } else {
        assert(rows.subrange(0, k) =~= rows);
    }
}

} // verus!
