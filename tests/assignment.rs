use ilias_upload::assignment::{Assignment, AssignmentSubmission, SubmissionRow};
use ilias_upload::date::{DateParseError, WallClock};
use ilias_upload::file::{PageElement, ParseError};
use ilias_upload::form::FormPart;
use ilias_upload::sections::{AttachmentRow, InfoSection};
use ilias_upload::upload::{NamedLocalFile, PreselectDeleteSetting, UploadProvider};

fn now() -> WallClock {
    WallClock { year: 2024, month: 6, day: 15, hour: 10, minute: 0, second: 0 }
}

fn s(v: &str) -> Option<String> {
    Some(v.to_string())
}

fn section(header: &str, value: Option<&str>) -> InfoSection {
    InfoSection { header: s(header), first_value: value.map(|v| v.to_string()), rows: vec![], first_link: None }
}

fn sections(deadline: &str) -> Vec<InfoSection> {
    let mut files = section("Files", None);
    files.rows = vec![AttachmentRow { name: s("sheet.pdf"), link: s("dl.php?f=1") }];
    let mut submission = section("Your Submission", None);
    submission.first_link = Some(s("ilias.php?cmd=submissionScreen"));
    vec![section("Work Instructions", Some("Solve it")), section("Schedule", Some(deadline)), files, submission]
}

#[test]
fn parses_assignment_sections() {
    let a = Assignment::parse(s("Sheet 1"), &sections("Morgen, 12:00:00"), &now()).unwrap();
    assert_eq!(a.name, "Sheet 1");
    assert_eq!(a.instructions, "Solve it");
    assert_eq!(a.submission_date, WallClock { year: 2024, month: 6, day: 16, hour: 12, minute: 0, second: 0 });
    assert_eq!(a.attachments.len(), 1);
    assert_eq!(a.attachments[0].name, "sheet.pdf");
    assert_eq!(a.attachments[0].download_querypath.as_deref(), Some("dl.php?f=1"));
    assert_eq!(a.submission_link().as_deref(), Some("ilias.php?cmd=submissionScreen"));
    assert!(a.get_submission().is_none());
}

#[test]
fn german_labels_are_found() {
    let secs = vec![
        section("Arbeitsanweisung", Some("Lösen")),
        section("Terminplan", Some("5. Mai 2023, 08:15:00")),
        section("Ihre Einreichung", None),
    ];
    let a = Assignment::parse(s("Blatt"), &secs, &now()).unwrap();
    assert_eq!(a.instructions, "Lösen");
    assert!(a.attachments.is_empty());
    assert_eq!(a.submission_link(), None);
}

#[test]
fn is_active_only_before_deadline() {
    let n = now();
    let future = Assignment::parse(s("a"), &sections("Heute, 10:00:01"), &n).unwrap();
    let equal = Assignment::parse(s("a"), &sections("Heute, 10:00:00"), &n).unwrap();
    let past = Assignment::parse(s("a"), &sections("Gestern, 23:00:00"), &n).unwrap();
    assert!(future.is_active(&n));
    assert!(!equal.is_active(&n));
    assert!(!past.is_active(&n));
}

#[test]
fn missing_parts_are_reported() {
    let n = now();
    assert_eq!(Assignment::parse(None, &sections("Heute, 10:00:00"), &n).err(), Some(ParseError::MissingElement(PageElement::Name)));
    let mut secs = sections("Heute, 10:00:00");
    secs.remove(0);
    assert_eq!(Assignment::parse(s("a"), &secs, &n).err(), Some(ParseError::MissingElement(PageElement::Instructions)));
    let mut secs = sections("Heute, 10:00:00");
    secs.remove(1);
    assert_eq!(Assignment::parse(s("a"), &secs, &n).err(), Some(ParseError::MissingElement(PageElement::Schedule)));
    let mut secs = sections("Heute, 10:00:00");
    secs[1].first_value = None;
    assert_eq!(Assignment::parse(s("a"), &secs, &n).err(), Some(ParseError::MissingElement(PageElement::Deadline)));
    let mut secs = sections("Heute, 10:00:00");
    secs[0].first_value = None;
    assert_eq!(Assignment::parse(s("a"), &secs, &n).err(), Some(ParseError::MissingElement(PageElement::InstructionText)));
    let mut secs = sections("Heute, 10:00:00");
    secs.remove(3);
    let a = Assignment::parse(s("a"), &secs, &n).unwrap();
    assert_eq!(a.submission_link(), None);
    assert!(a.get_submission().is_none());
    let mut secs = sections("Heute, 10:00:00");
    secs[3].first_link = Some(None);
    assert_eq!(Assignment::parse(s("a"), &secs, &n).err(), Some(ParseError::MissingElement(PageElement::SubmissionLink)));
    let mut secs = sections("Heute, 10:00:00");
    secs[2].rows[0].link = None;
    assert_eq!(Assignment::parse(s("a"), &secs, &n).err(), Some(ParseError::MissingElement(PageElement::AttachmentLink)));
    let mut secs = sections("Heute, 10:00:00");
    secs[2].rows[0].name = None;
    assert_eq!(Assignment::parse(s("a"), &secs, &n).err(), Some(ParseError::MissingElement(PageElement::AttachmentName)));
    let mut secs = sections("Heute, 10:00:00");
    secs.push(InfoSection { header: None, first_value: None, rows: vec![], first_link: None });
    assert_eq!(Assignment::parse(s("a"), &secs, &n).err(), Some(ParseError::MissingElement(PageElement::SectionHeader)));
    assert_eq!(
        Assignment::parse(s("a"), &sections("Heute"), &n).err(),
        Some(ParseError::Date(DateParseError::MissingSeparator))
    );
}

fn row(id: &str, name: &str) -> SubmissionRow {
    SubmissionRow { id: s(id), name: s(name), date: s("Heute, 09:00:00"), link: s("dl.php?id=1") }
}

fn submission(rows: &Vec<SubmissionRow>) -> AssignmentSubmission {
    let page = AssignmentSubmission::parse_submissions_page(rows, s("del.php"), s("dialog.php"), &now()).unwrap();
    assert_eq!(page.upload_dialog_querypath, "dialog.php");
    AssignmentSubmission::from_pages(page, s("up.php")).unwrap()
}

#[test]
fn submission_page_is_read() {
    let sub = submission(&vec![row("11", "old.pdf"), row("12", "notes.txt")]);
    assert_eq!(sub.submissions.len(), 2);
    assert_eq!(sub.submissions[0].id.as_deref(), Some("11"));
    assert_eq!(sub.submissions[1].name, "notes.txt");
    assert_eq!(sub.submissions[0].date, Some(WallClock { year: 2024, month: 6, day: 15, hour: 9, minute: 0, second: 0 }));
    assert_eq!(sub.delete_querypath(), "del.php");
    assert_eq!(sub.upload_querypath(), "up.php");
}

#[test]
fn submission_page_errors() {
    let n = now();
    let mut bad = row("1", "a");
    bad.id = None;
    assert_eq!(
        AssignmentSubmission::parse_submissions_page(&vec![bad], s("d"), s("u"), &n).err(),
        Some(ParseError::MissingElement(PageElement::FileId))
    );
    let mut bad = row("1", "a");
    bad.date = s("garbage");
    assert_eq!(
        AssignmentSubmission::parse_submissions_page(&vec![bad], s("d"), s("u"), &n).err(),
        Some(ParseError::Date(DateParseError::MissingSeparator))
    );
    let mut bad = row("1", "a");
    bad.link = None;
    assert_eq!(
        AssignmentSubmission::parse_submissions_page(&vec![bad], s("d"), s("u"), &n).err(),
        Some(ParseError::MissingElement(PageElement::DownloadLink))
    );
    assert_eq!(
        AssignmentSubmission::parse_submissions_page(&vec![], None, s("u"), &n).err(),
        Some(ParseError::MissingElement(PageElement::DeleteForm))
    );
    assert_eq!(
        AssignmentSubmission::parse_submissions_page(&vec![], s("d"), None, &n).err(),
        Some(ParseError::MissingElement(PageElement::UploadButton))
    );
    let page = AssignmentSubmission::parse_submissions_page(&vec![], s("d"), s("u"), &n).unwrap();
    assert_eq!(AssignmentSubmission::from_pages(page, None).err().map(|e| e), Some(ParseError::MissingElement(PageElement::UploadForm)));
}

#[test]
fn submission_resolves_once() {
    let mut a = Assignment::parse(s("a"), &sections("Morgen, 12:00:00"), &now()).unwrap();
    a.resolve_submission(submission(&vec![row("1", "first.pdf")]));
    assert_eq!(a.get_submission().unwrap().submissions[0].name, "first.pdf");
    assert_eq!(a.submission_link(), None);
    a.resolve_submission(submission(&vec![row("2", "second.pdf")]));
    assert_eq!(a.get_submission().unwrap().submissions[0].name, "first.pdf");
}

#[test]
fn delete_and_upload_forms() {
    let sub = submission(&vec![row("11", "old.pdf"), row("12", "notes.txt")]);
    let fields = sub.delete_form(&vec![1]).unwrap();
    assert_eq!(fields.len(), 2);
    assert_eq!((fields[0].name.as_str(), fields[0].value.as_str()), ("delivered[]", "12"));
    assert_eq!((fields[1].name.as_str(), fields[1].value.as_str()), ("cmd[deleteDelivered]", "Löschen"));
    let files: Vec<NamedLocalFile> = (0..12)
        .map(|i| NamedLocalFile { name: format!("n{}", i), path: format!("p{}", i) })
        .collect();
    let parts = sub.upload_form(&files);
    assert_eq!(parts.len(), 14);
    match &parts[11] {
        FormPart::File { field, path, file_name } => {
            assert_eq!(field, "deliver[11]");
            assert_eq!(path, "p11");
            assert_eq!(file_name, "n11");
        }
        _ => panic!("expected a file part"),
    }
    assert!(matches!(&parts[12], FormPart::Text { field, value } if field == "cmd[uploadFile]" && value == "Hochladen"));
    assert!(matches!(&parts[13], FormPart::Text { field, value } if field == "ilfilehash" && value == "aaaa"));
}

#[test]
fn submission_preselection() {
    let sub = submission(&vec![row("11", "old.pdf"), row("12", "notes.txt")]);
    let uploads = vec![NamedLocalFile { name: "old.pdf".to_string(), path: "x".to_string() }];
    assert_eq!(sub.preselect_files(PreselectDeleteSetting::Smart, &uploads), vec![true, false]);
    assert_eq!(sub.preselect_files(PreselectDeleteSetting::All, &uploads), vec![true, true]);
    assert_eq!(sub.get_existing_files(), vec!["old.pdf".to_string(), "notes.txt".to_string()]);
}
