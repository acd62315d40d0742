use ilias_upload::date::WallClock;
use ilias_upload::file::{PageElement, ParseError};
use ilias_upload::folder::{Folder, FolderElement, FolderEntry, IliasUploadResponse};
use ilias_upload::form::FormPart;
use ilias_upload::upload::{NamedLocalFile, PreselectDeleteSetting, UploadProvider};

fn now() -> WallClock {
    WallClock { year: 2024, month: 6, day: 15, hour: 10, minute: 0, second: 0 }
}

fn props(v: &[&str]) -> Vec<String> {
    v.iter().map(|s| s.to_string()).collect()
}

#[test]
fn file_link_classifies_as_file() {
    let e = FolderElement::extract_from_querypath(
        "ilias.php?target=file_42&cmd=sendfile".to_string(),
        "report".to_string(),
        "the report".to_string(),
        Some("ilias.php?cmd=delete&ref_id=42".to_string()),
        &props(&["pdf", "12 KB", "Heute, 09:30:00", "Gestern, 08:00:00"]),
        &now(),
    )
    .unwrap();
    let f = e.file().unwrap();
    assert_eq!(f.id.as_deref(), Some("42"));
    assert_eq!(f.name, "report.pdf");
    assert_eq!(f.description.as_deref(), Some("the report"));
    assert_eq!(f.date, Some(WallClock { year: 2024, month: 6, day: 15, hour: 9, minute: 30, second: 0 }));
    assert_eq!(f.download_querypath.as_deref(), Some("ilias.php?target=file_42&cmd=sendfile"));
    assert_eq!(e.id().map(|s| s.as_str()), Some("42"));
    assert_eq!(e.deletion_querypath().map(|s| s.as_str()), Some("ilias.php?cmd=delete&ref_id=42"));
    assert_eq!(e.label(), "report.pdf");
}

#[test]
fn file_without_date_property() {
    let e = FolderElement::extract_from_querypath(
        "goto.php?target=file_7_download".to_string(),
        "a".to_string(),
        "".to_string(),
        None,
        &props(&["txt", "1 KB"]),
        &now(),
    )
    .unwrap();
    assert_eq!(e.file().unwrap().date, None);
    assert_eq!(e.file().unwrap().id.as_deref(), Some("7"));
}

#[test]
fn opencast_link_classifies_as_opencast() {
    let e = FolderElement::extract_from_querypath(
        "ilias.php?baseClass=ilObjPluginDispatchGUI&cmd=forward&forwardCmd=showContent&ref_id=7".to_string(),
        "Lectures".to_string(),
        "".to_string(),
        None,
        &vec![],
        &now(),
    )
    .unwrap();
    assert!(matches!(&e, FolderElement::Opencast { id, .. } if id == "7"));
    assert_eq!(e.label(), "OpenCast Lectures");
    assert!(e.file().is_none());
}

#[test]
fn repository_link_classifies_as_viewable() {
    let e = FolderElement::extract_from_querypath(
        "ilias.php?ref_id=99&cmd=view&baseClass=ilrepositorygui".to_string(),
        "Sub".to_string(),
        "".to_string(),
        None,
        &vec![],
        &now(),
    )
    .unwrap();
    assert!(matches!(&e, FolderElement::Viewable { id, .. } if id == "99"));
    assert_eq!(e.label(), "Folder(-like) Sub");
}

#[test]
fn unrelated_link_is_dropped() {
    let e = FolderElement::extract_from_querypath(
        "ilias.php?cmd=showForum&ref_id=3".to_string(),
        "Forum".to_string(),
        "".to_string(),
        None,
        &vec![],
        &now(),
    );
    assert!(e.is_none());
}

fn entry(link: &str) -> FolderEntry {
    FolderEntry {
        name: Some("report".to_string()),
        link: Some(link.to_string()),
        description: Some("d".to_string()),
        properties: props(&["pdf", "Heute, 08:00:00"]),
        actions: vec![None, Some("ilias.php?cmd=info".to_string()), Some("ilias.php?cmd=delete&item=1".to_string())],
    }
}

#[test]
fn entry_is_read_from_absolute_link() {
    let e = FolderElement::parse(&entry("https://ilias.studium.kit.edu/goto.php?target=file_42_download"), &now()).unwrap();
    let f = e.file().unwrap();
    assert_eq!(f.id.as_deref(), Some("42"));
    assert_eq!(f.download_querypath.as_deref(), Some("goto.php?target=file_42_download"));
    assert_eq!(e.deletion_querypath().map(|s| s.as_str()), Some("ilias.php?cmd=delete&item=1"));
}

#[test]
fn entry_without_title_or_absolute_link_is_dropped() {
    let mut e = entry("https://x.org/goto.php?target=file_1");
    e.name = None;
    assert!(FolderElement::parse(&e, &now()).is_none());
    assert!(FolderElement::parse(&entry("goto.php?target=file_1"), &now()).is_none());
}

fn folder() -> Folder {
    let entries = vec![
        entry("https://x.org/goto.php?target=file_1"),
        entry("https://x.org/ilias.php?cmd=showForum"),
        FolderEntry { name: Some("b".to_string()), properties: props(&["txt"]), ..entry("https://x.org/goto.php?target=file_2") },
    ];
    Folder::parse(
        Some("Folder".to_string()),
        Some("Desc".to_string()),
        Some("ilias.php?ref_id=5".to_string()),
        &entries,
        Some("upload.php".to_string()),
        &now(),
    )
    .unwrap()
}

#[test]
fn folder_keeps_classified_entries() {
    let f = folder();
    assert_eq!(f.name, "Folder");
    assert_eq!(f.id, "ilias.php?ref_id=5");
    assert_eq!(f.elements.len(), 2);
    assert_eq!(f.existing_file_positions(), vec![0, 1]);
    assert_eq!(f.get_existing_files(), vec!["report.pdf".to_string(), "b.txt".to_string()]);
    assert_eq!(f.upload_page_querypath().map(|s| s.as_str()), Some("upload.php"));
}

#[test]
fn folder_errors_and_missing_description() {
    let n = now();
    assert_eq!(Folder::parse(None, Some("d".into()), Some("i".into()), &vec![], None, &n).err(), Some(ParseError::MissingElement(PageElement::Name)));
    let f = Folder::parse(Some("n".into()), None, Some("i".into()), &vec![], None, &n).unwrap();
    assert_eq!(f.description, "");
    assert_eq!(f.name, "n");
    assert_eq!(Folder::parse(Some("n".into()), Some("d".into()), None, &vec![], None, &n).err(), Some(ParseError::MissingElement(PageElement::FolderId)));
}

#[test]
fn folder_preselection() {
    let f = folder();
    let uploads = vec![NamedLocalFile { name: "b.txt".to_string(), path: "b.txt".to_string() }];
    assert_eq!(f.preselect_positions(PreselectDeleteSetting::Smart, &uploads), vec![(0, false), (1, true)]);
    assert_eq!(f.preselect_positions(PreselectDeleteSetting::Nothing, &uploads), vec![(0, false), (1, false)]);
    assert_eq!(f.preselect_files(PreselectDeleteSetting::Smart, &uploads), vec![false, true]);
    assert_eq!(f.preselect_files(PreselectDeleteSetting::All, &uploads), vec![true, true]);
}

#[test]
fn upload_endpoint_from_script() {
    let script = "il.UI.Input.File.init('il_ui_fw_1', 'ilias.php?cmd=uploadFile&x=1', 'remove');";
    let u = Folder::upload_endpoints(Some("finish.php".to_string()), Some(script.to_string())).unwrap();
    assert_eq!(u.upload_querypath, "ilias.php?cmd=uploadFile&x=1");
    assert_eq!(u.finish_querypath, "finish.php");
    assert_eq!(
        Folder::upload_endpoints(Some("f".to_string()), Some("nothing here".to_string())).err(),
        Some(ParseError::MissingElement(PageElement::UploadEndpoint))
    );
    assert_eq!(
        Folder::upload_endpoints(None, Some(script.to_string())).err(),
        Some(ParseError::MissingElement(PageElement::UploadForm))
    );
}

#[test]
fn folder_upload_and_delete_forms() {
    let file = NamedLocalFile { name: "x.pdf".to_string(), path: "/tmp/y.pdf".to_string() };
    let content = Folder::content_form(&file);
    assert!(matches!(&content[0], FormPart::File { field, path, file_name } if field == "file[0]" && path == "/tmp/y.pdf" && file_name == "x.pdf"));
    let response = IliasUploadResponse { status: 1, message: "ok".to_string(), file_id: "abc".to_string() };
    let finish = Folder::finish_form("x.pdf", &response);
    assert!(matches!(&finish[0], FormPart::Text { field, value } if field == "form/input_0[input_1][]" && value == "x.pdf"));
    assert!(matches!(&finish[1], FormPart::Text { field, value } if field == "form/input_0[input_2][]" && value.is_empty()));
    assert!(matches!(&finish[2], FormPart::Text { field, value } if field == "form/input_0[input_3][]" && value == "abc"));
    let f = folder();
    let del = f.elements[1].delete_form().unwrap();
    assert_eq!((del[0].name.as_str(), del[0].value.as_str()), ("id[]", "2"));
    assert_eq!(del[1].name, "cmd[confirmedDelete]");
}
