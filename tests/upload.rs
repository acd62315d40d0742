use ilias_upload::file::File;
use ilias_upload::upload::ExistingFile;
use ilias_upload::upload::{
    choose_preselect_setting, choose_upload_type, contains_config_file, preselect_names,
    upload_summary, Arguments, Config, NamedLocalFile, PreselectDeleteSetting, UploadType,
};

fn local(name: &str) -> NamedLocalFile {
    NamedLocalFile { name: name.to_string(), path: format!("/tmp/{}", name) }
}

fn names(v: &[&str]) -> Vec<String> {
    v.iter().map(|s| s.to_string()).collect()
}

#[test]
fn smart_preselects_only_colliding_names() {
    let existing = names(&["a.txt", "b.txt"]);
    let uploads = vec![local("a.txt")];
    assert_eq!(preselect_names(PreselectDeleteSetting::Smart, &uploads, &existing), vec![true, false]);
}

#[test]
fn all_and_nothing_policies() {
    let existing = names(&["a.txt", "b.txt"]);
    let uploads = vec![local("a.txt")];
    assert_eq!(preselect_names(PreselectDeleteSetting::All, &uploads, &existing), vec![true, true]);
    assert_eq!(preselect_names(PreselectDeleteSetting::Nothing, &uploads, &existing), vec![false, false]);
}

#[test]
fn smart_with_no_uploads_or_no_files() {
    assert_eq!(preselect_names(PreselectDeleteSetting::Smart, &vec![], &names(&["a"])), vec![false]);
    assert_eq!(preselect_names(PreselectDeleteSetting::All, &vec![local("a")], &vec![]), Vec::<bool>::new());
}

#[test]
fn delete_messages() {
    assert_eq!(
        UploadType::Exercise.get_delete_message(),
        "This excercise already has uploaded files. Do you want to delete any of them?"
    );
    assert_eq!(
        UploadType::Folder.get_delete_message(),
        "There are already files in this folder. Do you want to delete any of them?"
    );
}

#[test]
fn config_file_detection() {
    assert!(contains_config_file(&names(&["src", ".ilias_upload", "Cargo.toml"])));
    assert!(!contains_config_file(&names(&["src", ".ilias_upload.bak"])));
    assert!(!contains_config_file(&vec![]));
}

fn args(preselect: Option<PreselectDeleteSetting>, upload_type: Option<UploadType>) -> Arguments {
    Arguments {
        file_paths: vec!["a".to_string()],
        ilias_id: None,
        search_depth: 3,
        username: None,
        password: None,
        store_password: true,
        preselect_delete: preselect,
        upload_type,
    }
}

fn config(preselect: Option<PreselectDeleteSetting>, upload_type: Option<UploadType>) -> Config {
    Config {
        username: None,
        ilias_id: None,
        preselect_delete: preselect,
        transform_regex: None,
        transform_format: None,
        upload_type,
    }
}

#[test]
fn command_line_wins_then_config_then_default() {
    let a = args(Some(PreselectDeleteSetting::All), None);
    let c = config(Some(PreselectDeleteSetting::Nothing), Some(UploadType::Folder));
    assert_eq!(choose_preselect_setting(&a, &c), PreselectDeleteSetting::All);
    assert_eq!(choose_upload_type(&a, &c), UploadType::Folder);
    let a = args(None, None);
    let c = config(None, None);
    assert_eq!(choose_preselect_setting(&a, &c), PreselectDeleteSetting::Smart);
    assert_eq!(choose_upload_type(&a, &c), UploadType::Exercise);
}

#[test]
fn summary_lists_uploaded_files() {
    let files = vec![
        NamedLocalFile { name: "x.pdf".to_string(), path: "dir/1.pdf".to_string() },
        NamedLocalFile { name: "y.pdf".to_string(), path: "2.pdf".to_string() },
    ];
    assert_eq!(upload_summary(&files), "Uploaded \"dir/1.pdf\" as x.pdf, \"2.pdf\" as y.pdf successfully!");
    assert_eq!(upload_summary(&vec![]), "Uploaded  successfully!");
}

#[test]
fn only_files_with_an_id_can_be_deleted() {
    let with_id = File { name: "a.pdf".to_string(), description: None, date: None, download_querypath: None, id: Some("9".to_string()) };
    let e = ExistingFile::from_file(&with_id).unwrap();
    assert_eq!((e.name.as_str(), e.id.as_str()), ("a.pdf", "9"));
    let without = File { id: None, ..with_id };
    assert!(ExistingFile::from_file(&without).is_none());
}
