use ilias_upload::querypath::{goto_querypath_of, join_querypath, split_querypath};

#[test]
fn querypath_round_trip_through_url() {
    let q = "ilias.php?ref_id=5&cmd=view";
    let (path, query) = split_querypath(q);
    let mut url = reqwest::Url::parse("https://ilias.studium.kit.edu/").unwrap();
    url.set_path(&path);
    url.set_query(query.as_deref());
    assert_eq!(join_querypath(url.path(), url.query()), q);
}

#[test]
fn split_at_first_question_mark() {
    let (path, query) = split_querypath("a.php?x=1?y=2");
    assert_eq!(path, "a.php");
    assert_eq!(query.as_deref(), Some("x=1?y=2"));
}

#[test]
fn split_without_query() {
    let (path, query) = split_querypath("goto.php");
    assert_eq!(path, "goto.php");
    assert_eq!(query, None);
}

#[test]
fn join_strips_leading_slash() {
    assert_eq!(join_querypath("/ilias.php", Some("a=b")), "ilias.php?a=b");
    assert_eq!(join_querypath("ilias.php", None), "ilias.php");
    assert_eq!(join_querypath("/x", Some("")), "x?");
}

#[test]
fn goto_querypath_for_folder_and_exercise() {
    assert_eq!(goto_querypath_of("fold", "123"), "goto.php?target=fold_123&client_id=produktiv");
    assert_eq!(
        ilias_upload::folder::Folder::querypath_from_id("9"),
        "goto.php?target=fold_9&client_id=produktiv"
    );
    assert_eq!(
        ilias_upload::exercise::Exercise::querypath_from_id("77"),
        "goto.php?target=exc_77&client_id=produktiv"
    );
}
