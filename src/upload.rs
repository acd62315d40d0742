//! What is shared by every place that files are uploaded to: the local files
//! to upload, the deletion preselection policy, and the settings that choose
//! the target.

use vstd::prelude::*;
use crate::file::File;
use crate::text::{contains_seq, occurs_at, same_text};

verus! {

/// Which existing files a deletion prompt starts out with checked.
#[derive(Clone, Copy, Debug, PartialEq, Eq, Structural)]
pub enum PreselectDeleteSetting {
    /// Every existing file.
    All,
    /// Those whose name an upload takes over.
    Smart,
    /// None of them.
    Nothing,
}

/// The kind of place that files are uploaded to.
#[derive(Clone, Copy, Debug, PartialEq, Eq, Structural)]
pub enum UploadType {
    Exercise,
    Folder,
}

impl UploadType {
    /// The question asked before existing files are offered for deletion.
    pub fn get_delete_message(&self) -> (r: &'static str)
        ensures
            *self == UploadType::Exercise ==> r@
                == "This excercise already has uploaded files. Do you want to delete any of them?"@,
            *self == UploadType::Folder ==> r@
                == "There are already files in this folder. Do you want to delete any of them?"@,
    {
        match self {
            UploadType::Exercise => {
                "This excercise already has uploaded files. Do you want to delete any of them?"
            },
            UploadType::Folder => {
                "There are already files in this folder. Do you want to delete any of them?"
            },
        }
    }
}

/// A local file and the name it is uploaded under.
pub struct NamedLocalFile {
    pub name: String,
    pub path: String,
}

/// Some upload goes by this name.
pub open spec fn is_upload_name(uploads: Seq<NamedLocalFile>, name: Seq<char>) -> bool {
    exists|k: int| 0 <= k < uploads.len() && uploads[k].name@ == name
}

/// Whether an existing file of this name starts out checked for deletion.
pub open spec fn preselected(
    setting: PreselectDeleteSetting,
    uploads: Seq<NamedLocalFile>,
    name: Seq<char>,
) -> bool {
    match setting {
        PreselectDeleteSetting::All => true,
        PreselectDeleteSetting::Nothing => false,
        PreselectDeleteSetting::Smart => is_upload_name(uploads, name),
    }
}

/// Whether some upload goes by `name`.
pub fn has_upload_named(uploads: &Vec<NamedLocalFile>, name: &str) -> (r: bool)
    ensures
        r == is_upload_name(uploads@, name@),
{
    let mut k: usize = 0;
    while k < uploads.len()
        invariant
            k <= uploads.len(),
            forall|j: int| 0 <= j < k ==> uploads@[j].name@ != name@,
        decreases uploads.len() - k,
    {
        if same_text(uploads[k].name.as_str(), name) {
            return true;
        }
        k = k + 1;
    }
    false
}

/// Whether an existing file of this name starts out checked for deletion.
pub fn preselect_name(
    setting: PreselectDeleteSetting,
    uploads: &Vec<NamedLocalFile>,
    name: &str,
) -> (r: bool)
    ensures
        r == preselected(setting, uploads@, name@),
{
    match setting {
        PreselectDeleteSetting::All => true,
        PreselectDeleteSetting::Nothing => false,
        PreselectDeleteSetting::Smart => has_upload_named(uploads, name),
    }
}

/// For each existing file name, whether it starts out checked for deletion.
pub fn preselect_names(
    setting: PreselectDeleteSetting,
    uploads: &Vec<NamedLocalFile>,
    existing: &Vec<String>,
) -> (r: Vec<bool>)
    ensures
        r.len() == existing.len(),
        forall|i: int| 0 <= i < r.len() ==> r[i] == preselected(setting, uploads@, existing[i]@),
{
    let mut r: Vec<bool> = Vec::new();
    let mut i: usize = 0;
    while i < existing.len()
        invariant
            i <= existing.len(),
            r.len() == i,
            forall|j: int| 0 <= j < i ==> r[j] == preselected(setting, uploads@, existing[j]@),
        decreases existing.len() - i,
    {
        r.push(preselect_name(setting, uploads, existing[i].as_str()));
        i = i + 1;
    }
    r
}

/// The name of the file that holds the settings of a directory tree.
pub open spec fn config_file_name() -> Seq<char> {
    ".ilias_upload"@
}

/// Whether a directory with these entries holds the settings file.
pub fn contains_config_file(entry_names: &Vec<String>) -> (r: bool)
    ensures
        r == exists|k: int| 0 <= k < entry_names.len() && entry_names[k]@ == config_file_name(),
{
    let mut k: usize = 0;
    while k < entry_names.len()
        invariant
            k <= entry_names.len(),
            forall|j: int| 0 <= j < k ==> entry_names[j]@ != config_file_name(),
        decreases entry_names.len() - k,
    {
        if same_text(entry_names[k].as_str(), ".ilias_upload") {
            return true;
        }
        k = k + 1;
    }
    false
}

/// What every place that files are uploaded to offers: its existing files,
/// by name, and their preselection for deletion.
pub trait UploadProvider {
    /// The names of the existing files, in the order they are offered.
    spec fn existing_names(&self) -> Seq<Seq<char>>;

    /// The names of the existing files.
    fn get_existing_files(&self) -> (r: Vec<String>)
        ensures
            r.len() == self.existing_names().len(),
            forall|i: int| 0 <= i < r.len() ==> r[i]@ == self.existing_names()[i];

    /// For each existing file, whether the deletion prompt starts out with it checked.
    fn preselect_files(&self, setting: PreselectDeleteSetting, uploads: &Vec<NamedLocalFile>) -> (r: Vec<bool>)
        ensures
            r.len() == self.existing_names().len(),
            forall|i: int| 0 <= i < r.len() ==> r[i] == preselected(setting, uploads@, self.existing_names()[i]);
}

/// How one uploaded file is reported: `"<path>" as <name>`.
pub open spec fn upload_line(f: NamedLocalFile) -> Seq<char> {
    "\""@ + f.path@ + "\" as "@ + f.name@
}

/// The reports of the files, separated by `, `.
pub open spec fn upload_lines(fs: Seq<NamedLocalFile>) -> Seq<char>
    decreases fs.len(),
{
    if fs.len() == 0 {
        Seq::empty()
    } else if fs.len() == 1 {
        upload_line(fs[0])
    } else {
        upload_lines(fs.drop_last()) + ", "@ + upload_line(fs.last())
    }
}

/// The message that reports a finished upload.
pub fn upload_summary(files: &Vec<NamedLocalFile>) -> (r: String)
    ensures
        r@ == "Uploaded "@ + upload_lines(files@) + " successfully!"@,
{
    let mut lines = String::new();
    let mut i: usize = 0;
    while i < files.len()
        invariant
            i <= files.len(),
            lines@ == upload_lines(files@.subrange(0, i as int)),
        decreases files.len() - i,
    {
        let ghost prefix = files@.subrange(0, i + 1);
        assert(prefix.drop_last() =~= files@.subrange(0, i as int));
        assert(prefix.last() == files@[i as int]);
        if i > 0 {
            lines.append(", ");
        }
        lines.append("\"");
        lines.append(files[i].path.as_str());
        lines.append("\" as ");
        lines.append(files[i].name.as_str());
        proof {
            if i == 0 {
                assert(prefix.len() == 1);
                assert(upload_lines(files@.subrange(0, 0)) =~= Seq::<char>::empty());
                assert(lines@ =~= upload_line(prefix[0]));
            } else {
                assert(lines@ =~= upload_lines(prefix.drop_last()) + ", "@ + upload_line(prefix.last()));
            }
        }
        i = i + 1;
    }
    assert(files@.subrange(0, files.len() as int) =~= files@);
    let mut r = "Uploaded ".to_owned();
    r.append(lines.as_str());
    r.append(" successfully!");
    r
}

proof fn lemma_lines_name_every_file(fs: Seq<NamedLocalFile>, i: int)
    requires
        0 <= i < fs.len(),
    ensures
        contains_seq(upload_lines(fs), upload_line(fs[i])),
    decreases fs.len(),
{
    let line = upload_line(fs[i]);
    if fs.len() == 1 {
        assert(upload_lines(fs).subrange(0, line.len() as int) =~= line);
        assert(occurs_at(upload_lines(fs), line, 0));
    } else if i == fs.len() - 1 {
        let all = upload_lines(fs);
        let p = upload_lines(fs.drop_last()) + ", "@;
        assert(all == p + line);
        assert(all.subrange(p.len() as int, p.len() + line.len() as int) =~= line);
        assert(occurs_at(all, line, p.len() as int));
    } else {
        lemma_lines_name_every_file(fs.drop_last(), i);
        assert(fs.drop_last()[i] == fs[i]);
        let before = upload_lines(fs.drop_last());
        let j = choose|j: int| occurs_at(before, line, j);
        let all = upload_lines(fs);
        assert(all == before + (", "@ + upload_line(fs.last())));
        assert(all.subrange(j, j + line.len()) =~= before.subrange(j, j + line.len()));
        assert(occurs_at(all, line, j));
    }
}

/// The message that reports a finished upload names every uploaded file,
/// with its path and the name it was uploaded under.
pub proof fn lemma_summary_names_every_file(fs: Seq<NamedLocalFile>, i: int)
    requires
        0 <= i < fs.len(),
    ensures
        contains_seq("Uploaded "@ + upload_lines(fs) + " successfully!"@, upload_line(fs[i])),
{
    lemma_lines_name_every_file(fs, i);
    let line = upload_line(fs[i]);
    let lines = upload_lines(fs);
    let j = choose|j: int| occurs_at(lines, line, j);
    let head = "Uploaded "@;
    let msg = head + lines + " successfully!"@;
    assert(msg.subrange(head.len() + j, head.len() + j + line.len() as int) =~= lines.subrange(j, j + line.len()));
    assert(occurs_at(msg, line, head.len() + j));
}

/// A file that can be chosen for deletion: its name and its id.
pub struct ExistingFile {
    pub name: String,
    pub id: String,
}

impl ExistingFile {
    /// The deletion candidate for a file: only a file with an id can be deleted.
    pub fn from_file(f: &File) -> (r: Option<ExistingFile>)
        ensures
            f.id is None ==> r is None,
            f.id matches Some(id) ==> (r matches Some(e) && e.name@ == f.name@ && e.id@ == id@),
    {
        match &f.id {
            Some(id) => Some(ExistingFile { name: f.name.clone(), id: id.clone() }),
            None => None,
        }
    }
}

/// Settings read from the settings file; each may be absent.
pub struct Config {
    pub username: Option<String>,
    pub ilias_id: Option<String>,
    pub preselect_delete: Option<PreselectDeleteSetting>,
    pub transform_regex: Option<String>,
    pub transform_format: Option<String>,
    pub upload_type: Option<UploadType>,
}

/// Settings given on the command line.
pub struct Arguments {
    pub file_paths: Vec<String>,
    pub ilias_id: Option<String>,
    pub search_depth: i16,
    pub username: Option<String>,
    pub password: Option<String>,
    pub store_password: bool,
    pub preselect_delete: Option<PreselectDeleteSetting>,
    pub upload_type: Option<UploadType>,
}

/// A command line value where there is one, else the settings file's, else
/// the default.
pub open spec fn chosen<T>(given: Option<T>, configured: Option<T>, default: T) -> T {
    match given {
        Some(v) => v,
        None => match configured {
            Some(v) => v,
            None => default,
        },
    }
}

/// The preselection policy: the command line's, else the settings file's, else `Smart`.
pub fn choose_preselect_setting(args: &Arguments, config: &Config) -> (r: PreselectDeleteSetting)
    ensures
        r == chosen(args.preselect_delete, config.preselect_delete, PreselectDeleteSetting::Smart),
{
    match args.preselect_delete {
        Some(s) => s,
        None => match config.preselect_delete {
            Some(s) => s,
            None => PreselectDeleteSetting::Smart,
        },
    }
}

/// The kind of target: the command line's, else the settings file's, else `Exercise`.
pub fn choose_upload_type(args: &Arguments, config: &Config) -> (r: UploadType)
    ensures
        r == chosen(args.upload_type, config.upload_type, UploadType::Exercise),
{
    match args.upload_type {
        Some(s) => s,
        None => match config.upload_type {
            Some(s) => s,
            None => UploadType::Exercise,
        },
    }
}

} // verus!
