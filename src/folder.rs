//! Content folders: their entries, classified by the link each one carries,
//! and the forms that delete entries and upload files.

use vstd::prelude::*;
use crate::date::{date_of, exists_in_local_zone, parse_date, WallClock};
use crate::file::{File, FileView, PageElement, ParseError, opt_view, text_or_empty};
use crate::form::{FormField, FormPart, FormPartView, text_field};
use crate::pattern::{capture, captured, compiles, valid_pattern};
use crate::querypath::{goto_querypath, goto_querypath_of, join_querypath, joined};
use crate::text::{contains_seq, contains_str};
use crate::upload::{NamedLocalFile, PreselectDeleteSetting, UploadProvider, preselect_name, preselected};

verus! {

/// What a folder lists: a file, or a reference to an exercise, a video
/// series or another viewable object. Each may carry a deletion link.
pub enum FolderElement {
    File { file: File, deletion_querypath: Option<String> },
    Exercise {
        name: String,
        description: String,
        id: String,
        querypath: String,
        deletion_querypath: Option<String>,
    },
    Opencast {
        name: String,
        description: String,
        id: String,
        querypath: String,
        deletion_querypath: Option<String>,
    },
    Viewable {
        name: String,
        description: String,
        id: String,
        querypath: String,
        deletion_querypath: Option<String>,
    },
}

/// A reference held by a folder, as plain values.
pub struct ReferenceView {
    pub name: Seq<char>,
    pub description: Seq<char>,
    pub id: Seq<char>,
    pub querypath: Seq<char>,
    pub deletion_querypath: Option<Seq<char>>,
}

pub enum FolderElementView {
    File { file: FileView, deletion_querypath: Option<Seq<char>> },
    Exercise(ReferenceView),
    Opencast(ReferenceView),
    Viewable(ReferenceView),
}

pub open spec fn reference_view(
    name: String,
    description: String,
    id: String,
    querypath: String,
    deletion_querypath: Option<String>,
) -> ReferenceView {
    ReferenceView {
        name: name@,
        description: description@,
        id: id@,
        querypath: querypath@,
        deletion_querypath: opt_view(deletion_querypath),
    }
}

impl View for FolderElement {
    type V = FolderElementView;

    open spec fn view(&self) -> FolderElementView {
        match self {
            FolderElement::File { file, deletion_querypath } => FolderElementView::File {
                file: file@,
                deletion_querypath: opt_view(*deletion_querypath),
            },
            FolderElement::Exercise { name, description, id, querypath, deletion_querypath } =>
                FolderElementView::Exercise(
                reference_view(*name, *description, *id, *querypath, *deletion_querypath),
            ),
            FolderElement::Opencast { name, description, id, querypath, deletion_querypath } =>
                FolderElementView::Opencast(
                reference_view(*name, *description, *id, *querypath, *deletion_querypath),
            ),
            FolderElement::Viewable { name, description, id, querypath, deletion_querypath } =>
                FolderElementView::Viewable(
                reference_view(*name, *description, *id, *querypath, *deletion_querypath),
            ),
        }
    }
}

/// The pattern that finds a file's id in its link.
pub open spec fn file_id_pattern() -> Seq<char> {
    "target=file_(?<id>\\d+)"@
}

/// The pattern that finds a reference's id in its link.
pub open spec fn ref_id_pattern() -> Seq<char> {
    "ref_id=(?<id>\\d+)"@
}

/// The link leads to a file.
pub open spec fn is_file_link(q: Seq<char>) -> bool {
    contains_seq(q, "target=file_"@)
}

/// The link opens the content of a video series.
pub open spec fn is_opencast_link(q: Seq<char>) -> bool {
    &&& contains_seq(q, "baseClass=ilObjPluginDispatchGUI"@)
    &&& contains_seq(q, "cmd=forward"@)
    &&& contains_seq(q, "forwardCmd=showContent"@)
}

/// The link opens an object of the repository.
pub open spec fn is_viewable_link(q: Seq<char>) -> bool {
    contains_seq(q, "baseClass=ilrepositorygui"@) && contains_seq(q, "cmd=view"@)
}

/// The id that a pattern finds in a link, where the pattern compiles.
pub open spec fn id_in(pattern: Seq<char>, q: Seq<char>) -> Option<Seq<char>> {
    if valid_pattern(pattern) {
        captured(pattern, q, "id"@)
    } else {
        None
    }
}

/// The first of the property texts that is a date.
pub open spec fn first_date(props: Seq<String>, now: WallClock) -> Option<WallClock>
    decreases props.len(),
{
    if props.len() == 0 {
        None
    } else {
        match date_of(props[0]@, now) {
            Ok(d) => Some(d),
            Err(_) => first_date(props.drop_first(), now),
        }
    }
}

/// What a folder entry is, from the querypath of its link: a file (whose
/// first property is its extension, and whose date is the first later
/// property that reads as a date), a video series, a viewable object, or
/// nothing that is kept.
pub open spec fn classified(
    q: Seq<char>,
    name: Seq<char>,
    description: Seq<char>,
    deletion: Option<Seq<char>>,
    props: Seq<String>,
    now: WallClock,
) -> Option<FolderElementView> {
    if is_file_link(q) {
        match id_in(file_id_pattern(), q) {
            Some(id) => if props.len() == 0 {
                None
            } else {
                Some(
                    FolderElementView::File {
                        file: FileView {
                            name: name + "."@ + props[0]@,
                            description: Some(description),
                            date: first_date(props.drop_first(), now),
                            download_querypath: Some(q),
                            id: Some(id),
                        },
                        deletion_querypath: deletion,
                    },
                )
            },
            None => None,
        }
    } else if is_opencast_link(q) {
        match id_in(ref_id_pattern(), q) {
            Some(id) => Some(
                FolderElementView::Opencast(
                    ReferenceView { name, description, id, querypath: q, deletion_querypath: deletion },
                ),
            ),
            None => None,
        }
    } else if is_viewable_link(q) {
        match id_in(ref_id_pattern(), q) {
            Some(id) => Some(
                FolderElementView::Viewable(
                    ReferenceView { name, description, id, querypath: q, deletion_querypath: deletion },
                ),
            ),
            None => None,
        }
    } else {
        None
    }
}

/// The element with the date of a file taken away: what is kept of a file
/// whose date the local time zone skips.
pub open spec fn undated(e: FolderElementView) -> FolderElementView {
    match e {
        FolderElementView::File { file, deletion_querypath } => FolderElementView::File {
            file: FileView { date: None, ..file },
            deletion_querypath,
        },
        _ => e,
    }
}

pub open spec fn undated_opt(e: Option<FolderElementView>) -> Option<FolderElementView> {
    match e {
        Some(v) => Some(undated(v)),
        None => None,
    }
}

/// `got` is `expected`, or `expected` without a file date that the local
/// time zone skips.
pub open spec fn same_up_to_date(got: Option<FolderElementView>, expected: Option<FolderElementView>) -> bool {
    got == expected || got == undated_opt(expected)
}

pub open spec fn element_view(e: Option<FolderElement>) -> Option<FolderElementView> {
    match e {
        Some(e) => Some(e@),
        None => None,
    }
}

/// The id that a pattern finds in a link.
fn find_id(pattern: &str, q: &str) -> (r: Option<String>)
    ensures
        opt_view(r) == id_in(pattern@, q@),
{
    if !compiles(pattern) {
        return None;
    }
    capture(pattern, q, "id")
}

/// The first of the property texts from position `i` on that is a date.
fn find_first_date(props: &Vec<String>, i: usize, now: &WallClock) -> (r: Option<WallClock>)
    requires
        now.wf(),
        i <= props.len(),
    ensures
        r == first_date(props@.subrange(i as int, props.len() as int), *now),
        r matches Some(d) ==> d.wf(),
{
    let mut k: usize = i;
    while k < props.len()
        invariant
            i <= k <= props.len(),
            now.wf(),
            first_date(props@.subrange(i as int, props.len() as int), *now) == first_date(
                props@.subrange(k as int, props.len() as int),
                *now,
            ),
        decreases props.len() - k,
    {
        let ghost rest = props@.subrange(k as int, props.len() as int);
        assert(rest.drop_first() =~= props@.subrange(k + 1, props.len() as int));
        assert(rest[0] == props@[k as int]);
        match parse_date(props[k].as_str(), now) {
            Ok(d) => return Some(d),
            Err(_) => {},
        }
        k = k + 1;
    }
    None
}

/// The parts of a URL that `reqwest::Url` reads from a link: its path and its query.
pub uninterp spec fn url_parts(link: Seq<char>) -> Option<(Seq<char>, Option<Seq<char>>)>;

/// Relies on `reqwest::Url` (the `url` crate's `Url::parse`, `Url::path` and
/// `Url::query`): `None` where the link is no absolute URL; the parts depend
/// on the link alone.
#[verifier::external_body]
fn parse_url_parts(link: &str) -> (r: Option<(String, Option<String>)>)
    ensures
        match r {
            Some((p, q)) => url_parts(link@) == Some((p@, opt_view(q))),
            None => url_parts(link@) is None,
        },
{
    reqwest::Url::parse(link).ok().map(|u| (u.path().to_string(), u.query().map(|q| q.to_string())))
}

/// The querypath of an absolute link, where it is one.
pub open spec fn link_querypath(link: Seq<char>) -> Option<Seq<char>> {
    match url_parts(link) {
        Some((p, q)) => Some(joined(p, q)),
        None => None,
    }
}

/// The first action link that deletes, if any.
pub open spec fn first_deletion(actions: Seq<Option<String>>) -> Option<Seq<char>>
    decreases actions.len(),
{
    if actions.len() == 0 {
        None
    } else {
        match actions[0] {
            Some(a) if contains_seq(a@, "cmd=delete"@) => Some(a@),
            _ => first_deletion(actions.drop_first()),
        }
    }
}

/// One entry of a folder's list, as read from the page.
pub struct FolderEntry {
    /// The title's text.
    pub name: Option<String>,
    /// The title link's target.
    pub link: Option<String>,
    pub description: Option<String>,
    /// The texts of the entry's properties, in order.
    pub properties: Vec<String>,
    /// The targets of the entry's action links, in order.
    pub actions: Vec<Option<String>>,
}

/// What a folder entry is: nothing where it lacks a title, a description or
/// a link that is an absolute URL; else as its link's querypath says.
pub open spec fn entry_element(entry: FolderEntry, now: WallClock) -> Option<FolderElementView> {
    match (entry.name, entry.description, entry.link) {
        (Some(n), Some(d), Some(l)) => match link_querypath(l@) {
            Some(q) => classified(q, n@, d@, first_deletion(entry.actions@), entry.properties@, now),
            None => None,
        },
        _ => None,
    }
}

impl FolderElement {
    /// Classifies a folder entry by the querypath of its link. A file date
    /// that the local time zone skips is left out.
    pub fn extract_from_querypath(
        querypath: String,
        name: String,
        description: String,
        deletion_querypath: Option<String>,
        properties: &Vec<String>,
        now: &WallClock,
    ) -> (r: Option<FolderElement>)
        requires
            now.wf(),
        ensures
            same_up_to_date(
                element_view(r),
                classified(querypath@, name@, description@, opt_view(deletion_querypath), properties@, *now),
            ),
    {
        if contains_str(querypath.as_str(), "target=file_") {
            let id = match find_id("target=file_(?<id>\\d+)", querypath.as_str()) {
                Some(id) => id,
                None => return None,
            };
            if properties.len() == 0 {
                return None;
            }
            let date = match find_first_date(properties, 1, now) {
                Some(d) => if exists_in_local_zone(&d) {
                    Some(d)
                } else {
                    None
                },
                None => None,
            };
            assert(properties@.drop_first() =~= properties@.subrange(1, properties@.len() as int));
            let mut full_name = name;
            full_name.append(".");
            full_name.append(properties[0].as_str());
            let file = File {
                name: full_name,
                description: Some(description),
                date,
                id: Some(id),
                download_querypath: Some(querypath),
            };
            Some(FolderElement::File { file, deletion_querypath })
        } else if contains_str(querypath.as_str(), "baseClass=ilObjPluginDispatchGUI")
            && contains_str(querypath.as_str(), "cmd=forward")
            && contains_str(querypath.as_str(), "forwardCmd=showContent") {
            match find_id("ref_id=(?<id>\\d+)", querypath.as_str()) {
                Some(id) => Some(FolderElement::Opencast { name, description, id, querypath, deletion_querypath }),
                None => None,
            }
        } else if contains_str(querypath.as_str(), "baseClass=ilrepositorygui")
            && contains_str(querypath.as_str(), "cmd=view") {
            match find_id("ref_id=(?<id>\\d+)", querypath.as_str()) {
                Some(id) => Some(FolderElement::Viewable { name, description, id, querypath, deletion_querypath }),
                None => None,
            }
        } else {
            None
        }
    }
}

pub open spec fn ref_view(r: Option<&String>) -> Option<Seq<char>> {
    match r {
        Some(s) => Some(s@),
        None => None,
    }
}

/// The first action link that deletes.
fn find_deletion(actions: &Vec<Option<String>>) -> (r: Option<String>)
    ensures
        opt_view(r) == first_deletion(actions@),
{
    let mut k: usize = 0;
    assert(actions@.subrange(0, actions.len() as int) =~= actions@);
    while k < actions.len()
        invariant
            k <= actions.len(),
            first_deletion(actions@) == first_deletion(actions@.subrange(k as int, actions.len() as int)),
        decreases actions.len() - k,
    {
        let ghost rest = actions@.subrange(k as int, actions.len() as int);
        assert(rest.drop_first() =~= actions@.subrange(k + 1, actions.len() as int));
        assert(rest[0] == actions@[k as int]);
        match &actions[k] {
            Some(a) => if contains_str(a.as_str(), "cmd=delete") {
                return Some(a.clone());
            },
            None => {},
        }
        k = k + 1;
    }
    assert(actions@.subrange(actions.len() as int, actions.len() as int) =~= Seq::<Option<String>>::empty());
    None
}

impl FolderElement {
    /// Reads a folder entry: `None` where it lacks a title, a description or
    /// a link that is an absolute URL, or where its link is of no kept kind.
    pub fn parse(entry: &FolderEntry, now: &WallClock) -> (r: Option<FolderElement>)
        requires
            now.wf(),
        ensures
            same_up_to_date(element_view(r), entry_element(*entry, *now)),
    {
        let name = match &entry.name {
            Some(n) => n.clone(),
            None => return None,
        };
        let description = match &entry.description {
            Some(d) => d.clone(),
            None => return None,
        };
        let link = match &entry.link {
            Some(l) => l,
            None => return None,
        };
        let querypath = match parse_url_parts(link.as_str()) {
            Some((p, q)) => match &q {
                Some(q) => join_querypath(p.as_str(), Some(q.as_str())),
                None => join_querypath(p.as_str(), None),
            },
            None => return None,
        };
        let deletion_querypath = find_deletion(&entry.actions);
        Self::extract_from_querypath(querypath, name, description, deletion_querypath, &entry.properties, now)
    }

    /// The file, where the element is one.
    pub fn file(&self) -> (r: Option<&File>)
        ensures
            match r {
                Some(f) => self@ matches FolderElementView::File { file, .. } && file == f@,
                None => !(self@ is File),
            },
    {
        match self {
            FolderElement::File { file, .. } => Some(file),
            _ => None,
        }
    }

    /// The link that starts the element's deletion, if it has one.
    pub fn deletion_querypath(&self) -> (r: Option<&String>)
        ensures
            ref_view(r) == match self@ {
                FolderElementView::File { deletion_querypath, .. } => deletion_querypath,
                FolderElementView::Exercise(v) => v.deletion_querypath,
                FolderElementView::Opencast(v) => v.deletion_querypath,
                FolderElementView::Viewable(v) => v.deletion_querypath,
            },
    {
        match self {
            FolderElement::File { deletion_querypath, .. } => deletion_querypath.as_ref(),
            FolderElement::Exercise { deletion_querypath, .. } => deletion_querypath.as_ref(),
            FolderElement::Opencast { deletion_querypath, .. } => deletion_querypath.as_ref(),
            FolderElement::Viewable { deletion_querypath, .. } => deletion_querypath.as_ref(),
        }
    }

    /// The element's id, if it has one.
    pub fn id(&self) -> (r: Option<&String>)
        ensures
            ref_view(r) == match self@ {
                FolderElementView::File { file, .. } => file.id,
                FolderElementView::Exercise(v) => Some(v.id),
                FolderElementView::Opencast(v) => Some(v.id),
                FolderElementView::Viewable(v) => Some(v.id),
            },
    {
        match self {
            FolderElement::File { file, .. } => file.id.as_ref(),
            FolderElement::Exercise { id, .. } => Some(id),
            FolderElement::Opencast { id, .. } => Some(id),
            FolderElement::Viewable { id, .. } => Some(id),
        }
    }
}

/// The elements of a folder's entries: those of a kept kind, in order.
pub open spec fn entry_elements(entries: Seq<FolderEntry>, now: WallClock) -> Seq<FolderElementView>
    decreases entries.len(),
{
    if entries.len() == 0 {
        Seq::empty()
    } else {
        let before = entry_elements(entries.drop_last(), now);
        match entry_element(entries.last(), now) {
            Some(e) => before.push(e),
            None => before,
        }
    }
}

/// Element by element, `got` is `expected`, or without a file date that the
/// local time zone skips.
pub open spec fn elements_up_to_date(got: Seq<FolderElementView>, expected: Seq<FolderElementView>) -> bool {
    &&& got.len() == expected.len()
    &&& forall|i: int| 0 <= i < got.len() ==> #[trigger] got[i] == expected[i] || got[i] == undated(expected[i])
}

pub open spec fn elements_view(es: Seq<FolderElement>) -> Seq<FolderElementView> {
    es.map_values(|e: FolderElement| e@)
}

/// A content folder: its texts, its id, its elements and, where files can
/// be uploaded to it, the link to its upload page.
pub struct Folder {
    pub name: String,
    pub description: String,
    pub id: String,
    pub elements: Vec<FolderElement>,
    pub upload_page_querypath: Option<String>,
}

/// The two endpoints of a folder's upload: one that takes a file's content
/// and one that completes the upload under a name.
pub struct FolderUpload {
    pub upload_querypath: String,
    pub finish_querypath: String,
}

/// The acknowledgement that the upload endpoint answers with.
pub struct IliasUploadResponse {
    pub status: u8,
    pub message: String,
    pub file_id: String,
}

/// The pattern that finds the upload endpoint in the upload page's script.
pub open spec fn endpoint_pattern() -> Seq<char> {
    ".*il\\.UI\\.Input\\.File\\.init\\([^']*'[^']*',[^']*'(?<querypath>[^']+)'.*"@
}

/// The element is a file, and `checked` is whether the deletion prompt
/// starts out with it checked.
pub open spec fn file_preselected(
    e: FolderElementView,
    setting: PreselectDeleteSetting,
    uploads: Seq<NamedLocalFile>,
    checked: bool,
) -> bool {
    match e {
        FolderElementView::File { file, .. } => checked == preselected(setting, uploads, file.name),
        _ => false,
    }
}

impl Folder {
    pub open spec fn name_view(&self) -> Seq<char> {
        self.name@
    }

    pub open spec fn description_view(&self) -> Seq<char> {
        self.description@
    }

    pub open spec fn id_view(&self) -> Seq<char> {
        self.id@
    }

    pub open spec fn upload_page_view(&self) -> Option<Seq<char>> {
        opt_view(self.upload_page_querypath)
    }

    /// The querypath of the folder with this id.
    pub fn querypath_from_id(id: &str) -> (r: String)
        ensures
            r@ == goto_querypath("fold"@, id@),
    {
        goto_querypath_of("fold", id)
    }

    /// Reads a folder from its title, description, the link that names it,
    /// its entries and the link to its upload page: title and link must be
    /// there, a missing description is empty; entries of no kept kind are
    /// left out, and a file date that the local time zone skips is dropped.
    pub fn parse(
        name: Option<String>,
        description: Option<String>,
        id_link: Option<String>,
        entries: &Vec<FolderEntry>,
        upload_link: Option<String>,
        now: &WallClock,
    ) -> (r: Result<Folder, ParseError>)
        requires
            now.wf(),
        ensures
            name is None ==> r == Err::<Folder, ParseError>(ParseError::MissingElement(PageElement::Name)),
            name is Some && id_link is None ==> r == Err::<Folder, ParseError>(
                ParseError::MissingElement(PageElement::FolderId),
            ),
            name is Some && id_link is Some ==> (r matches Ok(f) && f.name_view() == name.unwrap()@
                && f.description_view() == text_or_empty(description) && f.id_view() == id_link.unwrap()@
                && elements_up_to_date(elements_view(f.elements@), entry_elements(entries@, *now))
                && f.upload_page_view() == opt_view(upload_link)),
    {
        let name = match name {
            Some(n) => n,
            None => return Err(ParseError::MissingElement(PageElement::Name)),
        };
        let id = match id_link {
            Some(i) => i,
            None => return Err(ParseError::MissingElement(PageElement::FolderId)),
        };
        let description = match description {
            Some(d) => d,
            None => String::new(),
        };
        let mut elements: Vec<FolderElement> = Vec::new();
        let mut i: usize = 0;
        assert(entries@.subrange(0, 0) =~= Seq::<FolderEntry>::empty());
        assert(elements_view(elements@) =~= Seq::<FolderElementView>::empty());
        while i < entries.len()
            invariant
                i <= entries.len(),
                now.wf(),
                elements_up_to_date(elements_view(elements@), entry_elements(entries@.subrange(0, i as int), *now)),
            decreases entries.len() - i,
        {
            assert(entries@.subrange(0, i + 1).drop_last() =~= entries@.subrange(0, i as int));
            let ghost expected = entry_elements(entries@.subrange(0, i as int), *now);
            match FolderElement::parse(&entries[i], now) {
                Some(e) => {
                    let ghost before = elements@;
                    elements.push(e);
                    assert(elements_view(elements@) =~= elements_view(before).push(elements@.last()@));
                    assert(entry_elements(entries@.subrange(0, i + 1), *now) == expected.push(
                        entry_element(entries@[i as int], *now).unwrap(),
                    ));
                },
                None => {},
            }
            i = i + 1;
        }
        assert(entries@.subrange(0, entries.len() as int) =~= entries@);
        Ok(Folder { name, description, id, elements, upload_page_querypath: upload_link })
    }

    /// The positions of the elements that are files, in order.
    pub fn existing_file_positions(&self) -> (r: Vec<usize>)
        ensures
            forall|i: int| 0 <= i < r.len() ==> r[i] < self.elements.len(),
            forall|i: int| 0 <= i < r.len() ==> (#[trigger] self.elements@[r[i] as int])@ is File,
            forall|i: int, j: int| 0 <= i < j < r.len() ==> r[i] < r[j],
            forall|k: int| 0 <= k < self.elements.len() && (#[trigger] self.elements@[k])@ is File
                ==> exists|i: int| 0 <= i < r.len() && r[i] == k,
    {
        let mut r: Vec<usize> = Vec::new();
        let mut k: usize = 0;
        while k < self.elements.len()
            invariant
                k <= self.elements.len(),
                forall|i: int| 0 <= i < r.len() ==> r[i] < k,
                forall|i: int| 0 <= i < r.len() ==> (#[trigger] self.elements@[r[i] as int])@ is File,
                forall|i: int, j: int| 0 <= i < j < r.len() ==> r[i] < r[j],
                forall|m: int| 0 <= m < k && (#[trigger] self.elements@[m])@ is File
                    ==> exists|i: int| 0 <= i < r.len() && r[i] == m,
            decreases self.elements.len() - k,
        {
            let ghost before = r@;
            let is_file = match &self.elements[k] {
                FolderElement::File { .. } => true,
                _ => false,
            };
            assert(is_file == (self.elements@[k as int]@ is File));
            if is_file {
                r.push(k);
                assert(forall|i: int| 0 <= i < before.len() ==> r@[i] == before[i]);
                assert(r@[before.len() as int] == k);
                assert forall|i: int, j: int| 0 <= i < j < r.len() implies r[i] < r[j] by {
                    assert(r@[i] == before[i]);
                    if j < before.len() {
                        assert(r@[j] == before[j]);
                    }
                }
            }
            k = k + 1;
        }
        r
    }

    /// The link to the upload page, where files can be uploaded here.
    pub fn upload_page_querypath(&self) -> (r: Option<&String>)
        ensures
            ref_view(r) == self.upload_page_view(),
    {
        self.upload_page_querypath.as_ref()
    }

    /// The upload endpoints, from the action of the upload page's main form
    /// and the text of its first inline script.
    pub fn upload_endpoints(form_action: Option<String>, script: Option<String>) -> (r: Result<
        FolderUpload,
        ParseError,
    >)
        ensures
            form_action is None ==> r == Err::<FolderUpload, ParseError>(ParseError::MissingElement(PageElement::UploadForm)),
            form_action is Some && script is Some && valid_pattern(endpoint_pattern()) && captured(
                endpoint_pattern(),
                script.unwrap()@,
                "querypath"@,
            ) is Some ==> r is Ok,
            form_action is Some && (script is None || !valid_pattern(endpoint_pattern()) || captured(
                endpoint_pattern(),
                script.unwrap()@,
                "querypath"@,
            ) is None) ==> r == Err::<FolderUpload, ParseError>(ParseError::MissingElement(PageElement::UploadEndpoint)),
            r matches Ok(u) ==> Some(u.finish_querypath) == form_action && valid_pattern(endpoint_pattern())
                && script is Some && captured(endpoint_pattern(), script.unwrap()@, "querypath"@) == Some(
                u.upload_querypath@,
            ),
    {
        let finish_querypath = match form_action {
            Some(a) => a,
            None => return Err(ParseError::MissingElement(PageElement::UploadForm)),
        };
        let script = match script {
            Some(s) => s,
            None => return Err(ParseError::MissingElement(PageElement::UploadEndpoint)),
        };
        let pattern = ".*il\\.UI\\.Input\\.File\\.init\\([^']*'[^']*',[^']*'(?<querypath>[^']+)'.*";
        if !compiles(pattern) {
            return Err(ParseError::MissingElement(PageElement::UploadEndpoint));
        }
        match capture(pattern, script.as_str(), "querypath") {
            Some(upload_querypath) => Ok(FolderUpload { upload_querypath, finish_querypath }),
            None => Err(ParseError::MissingElement(PageElement::UploadEndpoint)),
        }
    }

    /// The form that sends a file's content to the upload endpoint.
    pub fn content_form(file: &NamedLocalFile) -> (r: Vec<FormPart>)
        ensures
            r.len() == 1,
            r[0]@ == (FormPartView::File { field: "file[0]"@, path: file.path@, file_name: file.name@ }),
    {
        let mut r: Vec<FormPart> = Vec::new();
        r.push(FormPart::File { field: "file[0]".to_owned(), path: file.path.clone(), file_name: file.name.clone() });
        r
    }

    /// The form that completes an upload: the display name and the id that
    /// the upload endpoint gave the content.
    pub fn finish_form(name: &str, response: &IliasUploadResponse) -> (r: Vec<FormPart>)
        ensures
            r.len() == 3,
            r[0]@ == (FormPartView::Text { field: "form/input_0[input_1][]"@, value: name@ }),
            r[1]@ == (FormPartView::Text { field: "form/input_0[input_2][]"@, value: ""@ }),
            r[2]@ == (FormPartView::Text { field: "form/input_0[input_3][]"@, value: response.file_id@ }),
    {
        let mut r: Vec<FormPart> = Vec::new();
        r.push(FormPart::Text { field: "form/input_0[input_1][]".to_owned(), value: name.to_owned() });
        r.push(FormPart::Text { field: "form/input_0[input_2][]".to_owned(), value: "".to_owned() });
        r.push(FormPart::Text { field: "form/input_0[input_3][]".to_owned(), value: response.file_id.clone() });
        r
    }

    /// For each file of the folder, its position and whether the deletion
    /// prompt starts out with it checked.
    pub fn preselect_positions(&self, setting: PreselectDeleteSetting, uploads: &Vec<NamedLocalFile>) -> (r: Vec<(usize, bool)>)
        ensures
            forall|i: int| 0 <= i < r.len() ==> r[i].0 < self.elements.len(),
            forall|i: int| 0 <= i < r.len() ==> file_preselected(
                (#[trigger] self.elements@[r[i].0 as int])@, setting, uploads@, r[i].1),
            forall|i: int, j: int| 0 <= i < j < r.len() ==> r[i].0 < r[j].0,
            forall|k: int| 0 <= k < self.elements.len() && (#[trigger] self.elements@[k])@ is File
                ==> exists|i: int| 0 <= i < r.len() && r[i].0 == k,
    {
        let mut r: Vec<(usize, bool)> = Vec::new();
        let mut k: usize = 0;
        while k < self.elements.len()
            invariant
                k <= self.elements.len(),
                forall|i: int| 0 <= i < r.len() ==> r[i].0 < k,
                forall|i: int| 0 <= i < r.len() ==> file_preselected(
                    (#[trigger] self.elements@[r[i].0 as int])@, setting, uploads@, r[i].1),
                forall|i: int, j: int| 0 <= i < j < r.len() ==> r[i].0 < r[j].0,
                forall|m: int| 0 <= m < k && (#[trigger] self.elements@[m])@ is File
                    ==> exists|i: int| 0 <= i < r.len() && r[i].0 == m,
            decreases self.elements.len() - k,
        {
            let ghost before = r@;
            match &self.elements[k] {
                FolderElement::File { file, .. } => {
                    let p = preselect_name(setting, uploads, file.name.as_str());
                    assert(file_preselected(self.elements@[k as int]@, setting, uploads@, p));
                    r.push((k, p));
                    assert(forall|i: int| 0 <= i < before.len() ==> r@[i] == before[i]);
                    assert(r@[before.len() as int].0 == k);
                    assert forall|i: int, j: int| 0 <= i < j < r.len() implies r[i].0 < r[j].0 by {
                        assert(r@[i] == before[i]);
                        if j < before.len() {
                            assert(r@[j] == before[j]);
                        }
                    }
                    assert forall|i: int| 0 <= i < r.len() implies file_preselected(
                        (#[trigger] self.elements@[r[i].0 as int])@, setting, uploads@, r[i].1) by {
                        if i < before.len() {
                            assert(r@[i] == before[i]);
                        }
                    }
                },
                _ => {
                    assert(!(self.elements@[k as int]@ is File));
                },
            }
            k = k + 1;
        }
        r
    }
}

impl FolderElement {
    /// The form that confirms the element's deletion: its id and the
    /// confirmation command. `None` where it has no id.
    pub fn delete_form(&self) -> (r: Option<Vec<FormField>>)
        ensures
            r is None <==> self.id_view() is None,
            r matches Some(fs) ==> fs.len() == 2 && fs[0].name@ == "id[]"@ && Some(fs[0].value@)
                == self.id_view() && fs[1].name@ == "cmd[confirmedDelete]"@ && fs[1].value@ == "Löschen"@,
    {
        let id = match self.id() {
            Some(id) => id,
            None => return None,
        };
        let mut fs: Vec<FormField> = Vec::new();
        fs.push(text_field("id[]", id.as_str()));
        fs.push(text_field("cmd[confirmedDelete]", "Löschen"));
        Some(fs)
    }

    /// The element's id, where it has one.
    pub open spec fn id_view(&self) -> Option<Seq<char>> {
        match self@ {
            FolderElementView::File { file, .. } => file.id,
            FolderElementView::Exercise(v) => Some(v.id),
            FolderElementView::Opencast(v) => Some(v.id),
            FolderElementView::Viewable(v) => Some(v.id),
        }
    }

    /// The text an element is shown by.
    pub fn label(&self) -> (r: String)
        ensures
            r@ == match self@ {
                FolderElementView::File { file, .. } => file.name,
                FolderElementView::Exercise(v) => "Exercise "@ + v.name,
                FolderElementView::Opencast(v) => "OpenCast "@ + v.name,
                FolderElementView::Viewable(v) => "Folder(-like) "@ + v.name,
            },
    {
        match self {
            FolderElement::File { file, .. } => file.name.clone(),
            FolderElement::Exercise { name, .. } => {
                let mut r = "Exercise ".to_owned();
                r.append(name.as_str());
                r
            },
            FolderElement::Opencast { name, .. } => {
                let mut r = "OpenCast ".to_owned();
                r.append(name.as_str());
                r
            },
            FolderElement::Viewable { name, .. } => {
                let mut r = "Folder(-like) ".to_owned();
                r.append(name.as_str());
                r
            },
        }
    }
}

/// The names of the files among a folder's elements, in order.
pub open spec fn file_names(es: Seq<FolderElementView>) -> Seq<Seq<char>>
    decreases es.len(),
{
    if es.len() == 0 {
        Seq::empty()
    } else {
        let before = file_names(es.drop_last());
        match es.last() {
            FolderElementView::File { file, .. } => before.push(file.name),
            _ => before,
        }
    }
}

proof fn lemma_file_names_step(es: Seq<FolderElement>, k: int)
    requires
        0 <= k < es.len(),
    ensures
        file_names(elements_view(es.subrange(0, k + 1))) == match es[k]@ {
            FolderElementView::File { file, .. } => file_names(elements_view(es.subrange(0, k))).push(file.name),
            _ => file_names(elements_view(es.subrange(0, k))),
        },
{
    let v = elements_view(es.subrange(0, k + 1));
    assert(v.drop_last() =~= elements_view(es.subrange(0, k)));
    assert(v.last() == es[k]@);
}

impl UploadProvider for Folder {
    open spec fn existing_names(&self) -> Seq<Seq<char>> {
        file_names(elements_view(self.elements@))
    }

    fn get_existing_files(&self) -> (r: Vec<String>) {
        let mut r: Vec<String> = Vec::new();
        let mut k: usize = 0;
        assert(elements_view(self.elements@.subrange(0, 0)) =~= Seq::<FolderElementView>::empty());
        while k < self.elements.len()
            invariant
                k <= self.elements.len(),
                r.len() == file_names(elements_view(self.elements@.subrange(0, k as int))).len(),
                forall|i: int| 0 <= i < r.len() ==> r[i]@ == file_names(elements_view(self.elements@.subrange(0, k as int)))[i],
            decreases self.elements.len() - k,
        {
            proof {
                lemma_file_names_step(self.elements@, k as int);
            }
            match &self.elements[k] {
                FolderElement::File { file, .. } => {
                    r.push(file.name.clone());
                },
                _ => {},
            }
            k = k + 1;
        }
        assert(self.elements@.subrange(0, self.elements.len() as int) =~= self.elements@);
        r
    }

    fn preselect_files(&self, setting: PreselectDeleteSetting, uploads: &Vec<NamedLocalFile>) -> (r: Vec<bool>) {
        let mut r: Vec<bool> = Vec::new();
        let mut k: usize = 0;
        assert(elements_view(self.elements@.subrange(0, 0)) =~= Seq::<FolderElementView>::empty());
        while k < self.elements.len()
            invariant
                k <= self.elements.len(),
                r.len() == file_names(elements_view(self.elements@.subrange(0, k as int))).len(),
                forall|i: int| 0 <= i < r.len() ==> r[i] == preselected(
                    setting,
                    uploads@,
                    file_names(elements_view(self.elements@.subrange(0, k as int)))[i],
                ),
            decreases self.elements.len() - k,
        {
            proof {
                lemma_file_names_step(self.elements@, k as int);
            }
            match &self.elements[k] {
                FolderElement::File { file, .. } => {
                    r.push(preselect_name(setting, uploads, file.name.as_str()));
                },
                _ => {},
            }
            k = k + 1;
        }
        assert(self.elements@.subrange(0, self.elements.len() as int) =~= self.elements@);
        r
    }
}

} // verus!
