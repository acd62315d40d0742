//! Reading the portal's pages into the records that the other modules
//! interpret. Which elements hold what is the portal's markup: the selectors
//! below name them.

use vstd::prelude::*;
use crate::assignment::SubmissionRow;
use crate::auth::LoginPage;
use crate::exercise::AssignmentRecord;
use crate::folder::FolderEntry;
use crate::html::{
    attr_of, child_elements, first_attr, first_child_attr, first_text, parse_document, root_element,
    select, select_first, text_of,
};
use crate::sections::{AttachmentRow, InfoSection};

verus! {

/// What a page of the login handshake holds; `host` is the host of the
/// address that the page came from.
pub fn login_page(host: Option<String>, body: &str) -> LoginPage {
    let doc = parse_document(body);
    let root = root_element(&doc);
    LoginPage {
        host,
        csrf_token: first_attr(root, "input[name=\"csrf_token\"]", "value"),
        form_action: first_attr(root, "form[method=\"post\"]", "action"),
        saml_response: first_attr(root, "input[name=\"SAMLResponse\"]", "value"),
    }
}

fn info_section(section: scraper::ElementRef<'_>) -> InfoSection {
    let found = select(section, ".form-group");
    let mut rows: Vec<AttachmentRow> = Vec::new();
    let mut i: usize = 0;
    while i < found.len()
        decreases found.len() - i,
    {
        let children = child_elements(found[i]);
        let name = if children.len() > 0 {
            Some(text_of(children[0]))
        } else {
            None
        };
        let link = if children.len() > 1 {
            let inner = child_elements(children[1]);
            if inner.len() > 0 {
                attr_of(inner[0], "href")
            } else {
                None
            }
        } else {
            None
        };
        rows.push(AttachmentRow { name, link });
        i = i + 1;
    }
    let first_link = match select_first(section, "a") {
        Some(a) => Some(attr_of(a, "href")),
        None => None,
    };
    InfoSection {
        header: first_text(section, ".ilHeader"),
        first_value: first_text(section, ".il_InfoScreenPropertyValue"),
        rows,
        first_link,
    }
}

/// An exercise page: its title, its description and its assignments.
pub struct ExercisePage {
    pub name: Option<String>,
    pub description: Option<String>,
    pub assignments: Vec<AssignmentRecord>,
}

/// Reads an exercise page.
pub fn exercise_page(body: &str) -> ExercisePage {
    let doc = parse_document(body);
    let root = root_element(&doc);
    let found = select(root, "div.il_VAccordionContainer div.il_VAccordionInnerContainer");
    let mut assignments: Vec<AssignmentRecord> = Vec::new();
    let mut i: usize = 0;
    while i < found.len()
        decreases found.len() - i,
    {
        let secs = select(found[i], ".ilInfoScreenSec");
        let mut sections: Vec<InfoSection> = Vec::new();
        let mut k: usize = 0;
        while k < secs.len()
            decreases secs.len() - k,
        {
            sections.push(info_section(secs[k]));
            k = k + 1;
        }
        assignments.push(AssignmentRecord { name: first_text(found[i], ".ilAssignmentHeader"), sections });
        i = i + 1;
    }
    ExercisePage {
        name: first_text(root, ".il-page-content-header"),
        description: first_text(root, ".ilHeaderDesc"),
        assignments,
    }
}

/// A submission page: its rows of handed-in files, the action of its
/// deletion form and the target of its upload button.
pub struct SubmissionPageRecord {
    pub rows: Vec<SubmissionRow>,
    pub delete_action: Option<String>,
    pub upload_button_action: Option<String>,
}

/// Reads a submission page.
pub fn submission_page(body: &str) -> SubmissionPageRecord {
    let doc = parse_document(body);
    let root = root_element(&doc);
    let found = select(root, "form tbody tr");
    let mut rows: Vec<SubmissionRow> = Vec::new();
    let mut i: usize = 0;
    while i < found.len()
        decreases found.len() - i,
    {
        let cells = child_elements(found[i]);
        let n = cells.len();
        rows.push(SubmissionRow {
            id: if n > 0 { first_child_attr(cells[0], "value") } else { None },
            name: if n > 1 { Some(text_of(cells[1])) } else { None },
            date: if n > 2 { Some(text_of(cells[2])) } else { None },
            link: if n > 3 { first_child_attr(cells[3], "href") } else { None },
        });
        i = i + 1;
    }
    SubmissionPageRecord {
        rows,
        delete_action: first_attr(root, "div#ilContentContainer form", "action"),
        upload_button_action: first_attr(root, "nav div.navbar-header button", "data-action"),
    }
}

/// The action of an upload dialog's form.
pub fn upload_dialog(body: &str) -> Option<String> {
    let doc = parse_document(body);
    first_attr(root_element(&doc), "div#ilContentContainer form", "action")
}

/// A folder page: title, description, naming link, entries and upload link.
pub struct FolderPage {
    pub name: Option<String>,
    pub description: Option<String>,
    pub id_link: Option<String>,
    pub entries: Vec<FolderEntry>,
    pub upload_link: Option<String>,
}

fn folder_entry(e: scraper::ElementRef<'_>) -> FolderEntry {
    let props = select(e, ".il_ItemProperties");
    let mut properties: Vec<String> = Vec::new();
    let mut i: usize = 0;
    while i < props.len()
        decreases props.len() - i,
    {
        properties.push(text_of(props[i]));
        i = i + 1;
    }
    let links = select(e, ".dropdown-menu li>a");
    let mut actions: Vec<Option<String>> = Vec::new();
    let mut k: usize = 0;
    while k < links.len()
        decreases links.len() - k,
    {
        actions.push(attr_of(links[k], "href"));
        k = k + 1;
    }
    FolderEntry {
        name: first_text(e, ".il_ContainerItemTitle a"),
        link: first_attr(e, ".il_ContainerItemTitle a", "href"),
        description: first_text(e, ".il_Description"),
        properties,
        actions,
    }
}

/// Reads a folder page.
pub fn folder_page(body: &str) -> FolderPage {
    let doc = parse_document(body);
    let root = root_element(&doc);
    let found = select(root, ".ilContainerListItemContent");
    let mut entries: Vec<FolderEntry> = Vec::new();
    let mut i: usize = 0;
    while i < found.len()
        decreases found.len() - i,
    {
        entries.push(folder_entry(found[i]));
        i = i + 1;
    }
    FolderPage {
        name: first_text(root, ".il-page-content-header"),
        description: first_text(root, ".ilHeaderDesc"),
        id_link: first_attr(root, ".breadcrumbs span:last-child a", "href"),
        entries,
        upload_link: first_attr(root, "#il-add-new-item-gl #file", "href"),
    }
}

/// The action of a page's main form.
pub fn main_form_action(body: &str) -> Option<String> {
    let doc = parse_document(body);
    first_attr(root_element(&doc), "main form", "action")
}

/// The text of a page's first inline script.
pub fn first_inline_script(body: &str) -> Option<String> {
    let doc = parse_document(body);
    first_text(root_element(&doc), "body script:not([src])")
}

} // verus!
