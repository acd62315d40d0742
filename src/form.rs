//! Form submissions described as plain values: the fields of a URL-encoded
//! form and the parts of a multipart form.

use vstd::prelude::*;

verus! {

/// One field of a URL-encoded form.
pub struct FormField {
    pub name: String,
    pub value: String,
}

/// One part of a multipart form.
pub enum FormPart {
    /// A text field.
    Text { field: String, value: String },
    /// The content of a local file, sent under `file_name`.
    File { field: String, path: String, file_name: String },
}

/// A form field as plain values: name and value.
pub open spec fn field_view(f: FormField) -> (Seq<char>, Seq<char>) {
    (f.name@, f.value@)
}

pub enum FormPartView {
    Text { field: Seq<char>, value: Seq<char> },
    File { field: Seq<char>, path: Seq<char>, file_name: Seq<char> },
}

impl View for FormPart {
    type V = FormPartView;

    open spec fn view(&self) -> FormPartView {
        match self {
            FormPart::Text { field, value } => FormPartView::Text { field: field@, value: value@ },
            FormPart::File { field, path, file_name } => FormPartView::File {
                field: field@,
                path: path@,
                file_name: file_name@,
            },
        }
    }
}

/// A form field from two string slices.
pub fn text_field(name: &str, value: &str) -> (r: FormField)
    ensures
        r.name@ == name@,
        r.value@ == value@,
{
    FormField { name: name.to_owned(), value: value.to_owned() }
}

} // verus!
