//! The information sections of an assignment, and finding one by its label.

use vstd::prelude::*;
use crate::text::same_text;

verus! {

/// A row of a list of attached files: the file's name and its download link.
pub struct AttachmentRow {
    pub name: Option<String>,
    pub link: Option<String>,
}

/// One information section of an assignment, as read from the page.
pub struct InfoSection {
    /// The section's header text.
    pub header: Option<String>,
    /// The text of its first property value.
    pub first_value: Option<String>,
    /// Its rows of attached files.
    pub rows: Vec<AttachmentRow>,
    /// Its first link: `Some(None)` for a link without a target.
    pub first_link: Option<Option<String>>,
}

/// A header text equals one of two labels (the portal's German and English wording).
pub open spec fn header_is(header: Option<String>, a: Seq<char>, b: Seq<char>) -> bool {
    header matches Some(h) && (h@ == a || h@ == b)
}

/// `i` is the first section whose header carries one of the two labels.
pub open spec fn is_first_labelled(secs: Seq<InfoSection>, a: Seq<char>, b: Seq<char>, i: int) -> bool {
    &&& 0 <= i < secs.len()
    &&& header_is(secs[i].header, a, b)
    &&& forall|j: int| 0 <= j < i ==> !header_is(#[trigger] secs[j].header, a, b)
}

/// The first section whose header carries one of the two labels, or -1.
pub open spec fn first_labelled(secs: Seq<InfoSection>, a: Seq<char>, b: Seq<char>) -> int {
    if exists|i: int| is_first_labelled(secs, a, b, i) {
        choose|i: int| is_first_labelled(secs, a, b, i)
    } else {
        -1
    }
}

/// Whether a header text equals one of two labels.
pub fn header_matches(header: &Option<String>, a: &str, b: &str) -> (r: bool)
    ensures
        r == header_is(*header, a@, b@),
{
    match header {
        Some(h) => same_text(h.as_str(), a) || same_text(h.as_str(), b),
        None => false,
    }
}

/// The position of the first section whose header carries one of the two labels.
pub fn find_labelled(secs: &Vec<InfoSection>, a: &str, b: &str) -> (r: Option<usize>)
    ensures
        match r {
            Some(i) => is_first_labelled(secs@, a@, b@, i as int) && i == first_labelled(
                secs@,
                a@,
                b@,
            ),
            None => first_labelled(secs@, a@, b@) == -1 && forall|j: int|
                0 <= j < secs.len() ==> !header_is(#[trigger] secs@[j].header, a@, b@),
        },
{
    let mut i: usize = 0;
    while i < secs.len()
        invariant
            i <= secs.len(),
            forall|j: int| 0 <= j < i ==> !header_is(#[trigger] secs@[j].header, a@, b@),
        decreases secs.len() - i,
    {
        if header_matches(&secs[i].header, a, b) {
            proof {
                assert(is_first_labelled(secs@, a@, b@, i as int));
                let k = choose|k: int| is_first_labelled(secs@, a@, b@, k);
                assert(k == i) by {
                    if k < i {
                        assert(!header_is(secs@[k].header, a@, b@));
                    }
                    if k > i {
                        assert(!header_is(secs@[i as int].header, a@, b@));
                    }
                }
            }
            return Some(i);
        }
        i = i + 1;
    }
    None
}

} // verus!
