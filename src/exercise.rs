//! Exercises: a course unit that lists assignments.

use vstd::prelude::*;
use crate::assignment::{Assignment, AssignmentView, assignment_of, deadline_refusable, zone_refusal};
use crate::date::WallClock;
use crate::file::{PageElement, ParseError, text_or_empty};
use crate::querypath::{goto_querypath, goto_querypath_of};
use crate::sections::InfoSection;

verus! {

/// An assignment as read from the exercise page: its name and sections.
pub struct AssignmentRecord {
    pub name: Option<String>,
    pub sections: Vec<InfoSection>,
}

/// An exercise: its name, its description and its assignments in page order.
pub struct Exercise {
    pub name: String,
    pub description: String,
    pub assignments: Vec<Assignment>,
}

/// The assignments of the records, or the first error among them.
pub open spec fn assignments_of(records: Seq<AssignmentRecord>, now: WallClock) -> Result<Seq<AssignmentView>, ParseError>
    decreases records.len(),
{
    if records.len() == 0 {
        Ok(Seq::empty())
    } else {
        match assignments_of(records.drop_last(), now) {
            Err(e) => Err(e),
            Ok(xs) => match assignment_of(records.last().name, records.last().sections@, now) {
                Err(e) => Err(e),
                Ok(a) => Ok(xs.push(a)),
            },
        }
    }
}

pub open spec fn assignments_view(xs: Seq<Assignment>) -> Seq<AssignmentView> {
    xs.map_values(|a: Assignment| a@)
}

proof fn lemma_assignments_stop(records: Seq<AssignmentRecord>, now: WallClock, k: int)
    requires
        0 < k <= records.len(),
        assignments_of(records.subrange(0, k), now) is Err,
    ensures
        assignments_of(records, now) == assignments_of(records.subrange(0, k), now),
    decreases records.len() - k,
{
    if k < records.len() {
        assert(records.subrange(0, k + 1).drop_last() =~= records.subrange(0, k));
        lemma_assignments_stop(records, now, k + 1);
    } else {
        assert(records.subrange(0, k) =~= records);
    }
}

impl Exercise {
    /// The querypath of the exercise with this id.
    pub fn querypath_from_id(id: &str) -> (r: String)
        ensures
            r@ == goto_querypath("exc"@, id@),
    {
        goto_querypath_of("exc", id)
    }

    /// Reads an exercise from its title, its description and its
    /// assignments: the title must be there, a missing description is
    /// empty. A deadline that the local time zone skips is refused.
    pub fn parse(
        name: Option<String>,
        description: Option<String>,
        records: &Vec<AssignmentRecord>,
        now: &WallClock,
    ) -> (r: Result<Exercise, ParseError>)
        requires
            now.wf(),
        ensures
            name is None ==> r == Err::<Exercise, ParseError>(ParseError::MissingElement(PageElement::Name)),
            name is Some ==> match r {
                Ok(x) => x.name@ == name.unwrap()@ && x.description@ == text_or_empty(description)
                    && assignments_of(records@, *now) == Ok::<Seq<AssignmentView>, ParseError>(
                    assignments_view(x.assignments@),
                ),
                Err(e) => assignments_of(records@, *now) == Err::<Seq<AssignmentView>, ParseError>(e) || (e
                    == zone_refusal() && exists|k: int|
                    0 <= k < records.len() && deadline_refusable(
                        (#[trigger] records@[k]).name,
                        records@[k].sections@,
                        *now,
                    )),
            },
    {
        if name.is_none() {
            return Err(ParseError::MissingElement(PageElement::Name));
        }
        let mut assignments: Vec<Assignment> = Vec::new();
        let mut i: usize = 0;
        assert(records@.subrange(0, 0) =~= Seq::<AssignmentRecord>::empty());
        assert(assignments_view(assignments@) =~= Seq::<AssignmentView>::empty());
        while i < records.len()
            invariant
                i <= records.len(),
                now.wf(),
                name is Some,
                assignments_of(records@.subrange(0, i as int), *now) == Ok::<Seq<AssignmentView>, ParseError>(
                    assignments_view(assignments@),
                ),
            decreases records.len() - i,
        {
            assert(records@.subrange(0, i + 1).drop_last() =~= records@.subrange(0, i as int));
            let record = &records[i];
            let title = match &record.name {
                Some(n) => Some(n.clone()),
                None => None,
            };
            match Assignment::parse(title, &record.sections, now) {
                Ok(a) => {
                    let ghost before = assignments@;
                    assignments.push(a);
                    assert(assignments_view(assignments@) =~= assignments_view(before).push(assignments@.last()@));
                },
                Err(e) => {
                    proof {
                        if assignment_of(records@[i as int].name, records@[i as int].sections@, *now)
                            == Err::<AssignmentView, ParseError>(e) {
                            lemma_assignments_stop(records@, *now, i as int + 1);
                        } else {
                            assert(deadline_refusable(records@[i as int].name, records@[i as int].sections@, *now));
                        }
                    }
                    return Err(e);
                },
            }
            i = i + 1;
        }
        assert(records@.subrange(0, records.len() as int) =~= records@);
        let description = match description {
            Some(d) => d,
            None => String::new(),
        };
        Ok(Exercise { name: name.unwrap(), description, assignments })
    }

    /// The positions of the assignments whose deadline is still ahead of `now`.
    pub fn active_assignments(&self, now: &WallClock) -> (r: Vec<usize>)
        ensures
            forall|i: int| 0 <= i < r.len() ==> r[i] < self.assignments.len(),
            forall|i: int| 0 <= i < r.len() ==> now.precedes((#[trigger] self.assignments@[r[i] as int])@.submission_date),
            forall|i: int, j: int| 0 <= i < j < r.len() ==> r[i] < r[j],
            forall|k: int| 0 <= k < self.assignments.len() && now.precedes((#[trigger] self.assignments@[k])@.submission_date)
                ==> exists|i: int| 0 <= i < r.len() && r[i] == k,
    {
        let mut r: Vec<usize> = Vec::new();
        let mut k: usize = 0;
        while k < self.assignments.len()
            invariant
                k <= self.assignments.len(),
                forall|i: int| 0 <= i < r.len() ==> r[i] < k,
                forall|i: int| 0 <= i < r.len() ==> now.precedes((#[trigger] self.assignments@[r[i] as int])@.submission_date),
                forall|i: int, j: int| 0 <= i < j < r.len() ==> r[i] < r[j],
                forall|m: int| 0 <= m < k && now.precedes((#[trigger] self.assignments@[m])@.submission_date)
                    ==> exists|i: int| 0 <= i < r.len() && r[i] == m,
            decreases self.assignments.len() - k,
        {
            let ghost before = r@;
            if self.assignments[k].is_active(now) {
                r.push(k);
                assert(forall|i: int| 0 <= i < before.len() ==> r@[i] == before[i]);
                assert(r@[before.len() as int] == k);
                assert forall|i: int, j: int| 0 <= i < j < r.len() implies r[i] < r[j] by {
                    assert(r@[i] == before[i]);
                    if j < before.len() {
                        assert(r@[j] == before[j]);
                    }
                }
            }
            k = k + 1;
        }
        r
    }
}

} // verus!
