//! Publishing members' operational snapshots: which publications are
//! written, and how the answer counts them.

use vstd::prelude::*;
use crate::text::str_eq;

verus! {

/// The roster names the member.
pub open spec fn names_member(names: Seq<String>, member_name: Seq<char>) -> bool {
    exists|i: int| 0 <= i < names.len() && (#[trigger] names[i])@ == member_name
}

/// Whether a member's snapshot may be published: the team's roster could be
/// read (`Some`) and names the member.
pub fn may_publish(roster: Option<&Vec<String>>, member_name: &str) -> (r: bool)
    ensures
        r == (match roster {
            Some(names) => names_member(names@, member_name@),
            None => false,
        }),
{
    match roster {
        None => false,
        Some(names) => {
            let mut i: usize = 0;
            while i < names.len()
                invariant
                    roster == Some(names),
                    i <= names@.len(),
                    forall|k: int| 0 <= k < i ==> (#[trigger] names@[k])@ != member_name@,
                decreases names@.len() - i,
            {
                if str_eq(names[i].as_str(), member_name) {
                    assert((names@[i as int])@ == member_name@);
                    return true;
                }
                i = i + 1;
            }
            false
        },
    }
}

/// What became of one publication.
#[derive(Debug, Clone, Copy, PartialEq, Eq, Structural)]
pub enum PublicationOutcome {
    /// Not written: the team's config was unreadable or the member is not on
    /// the team.
    Refused,
    /// Handed to the snapshot store, which wrote it (`true`) or found it no
    /// newer than the one it holds (`false`).
    Stored(bool),
}

/// The counts a batch of publications answers with.
#[derive(Debug, Clone, Copy, PartialEq, Eq, Structural)]
pub struct PublicationTally {
    pub published: u64,
    pub skipped: u64,
}

/// The tally after one more publication: a written snapshot counts as
/// published, anything else as skipped.
pub fn count_publication(tally: PublicationTally, outcome: PublicationOutcome) -> (r: PublicationTally)
    requires
        tally.published < u64::MAX,
        tally.skipped < u64::MAX,
    ensures
        outcome == PublicationOutcome::Stored(true) ==> (r.published == tally.published + 1 && r.skipped == tally.skipped),
        outcome != PublicationOutcome::Stored(true) ==> (r.published == tally.published && r.skipped == tally.skipped + 1),
{
    match outcome {
        PublicationOutcome::Stored(true) => PublicationTally { published: tally.published + 1, skipped: tally.skipped },
        _ => PublicationTally { published: tally.published, skipped: tally.skipped + 1 },
    }
}

/// How many of the outcomes are written snapshots.
pub open spec fn written_count(outcomes: Seq<PublicationOutcome>) -> nat
    decreases outcomes.len(),
{
    if outcomes.len() == 0 {
        0
    } else {
        written_count(outcomes.drop_last()) + if outcomes.last() == PublicationOutcome::Stored(true) {
            1nat
        } else {
            0nat
        }
    }
}

/// The counts a batch answers with: each written snapshot published, every
/// other publication skipped, so the two add up to the batch's size.
pub fn tally_publications(outcomes: &Vec<PublicationOutcome>) -> (r: PublicationTally)
    ensures
        r.published == written_count(outcomes@),
        r.skipped == outcomes@.len() - written_count(outcomes@),
        r.published + r.skipped == outcomes@.len(),
{
    let mut tally = PublicationTally { published: 0, skipped: 0 };
    let mut i: usize = 0;
    while i < outcomes.len()
        invariant
            i <= outcomes@.len(),
            tally.published == written_count(outcomes@.subrange(0, i as int)),
            tally.published + tally.skipped == i,
        decreases outcomes@.len() - i,
    {
        assert(outcomes@.subrange(0, i + 1).drop_last() =~= outcomes@.subrange(0, i as int));
        tally = count_publication(tally, outcomes[i]);
        i = i + 1;
    }
    assert(outcomes@.subrange(0, outcomes@.len() as int) =~= outcomes@);
    tally
}

} // verus!
