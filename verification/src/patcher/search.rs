//! The search for the patch files over the directories that may hold them.

use vstd::prelude::*;
use crate::text::{text_of, texts};
use super::extract::PatchPayload;

verus! {

/// What each directory holds of the patch files.
pub type Holdings = spec_fn(Seq<char>) -> Option<PatchPayload>;

/// What is taken of the given directories: what the first one holds that holds something.
pub open spec fn first_payload(dirs: Seq<Seq<char>>, holds: Holdings) -> Option<PatchPayload>
    decreases dirs.len(),
{
    if dirs.len() == 0 {
        None
    } else if holds(dirs[0]) is Some {
        holds(dirs[0])
    } else {
        first_payload(dirs.skip(1), holds)
    }
}

/// A search over directories, in their order, that ends with the first one that holds something.
pub struct PayloadSearch {
    pub candidates: Vec<String>,
    /// How many of the candidates were found to hold nothing.
    pub passed: usize,
    pub found: Option<PatchPayload>,
}

impl PayloadSearch {
    pub open spec fn wf(self) -> bool {
        self.passed <= self.candidates@.len()
    }

    /// The directory that is to be looked into next.
    pub open spec fn awaiting(self) -> Option<Seq<char>> {
        if self.found is None && self.passed < self.candidates@.len() {
            Some(self.candidates@[self.passed as int]@)
        } else {
            None
        }
    }

    /// What the search ends with.
    pub open spec fn outcome(self, holds: Holdings) -> Option<PatchPayload> {
        match self.found {
            Some(payload) => Some(payload),
            None => first_payload(texts(self.candidates@).skip(self.passed as int), holds),
        }
    }

    /// A search that begins with the first of the candidates.
    pub fn begin(candidates: Vec<String>) -> (r: PayloadSearch)
        ensures
            r.wf(),
            r.candidates == candidates,
            r.passed == 0,
            r.found is None,
            forall|holds: Holdings| #[trigger]
                r.outcome(holds) == first_payload(texts(candidates@), holds),
    {
        assert(texts(candidates@).skip(0) =~= texts(candidates@));
        PayloadSearch { candidates, passed: 0, found: None }
    }

    /// The directory to look into next, or `None` when the search is over.
    pub fn wanted(&self) -> (r: Option<String>)
        ensures
            text_of(r) == self.awaiting(),
    {
        if self.found.is_none() && self.passed < self.candidates.len() {
            Some(self.candidates[self.passed].clone())
        } else {
            None
        }
    }

    /// Hands over what the wanted directory holds.
    pub fn supply(&mut self, payload: Option<PatchPayload>)
        requires
            old(self).wf(),
            old(self).awaiting() is Some,
        ensures
            final(self).wf(),
            final(self).candidates == old(self).candidates,
            final(self).found == payload,
            final(self).passed == old(self).passed + if payload is None {
                1int
            } else {
                0
            },
            forall|holds: Holdings|
                holds(old(self).awaiting()->0) == payload ==> #[trigger] final(self).outcome(holds)
                    == old(self).outcome(holds),
    {
        let ghost rest: Seq<Seq<char>> = texts(self.candidates@).skip(self.passed as int);
        assert(self.passed < self.candidates.len());
        assert(rest[0] == self.candidates@[self.passed as int]@);
        assert(rest.skip(1) =~= texts(self.candidates@).skip(self.passed + 1));
        if payload.is_none() {
            self.passed = self.passed + 1;
        }
        self.found = payload;
    }
}

/// A search that wants no directory has found what it ends with.
pub proof fn law_a_finished_search_has_its_outcome(search: PayloadSearch, holds: Holdings)
    requires
        search.wf(),
        search.awaiting() is None,
    ensures
        search.outcome(holds) == search.found,
{
}

/// Of the directories that hold something, the one that is named first is taken.
pub proof fn law_the_first_payload_is_taken(dirs: Seq<Seq<char>>, holds: Holdings, least: int)
    requires
        0 <= least < dirs.len(),
        holds(dirs[least]) is Some,
        forall|i: int| 0 <= i < least ==> holds(#[trigger] dirs[i]) is None,
    ensures
        first_payload(dirs, holds) == holds(dirs[least]),
    decreases dirs.len(),
{
    if least > 0 {
        let rest = dirs.skip(1);
        assert forall|i: int| 0 <= i < least - 1 implies holds(#[trigger] rest[i]) is None by {
            assert(rest[i] == dirs[i + 1]);
        }
        law_the_first_payload_is_taken(rest, holds, least - 1);
    }
}

/// Nothing is taken exactly where no directory holds anything.
pub proof fn law_nothing_is_taken_of_nothing(dirs: Seq<Seq<char>>, holds: Holdings)
    ensures
        first_payload(dirs, holds) is None <==> forall|i: int|
            0 <= i < dirs.len() ==> holds(#[trigger] dirs[i]) is None,
    decreases dirs.len(),
{
    if dirs.len() > 0 {
        let rest = dirs.skip(1);
        law_nothing_is_taken_of_nothing(rest, holds);
        if first_payload(dirs, holds) is None {
            assert forall|i: int| 0 <= i < dirs.len() implies holds(#[trigger] dirs[i]) is None by {
                if i > 0 {
                    assert(rest[i - 1] == dirs[i]);
                }
            }
        } else if holds(dirs[0]) is None {
            let i = choose|i: int| 0 <= i < rest.len() && holds(#[trigger] rest[i]) is Some;
            assert(dirs[i + 1] == rest[i]);
        }
    }
}

} // verus!
