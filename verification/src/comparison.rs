//! The comparison selector: which reference times are shown beside the live
//! attempt.

use vstd::prelude::*;
use crate::document::{Segment, SegmentView};
use crate::error::TimerError;

verus! {

/// The comparison against the personal best. It is selected at first.
pub open spec fn personal_best_name() -> Seq<char> {
    "Personal Best"@
}

/// The comparison against the sum of the best segments.
pub open spec fn best_segments_name() -> Seq<char> {
    "Best Segments"@
}

/// The comparison that shows nothing. It is always on offer.
pub open spec fn none_name() -> Seq<char> {
    "None"@
}

/// Whether two pieces of text hold the same characters.
pub fn same_text(left: &String, right: &str) -> (same: bool)
    ensures
        same == (left@ == right@),
{
    let owned = right.to_owned();
    *left == owned
}

/// The comparisons on offer, in a fixed order, and the one that is selected.
pub struct ComparisonView {
    pub names: Seq<Seq<char>>,
    pub selected: nat,
}

impl ComparisonView {
    /// The name of the selected comparison.
    pub open spec fn current(self) -> Seq<char> {
        self.names[self.selected as int]
    }

    /// Whether a comparison of the given name is on offer.
    pub open spec fn offers(self, name: Seq<char>) -> bool {
        exists|i: int| 0 <= i < self.names.len() && self.names[i] == name
    }

    /// The time of a segment that the selected comparison shows beside the
    /// live one: its split in the personal best, or its best time, or
    /// nothing for "None" and for every other comparison, of which a segment
    /// holds no time.
    pub open spec fn reference_time(self, segment: SegmentView) -> Option<i64> {
        if self.current() == personal_best_name() {
            segment.personal_best_split
        } else if self.current() == best_segments_name() {
            segment.best_segment
        } else {
            None
        }
    }

    /// The selection moved on by one place, from the last to the first.
    pub open spec fn next(self) -> ComparisonView {
        ComparisonView {
            selected: if self.selected + 1 < self.names.len() {
                self.selected + 1
            } else {
                0
            },
            ..self
        }
    }

    /// The invariant of a selector: the built-in comparisons come first, no
    /// name occurs twice, and the selection is one of the names.
    pub open spec fn wf(self) -> bool {
        &&& self.names.len() >= 3
        &&& self.names[0] == personal_best_name()
        &&& self.names[1] == best_segments_name()
        &&& self.names[2] == none_name()
        &&& self.selected < self.names.len()
        &&& forall|i: int, j: int|
            0 <= i < j < self.names.len() ==> self.names[i] != self.names[j]
    }
}

/// The built-in comparisons, "Personal Best", "Best Segments" and "None" in
/// this order, with the first selected.
pub open spec fn builtin_comparisons() -> ComparisonView {
    ComparisonView {
        names: seq![personal_best_name(), best_segments_name(), none_name()],
        selected: 0,
    }
}

/// The comparisons on offer and the one that is selected.
#[derive(Debug, PartialEq, Eq)]
pub struct ComparisonSelector {
    names: Vec<String>,
    selected: usize,
}

impl View for ComparisonSelector {
    type V = ComparisonView;

    closed spec fn view(&self) -> ComparisonView {
        ComparisonView {
            names: self.names@.map_values(|name: String| name@),
            selected: self.selected as nat,
        }
    }
}

impl ComparisonSelector {
    /// A selector that offers the built-in comparisons, with "Personal
    /// Best" selected.
    pub fn new() -> (selector: ComparisonSelector)
        ensures
            selector@.wf(),
            selector@ == builtin_comparisons(),
    {
        let mut names: Vec<String> = Vec::new();
        names.push("Personal Best".to_owned());
        names.push("Best Segments".to_owned());
        names.push("None".to_owned());
        let selector = ComparisonSelector { names, selected: 0 };
        proof {
            reveal_strlit("Personal Best");
            reveal_strlit("Best Segments");
            reveal_strlit("None");
            assert(selector@.names =~= seq![
                personal_best_name(),
                best_segments_name(),
                none_name(),
            ]);
            assert(personal_best_name()[0] == 'P');
            assert(best_segments_name()[0] == 'B');
        }
        selector
    }

    /// The number of comparisons on offer.
    pub fn len(&self) -> (count: usize)
        ensures
            count == self@.names.len(),
    {
        self.names.len()
    }

    /// The place of the selected comparison among those on offer.
    pub fn selected(&self) -> (place: usize)
        ensures
            place == self@.selected,
    {
        self.selected
    }

    /// The name of the comparison at a place.
    pub fn name_at(&self, place: usize) -> (name: Option<String>)
        ensures
            name is Some <==> place < self@.names.len(),
            name matches Some(n) ==> n@ == self@.names[place as int],
    {
        if place < self.names.len() {
            Some(self.names[place].clone())
        } else {
            None
        }
    }

    /// The name of the selected comparison.
    pub fn current(&self) -> (name: String)
        requires
            self@.wf(),
        ensures
            name@ == self@.current(),
    {
        self.names[self.selected].clone()
    }

    /// Whether comparison times are to be shown: not so when "None" is
    /// selected.
    pub fn is_shown(&self) -> (shown: bool)
        requires
            self@.wf(),
        ensures
            shown == (self@.current() != none_name()),
    {
        !same_text(&self.names[self.selected], "None")
    }

    /// The time of a segment that the selected comparison shows beside the
    /// live one.
    pub fn reference_time(&self, segment: &Segment) -> (time: Option<i64>)
        requires
            self@.wf(),
        ensures
            time == self@.reference_time(segment@),
    {
        if self.selected == 0 {
            segment.personal_best_split
        } else if self.selected == 1 {
            segment.best_segment
        } else {
            assert(self@.names[self.selected as int] != self@.names[0]);
            assert(self@.names[self.selected as int] != self@.names[1]);
            None
        }
    }

    /// The first place at which a name stands among the comparisons on
    /// offer.
    pub fn position(&self, name: &str) -> (place: Option<usize>)
        ensures
            place is Some <==> self@.offers(name@),
            place matches Some(p) ==> p < self@.names.len() && self@.names[p as int] == name@
                && forall|earlier: int| 0 <= earlier < p ==> self@.names[earlier] != name@,
    {
        let mut i: usize = 0;
        while i < self.names.len()
            invariant
                i <= self.names.len(),
                forall|k: int| 0 <= k < i ==> self@.names[k] != name@,
            decreases self.names.len() - i,
        {
            if same_text(&self.names[i], name) {
                assert(self@.names[i as int] == name@);
                return Some(i);
            }
            i += 1;
        }
        None
    }

    /// Selects the comparison after the selected one, and the first after
    /// the last.
    pub fn switch_to_next(&mut self)
        requires
            old(self)@.wf(),
        ensures
            final(self)@.wf(),
            final(self)@ == old(self)@.next(),
    {
        assert(self.selected < self.names.len());
        if self.selected + 1 < self.names.len() {
            self.selected = self.selected + 1;
        } else {
            self.selected = 0;
        }
    }

    /// Selects the comparison of the given name, where it is on offer.
    /// Otherwise the selection stays and the call reports
    /// `UnknownComparison`.
    pub fn set_comparison(&mut self, name: &str) -> (result: Result<(), TimerError>)
        requires
            old(self)@.wf(),
        ensures
            final(self)@.wf(),
            final(self)@.names == old(self)@.names,
            result is Ok <==> old(self)@.offers(name@),
            result is Ok ==> final(self)@.current() == name@,
            result is Err ==> result == Err::<(), TimerError>(TimerError::UnknownComparison)
                && final(self)@ == old(self)@,
    {
        match self.position(name) {
            Some(place) => {
                self.selected = place;
                Ok(())
            },
            None => Err(TimerError::UnknownComparison),
        }
    }

    /// Puts a comparison of the given name on offer, after those already
    /// there, unless one of that name is on offer already. The selection
    /// stays.
    pub fn add_custom(&mut self, name: &str) -> (added: bool)
        requires
            old(self)@.wf(),
        ensures
            final(self)@.wf(),
            added == !old(self)@.offers(name@),
            final(self)@ == (if added {
                ComparisonView { names: old(self)@.names.push(name@), ..old(self)@ }
            } else {
                old(self)@
            }),
    {
        match self.position(name) {
            Some(_) => false,
            None => {
                self.names.push(name.to_owned());
                assert(self@.names =~= old(self)@.names.push(name@));
                true
            },
        }
    }
}

impl Clone for ComparisonSelector {
    fn clone(&self) -> (copy: ComparisonSelector)
        ensures
            copy@ == self@,
    {
        let mut names: Vec<String> = Vec::new();
        let mut i: usize = 0;
        while i < self.names.len()
            invariant
                i <= self.names.len(),
                names.len() == i,
                forall|k: int| 0 <= k < i ==> (#[trigger] names@[k])@ == self.names@[k]@,
            decreases self.names.len() - i,
        {
            names.push(self.names[i].clone());
            i += 1;
        }
        let copy = ComparisonSelector { names, selected: self.selected };
        assert(copy@.names =~= self@.names);
        copy
    }
}

} // verus!
