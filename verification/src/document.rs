//! The run document: the static description of a category.

use vstd::prelude::*;

verus! {

/// One named checkpoint of a category.
#[derive(Debug, PartialEq, Eq)]
pub struct Segment {
    pub name: String,
    /// Shortest time this segment alone was ever done in.
    pub best_segment: Option<i64>,
    /// Time from the start of the run at which this segment ended in the
    /// personal best.
    pub personal_best_split: Option<i64>,
}

/// What a [`Segment`] holds, with the name as a sequence of characters.
pub struct SegmentView {
    pub name: Seq<char>,
    pub best_segment: Option<i64>,
    pub personal_best_split: Option<i64>,
}

impl View for Segment {
    type V = SegmentView;

    open spec fn view(&self) -> SegmentView {
        SegmentView {
            name: self.name@,
            best_segment: self.best_segment,
            personal_best_split: self.personal_best_split,
        }
    }
}

impl Segment {
    /// A segment with the given name and no recorded times.
    pub fn new(name: &str) -> (segment: Segment)
        ensures
            segment@ == (SegmentView { name: name@, best_segment: None, personal_best_split: None }),
    {
        Segment { name: name.to_owned(), best_segment: None, personal_best_split: None }
    }
}

impl Clone for Segment {
    fn clone(&self) -> (copy: Segment)
        ensures
            copy@ == self@,
    {
        Segment {
            name: self.name.clone(),
            best_segment: self.best_segment,
            personal_best_split: self.personal_best_split,
        }
    }
}

/// The views of a sequence of segments, in the same order.
pub open spec fn segment_views(segments: Seq<Segment>) -> Seq<SegmentView> {
    segments.map_values(|segment: Segment| segment@)
}

/// A copy of a list of segments.
pub fn clone_segments(segments: &Vec<Segment>) -> (copy: Vec<Segment>)
    ensures
        segment_views(copy@) == segment_views(segments@),
{
    let mut copy: Vec<Segment> = Vec::new();
    let mut i: usize = 0;
    while i < segments.len()
        invariant
            i <= segments.len(),
            copy.len() == i,
            forall|k: int| 0 <= k < i ==> (#[trigger] copy@[k])@ == segments@[k]@,
        decreases segments.len() - i,
    {
        copy.push(segments[i].clone());
        i += 1;
    }
    copy
}

/// A copy of an optional piece of text.
pub fn clone_text(text: &Option<String>) -> (copy: Option<String>)
    ensures
        text_view(copy) == text_view(*text),
{
    match text {
        Some(t) => Some(t.clone()),
        None => None,
    }
}

/// An optional piece of text as an optional sequence of characters.
pub open spec fn text_view(text: Option<String>) -> Option<Seq<char>> {
    match text {
        Some(t) => Some(t@),
        None => None,
    }
}

/// The static description of a category: what is run, and in which segments.
#[derive(Debug, PartialEq, Eq)]
pub struct RunDocument {
    pub game: String,
    pub category: String,
    /// The segments in the order in which they are run.
    pub segments: Vec<Segment>,
    /// Whether the document holds changes that no file holds yet.
    pub modified: bool,
    /// The file this document was read from, to save it in place.
    pub source_path: Option<String>,
}

/// What a [`RunDocument`] holds, over sequences.
pub struct RunDocumentView {
    pub game: Seq<char>,
    pub category: Seq<char>,
    pub segments: Seq<SegmentView>,
    pub modified: bool,
    pub source_path: Option<Seq<char>>,
}

impl View for RunDocument {
    type V = RunDocumentView;

    open spec fn view(&self) -> RunDocumentView {
        RunDocumentView {
            game: self.game@,
            category: self.category@,
            segments: segment_views(self.segments@),
            modified: self.modified,
            source_path: text_view(self.source_path),
        }
    }
}

impl RunDocument {
    /// A document for the given game and category, without segments yet.
    pub fn new(game: &str, category: &str) -> (document: RunDocument)
        ensures
            document@ == (RunDocumentView {
                game: game@,
                category: category@,
                segments: Seq::empty(),
                modified: false,
                source_path: None,
            }),
    {
        let document = RunDocument {
            game: game.to_owned(),
            category: category.to_owned(),
            segments: Vec::new(),
            modified: false,
            source_path: None,
        };
        assert(document@.segments =~= Seq::empty());
        document
    }

    /// Appends a segment after those already there.
    pub fn push_segment(&mut self, segment: Segment)
        ensures
            final(self)@ == (RunDocumentView {
                segments: old(self)@.segments.push(segment@),
                ..old(self)@
            }),
    {
        self.segments.push(segment);
        assert(self@.segments =~= old(self)@.segments.push(segment@));
    }

    /// The number of segments.
    pub fn len(&self) -> (count: usize)
        ensures
            count == self@.segments.len(),
    {
        self.segments.len()
    }

    /// Whether the document has no segment, so that no timer can run it.
    pub fn is_empty(&self) -> (empty: bool)
        ensures
            empty == (self@.segments.len() == 0),
    {
        self.segments.len() == 0
    }
}

impl Clone for RunDocument {
    fn clone(&self) -> (copy: RunDocument)
        ensures
            copy@ == self@,
    {
        RunDocument {
            game: self.game.clone(),
            category: self.category.clone(),
            segments: clone_segments(&self.segments),
            modified: self.modified,
            source_path: clone_text(&self.source_path),
        }
    }
}

/// The names of the segments of the document used when none could be loaded.
pub open spec fn default_segment_names() -> Seq<Seq<char>> {
    seq!["Paraglider"@, "IST"@, "Vah Medoh"@, "Ganon"@, "Korok 900"@]
}

/// The document used when none could be loaded: its game, its category and
/// its five segments, none with a recorded time.
pub open spec fn default_document_view() -> RunDocumentView {
    RunDocumentView {
        game: "Breath of the Wild"@,
        category: "100%"@,
        segments: default_segment_names().map_values(
            |name: Seq<char>| SegmentView { name, best_segment: None, personal_best_split: None },
        ),
        modified: false,
        source_path: None,
    }
}

/// The document used when none could be loaded.
pub fn default_document() -> (document: RunDocument)
    ensures
        document@ == default_document_view(),
{
    let mut document = RunDocument::new("Breath of the Wild", "100%");
    document.push_segment(Segment::new("Paraglider"));
    document.push_segment(Segment::new("IST"));
    document.push_segment(Segment::new("Vah Medoh"));
    document.push_segment(Segment::new("Ganon"));
    document.push_segment(Segment::new("Korok 900"));
    assert(document@.segments =~= default_document_view().segments);
    document
}

} // verus!
