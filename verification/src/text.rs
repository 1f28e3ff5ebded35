//! Positional text model: ranges, single edits, and the batched-mutation
//! accumulator that rules use to propose structural rewrites.

use vstd::prelude::*;

verus! {

/// A half-open region of source text, measured in bytes from the start of
/// the file.
#[derive(Clone, Copy, PartialEq, Eq, Structural, Debug)]
pub struct TextRange {
    pub start: u32,
    pub end: u32,
}

impl TextRange {
    /// A range is ordered when it does not end before it starts.
    pub open spec fn wf(self) -> bool {
        self.start <= self.end
    }

    pub fn new(start: u32, end: u32) -> (r: TextRange)
        ensures
            r.start == start,
            r.end == end,
    {
        TextRange { start, end }
    }

    /// The zero-length range at the start of the file, used when a mutation
    /// reduces to no edit at all.
    pub fn empty() -> (r: TextRange)
        ensures
            r.start == 0,
            r.end == 0,
    {
        TextRange { start: 0, end: 0 }
    }

    pub fn len(&self) -> (r: u32)
        requires
            self.wf(),
        ensures
            r == self.end - self.start,
    {
        self.end - self.start
    }
}

/// One positional replacement: the text at `range` is replaced by `new_text`.
/// A removal is a replacement by the empty string; an insertion is a
/// replacement of a zero-length range.
#[derive(PartialEq, Eq, Debug)]
pub struct TextEdit {
    pub range: TextRange,
    pub new_text: String,
}

/// Mathematical value of a single edit.
pub ghost struct TextEditView {
    pub range: TextRange,
    pub new_text: Seq<char>,
}

impl View for TextEdit {
    type V = TextEditView;

    open spec fn view(&self) -> TextEditView {
        TextEditView { range: self.range, new_text: self.new_text@ }
    }
}

/// The smallest start position among a sequence of edits, or 0 when there
/// are none.
pub open spec fn cover_start(edits: Seq<TextEditView>) -> u32
    decreases edits.len(),
{
    if edits.len() == 0 {
        0u32
    } else if edits.len() == 1 {
        edits[0].range.start
    } else {
        let prev = cover_start(edits.drop_last());
        let last = edits.last().range.start;
        if last < prev {
            last
        } else {
            prev
        }
    }
}

/// The largest end position among a sequence of edits, or 0 when there are
/// none.
pub open spec fn cover_end(edits: Seq<TextEditView>) -> u32
    decreases edits.len(),
{
    if edits.len() == 0 {
        0u32
    } else if edits.len() == 1 {
        edits[0].range.end
    } else {
        let prev = cover_end(edits.drop_last());
        let last = edits.last().range.end;
        if last > prev {
            last
        } else {
            prev
        }
    }
}

/// The replacement text obtained by joining the edits' texts in the order
/// they were recorded.
pub open spec fn joined_text(edits: Seq<TextEditView>) -> Seq<char>
    decreases edits.len(),
{
    if edits.len() == 0 {
        Seq::<char>::empty()
    } else {
        joined_text(edits.drop_last()) + edits.last().new_text
    }
}

/// Accumulator of structural edits against one immutable source snapshot.
/// It can be reduced to a single covering range plus replacement text for
/// display purposes.
#[derive(PartialEq, Eq, Debug)]
pub struct BatchMutation {
    pub edits: Vec<TextEdit>,
}

impl View for BatchMutation {
    type V = Seq<TextEditView>;

    open spec fn view(&self) -> Seq<TextEditView> {
        self.edits@.map_values(|e: TextEdit| e@)
    }
}

impl BatchMutation {
    /// A batch that records no edits yet.
    pub fn new() -> (r: BatchMutation)
        ensures
            r@ == Seq::<TextEditView>::empty(),
    {
        let r = BatchMutation { edits: Vec::new() };
        proof {
            assert(r@ =~= Seq::<TextEditView>::empty());
        }
        r
    }

    pub fn is_empty(&self) -> (r: bool)
        ensures
            r == (self@.len() == 0),
    {
        self.edits.len() == 0
    }

    pub fn len(&self) -> (r: usize)
        ensures
            r == self@.len(),
    {
        self.edits.len()
    }

    /// Record a replacement of `range` by `new_text`.
    pub fn replace_range(&mut self, range: TextRange, new_text: String)
        ensures
            final(self)@ == old(self)@.push(TextEditView { range, new_text: new_text@ }),
    {
        let ghost before = self@;
        let ghost pushed = TextEditView { range, new_text: new_text@ };
        self.edits.push(TextEdit { range, new_text });
        proof {
            assert(self@ =~= before.push(pushed));
        }
    }

    /// Record the removal of the text at `range`.
    pub fn remove_range(&mut self, range: TextRange)
        ensures
            final(self)@ == old(self)@.push(
                TextEditView { range, new_text: Seq::<char>::empty() },
            ),
    {
        self.replace_range(range, String::new());
    }

    /// An equal batch backed by fresh storage.
    pub fn duplicate(&self) -> (r: BatchMutation)
        ensures
            r@ == self@,
    {
        let mut edits: Vec<TextEdit> = Vec::new();
        let mut i: usize = 0;
        while i < self.edits.len()
            invariant
                i <= self.edits@.len(),
                edits@.len() == i,
                forall|j: int| 0 <= j < i ==> edits@[j] == self.edits@[j],
            decreases self.edits@.len() - i,
        {
            let e = &self.edits[i];
            edits.push(TextEdit { range: e.range, new_text: e.new_text.clone() });
            i += 1;
        }
        let r = BatchMutation { edits };
        proof {
            assert(r@ =~= self@);
        }
        r
    }

    /// Reduce the batch to one covering range and one replacement text.
    /// A batch with no edits reduces to nothing.
    pub fn as_text_range_and_edit(&self) -> (r: Option<(TextRange, String)>)
        ensures
            r is Some <==> self@.len() > 0,
            r is Some ==> ({
                let (range, text) = r.unwrap();
                &&& range.start == cover_start(self@)
                &&& range.end == cover_end(self@)
                &&& text@ == joined_text(self@)
            }),
    {
        if self.edits.len() == 0 {
            return None;
        }
        let mut start: u32 = self.edits[0].range.start;
        let mut end: u32 = self.edits[0].range.end;
        let mut text = String::new();
        text.append(self.edits[0].new_text.as_str());
        proof {
            assert(self@[0] == self.edits@[0]@);
            assert(self@.take(1).len() == 1);
            assert(self@.take(1).drop_last() =~= Seq::<TextEditView>::empty());
            assert(self@.take(1).last() == self@[0]);
            assert(text@ == Seq::<char>::empty() + self@[0].new_text);
            assert(Seq::<char>::empty() + self@[0].new_text =~= self@[0].new_text);
            assert(start == cover_start(self@.take(1)));
            assert(end == cover_end(self@.take(1)));
            assert(joined_text(self@.take(1)) == joined_text(self@.take(1).drop_last())
                + self@.take(1).last().new_text);
            assert(text@ == joined_text(self@.take(1)));
        }
        let mut i: usize = 1;
        while i < self.edits.len()
            invariant
                1 <= i <= self.edits@.len(),
                start == cover_start(self@.take(i as int)),
                end == cover_end(self@.take(i as int)),
                text@ == joined_text(self@.take(i as int)),
            decreases self.edits@.len() - i,
        {
            let e = &self.edits[i];
            if e.range.start < start {
                start = e.range.start;
            }
            if e.range.end > end {
                end = e.range.end;
            }
            text.append(e.new_text.as_str());
            proof {
                assert(self@.take(i + 1).drop_last() =~= self@.take(i as int));
                assert(self@.take(i + 1).last() == self@[i as int]);
            }
            i += 1;
        }
        proof {
            assert(self@.take(self.edits@.len() as int) =~= self@);
        }
        Some((TextRange { start, end }, text))
    }

    /// Total form of the reduction: a batch with no edits yields the empty
    /// range at position zero and the empty replacement text, and never
    /// fails.
    pub fn to_text_range_and_edit(&self) -> (r: (TextRange, String))
        ensures
            self@.len() == 0 ==> r.0.start == 0 && r.0.end == 0 && r.1@ == Seq::<char>::empty(),
            self@.len() > 0 ==> r.0.start == cover_start(self@) && r.0.end == cover_end(self@)
                && r.1@ == joined_text(self@),
    {
        match self.as_text_range_and_edit() {
            Some(p) => p,
            None => (TextRange::empty(), String::new()),
        }
    }
}

} // verus!
