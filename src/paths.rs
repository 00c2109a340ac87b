//! Paths from the document root to the value being visited.
use vstd::prelude::*;
use vstd::string::StringExecFns;

use im::Vector;

use crate::text::{decimal, u64_text};

verus! {

#[verifier::external_type_specification]
#[verifier::external_body]
#[verifier::reject_recursive_types(A)]
pub struct ExVector<A>(im::Vector<A>);

/// Relies on im::Vector's `Clone`, which `Path` derives; nothing is stated of
/// the copy.
pub assume_specification<A: Clone>[ <im::Vector<A> as Clone>::clone ](v: &im::Vector<A>) -> im::Vector<A>;

/// The segments that an `im::Vector` of segments holds, front to back.
pub uninterp spec fn segments_of(v: im::Vector<Segment>) -> Seq<Segment>;

/// Relies on im::Vector::new: a new vector is empty.
#[verifier::external_body]
fn vector_new() -> (r: Vector<Segment>)
    ensures
        segments_of(r) == Seq::<Segment>::empty(),
{
    Vector::new()
}

/// Relies on im::Vector::push_back: the value is appended at the back.
#[verifier::external_body]
fn vector_push_back(v: &mut Vector<Segment>, s: Segment)
    ensures
        segments_of(*final(v)) == segments_of(*old(v)).push(s),
{
    v.push_back(s)
}

/// Relies on im::Vector::pop_back: the last value is removed and returned;
/// an empty vector is left as it is.
#[verifier::external_body]
fn vector_pop_back(v: &mut Vector<Segment>) -> (r: Option<Segment>)
    ensures
        segments_of(*old(v)).len() == 0 ==> r is None && segments_of(*final(v)) == segments_of(*old(v)),
        segments_of(*old(v)).len() > 0 ==> r == Some(segments_of(*old(v)).last())
            && segments_of(*final(v)) == segments_of(*old(v)).drop_last(),
{
    v.pop_back()
}

/// Relies on im::Vector::len: the number of values held.
#[verifier::external_body]
fn vector_len(v: &Vector<Segment>) -> (r: usize)
    ensures
        r == segments_of(*v).len(),
{
    v.len()
}

/// Relies on im::Vector::iter: the values front to back, each cloned.
#[verifier::external_body]
fn vector_to_vec(v: &Vector<Segment>) -> (r: Vec<Segment>)
    ensures
        r@ == segments_of(*v),
{
    v.iter().cloned().collect()
}

/// A particular segment of a [`Path`]: the name of a field or an index into an
/// array.
#[derive(Debug, Clone, PartialEq, Eq, Hash, PartialOrd, Ord)]
pub enum Segment {
    String(String),
    Index(usize),
}

/// The mathematical content of a [`Segment`].
pub enum SegmentView {
    Name(Seq<char>),
    Index(usize),
}

impl View for Segment {
    type V = SegmentView;

    open spec fn view(&self) -> SegmentView {
        match self {
            Segment::String(s) => SegmentView::Name(s@),
            Segment::Index(i) => SegmentView::Index(*i),
        }
    }
}

/// How a segment is displayed: a name as it is, an index in decimal.
pub open spec fn segment_text(s: SegmentView) -> Seq<char> {
    match s {
        SegmentView::Name(n) => n,
        SegmentView::Index(i) => decimal(i as nat),
    }
}

/// How a path is displayed: the segments' texts joined by single `/`
/// characters, with no separator before the first or after the last.
pub open spec fn path_text(p: Seq<SegmentView>) -> Seq<char>
    decreases p.len(),
{
    if p.len() == 0 {
        Seq::empty()
    } else if p.len() == 1 {
        segment_text(p[0])
    } else {
        path_text(p.drop_last()) + seq!['/'] + segment_text(p.last())
    }
}

impl Segment {
    /// The display text of this segment.
    pub fn to_text(&self) -> (r: String)
        ensures
            r@ == segment_text(self@),
    {
        match self {
            Segment::String(s) => s.clone(),
            Segment::Index(i) => u64_text(*i as u64),
        }
    }
}

impl From<usize> for Segment {
    fn from(i: usize) -> (r: Segment) {
        Segment::Index(i)
    }
}

impl vstd::std_specs::convert::FromSpecImpl<usize> for Segment {
    open spec fn obeys_from_spec() -> bool {
        true
    }

    open spec fn from_spec(i: usize) -> Segment {
        Segment::Index(i)
    }
}

/// The path to an element.
#[derive(Debug, Clone, PartialEq, Eq, Hash, PartialOrd, Ord)]
pub struct Path(Vector<Segment>);

impl View for Path {
    type V = Seq<SegmentView>;

    closed spec fn view(&self) -> Seq<SegmentView> {
        segments_of(self.0).map_values(|s: Segment| s@)
    }
}

impl Default for Path {
    fn default() -> (r: Path)
        ensures
            r@ == Seq::<SegmentView>::empty(),
    {
        Path::new()
    }
}

impl Path {
    /// The empty path, which names the document's top-level value.
    pub fn new() -> (r: Path)
        ensures
            r@ == Seq::<SegmentView>::empty(),
    {
        let r = Path(vector_new());
        proof {
            assert(r@ =~= Seq::<SegmentView>::empty());
        }
        r
    }

    /// The segments, root first.
    pub fn segments(&self) -> (r: Vec<Segment>)
        ensures
            r@.map_values(|s: Segment| s@) == self@,
    {
        vector_to_vec(&self.0)
    }

    /// The number of segments.
    pub fn len(&self) -> (r: usize)
        ensures
            r == self@.len(),
    {
        vector_len(&self.0)
    }

    /// Whether this is the empty path.
    pub fn is_empty(&self) -> (r: bool)
        ensures
            r == (self@.len() == 0),
    {
        vector_len(&self.0) == 0
    }

    /// Appends a segment at the tail.
    pub fn push(&mut self, segment: Segment)
        ensures
            final(self)@ == old(self)@.push(segment@),
    {
        vector_push_back(&mut self.0, segment);
        proof {
            assert(final(self)@ =~= old(self)@.push(segment@));
        }
    }

    /// Removes the most recently pushed segment; the empty path stays empty.
    pub fn pop(&mut self)
        ensures
            final(self)@ == (if old(self)@.len() == 0 { old(self)@ } else { old(self)@.drop_last() }),
    {
        let _ = vector_pop_back(&mut self.0);
        proof {
            if old(self)@.len() > 0 {
                assert(final(self)@ =~= old(self)@.drop_last());
            }
        }
    }

    /// The display text: segments joined by `/`; the empty path gives the
    /// empty string.
    pub fn to_text(&self) -> (r: String)
        ensures
            r@ == path_text(self@),
    {
        let segs = vector_to_vec(&self.0);
        let ghost p = self@;
        let mut out = String::new();
        let mut i: usize = 0;
        while i < segs.len()
            invariant
                i <= segs@.len(),
                p == segs@.map_values(|s: Segment| s@),
                out@ == path_text(p.take(i as int)),
            decreases segs@.len() - i,
        {
            let t = segs[i].to_text();
            proof {
                let q = p.take(i as int + 1);
                assert(q.drop_last() =~= p.take(i as int));
                assert(q.last() == segs@[i as int]@);
                reveal_strlit("/");
            }
            if i > 0 {
                out.append("/");
            }
            out.append(t.as_str());
            proof {
                if i == 0 {
                    assert(out@ =~= path_text(p.take(1)));
                } else {
                    assert(out@ =~= path_text(p.take(i as int + 1)));
                }
            }
            i = i + 1;
        }
        proof {
            assert(p.take(i as int) =~= p);
        }
        out
    }
}

/// The empty path displays as the empty string, and a segment pushed onto a
/// non-empty path adds exactly one `/` and the segment's own text.
pub proof fn lemma_path_text_push(p: Seq<SegmentView>, s: SegmentView)
    ensures
        path_text(Seq::empty()) == Seq::<char>::empty(),
        p.len() == 0 ==> path_text(p.push(s)) == segment_text(s),
        p.len() > 0 ==> path_text(p.push(s)) == path_text(p) + seq!['/'] + segment_text(s),
{
    assert(p.push(s).drop_last() =~= p);
}

/// The text of a non-empty path begins with the text of its first segment.
pub proof fn lemma_path_text_begins_with_first(p: Seq<SegmentView>)
    requires
        p.len() > 0,
    ensures
        segment_text(p[0]).len() <= path_text(p).len(),
        path_text(p).subrange(0, segment_text(p[0]).len() as int) == segment_text(p[0]),
    decreases p.len(),
{
    if p.len() > 1 {
        let q = p.drop_last();
        lemma_path_text_begins_with_first(q);
        assert(q[0] == p[0]);
        let n = segment_text(p[0]).len() as int;
        assert(path_text(p).subrange(0, n) =~= path_text(q).subrange(0, n));
    } else {
        assert(path_text(p).subrange(0, segment_text(p[0]).len() as int) =~= segment_text(p[0]));
    }
}

proof fn lemma_decimal_starts_with_digit(n: nat)
    ensures
        decimal(n).len() > 0,
        decimal(n)[0] != '/',
    decreases n,
{
    if n >= 10 {
        lemma_decimal_starts_with_digit(n / 10);
    }
}

/// A path never displays with a leading separator, unless its first segment
/// is a name that is empty or itself begins with `/` (names are not escaped).
pub proof fn lemma_path_text_no_leading_separator(p: Seq<SegmentView>)
    requires
        p.len() > 0,
        p[0] is Name ==> p[0]->Name_0.len() > 0 && p[0]->Name_0[0] != '/',
    ensures
        path_text(p).len() > 0,
        path_text(p)[0] != '/',
{
    lemma_path_text_begins_with_first(p);
    if let SegmentView::Index(i) = p[0] {
        lemma_decimal_starts_with_digit(i as nat);
    }
    let t = segment_text(p[0]);
    assert(path_text(p).subrange(0, t.len() as int)[0] == path_text(p)[0]);
}

} // verus!
