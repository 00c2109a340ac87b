//! What a walk over a document does, stated over a model of JSON documents.
//!
//! A walk is driven by events: entering a field or an array element, leaving
//! it again, and meeting a leaf. [`step`] says what one event does to the
//! current path and to the record of dispatched leaves; [`doc_events`] gives
//! the events that a source reports for a document, and [`leaves`] the leaves
//! of a document with their paths, in document order.
use vstd::prelude::*;

use crate::paths::SegmentView;
use crate::value::{Value, ValueView};

verus! {

/// One thing that the event source reports to the walk.
pub enum Event<'de> {
    /// A mapping entry with this key begins.
    Field(String),
    /// The array element at this index begins.
    Index(usize),
    /// The entry or element most recently begun has ended.
    Leave,
    /// A leaf value at the current position.
    Leaf(Value<'de>),
}

/// The mathematical content of an [`Event`].
pub enum EventView {
    Field(Seq<char>),
    Index(usize),
    Leave,
    Leaf(ValueView),
}

impl<'de> View for Event<'de> {
    type V = EventView;

    open spec fn view(&self) -> EventView {
        match self {
            Event::Field(k) => EventView::Field(k@),
            Event::Index(i) => EventView::Index(*i),
            Event::Leave => EventView::Leave,
            Event::Leaf(v) => EventView::Leaf(v@),
        }
    }
}

/// The state of a walk: the current path, and every (path, value) pair
/// dispatched so far, in order.
pub struct WalkState {
    pub path: Seq<SegmentView>,
    pub emitted: Seq<(Seq<SegmentView>, ValueView)>,
}

/// The state of a walk before its first event.
pub open spec fn initial() -> WalkState {
    WalkState { path: Seq::empty(), emitted: Seq::empty() }
}

/// What one event does: entering pushes a segment, leaving pops one (the
/// empty path stays empty), and a leaf is dispatched at the current path.
pub open spec fn step(s: WalkState, e: EventView) -> WalkState {
    match e {
        EventView::Field(k) => WalkState { path: s.path.push(SegmentView::Name(k)), emitted: s.emitted },
        EventView::Index(i) => WalkState { path: s.path.push(SegmentView::Index(i)), emitted: s.emitted },
        EventView::Leave => WalkState {
            path: if s.path.len() == 0 { s.path } else { s.path.drop_last() },
            emitted: s.emitted,
        },
        EventView::Leaf(v) => WalkState { path: s.path, emitted: s.emitted.push((s.path, v)) },
    }
}

/// The state after a sequence of events, taken in order.
pub open spec fn run(s: WalkState, es: Seq<EventView>) -> WalkState
    decreases es.len(),
{
    if es.len() == 0 {
        s
    } else {
        step(run(s, es.drop_last()), es.last())
    }
}

/// A JSON document: a leaf, a mapping with its entries in document order, or
/// an array.
pub enum Doc {
    Leaf(ValueView),
    Object(Seq<(Seq<char>, Doc)>),
    Array(Seq<Doc>),
}

/// The events that a source reports for a document. Each array ends with a
/// probe for one more element, which enters the next index and finds nothing.
pub open spec fn doc_events(d: Doc) -> Seq<EventView>
    decreases d,
{
    match d {
        Doc::Leaf(v) => seq![EventView::Leaf(v)],
        Doc::Object(es) => object_events(es),
        Doc::Array(xs) => array_events(xs) + seq![EventView::Index(xs.len() as usize), EventView::Leave],
    }
}

/// The events of a mapping's entries.
pub open spec fn object_events(es: Seq<(Seq<char>, Doc)>) -> Seq<EventView>
    decreases es,
{
    if es.len() == 0 {
        Seq::empty()
    } else {
        object_events(es.drop_last()) + seq![EventView::Field(es.last().0)] + doc_events(es.last().1)
            + seq![EventView::Leave]
    }
}

/// The events of an array's elements.
pub open spec fn array_events(xs: Seq<Doc>) -> Seq<EventView>
    decreases xs,
{
    if xs.len() == 0 {
        Seq::empty()
    } else {
        array_events(xs.drop_last()) + seq![EventView::Index((xs.len() - 1) as usize)] + doc_events(
            xs.last(),
        ) + seq![EventView::Leave]
    }
}

/// The leaves of a document below path `p`, each with its full path, in
/// document order.
pub open spec fn leaves(p: Seq<SegmentView>, d: Doc) -> Seq<(Seq<SegmentView>, ValueView)>
    decreases d,
{
    match d {
        Doc::Leaf(v) => seq![(p, v)],
        Doc::Object(es) => object_leaves(p, es),
        Doc::Array(xs) => array_leaves(p, xs),
    }
}

/// The leaves of a mapping's entries below path `p`.
pub open spec fn object_leaves(p: Seq<SegmentView>, es: Seq<(Seq<char>, Doc)>) -> Seq<
    (Seq<SegmentView>, ValueView),
>
    decreases es,
{
    if es.len() == 0 {
        Seq::empty()
    } else {
        object_leaves(p, es.drop_last()) + leaves(p.push(SegmentView::Name(es.last().0)), es.last().1)
    }
}

/// The leaves of an array's elements below path `p`.
pub open spec fn array_leaves(p: Seq<SegmentView>, xs: Seq<Doc>) -> Seq<(Seq<SegmentView>, ValueView)>
    decreases xs,
{
    if xs.len() == 0 {
        Seq::empty()
    } else {
        array_leaves(p, xs.drop_last()) + leaves(p.push(SegmentView::Index((xs.len() - 1) as usize)), xs.last())
    }
}

/// The number of leaves (strings, numbers, booleans and nulls) in a document.
pub open spec fn leaf_count(d: Doc) -> nat
    decreases d,
{
    match d {
        Doc::Leaf(_) => 1,
        Doc::Object(es) => object_leaf_count(es),
        Doc::Array(xs) => array_leaf_count(xs),
    }
}

/// The number of leaves in a mapping's entries.
pub open spec fn object_leaf_count(es: Seq<(Seq<char>, Doc)>) -> nat
    decreases es,
{
    if es.len() == 0 {
        0
    } else {
        object_leaf_count(es.drop_last()) + leaf_count(es.last().1)
    }
}

/// The number of leaves in an array's elements.
pub open spec fn array_leaf_count(xs: Seq<Doc>) -> nat
    decreases xs,
{
    if xs.len() == 0 {
        0
    } else {
        array_leaf_count(xs.drop_last()) + leaf_count(xs.last())
    }
}

/// Running two sequences of events one after the other is running their
/// concatenation.
pub proof fn lemma_run_append(s: WalkState, a: Seq<EventView>, b: Seq<EventView>)
    ensures
        run(s, a + b) == run(run(s, a), b),
    decreases b.len(),
{
    if b.len() == 0 {
        assert(a + b =~= a);
    } else {
        assert((a + b).drop_last() =~= a + b.drop_last());
        assert((a + b).last() == b.last());
        lemma_run_append(s, a, b.drop_last());
    }
}

proof fn lemma_run_one(s: WalkState, e: EventView)
    ensures
        run(s, seq![e]) == step(s, e),
{
    assert(seq![e].drop_last() =~= Seq::<EventView>::empty());
    assert(run(s, Seq::<EventView>::empty()) == s);
    assert(seq![e].last() == e);
}

/// Walking a document from any state dispatches exactly the document's leaves,
/// each with its path, in document order, after what was dispatched before; and
/// the path is the one the walk started from once the document is done.
pub proof fn lemma_walk_document(s: WalkState, d: Doc)
    ensures
        run(s, doc_events(d)) == (WalkState { path: s.path, emitted: s.emitted + leaves(s.path, d) }),
    decreases d,
{
    match d {
        Doc::Leaf(v) => {
            lemma_run_one(s, EventView::Leaf(v));
            assert(s.emitted + leaves(s.path, d) =~= s.emitted.push((s.path, v)));
        },
        Doc::Object(es) => {
            lemma_walk_object(s, es);
        },
        Doc::Array(xs) => {
            lemma_walk_array(s, xs);
            let probe = seq![EventView::Index(xs.len() as usize), EventView::Leave];
            lemma_run_append(s, array_events(xs), probe);
            let s1 = run(s, array_events(xs));
            assert(probe.drop_last() =~= seq![EventView::Index(xs.len() as usize)]);
            lemma_run_one(s1, EventView::Index(xs.len() as usize));
            assert(s1.path.push(SegmentView::Index(xs.len() as usize)).drop_last() =~= s1.path);
        },
    }
}

/// Walking a mapping's entries: see [`lemma_walk_document`].
pub proof fn lemma_walk_object(s: WalkState, es: Seq<(Seq<char>, Doc)>)
    ensures
        run(s, object_events(es)) == (WalkState { path: s.path, emitted: s.emitted + object_leaves(s.path, es) }),
    decreases es,
{
    if es.len() == 0 {
        assert(s.emitted + object_leaves(s.path, es) =~= s.emitted);
    } else {
        let (k, child) = es.last();
        let a = object_events(es.drop_last());
        let f = seq![EventView::Field(k)];
        let c = doc_events(child);
        let l = seq![EventView::Leave];
        lemma_walk_object(s, es.drop_last());
        let s1 = run(s, a);
        lemma_run_append(s, a, f);
        lemma_run_one(s1, EventView::Field(k));
        let s2 = step(s1, EventView::Field(k));
        lemma_run_append(s, a + f, c);
        lemma_walk_document(s2, child);
        let s3 = run(s2, c);
        lemma_run_append(s, a + f + c, l);
        lemma_run_one(s3, EventView::Leave);
        assert(s.path.push(SegmentView::Name(k)).drop_last() =~= s.path);
        assert(s.emitted + object_leaves(s.path, es) =~= s.emitted + object_leaves(s.path, es.drop_last())
            + leaves(s.path.push(SegmentView::Name(k)), child));
    }
}

/// Walking an array's elements: see [`lemma_walk_document`].
pub proof fn lemma_walk_array(s: WalkState, xs: Seq<Doc>)
    ensures
        run(s, array_events(xs)) == (WalkState { path: s.path, emitted: s.emitted + array_leaves(s.path, xs) }),
    decreases xs,
{
    if xs.len() == 0 {
        assert(s.emitted + array_leaves(s.path, xs) =~= s.emitted);
    } else {
        let child = xs.last();
        let i = (xs.len() - 1) as usize;
        let a = array_events(xs.drop_last());
        let f = seq![EventView::Index(i)];
        let c = doc_events(child);
        let l = seq![EventView::Leave];
        lemma_walk_array(s, xs.drop_last());
        let s1 = run(s, a);
        lemma_run_append(s, a, f);
        lemma_run_one(s1, EventView::Index(i));
        let s2 = step(s1, EventView::Index(i));
        lemma_run_append(s, a + f, c);
        lemma_walk_document(s2, child);
        let s3 = run(s2, c);
        lemma_run_append(s, a + f + c, l);
        lemma_run_one(s3, EventView::Leave);
        assert(s.path.push(SegmentView::Index(i)).drop_last() =~= s.path);
        assert(s.emitted + array_leaves(s.path, xs) =~= s.emitted + array_leaves(s.path, xs.drop_last())
            + leaves(s.path.push(SegmentView::Index(i)), child));
    }
}

/// As many leaves are listed for a document as it holds.
pub proof fn lemma_leaves_len(p: Seq<SegmentView>, d: Doc)
    ensures
        leaves(p, d).len() == leaf_count(d),
    decreases d,
{
    match d {
        Doc::Leaf(_) => {},
        Doc::Object(es) => lemma_object_leaves_len(p, es),
        Doc::Array(xs) => lemma_array_leaves_len(p, xs),
    }
}

proof fn lemma_object_leaves_len(p: Seq<SegmentView>, es: Seq<(Seq<char>, Doc)>)
    ensures
        object_leaves(p, es).len() == object_leaf_count(es),
    decreases es,
{
    if es.len() > 0 {
        lemma_object_leaves_len(p, es.drop_last());
        lemma_leaves_len(p.push(SegmentView::Name(es.last().0)), es.last().1);
    }
}

proof fn lemma_array_leaves_len(p: Seq<SegmentView>, xs: Seq<Doc>)
    ensures
        array_leaves(p, xs).len() == array_leaf_count(xs),
    decreases xs,
{
    if xs.len() > 0 {
        lemma_array_leaves_len(p, xs.drop_last());
        lemma_leaves_len(p.push(SegmentView::Index((xs.len() - 1) as usize)), xs.last());
    }
}

/// A whole walk: from the start, a document's events dispatch one pair per
/// leaf, in document order and with the leaf's full path, so a document
/// without leaves (such as `{}` or `[]`) dispatches nothing; and the path is
/// empty again at the end, however deep the document.
pub proof fn lemma_walk_from_start(d: Doc)
    ensures
        run(initial(), doc_events(d)).emitted == leaves(Seq::empty(), d),
        run(initial(), doc_events(d)).emitted.len() == leaf_count(d),
        run(initial(), doc_events(d)).path.len() == 0,
{
    lemma_walk_document(initial(), d);
    assert(initial().emitted + leaves(Seq::empty(), d) =~= leaves(Seq::empty(), d));
    lemma_leaves_len(Seq::empty(), d);
}

/// A document that is a single leaf dispatches exactly that leaf, once, at the
/// empty path.
pub proof fn lemma_scalar_document(v: ValueView)
    ensures
        run(initial(), doc_events(Doc::Leaf(v))).emitted == seq![(Seq::<SegmentView>::empty(), v)],
{
    lemma_walk_from_start(Doc::Leaf(v));
}

/// An array holding an array, and so on `depth` times, around the leaf `v`.
pub open spec fn nested_arrays(depth: nat, v: ValueView) -> Doc
    decreases depth,
{
    if depth == 0 {
        Doc::Leaf(v)
    } else {
        Doc::Array(seq![nested_arrays((depth - 1) as nat, v)])
    }
}

/// `n` index segments that are all zero.
pub open spec fn zero_indices(n: nat) -> Seq<SegmentView> {
    Seq::new(n, |i: int| SegmentView::Index(0))
}

proof fn lemma_nested_leaves(p: Seq<SegmentView>, depth: nat, v: ValueView)
    ensures
        leaves(p, nested_arrays(depth, v)) == seq![(p + zero_indices(depth), v)],
    decreases depth,
{
    if depth == 0 {
        assert(p + zero_indices(0) =~= p);
    } else {
        let inner = nested_arrays((depth - 1) as nat, v);
        let xs = seq![inner];
        let q = p.push(SegmentView::Index(0));
        assert(xs.drop_last() =~= Seq::<Doc>::empty());
        assert(xs.last() == inner);
        lemma_nested_leaves(q, (depth - 1) as nat, v);
        assert(q + zero_indices((depth - 1) as nat) =~= p + zero_indices(depth));
        assert(array_leaves(p, xs.drop_last()) =~= Seq::empty());
        assert((xs.len() - 1) as usize == 0usize);
        assert(array_leaves(p, xs) =~= leaves(q, inner));
    }
}

/// Arrays nested `depth` deep around one leaf dispatch that leaf once, at the
/// path of `depth` zero indices.
pub proof fn lemma_nested_arrays(depth: nat, v: ValueView)
    ensures
        run(initial(), doc_events(nested_arrays(depth, v))).emitted == seq![(zero_indices(depth), v)],
{
    lemma_walk_from_start(nested_arrays(depth, v));
    lemma_nested_leaves(Seq::empty(), depth, v);
    assert(Seq::<SegmentView>::empty() + zero_indices(depth) =~= zero_indices(depth));
}

/// Events only ever add to what was dispatched.
proof fn lemma_run_extends(s: WalkState, es: Seq<EventView>)
    ensures
        s.emitted.len() <= run(s, es).emitted.len(),
        run(s, es).emitted.subrange(0, s.emitted.len() as int) == s.emitted,
    decreases es.len(),
{
    if es.len() > 0 {
        lemma_run_extends(s, es.drop_last());
        let r = run(s, es.drop_last());
        assert(step(r, es.last()).emitted.subrange(0, s.emitted.len() as int) =~= r.emitted.subrange(
            0,
            s.emitted.len() as int,
        ));
    }
}

/// A walk cut short after any number of a document's events (as when the
/// source fails on truncated input) has dispatched a prefix of the document's
/// leaves, in order and with their paths, and nothing else.
pub proof fn lemma_cut_walk_dispatches_prefix(d: Doc, k: int)
    requires
        0 <= k <= doc_events(d).len(),
    ensures
        run(initial(), doc_events(d).take(k)).emitted.len() <= leaves(Seq::empty(), d).len(),
        run(initial(), doc_events(d).take(k)).emitted == leaves(Seq::empty(), d).subrange(
            0,
            run(initial(), doc_events(d).take(k)).emitted.len() as int,
        ),
{
    let es = doc_events(d);
    assert(es =~= es.take(k) + es.skip(k));
    lemma_run_append(initial(), es.take(k), es.skip(k));
    lemma_run_extends(run(initial(), es.take(k)), es.skip(k));
    lemma_walk_from_start(d);
}

} // verus!
