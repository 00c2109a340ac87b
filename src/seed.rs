//! The traversal driver: it keeps the path in step with the event source and
//! hands each leaf to the visitor.
use vstd::prelude::*;

use crate::paths::{Path, Segment, SegmentView};
use crate::value::{Value, ValueView};
use crate::visitor::Visitor;
use crate::walk::{step, Event, EventView, WalkState};

verus! {

/// Counts the elements of one array as they begin, from zero.
pub struct ElementCounter {
    next: usize,
}

impl ElementCounter {
    /// The index that the next element to begin gets.
    pub closed spec fn next(&self) -> nat {
        self.next as nat
    }

    /// A counter for an array none of whose elements has begun yet.
    pub fn new() -> (r: ElementCounter)
        ensures
            r.next() == 0,
    {
        ElementCounter { next: 0 }
    }

    /// Whether another element can still be counted.
    pub fn can_advance(&self) -> (r: bool)
        ensures
            r == (self.next() < usize::MAX),
    {
        self.next < usize::MAX
    }
}

/// The state of one walk over a document: the visitor, the path to the
/// current position, and (as ghost state) every pair dispatched so far.
pub struct Seed<V> {
    visitor: V,
    path: Path,
    dispatched: Ghost<Seq<(Seq<SegmentView>, ValueView)>>,
}

impl<V> Seed<V> {
    /// The walk's state: the current path and the pairs dispatched so far.
    pub closed spec fn state(&self) -> WalkState {
        WalkState { path: self.path@, emitted: self.dispatched@ }
    }

    /// The visitor that receives the leaves.
    pub closed spec fn visitor_spec(&self) -> V {
        self.visitor
    }

    /// Starts a walk at the document's top-level value.
    pub fn new(visitor: V) -> (r: Seed<V>)
        ensures
            r.state() == crate::walk::initial(),
            r.visitor_spec() == visitor,
    {
        Seed { visitor, path: Path::new(), dispatched: Ghost(Seq::empty()) }
    }

    /// The path to the current position.
    pub fn path(&self) -> (r: &Path)
        ensures
            r@ == self.state().path,
    {
        &self.path
    }

    /// Ends the walk and hands the visitor back.
    pub fn into_visitor(self) -> (r: V)
        ensures
            r == self.visitor_spec(),
    {
        self.visitor
    }

    /// A mapping entry with this key begins.
    pub fn enter_field(&mut self, key: String)
        ensures
            final(self).state() == step(old(self).state(), EventView::Field(key@)),
            final(self).visitor_spec() == old(self).visitor_spec(),
    {
        self.path.push(Segment::String(key));
    }

    /// The array element at this index begins.
    pub fn enter_index(&mut self, index: usize)
        ensures
            final(self).state() == step(old(self).state(), EventView::Index(index)),
            final(self).visitor_spec() == old(self).visitor_spec(),
    {
        self.path.push(Segment::Index(index));
    }

    /// The next element of an array begins: its index is the one `counter`
    /// holds, and the counter moves on to the index after it.
    pub fn enter_element(&mut self, counter: &mut ElementCounter)
        requires
            old(counter).next() < usize::MAX,
        ensures
            final(self).state() == step(old(self).state(), EventView::Index(old(counter).next() as usize)),
            final(self).visitor_spec() == old(self).visitor_spec(),
            final(counter).next() == old(counter).next() + 1,
    {
        self.path.push(Segment::Index(counter.next));
        counter.next = counter.next + 1;
    }

    /// The entry or element begun last has ended.
    pub fn leave(&mut self)
        ensures
            final(self).state() == step(old(self).state(), EventView::Leave),
            final(self).visitor_spec() == old(self).visitor_spec(),
    {
        self.path.pop();
    }

    /// A null leaf.
    pub fn visit_null<'de>(&mut self)
        where V: Visitor<'de>,
        ensures
            final(self).state() == step(old(self).state(), EventView::Leaf(ValueView::Null)),
            final(self).visitor_spec().received() == old(self).visitor_spec().received().push(
                (old(self).state().path, ValueView::Null),
            ),
    {
        self.visitor.visit_null(&self.path);
        proof {
            self.dispatched@ = self.dispatched@.push((self.path@, ValueView::Null));
        }
    }

    /// A boolean leaf.
    pub fn visit_bool<'de>(&mut self, v: bool)
        where V: Visitor<'de>,
        ensures
            final(self).state() == step(old(self).state(), EventView::Leaf(ValueView::Boolean(v))),
            final(self).visitor_spec().received() == old(self).visitor_spec().received().push(
                (old(self).state().path, ValueView::Boolean(v)),
            ),
    {
        self.visitor.visit_bool(&self.path, v);
        proof {
            self.dispatched@ = self.dispatched@.push((self.path@, ValueView::Boolean(v)));
        }
    }

    /// A string leaf borrowed from the document's text.
    pub fn visit_str<'de>(&mut self, v: &'de str)
        where V: Visitor<'de>,
        ensures
            final(self).state() == step(old(self).state(), EventView::Leaf(ValueView::Text(v@))),
            final(self).visitor_spec().received() == old(self).visitor_spec().received().push(
                (old(self).state().path, ValueView::Text(v@)),
            ),
    {
        self.visitor.visit_str(&self.path, v);
        proof {
            self.dispatched@ = self.dispatched@.push((self.path@, ValueView::Text(v@)));
        }
    }

    /// A string leaf that the source could not lend from the document's text.
    pub fn visit_string<'de>(&mut self, v: String)
        where V: Visitor<'de>,
        ensures
            final(self).state() == step(old(self).state(), EventView::Leaf(ValueView::Text(v@))),
            final(self).visitor_spec().received() == old(self).visitor_spec().received().push(
                (old(self).state().path, ValueView::Text(v@)),
            ),
    {
        let ghost t = v@;
        self.visitor.visit_owned_string(&self.path, v);
        proof {
            self.dispatched@ = self.dispatched@.push((self.path@, ValueView::Text(t)));
        }
    }

    /// An unsigned integer leaf.
    pub fn visit_u64<'de>(&mut self, v: u64)
        where V: Visitor<'de>,
        ensures
            final(self).state() == step(old(self).state(), EventView::Leaf(ValueView::U64(v))),
            final(self).visitor_spec().received() == old(self).visitor_spec().received().push(
                (old(self).state().path, ValueView::U64(v)),
            ),
    {
        self.visitor.visit_u64(&self.path, v);
        proof {
            self.dispatched@ = self.dispatched@.push((self.path@, ValueView::U64(v)));
        }
    }

    /// A signed integer leaf.
    pub fn visit_i64<'de>(&mut self, v: i64)
        where V: Visitor<'de>,
        ensures
            final(self).state() == step(old(self).state(), EventView::Leaf(ValueView::I64(v))),
            final(self).visitor_spec().received() == old(self).visitor_spec().received().push(
                (old(self).state().path, ValueView::I64(v)),
            ),
    {
        self.visitor.visit_i64(&self.path, v);
        proof {
            self.dispatched@ = self.dispatched@.push((self.path@, ValueView::I64(v)));
        }
    }

    /// A 32-bit float leaf, as the shortest decimal text that reads back to it.
    pub fn visit_f32<'de>(&mut self, text: String)
        where V: Visitor<'de>,
        ensures
            final(self).state() == step(old(self).state(), EventView::Leaf(ValueView::F32(text@))),
            final(self).visitor_spec().received() == old(self).visitor_spec().received().push(
                (old(self).state().path, ValueView::F32(text@)),
            ),
    {
        let ghost t = text@;
        self.visitor.visit_f32(&self.path, text);
        proof {
            self.dispatched@ = self.dispatched@.push((self.path@, ValueView::F32(t)));
        }
    }

    /// A 64-bit float leaf, as the shortest decimal text that reads back to it.
    pub fn visit_f64<'de>(&mut self, text: String)
        where V: Visitor<'de>,
        ensures
            final(self).state() == step(old(self).state(), EventView::Leaf(ValueView::F64(text@))),
            final(self).visitor_spec().received() == old(self).visitor_spec().received().push(
                (old(self).state().path, ValueView::F64(text@)),
            ),
    {
        let ghost t = text@;
        self.visitor.visit_f64(&self.path, text);
        proof {
            self.dispatched@ = self.dispatched@.push((self.path@, ValueView::F64(t)));
        }
    }

    /// A leaf, handed to the visitor's callback for its kind.
    pub fn visit_value<'de>(&mut self, value: Value<'de>)
        where V: Visitor<'de>,
        ensures
            final(self).state() == step(old(self).state(), EventView::Leaf(value@)),
            final(self).visitor_spec().received() == old(self).visitor_spec().received().push(
                (old(self).state().path, value@),
            ),
    {
        match value {
            Value::Str(s) => self.visit_str(s),
            Value::String(s) => self.visit_string(s),
            Value::U64(n) => self.visit_u64(n),
            Value::I64(n) => self.visit_i64(n),
            Value::F32(t) => self.visit_f32(t),
            Value::F64(t) => self.visit_f64(t),
            Value::Boolean(b) => self.visit_bool(b),
            Value::Null => self.visit_null(),
        }
    }

    /// Takes one event of the source.
    pub fn handle<'de>(&mut self, event: Event<'de>)
        where V: Visitor<'de>,
        ensures
            final(self).state() == step(old(self).state(), event@),
            event@ is Leaf ==> final(self).visitor_spec().received() == old(self).visitor_spec().received().push(
                (old(self).state().path, event@->Leaf_0),
            ),
            !(event@ is Leaf) ==> final(self).visitor_spec() == old(self).visitor_spec(),
    {
        match event {
            Event::Field(k) => self.enter_field(k),
            Event::Index(i) => self.enter_index(i),
            Event::Leave => self.leave(),
            Event::Leaf(v) => self.visit_value(v),
        }
    }
}

} // verus!
