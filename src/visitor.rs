//! The callbacks through which leaf values reach a consumer.
use vstd::prelude::*;

use crate::paths::{Path, SegmentView};
use crate::value::{Value, ValueView};

verus! {

/// A set of callbacks that are triggered as a JSON document is walked.
///
/// Only [`Visitor::visit_any`] must be written; every typed callback turns its
/// argument into a [`Value`] and hands it on to `visit_any` unless it is
/// overridden. Whatever a visitor does with a leaf, [`Visitor::received`]
/// lists the (path, value) pairs it has been handed, in order: each callback
/// adds exactly the one pair it was given.
pub trait Visitor<'de> {
    /// The (path, value) pairs handed to this visitor so far, oldest first.
    ///
    /// By default nothing is recorded, and then no body of `visit_any` can be
    /// proved: a visitor that is verified against this trait says here what
    /// it keeps of each pair.
    open spec fn received(&self) -> Seq<(Seq<SegmentView>, ValueView)> {
        Seq::empty()
    }

    fn visit_any(&mut self, path: &Path, value: Value<'de>)
        ensures
            final(self).received() == old(self).received().push((path@, value@)),
    ;

    fn visit_str(&mut self, path: &Path, value: &'de str)
        ensures
            final(self).received() == old(self).received().push((path@, ValueView::Text(value@))),
    {
        self.visit_any(path, Value::Str(value));
    }

    fn visit_owned_string(&mut self, path: &Path, value: String)
        ensures
            final(self).received() == old(self).received().push((path@, ValueView::Text(value@))),
    {
        self.visit_any(path, Value::String(value));
    }

    fn visit_null(&mut self, path: &Path)
        ensures
            final(self).received() == old(self).received().push((path@, ValueView::Null)),
    {
        self.visit_any(path, Value::Null);
    }

    fn visit_bool(&mut self, path: &Path, value: bool)
        ensures
            final(self).received() == old(self).received().push((path@, ValueView::Boolean(value))),
    {
        self.visit_any(path, Value::Boolean(value));
    }

    fn visit_u64(&mut self, path: &Path, value: u64)
        ensures
            final(self).received() == old(self).received().push((path@, ValueView::U64(value))),
    {
        self.visit_any(path, Value::U64(value));
    }

    fn visit_i64(&mut self, path: &Path, value: i64)
        ensures
            final(self).received() == old(self).received().push((path@, ValueView::I64(value))),
    {
        self.visit_any(path, Value::I64(value));
    }

    /// A 32-bit float, as the shortest decimal text that reads back to it.
    fn visit_f32(&mut self, path: &Path, value: String)
        ensures
            final(self).received() == old(self).received().push((path@, ValueView::F32(value@))),
    {
        self.visit_any(path, Value::F32(value));
    }

    /// A 64-bit float, as the shortest decimal text that reads back to it.
    fn visit_f64(&mut self, path: &Path, value: String)
        ensures
            final(self).received() == old(self).received().push((path@, ValueView::F64(value@))),
    {
        self.visit_any(path, Value::F64(value));
    }
}

/// A visitor behind a mutable reference is the visitor itself: every callback
/// goes to the wrapped visitor's own, and it is the one that receives.
impl<'de, 'v, V: Visitor<'de>> Visitor<'de> for &'v mut V {
    open spec fn received(&self) -> Seq<(Seq<SegmentView>, ValueView)> {
        (**self).received()
    }

    fn visit_any(&mut self, path: &Path, value: Value<'de>) {
        (**self).visit_any(path, value)
    }

    fn visit_str(&mut self, path: &Path, value: &'de str) {
        (**self).visit_str(path, value)
    }

    fn visit_owned_string(&mut self, path: &Path, value: String) {
        (**self).visit_owned_string(path, value)
    }

    fn visit_null(&mut self, path: &Path) {
        (**self).visit_null(path)
    }

    fn visit_bool(&mut self, path: &Path, value: bool) {
        (**self).visit_bool(path, value)
    }

    fn visit_u64(&mut self, path: &Path, value: u64) {
        (**self).visit_u64(path, value)
    }

    fn visit_i64(&mut self, path: &Path, value: i64) {
        (**self).visit_i64(path, value)
    }

    fn visit_f32(&mut self, path: &Path, value: String) {
        (**self).visit_f32(path, value)
    }

    fn visit_f64(&mut self, path: &Path, value: String) {
        (**self).visit_f64(path, value)
    }
}

} // verus!
