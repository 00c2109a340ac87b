//! A visitor that writes one line of text per leaf.
use vstd::prelude::*;
use vstd::string::StringExecFns;

use crate::paths::{path_text, Path, SegmentView};
use crate::value::{value_text, Value, ValueView};
use crate::visitor::Visitor;

verus! {

/// A [`Visitor`] which writes each [`Path`]-[`Value`] pair as a line
/// `<path>, <value>` to the text it holds.
pub struct CsvWriter<W> {
    writer: W,
    written: Ghost<Seq<(Seq<SegmentView>, ValueView)>>,
}

/// The line written for one leaf: the path, a comma and a space, the value, and
/// a line feed.
pub open spec fn csv_line(p: Seq<SegmentView>, v: ValueView) -> Seq<char> {
    path_text(p) + seq![',', ' '] + value_text(v) + seq!['\n']
}

impl<W> CsvWriter<W> {
    /// The writer that lines go to.
    pub closed spec fn inner(&self) -> W {
        self.writer
    }

    /// The (path, value) pairs written so far, oldest first.
    pub closed spec fn written(&self) -> Seq<(Seq<SegmentView>, ValueView)> {
        self.written@
    }

    pub fn new(writer: W) -> (r: CsvWriter<W>)
        ensures
            r.inner() == writer,
            r.written() == Seq::<(Seq<SegmentView>, ValueView)>::empty(),
    {
        CsvWriter { writer, written: Ghost(Seq::empty()) }
    }

    pub fn into_inner(self) -> (r: W)
        ensures
            r == self.inner(),
    {
        self.writer
    }

    pub fn inner_mut(&mut self) -> (r: &mut W)
        ensures
            *r == old(self).inner(),
            final(self).inner() == *final(r),
            final(self).written() == old(self).written(),
    {
        &mut self.writer
    }
}

impl CsvWriter<String> {
    /// Appends the line for one leaf.
    pub fn write_line(&mut self, path: &Path, value: &Value)
        ensures
            final(self).inner()@ == old(self).inner()@ + csv_line(path@, value@),
            final(self).written() == old(self).written().push((path@, value@)),
    {
        let p = path.to_text();
        let v = value.to_text();
        proof {
            reveal_strlit(", ");
            reveal_strlit("\n");
        }
        self.writer.append(p.as_str());
        self.writer.append(", ");
        self.writer.append(v.as_str());
        self.writer.append("\n");
        proof {
            assert(self.writer@ =~= old(self).inner()@ + csv_line(path@, value@));
            self.written@ = self.written@.push((path@, value@));
        }
    }
}

impl<'de> Visitor<'de> for CsvWriter<String> {
    closed spec fn received(&self) -> Seq<(Seq<SegmentView>, ValueView)> {
        self.written@
    }

    fn visit_any(&mut self, path: &Path, value: Value<'de>)
        ensures
            final(self).inner()@ == old(self).inner()@ + csv_line(path@, value@),
    {
        self.write_line(path, &value);
    }
}

} // verus!
