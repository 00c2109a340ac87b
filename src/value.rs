//! The leaf values handed to a visitor.
use vstd::prelude::*;
use vstd::string::StringExecFns;

use crate::text::{decimal, i64_text, signed_decimal, u64_text};

verus! {

/// Any value that a leaf field may take.
#[derive(Debug, Clone, PartialEq)]
pub enum Value<'a> {
    /// A borrowed string pointing directly into the source text.
    Str(&'a str),
    /// An owned string.
    ///
    /// Present when the source could not lend a reference into its text, for
    /// example because escapes had to be replaced or the text sits in a
    /// temporary read buffer.
    String(String),
    U64(u64),
    I64(i64),
    /// A 32-bit float, held as the shortest decimal text that reads back to it.
    F32(String),
    /// A 64-bit float, held as the shortest decimal text that reads back to it.
    F64(String),
    Boolean(bool),
    Null,
}

/// The mathematical content of a [`Value`]: borrowed and owned strings are alike.
pub enum ValueView {
    Text(Seq<char>),
    U64(u64),
    I64(i64),
    F32(Seq<char>),
    F64(Seq<char>),
    Boolean(bool),
    Null,
}

impl<'a> View for Value<'a> {
    type V = ValueView;

    open spec fn view(&self) -> ValueView {
        match self {
            Value::Str(s) => ValueView::Text(s@),
            Value::String(s) => ValueView::Text(s@),
            Value::U64(v) => ValueView::U64(*v),
            Value::I64(v) => ValueView::I64(*v),
            Value::F32(t) => ValueView::F32(t@),
            Value::F64(t) => ValueView::F64(t@),
            Value::Boolean(b) => ValueView::Boolean(*b),
            Value::Null => ValueView::Null,
        }
    }
}

pub open spec fn true_text() -> Seq<char> {
    seq!['t', 'r', 'u', 'e']
}

pub open spec fn false_text() -> Seq<char> {
    seq!['f', 'a', 'l', 's', 'e']
}

/// How a value is displayed: strings as they are, integers in decimal, floats
/// by their shortest round-trip text, booleans as `true` / `false`, and null as
/// the empty string.
pub open spec fn value_text(v: ValueView) -> Seq<char> {
    match v {
        ValueView::Text(s) => s,
        ValueView::U64(n) => decimal(n as nat),
        ValueView::I64(n) => signed_decimal(n as int),
        ValueView::F32(t) => t,
        ValueView::F64(t) => t,
        ValueView::Boolean(b) => if b { true_text() } else { false_text() },
        ValueView::Null => Seq::empty(),
    }
}

impl<'a> Value<'a> {
    /// The display text of this value; null gives the empty string.
    pub fn to_text(&self) -> (r: String)
        ensures
            r@ == value_text(self@),
    {
        match self {
            Value::Str(s) => String::from_str(s),
            Value::String(s) => s.clone(),
            Value::U64(v) => u64_text(*v),
            Value::I64(v) => i64_text(*v),
            Value::F32(t) => t.clone(),
            Value::F64(t) => t.clone(),
            Value::Boolean(b) => {
                proof {
                    reveal_strlit("true");
                    reveal_strlit("false");
                }
                if *b {
                    String::from_str("true")
                } else {
                    String::from_str("false")
                }
            },
            Value::Null => String::new(),
        }
    }
}

impl<'a> From<&'a str> for Value<'a> {
    fn from(s: &'a str) -> (r: Value<'a>) {
        Value::Str(s)
    }
}

impl<'a> vstd::std_specs::convert::FromSpecImpl<&'a str> for Value<'a> {
    open spec fn obeys_from_spec() -> bool {
        true
    }

    open spec fn from_spec(s: &'a str) -> Value<'a> {
        Value::Str(s)
    }
}

impl<'a> From<String> for Value<'a> {
    fn from(s: String) -> (r: Value<'a>) {
        Value::String(s)
    }
}

impl<'a> vstd::std_specs::convert::FromSpecImpl<String> for Value<'a> {
    open spec fn obeys_from_spec() -> bool {
        true
    }

    open spec fn from_spec(s: String) -> Value<'a> {
        Value::String(s)
    }
}

impl<'a> From<u64> for Value<'a> {
    fn from(v: u64) -> (r: Value<'a>) {
        Value::U64(v)
    }
}

impl<'a> vstd::std_specs::convert::FromSpecImpl<u64> for Value<'a> {
    open spec fn obeys_from_spec() -> bool {
        true
    }

    open spec fn from_spec(v: u64) -> Value<'a> {
        Value::U64(v)
    }
}

impl<'a> From<i64> for Value<'a> {
    fn from(v: i64) -> (r: Value<'a>) {
        Value::I64(v)
    }
}

impl<'a> vstd::std_specs::convert::FromSpecImpl<i64> for Value<'a> {
    open spec fn obeys_from_spec() -> bool {
        true
    }

    open spec fn from_spec(v: i64) -> Value<'a> {
        Value::I64(v)
    }
}

impl<'a> From<bool> for Value<'a> {
    fn from(v: bool) -> (r: Value<'a>) {
        Value::Boolean(v)
    }
}

impl<'a> vstd::std_specs::convert::FromSpecImpl<bool> for Value<'a> {
    open spec fn obeys_from_spec() -> bool {
        true
    }

    open spec fn from_spec(v: bool) -> Value<'a> {
        Value::Boolean(v)
    }
}

} // verus!
