//! Flattens JSON documents into a stream of (path, leaf value) events.
//!
//! An event source reports what it finds in a document; a [`Seed`] keeps the
//! [`Path`] to the current position in step with it and hands every leaf
//! [`Value`] to a [`Visitor`].
use vstd::prelude::*;

pub mod csv;
pub mod paths;
pub mod seed;
pub mod text;
pub mod value;
pub mod visitor;
pub mod walk;

pub use crate::csv::CsvWriter;
pub use crate::paths::{Path, Segment};
pub use crate::seed::{ElementCounter, Seed};
pub use crate::value::Value;
pub use crate::visitor::Visitor;
pub use crate::walk::Event;

verus! {

} // verus!
