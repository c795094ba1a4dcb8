//! Data model and codec for CWMP (TR-069) SOAP messages.
//!
//! - `xml`: a plain XML tree, the form in which messages enter and leave the codec.
//! - `path`: parameter paths and their Full / Partial / WildCard classification.
//! - `request`, `response`, `header`, `fault`, `body`, `envelope`: the typed messages and
//!   their encoding to and decoding from the tree.
//! - `graph`, `unify`, `fixpoint`: the schema graph, the engine that merges its per-version
//!   definitions into one canonical graph, and the proof that the engine is idempotent.
//! - `text`: decimal numerals and qualified names.
use vstd::prelude::*;

pub mod text;
pub mod xml;
pub mod error;
pub mod path;
pub mod request;
pub mod response;
pub mod header;
pub mod fault;
pub mod graph;
pub mod unify;
pub mod fixpoint;
pub mod body;
pub mod envelope;

verus! {

} // verus!
