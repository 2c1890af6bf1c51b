//! A minimal terminal text viewer: a document of lines loaded from file
//! text, a cursor clamped to the terminal bounds, and a full-screen
//! renderer that produces the exact frame written to the terminal.
pub mod document;
pub mod term;
pub mod viewer;

use vstd::prelude::*;

verus! {

} // verus!
