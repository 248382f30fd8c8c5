//! A relay between a producer of drawing commands and a rendering backend on
//! another thread: commands go out and events come back over two one-way
//! channels, and a setup step runs at most once. Source positions for tokens
//! live here too.
use vstd::prelude::*;

pub mod once;
pub mod pos;
pub mod relay;

verus! {

} // verus!
