//! Server-side core of a shared pixel board: the board model, its wire
//! text, and the decisions taken for each client message.

use vstd::prelude::*;

pub mod canvas;
pub mod responder;
pub mod text;

verus! {

} // verus!
