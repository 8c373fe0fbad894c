//! The trust boundary of a desktop file assistant: which paths a command may
//! touch, how risky an operation is, and the start protocol of the local agent
//! that carries commands out.
use vstd::prelude::*;

pub mod allowed;
pub mod risk;
pub mod security;
pub mod supervisor;
pub mod text;

verus! {

} // verus!
