//! Verified core of a small code-execution service: the supported languages,
//! the job and result records, and the decisions that the server and the
//! worker make around running submitted code.
use vstd::prelude::*;

pub mod api;
pub mod container;
pub mod dispatch;
pub mod ids;
pub mod models;
pub mod records;
pub mod runs;
pub mod stamps;
pub mod stream;
pub mod text;

verus! {

} // verus!
