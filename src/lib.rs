//! An advisory engine for application-development-kit projects: a versioned
//! knowledge base, a rule catalog with compliance scoring, a textual Rust
//! analysis of Rust sources and request metrics.
use vstd::prelude::*;

pub mod expert;
pub mod review;
pub mod server;
pub mod text;
pub mod utils;

verus! {

} // verus!
