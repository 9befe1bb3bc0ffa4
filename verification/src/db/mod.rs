//! What the database holds, and the text of the queries sent to it.

pub mod entities;
pub mod helpers;
pub mod queries;
pub mod statements;

pub use queries::{Order, OrderBy};

use vstd::prelude::*;

verus! {

/// Which articles a query is after.
#[derive(Debug, Clone, Copy, PartialEq, Eq, Structural)]
pub enum ArticleSelector {
    Short,
    Article,
    All,
}

} // verus!
