//! Inline selection of values by compilation target.
//!
//! A value of any `Sized` type can pick among platform-specific
//! alternatives by chaining the selector methods of [`Platform`]:
//! each selector returns its replacement argument when the given
//! [`Target`] is the one it is named after, and the original value
//! unchanged otherwise.

mod chain;
mod select;
mod target;

pub use chain::{
    chain_result, lemma_chain_last_match, lemma_chain_no_match, lemma_chain_push,
    lemma_chain_skip_non_match,
};
pub use select::{lemma_select_match, lemma_select_non_match, select_spec, Platform};
pub use target::Target;
