//! Combinators that collapse a three-state composite container — an optional
//! fallible value (`Option<Result<T, E>>`) or a fallible optional value
//! (`Result<Option<T>, E>`) — into a single `Result`, together with the
//! branch logic of an optional-value mapper whose transformation may suspend.

mod async_option;
mod result_option;

pub use async_option::async_map_done;
pub use async_option::async_map_step;
pub use async_option::MapStep;
pub use result_option::collapse_discarding;
pub use result_option::collapse_remapping;
pub use result_option::lemma_collapse_total;
pub use result_option::lemma_no_value_default;
pub use result_option::lemma_remap_vs_discard;
pub use result_option::lemma_success_pass_through;
pub use result_option::CollapseState;
pub use result_option::ResultOptionExt;
