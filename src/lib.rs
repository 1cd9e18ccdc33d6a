//! Checked sizing for reinterpreting a contiguous buffer of one element type as a buffer of
//! another element type over the same bytes.
//!
//! The library decides, from the byte sizes of the two element types and the element count (and,
//! for an owned buffer, the capacity), what count the reinterpreted buffer has, or which size rule
//! the reinterpretation breaks. Every decision is proved against the rules stated in `sizing` and
//! `transfer`; `laws` holds the properties that relate several decisions.
pub mod error;
pub mod laws;
pub mod sizing;
pub mod transfer;

pub use error::ReinterpretError;
pub use sizing::{compute_count, view_len};
pub use transfer::{transfer_layout, vec_layout, OwnedLayout};
