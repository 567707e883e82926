//! Intervals over integer element types, with verified set semantics.
//!
//! An interval is a connected set of elements with no gaps. The empty set,
//! fully bounded and half-bounded intervals and the whole domain are all
//! covered by [`EnumInterval`]; [`FiniteInterval`] and [`HalfInterval`] are
//! the narrower base shapes.
pub mod bound;
pub mod error;
pub mod numeric;
pub mod sets;
pub mod empty;
pub mod factory;
pub mod ops;
pub mod disjoint;
pub mod measure;
pub mod category;
pub mod cast;
pub mod from;
pub mod display;
mod default;

pub use sets::{EnumInterval, FiniteInterval, HalfInterval};
pub use disjoint::MaybeDisjoint;
pub use empty::MaybeEmpty;
