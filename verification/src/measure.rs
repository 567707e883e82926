//! Measures of sets: cardinality ([`Measure`], [`Count`]), width
//! ([`Width`]) and the midpoint of finite intervals.
//!
//! A finite-bounded set has a finite measure, computed without wrapping:
//! a result that does not fit the output type is an error, never
//! `Extent::Infinite`. Half-bounded and unbounded sets measure `Infinite`.
pub mod count;
pub mod extent;
#[allow(clippy::module_inception)]
pub mod measure;
pub mod midpoint;
pub mod width;

pub use count::{Count, CountOverflowError, Countable};
pub use extent::Extent;
pub use measure::Measure;
pub use width::{Width, WidthOverflowError, Widthable};
