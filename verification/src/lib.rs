//! Dimensional analysis for physical quantities: values tagged with a unit
//! of measure, where arithmetic between two units is permitted only when a
//! conversion between them has been declared, and the conversion is applied
//! automatically.
//!
//! Units are zero-sized tag types implementing [`MeasureUnit`]. A declared
//! conversion from unit `U` into unit `V` is an implementation of
//! [`FromUnit<U>`] for `V`; purely multiplicative conversions additionally
//! implement [`FromUnitLinear`], which carries a proof obligation that the
//! conversion really is multiplication by a constant factor. A composite
//! rate unit is [`DivUnit<N, D>`] (numerator over denominator), and an alias
//! unit presents an existing unit under its own symbol. The value container
//! is [`Measurement<U>`]; its magnitude is an exact rational number
//! ([`rational::Rat`]), so every conversion and every arithmetic result is
//! pinned exactly by its contract.

pub mod laws;
pub mod measure;
pub mod rational;
pub mod render;
pub mod units;

pub use measure::DivUnit;
pub use measure::FromUnit;
pub use measure::FromUnitLinear;
pub use measure::MeasureUnit;
pub use measure::Measurement;
pub use rational::Rat;
