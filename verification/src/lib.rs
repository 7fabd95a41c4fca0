//! Validation as a capability, and validity as a type.
//!
//! A type says how its values are checked by implementing [`Vet`]. A value
//! that passed the check travels on inside a [`Valid`] wrapper, so a function
//! that needs checked data can ask for `Valid<T>` in its signature instead of
//! checking again.
//!
//! Optional values, arrays and vectors of checkable values are checkable
//! themselves: the first element that fails, from the left, decides.

pub mod capability;
pub mod optional;
pub mod sequence;
pub mod wrapper;

pub use capability::Vet;
pub use wrapper::Valid;
