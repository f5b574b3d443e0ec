//! A hybrid vector container that stores its first `N` elements in an inline
//! region reserved up front and migrates to a growable heap buffer once the
//! element count exceeds `N`, doubling its capacity at each growth step.
//!
//! The container is single-owner and single-threaded; every operation is
//! synchronous and leaves the container in a valid state, and a `push` that
//! cannot grow the storage reports the failure instead of corrupting it.

pub mod error;
pub mod fastvec;
pub mod laws;
pub mod stack;
pub mod trace;

pub use crate::error::Error;
pub use crate::fastvec::FastVec;
