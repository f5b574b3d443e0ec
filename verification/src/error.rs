use vstd::prelude::*;

verus! {

/// The failure conditions that a storage migration or growth step can report.
///
/// Popping an empty container is not an error (`pop` returns `None`); these
/// variants cover only the allocation bookkeeping behind `push`.
#[derive(Debug, PartialEq, Eq, Structural)]
pub enum Error {
    /// The underlying memory provider declined the allocation request.
    AllocError,
    /// The requested element-count and size combination cannot be expressed
    /// as a valid memory layout; indicates an internal error.
    LayoutError,
    /// The capacity arithmetic would overflow the representable address range.
    CapacityOverflow,
}

impl Error {
    /// A short description of the failure condition.
    pub fn message(&self) -> (r: &'static str)
        ensures
            self is AllocError ==> r@ == "Allocation error"@,
            self is LayoutError ==> r@ == "Memory layout error"@,
            self is CapacityOverflow ==> r@ == "Allocation too large"@,
    {
        match self {
            Error::AllocError => "Allocation error",
            Error::LayoutError => "Memory layout error",
            Error::CapacityOverflow => "Allocation too large",
        }
    }
}

} // verus!
