//! What can go wrong while a configuration is laid out.

use vstd::prelude::*;

verus! {

/// The one way in which laying out a configuration fails.
#[derive(Debug, Clone, Copy, PartialEq, Eq, Structural)]
pub enum BuildError {
    /// The position of a group, counted from one, does not fit the 32 bits
    /// that a page number has.
    PageNumberOverflow,
}

impl BuildError {
    /// The message to show for this error.
    pub fn message(&self) -> (text: String)
        ensures
            text@ == "group position does not fit in a 32-bit page number"@,
    {
        match self {
            BuildError::PageNumberOverflow => {
                "group position does not fit in a 32-bit page number".to_string()
            },
        }
    }
}

} // verus!
