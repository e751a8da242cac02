use vstd::prelude::*;

verus! {

/// The one checked failure of the engine: a coordinate fell outside
/// the board's column or row range.
#[derive(Debug, Clone, Copy, PartialEq, Eq, Structural)]
pub enum Error {
    OutOfBounds,
}

impl Error {
    /// A short description of the failure.
    pub fn message(&self) -> (r: String)
        ensures
            r@ == "tetromino out of bounds"@,
    {
        "tetromino out of bounds".to_string()
    }
}

} // verus!
