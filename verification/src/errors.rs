use vstd::prelude::*;

verus! {

/// Why an economy operation was refused.
///
/// The user-facing failures (funds, land, housing, workers) are recoverable:
/// the operation that reports them performs no mutation at all. `OverRelease`
/// and `OverUnassign` indicate a caller bug (releasing more of a resource than
/// is currently held); they too leave the state untouched.
#[derive(Clone, Copy, Debug, PartialEq, Eq, Structural)]
pub enum EconomyError {
    InsufficientFunds,
    InsufficientLand,
    InsufficientHousing,
    InsufficientWorkers,
    InsufficientAvailable,
    OverRelease,
    OverUnassign,
}

impl EconomyError {
    /// A short human-readable reason, for the presentation layer to display.
    pub fn message(&self) -> (r: &'static str)
        ensures
            *self == EconomyError::InsufficientFunds ==> r@ == "Insufficient funds."@,
            *self == EconomyError::InsufficientLand ==> r@ == "Not enough land available."@,
            *self == EconomyError::InsufficientHousing ==> r@ == "Not enough housing for more workers."@,
            *self == EconomyError::InsufficientWorkers ==> r@ == "Not enough workers available."@,
            *self == EconomyError::InsufficientAvailable ==> r@ == "Not enough unassigned workers."@,
            *self == EconomyError::OverRelease ==> r@ == "Trying to release more than is held."@,
            *self == EconomyError::OverUnassign ==> r@ == "Trying to unassign more workers than are assigned."@,
    {
        match self {
            EconomyError::InsufficientFunds => "Insufficient funds.",
            EconomyError::InsufficientLand => "Not enough land available.",
            EconomyError::InsufficientHousing => "Not enough housing for more workers.",
            EconomyError::InsufficientWorkers => "Not enough workers available.",
            EconomyError::InsufficientAvailable => "Not enough unassigned workers.",
            EconomyError::OverRelease => "Trying to release more than is held.",
            EconomyError::OverUnassign => "Trying to unassign more workers than are assigned.",
        }
    }
}

} // verus!
