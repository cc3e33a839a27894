use vstd::prelude::*;

verus! {

/// Why a blueprint operation was rejected. Every failure is a no-op on the
/// blueprint and is correctable by retrying with a valid request.
#[derive(Clone, Copy, PartialEq, Eq, Structural, Debug)]
pub enum BuildError {
    /// The operation is not legal in the blueprint's current stage.
    StageViolation,
    /// The targeted single-module slot is already occupied.
    DuplicateInstallation,
    /// Not enough slots remain for the requested module.
    CapacityExceeded,
    /// Core lock was attempted while a required core module is missing.
    IncompleteCore,
    /// The shield variant conflicts with an installed reactor family.
    IncompatibleVariant,
}

impl BuildError {
    /// A short description of the failure, for display by a caller.
    pub fn message(&self) -> (s: &'static str)
        ensures
            self is StageViolation ==> s@ == "operation not legal in the current stage"@,
            self is DuplicateInstallation ==> s@ == "module slot already occupied"@,
            self is CapacityExceeded ==> s@ == "not enough slots remaining"@,
            self is IncompleteCore ==> s@ == "a required core module is missing"@,
            self is IncompatibleVariant ==> s@ == "shield incompatible with installed reactor family"@,
    {
        match self {
            BuildError::StageViolation => "operation not legal in the current stage",
            BuildError::DuplicateInstallation => "module slot already occupied",
            BuildError::CapacityExceeded => "not enough slots remaining",
            BuildError::IncompleteCore => "a required core module is missing",
            BuildError::IncompatibleVariant => "shield incompatible with installed reactor family",
        }
    }
}

} // verus!
