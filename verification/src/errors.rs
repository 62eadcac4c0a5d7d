//! The error taxonomy of submission: one length-violation kind per validated
//! text field.

use vstd::prelude::*;

verus! {

/// Why a submission was rejected. Each variant names the text field whose
/// byte length exceeded its bound; the quantity has no bound beyond its
/// 32-bit range and so no variant. A failed submission writes nothing.
#[derive(Copy, Clone, Debug, PartialEq, Eq, Structural)]
pub enum ContractErrors {
    ComponentTypeLengthError,
    ProductionDateLengthError,
    FacilityIdLengthError,
    DocHashLengthError,
}

} // verus!
