//! Failures of structure processing.
//!
//! Every failure is detected while the one annotated structure is being
//! processed and aborts that structure's processing: no partial output is
//! produced.

use vstd::prelude::*;

verus! {

/// The ways processing one annotated structure definition can fail.
#[derive(Clone, Copy, Debug, PartialEq, Eq, Structural)]
pub enum TrackError {
    /// The entry annotation was given arguments; it accepts none.
    UnexpectedArguments,
    /// The structure's fields are not in named form (tuple or unit form).
    NotNamedFields,
    /// More than 128 fields would need tracking bits; no wider native
    /// unsigned integer is assumed available.
    TooManyTrackedFields,
}

} // verus!
