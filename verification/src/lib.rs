//! Change tracking for structures, generated ahead of compilation.
//!
//! This library is the generation core behind a per-field change-tracking
//! attribute: given a static description of one structure definition (its
//! name, visibility, generic parameters, where-clause and named fields,
//! each field with its annotations), it
//!
//! * scans each field's annotations for the two control markers
//!   (`do_not_track`, `no_eq`) and strips them,
//! * assigns every tracked field a bit index,
//! * picks the smallest unsigned integer width that holds one bit per
//!   tracked field, and
//! * emits the structure definition again, extended with a hidden bitmask
//!   field, together with an implementation block of accessor, mutator,
//!   setter and query methods.
//!
//! The runtime meaning of those generated methods — which operations set
//! which bits of the mask, and what the queries return — is modelled and
//! proved in [`mask`].

pub mod attrs;
pub mod descriptor;
pub mod error;
pub mod mask;
pub mod numerals;
pub mod rewrite;
pub mod synth;
pub mod width;

pub use attrs::parse_field_attrs;
pub use error::TrackError;
pub use rewrite::track;
pub use width::{tracker_type, IntWidth};
