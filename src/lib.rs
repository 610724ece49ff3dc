//! Monotonically increasing typed identifiers.
//!
//! Two counters hand out identifiers: `AutoIncrement`, owned by one caller,
//! and `AsyncIncrement`, shared by any number of callers through an atomic
//! cell. An identifier type takes part by implementing `Incremental` or
//! `AsyncIncremental`; the unsigned integers of the supported widths
//! implement both. The generator functions validate a newtype declaration
//! and describes the capability implementation to emit for it.
use vstd::prelude::*;

mod atomic;
mod backing;
mod generator;
mod sync;

pub use atomic::{AsyncIncrement, AsyncIncremental, Atomic};
pub use backing::lemma_pulls_are_consecutive;
pub use generator::{
    async_incremental, atomic_name_spec, field_backing, field_backing_spec, get_inner_type,
    impl_async_incremental, impl_incremental, incremental, inner_type_spec, integer_name_spec,
    lemma_accepts_exactly_newtypes, lemma_atomic_type_matches_width, lemma_generator_rejects,
    message_spec, parse_attrs, sole_field_name, validate_spec, AsyncIncrementalImpl, Attributes,
    BackingKind, Data, DeriveError, FieldType, Fields, IncrementalImpl, TypeDecl,
    backing_of_name_spec,
};
pub use sync::{lemma_pulls_walk_sequence, nth_pulled, AutoIncrement, Incremental};

verus! {

/// The raw value of the first identifier that a fresh counter hands out.
pub const DEFAULT_INITIAL_VALUE: u64 = 1;

} // verus!
