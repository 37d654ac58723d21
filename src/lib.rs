//! A single-slot optional for types that reserve one of their values to
//! stand for absence.
//!
//! [`IOption<T>`] stores a bare `T` and nothing else: it is `None` exactly when
//! the stored value is null under [`Nullable`], and `Some` of the stored value
//! otherwise.
mod ioption;
mod nullable;

pub use ioption::{
    lemma_from_stores, lemma_round_trip_from_option, lemma_round_trip_through_option, IOption,
};
pub use nullable::Nullable;
