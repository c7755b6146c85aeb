//! Names for the shapes that the rest of the crate passes around.

use std::collections::HashMap;
use vstd::prelude::*;

verus! {

/// An identifier in text form.
pub type Id = String;

/// Entities of one kind, keyed by their id.
pub type EntityRecord<T> = HashMap<String, T>;

/// Something that carries an id.
pub trait HasId {
    /// The id.
    fn id(&self) -> &Id;
}

} // verus!
