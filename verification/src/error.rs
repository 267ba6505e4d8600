use vstd::prelude::*;

verus! {

/// Why a call was rejected. A lookup of an unknown key is not among these:
/// it answers `None`.
#[derive(Clone, Copy, Debug, PartialEq, Eq, Structural)]
pub enum StoreError {
    /// `initialize` was called on a surface that already has an owner.
    DoubleInitialization,
    /// An argument is missing or of the wrong type: the serialized form of
    /// a record lacks a field, has one too many, names or orders its fields
    /// otherwise than the wire shape does, or a text offered as an identity
    /// is no well-formed account name.
    MalformedInput,
}

} // verus!
