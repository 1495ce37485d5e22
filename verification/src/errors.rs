use vstd::prelude::*;

verus! {

/// Malformed or missing command-line arguments.
#[derive(Clone, Copy, Debug, PartialEq, Eq)]
pub struct OptionsError;

/// The container writer could not build an image from the pixel buffer.
#[derive(Clone, Copy, Debug, PartialEq, Eq)]
pub struct EncodingError;

/// A pixel buffer was requested with less capacity than the payload needs.
#[derive(Clone, Copy, Debug, PartialEq, Eq)]
pub struct CapacityError;

/// The container reader could not produce a pixel buffer from the given
/// bytes.
#[derive(Clone, Copy, Debug, PartialEq, Eq)]
pub struct CodecError;

} // verus!
