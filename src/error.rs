use crate::format::FrameFormat;
use vstd::prelude::*;

verus! {

/// The errors that the library reports.
#[derive(Clone, Debug)]
pub enum NokhwaError {
    /// An expected platform object was missing or had the wrong type.
    StructureError { structure: String, error: String },
    /// A property of a presentation element could not be set.
    SetPropertyError { property: String, value: String, error: String },
    /// A frame could not be converted from `src` into `destination`.
    ProcessFrameError { src: FrameFormat, destination: String, error: String },
    /// A frame could not be drawn or read back, or it had the wrong size.
    ReadFrameError(String),
    /// A control or format has no mapping.
    NotImplementedError(String),
}

} // verus!
