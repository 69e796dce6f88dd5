//! The error taxonomy of the library: what can go wrong while a macro runs,
//! while one is written to its file form, and while one is read back.

use vstd::prelude::*;

verus! {

/// Every failure the library reports.
///
/// The first four arise while a macro runs: a step needed an image that was
/// never attached, the OS refused to spawn a process, input synthesis failed,
/// or the screen could not be captured. The remaining ones arise in the file
/// codec: an attached image's bytes could not be decoded, an image could not
/// be encoded, the document structure was not readable, or an enumeration
/// carried a wire tag the library does not know. `UnknownLabel` is reported
/// when a step label string does not name any step kind.
#[derive(Clone, Copy, Debug, PartialEq, Eq, Structural)]
pub enum Error {
    MissingImageData,
    SpawnFailure,
    InputError,
    CaptureError,
    DecodeFailure,
    EncodeFailure,
    MalformedDocument,
    UnknownEnumTag,
    UnknownLabel,
}

} // verus!
