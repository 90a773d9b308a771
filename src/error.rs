//! The ways one request can fail; each is contained to that request.
use vstd::prelude::*;

verus! {

/// Why a recognition request produced no text.
#[derive(Clone, Copy, Debug, PartialEq, Eq, Structural)]
pub enum OcrError {
    /// Reading the request body failed, or it declared no length.
    Io,
    /// The body is empty, not a recognisable image, too large to hold, or of
    /// dimensions the decoder cannot report.
    Decode,
    /// The decoded image was refused by the engine (degenerate dimensions).
    Prepare,
    /// Word detection or text recognition failed inside the engine.
    Pipeline,
}

} // verus!
