use vstd::prelude::*;

verus! {

/// Why a chunk or a chunk type could not be built.
#[derive(Debug, Clone, Copy, PartialEq, Eq, Structural)]
pub enum ChunkError {
    /// Fewer than four bytes were given to the chunk decoder.
    TruncatedHeader,
    /// The declared length plus twelve differs from the buffer's length.
    SizeMismatch,
    /// The type bytes are not four letters with an uppercase third letter.
    InvalidChunkType,
    /// A type string did not have exactly four characters.
    InvalidLength,
    /// A type string held a character that is not an ASCII letter.
    InvalidCharacter,
    /// The declared checksum differs from the one computed over type and data.
    ChecksumMismatch,
    /// The payload is not valid UTF-8 text.
    InvalidUtf8,
}

} // verus!
