use vstd::prelude::*;

verus! {

/// Why a submitted line was rejected, or that reading one failed.
///
/// `IoError` stands for a failed read from the input stream; the underlying
/// cause belongs to the embedding program, which owns the streams, so the
/// library records only that the read failed. `ParseError` means the line
/// was not a base-10 non-negative integer; `OutOfRange` carries the bounds
/// the guess had to fall within.
#[derive(Clone, Copy, Debug, PartialEq, Eq, Structural)]
pub enum GameError {
    IoError,
    ParseError,
    OutOfRange { min: u32, max: u32 },
}

} // verus!
