use vstd::prelude::*;

verus! {

/// What can be wrong with the bytes that a decoder is given.
///
/// `TruncatedRecord` and `PaletteIndexOutOfRange` end the one call that met
/// them, and concern that call only: the archive and its other records stay
/// usable.  `MissingIndex` and `PaletteIndexingFailure` end nothing: the
/// archive or the palette is built all the same, and a caller who wants to
/// know asks `check_index` or `check_color_table`.
#[derive(Clone, Copy, Debug, PartialEq, Eq, Structural)]
pub enum DecodeError {
    /// The archive has no index, and so no records.
    MissingIndex,
    /// The bytes end before the layout that is being read does.
    TruncatedRecord,
    /// A pixel names a colour that the palette does not hold.
    PaletteIndexOutOfRange,
    /// The colour table does not end with a whole entry; the bytes left over
    /// are not used.
    PaletteIndexingFailure,
}

impl DecodeError {
    /// A short description of the failure.
    pub fn message(&self) -> (r: &'static str)
        ensures
            r@ == (match *self {
                DecodeError::MissingIndex => "missing index"@,
                DecodeError::TruncatedRecord => "truncated record"@,
                DecodeError::PaletteIndexOutOfRange => "palette index out of range"@,
                DecodeError::PaletteIndexingFailure => "colour table with bytes left over"@,
            }),
    {
        match self {
            DecodeError::MissingIndex => "missing index",
            DecodeError::TruncatedRecord => "truncated record",
            DecodeError::PaletteIndexOutOfRange => "palette index out of range",
            DecodeError::PaletteIndexingFailure => "colour table with bytes left over",
        }
    }
}

} // verus!
