//! The error taxonomy shared by the queue store, the playback controller and
//! the fetch helpers.

use vstd::prelude::*;

verus! {

/// Every failure the library reports falls under one of these headings.
/// Storage and decoding failures are raised by the surrounding runtime and
/// mapped into this type at the boundary; `SeekError` and `NoActiveSession`
/// are produced by the library's own logic.
#[derive(Clone, Copy, Debug, PartialEq, Eq, Structural)]
pub enum Error {
    /// The underlying storage failed while reading or writing a playlist.
    IOError,
    /// A persisted playlist file was structurally corrupt.
    FormatError,
    /// The audio bytes of a track could not be decoded.
    DecodeError,
    /// A requested seek lies beyond the end of the current track, or the
    /// sink rejected it.
    SeekError,
    /// The external fetch tool failed to resolve a title.
    FetchError,
    /// The external fetch tool failed to download a track.
    DownloadError,
    /// A playback command was issued while no session was active.
    NoActiveSession,
}

impl Error {
    /// A short human-readable label for the error, one per variant.
    pub fn describe(&self) -> (s: &'static str)
        ensures
            *self is IOError ==> s@ == "storage error"@,
            *self is FormatError ==> s@ == "corrupt playlist data"@,
            *self is DecodeError ==> s@ == "audio decode error"@,
            *self is SeekError ==> s@ == "seek beyond track end"@,
            *self is FetchError ==> s@ == "failed to fetch title"@,
            *self is DownloadError ==> s@ == "failed to download audio"@,
            *self is NoActiveSession ==> s@ == "no playlist is playing"@,
    {
        match self {
            Error::IOError => "storage error",
            Error::FormatError => "corrupt playlist data",
            Error::DecodeError => "audio decode error",
            Error::SeekError => "seek beyond track end",
            Error::FetchError => "failed to fetch title",
            Error::DownloadError => "failed to download audio",
            Error::NoActiveSession => "no playlist is playing",
        }
    }
}

} // verus!
