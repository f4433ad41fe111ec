//! The failure taxonomy of the playback engine.

use vstd::prelude::*;

verus! {

/// Everything that can go wrong while constructing the engine or
/// starting a track.
///
/// `DeviceUnavailable` is fatal at construction: no audio output device
/// could be acquired.  The other three are per-call failures of `play`:
/// the path does not name a readable file (`FileNotFound`), the file is
/// not decodable audio (`UnsupportedFormat`), or its duration tag is
/// missing or malformed (`MetadataUnavailable`).  A per-call failure
/// leaves the controller in its prior state.
#[derive(Clone, Copy, Debug, PartialEq, Eq, Structural)]
pub enum MusicError {
    DeviceUnavailable,
    FileNotFound,
    UnsupportedFormat,
    MetadataUnavailable,
}

impl MusicError {
    /// A user-visible description of the failure.
    pub fn message(&self) -> (r: String)
        ensures
            *self == MusicError::DeviceUnavailable ==> r@ == "no audio output device is available"@,
            *self == MusicError::FileNotFound ==> r@ == "file not found"@,
            *self == MusicError::UnsupportedFormat ==> r@ == "file is not decodable audio"@,
            *self == MusicError::MetadataUnavailable ==> r@ == "track duration is missing or malformed"@,
    {
        match self {
            MusicError::DeviceUnavailable => String::from_str("no audio output device is available"),
            MusicError::FileNotFound => String::from_str("file not found"),
            MusicError::UnsupportedFormat => String::from_str("file is not decodable audio"),
            MusicError::MetadataUnavailable => String::from_str("track duration is missing or malformed"),
        }
    }
}

} // verus!
