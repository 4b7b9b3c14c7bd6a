//! Errors of the player.
use vstd::prelude::*;
use vstd::string::StringExecFns;

verus! {

/// What can go wrong. Paths and underlying errors are carried as text.
#[derive(Debug)]
pub enum AppError {
    Io(String),
    Audio(String),
    Decode(String),
    Config(String),
    Playlist(String),
    NoTracks,
    FileNotFound(String),
    UnsupportedFormat(String),
    Other(String),
}

/// A result whose error is an `AppError`.
pub type Result<T> = std::result::Result<T, AppError>;

/// The text of an error message: its kind's prefix followed by its detail.
pub open spec fn error_message(e: AppError) -> Seq<char> {
    match e {
        AppError::Io(s) => "IO error: "@ + s@,
        AppError::Audio(s) => "Audio error: "@ + s@,
        AppError::Decode(s) => "Decode error: "@ + s@,
        AppError::Config(s) => "Config error: "@ + s@,
        AppError::Playlist(s) => "Playlist error: "@ + s@,
        AppError::NoTracks => "No tracks loaded"@,
        AppError::FileNotFound(s) => "File not found: "@ + s@,
        AppError::UnsupportedFormat(s) => "Unsupported format: "@ + s@,
        AppError::Other(s) => s@,
    }
}

impl AppError {
    /// The error's message, as it is shown to the user.
    pub fn message(&self) -> (r: String)
        ensures
            r@ == error_message(*self),
    {
        match self {
            AppError::Io(s) => String::from_str("IO error: ").concat(s.as_str()),
            AppError::Audio(s) => String::from_str("Audio error: ").concat(s.as_str()),
            AppError::Decode(s) => String::from_str("Decode error: ").concat(s.as_str()),
            AppError::Config(s) => String::from_str("Config error: ").concat(s.as_str()),
            AppError::Playlist(s) => String::from_str("Playlist error: ").concat(s.as_str()),
            AppError::NoTracks => String::from_str("No tracks loaded"),
            AppError::FileNotFound(s) => String::from_str("File not found: ").concat(s.as_str()),
            AppError::UnsupportedFormat(s) => String::from_str("Unsupported format: ").concat(
                s.as_str(),
            ),
            AppError::Other(s) => s.clone(),
        }
    }

    /// A copy of this error.
    pub fn duplicate(&self) -> (r: AppError)
        ensures
            r == *self,
    {
        match self {
            AppError::Io(s) => AppError::Io(s.clone()),
            AppError::Audio(s) => AppError::Audio(s.clone()),
            AppError::Decode(s) => AppError::Decode(s.clone()),
            AppError::Config(s) => AppError::Config(s.clone()),
            AppError::Playlist(s) => AppError::Playlist(s.clone()),
            AppError::NoTracks => AppError::NoTracks,
            AppError::FileNotFound(s) => AppError::FileNotFound(s.clone()),
            AppError::UnsupportedFormat(s) => AppError::UnsupportedFormat(s.clone()),
            AppError::Other(s) => AppError::Other(s.clone()),
        }
    }
}

} // verus!
