use vstd::prelude::*;

verus! {

/// The ways a download run can fail; each one ends the run at once.
#[derive(Clone, Copy, Debug, PartialEq, Eq, Structural)]
pub enum FetchError {
    /// No target directory was given.
    MissingArgument,
    /// A resource URL could not be parsed.
    UrlParseError,
    /// A resource URL has no path segment to name the file after.
    MissingPathSegment,
    /// Creating, opening, reading or writing a local file failed.
    FilesystemError,
    /// The HTTP transfer failed.
    TransportError,
    /// The fetched bytes are not a complete gzip stream.
    DecodeError,
}

/// The sentence shown to the user for each kind of error.
pub open spec fn message_spec(e: FetchError) -> Seq<char> {
    match e {
        FetchError::MissingArgument => "Please specify a directory when downloading datasets"@,
        FetchError::UrlParseError => "Could not parse a dataset URL"@,
        FetchError::MissingPathSegment => "Could not get the last path segment of a dataset URL"@,
        FetchError::FilesystemError => "Could not create, read or write a local file"@,
        FetchError::TransportError => "The download failed"@,
        FetchError::DecodeError => "The downloaded file is not a valid gzip stream"@,
    }
}

impl FetchError {
    /// A short sentence for the user.
    pub fn message(&self) -> (r: &'static str)
        ensures
            r@ == message_spec(*self),
    {
        match self {
            FetchError::MissingArgument => "Please specify a directory when downloading datasets",
            FetchError::UrlParseError => "Could not parse a dataset URL",
            FetchError::MissingPathSegment => "Could not get the last path segment of a dataset URL",
            FetchError::FilesystemError => "Could not create, read or write a local file",
            FetchError::TransportError => "The download failed",
            FetchError::DecodeError => "The downloaded file is not a valid gzip stream",
        }
    }
}

} // verus!
