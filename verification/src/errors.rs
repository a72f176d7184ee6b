//! The error taxonomy: fatal startup errors (an unreadable configured
//! directory), fatal reactor errors (an unexpected notification kind), and
//! per-file thumbnail errors (a source that cannot be decoded, or a preview
//! that cannot be encoded or written).

use vstd::prelude::*;

verus! {

/// A configured directory could not be scanned at startup. The whole scan
/// fails: no partial index is ever built.
#[derive(Debug)]
pub enum ScanError {
    DirectoryUnreadable { dir: String },
}

impl ScanError {
    /// The directory the error is about.
    pub fn dir(&self) -> (r: &String)
        ensures
            self matches ScanError::DirectoryUnreadable { dir } && r == dir,
    {
        match self {
            ScanError::DirectoryUnreadable { dir } => dir,
        }
    }

    /// A human-readable description naming the unreadable directory.
    pub fn message(&self) -> (r: String)
        ensures
            self matches ScanError::DirectoryUnreadable { dir } ==> r@
                == "failed to open directory '"@ + dir@ + "'"@,
    {
        match self {
            ScanError::DirectoryUnreadable { dir } => {
                let mut m = "failed to open directory '".to_owned();
                m.append(dir.as_str());
                m.append("'");
                m
            },
        }
    }
}

/// The reactor received a notification kind it never subscribed to; this is
/// fatal and becomes the reactor's terminal result.
#[derive(Debug)]
pub enum ReactorError {
    UnexpectedEventKind { path: String },
}

impl ReactorError {
    /// A human-readable description naming the event's subject.
    pub fn message(&self) -> (r: String)
        ensures
            self matches ReactorError::UnexpectedEventKind { path } ==> r@
                == "unexpected notification kind for '"@ + path@ + "'"@,
    {
        match self {
            ReactorError::UnexpectedEventKind { path } => {
                let mut m = "unexpected notification kind for '".to_owned();
                m.append(path.as_str());
                m.append("'");
                m
            },
        }
    }
}

/// A single file's thumbnail could not be produced. Such an error is
/// per-item: callers log it and go on with the remaining files.
#[derive(Debug)]
pub enum ThumbnailError {
    /// The source bytes are not a decodable image.
    Decode { detail: String },
    /// The scaled preview could not be encoded.
    Encode { detail: String },
    /// The preview could not be written to the cache directory.
    Write { detail: String },
}

impl ThumbnailError {
    /// A human-readable description of what failed.
    pub fn message(&self) -> (r: String)
        ensures
            (self matches ThumbnailError::Decode { detail } ==> r@
                == "failed to decode the source image: "@ + detail@)
            && (self matches ThumbnailError::Encode { detail } ==> r@
                == "failed to encode the thumbnail: "@ + detail@)
            && (self matches ThumbnailError::Write { detail } ==> r@
                == "failed to write the thumbnail: "@ + detail@),
    {
        match self {
            ThumbnailError::Decode { detail } => {
                let mut m = "failed to decode the source image: ".to_owned();
                m.append(detail.as_str());
                m
            },
            ThumbnailError::Encode { detail } => {
                let mut m = "failed to encode the thumbnail: ".to_owned();
                m.append(detail.as_str());
                m
            },
            ThumbnailError::Write { detail } => {
                let mut m = "failed to write the thumbnail: ".to_owned();
                m.append(detail.as_str());
                m
            },
        }
    }
}

} // verus!
