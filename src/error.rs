use vstd::prelude::*;

verus! {

/// Why a download session operation failed.
///
/// Variants that carry a `String` hold the full human-readable description
/// produced where the failing foreign call was made.
#[derive(Debug, Clone, PartialEq, Eq)]
pub enum DownloadError {
    /// The platform is below the capability level needed for public downloads.
    UnsupportedPlatform,
    /// The thread-bound native environment could not be reached.
    EnvironmentUnavailable(String),
    /// Building the metadata record for an entry failed.
    MetadataWriteFailed(String),
    /// A provider call failed at the call level (as opposed to returning null).
    NativeCallFailed(String),
    /// The provider's insert returned no entry.
    EntryCreationFailed,
    /// The provider returned no writable stream for the entry.
    StreamOpenFailed,
    /// Writing the bytes to an open stream failed.
    WriteFailed(String),
    /// No response arrived from the owner thread within the timeout.
    TimedOut,
    /// The session handle could not be turned into a provider identifier.
    HandleParseFailed(String),
}

impl DownloadError {
    /// Human-readable description handed to the calling layer.
    pub fn message(&self) -> (r: String)
        ensures
            match self {
                DownloadError::EnvironmentUnavailable(d) => r@ == d@,
                DownloadError::MetadataWriteFailed(d) => r@ == d@,
                DownloadError::NativeCallFailed(d) => r@ == d@,
                DownloadError::WriteFailed(d) => r@ == d@,
                DownloadError::HandleParseFailed(d) => r@ == d@,
                DownloadError::UnsupportedPlatform => r@ == "Android 10+ required for public downloads"@,
                DownloadError::EntryCreationFailed => r@ == "Failed to create download entry"@,
                DownloadError::StreamOpenFailed => r@ == "Failed to open output stream"@,
                DownloadError::TimedOut => r@ == "Android JNI call timed out"@,
            },
    {
        match self {
            DownloadError::UnsupportedPlatform => {
                proof { reveal_strlit("Android 10+ required for public downloads"); }
                String::from_str("Android 10+ required for public downloads")
            },
            DownloadError::EnvironmentUnavailable(d) => d.clone(),
            DownloadError::MetadataWriteFailed(d) => d.clone(),
            DownloadError::NativeCallFailed(d) => d.clone(),
            DownloadError::EntryCreationFailed => {
                proof { reveal_strlit("Failed to create download entry"); }
                String::from_str("Failed to create download entry")
            },
            DownloadError::StreamOpenFailed => {
                proof { reveal_strlit("Failed to open output stream"); }
                String::from_str("Failed to open output stream")
            },
            DownloadError::WriteFailed(d) => d.clone(),
            DownloadError::TimedOut => {
                proof { reveal_strlit("Android JNI call timed out"); }
                String::from_str("Android JNI call timed out")
            },
            DownloadError::HandleParseFailed(d) => d.clone(),
        }
    }
}

} // verus!
