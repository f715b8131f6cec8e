use vstd::prelude::*;

verus! {

/// Lowest platform capability level at which downloads can be published to
/// the shared download collection.
pub const MIN_PUBLIC_DOWNLOAD_LEVEL: i32 = 29;

/// Whether the platform at capability `level` supports public downloads.
pub fn supports_public_download(level: i32) -> (r: bool)
    ensures
        r == (level >= MIN_PUBLIC_DOWNLOAD_LEVEL),
{
    level >= MIN_PUBLIC_DOWNLOAD_LEVEL
}

} // verus!
