//! Ingestion policy for audio files uploaded through the messenger: the
//! size bound, the cached-file reuse rule, and the texts reported back.

use vstd::prelude::*;

verus! {

/// Largest declared size, in bytes, of an uploaded audio file that the
/// ingester is willing to download.
pub const MAX_UPLOAD_BYTES: u64 = 20 * 1024 * 1024;

/// What the ingester decides to do with one uploaded audio file, from its
/// declared size, whether the upload carries a file name, and whether a
/// file of that name already sits in the temp cache.
#[derive(Clone, Copy, Debug, PartialEq, Eq, Structural)]
pub enum UploadPlan {
    /// The declared size is over the bound; nothing is downloaded.
    RejectTooBig,
    /// The upload has no file name to cache it under; nothing is downloaded.
    RejectMissingName,
    /// A file of this name is already cached; it is reused, not downloaded.
    UseCached,
    /// The file is fetched into the cache.
    Download,
}

/// The decision for an upload: the size bound is checked first, then the
/// presence of a file name, then the cache.
pub open spec fn upload_plan_spec(size: u64, has_file_name: bool, cached: bool) -> UploadPlan {
    if size > MAX_UPLOAD_BYTES {
        UploadPlan::RejectTooBig
    } else if !has_file_name {
        UploadPlan::RejectMissingName
    } else if cached {
        UploadPlan::UseCached
    } else {
        UploadPlan::Download
    }
}

/// Decides what to do with an uploaded audio file of declared `size`,
/// with or without a file name, already cached or not.
pub fn plan_upload(size: u64, has_file_name: bool, cached: bool) -> (plan: UploadPlan)
    ensures
        plan == upload_plan_spec(size, has_file_name, cached),
{
    if size > MAX_UPLOAD_BYTES {
        UploadPlan::RejectTooBig
    } else if !has_file_name {
        UploadPlan::RejectMissingName
    } else if cached {
        UploadPlan::UseCached
    } else {
        UploadPlan::Download
    }
}

/// Law: a download is planned only for a file whose declared size is within
/// the bound and whose name is not yet in the cache; in particular the same
/// file name is never downloaded twice while the cache holds it.
pub proof fn lemma_download_bounded(size: u64, has_file_name: bool, cached: bool)
    ensures
        upload_plan_spec(size, has_file_name, cached) == UploadPlan::Download ==> size
            <= MAX_UPLOAD_BYTES && !cached,
{
}

/// Reply when the command does not stand in a reply to an audio message.
pub fn no_audio_message() -> (s: &'static str)
    ensures
        s@ == "\u{274c} No audio provided\nReply to a message with an audio file to add it to queue"@,
{
    "\u{274c} No audio provided\nReply to a message with an audio file to add it to queue"
}

/// Reply for an upload whose declared size is over the bound.
pub fn too_big_message() -> (s: &'static str)
    ensures
        s@ == "\u{274c} File too big, can't download files larger than 20MB"@,
{
    "\u{274c} File too big, can't download files larger than 20MB"
}

/// Reply for an upload that carries no file name.
pub fn missing_name_message() -> (s: &'static str)
    ensures
        s@ == "\u{274c} Invalid audio file found"@,
{
    "\u{274c} Invalid audio file found"
}

/// Notice sent before a download starts.
pub fn downloading_message() -> (s: &'static str)
    ensures
        s@ == "\u{23f3} Downloading the file, this might take some time"@,
{
    "\u{23f3} Downloading the file, this might take some time"
}

/// Reply once the file stands in the daemon's queue.
pub fn added_message() -> (s: &'static str)
    ensures
        s@ == "\u{2705}Song added to queue!"@,
{
    "\u{2705}Song added to queue!"
}

/// The two ways a download can fail; each has its own user-visible text.
#[derive(Clone, Copy, Debug, PartialEq, Eq, Structural)]
pub enum DownloadFailure {
    Network,
    Io,
}

/// The reply for a failed download, by the kind of failure.
pub fn download_failure_message(failure: DownloadFailure) -> (s: &'static str)
    ensures
        failure == DownloadFailure::Network ==> s@
            == "\u{274c} Failed to download file due to a Network Error, try again"@,
        failure == DownloadFailure::Io ==> s@
            == "\u{274c} Failed to download file due to an I/O Error"@,
{
    match failure {
        DownloadFailure::Network => "\u{274c} Failed to download file due to a Network Error, try again",
        DownloadFailure::Io => "\u{274c} Failed to download file due to an I/O Error",
    }
}

} // verus!
