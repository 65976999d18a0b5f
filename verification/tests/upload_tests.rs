use tmpc::upload::{
    added_message, download_failure_message, downloading_message, missing_name_message,
    no_audio_message, plan_upload, too_big_message, DownloadFailure, UploadPlan,
    MAX_UPLOAD_BYTES,
};

#[test]
fn oversized_uploads_are_rejected_without_download() {
    let twenty_five_mib: u64 = 25 * 1024 * 1024;
    assert_eq!(plan_upload(twenty_five_mib, true, false), UploadPlan::RejectTooBig);
    assert_eq!(
        plan_upload(MAX_UPLOAD_BYTES + 1, true, false),
        UploadPlan::RejectTooBig
    );
    assert_eq!(
        too_big_message(),
        "\u{274c} File too big, can't download files larger than 20MB"
    );
}

#[test]
fn the_bound_itself_still_downloads() {
    assert_eq!(plan_upload(MAX_UPLOAD_BYTES, true, false), UploadPlan::Download);
}

#[test]
fn uploads_without_a_name_are_rejected() {
    assert_eq!(plan_upload(1024, false, false), UploadPlan::RejectMissingName);
    assert_eq!(missing_name_message(), "\u{274c} Invalid audio file found");
}

#[test]
fn a_cached_name_is_never_downloaded_twice() {
    assert_eq!(plan_upload(1024, true, true), UploadPlan::UseCached);
    assert_eq!(plan_upload(1024, true, false), UploadPlan::Download);
}

#[test]
fn the_size_check_comes_first() {
    assert_eq!(plan_upload(MAX_UPLOAD_BYTES + 1, false, true), UploadPlan::RejectTooBig);
}

#[test]
fn upload_messages_are_exact() {
    assert_eq!(
        no_audio_message(),
        "\u{274c} No audio provided\nReply to a message with an audio file to add it to queue"
    );
    assert_eq!(
        downloading_message(),
        "\u{23f3} Downloading the file, this might take some time"
    );
    assert_eq!(added_message(), "\u{2705}Song added to queue!");
    assert_eq!(
        download_failure_message(DownloadFailure::Network),
        "\u{274c} Failed to download file due to a Network Error, try again"
    );
    assert_eq!(
        download_failure_message(DownloadFailure::Io),
        "\u{274c} Failed to download file due to an I/O Error"
    );
}
