use ipswdl2::api_json_types::{Firmware, FirmwareListing};
use ipswdl2::materializer::{Event, Materializer, Request};
use ipswdl2::options::CliOpts;
use ipswdl2::outcome::{DownloadOutcome, ErrorKind};

fn firmware(version: &str, buildid: &str, size: u64) -> Firmware {
    Firmware {
        identifier: "iPhone1,1".to_string(),
        version: version.to_string(),
        buildid: buildid.to_string(),
        sha1sum: String::new(),
        md5sum: String::new(),
        filesize: size,
        url: String::new(),
        uploaddate: 0,
    }
}

fn listing(name: &str, firmwares: Vec<Firmware>) -> FirmwareListing {
    FirmwareListing {
        name: name.to_string(),
        identifier: "iPhone1,1".to_string(),
        platform: "iOS".to_string(),
        boardconfig: "m68ap".to_string(),
        cpid: 35072,
        bdid: 0,
        firmwares,
    }
}

fn options(delete_old_fw: bool) -> CliOpts {
    CliOpts {
        download_path: "ipsw".to_string(),
        delete_old_fw,
        download_all: true,
        filter_term: None,
        log_path: None,
        list_device_names: false,
    }
}

fn streaming(delete_old_fw: bool) -> Materializer {
    let l = listing("iPhone 1", vec![firmware("16.0", "X1", 100)]);
    let mut m = Materializer::new(&l, &options(delete_old_fw));
    assert_eq!(m.pending(), Request::ProbeTarget);
    if delete_old_fw {
        assert_eq!(m.step(Event::TargetProbed(false)), Request::PurgeStale);
        assert_eq!(m.step(Event::StalePurged), Request::OpenStage);
    } else {
        assert_eq!(m.step(Event::TargetProbed(false)), Request::OpenStage);
    }
    assert_eq!(m.step(Event::StageOpened), Request::OpenStream);
    assert_eq!(m.step(Event::StreamOpened(100)), Request::AwaitChunk);
    m
}

#[test]
fn empty_listing_is_skipped_without_any_request() {
    let l = listing("iPhone 1", vec![]);
    let mut m = Materializer::new(&l, &options(true));
    assert_eq!(m.pending(), Request::Nothing);
    assert_eq!(
        m.outcome(),
        Some(&DownloadOutcome::Skipped("no firmware available".to_string()))
    );
    assert!(m.target().is_none());
    assert_eq!(m.step(Event::TargetProbed(false)), Request::Nothing);
    assert_eq!(m.step(Event::Promoted), Request::Nothing);
    assert_eq!(
        m.outcome(),
        Some(&DownloadOutcome::Skipped("no firmware available".to_string()))
    );
}

#[test]
fn fresh_download_completes_with_declared_bytes() {
    let l = listing("iPhone 1", vec![firmware("16.0", "X1", 100)]);
    let mut m = Materializer::new(&l, &options(false));
    let target = m.target().expect("a listing with an image has a target").clone();
    assert_eq!(target.root, "ipsw");
    assert_eq!(target.directory, "iPhone 1");
    assert_eq!(target.file_name, "16.0.ipsw");
    assert_eq!(target.path_text(), "ipsw/iPhone 1/16.0.ipsw");
    assert_eq!(m.pending(), Request::ProbeTarget);
    assert!(m.outcome().is_none());
    assert_eq!(m.step(Event::TargetProbed(false)), Request::OpenStage);
    assert_eq!(m.step(Event::StageOpened), Request::OpenStream);
    assert_eq!(m.step(Event::StreamOpened(100)), Request::AwaitChunk);
    assert_eq!(m.declared(), 100);
    assert_eq!(m.step(Event::ChunkStaged(60)), Request::AwaitChunk);
    assert_eq!(m.written(), 60);
    assert_eq!(m.step(Event::ChunkStaged(40)), Request::AwaitChunk);
    assert_eq!(m.written(), 100);
    assert_eq!(m.step(Event::StreamEnded), Request::Promote);
    assert!(m.outcome().is_none());
    assert_eq!(m.step(Event::Promoted), Request::Nothing);
    assert_eq!(m.outcome(), Some(&DownloadOutcome::Completed(100)));
}

#[test]
fn stored_image_is_skipped_before_any_stream() {
    let l = listing("iPhone 1", vec![firmware("16.0", "X1", 100)]);
    let mut m = Materializer::new(&l, &options(true));
    assert_eq!(m.step(Event::TargetProbed(true)), Request::Nothing);
    assert_eq!(
        m.outcome(),
        Some(&DownloadOutcome::Skipped("already downloaded".to_string()))
    );
    assert_eq!(m.step(Event::StreamOpened(100)), Request::Nothing);
    assert_eq!(m.written(), 0);
}

#[test]
fn interrupt_mid_stream_never_promotes() {
    let mut m = streaming(false);
    assert_eq!(m.step(Event::ChunkStaged(40)), Request::AwaitChunk);
    assert_eq!(m.written(), 40);
    assert_eq!(m.step(Event::Cancelled), Request::Nothing);
    let expected = DownloadOutcome::Failed(ErrorKind::Cancelled, "interrupted".to_string());
    assert_eq!(m.outcome(), Some(&expected));
    assert!(expected.is_cancelled());
    assert_eq!(m.step(Event::StreamEnded), Request::Nothing);
    assert_eq!(m.step(Event::Promoted), Request::Nothing);
    assert_eq!(m.outcome(), Some(&expected));
}

#[test]
fn stale_files_are_purged_before_the_stage_opens() {
    let l = listing("iPhone 1", vec![firmware("16.0", "X1", 100)]);
    let mut m = Materializer::new(&l, &options(true));
    assert_eq!(m.step(Event::TargetProbed(false)), Request::PurgeStale);
    assert_eq!(m.step(Event::StageOpened), Request::PurgeStale);
    assert_eq!(m.step(Event::StalePurged), Request::OpenStage);
    assert_eq!(m.step(Event::StageOpened), Request::OpenStream);
    assert_eq!(m.step(Event::StreamOpened(100)), Request::AwaitChunk);
    assert_eq!(m.step(Event::ChunkStaged(100)), Request::AwaitChunk);
    assert_eq!(m.step(Event::StreamEnded), Request::Promote);
    assert_eq!(m.step(Event::Promoted), Request::Nothing);
    assert_eq!(m.outcome(), Some(&DownloadOutcome::Completed(100)));
}

#[test]
fn refused_stream_is_remote_unavailable() {
    let l = listing("iPhone 1", vec![firmware("1.0", "1A543a", 100)]);
    let mut m = Materializer::new(&l, &options(false));
    m.step(Event::TargetProbed(false));
    m.step(Event::StageOpened);
    assert_eq!(m.step(Event::StreamFailed("410 Gone".to_string())), Request::Nothing);
    assert_eq!(
        m.outcome(),
        Some(&DownloadOutcome::Failed(ErrorKind::RemoteUnavailable, "410 Gone".to_string()))
    );
}

#[test]
fn stage_that_cannot_open_is_io_error() {
    let l = listing("iPhone 1", vec![firmware("16.0", "X1", 100)]);
    let mut m = Materializer::new(&l, &options(false));
    m.step(Event::TargetProbed(false));
    assert_eq!(m.step(Event::StageFailed("no space".to_string())), Request::Nothing);
    assert_eq!(
        m.outcome(),
        Some(&DownloadOutcome::Failed(ErrorKind::IoError, "no space".to_string()))
    );
}

#[test]
fn failed_chunk_is_io_error() {
    let mut m = streaming(false);
    m.step(Event::ChunkStaged(10));
    assert_eq!(m.step(Event::ChunkFailed("disk full".to_string())), Request::Nothing);
    assert_eq!(
        m.outcome(),
        Some(&DownloadOutcome::Failed(ErrorKind::IoError, "disk full".to_string()))
    );
}

#[test]
fn failed_promotion_is_io_error() {
    let mut m = streaming(true);
    m.step(Event::ChunkStaged(100));
    assert_eq!(m.step(Event::StreamEnded), Request::Promote);
    assert_eq!(m.step(Event::Cancelled), Request::Promote);
    assert_eq!(m.step(Event::PromoteFailed("denied".to_string())), Request::Nothing);
    assert_eq!(
        m.outcome(),
        Some(&DownloadOutcome::Failed(ErrorKind::IoError, "denied".to_string()))
    );
}

#[test]
fn byte_count_out_of_range_is_io_error() {
    let mut m = streaming(false);
    assert_eq!(m.step(Event::ChunkStaged(u64::MAX)), Request::AwaitChunk);
    assert_eq!(m.written(), u64::MAX);
    assert_eq!(m.step(Event::ChunkStaged(1)), Request::Nothing);
    assert_eq!(
        m.outcome(),
        Some(&DownloadOutcome::Failed(
            ErrorKind::IoError,
            "staged size out of range".to_string()
        ))
    );
}

#[test]
fn empty_stream_completes_with_zero_bytes() {
    let mut m = streaming(false);
    assert_eq!(m.step(Event::StreamEnded), Request::Promote);
    assert_eq!(m.step(Event::Promoted), Request::Nothing);
    assert_eq!(m.outcome(), Some(&DownloadOutcome::Completed(0)));
}

#[test]
fn target_directory_is_sanitized() {
    let l = listing("iPad/Pro\\9", vec![firmware("15.1", "19B74", 7)]);
    let m = Materializer::new(&l, &options(false));
    let target = m.target().expect("target").clone();
    assert_eq!(target.directory, "iPadzProz9");
    assert_eq!(target.path_text(), "ipsw/iPadzProz9/15.1.ipsw");
}

#[test]
fn newest_entry_is_the_first() {
    let l = listing("iPhone 1", vec![firmware("16.0", "X1", 100), firmware("15.0", "W9", 90)]);
    assert_eq!(l.newest_entry().map(|f| f.version.as_str()), Some("16.0"));
    assert!(listing("iPhone 1", vec![]).newest_entry().is_none());
    let m = Materializer::new(&l, &options(false));
    assert_eq!(m.target().expect("target").file_name, "16.0.ipsw");
}

#[test]
fn every_file_but_the_image_is_stale() {
    let l = listing("iPhone 1", vec![firmware("16.0", "X1", 100)]);
    let m = Materializer::new(&l, &options(true));
    let target = m.target().expect("target");
    assert!(target.is_stale(&"old1.ipsw".to_string()));
    assert!(target.is_stale(&"old2.ipsw".to_string()));
    assert!(target.is_stale(&"16.0.ipsw.part".to_string()));
    assert!(!target.is_stale(&"16.0.ipsw".to_string()));
}
