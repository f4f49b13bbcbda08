use ipswdl2::api_json_types::Device;
use ipswdl2::cancel::CancellationSignal;
use ipswdl2::downloader::{Downloader, Step};
use ipswdl2::options::CliOpts;
use ipswdl2::outcome::{DownloadOutcome, ErrorKind};
use ipswdl2::report::RunReport;

fn device(name: &str) -> Device {
    Device {
        name: name.to_string(),
        identifier: format!("id-{}", name),
        platform: "iOS".to_string(),
        cpid: 1,
        bdid: 2,
    }
}

fn options(filter: Option<&str>) -> CliOpts {
    CliOpts {
        download_path: "ipsw".to_string(),
        delete_old_fw: false,
        download_all: filter.is_none(),
        filter_term: filter.map(|f| f.to_string()),
        log_path: None,
        list_device_names: false,
    }
}

#[test]
fn filter_keeps_only_matching_devices() {
    let devices = vec![device("iPhone 1"), device("iPad Pro")];
    let mut run = Downloader::new(devices, options(Some("iPad")), 0);
    assert_eq!(run.report().total_todo, 2);
    run.begin();
    assert_eq!(run.report(), RunReport { start_time: 0, total_done: 0, total_todo: 1 });
    let cancel = CancellationSignal::new();
    assert_eq!(run.next_step(&cancel), Step::Fetch(1));
    assert_eq!(run.device(1).map(|d| d.name.as_str()), Some("iPad Pro"));
    let line = run.record(&DownloadOutcome::Completed(100));
    assert_eq!(line, Some("Ended work on: iPad Pro (1/1)".to_string()));
    assert_eq!(run.next_step(&cancel), Step::Finish);
    assert_eq!(run.report().total_done, 1);
}

#[test]
fn filter_is_case_sensitive() {
    let devices = vec![device("iPhone 1"), device("iPad Pro")];
    let mut run = Downloader::new(devices, options(Some("ipad")), 0);
    run.begin();
    assert_eq!(run.report().total_todo, 0);
    assert_eq!(run.next_step(&CancellationSignal::new()), Step::Finish);
}

#[test]
fn every_device_is_visited_in_catalog_order() {
    let devices = vec![device("a"), device("b"), device("c")];
    let mut run = Downloader::new(devices, options(None), 0);
    run.begin();
    assert_eq!(run.report().total_todo, 3);
    let cancel = CancellationSignal::new();
    assert_eq!(run.next_step(&cancel), Step::Fetch(0));
    assert_eq!(run.next_step(&cancel), Step::Fetch(0));
    let failed = DownloadOutcome::fetch_failed("timeout".to_string());
    assert_eq!(failed, DownloadOutcome::Failed(ErrorKind::RemoteUnavailable, "timeout".to_string()));
    assert_eq!(run.record(&failed), Some("Ended work on: a (1/3)".to_string()));
    assert_eq!(run.next_step(&cancel), Step::Fetch(1));
    assert_eq!(
        run.record(&DownloadOutcome::already_downloaded()),
        Some("Ended work on: b (2/3)".to_string())
    );
    assert_eq!(run.next_step(&cancel), Step::Fetch(2));
    assert_eq!(
        run.record(&DownloadOutcome::no_firmware()),
        Some("Ended work on: c (3/3)".to_string())
    );
    assert_eq!(run.next_step(&cancel), Step::Finish);
    assert_eq!(run.record(&DownloadOutcome::Completed(1)), None);
    assert_eq!(run.report().total_done, 3);
}

#[test]
fn interrupt_before_a_device_stops_the_run() {
    let devices = vec![device("a"), device("b")];
    let mut run = Downloader::new(devices, options(None), 0);
    run.begin();
    let mut cancel = CancellationSignal::new();
    assert!(!cancel.observe());
    cancel.trigger();
    assert!(cancel.observe());
    cancel.trigger();
    assert!(cancel.observe());
    assert_eq!(run.next_step(&cancel), Step::Stop);
    assert_eq!(run.next_step(&cancel), Step::Stop);
    assert_eq!(run.report().total_done, 0);
    assert_eq!(run.record(&DownloadOutcome::Completed(1)), None);
}

#[test]
fn cancelled_outcome_stops_the_run() {
    let devices = vec![device("a"), device("b")];
    let mut run = Downloader::new(devices, options(None), 0);
    run.begin();
    let cancel = CancellationSignal::new();
    assert_eq!(run.next_step(&cancel), Step::Fetch(0));
    let line = run.record(&DownloadOutcome::interrupted());
    assert_eq!(line, Some("Ended work on: a (1/2)".to_string()));
    assert_eq!(run.next_step(&cancel), Step::Stop);
    assert_eq!(run.report().total_done, 1);
}

#[test]
fn record_without_a_device_changes_nothing() {
    let mut run = Downloader::new(vec![device("a")], options(None), 5);
    assert_eq!(run.record(&DownloadOutcome::Completed(1)), None);
    assert_eq!(run.report(), RunReport { start_time: 5, total_done: 0, total_todo: 1 });
    assert!(run.device(1).is_none());
    assert_eq!(run.opt().download_path, "ipsw");
}

#[test]
fn empty_filter_term_matches_every_device() {
    let devices = vec![device("a"), device("")];
    let mut run = Downloader::new(devices, options(Some("")), 0);
    run.begin();
    assert_eq!(run.report().total_todo, 2);
}

#[test]
fn exactly_one_mode_is_needed() {
    assert!(options(None).has_one_mode());
    assert!(options(Some("iPad")).has_one_mode());
    let mut both = options(Some("iPad"));
    both.download_all = true;
    assert!(!both.has_one_mode());
    let mut none = options(None);
    none.download_all = false;
    assert!(!none.has_one_mode());
    none.list_device_names = true;
    assert!(none.has_one_mode());
    none.download_all = true;
    assert!(!none.has_one_mode());
}

#[test]
fn fetch_failure_is_recorded_and_the_run_goes_on() {
    let devices = vec![device("a"), device("b")];
    let mut run = Downloader::new(devices, options(None), 0);
    run.begin();
    let cancel = CancellationSignal::new();
    assert_eq!(run.record_fetch_failure("early".to_string()), None);
    assert_eq!(run.next_step(&cancel), Step::Fetch(0));
    assert_eq!(
        run.record_fetch_failure("connection reset".to_string()),
        Some((
            DownloadOutcome::Failed(ErrorKind::RemoteUnavailable, "connection reset".to_string()),
            "Ended work on: a (1/2)".to_string()
        ))
    );
    assert_eq!(run.next_step(&cancel), Step::Fetch(1));
    assert_eq!(
        run.record(&DownloadOutcome::Completed(9)),
        Some("Ended work on: b (2/2)".to_string())
    );
    assert_eq!(run.next_step(&cancel), Step::Finish);
}
