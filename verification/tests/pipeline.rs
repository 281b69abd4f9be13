use imgfetch::counters::{progress_line, Counters};
use imgfetch::extension::Extension;
use imgfetch::channel::Channel;
use imgfetch::fetch::flatten_pages;
use imgfetch::item::{items_or_empty, Data, Meta, Response};
use imgfetch::query::{build_query, expected_total, offset_param, page_offset};
use imgfetch::worker::{
    file_name, relative_dest, step, DownloadOutcome, WorkerEvent, WorkerState,
};

fn sample_item(id: i64, channel: Channel, ext: Extension) -> Data {
    Data {
        id,
        channel_name: channel,
        url: format!("http://example.invalid/{}", id),
        extension: ext,
        width: 640,
        height: 480,
        filesize: 1024,
    }
}

#[test]
fn installed_never_below_errored_at_every_point() {
    let outcomes = vec![
        DownloadOutcome::Saved,
        DownloadOutcome::RequestFailed,
        DownloadOutcome::AlreadyPresent,
        DownloadOutcome::BadStatus(404),
        DownloadOutcome::CreateFailed,
        DownloadOutcome::Saved,
    ];
    let mut c = Counters::new();
    assert!(c.installed >= c.errored);
    for o in &outcomes {
        c.record_outcome(o);
        assert!(c.installed >= c.errored);
    }
    assert_eq!(c.installed, 6);
    assert_eq!(c.errored, 3);
}

#[test]
fn preexisting_file_skips_network_and_counts_attempt_only() {
    let s = step(WorkerState::Start, WorkerEvent::Exists(true));
    assert_eq!(s, WorkerState::Finished(DownloadOutcome::AlreadyPresent));
    assert_ne!(s, WorkerState::AwaitResponse);
    let mut c = Counters::new();
    c.record_outcome(&DownloadOutcome::AlreadyPresent);
    assert_eq!(c.installed, 1);
    assert_eq!(c.errored, 0);
}

#[test]
fn non_200_status_counts_attempt_and_error_once() {
    let s = step(WorkerState::Start, WorkerEvent::Exists(false));
    assert_eq!(s, WorkerState::AwaitResponse);
    let s = step(s, WorkerEvent::Response(Some(404)));
    assert_eq!(s, WorkerState::Finished(DownloadOutcome::BadStatus(404)));
    let mut c = Counters::new();
    c.record_outcome(&DownloadOutcome::BadStatus(404));
    assert_eq!(c.installed, 1);
    assert_eq!(c.errored, 1);
}

#[test]
fn successful_download_walks_every_state() {
    let s = step(WorkerState::Start, WorkerEvent::Exists(false));
    let s = step(s, WorkerEvent::Response(Some(200)));
    assert_eq!(s, WorkerState::AwaitFile);
    let s = step(s, WorkerEvent::FileCreated(true));
    assert_eq!(s, WorkerState::Finished(DownloadOutcome::Saved));
    assert!(!DownloadOutcome::Saved.failed());
}

#[test]
fn request_failure_and_create_failure_are_errors() {
    let s = step(WorkerState::AwaitResponse, WorkerEvent::Response(None));
    assert_eq!(s, WorkerState::Finished(DownloadOutcome::RequestFailed));
    let s = step(WorkerState::AwaitFile, WorkerEvent::FileCreated(false));
    assert_eq!(s, WorkerState::Finished(DownloadOutcome::CreateFailed));
    assert!(DownloadOutcome::RequestFailed.failed());
    assert!(DownloadOutcome::CreateFailed.failed());
    assert!(DownloadOutcome::BadStatus(500).failed());
    assert!(!DownloadOutcome::AlreadyPresent.failed());
}

#[test]
fn empty_page_contributes_zero_items() {
    let full = vec![sample_item(1, Channel::Media, Extension::Png)];
    let pages = vec![Vec::new(), full];
    let flat = flatten_pages(pages);
    assert_eq!(flat.len(), 1);
    assert_eq!(flat[0].id, 1);
    let only_empty = vec![Vec::<Data>::new(), Vec::<Data>::new()];
    assert_eq!(flatten_pages(only_empty).len(), 0);
}

#[test]
fn two_full_pages_flatten_to_192_items() {
    let mut pages = Vec::new();
    for p in 0..2i64 {
        let mut page = Vec::new();
        for k in 0..96i64 {
            page.push(sample_item(p * 96 + k, Channel::Media, Extension::Jpg));
        }
        pages.push(page);
    }
    let flat = flatten_pages(pages);
    assert_eq!(flat.len(), 192);
    assert_eq!(flat[0].id, 0);
    assert_eq!(flat[96].id, 96);
    assert_eq!(flat[191].id, 191);
}

#[test]
fn three_items_one_skip_one_save_one_404_report_two_of_total() {
    let outcomes = vec![
        DownloadOutcome::AlreadyPresent,
        DownloadOutcome::Saved,
        DownloadOutcome::BadStatus(404),
    ];
    let mut c = Counters::new();
    c.record_all(&outcomes);
    assert_eq!(c.installed, 3);
    assert_eq!(c.errored, 1);
    assert_eq!(c.downloaded(), 2);
    let total = expected_total(2);
    assert_eq!(c.summary_line(total), "Finished. Downloaded 2/192");
}

#[test]
fn progress_line_shows_installed_over_expected() {
    assert_eq!(progress_line(3, 192), "Downloading 3/192");
    assert_eq!(progress_line(0, 96), "Downloading 0/96");
}

#[test]
fn page_arithmetic_uses_96_items_per_page() {
    assert_eq!(page_offset(0), 0);
    assert_eq!(page_offset(1), 96);
    assert_eq!(page_offset(2), 192);
    assert_eq!(expected_total(0), 0);
    assert_eq!(expected_total(2), 192);
}

#[test]
fn query_repeats_channel_filter_and_carries_offset() {
    let channels = vec![Channel::Media, Channel::Furry];
    let q = build_query(&channels);
    assert_eq!(q.len(), 2);
    assert_eq!(q[0].0, "channel_name__in[]");
    assert_eq!(q[0].1, "media");
    assert_eq!(q[1].0, "channel_name__in[]");
    assert_eq!(q[1].1, "furry");
    let p = offset_param(192);
    assert_eq!(p.0, "__offset");
    assert_eq!(p.1, "192");
}

#[test]
fn failed_page_fetch_yields_no_items() {
    assert_eq!(items_or_empty(None).len(), 0);
    let envelope = Response {
        meta: Meta { total: 1, offset: 0, count: 1, error: None },
        data: vec![sample_item(9, Channel::Yuri, Extension::Gif)],
    };
    let items = items_or_empty(Some(envelope));
    assert_eq!(items.len(), 1);
    assert_eq!(items[0].id, 9);
}

#[test]
fn destination_paths_join_channel_id_and_extension() {
    let item = sample_item(42, Channel::Traps, Extension::Webp);
    assert_eq!(file_name(42, &Extension::Webp), "42.webp");
    assert_eq!(relative_dest(&item), "traps/42.webp");
    let negative = sample_item(-7, Channel::Irl3D, Extension::Jpeg);
    assert_eq!(relative_dest(&negative), "irl-3d/-7.jpeg");
}

#[test]
fn distinct_ids_never_share_a_destination() {
    let a = sample_item(12, Channel::Futa, Extension::Png);
    let b = sample_item(121, Channel::Futa, Extension::Png);
    let c = sample_item(-12, Channel::Futa, Extension::Png);
    assert_ne!(relative_dest(&a), relative_dest(&b));
    assert_ne!(relative_dest(&a), relative_dest(&c));
    assert_ne!(relative_dest(&b), relative_dest(&c));
}
