use s3_fetch::client::{S3Client, S3Options};
use s3_fetch::crawl::Crawl;
use s3_fetch::download::{Advance, DownloadTask, Downloader};
use s3_fetch::error::{check_status, BadStatus};
use s3_fetch::models::{Contents, ListObjectsV2Response};
use s3_fetch::time::Timestamp;
use std::collections::VecDeque;
use std::path::PathBuf;

fn page(keys: &[&str], token: Option<&str>) -> ListObjectsV2Response {
    ListObjectsV2Response {
        is_truncated: token.is_some(),
        contents: keys
            .iter()
            .map(|k| Contents {
                key: k.to_string(),
                size: 1,
                last_modified: Timestamp { seconds: 0, nanos: 0, offset_seconds: 0 },
            })
            .collect(),
        name: "bucket".to_string(),
        next_continuation_token: token.map(|t| t.to_string()),
    }
}

const BASE: &str = "https://bucket.example.com/";

/// Runs a downloader over the keys until it has nothing left, and returns it.
fn drained(keys: VecDeque<String>) -> Downloader {
    let mut downloader = Downloader::new("out", BASE, keys).unwrap();
    while let Advance::Wait(_) = downloader.wait_for_download() {
        downloader.task_finished();
    }
    downloader
}

#[test]
fn a_crawl_starts_by_listing_without_a_token() {
    let crawl = Crawl::new();
    assert_eq!(crawl, Crawl::Listing { token: None });
    assert!(!crawl.is_finished());
}

#[test]
fn a_page_without_token_ends_the_crawl_once_drained() {
    let mut crawl = Crawl::new();
    let keys = crawl.page_received(&page(&["a", "b/"], None));
    assert_eq!(keys, vec!["a".to_string()]);
    assert_eq!(crawl, Crawl::Draining { next: None });
    assert!(!crawl.is_finished());
    assert!(crawl.page_drained(&drained(keys)));
    assert_eq!(crawl, Crawl::Finished);
    assert!(crawl.is_finished());
}

#[test]
fn a_page_with_token_asks_for_one_more_page_under_that_token() {
    let mut crawl = Crawl::new();
    let keys = crawl.page_received(&page(&["a"], Some("T1")));
    assert_eq!(crawl, Crawl::Draining { next: Some("T1".to_string()) });
    assert!(crawl.page_drained(&drained(keys)));
    assert_eq!(crawl, Crawl::Listing { token: Some("T1".to_string()) });
    let keys = crawl.page_received(&page(&[], Some("T2")));
    assert!(keys.is_empty());
    assert!(crawl.page_drained(&drained(keys)));
    assert_eq!(crawl, Crawl::Listing { token: Some("T2".to_string()) });
}

#[test]
fn a_page_is_not_left_while_its_downloader_has_work() {
    let mut crawl = Crawl::new();
    let keys = crawl.page_received(&page(&["a", "b", "c"], Some("T1")));
    let mut downloader = Downloader::new("out", BASE, keys).unwrap();
    // three keys queued, none admitted
    assert!(!crawl.page_drained(&downloader));
    assert_eq!(crawl, Crawl::Draining { next: Some("T1".to_string()) });
    downloader.wait_for_download();
    downloader.task_finished();
    downloader.task_finished();
    // nothing queued, one transfer in flight
    assert!(!crawl.page_drained(&downloader));
    assert_eq!(crawl, Crawl::Draining { next: Some("T1".to_string()) });
    downloader.task_finished();
    assert!(crawl.page_drained(&downloader));
    assert_eq!(crawl, Crawl::Listing { token: Some("T1".to_string()) });
}

#[test]
fn a_listing_crawl_goes_from_page_to_page() {
    let mut crawl = Crawl::new();
    crawl.page_listed(&page(&["a", "b/"], Some("T1")));
    assert_eq!(crawl, Crawl::Listing { token: Some("T1".to_string()) });
    crawl.page_listed(&page(&[], Some("T2")));
    assert_eq!(crawl, Crawl::Listing { token: Some("T2".to_string()) });
    crawl.page_listed(&page(&["c"], None));
    assert_eq!(crawl, Crawl::Finished);
    crawl.page_listed(&page(&["d"], Some("T3")));
    assert_eq!(crawl, Crawl::Finished);
}

#[test]
fn events_out_of_turn_are_ignored() {
    let empty = drained(VecDeque::new());
    let mut crawl = Crawl::new();
    assert!(!crawl.page_drained(&empty));
    assert_eq!(crawl, Crawl::Listing { token: None });
    crawl.page_received(&page(&["a"], Some("T1")));
    let keys = crawl.page_received(&page(&["b"], Some("T9")));
    assert!(keys.is_empty());
    crawl.page_listed(&page(&["b"], Some("T9")));
    assert_eq!(crawl, Crawl::Draining { next: Some("T1".to_string()) });
    assert!(crawl.page_drained(&empty));
    crawl.page_received(&page(&["c"], None));
    assert!(crawl.page_drained(&empty));
    assert_eq!(crawl, Crawl::Finished);
    assert!(crawl.page_received(&page(&["d"], Some("T2"))).is_empty());
    assert!(!crawl.page_drained(&empty));
    assert_eq!(crawl, Crawl::Finished);
}

#[test]
fn two_pages_are_listed_and_drained_in_turn() {
    let base = BASE;
    let client = S3Client::default();
    let options = S3Options::default();
    let mut requests: Vec<String> = Vec::new();
    let mut handed_over: Vec<Vec<String>> = Vec::new();
    let mut written: Vec<PathBuf> = Vec::new();

    let mut crawl = Crawl::new();
    while let Crawl::Listing { token } = crawl.clone() {
        let request = client.request_url(base, &options, token.as_deref()).unwrap();
        requests.push(request.to_string());
        let page = match token.as_deref() {
            None => page(&["a/b.txt", "a/"], Some("T1")),
            Some("T1") => page(&["c.txt"], None),
            Some(other) => panic!("no page was announced under {}", other),
        };
        let keys = crawl.page_received(&page);
        handed_over.push(keys.iter().cloned().collect());
        let mut downloader = Downloader::new("out", base, keys).unwrap();
        let mut running: Vec<DownloadTask> = Vec::new();
        loop {
            match downloader.wait_for_download() {
                Advance::Drained => break,
                Advance::Wait(tasks) => {
                    running.extend(tasks);
                    let done = running.remove(0);
                    written.push(done.target);
                    downloader.task_finished();
                }
            }
        }
        assert!(crawl.page_drained(&downloader));
    }

    assert!(crawl.is_finished());
    assert_eq!(
        requests,
        vec![
            "https://bucket.example.com/?list-type=2",
            "https://bucket.example.com/?list-type=2&continuation-token=T1",
        ]
    );
    assert_eq!(handed_over, vec![vec!["a/b.txt".to_string()], vec!["c.txt".to_string()]]);
    assert_eq!(
        written,
        vec![PathBuf::from("out").join("a/b.txt"), PathBuf::from("out").join("c.txt")]
    );
}

#[test]
fn a_failed_transfer_does_not_stop_the_others() {
    let keys = vec!["ok1".to_string(), "missing".to_string(), "ok2".to_string()];
    let mut downloader =
        Downloader::new("out", "https://bucket.example.com/", keys.into()).unwrap();
    let status_of = |key: &str| if key == "missing" { 404 } else { 200 };
    let mut running: Vec<DownloadTask> = Vec::new();
    let mut outcomes: Vec<Result<PathBuf, BadStatus>> = Vec::new();
    loop {
        match downloader.wait_for_download() {
            Advance::Drained => break,
            Advance::Wait(tasks) => {
                running.extend(tasks);
                // the transfer that was admitted last ends first
                let done = running.pop().unwrap();
                outcomes.push(check_status(status_of(&done.key)).map(|_| done.target));
                downloader.task_finished();
            }
        }
    }
    assert_eq!(
        outcomes,
        vec![
            Ok(PathBuf::from("out").join("ok2")),
            Err(BadStatus { code: 404 }),
            Ok(PathBuf::from("out").join("ok1")),
        ]
    );
    assert_eq!(downloader.in_flight(), 0);
    assert_eq!(downloader.queued(), 0);
}
