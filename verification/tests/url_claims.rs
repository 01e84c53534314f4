use s3_fetch::client::{S3Client, S3Options};
use s3_fetch::download::{Advance, Downloader};
use s3_fetch::url::url_byte_len;
use std::collections::VecDeque;

fn pairs(url: &reqwest::Url) -> Vec<(String, String)> {
    url.query_pairs().map(|(k, v)| (k.into_owned(), v.into_owned())).collect()
}

const BASES: [&str; 9] = [
    "https://bucket.example.com",
    "https://bucket.example.com/?",
    "https://bucket.example.com/?a",
    "https://bucket.example.com/?a=",
    "https://bucket.example.com/?a=b&&c=%26d+e&=f&g=%zz",
    "https://bucket.example.com/p/q?x=1#frag",
    "https://bucket.example.com/#only-fragment",
    "http://[::1]:9000/bucket?caf\u{e9}=\u{65e5}",
    "s3://bucket/key?a=b",
];

const TEXTS: [&str; 8] =
    ["", "plain", "a b", "a+b", "a&b=c", "100%", "caf\u{e9}/\u{65e5}\u{672c}", "#?;\n\t\"'<>\\"];

#[test]
fn appended_parameters_read_back_behind_those_that_were_there() {
    let client = S3Client::default();
    for base in BASES {
        let before = pairs(&reqwest::Url::parse(base).unwrap());
        for token in TEXTS {
            for prefix in TEXTS {
                let options = S3Options {
                    max_keys: Some(7),
                    prefix: Some(prefix.to_string()),
                    delimiter: None,
                };
                let url = client.request_url(base, &options, Some(token)).unwrap();
                let mut expected = before.clone();
                expected.push(("list-type".to_string(), "2".to_string()));
                expected.push(("continuation-token".to_string(), token.to_string()));
                expected.push(("max-keys".to_string(), "7".to_string()));
                expected.push(("prefix".to_string(), prefix.to_string()));
                assert_eq!(pairs(&url), expected, "base {:?}", base);
            }
        }
    }
}

#[test]
fn the_same_text_parses_to_the_same_url() {
    let client = S3Client::default();
    for base in BASES {
        let a = client.request_url(base, &S3Options::default(), None).unwrap();
        let b = client.request_url(base, &S3Options::default(), None).unwrap();
        assert_eq!(a, b);
        assert_eq!(a.as_str(), b.as_str());
    }
}

#[test]
fn appending_takes_no_more_room_than_is_asked_for() {
    for base in BASES {
        for prefix in TEXTS {
            for delimiter in TEXTS {
                let mut url = reqwest::Url::parse(base).unwrap();
                let before = url_byte_len(&url);
                let options = S3Options {
                    max_keys: None,
                    prefix: Some(prefix.to_string()),
                    delimiter: Some(delimiter.to_string()),
                };
                assert_eq!(options.apply_to_url(&mut url), Ok(()));
                let bound = before
                    + (3 * ("prefix".len() + prefix.len()) + 16)
                    + (3 * ("delimiter".len() + delimiter.len()) + 16);
                assert!(url_byte_len(&url) <= bound, "base {:?}", base);
                assert_eq!(url_byte_len(&url), url.as_str().len());
            }
        }
    }
}

#[test]
fn a_task_url_is_the_root_without_query_and_with_the_key_as_path() {
    let keys = [
        "a", "a/b c", "what?", "a#b", "../up", "caf\u{e9}", "", "/lead", "x%20y", "C:/x", ".", "a/./b",
        "\\back", " ", "\t",
    ];
    for base in BASES.iter().chain(["file:///dir/file?q=1", "mailto:someone?subject=x"].iter()) {
        let root = reqwest::Url::parse(base).unwrap();
        let mut bare = root.clone();
        bare.set_query(None);
        assert!(bare.as_str().len() <= root.as_str().len());
        let queue: VecDeque<String> = keys.iter().map(|k| k.to_string()).collect();
        let mut downloader = Downloader::new("out", base, queue).unwrap();
        match downloader.wait_for_download() {
            Advance::Wait(tasks) => {
                assert_eq!(tasks.len(), keys.len());
                for (task, key) in tasks.iter().zip(keys) {
                    let url = task.url.as_ref().unwrap();
                    assert_eq!(task.key, key);
                    assert_eq!(pairs(url), vec![], "base {:?} key {:?}", base, key);
                    assert_eq!(url.query(), None);
                    assert_eq!(url.fragment(), root.fragment());
                    let mut expected = bare.clone();
                    expected.set_path(key);
                    assert_eq!(url, &expected);
                    assert!(url.as_str().len() <= bare.as_str().len() + 3 * key.len() + 16);
                }
            }
            Advance::Drained => panic!("keys were queued"),
        }
    }
}
