//! The rows of a listing page, and which of them are files.

use crate::error::DecodeError;
use crate::text::{
    decimal, decimal_string, ends_with_separator, is_directory_marker, opt_text, texts,
};
use crate::time::{parse_rfc3339, timestamp_of, Timestamp};
use std::collections::VecDeque;
use vstd::prelude::*;
use vstd::string::StringExecFns;

verus! {

/// One object of a bucket, as a listing page describes it.
#[derive(Clone, Debug, PartialEq, Eq)]
pub struct Contents {
    pub key: String,
    pub size: usize,
    pub last_modified: Timestamp,
}

/// One page of a bucket listing.
#[derive(Clone, Debug, PartialEq, Eq)]
pub struct ListObjectsV2Response {
    pub is_truncated: bool,
    pub contents: Vec<Contents>,
    pub name: String,
    pub next_continuation_token: Option<String>,
}

/// One row of a listing page as it was read, its timestamp still a text.
#[derive(Clone, Debug, PartialEq, Eq)]
pub struct RawContents {
    pub key: String,
    pub size: usize,
    pub last_modified: String,
}

/// What a row that was read says, as mathematical values.
pub struct RawContentsView {
    pub key: Seq<char>,
    pub size: nat,
    pub last_modified: Seq<char>,
}

impl View for RawContents {
    type V = RawContentsView;

    open spec fn view(&self) -> RawContentsView {
        RawContentsView {
            key: self.key@,
            size: self.size as nat,
            last_modified: self.last_modified@,
        }
    }
}

impl RawContentsView {
    /// The row with its timestamp read, where the timestamp is in RFC 3339
    /// syntax.
    pub open spec fn checked(self) -> Option<ContentsView> {
        match timestamp_of(self.last_modified) {
            Some(t) => Some(ContentsView { key: self.key, size: self.size, last_modified: t }),
            None => None,
        }
    }
}

/// What a row says, as mathematical values.
pub struct ContentsView {
    pub key: Seq<char>,
    pub size: nat,
    pub last_modified: Timestamp,
}

/// What a page says, as mathematical values.
pub struct ListingView {
    pub is_truncated: bool,
    pub contents: Seq<ContentsView>,
    pub name: Seq<char>,
    pub next_continuation_token: Option<Seq<char>>,
}

/// The keys among `keys` that name files: those that do not end in the path
/// separator, in the order in which they stand.
pub open spec fn file_keys(keys: Seq<Seq<char>>) -> Seq<Seq<char>> {
    keys.filter(|k: Seq<char>| !is_directory_marker(k))
}

impl View for Contents {
    type V = ContentsView;

    open spec fn view(&self) -> ContentsView {
        ContentsView { key: self.key@, size: self.size as nat, last_modified: self.last_modified }
    }
}

impl View for ListObjectsV2Response {
    type V = ListingView;

    open spec fn view(&self) -> ListingView {
        ListingView {
            is_truncated: self.is_truncated,
            contents: Seq::new(self.contents@.len(), |i: int| self.contents@[i]@),
            name: self.name@,
            next_continuation_token: opt_text(self.next_continuation_token),
        }
    }
}

impl ContentsView {
    /// The line that stands for a row in a printed listing: the key, a colon
    /// and a space, the size in decimal.
    pub open spec fn listing_line(self) -> Seq<char> {
        self.key + seq![':', ' '] + decimal(self.size)
    }
}

impl ListingView {
    /// The keys of the rows, in document order.
    pub open spec fn keys(self) -> Seq<Seq<char>> {
        Seq::new(self.contents.len(), |i: int| self.contents[i].key)
    }
}

impl Contents {
    /// Whether the row is a directory marker and not a file.
    pub fn is_directory_marker(&self) -> (b: bool)
        ensures
            b == is_directory_marker(self@.key),
    {
        ends_with_separator(self.key.as_str())
    }

    /// The line that stands for this row in a printed listing.
    pub fn listing_line(&self) -> (line: String)
        ensures
            line@ == self@.listing_line(),
    {
        let mut line = self.key.clone();
        proof {
            reveal_strlit(": ");
        }
        line.append(": ");
        let size = decimal_string(self.size);
        line.append(size.as_str());
        line
    }
}

impl ListObjectsV2Response {
    /// Makes a page of what was read from a response. The rows keep their
    /// order. A timestamp that is not in RFC 3339 syntax fails the whole
    /// page: the error names the first row that has one.
    pub fn from_raw(
        is_truncated: bool,
        contents: Vec<RawContents>,
        name: String,
        next_continuation_token: Option<String>,
    ) -> (r: Result<ListObjectsV2Response, DecodeError>)
        ensures
            match r {
                Ok(page) => {
                    &&& page@.is_truncated == is_truncated
                    &&& page@.name == name@
                    &&& page@.next_continuation_token == opt_text(next_continuation_token)
                    &&& page@.contents.len() == contents@.len()
                    &&& forall|i: int|
                        0 <= i < contents@.len() ==> (#[trigger] contents@[i])@.checked() == Some(
                            page@.contents[i],
                        )
                },
                Err(DecodeError::InvalidTimestamp { row }) => {
                    &&& row < contents@.len()
                    &&& contents@[row as int]@.checked() is None
                    &&& forall|i: int| 0 <= i < row ==> (#[trigger] contents@[i])@.checked() is Some
                },
            },
    {
        let mut rows: Vec<Contents> = Vec::new();
        let mut i: usize = 0;
        while i < contents.len()
            invariant
                i <= contents.len(),
                rows@.len() == i,
                forall|j: int|
                    0 <= j < i ==> (#[trigger] contents@[j])@.checked() == Some(rows@[j]@),
            decreases contents.len() - i,
        {
            let raw = &contents[i];
            match parse_rfc3339(raw.last_modified.as_str()) {
                Some(last_modified) => {
                    rows.push(Contents { key: raw.key.clone(), size: raw.size, last_modified });
                },
                None => {
                    return Err(DecodeError::InvalidTimestamp { row: i });
                },
            }
            i += 1;
        }
        Ok(ListObjectsV2Response { is_truncated, contents: rows, name, next_continuation_token })
    }

    /// The keys of the page that name files, in document order: what a
    /// downloader for this page is seeded with.
    pub fn file_keys(&self) -> (keys: VecDeque<String>)
        ensures
            texts(keys@) == file_keys(self@.keys()),
    {
        let mut keys: VecDeque<String> = VecDeque::new();
        let ghost all = self@.keys();
        let ghost pred = |k: Seq<char>| !is_directory_marker(k);
        proof {
            reveal(Seq::filter);
        }
        let mut i: usize = 0;
        while i < self.contents.len()
            invariant
                i <= self.contents.len(),
                all == self@.keys(),
                all.len() == self.contents.len(),
                pred == |k: Seq<char>| !is_directory_marker(k),
                texts(keys@) == all.take(i as int).filter(pred),
            decreases self.contents.len() - i,
        {
            let row = &self.contents[i];
            proof {
                reveal(Seq::filter);
                assert(all.take(i + 1).drop_last() =~= all.take(i as int));
            }
            if !row.is_directory_marker() {
                keys.push_back(row.key.clone());
            }
            i += 1;
        }
        assert(all.take(i as int) =~= all);
        keys
    }
}

/// No key that is handed on as a file ends in the path separator, and every
/// key of the page that does not end in it is handed on.
pub proof fn lemma_file_keys_are_the_files(keys: Seq<Seq<char>>)
    ensures
        forall|i: int|
            0 <= i < file_keys(keys).len() ==> !is_directory_marker(#[trigger] file_keys(keys)[i]),
        forall|i: int|
            0 <= i < keys.len() && !is_directory_marker(keys[i]) ==> file_keys(keys).contains(
                #[trigger] keys[i],
            ),
        forall|i: int|
            0 <= i < file_keys(keys).len() ==> keys.contains(#[trigger] file_keys(keys)[i]),
{
    let pred = |k: Seq<char>| !is_directory_marker(k);
    assert forall|i: int| 0 <= i < file_keys(keys).len() implies !is_directory_marker(
        #[trigger] file_keys(keys)[i],
    ) by {
        keys.lemma_filter_pred(pred, i);
    }
    assert forall|i: int| 0 <= i < keys.len() && !is_directory_marker(keys[i]) implies file_keys(
        keys,
    ).contains(#[trigger] keys[i]) by {
        keys.lemma_filter_contains(pred, i);
    }
    assert forall|i: int| 0 <= i < file_keys(keys).len() implies keys.contains(
        #[trigger] file_keys(keys)[i],
    ) by {
        let k = file_keys(keys)[i];
        keys.lemma_filter_contains_rev(pred, k);
    }
}

} // verus!
