//! The pagination loop as a state machine: one page is listed, its files are
//! retrieved to the end, and only then is the next page asked for.
//!
//! The machine decides; its owner does the work. In `Listing` the owner
//! fetches one page with the token the state holds. A crawl that only lists
//! reports the page with [`Crawl::page_listed`]. A crawl that downloads
//! reports it with [`Crawl::page_received`], runs a downloader over the keys
//! it was given and, when that has nothing left, calls
//! [`Crawl::page_drained`]. In `Finished` there is nothing left to do.

use crate::download::{Downloader, DownloaderView};
use crate::models::{file_keys, ListObjectsV2Response, ListingView};
use crate::text::{opt_text, texts};
use std::collections::VecDeque;
use vstd::prelude::*;

verus! {

/// Where a crawl over a bucket stands.
#[derive(Clone, Debug, PartialEq, Eq)]
pub enum Crawl {
    /// A page is owed: it is to be fetched with this continuation token.
    Listing { token: Option<String> },
    /// The files of a page are being retrieved; `next` is the continuation
    /// token that the page came with.
    Draining { next: Option<String> },
    /// The last page has been dealt with.
    Finished,
}

/// A crawl's state as mathematical values.
pub enum CrawlView {
    Listing { token: Option<Seq<char>> },
    Draining { next: Option<Seq<char>> },
    Finished,
}

/// The state that follows a page which came with this token: the next page
/// is owed under the token if there is one, else the crawl is over.
pub open spec fn after_page(next: Option<Seq<char>>) -> CrawlView {
    match next {
        Some(token) => CrawlView::Listing { token: Some(token) },
        None => CrawlView::Finished,
    }
}

impl View for Crawl {
    type V = CrawlView;

    open spec fn view(&self) -> CrawlView {
        match *self {
            Crawl::Listing { token } => CrawlView::Listing { token: opt_text(token) },
            Crawl::Draining { next } => CrawlView::Draining { next: opt_text(next) },
            Crawl::Finished => CrawlView::Finished,
        }
    }
}

impl CrawlView {
    /// The state in which every crawl starts: the first page is owed, and it
    /// is asked for without a token.
    pub open spec fn start() -> CrawlView {
        CrawlView::Listing { token: None }
    }

    /// The state after a page has arrived whose files are not retrieved.
    /// Only a crawl that is listing takes a page.
    pub open spec fn page_listed(self, page: ListingView) -> CrawlView {
        match self {
            CrawlView::Listing { token } => after_page(page.next_continuation_token),
            _ => self,
        }
    }

    /// The state after a page has arrived whose files are to be retrieved.
    /// Only a crawl that is listing takes a page; it then drains that page,
    /// keeping the page's token.
    pub open spec fn page_received(self, page: ListingView) -> CrawlView {
        match self {
            CrawlView::Listing { token } => CrawlView::Draining {
                next: page.next_continuation_token,
            },
            _ => self,
        }
    }

    /// The keys handed to the downloader when a page arrives.
    pub open spec fn keys_to_download(self, page: ListingView) -> Seq<Seq<char>> {
        match self {
            CrawlView::Listing { token } => file_keys(page.keys()),
            _ => Seq::empty(),
        }
    }

    /// The state after the owner has said that the page is drained, given
    /// the downloader of the page. A crawl leaves `Draining` only when that
    /// downloader has nothing queued and nothing in flight.
    pub open spec fn page_drained(self, downloader: DownloaderView) -> CrawlView {
        match self {
            CrawlView::Draining { next } => if downloader.drained() {
                after_page(next)
            } else {
                self
            },
            _ => self,
        }
    }
}

impl Crawl {
    /// A crawl that has not listed anything yet.
    pub fn new() -> (crawl: Crawl)
        ensures
            crawl@ == CrawlView::start(),
    {
        Crawl::Listing { token: None }
    }

    /// Whether nothing is left to do.
    pub fn is_finished(&self) -> (b: bool)
        ensures
            b == (self@ is Finished),
    {
        match self {
            Crawl::Finished => true,
            _ => false,
        }
    }

    /// Takes the page that was fetched for the current `Listing` state, none
    /// of whose files is to be retrieved. In any other state the page is
    /// ignored.
    pub fn page_listed(&mut self, page: &ListObjectsV2Response)
        ensures
            final(self)@ == old(self)@.page_listed(page@),
    {
        match self {
            Crawl::Listing { .. } => {
                match &page.next_continuation_token {
                    Some(token) => {
                        *self = Crawl::Listing { token: Some(token.clone()) };
                    },
                    None => {
                        *self = Crawl::Finished;
                    },
                }
            },
            _ => {},
        }
    }

    /// Takes the page that was fetched for the current `Listing` state, and
    /// returns the keys to retrieve before anything else is listed: the
    /// page's keys without the directory markers, in document order. In any
    /// other state the page is ignored and no key is returned.
    pub fn page_received(&mut self, page: &ListObjectsV2Response) -> (keys: VecDeque<String>)
        ensures
            final(self)@ == old(self)@.page_received(page@),
            texts(keys@) == old(self)@.keys_to_download(page@),
    {
        match self {
            Crawl::Listing { .. } => {
                let keys = page.file_keys();
                *self = Crawl::Draining { next: page.next_continuation_token.clone() };
                keys
            },
            _ => {
                let keys: VecDeque<String> = VecDeque::new();
                keys
            },
        }
    }

    /// Leaves `Draining` if the downloader of the page has nothing queued
    /// and nothing in flight, and says whether it did. While the downloader
    /// has work, and in any other state, nothing changes.
    pub fn page_drained(&mut self, downloader: &Downloader) -> (left: bool)
        ensures
            final(self)@ == old(self)@.page_drained(downloader@),
            left == (old(self)@ is Draining && downloader@.drained()),
    {
        if !downloader.is_drained() {
            return false;
        }
        let next = match self {
            Crawl::Draining { next } => Some(next.clone()),
            _ => None,
        };
        match next {
            Some(Some(token)) => {
                *self = Crawl::Listing { token: Some(token) };
                true
            },
            Some(None) => {
                *self = Crawl::Finished;
                true
            },
            None => false,
        }
    }
}

/// A page without a continuation token ends the crawl once its downloader
/// is drained; a page with a token leads, once its downloader is drained, to
/// exactly the state in which one more page is owed under that token. Until
/// the downloader is drained the crawl stays where it is.
pub proof fn lemma_token_decides_next_step(
    token: Option<Seq<char>>,
    page: ListingView,
    downloader: DownloaderView,
)
    ensures
        ({
            let draining = (CrawlView::Listing { token }).page_received(page);
            let after = draining.page_drained(downloader);
            if !downloader.drained() {
                after == draining && after is Draining
            } else {
                match page.next_continuation_token {
                    None => after == CrawlView::Finished,
                    Some(t) => after == (CrawlView::Listing { token: Some(t) }),
                }
            }
        }),
        (CrawlView::Listing { token }).page_listed(page) == after_page(
            page.next_continuation_token,
        ),
{
}

/// While a page is being drained nothing is listed: a page is taken only in
/// a `Listing` state, and a `Draining` state is left only by `page_drained`.
/// A finished crawl stays finished.
pub proof fn lemma_one_page_at_a_time(
    state: CrawlView,
    page: ListingView,
    downloader: DownloaderView,
)
    ensures
        state is Draining ==> state.page_received(page) == state && state.page_listed(page)
            == state,
        state is Finished ==> state.page_received(page) == state && state.page_listed(page) == state
            && state.page_drained(downloader) == state,
        state is Listing ==> state.page_drained(downloader) == state,
{
}

} // verus!
