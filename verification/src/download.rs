//! The bounded downloader as a state machine: a queue of keys, a count of
//! transfers in flight, and the rule that admits keys while the count is
//! under the cap.
//!
//! The machine decides; its owner does the work. Each call of
//! [`Downloader::wait_for_download`] hands out the tasks to start now. The
//! owner starts them, waits until any one transfer has ended, reports that
//! with [`Downloader::task_finished`], and calls again, until the answer is
//! [`Advance::Drained`].

use crate::error::ConfigError;
use crate::paths::{path_from, path_of};
use crate::text::{byte_len, texts, utf8_len};
use crate::url::{
    clear_query, clone_url, has_room_for, parse_url, parsed_url, room_for, set_path,
    url_byte_len, url_query, url_text, url_with_path, url_without_query, MAX_URL_BYTES,
};
use reqwest::Url;
use std::collections::VecDeque;
use std::path::PathBuf;
use vstd::prelude::*;
use vstd::string::StringExecFns;

verus! {

/// The largest number of transfers that may be in flight at once.
pub const MAX_PARALLEL_DOWNLOADS: usize = 16;

/// One transfer to make: the key, the URL to fetch it from, and the file to
/// write it to. There is no URL where the URL type cannot hold one for the
/// key; such a transfer fails without a request.
#[derive(Debug, PartialEq, Eq)]
pub struct DownloadTask {
    pub key: String,
    pub url: Option<Url>,
    pub target: PathBuf,
}

/// What the owner of a downloader is to do next.
#[derive(Debug, PartialEq, Eq)]
pub enum Advance {
    /// Start these transfers, then wait for any one transfer to end.
    Wait(Vec<DownloadTask>),
    /// Nothing is queued and nothing is in flight.
    Drained,
}

/// The keys still to retrieve and the number of transfers under way.
#[derive(Debug)]
pub struct Downloader {
    save_path: String,
    url_root: Url,
    paths: VecDeque<String>,
    in_flight: usize,
}

/// A downloader's state as mathematical values. The root URL is the one
/// that was given, without its query.
pub struct DownloaderView {
    pub save_path: Seq<char>,
    pub url_root: Url,
    pub queue: Seq<Seq<char>>,
    pub in_flight: nat,
}

/// The error with which a downloader refuses its root URL, if it does: the
/// text does not parse, or the URL type cannot hold what it parses to.
pub open spec fn setup_error(url_root: Seq<char>) -> Option<ConfigError> {
    match parsed_url(url_root) {
        None => Some(ConfigError::InvalidUrl),
        Some(url) => if utf8_len(url_text(url)) > MAX_URL_BYTES {
            Some(ConfigError::TooLong)
        } else {
            None
        },
    }
}

/// The URL to fetch a key from: the root with its path replaced by the key,
/// or `None` where the URL type could not hold it.
pub open spec fn task_url(root: Url, key: Seq<char>) -> Option<Url> {
    if room_for(root, utf8_len(key)) {
        Some(url_with_path(root, key))
    } else {
        None
    }
}

/// The text of the file that a key is written to: the save path, the path
/// separator, the key. An empty save path stands for the current directory.
pub open spec fn target_text(save_path: Seq<char>, key: Seq<char>) -> Seq<char> {
    target_directory(save_path) + seq!['/'] + key
}

/// The directory below which the files are written.
pub open spec fn target_directory(save_path: Seq<char>) -> Seq<char> {
    if save_path.len() == 0 {
        seq!['.']
    } else {
        save_path
    }
}

impl DownloaderView {
    /// Nothing queued, nothing in flight.
    pub open spec fn drained(self) -> bool {
        self.queue.len() == 0 && self.in_flight == 0
    }

    /// How many keys the next admission takes from the queue: as many as the
    /// cap leaves room for, or all that are queued if those are fewer.
    pub open spec fn admitted(self) -> nat {
        if self.in_flight >= MAX_PARALLEL_DOWNLOADS {
            0
        } else if self.queue.len() <= MAX_PARALLEL_DOWNLOADS - self.in_flight {
            self.queue.len()
        } else {
            (MAX_PARALLEL_DOWNLOADS - self.in_flight) as nat
        }
    }

    /// The state after an admission: the admitted keys have left the front
    /// of the queue and count as in flight.
    pub open spec fn topped_up(self) -> DownloaderView {
        DownloaderView {
            queue: self.queue.skip(self.admitted() as int),
            in_flight: self.in_flight + self.admitted(),
            ..self
        }
    }

    /// The state after one transfer has ended, however it ended.
    pub open spec fn task_finished(self) -> DownloaderView {
        DownloaderView {
            in_flight: if self.in_flight > 0 {
                (self.in_flight - 1) as nat
            } else {
                0
            },
            ..self
        }
    }
}

impl View for Downloader {
    type V = DownloaderView;

    closed spec fn view(&self) -> DownloaderView {
        DownloaderView {
            save_path: self.save_path@,
            url_root: self.url_root,
            queue: texts(self.paths@),
            in_flight: self.in_flight as nat,
        }
    }
}

/// Writes the text of the file that a key goes to.
fn target_text_of(save_path: &str, key: &str) -> (text: String)
    ensures
        text@ == target_text(save_path@, key@),
{
    proof {
        reveal_strlit(".");
        reveal_strlit("/");
    }
    let mut text = if save_path.is_empty() {
        String::from_str(".")
    } else {
        String::from_str(save_path)
    };
    text.append("/");
    text.append(key);
    text
}

/// Builds the URL to fetch a key from.
fn task_url_of(root: &Url, key: &str) -> (url: Option<Url>)
    ensures
        url == task_url(*root, key@),
        url is Some ==> url_query(url->0) == url_query(*root),
{
    if !has_room_for(root, byte_len(key)) {
        return None;
    }
    let mut url = clone_url(root);
    set_path(&mut url, key);
    Some(url)
}

impl Downloader {
    #[verifier::type_invariant]
    spec fn well_formed(self) -> bool {
        &&& self.in_flight <= MAX_PARALLEL_DOWNLOADS
        &&& url_query(self.url_root) == Seq::<(Seq<char>, Seq<char>)>::empty()
    }

    /// A downloader for the keys in `paths`, in their order, which fetches
    /// from `url_root`, its query left out, and writes below `save_path`.
    /// Nothing is in flight.
    pub fn new(save_path: &str, url_root: &str, paths: VecDeque<String>) -> (r: Result<
        Downloader,
        ConfigError,
    >)
        ensures
            match r {
                Ok(d) => {
                    &&& setup_error(url_root@) is None
                    &&& d@.save_path == save_path@
                    &&& d@.url_root == url_without_query(parsed_url(url_root@)->0)
                    &&& d@.queue == texts(paths@)
                    &&& d@.in_flight == 0
                },
                Err(e) => setup_error(url_root@) == Some(e),
            },
    {
        let mut url = match parse_url(url_root) {
            Some(url) => url,
            None => {
                return Err(ConfigError::InvalidUrl);
            },
        };
        if !has_room_within_limit(&url) {
            return Err(ConfigError::TooLong);
        }
        clear_query(&mut url);
        Ok(Downloader { save_path: String::from_str(save_path), url_root: url, paths, in_flight: 0 })
    }

    /// How many transfers are under way: never more than the cap.
    pub fn in_flight(&self) -> (n: usize)
        ensures
            n == self@.in_flight,
            n <= MAX_PARALLEL_DOWNLOADS,
    {
        proof {
            use_type_invariant(self);
        }
        self.in_flight
    }

    /// Whether nothing is queued and nothing is in flight.
    pub fn is_drained(&self) -> (b: bool)
        ensures
            b == self@.drained(),
    {
        self.in_flight == 0 && self.paths.len() == 0
    }

    /// How many keys are waiting to be admitted.
    pub fn queued(&self) -> (n: usize)
        ensures
            n == self@.queue.len(),
    {
        self.paths.len()
    }

    /// Tops the transfers in flight up to the cap from the front of the
    /// queue, and says what to do next. Each admitted key becomes a task:
    /// its URL is the root URL with the path replaced by the key and with no
    /// query, and its file is the save path, the path separator and the key.
    /// With nothing queued and nothing in flight the answer is `Drained` and
    /// nothing changes.
    pub fn wait_for_download(&mut self) -> (step: Advance)
        ensures
            final(self)@ == old(self)@.topped_up(),
            match step {
                Advance::Drained => old(self)@.drained(),
                Advance::Wait(tasks) => {
                    &&& !old(self)@.drained()
                    &&& tasks@.len() == old(self)@.admitted()
                    &&& forall|i: int|
                        0 <= i < tasks@.len() ==> {
                            &&& (#[trigger] tasks@[i]).key@ == old(self)@.queue[i]
                            &&& tasks@[i].url == task_url(old(self)@.url_root, old(self)@.queue[i])
                            &&& tasks@[i].url is Some ==> url_query(tasks@[i].url->0) == Seq::<
                                (Seq<char>, Seq<char>),
                            >::empty()
                            &&& tasks@[i].target == path_of(
                                target_text(old(self)@.save_path, old(self)@.queue[i]),
                            )
                        }
                },
            },
    {
        proof {
            use_type_invariant(&*self);
        }
        let ghost start = self@;
        let mut queue: VecDeque<String> = VecDeque::new();
        std::mem::swap(&mut self.paths, &mut queue);
        let mut in_flight: usize = self.in_flight;
        let mut tasks: Vec<DownloadTask> = Vec::new();
        while in_flight < MAX_PARALLEL_DOWNLOADS && queue.len() > 0
            invariant
                in_flight <= MAX_PARALLEL_DOWNLOADS,
                url_query(self.url_root) == Seq::<(Seq<char>, Seq<char>)>::empty(),
                tasks@.len() <= start.admitted(),
                self.url_root == start.url_root,
                self.save_path@ == start.save_path,
                texts(queue@) == start.queue.skip(tasks@.len() as int),
                in_flight == start.in_flight + tasks@.len(),
                start.in_flight <= MAX_PARALLEL_DOWNLOADS,
                forall|i: int|
                    0 <= i < tasks@.len() ==> {
                        &&& (#[trigger] tasks@[i]).key@ == start.queue[i]
                        &&& tasks@[i].url == task_url(start.url_root, start.queue[i])
                        &&& tasks@[i].url is Some ==> url_query(tasks@[i].url->0) == Seq::<
                            (Seq<char>, Seq<char>),
                        >::empty()
                        &&& tasks@[i].target == path_of(
                            target_text(start.save_path, start.queue[i]),
                        )
                    },
            decreases queue.len(),
        {
            let key = queue.pop_front().unwrap();
            proof {
                assert(start.queue.skip(tasks@.len() as int).skip(1) =~= start.queue.skip(
                    tasks@.len() as int + 1,
                ));
                assert(start.queue.skip(tasks@.len() as int)[0] == start.queue[tasks@.len() as int]);
            }
            let url = task_url_of(&self.url_root, key.as_str());
            let target = path_from(target_text_of(self.save_path.as_str(), key.as_str()));
            in_flight += 1;
            tasks.push(DownloadTask { key, url, target });
        }
        std::mem::swap(&mut self.paths, &mut queue);
        self.in_flight = in_flight;
        if self.in_flight == 0 {
            Advance::Drained
        } else {
            Advance::Wait(tasks)
        }
    }

    /// Records that one transfer has ended, whether it succeeded or failed:
    /// its place is free again, and nothing else changes. With nothing in
    /// flight nothing changes at all.
    pub fn task_finished(&mut self)
        ensures
            final(self)@ == old(self)@.task_finished(),
    {
        proof {
            use_type_invariant(&*self);
        }
        if self.in_flight > 0 {
            self.in_flight -= 1;
        }
    }
}

/// Whether the URL type can hold the URL.
fn has_room_within_limit(url: &Url) -> (b: bool)
    ensures
        b == (utf8_len(url_text(*url)) <= MAX_URL_BYTES),
{
    let length: u128 = url_byte_len(url) as u128;
    length <= (MAX_URL_BYTES as u128)
}

/// Whatever the key, the text of its file begins with the directory and the
/// path separator, and the key follows unchanged: a key that begins with the
/// separator does not take the place of the save path.
pub proof fn lemma_target_is_below_save_path(save_path: Seq<char>, key: Seq<char>)
    ensures
        ({
            let directory = target_directory(save_path);
            let text = target_text(save_path, key);
            &&& directory.len() > 0
            &&& text.len() == directory.len() + 1 + key.len()
            &&& text.subrange(0, directory.len() as int) == directory
            &&& text[directory.len() as int] == '/'
            &&& text.subrange(directory.len() as int + 1, text.len() as int) == key
        }),
{
}

/// What can happen to a downloader between its making and its end.
pub enum Event {
    /// `wait_for_download` was called.
    Admission,
    /// `task_finished` was called.
    Completion,
}

/// The state that a run of events leaves behind.
pub open spec fn state_after(start: DownloaderView, events: Seq<Event>) -> DownloaderView
    decreases events.len(),
{
    if events.len() == 0 {
        start
    } else {
        let before = state_after(start, events.drop_last());
        match events.last() {
            Event::Admission => before.topped_up(),
            Event::Completion => before.task_finished(),
        }
    }
}

/// No step takes the transfers in flight over the cap. An admission fills
/// every free place that the queue can fill, and it hands out the front of
/// the queue: no key is lost, none is made up, none changes its place.
pub proof fn lemma_steps_keep_the_cap(state: DownloaderView)
    requires
        state.in_flight <= MAX_PARALLEL_DOWNLOADS,
    ensures
        state.topped_up().in_flight <= MAX_PARALLEL_DOWNLOADS,
        state.task_finished().in_flight <= MAX_PARALLEL_DOWNLOADS,
        state.topped_up().in_flight == MAX_PARALLEL_DOWNLOADS || state.topped_up().queue.len()
            == 0,
        state.queue == state.queue.take(state.admitted() as int) + state.topped_up().queue,
{
    assert(state.queue =~= state.queue.take(state.admitted() as int) + state.queue.skip(
        state.admitted() as int,
    ));
}

/// However many keys are queued and in whatever order admissions and
/// completions come, the transfers in flight never exceed the cap.
pub proof fn lemma_cap_holds_throughout(start: DownloaderView, events: Seq<Event>)
    requires
        start.in_flight <= MAX_PARALLEL_DOWNLOADS,
    ensures
        state_after(start, events).in_flight <= MAX_PARALLEL_DOWNLOADS,
    decreases events.len(),
{
    if events.len() > 0 {
        lemma_cap_holds_throughout(start, events.drop_last());
        lemma_steps_keep_the_cap(state_after(start, events.drop_last()));
    }
}

/// The keys that a run of events has handed out as tasks, in the order in
/// which they were handed out.
pub open spec fn handed_out(start: DownloaderView, events: Seq<Event>) -> Seq<Seq<char>>
    decreases events.len(),
{
    if events.len() == 0 {
        Seq::empty()
    } else {
        let before = state_after(start, events.drop_last());
        let earlier = handed_out(start, events.drop_last());
        match events.last() {
            Event::Admission => earlier + before.queue.take(before.admitted() as int),
            Event::Completion => earlier,
        }
    }
}

/// Keys leave the queue in the order in which they came, each exactly once:
/// at any point, the keys handed out so far followed by the keys still
/// queued are the keys that the downloader was made with. A key whose
/// transfer has ended, well or badly, does not come back.
pub proof fn lemma_keys_leave_in_order(start: DownloaderView, events: Seq<Event>)
    requires
        start.in_flight <= MAX_PARALLEL_DOWNLOADS,
    ensures
        handed_out(start, events) + state_after(start, events).queue == start.queue,
        state_after(start, events).url_root == start.url_root,
        state_after(start, events).save_path == start.save_path,
    decreases events.len(),
{
    if events.len() == 0 {
    } else {
        lemma_keys_leave_in_order(start, events.drop_last());
        let before = state_after(start, events.drop_last());
        let earlier = handed_out(start, events.drop_last());
        let n = before.admitted() as int;
        assert((earlier + before.queue.take(n)) + before.queue.skip(n) =~= earlier + (
        before.queue.take(n) + before.queue.skip(n)));
    }
}

/// A round of draining, which is an admission followed by the end of one
/// transfer, leaves one key less to care for, unless there was none.
pub proof fn lemma_each_round_makes_progress(state: DownloaderView)
    requires
        state.in_flight <= MAX_PARALLEL_DOWNLOADS,
        !state.drained(),
    ensures
        ({
            let after = state.topped_up().task_finished();
            after.queue.len() + after.in_flight + 1 == state.queue.len() + state.in_flight
        }),
{
}

/// A downloader with nothing queued and nothing in flight stays as it is,
/// however often it is asked to advance.
pub proof fn lemma_drained_stays_drained(state: DownloaderView)
    requires
        state.drained(),
    ensures
        state.topped_up() == state,
        state.topped_up().drained(),
{
    assert(state.topped_up().queue =~= state.queue);
}

} // verus!
