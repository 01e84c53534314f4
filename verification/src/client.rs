//! The listing request: which query parameters it carries, and the URL that
//! results from them.

use crate::error::ConfigError;
use crate::text::{byte_len, decimal, decimal_string, opt_str, opt_str_view, opt_text, utf8_len};
use crate::url::{
    append_pair, clone_url, has_room_for, parse_url, parsed_url, room_for, url_query,
    url_with_pair,
};
use reqwest::Url;
use vstd::prelude::*;

verus! {

/// The filters of a listing. They are set once and go into every page
/// request unchanged.
#[derive(Clone, Debug, PartialEq, Eq)]
pub struct S3Options {
    pub max_keys: Option<usize>,
    pub prefix: Option<String>,
    pub delimiter: Option<String>,
}

/// The filters of a listing as mathematical values.
pub struct OptionsView {
    pub max_keys: Option<nat>,
    pub prefix: Option<Seq<char>>,
    pub delimiter: Option<Seq<char>>,
}

/// The lister: it builds the request for one page of a listing. It keeps
/// nothing between pages.
#[derive(Clone, Copy, Debug)]
pub struct S3Client {}

/// A query parameter: its name and its value.
pub type Pair = (Seq<char>, Seq<char>);

/// The parameter that a value gives rise to: one pair where the value is
/// set, none where it is not.
pub open spec fn optional_pair(name: Seq<char>, value: Option<Seq<char>>) -> Seq<Pair> {
    match value {
        Some(v) => seq![(name, v)],
        None => Seq::empty(),
    }
}

/// The decimal rendering of an optional number.
pub open spec fn opt_decimal(n: Option<nat>) -> Option<Seq<char>> {
    match n {
        Some(n) => Some(decimal(n)),
        None => None,
    }
}

/// Whether the URL type can surely hold the URL with the pair appended.
pub open spec fn pair_fits(url: Url, pair: Pair) -> bool {
    room_for(url, utf8_len(pair.0) + utf8_len(pair.1))
}

/// The URL that results from appending the pairs, one after the other, or
/// `None` if at some pair the URL type could no longer hold the result.
pub open spec fn url_with_pairs(url: Url, pairs: Seq<Pair>) -> Option<Url>
    decreases pairs.len(),
{
    if pairs.len() == 0 {
        Some(url)
    } else {
        match url_with_pairs(url, pairs.drop_last()) {
            Some(before) => if pair_fits(before, pairs.last()) {
                Some(url_with_pair(before, pairs.last().0, pairs.last().1))
            } else {
                None
            },
            None => None,
        }
    }
}

impl OptionsView {
    /// The parameters that the filters put into a request, in the order in
    /// which they are appended. A filter that is not set puts in nothing.
    pub open spec fn query(self) -> Seq<Pair> {
        optional_pair("max-keys"@, opt_decimal(self.max_keys)) + optional_pair(
            "prefix"@,
            self.prefix,
        ) + optional_pair("delimiter"@, self.delimiter)
    }

    /// How many filters are set.
    pub open spec fn set_count(self) -> nat {
        let a: nat = if self.max_keys is Some {
            1
        } else {
            0
        };
        let b: nat = if self.prefix is Some {
            1
        } else {
            0
        };
        let c: nat = if self.delimiter is Some {
            1
        } else {
            0
        };
        a + b + c
    }

    /// Whether a pair is a filter that is set, with its value.
    pub open spec fn is_filter(self, pair: Pair) -> bool {
        ||| pair.0 == "max-keys"@ && opt_decimal(self.max_keys) == Some(pair.1)
        ||| pair.0 == "prefix"@ && self.prefix == Some(pair.1)
        ||| pair.0 == "delimiter"@ && self.delimiter == Some(pair.1)
    }
}

/// The parameters of a listing request: the marker of the protocol
/// version, then the continuation token if there is one, then the filters.
pub open spec fn listing_query(options: OptionsView, token: Option<Seq<char>>) -> Seq<Pair> {
    seq![("list-type"@, "2"@)] + optional_pair("continuation-token"@, token) + options.query()
}

/// The error with which a listing request is refused, if it is: the base
/// URL does not parse, or the URL type cannot hold the request.
pub open spec fn request_error(
    url: Seq<char>,
    options: OptionsView,
    token: Option<Seq<char>>,
) -> Option<ConfigError> {
    match parsed_url(url) {
        None => Some(ConfigError::InvalidUrl),
        Some(base) => if url_with_pairs(base, listing_query(options, token)) is None {
            Some(ConfigError::TooLong)
        } else {
            None
        },
    }
}

/// Whether a pair is one that a listing request carries: the marker of the
/// protocol version, the continuation token that was supplied, or a filter
/// that is set.
pub open spec fn is_parameter(options: OptionsView, token: Option<Seq<char>>, pair: Pair) -> bool {
    ||| pair == ("list-type"@, "2"@)
    ||| pair.0 == "continuation-token"@ && token == Some(pair.1)
    ||| options.is_filter(pair)
}

impl View for S3Options {
    type V = OptionsView;

    open spec fn view(&self) -> OptionsView {
        OptionsView {
            max_keys: match self.max_keys {
                Some(n) => Some(n as nat),
                None => None,
            },
            prefix: opt_text(self.prefix),
            delimiter: opt_text(self.delimiter),
        }
    }
}

impl Default for S3Options {
    /// No filter is set.
    fn default() -> (options: S3Options)
        ensures
            options@ == (OptionsView { max_keys: None, prefix: None, delimiter: None }),
    {
        S3Options { max_keys: None, prefix: None, delimiter: None }
    }
}

impl S3Options {
    /// Appends the filters that are set to the query of the URL, behind what
    /// is there: `max-keys`, `prefix`, `delimiter`, in this order. A filter
    /// that is not set appends nothing. Where the URL type could not hold
    /// the result, the URL is left as it was.
    pub fn apply_to_url(&self, url: &mut Url) -> (r: Result<(), ConfigError>)
        ensures
            match r {
                Ok(()) => {
                    &&& url_with_pairs(*old(url), self@.query()) == Some(*final(url))
                    &&& url_query(*final(url)) == url_query(*old(url)) + self@.query()
                },
                Err(e) => {
                    &&& e == ConfigError::TooLong
                    &&& url_with_pairs(*old(url), self@.query()) is None
                    &&& *final(url) == *old(url)
                },
            },
    {
        let max_keys = match self.max_keys {
            Some(n) => Some(decimal_string(n)),
            None => None,
        };
        let ghost first = optional_pair("max-keys"@, opt_decimal(self@.max_keys));
        let ghost second = optional_pair("prefix"@, self@.prefix);
        let ghost third = optional_pair("delimiter"@, self@.delimiter);
        proof {
            lemma_with_pairs_add(*old(url), first, second);
            lemma_with_pairs_add(*old(url), first + second, third);
        }
        let mut edited = clone_url(url);
        if !append_optional(&mut edited, "max-keys", opt_str(&max_keys)) {
            return Err(ConfigError::TooLong);
        }
        if !append_optional(&mut edited, "prefix", opt_str(&self.prefix)) {
            return Err(ConfigError::TooLong);
        }
        if !append_optional(&mut edited, "delimiter", opt_str(&self.delimiter)) {
            return Err(ConfigError::TooLong);
        }
        assert(url_query(*old(url)) + first + second + third =~= url_query(*old(url)) + (first
            + second + third));
        *url = edited;
        Ok(())
    }
}

impl Default for S3Client {
    fn default() -> S3Client {
        S3Client {  }
    }
}

impl S3Client {
    /// The URL to fetch one page from: the base URL with the parameters of
    /// the listing appended to its query. The base URL must parse as an
    /// absolute URL, and the URL type must be able to hold the result.
    pub fn request_url(
        &self,
        url: &str,
        options: &S3Options,
        continuation_token: Option<&str>,
    ) -> (r: Result<Url, ConfigError>)
        ensures
            match r {
                Ok(request) => {
                    &&& parsed_url(url@) is Some
                    &&& url_with_pairs(
                        parsed_url(url@)->0,
                        listing_query(options@, opt_str_view(continuation_token)),
                    ) == Some(request)
                    &&& url_query(request) == url_query(parsed_url(url@)->0) + listing_query(
                        options@,
                        opt_str_view(continuation_token),
                    )
                },
                Err(e) => request_error(url@, options@, opt_str_view(continuation_token)) == Some(
                    e,
                ),
            },
    {
        let mut request = match parse_url(url) {
            Some(base) => base,
            None => {
                return Err(ConfigError::InvalidUrl);
            },
        };
        let ghost base = request;
        let ghost head = optional_pair("list-type"@, Some("2"@));
        let ghost middle = optional_pair("continuation-token"@, opt_str_view(continuation_token));
        proof {
            lemma_with_pairs_add(base, head, middle);
            lemma_with_pairs_add(base, head + middle, options@.query());
        }
        if !append_optional(&mut request, "list-type", Some("2")) {
            return Err(ConfigError::TooLong);
        }
        if !append_optional(&mut request, "continuation-token", continuation_token) {
            return Err(ConfigError::TooLong);
        }
        match options.apply_to_url(&mut request) {
            Ok(()) => {},
            Err(e) => {
                return Err(e);
            },
        }
        assert(url_query(base) + head + middle + options@.query() =~= url_query(base) + (head
            + middle + options@.query()));
        Ok(request)
    }
}

/// The query of a listing request holds exactly the parameters whose values
/// were supplied, beside the marker of the protocol version: each pair in it
/// is such a parameter with its value; each such parameter is in it; and no
/// name occurs twice, so that a parameter whose value is absent is absent.
pub proof fn lemma_query_holds_what_was_supplied(options: OptionsView, token: Option<Seq<char>>)
    ensures
        forall|p: Pair| #[trigger]
            listing_query(options, token).contains(p) <==> is_parameter(options, token, p),
        forall|i: int, j: int|
            0 <= i < j < listing_query(options, token).len() ==> (#[trigger] listing_query(
                options,
                token,
            )[i]).0 != (#[trigger] listing_query(options, token)[j]).0,
{
    reveal_strlit("list-type");
    reveal_strlit("2");
    reveal_strlit("continuation-token");
    reveal_strlit("max-keys");
    reveal_strlit("prefix");
    reveal_strlit("delimiter");
    let q = listing_query(options, token);
    let b = optional_pair("continuation-token"@, token);
    let c = optional_pair("max-keys"@, opt_decimal(options.max_keys));
    let d = optional_pair("prefix"@, options.prefix);
    assert("list-type"@[0] == 'l' && "continuation-token"@[0] == 'c' && "max-keys"@[0] == 'm'
        && "prefix"@[0] == 'p' && "delimiter"@[0] == 'd');
    assert forall|p: Pair| #[trigger] q.contains(p) implies is_parameter(options, token, p) by {
        let i = choose|i: int| 0 <= i < q.len() && q[i] == p;
    }
    assert forall|p: Pair| is_parameter(options, token, p) implies #[trigger] q.contains(p) by {
        if p == ("list-type"@, "2"@) {
            assert(q[0] == p);
        } else if p.0 == "continuation-token"@ && token == Some(p.1) {
            assert(q[1] == p);
        } else if p.0 == "max-keys"@ && opt_decimal(options.max_keys) == Some(p.1) {
            assert(q[1 + b.len() as int] == p);
        } else if p.0 == "prefix"@ && options.prefix == Some(p.1) {
            assert(q[1 + b.len() as int + c.len() as int] == p);
        } else {
            assert(q[1 + b.len() as int + c.len() as int + d.len() as int] == p);
        }
    }
}

/// The pairs that the filters append are exactly the filters that are set:
/// each pair is such a filter with its value, each filter that is set is
/// among them, no name occurs twice, and there are as many pairs as filters
/// that are set.
pub proof fn lemma_filters_append_what_is_set(options: OptionsView)
    ensures
        forall|p: Pair| #[trigger] options.query().contains(p) <==> options.is_filter(p),
        forall|i: int, j: int|
            0 <= i < j < options.query().len() ==> (#[trigger] options.query()[i]).0 != (
            #[trigger] options.query()[j]).0,
        options.query().len() == options.set_count(),
{
    reveal_strlit("max-keys");
    reveal_strlit("prefix");
    reveal_strlit("delimiter");
    let q = options.query();
    let c = optional_pair("max-keys"@, opt_decimal(options.max_keys));
    let d = optional_pair("prefix"@, options.prefix);
    assert("max-keys"@[0] == 'm' && "prefix"@[0] == 'p' && "delimiter"@[0] == 'd');
    assert forall|p: Pair| #[trigger] q.contains(p) implies options.is_filter(p) by {
        let i = choose|i: int| 0 <= i < q.len() && q[i] == p;
    }
    assert forall|p: Pair| options.is_filter(p) implies #[trigger] q.contains(p) by {
        if p.0 == "max-keys"@ && opt_decimal(options.max_keys) == Some(p.1) {
            assert(q[0] == p);
        } else if p.0 == "prefix"@ && options.prefix == Some(p.1) {
            assert(q[c.len() as int] == p);
        } else {
            assert(q[c.len() as int + d.len() as int] == p);
        }
    }
}

/// Appends the pair if the value is set and the URL type can surely hold
/// the result, and says whether nothing stood in the way. Where something
/// did, the URL is left as it was.
fn append_optional(url: &mut Url, name: &str, value: Option<&str>) -> (done: bool)
    ensures
        done == (url_with_pairs(*old(url), optional_pair(name@, opt_str_view(value))) is Some),
        done ==> url_with_pairs(*old(url), optional_pair(name@, opt_str_view(value))) == Some(
            *final(url),
        ),
        done ==> url_query(*final(url)) == url_query(*old(url)) + optional_pair(
            name@,
            opt_str_view(value),
        ),
        !done ==> *final(url) == *old(url),
{
    proof {
        lemma_with_one_pair(*old(url), name@, opt_str_view(value));
    }
    match value {
        Some(v) => {
            if !pair_has_room(url, name, v) {
                return false;
            }
            append_pair(url, name, v);
            true
        },
        None => true,
    }
}

/// Whether the URL type can surely hold the URL with the pair appended.
fn pair_has_room(url: &Url, name: &str, value: &str) -> (b: bool)
    ensures
        b == pair_fits(*url, (name@, value@)),
{
    let name_len: usize = byte_len(name);
    let value_len: usize = byte_len(value);
    match name_len.checked_add(value_len) {
        Some(added) => has_room_for(url, added),
        None => false,
    }
}

/// Appending at most one pair is one step, or none.
proof fn lemma_with_one_pair(url: Url, name: Seq<char>, value: Option<Seq<char>>)
    ensures
        url_with_pairs(url, optional_pair(name, value)) == match value {
            Some(v) => if pair_fits(url, (name, v)) {
                Some(url_with_pair(url, name, v))
            } else {
                None
            },
            None => Some(url),
        },
        url_query(url) + optional_pair(name, value) == match value {
            Some(v) => url_query(url).push((name, v)),
            None => url_query(url),
        },
{
    let pairs = optional_pair(name, value);
    if value is Some {
        assert(url_with_pairs(url, pairs.drop_last()) == Some(url));
    }
}

/// Appending two runs of pairs in turn is appending them as one run.
proof fn lemma_with_pairs_add(url: Url, first: Seq<Pair>, second: Seq<Pair>)
    ensures
        url_with_pairs(url, first + second) == match url_with_pairs(url, first) {
            Some(between) => url_with_pairs(between, second),
            None => None,
        },
    decreases second.len(),
{
    if second.len() == 0 {
    } else {
        lemma_with_pairs_add(url, first, second.drop_last());
        assert((first + second).drop_last() =~= first + second.drop_last());
    }
}

} // verus!
