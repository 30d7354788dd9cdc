//! The query string of a URL: how it is read from the inbound URL, how it is
//! put on the upstream URL, and which parameter keys it holds.

use crate::text::chars_of;
use vstd::prelude::*;
use vstd::string::StrSliceExecFns;

verus! {

/// The text of an optional string.
pub open spec fn text_of(o: Option<String>) -> Option<Seq<char>> {
    match o {
        Some(s) => Some(s@),
        None => None,
    }
}

/// The text of what reading a URL's query gave.
pub open spec fn query_text(o: Option<Option<String>>) -> Option<Option<Seq<char>>> {
    match o {
        Some(q) => Some(text_of(q)),
        None => None,
    }
}

/// The query of the URL written as `url`: `None` where the text is not an
/// absolute URL, `Some(None)` where the URL has no query, and `Some(Some(q))`
/// with the text between `?` and the fragment otherwise. The value is
/// whatever the URL parser makes of the text.
pub uninterp spec fn url_query(url: Seq<char>) -> Option<Option<Seq<char>>>;

/// The URL written as `base` with its query replaced by `query`, as text:
/// `None` where `base` is not an absolute URL. The value is whatever the URL
/// parser and its query setter produce.
pub uninterp spec fn url_with_query(base: Seq<char>, query: Option<Seq<char>>) -> Option<
    Seq<char>,
>;

/// Parses `url` with `worker::Url::parse` and reads `Url::query` from the
/// result. Nothing is proved of the parser: the contract only gives its
/// answer the name `url_query`, a function of the text alone.
#[verifier::external_body]
pub(crate) fn parse_query(url: &str) -> (r: Option<Option<String>>)
    ensures
        query_text(r) == url_query(url@),
{
    match worker::Url::parse(url) {
        Ok(parsed) => Some(parsed.query().map(str::to_owned)),
        Err(_) => None,
    }
}

/// The URL written as `url`, as the URL parser writes it back: `None` where
/// the text is not an absolute URL. The value is whatever the URL parser
/// makes of the text.
pub uninterp spec fn url_text(url: Seq<char>) -> Option<Seq<char>>;

/// Parses `url` with `worker::Url::parse` and returns `Url::as_str`. Nothing
/// is proved of the parser: the contract only gives its answer the name
/// `url_text`, a function of the text alone.
#[verifier::external_body]
pub(crate) fn serialize(url: &str) -> (r: Option<String>)
    ensures
        text_of(r) == url_text(url@),
{
    match worker::Url::parse(url) {
        Ok(parsed) => Some(parsed.as_str().to_owned()),
        Err(_) => None,
    }
}

/// A URL of `written` characters, as the parser writes it, has room for a
/// query of `query` characters. The URL library keeps positions in 32 bits;
/// a character of a URL takes at most four bytes and a character of a query
/// at most twelve once it is percent-encoded, and one byte goes to the `?`.
pub open spec fn room(written: nat, query: nat) -> bool {
    4 * written + 12 * query + 1 <= u32::MAX
}

/// The URL that the parser wrote has room for the query. A URL that did not
/// parse, and the absence of a query, need no room.
pub open spec fn has_room(written: Option<Seq<char>>, query: Option<Seq<char>>) -> bool {
    match (written, query) {
        (Some(w), Some(q)) => room(w.len(), q.len()),
        _ => true,
    }
}

/// Whether a URL of `written` characters has room for a query of `query`
/// characters.
pub fn room_for(written: usize, query: usize) -> (r: bool)
    ensures
        r == room(written as nat, query as nat),
{
    if written > 0x3fff_ffff || query > 0x1555_5555 {
        return false;
    }
    let wide: u64 = 4 * (written as u64) + 12 * (query as u64) + 1;
    wide <= 0xffff_ffff
}

/// Parses `base` with `worker::Url::parse`, replaces the query with
/// `Url::set_query` and returns `Url::as_str`. Nothing is proved of these:
/// the contract only gives the answer the name `url_with_query`, a function
/// of the two texts alone. The query setter panics where the URL with its
/// new query outgrows 32 bits, so the URL as parsed must have room for the
/// query.
#[verifier::external_body]
pub(crate) fn with_query(base: &str, query: &Option<String>) -> (r: Option<String>)
    requires
        has_room(url_text(base@), text_of(*query)),
    ensures
        text_of(r) == url_with_query(base@, text_of(*query)),
{
    match worker::Url::parse(base) {
        Ok(mut target) => {
            target.set_query(query.as_deref());
            Some(target.as_str().to_owned())
        },
        Err(_) => None,
    }
}

/// The target of a GET: the upstream URL with its query replaced by
/// `query`, or `None` where the upstream URL does not parse or has no room
/// for the query.
pub open spec fn target(upstream: Seq<char>, query: Option<Seq<char>>) -> Option<Seq<char>> {
    if has_room(url_text(upstream), query) {
        url_with_query(upstream, query)
    } else {
        None
    }
}

/// Builds the target of a GET from the upstream URL and the query of the
/// inbound URL. The query is handed to the URL library only where the
/// upstream URL, as parsed, has room for it.
pub fn target_url(upstream: &str, query: &Option<String>) -> (r: Option<String>)
    ensures
        text_of(r) == target(upstream@, text_of(*query)),
{
    match query {
        Some(q) => {
            match serialize(upstream) {
                Some(written) => {
                    if room_for(written.as_str().unicode_len(), q.as_str().unicode_len()) {
                        with_query(upstream, query)
                    } else {
                        None
                    }
                },
                None => with_query(upstream, query),
            }
        },
        None => with_query(upstream, query),
    }
}

/// The parameter that starts at position `i` of `query` has the key `key`:
/// `i` is the start of the query or follows an `&`, the key stands there,
/// and it ends with the query, at `=` or at the next `&`.
pub open spec fn key_at(query: Seq<char>, key: Seq<char>, i: int) -> bool {
    &&& 0 <= i
    &&& i + key.len() <= query.len()
    &&& (i == 0 || query[i - 1] == '&')
    &&& query.subrange(i, i + key.len()) == key
    &&& (i + key.len() == query.len() || query[i + key.len()] == '=' || query[i + key.len()]
        == '&')
}

/// Some parameter of `query` has the key `key`, whatever its value.
pub open spec fn has_key(query: Seq<char>, key: Seq<char>) -> bool {
    exists|i: int| key_at(query, key, i)
}

fn key_stands_at(query: &Vec<char>, key: &Vec<char>, i: usize) -> (r: bool)
    requires
        i + key@.len() <= query@.len(),
    ensures
        r == (query@.subrange(i as int, i + key@.len()) == key@),
{
    let n = query.len();
    let mut k: usize = 0;
    while k < key.len()
        invariant
            k <= key@.len(),
            n == query@.len(),
            i + key@.len() <= n,
            forall|j: int| 0 <= j < k ==> query@[i + j] == key@[j],
        decreases key@.len() - k,
    {
        if query[i + k] != key[k] {
            assert(query@.subrange(i as int, i + key@.len())[k as int] != key@[k as int]);
            return false;
        }
        k += 1;
    }
    assert(query@.subrange(i as int, i + key@.len()) =~= key@);
    true
}

/// Whether some parameter of `query` has the key `key`.
pub fn query_has_key(query: &str, key: &str) -> (r: bool)
    ensures
        r == has_key(query@, key@),
{
    let q = chars_of(query);
    let k = chars_of(key);
    if k.len() > q.len() {
        return false;
    }
    let n = q.len();
    let last: usize = n - k.len();
    let mut i: usize = 0;
    loop
        invariant
            i <= last,
            n == q@.len(),
            last == n - k@.len(),
            q@ == query@,
            k@ == key@,
            forall|j: int| 0 <= j < i ==> !key_at(query@, key@, j),
        decreases last - i,
    {
        if (i == 0 || q[i - 1] == '&') && key_stands_at(&q, &k, i) && (i == last || q[i + k.len()]
            == '=' || q[i + k.len()] == '&') {
            assert(key_at(query@, key@, i as int));
            return true;
        }
        if i == last {
            return false;
        }
        i += 1;
    }
}

} // verus!
