//! Reading the next page's cursor out of a `link` response header.
//!
//! The header holds a URL between `<` and `>`; the cursor is the `pageId`
//! parameter of that URL's query string. Text from the first `link =` on is
//! not considered.

use vstd::prelude::*;
use vstd::string::{StrSliceExecFns, StringExecFns};

verus! {

#[verifier::external_type_specification]
#[verifier::external_body]
pub struct ExUrl(url::Url);

#[verifier::external_type_specification]
#[verifier::external_body]
pub struct ExUrlParseError(url::ParseError);

/// What `url::Url::parse` makes of a text: `None` when it fails.
pub uninterp spec fn url_parse(text: Seq<char>) -> Option<url::Url>;

/// The decoded name/value pairs of a URL's query string, in order.
pub uninterp spec fn url_query(u: url::Url) -> Seq<(Seq<char>, Seq<char>)>;

/// Relies on `url::Url::parse`, which depends on the text alone.
#[verifier::external_body]
fn parse_url(text: &str) -> (r: Result<url::Url, url::ParseError>)
    ensures
        r is Ok <==> url_parse(text@) is Some,
        r is Ok ==> url_parse(text@) == Some(r->Ok_0),
{
    url::Url::parse(text)
}

/// Relies on `url::Url::query_pairs`, with each pair made owned.
#[verifier::external_body]
fn query_pairs(u: &url::Url) -> (r: Vec<(String, String)>)
    ensures
        r.deep_view() == url_query(*u),
{
    u.query_pairs().into_owned().collect()
}

/// The text that ends the part of a header that is searched.
pub open spec fn link_marker() -> Seq<char> {
    seq!['l', 'i', 'n', 'k', ' ', '=']
}

/// `link =` starts at position `i` of `s`.
pub open spec fn marker_at(s: Seq<char>, i: int) -> bool {
    0 <= i && i + link_marker().len() <= s.len() && s.subrange(i, i + link_marker().len())
        == link_marker()
}

/// Length of the part of `s` before its first `link =` (all of `s` without one).
pub open spec fn marker_cut(s: Seq<char>) -> int {
    if exists|i: int| marker_at(s, i) {
        choose|i: int| marker_at(s, i) && forall|j: int| 0 <= j < i ==> !marker_at(s, j)
    } else {
        s.len() as int
    }
}

/// The first position in `lo..hi` whose character is `a` or `b`; `hi` when there is none.
pub open spec fn first_stop(s: Seq<char>, lo: int, hi: int, a: char, b: char) -> int {
    if exists|i: int| lo <= i < hi && (s[i] == a || s[i] == b) {
        choose|i: int|
            lo <= i < hi && (s[i] == a || s[i] == b) && forall|j: int|
                lo <= j < i ==> !(s[j] == a || s[j] == b)
    } else {
        hi
    }
}

/// The URL of a `link` header: after the first `<`, up to the next `<` or `>`
/// (or the end), all before the first `link =`. `None` without a `<` there.
pub open spec fn link_target(h: Seq<char>) -> Option<Seq<char>> {
    let cut = marker_cut(h);
    let lt = first_stop(h, 0, cut, '<', '<');
    if lt >= cut {
        None
    } else {
        Some(h.subrange(lt + 1, first_stop(h, lt + 1, cut, '<', '>')))
    }
}

/// The value of the last pair named `key`, as a map built from the pairs in
/// order keeps it.
pub open spec fn last_value(pairs: Seq<(Seq<char>, Seq<char>)>, key: Seq<char>) -> Option<Seq<char>>
    decreases pairs.len(),
{
    if pairs.len() == 0 {
        None
    } else if pairs.last().0 == key {
        Some(pairs.last().1)
    } else {
        last_value(pairs.drop_last(), key)
    }
}

/// The cursor that a `link` header carries: the `pageId` parameter of its URL.
pub open spec fn page_id_of(h: Seq<char>) -> Option<Seq<char>> {
    match link_target(h) {
        None => None,
        Some(u) => match url_parse(u) {
            None => None,
            Some(url) => last_value(url_query(url), "pageId"@),
        },
    }
}

/// The view of an optional string.
pub open spec fn text_of(o: Option<String>) -> Option<Seq<char>> {
    match o {
        Some(s) => Some(s@),
        None => None,
    }
}

fn chars_of(s: &str) -> (r: Vec<char>)
    ensures
        r@ == s@,
{
    let n = s.unicode_len();
    let mut r: Vec<char> = Vec::new();
    let mut i: usize = 0;
    while i < n
        invariant
            n == s@.len(),
            i <= n,
            r@ == s@.subrange(0, i as int),
        decreases n - i,
    {
        r.push(s.get_char(i));
        i = i + 1;
    }
    r
}

fn marker_starts(cs: &Vec<char>, i: usize) -> (r: bool)
    ensures
        r == marker_at(cs@, i as int),
{
    if i > cs.len() || cs.len() - i < 6 {
        return false;
    }
    let r = cs[i] == 'l' && cs[i + 1] == 'i' && cs[i + 2] == 'n' && cs[i + 3] == 'k'
        && cs[i + 4] == ' ' && cs[i + 5] == '=';
    assert(r ==> cs@.subrange(i as int, i + 6) =~= link_marker());
    assert(cs@.subrange(i as int, i + 6) =~= link_marker() ==> r) by {
        if cs@.subrange(i as int, i + 6) =~= link_marker() {
            assert(cs@.subrange(i as int, i + 6)[0] == 'l');
            assert(cs@.subrange(i as int, i + 6)[1] == 'i');
            assert(cs@.subrange(i as int, i + 6)[2] == 'n');
            assert(cs@.subrange(i as int, i + 6)[3] == 'k');
            assert(cs@.subrange(i as int, i + 6)[4] == ' ');
            assert(cs@.subrange(i as int, i + 6)[5] == '=');
        }
    }
    r
}

fn find_marker(cs: &Vec<char>) -> (r: usize)
    ensures
        r == marker_cut(cs@),
        r <= cs.len(),
{
    let mut i: usize = 0;
    while i < cs.len()
        invariant
            i <= cs.len(),
            forall|j: int| 0 <= j < i ==> !marker_at(cs@, j),
        decreases cs.len() - i,
    {
        if marker_starts(cs, i) {
            let ghost k = marker_cut(cs@);
            assert(marker_at(cs@, k) && forall|j: int| 0 <= j < k ==> !marker_at(cs@, j));
            assert(k == i) by {
                if k < i {
                    assert(!marker_at(cs@, k));
                } else if k > i {
                    assert(!marker_at(cs@, i as int));
                }
            }
            return i;
        }
        i = i + 1;
    }
    assert(!exists|i: int| marker_at(cs@, i)) by {
        if exists|k: int| marker_at(cs@, k) {
            let k = choose|k: int| marker_at(cs@, k);
            assert(!marker_at(cs@, k));
        }
    }
    cs.len()
}

fn find_stop(cs: &Vec<char>, lo: usize, hi: usize, a: char, b: char) -> (r: usize)
    requires
        lo <= hi <= cs.len(),
    ensures
        r == first_stop(cs@, lo as int, hi as int, a, b),
        lo <= r <= hi,
{
    let mut i: usize = lo;
    while i < hi
        invariant
            lo <= i <= hi <= cs.len(),
            forall|j: int| lo <= j < i ==> !(cs@[j] == a || cs@[j] == b),
        decreases hi - i,
    {
        if cs[i] == a || cs[i] == b {
            let ghost k = first_stop(cs@, lo as int, hi as int, a, b);
            assert(lo <= i < hi && (cs@[i as int] == a || cs@[i as int] == b));
            assert(k == i) by {
                if k < i {
                    assert(!(cs@[k] == a || cs@[k] == b));
                } else if k > i {
                    assert(!(cs@[i as int] == a || cs@[i as int] == b));
                }
            }
            return i;
        }
        i = i + 1;
    }
    hi
}

/// The URL that a `link` header holds between `<` and `>`.
pub fn link_target_url(header: &str) -> (r: Option<String>)
    ensures
        text_of(r) == link_target(header@),
{
    let cs = chars_of(header);
    let cut = find_marker(&cs);
    let lt = find_stop(&cs, 0, cut, '<', '<');
    if lt >= cut {
        None
    } else {
        let end = find_stop(&cs, lt + 1, cut, '<', '>');
        Some(String::from_str(header.substring_char(lt + 1, end)))
    }
}

/// The value of the last pair named `key`.
pub fn last_value_of(pairs: &Vec<(String, String)>, key: &str) -> (r: Option<String>)
    ensures
        text_of(r) == last_value(pairs.deep_view(), key@),
{
    let key = String::from_str(key);
    let mut found: Option<String> = None;
    let mut i: usize = 0;
    while i < pairs.len()
        invariant
            i <= pairs.len(),
            text_of(found) == last_value(pairs.deep_view().take(i as int), key@),
        decreases pairs.len() - i,
    {
        assert(pairs.deep_view().take(i + 1).drop_last() =~= pairs.deep_view().take(i as int));
        if pairs[i].0 == key {
            found = Some(pairs[i].1.clone());
        }
        i = i + 1;
    }
    assert(pairs.deep_view().take(i as int) =~= pairs.deep_view());
    found
}

/// The cursor of the next page that a `link` header value carries: the
/// `pageId` parameter of the URL between `<` and `>`. `None` when there is no
/// such URL, it does not parse, or it has no `pageId`.
pub fn get_page_id(link: &str) -> (r: Option<String>)
    ensures
        text_of(r) == page_id_of(link@),
{
    match link_target_url(link) {
        None => None,
        Some(target) => match parse_url(target.as_str()) {
            Err(_) => None,
            Ok(url) => last_value_of(&query_pairs(&url), "pageId"),
        },
    }
}

/// Without a pair named `key` there is no value for it.
pub proof fn lemma_last_value_absent(pairs: Seq<(Seq<char>, Seq<char>)>, key: Seq<char>)
    requires
        forall|i: int| 0 <= i < pairs.len() ==> (#[trigger] pairs[i]).0 != key,
    ensures
        last_value(pairs, key) is None,
    decreases pairs.len(),
{
    if pairs.len() > 0 {
        assert(pairs.last().0 != key);
        lemma_last_value_absent(pairs.drop_last(), key);
    }
}

} // verus!
