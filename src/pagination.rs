//! Walking a paginated collection.
//!
//! The walk starts at the cursor [`first_page`]. For each page the caller
//! sends [`Client::page_request`](crate::client::Client::page_request) and hands
//! the answer's `link` header and body to [`receive_page`], which appends the
//! page's elements and says which page comes next, if any. A walk whose
//! cursor is gone has ended and asks for no further page.

use vstd::prelude::*;
use vstd::string::StringExecFns;

use crate::error::CwError;
use crate::json::{json_array, json_parse};
use crate::link::{get_page_id, lemma_last_value_absent, link_target, page_id_of, text_of, url_parse, url_query};
use crate::responses::parse_single;

verus! {

/// The elements of a page whose body is a JSON array.
pub open spec fn page_items(body: Seq<char>) -> Option<Seq<serde_json::Value>> {
    match json_parse(body) {
        Some(v) => json_array(v),
        None => None,
    }
}

/// The view of an optional header value.
pub open spec fn header_of(link: Option<&str>) -> Option<Seq<char>> {
    match link {
        Some(h) => Some(h@),
        None => None,
    }
}

/// The cursor of the page after one whose `link` header is `link`. No header,
/// an empty one, and one without a `pageId` all end the walk.
pub open spec fn next_page_of(link: Option<Seq<char>>) -> Option<Seq<char>> {
    match link {
        None => None,
        Some(h) => if h.len() == 0 {
            None
        } else {
            page_id_of(h)
        },
    }
}

/// A walk after the answers `answers` (each a page's `link` header and body,
/// in the order the pages were asked for): the elements gathered and the
/// cursor of the page to ask for next, `None` once the walk has ended. `None`
/// as a whole when a body is not a JSON array, or an answer comes after the
/// walk ended.
pub open spec fn walk_after(answers: Seq<(Option<Seq<char>>, Seq<char>)>) -> Option<(Seq<serde_json::Value>, Option<Seq<char>>)>
    decreases answers.len(),
{
    if answers.len() == 0 {
        Some((seq![], Some("1"@)))
    } else {
        match walk_after(answers.drop_last()) {
            Some((gathered, Some(_))) => match page_items(answers.last().1) {
                Some(items) => Some((gathered + items, next_page_of(answers.last().0))),
                None => None,
            },
            _ => None,
        }
    }
}

/// The cursor of the first page.
pub fn first_page() -> (r: String)
    ensures
        r@ == "1"@,
{
    String::from_str("1")
}

/// Takes the answer for the current page: its `link` header, if it has one,
/// and its body. Appends the page's elements to `results`, in order, and
/// returns the cursor of the next page, or `None` when the walk has ended. A
/// body that is not a JSON array fails the whole walk and leaves `results`
/// as it was.
pub fn receive_page(results: &mut Vec<serde_json::Value>, link: Option<&str>, body: &str) -> (r: Result<Option<String>, CwError>)
    ensures
        match page_items(body@) {
            None => r is Err && r->Err_0 is Parse && final(results)@ == old(results)@,
            Some(items) => r is Ok && text_of(r->Ok_0) == next_page_of(header_of(link))
                && final(results)@ == old(results)@ + items,
        },
{
    let next = match link {
        None => None,
        Some(h) => if h.is_empty() {
            None
        } else {
            get_page_id(h)
        },
    };
    let page = match parse_single(body) {
        Ok(v) => v,
        Err(e) => {
            return Err(e);
        },
    };
    let items = match page.as_array() {
        Some(items) => items,
        None => {
            return Err(CwError::Parse(String::from_str("the page is not a JSON array")));
        },
    };
    let ghost start = results@;
    let mut i: usize = 0;
    while i < items.len()
        invariant
            i <= items.len(),
            results@ == start + items@.take(i as int),
        decreases items.len() - i,
    {
        results.push(items[i].clone());
        proof {
            assert(items@.take(i + 1) =~= items@.take(i as int).push(items@[i as int]));
        }
        i = i + 1;
    }
    proof {
        assert(items@.take(i as int) =~= items@);
    }
    Ok(next)
}

/// A page without a `link` header, or with an empty one, is the last page.
pub proof fn lemma_empty_link_ends_walk(h: Seq<char>)
    requires
        h.len() == 0,
    ensures
        next_page_of(Some(h)) is None,
        next_page_of(None) is None,
{
}

/// A page whose `link` header holds a URL without a `pageId` parameter is
/// the last page.
pub proof fn lemma_link_without_page_id_ends_walk(h: Seq<char>, target: Seq<char>, u: url::Url)
    requires
        link_target(h) == Some(target),
        url_parse(target) == Some(u),
        forall|i: int| 0 <= i < url_query(u).len() ==> (#[trigger] url_query(u)[i]).0 != "pageId"@,
    ensures
        next_page_of(Some(h)) is None,
{
    lemma_last_value_absent(url_query(u), "pageId"@);
}

/// A page whose `link` header carries the cursor `p` is followed by the page `p`.
pub proof fn lemma_link_with_page_id_continues_walk(h: Seq<char>, p: Seq<char>)
    requires
        page_id_of(h) == Some(p),
    ensures
        next_page_of(Some(h)) == Some(p),
{
}

/// A first page whose `link` header carries the cursor `2`, then a second
/// page whose `link` header is empty: the walk gathers the first page's
/// elements followed by the second's, and asks for no third page.
pub proof fn lemma_two_page_walk(
    link: Seq<char>,
    body1: Seq<char>,
    body2: Seq<char>,
    items1: Seq<serde_json::Value>,
    items2: Seq<serde_json::Value>,
)
    requires
        page_id_of(link) == Some("2"@),
        page_items(body1) == Some(items1),
        page_items(body2) == Some(items2),
    ensures
        walk_after(seq![(Some(link), body1), (Some(seq![]), body2)]) == Some((items1 + items2, None::<Seq<char>>)),
{
    let answers = seq![(Some(link), body1), (Some(Seq::<char>::empty()), body2)];
    assert(answers.drop_last() =~= seq![(Some(link), body1)]);
    assert(answers.drop_last().drop_last() =~= Seq::<(Option<Seq<char>>, Seq<char>)>::empty());
    lemma_link_with_page_id_continues_walk(link, "2"@);
    assert(walk_after(answers.drop_last().drop_last()) == Some((Seq::<serde_json::Value>::empty(), Some("1"@))));
    assert(Seq::<serde_json::Value>::empty() + items1 =~= items1);
    assert(walk_after(answers.drop_last()) == Some((items1, Some("2"@))));
}

} // verus!
