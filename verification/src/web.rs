//! What the web front end decides before it renders.
use axum::http::HeaderMap;
use vstd::prelude::*;

verus! {

/// The header map of the `http` crate, as axum hands it on: carried through,
/// nothing of its inside is known here.
#[verifier::external_type_specification]
#[verifier::external_body]
#[verifier::reject_recursive_types(T)]
pub struct ExHeaderMap<T>(axum::http::HeaderMap<T>);

/// The header value of the `http` crate, which a header map holds by
/// default.
#[verifier::external_type_specification]
#[verifier::external_body]
pub struct ExHeaderValue(axum::http::HeaderValue);

/// The names under which a header map holds a value, each in lower case, as
/// the map keeps them.
pub uninterp spec fn header_names(headers: HeaderMap) -> Set<Seq<char>>;

/// No letter of the text is an upper-case letter of the Latin alphabet.
pub open spec fn without_capitals(text: Seq<char>) -> bool {
    forall|i: int| 0 <= i < text.len() ==> !('A' <= #[trigger] text[i] <= 'Z')
}

/// Looks a name up with `HeaderMap::get`. Claimed: for a name without
/// capitals, a value is found exactly where the name is among those that the
/// map holds. (The map compares names without regard to case and keeps them
/// in lower case; a text that is no header name finds nothing.)
#[verifier::external_body]
fn has_header(headers: &HeaderMap, name: &str) -> (present: bool)
    requires
        without_capitals(name@),
    ensures
        present == header_names(*headers).contains(name@),
{
    headers.get(name).is_some()
}

/// Whether a request with the given header names asks for a fragment of a
/// page: it carries the header that marks such requests and not the one that
/// marks a boosted link.
pub open spec fn wants_fragment(names: Set<Seq<char>>) -> bool {
    names.contains("hx-request"@) && !names.contains("hx-boosted"@)
}

/// Whether a request asks for a fragment, told from the presence of the two
/// headers.
pub fn fragment_wanted(has_request_header: bool, has_boosted_header: bool) -> (fragment: bool)
    ensures
        fragment == (has_request_header && !has_boosted_header),
{
    has_request_header && !has_boosted_header
}

/// Whether a request with these headers asks for a fragment of a page.
pub fn is_htmx_request(headers: &HeaderMap) -> (fragment: bool)
    ensures
        fragment == wants_fragment(header_names(*headers)),
{
    proof {
        reveal_strlit("hx-request");
        reveal_strlit("hx-boosted");
    }
    let has_request_header = has_header(headers, "hx-request");
    let has_boosted_header = has_header(headers, "hx-boosted");
    fragment_wanted(has_request_header, has_boosted_header)
}

/// The lists of the favorites page.
#[derive(Debug, Clone, Copy, PartialEq, Eq, Structural)]
pub enum Tab {
    Albums,
    Artists,
    Playlists,
}

/// The class that marks the link of the list that is shown; the other links
/// have none.
pub fn tab_class(shown: Tab, link: Tab) -> (class: Option<&'static str>)
    ensures
        match class {
            Some(name) => shown == link && name@ == "bg-blue-800"@,
            None => shown != link,
        },
{
    if shown == link {
        Some("bg-blue-800")
    } else {
        None
    }
}

} // verus!
