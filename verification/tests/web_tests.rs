use axum::http::{HeaderMap, HeaderName, HeaderValue};
use qobuz_player_controls::web::{fragment_wanted, is_htmx_request, tab_class, Tab};

fn headers(names: &[&'static str]) -> HeaderMap {
    let mut map = HeaderMap::new();
    for name in names {
        map.insert(HeaderName::from_static(name), HeaderValue::from_static("true"));
    }
    map
}

#[test]
fn htmx_request_needs_the_header_and_no_boost() {
    assert!(is_htmx_request(&headers(&["hx-request"])));
    assert!(is_htmx_request(&headers(&["hx-request", "accept"])));
    assert!(!is_htmx_request(&headers(&["hx-request", "hx-boosted"])));
    assert!(!is_htmx_request(&headers(&["hx-boosted"])));
    assert!(!is_htmx_request(&headers(&["accept"])));
    assert!(!is_htmx_request(&HeaderMap::new()));
}

#[test]
fn htmx_headers_are_found_in_any_case() {
    let mut map = HeaderMap::new();
    map.insert(HeaderName::from_bytes(b"HX-Request").unwrap(), HeaderValue::from_static("true"));
    assert!(is_htmx_request(&map));
    map.insert(HeaderName::from_bytes(b"HX-Boosted").unwrap(), HeaderValue::from_static("true"));
    assert!(!is_htmx_request(&map));
}

#[test]
fn fragment_needs_the_header_and_no_boost() {
    assert!(fragment_wanted(true, false));
    assert!(!fragment_wanted(true, true));
    assert!(!fragment_wanted(false, false));
    assert!(!fragment_wanted(false, true));
}

#[test]
fn only_the_shown_tab_is_marked() {
    let tabs = [Tab::Albums, Tab::Artists, Tab::Playlists];
    for shown in tabs {
        for link in tabs {
            let expected = if shown == link { Some("bg-blue-800") } else { None };
            assert_eq!(tab_class(shown, link), expected);
        }
    }
}
