use chromimic::catalog::{create_profile_headers, ensure_user_agent};
use chromimic::headers::{
    header_list, is_valid_name, is_valid_value, merge_headers, set_headers, Header,
};
use chromimic::ClientProfile;
use http::{HeaderMap, HeaderName, HeaderValue};

fn h(name: &str, value: &str) -> Header {
    Header { name: name.to_string(), value: value.as_bytes().to_vec() }
}

fn map_with_names(count: usize) -> HeaderMap {
    let mut map = HeaderMap::new();
    for i in 0..count {
        let name = HeaderName::from_bytes(format!("x-{}", i).as_bytes()).unwrap();
        map.insert(name, HeaderValue::from_static("1"));
    }
    assert_eq!(map.keys_len(), count);
    map
}

fn defaults() -> Vec<Header> {
    vec![
        h("user-agent", "okhttp/3.11"),
        h("accept", "*/*"),
        h("accept-encoding", "gzip, deflate, br"),
    ]
}

#[test]
fn merge_without_request_headers_keeps_the_defaults() {
    assert_eq!(merge_headers(&defaults(), &vec![]), defaults());
}

#[test]
fn merge_into_nothing_gives_the_request_headers() {
    let request = vec![h("x-b", "1"), h("x-a", "2")];
    assert_eq!(merge_headers(&vec![], &request), request);
}

#[test]
fn merge_overrides_in_place() {
    let merged = merge_headers(&defaults(), &vec![h("accept", "text/html")]);
    assert_eq!(
        merged,
        vec![
            h("user-agent", "okhttp/3.11"),
            h("accept", "text/html"),
            h("accept-encoding", "gzip, deflate, br"),
        ]
    );
}

#[test]
fn merge_appends_new_headers_in_request_order() {
    let merged = merge_headers(&defaults(), &vec![h("x-zeta", "1"), h("authorization", "t")]);
    assert_eq!(
        merged,
        vec![
            h("user-agent", "okhttp/3.11"),
            h("accept", "*/*"),
            h("accept-encoding", "gzip, deflate, br"),
            h("x-zeta", "1"),
            h("authorization", "t"),
        ]
    );
}

#[test]
fn merge_does_not_sort() {
    let merged = merge_headers(
        &vec![h("z", "1"), h("a", "2")],
        &vec![h("m", "3"), h("a", "4"), h("b", "5")],
    );
    assert_eq!(merged, vec![h("z", "1"), h("a", "4"), h("m", "3"), h("b", "5")]);
}

#[test]
fn merge_takes_the_last_value_of_a_repeated_request_header() {
    let merged = merge_headers(&defaults(), &vec![h("x", "1"), h("accept", "a"), h("x", "2"), h("accept", "b")]);
    assert_eq!(
        merged,
        vec![
            h("user-agent", "okhttp/3.11"),
            h("accept", "b"),
            h("accept-encoding", "gzip, deflate, br"),
            h("x", "2"),
        ]
    );
}

#[test]
fn merge_folds_repeated_defaults_into_the_first() {
    let merged = merge_headers(
        &vec![h("cookie", "a"), h("accept", "*/*"), h("cookie", "b")],
        &vec![h("cookie", "c")],
    );
    assert_eq!(merged, vec![h("cookie", "c"), h("accept", "*/*")]);
}

#[test]
fn merge_leaves_entries_of_other_names_in_their_order() {
    let defaults = vec![h("a", "1"), h("b", "2"), h("a", "3"), h("c", "4"), h("b", "5")];
    let merged = merge_headers(&defaults, &vec![h("b", "9"), h("d", "7")]);
    assert_eq!(merged, vec![h("a", "1"), h("b", "9"), h("a", "3"), h("c", "4"), h("d", "7")]);
    let others: Vec<Header> =
        merged.iter().filter(|e| e.name != "b" && e.name != "d").cloned().collect();
    assert_eq!(others, vec![h("a", "1"), h("a", "3"), h("c", "4")]);
    assert_eq!(merged.iter().filter(|e| e.name == "b").count(), 1);
    assert_eq!(merged.iter().filter(|e| e.name == "d").count(), 1);
}

#[test]
fn merge_compares_names_exactly() {
    let merged = merge_headers(&vec![h("accept", "1")], &vec![h("accept-", "2"), h("accep", "3")]);
    assert_eq!(merged, vec![h("accept", "1"), h("accept-", "2"), h("accep", "3")]);
}

#[test]
fn header_list_follows_the_map() {
    let mut map = HeaderMap::new();
    map.insert("x-one", HeaderValue::from_static("1"));
    map.insert("accept", HeaderValue::from_static("*/*"));
    map.insert("x-one", HeaderValue::from_static("uno"));
    assert_eq!(header_list(&map), vec![h("x-one", "uno"), h("accept", "*/*")]);
    assert_eq!(header_list(&HeaderMap::new()), vec![]);
}

#[test]
fn header_list_hands_out_every_value_of_a_name() {
    let mut map = HeaderMap::new();
    map.insert("a", HeaderValue::from_static("1"));
    map.insert("b", HeaderValue::from_static("2"));
    map.append("a", HeaderValue::from_static("3"));
    assert_eq!(header_list(&map), vec![h("a", "1"), h("a", "3"), h("b", "2")]);
}

#[test]
fn set_headers_sets_them_in_list_order() {
    let list = vec![("x-b", "1"), ("x-a", "2"), ("x-b", "3")];
    let map = set_headers(HeaderMap::new(), &list).unwrap();
    assert_eq!(header_list(&map), vec![h("x-b", "3"), h("x-a", "2")]);
}

#[test]
fn set_headers_is_the_merge_of_the_lists() {
    let mut start = HeaderMap::new();
    start.insert("user-agent", HeaderValue::from_static("first"));
    start.insert("accept", HeaderValue::from_static("*/*"));
    let list = vec![("accept", "text/html"), ("x-new", "1")];
    let before = header_list(&start);
    let map = set_headers(start, &list).unwrap();
    let request = vec![h("accept", "text/html"), h("x-new", "1")];
    assert_eq!(header_list(&map), merge_headers(&before, &request));
    assert_eq!(
        header_list(&map),
        vec![h("user-agent", "first"), h("accept", "text/html"), h("x-new", "1")]
    );
}

#[test]
fn set_headers_folds_several_values_into_one() {
    let mut start = HeaderMap::new();
    start.insert("a", HeaderValue::from_static("1"));
    start.insert("b", HeaderValue::from_static("2"));
    start.append("a", HeaderValue::from_static("3"));
    let map = set_headers(start, &vec![("a", "4")]).unwrap();
    assert_eq!(header_list(&map), vec![h("a", "4"), h("b", "2")]);
}

#[test]
fn set_headers_leaves_other_names_with_all_their_values() {
    let mut start = HeaderMap::new();
    start.insert("a", HeaderValue::from_static("1"));
    start.insert("c", HeaderValue::from_static("4"));
    start.append("a", HeaderValue::from_static("3"));
    start.append("c", HeaderValue::from_static("5"));
    let map = set_headers(start, &vec![("c", "9"), ("d", "1")]).unwrap();
    assert_eq!(header_list(&map), vec![h("a", "1"), h("a", "3"), h("c", "9"), h("d", "1")]);
    assert_eq!(map.keys_len(), 3);
}

#[test]
fn set_headers_takes_standard_and_other_names_alike() {
    let list = vec![("content-length", "0"), ("x-custom", "v"), ("host", "example.com")];
    let map = set_headers(HeaderMap::new(), &list).unwrap();
    assert_eq!(
        header_list(&map),
        vec![h("content-length", "0"), h("x-custom", "v"), h("host", "example.com")]
    );
    assert_eq!(map.get("Host").unwrap(), "example.com");
}

#[test]
fn set_headers_refuses_malformed_headers() {
    assert!(set_headers(HeaderMap::new(), &vec![("Accept", "*/*")]).is_none());
    assert!(set_headers(HeaderMap::new(), &vec![("", "1")]).is_none());
    assert!(set_headers(HeaderMap::new(), &vec![("a b", "1")]).is_none());
    assert!(set_headers(HeaderMap::new(), &vec![("ok", "1"), ("x", "line\nbreak")]).is_none());
    assert!(set_headers(HeaderMap::new(), &vec![("x", "caf\u{e9}")]).is_none());
    assert!(set_headers(HeaderMap::new(), &vec![("x", "tab\tand space")]).is_some());
    assert!(set_headers(HeaderMap::new(), &vec![("x", "")]).is_some());
    assert!(set_headers(HeaderMap::new(), &vec![]).is_some());
}

#[test]
fn set_headers_takes_a_name_with_a_double_quote() {
    let map = set_headers(HeaderMap::new(), &vec![("a\"b", "1"), ("c", "2")]).unwrap();
    assert_eq!(header_list(&map), vec![h("a\"b", "1"), h("c", "2")]);
    let map = set_headers(map, &vec![("a\"b", "3")]).unwrap();
    assert_eq!(header_list(&map), vec![h("a\"b", "3"), h("c", "2")]);
}

#[test]
fn set_headers_counts_names_and_not_values() {
    let list: Vec<(&'static str, &'static str)> = vec![("x", "1"); 7000];
    let map = set_headers(HeaderMap::new(), &list).unwrap();
    assert_eq!(header_list(&map), vec![h("x", "1")]);
    let mut many = HeaderMap::new();
    for _ in 0..7000 {
        many.append("cookie", HeaderValue::from_static("c"));
    }
    let map = set_headers(many, &vec![("accept", "*/*")]).unwrap();
    assert_eq!(map.len(), 7001);
    assert_eq!(map.keys_len(), 2);
}

#[test]
fn set_headers_fills_a_map_up_to_its_room() {
    let map = set_headers(map_with_names(6553), &vec![("y-new", "1")]).unwrap();
    assert_eq!(map.keys_len(), 6554);
    assert_eq!(header_list(&map).last().unwrap(), &h("y-new", "1"));
    let map = set_headers(map_with_names(6552), &vec![("y-a", "1"), ("y-b", "2")]).unwrap();
    assert_eq!(map.keys_len(), 6554);
    let map = set_headers(map_with_names(6553), &vec![("x-0", "2"), ("y-new", "1")]).unwrap();
    assert_eq!(map.keys_len(), 6554);
    assert_eq!(map.get("x-0").unwrap(), "2");
}

#[test]
fn set_headers_refuses_a_map_without_room() {
    assert!(set_headers(map_with_names(6554), &vec![("y-new", "1")]).is_none());
    assert!(set_headers(map_with_names(6554), &vec![("x-0", "2")]).is_none());
    assert!(set_headers(map_with_names(6553), &vec![("y-a", "1"), ("y-b", "2")]).is_none());
    assert!(set_headers(map_with_names(6553), &vec![("y-a", "1"), ("y-a", "2")]).is_none());
    assert!(set_headers(map_with_names(6554), &vec![]).is_some());
    assert!(set_headers(map_with_names(7000), &vec![]).is_some());
}

#[test]
fn header_names_are_lower_case_tokens() {
    assert!(is_valid_name("accept"));
    assert!(is_valid_name("sec-ch-ua-platform"));
    assert!(is_valid_name("x_1.2~3"));
    assert!(is_valid_name("!\"#$%&'*+-.^_`|~"));
    assert!(is_valid_name("0"));
    assert!(!is_valid_name(""));
    assert!(!is_valid_name("Accept"));
    assert!(!is_valid_name("accept:"));
    assert!(!is_valid_name("a b"));
    assert!(!is_valid_name("a(b)"));
    assert!(!is_valid_name("a/b"));
    assert!(!is_valid_name("a{b}"));
    assert!(!is_valid_name("\u{e9}"));
    assert!(!is_valid_name("a\u{7f}"));
}

#[test]
fn header_names_have_a_longest_length() {
    let longest = "a".repeat(65535);
    assert!(is_valid_name(&longest));
    let too_long = "a".repeat(65536);
    assert!(!is_valid_name(&too_long));
}

#[test]
fn header_values_are_visible_ascii() {
    assert!(is_valid_value(""));
    assert!(is_valid_value("gzip, deflate, br"));
    assert!(is_valid_value("\"Windows\""));
    assert!(is_valid_value(" ~"));
    assert!(is_valid_value("a\tb"));
    assert!(!is_valid_value("a\nb"));
    assert!(!is_valid_value("a\rb"));
    assert!(!is_valid_value("\u{0}"));
    assert!(!is_valid_value("\u{1f}"));
    assert!(!is_valid_value("\u{7f}"));
    assert!(!is_valid_value("\u{80}"));
    assert!(!is_valid_value("caf\u{e9}"));
}

#[test]
fn a_missing_user_agent_is_put_in_from_the_family() {
    let mut map = HeaderMap::new();
    map.insert("accept", HeaderValue::from_static("*/*"));
    let map = ensure_user_agent(map, ClientProfile::OkHttp).unwrap();
    assert_eq!(header_list(&map), vec![h("accept", "*/*"), h("user-agent", "okhttp/5")]);
    let map = ensure_user_agent(HeaderMap::new(), ClientProfile::OkHttp).unwrap();
    assert_eq!(header_list(&map), vec![h("user-agent", "okhttp/5")]);
}

#[test]
fn a_user_agent_that_is_there_stays() {
    let mut map = HeaderMap::new();
    map.insert("user-agent", HeaderValue::from_static("mine/1.0"));
    map.insert("accept", HeaderValue::from_static("*/*"));
    let map = ensure_user_agent(map, ClientProfile::Chrome).unwrap();
    assert_eq!(header_list(&map), vec![h("user-agent", "mine/1.0"), h("accept", "*/*")]);
}

#[test]
fn a_user_agent_goes_into_a_map_with_room() {
    let map = ensure_user_agent(map_with_names(6553), ClientProfile::Chrome).unwrap();
    assert_eq!(map.keys_len(), 6554);
    assert_eq!(header_list(&map).last().unwrap().name, "user-agent");
    let mut many = HeaderMap::new();
    for _ in 0..7000 {
        many.append("cookie", HeaderValue::from_static("c"));
    }
    let map = ensure_user_agent(many, ClientProfile::Chrome).unwrap();
    assert_eq!(map.len(), 7001);
    assert!(map.contains_key("user-agent"));
}

#[test]
fn a_map_without_room_comes_back_untouched() {
    let before = header_list(&map_with_names(6554));
    let back = ensure_user_agent(map_with_names(6554), ClientProfile::Chrome).unwrap_err();
    assert_eq!(back.keys_len(), 6554);
    assert!(!back.contains_key("user-agent"));
    assert_eq!(header_list(&back), before);
}

#[test]
fn a_full_map_that_names_a_user_agent_is_fine() {
    let mut map = map_with_names(6553);
    map.insert("user-agent", HeaderValue::from_static("mine/1.0"));
    let before = header_list(&map);
    let map = ensure_user_agent(map, ClientProfile::Chrome).unwrap();
    assert_eq!(header_list(&map), before);
}

#[test]
fn every_family_has_a_user_agent_of_its_own() {
    let cases = [
        (ClientProfile::Chrome, "Chrome/"),
        (ClientProfile::Edge, "Edg/"),
        (ClientProfile::Safari, "Safari/"),
        (ClientProfile::OkHttp, "okhttp/"),
        (ClientProfile::Firefox, "Firefox/"),
    ];
    for (family, mark) in cases {
        let list = header_list(&create_profile_headers(family));
        assert_eq!(list.len(), 1);
        assert_eq!(list[0].name, "user-agent");
        let value = String::from_utf8(list[0].value.clone()).unwrap();
        assert!(value.contains(mark), "{} lacks {}", value, mark);
    }
}
