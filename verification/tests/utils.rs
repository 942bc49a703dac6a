use peach_web::text::parse_i32;
use peach_web::uri::{
    canonical_path, file_path, find_query_value, path_and_query, segments, split_text,
};
use peach_web::utils::{
    captured_subdomain, check_is_new_dyndns_domain, decode_url_value, find_dyndns_subdomain,
    get_dyndns_subdomain, get_full_dynamic_domain, same_text,
};

#[test]
fn full_dynamic_domain_appends_the_suffix() {
    assert_eq!(get_full_dynamic_domain("blue"), "blue.dyn.peachcloud.org");
    assert_eq!(get_full_dynamic_domain(""), ".dyn.peachcloud.org");
}

#[test]
fn subdomain_is_what_stands_before_the_suffix() {
    assert_eq!(get_dyndns_subdomain("blue.dyn.peachcloud.org"), "blue");
    assert_eq!(get_dyndns_subdomain("a.b.dyn.peachcloud.org"), "a.b");
    assert_eq!(get_dyndns_subdomain(".dyn.peachcloud.org"), "");
    assert_eq!(find_dyndns_subdomain("blue.dyn.peachcloud.org").as_deref(), Some("blue"));
    // the search is not anchored, and the group is greedy
    assert_eq!(
        find_dyndns_subdomain("x.dyn.peachcloud.org.dyn.peachcloud.org/path").as_deref(),
        Some("x.dyn.peachcloud.org")
    );
    assert_eq!(find_dyndns_subdomain("blue.dyn.peachcloud.com"), None);
    assert_eq!(find_dyndns_subdomain("blue-dyn-peachcloud-org"), None);
    assert_eq!(find_dyndns_subdomain(""), None);
}

#[test]
fn subdomain_round_trips_through_the_full_domain() {
    for subdomain in ["blue", "my-peach", "a.b", "x"] {
        assert_eq!(get_dyndns_subdomain(&get_full_dynamic_domain(subdomain)), subdomain);
    }
}

#[test]
fn captured_subdomain_is_empty_where_the_group_is_absent() {
    assert_eq!(captured_subdomain(Some("blue".to_string())), "blue");
    assert_eq!(captured_subdomain(None), "");
}

#[test]
fn a_domain_is_new_if_it_differs_from_the_previous_one() {
    assert!(check_is_new_dyndns_domain("blue.dyn.peachcloud.org", "red.dyn.peachcloud.org"));
    assert!(check_is_new_dyndns_domain("blue.dyn.peachcloud.org", ""));
    assert!(!check_is_new_dyndns_domain("blue.dyn.peachcloud.org", "blue.dyn.peachcloud.org"));
    assert!(same_text("", ""));
    assert!(!same_text("a", "A"));
}

#[test]
fn url_values_are_percent_decoded() {
    assert_eq!(decode_url_value("Home").as_deref(), Some("Home"));
    assert_eq!(decode_url_value("foo%20bar%3f").as_deref(), Some("foo bar?"));
    assert_eq!(decode_url_value("foo%20bar%3F").as_deref(), Some("foo bar?"));
    assert_eq!(decode_url_value("Caf%C3%A9").as_deref(), Some("Café"));
    assert_eq!(decode_url_value("100%").as_deref(), Some("100%"));
    assert_eq!(decode_url_value("%zz%4").as_deref(), Some("%zz%4"));
    assert_eq!(decode_url_value("a+b").as_deref(), Some("a+b"));
    assert_eq!(decode_url_value("%25%32%30").as_deref(), Some("%20"));
    assert_eq!(decode_url_value(""), Some(String::new()));
    assert_eq!(decode_url_value("%ff"), None);
    assert_eq!(decode_url_value("%C3"), None);
}

#[test]
fn integers_are_parsed_as_the_standard_library_parses_them() {
    let cases = [
        "0", "7", "-7", "+7", "007", "-0", "+0", "2147483647", "2147483648", "-2147483648",
        "-2147483649", "99999999999999999999", "-99999999999999999999", "", "-", "+", "--1",
        "+-1", "1-", "12a", "a12", " 12", "12 ", "1 2", "1.5", "١٢", "1_000", "187",
        "Unavailable", "0x10", "\u{ff11}",
    ];
    for text in cases {
        assert_eq!(parse_i32(text), text.parse::<i32>().ok(), "{:?}", text);
    }
    assert_eq!(parse_i32("-42"), Some(-42));
    assert_eq!(parse_i32("2147483647"), Some(i32::MAX));
    assert_eq!(parse_i32("-2147483648"), Some(i32::MIN));
}

#[test]
fn text_is_split_at_each_separator() {
    assert_eq!(split_text("a&b&c", '&'), vec!["a", "b", "c"]);
    assert_eq!(split_text("", '&'), vec![""]);
    assert_eq!(split_text("&", '&'), vec!["", ""]);
    assert_eq!(split_text("a&&b&", '&'), vec!["a", "", "b", ""]);
    assert_eq!(split_text("é/ü", '/'), vec!["é", "ü"]);
}

#[test]
fn request_targets_are_taken_apart() {
    assert_eq!(path_and_query("/network/wifi"), ("/network/wifi".to_string(), None));
    assert_eq!(
        path_and_query("/network/wifi?ssid=Home"),
        ("/network/wifi".to_string(), Some("ssid=Home".to_string()))
    );
    assert_eq!(path_and_query("/a?b?c"), ("/a".to_string(), Some("b?c".to_string())));
    assert_eq!(path_and_query("/a?"), ("/a".to_string(), Some(String::new())));
    assert_eq!(path_and_query(""), (String::new(), None));

    assert_eq!(find_query_value("ssid=Home", "ssid").as_deref(), Some("Home"));
    assert_eq!(find_query_value("a=b&ssid=Home&ssid=Other", "ssid").as_deref(), Some("Home"));
    assert_eq!(find_query_value("ssid", "ssid").as_deref(), Some(""));
    assert_eq!(find_query_value("ssid=", "ssid").as_deref(), Some(""));
    assert_eq!(find_query_value("ssid=a=b", "ssid").as_deref(), Some("a=b"));
    assert_eq!(find_query_value("xssid=1&ssidx=2", "ssid"), None);
    assert_eq!(find_query_value("", "ssid"), None);

    assert_eq!(segments("/a//b/"), vec!["a", "b"]);
    assert!(segments("/").is_empty());
    assert_eq!(canonical_path("/"), "/");
    assert_eq!(canonical_path(""), "/");
    assert_eq!(canonical_path("//network///wifi/"), "/network/wifi");

    assert_eq!(file_path("/images/placeholder.txt").as_deref(), Some("images/placeholder.txt"));
    assert_eq!(file_path("/").as_deref(), Some(""));
    assert_eq!(file_path("/a/b/../c").as_deref(), Some("a/c"));
    assert_eq!(file_path("/.env"), None);
}
