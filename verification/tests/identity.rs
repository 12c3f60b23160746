use chromimic::{ClientProfile, Error, Impersonate};

fn all_targets() -> Vec<Impersonate> {
    vec![
        Impersonate::Chrome99,
        Impersonate::Chrome100,
        Impersonate::Chrome101,
        Impersonate::Chrome104,
        Impersonate::Chrome105,
        Impersonate::Chrome106,
        Impersonate::Chrome107,
        Impersonate::Chrome108,
        Impersonate::Chrome109,
        Impersonate::Chrome114,
        Impersonate::Chrome116,
        Impersonate::Chrome117,
        Impersonate::Chrome118,
        Impersonate::Chrome119,
        Impersonate::Chrome120,
        Impersonate::Chrome123,
        Impersonate::Chrome124,
        Impersonate::Chrome126,
        Impersonate::SafariIos17_2,
        Impersonate::SafariIos17_4_1,
        Impersonate::SafariIos16_5,
        Impersonate::Safari15_3,
        Impersonate::Safari15_5,
        Impersonate::Safari15_6_1,
        Impersonate::Safari16,
        Impersonate::Safari16_5,
        Impersonate::Safari17_2_1,
        Impersonate::Safari17_4_1,
        Impersonate::OkHttp3_9,
        Impersonate::OkHttp3_11,
        Impersonate::OkHttp3_13,
        Impersonate::OkHttp3_14,
        Impersonate::OkHttp4_9,
        Impersonate::OkHttp4_10,
        Impersonate::OkHttp5,
        Impersonate::Edge99,
        Impersonate::Edge101,
        Impersonate::Edge122,
    ]
}

#[test]
fn parse_accepts_the_underscore_spelling() {
    assert_eq!(Impersonate::parse("chrome_126"), Ok(Impersonate::Chrome126));
    assert_eq!(Impersonate::parse("chrome_99"), Ok(Impersonate::Chrome99));
    assert_eq!(Impersonate::parse("safari_17.4.1"), Ok(Impersonate::Safari17_4_1));
    assert_eq!(Impersonate::parse("safari_ios_17.2"), Ok(Impersonate::SafariIos17_2));
    assert_eq!(Impersonate::parse("safari_ios_17.4.1"), Ok(Impersonate::SafariIos17_4_1));
    assert_eq!(Impersonate::parse("safari_ios_16.5"), Ok(Impersonate::SafariIos16_5));
    assert_eq!(Impersonate::parse("safari_16"), Ok(Impersonate::Safari16));
    assert_eq!(Impersonate::parse("okhttp_3.11"), Ok(Impersonate::OkHttp3_11));
    assert_eq!(Impersonate::parse("okhttp_4.10"), Ok(Impersonate::OkHttp4_10));
    assert_eq!(Impersonate::parse("okhttp_5"), Ok(Impersonate::OkHttp5));
    assert_eq!(Impersonate::parse("edge_122"), Ok(Impersonate::Edge122));
}

#[test]
fn parse_accepts_the_compact_spelling() {
    assert_eq!(Impersonate::parse("chrome126"), Ok(Impersonate::Chrome126));
    assert_eq!(Impersonate::parse("safari17_2_1"), Ok(Impersonate::Safari17_2_1));
    assert_eq!(Impersonate::parse("safari_ios16_5"), Ok(Impersonate::SafariIos16_5));
    assert_eq!(Impersonate::parse("okhttp4_10"), Ok(Impersonate::OkHttp4_10));
    assert_eq!(Impersonate::parse("edge122"), Ok(Impersonate::Edge122));
}

#[test]
fn parse_refuses_unknown_names() {
    assert_eq!(Impersonate::parse("firefox_99"), Err(Error::InvalidImpersonate));
    assert_eq!(Impersonate::parse(""), Err(Error::InvalidImpersonate));
    assert_eq!(Impersonate::parse("Chrome_126"), Err(Error::InvalidImpersonate));
    assert_eq!(Impersonate::parse("chrome_127"), Err(Error::InvalidImpersonate));
    assert_eq!(Impersonate::parse("chrome_126 "), Err(Error::InvalidImpersonate));
    assert_eq!(Impersonate::parse("chrome-126"), Err(Error::InvalidImpersonate));
    assert_eq!(Impersonate::parse("safari_17_4_1"), Err(Error::InvalidImpersonate));
    assert_eq!(Impersonate::parse("edge120"), Err(Error::InvalidImpersonate));
}

#[test]
fn display_form_parses_back_for_every_target() {
    for v in all_targets() {
        assert_eq!(Impersonate::parse(v.as_str()), Ok(v));
        assert_eq!(Impersonate::parse(&v.to_string()), Ok(v));
    }
}

#[test]
fn display_forms_are_all_different() {
    let all = all_targets();
    assert_eq!(all.len(), 38);
    for (i, a) in all.iter().enumerate() {
        for b in all.iter().skip(i + 1) {
            assert_ne!(a.as_str(), b.as_str());
        }
    }
}

#[test]
fn display_keeps_ios_and_desktop_safari_apart() {
    assert_eq!(Impersonate::Safari16_5.as_str(), "safari16_5");
    assert_eq!(Impersonate::SafariIos16_5.as_str(), "safari_ios16_5");
    assert_eq!(Impersonate::Safari17_4_1.as_str(), "safari17_4_1");
    assert_eq!(Impersonate::SafariIos17_4_1.as_str(), "safari_ios17_4_1");
    assert_eq!(Impersonate::SafariIos17_2.as_str(), "safari_ios17_2");
}

#[test]
fn display_uses_the_compact_spelling() {
    assert_eq!(Impersonate::Chrome126.to_string(), "chrome126");
    assert_eq!(Impersonate::Chrome99.to_string(), "chrome99");
    assert_eq!(Impersonate::Safari17_2_1.to_string(), "safari17_2_1");
    assert_eq!(Impersonate::OkHttp3_11.to_string(), "okhttp3_11");
    assert_eq!(Impersonate::OkHttp5.to_string(), "okhttp5");
    assert_eq!(Impersonate::Edge122.to_string(), "edge122");
}

#[test]
fn from_str_is_parse() {
    assert_eq!("chrome_126".parse::<Impersonate>(), Ok(Impersonate::Chrome126));
    assert_eq!("okhttp3_9".parse::<Impersonate>(), Ok(Impersonate::OkHttp3_9));
    assert_eq!("firefox_99".parse::<Impersonate>(), Err(Error::InvalidImpersonate));
}

#[test]
fn profile_gives_the_family() {
    assert_eq!(Impersonate::Chrome99.profile(), ClientProfile::Chrome);
    assert_eq!(Impersonate::Chrome126.profile(), ClientProfile::Chrome);
    assert_eq!(Impersonate::SafariIos16_5.profile(), ClientProfile::Safari);
    assert_eq!(Impersonate::Safari15_3.profile(), ClientProfile::Safari);
    assert_eq!(Impersonate::OkHttp3_9.profile(), ClientProfile::OkHttp);
    assert_eq!(Impersonate::OkHttp5.profile(), ClientProfile::OkHttp);
    assert_eq!(Impersonate::Edge99.profile(), ClientProfile::Edge);
    assert_eq!(Impersonate::Edge122.profile(), ClientProfile::Edge);
}

#[test]
fn profile_follows_the_name_of_every_target() {
    for v in all_targets() {
        let name = v.as_str();
        let expected = if name.starts_with("chrome") {
            ClientProfile::Chrome
        } else if name.starts_with("safari") {
            ClientProfile::Safari
        } else if name.starts_with("okhttp") {
            ClientProfile::OkHttp
        } else {
            ClientProfile::Edge
        };
        assert_eq!(v.profile(), expected);
        assert!(name.starts_with(v.profile().as_str()));
    }
}

#[test]
fn family_names() {
    assert_eq!(ClientProfile::Chrome.as_str(), "chrome");
    assert_eq!(ClientProfile::OkHttp.as_str(), "okhttp");
    assert_eq!(ClientProfile::Safari.as_str(), "safari");
    assert_eq!(ClientProfile::Firefox.as_str(), "firefox");
    assert_eq!(ClientProfile::Edge.as_str(), "edge");
}
