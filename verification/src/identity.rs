//! Impersonation targets: the closed set of browser builds, their string
//! spellings and their browser family.

use vstd::prelude::*;
use crate::text::str_eq;

verus! {

/// Why a configuration was refused.
#[derive(Clone, Copy, Debug, PartialEq, Eq, Structural)]
pub enum Error {
    /// A string names no impersonation target.
    InvalidImpersonate,
    /// The TLS parameters cannot be configured.
    TlsConfigError,
    /// An HTTP/2 parameter is out of range.
    Http2ConfigError,
}

/// Coarse browser family of an impersonation target.
#[derive(Clone, Copy, Debug, PartialEq, Eq, Structural)]
pub enum ClientProfile {
    /// Google Chrome.
    Chrome,
    /// OkHttp.
    OkHttp,
    /// Apple Safari, on macOS and on iOS.
    Safari,
    /// Mozilla Firefox.
    Firefox,
    /// Microsoft Edge.
    Edge,
}

/// The browser build to mimic.
#[derive(Clone, Copy, Debug, PartialEq, Eq, Structural)]
pub enum Impersonate {
    /// Chrome 99.
    Chrome99,
    /// Chrome 100.
    Chrome100,
    /// Chrome 101.
    Chrome101,
    /// Chrome 104.
    Chrome104,
    /// Chrome 105.
    Chrome105,
    /// Chrome 106.
    Chrome106,
    /// Chrome 107.
    Chrome107,
    /// Chrome 108.
    Chrome108,
    /// Chrome 109.
    Chrome109,
    /// Chrome 114.
    Chrome114,
    /// Chrome 116.
    Chrome116,
    /// Chrome 117.
    Chrome117,
    /// Chrome 118.
    Chrome118,
    /// Chrome 119.
    Chrome119,
    /// Chrome 120.
    Chrome120,
    /// Chrome 123.
    Chrome123,
    /// Chrome 124.
    Chrome124,
    /// Chrome 126.
    Chrome126,
    /// Safari on iOS 17.2.
    SafariIos17_2,
    /// Safari on iOS 17.4.1.
    SafariIos17_4_1,
    /// Safari on iOS 16.5.
    SafariIos16_5,
    /// Safari 15.3.
    Safari15_3,
    /// Safari 15.5.
    Safari15_5,
    /// Safari 15.6.1.
    Safari15_6_1,
    /// Safari 16.
    Safari16,
    /// Safari 16.5.
    Safari16_5,
    /// Safari 17.2.1.
    Safari17_2_1,
    /// Safari 17.4.1.
    Safari17_4_1,
    /// OkHttp 3.9.
    OkHttp3_9,
    /// OkHttp 3.11.
    OkHttp3_11,
    /// OkHttp 3.13.
    OkHttp3_13,
    /// OkHttp 3.14.
    OkHttp3_14,
    /// OkHttp 4.9.
    OkHttp4_9,
    /// OkHttp 4.10.
    OkHttp4_10,
    /// OkHttp 5.
    OkHttp5,
    /// Edge 99.
    Edge99,
    /// Edge 101.
    Edge101,
    /// Edge 122.
    Edge122,
}

/// The underscore spelling of a target, such as `chrome_126` or
/// `safari_ios_17.4.1`.
pub open spec fn tag(v: Impersonate) -> Seq<char> {
    match v {
        Impersonate::Chrome99 => "chrome_99"@,
        Impersonate::Chrome100 => "chrome_100"@,
        Impersonate::Chrome101 => "chrome_101"@,
        Impersonate::Chrome104 => "chrome_104"@,
        Impersonate::Chrome105 => "chrome_105"@,
        Impersonate::Chrome106 => "chrome_106"@,
        Impersonate::Chrome107 => "chrome_107"@,
        Impersonate::Chrome108 => "chrome_108"@,
        Impersonate::Chrome109 => "chrome_109"@,
        Impersonate::Chrome114 => "chrome_114"@,
        Impersonate::Chrome116 => "chrome_116"@,
        Impersonate::Chrome117 => "chrome_117"@,
        Impersonate::Chrome118 => "chrome_118"@,
        Impersonate::Chrome119 => "chrome_119"@,
        Impersonate::Chrome120 => "chrome_120"@,
        Impersonate::Chrome123 => "chrome_123"@,
        Impersonate::Chrome124 => "chrome_124"@,
        Impersonate::Chrome126 => "chrome_126"@,
        Impersonate::SafariIos17_2 => "safari_ios_17.2"@,
        Impersonate::SafariIos17_4_1 => "safari_ios_17.4.1"@,
        Impersonate::SafariIos16_5 => "safari_ios_16.5"@,
        Impersonate::Safari15_3 => "safari_15.3"@,
        Impersonate::Safari15_5 => "safari_15.5"@,
        Impersonate::Safari15_6_1 => "safari_15.6.1"@,
        Impersonate::Safari16 => "safari_16"@,
        Impersonate::Safari16_5 => "safari_16.5"@,
        Impersonate::Safari17_2_1 => "safari_17.2.1"@,
        Impersonate::Safari17_4_1 => "safari_17.4.1"@,
        Impersonate::OkHttp3_9 => "okhttp_3.9"@,
        Impersonate::OkHttp3_11 => "okhttp_3.11"@,
        Impersonate::OkHttp3_13 => "okhttp_3.13"@,
        Impersonate::OkHttp3_14 => "okhttp_3.14"@,
        Impersonate::OkHttp4_9 => "okhttp_4.9"@,
        Impersonate::OkHttp4_10 => "okhttp_4.10"@,
        Impersonate::OkHttp5 => "okhttp_5"@,
        Impersonate::Edge99 => "edge_99"@,
        Impersonate::Edge101 => "edge_101"@,
        Impersonate::Edge122 => "edge_122"@,
    }
}

/// The compact spelling of a target, such as `chrome126` or
/// `safari_ios17_4_1`. No two targets share one.
pub open spec fn compact(v: Impersonate) -> Seq<char> {
    match v {
        Impersonate::Chrome99 => "chrome99"@,
        Impersonate::Chrome100 => "chrome100"@,
        Impersonate::Chrome101 => "chrome101"@,
        Impersonate::Chrome104 => "chrome104"@,
        Impersonate::Chrome105 => "chrome105"@,
        Impersonate::Chrome106 => "chrome106"@,
        Impersonate::Chrome107 => "chrome107"@,
        Impersonate::Chrome108 => "chrome108"@,
        Impersonate::Chrome109 => "chrome109"@,
        Impersonate::Chrome114 => "chrome114"@,
        Impersonate::Chrome116 => "chrome116"@,
        Impersonate::Chrome117 => "chrome117"@,
        Impersonate::Chrome118 => "chrome118"@,
        Impersonate::Chrome119 => "chrome119"@,
        Impersonate::Chrome120 => "chrome120"@,
        Impersonate::Chrome123 => "chrome123"@,
        Impersonate::Chrome124 => "chrome124"@,
        Impersonate::Chrome126 => "chrome126"@,
        Impersonate::SafariIos17_2 => "safari_ios17_2"@,
        Impersonate::SafariIos17_4_1 => "safari_ios17_4_1"@,
        Impersonate::SafariIos16_5 => "safari_ios16_5"@,
        Impersonate::Safari15_3 => "safari15_3"@,
        Impersonate::Safari15_5 => "safari15_5"@,
        Impersonate::Safari15_6_1 => "safari15_6_1"@,
        Impersonate::Safari16 => "safari16"@,
        Impersonate::Safari16_5 => "safari16_5"@,
        Impersonate::Safari17_2_1 => "safari17_2_1"@,
        Impersonate::Safari17_4_1 => "safari17_4_1"@,
        Impersonate::OkHttp3_9 => "okhttp3_9"@,
        Impersonate::OkHttp3_11 => "okhttp3_11"@,
        Impersonate::OkHttp3_13 => "okhttp3_13"@,
        Impersonate::OkHttp3_14 => "okhttp3_14"@,
        Impersonate::OkHttp4_9 => "okhttp4_9"@,
        Impersonate::OkHttp4_10 => "okhttp4_10"@,
        Impersonate::OkHttp5 => "okhttp5"@,
        Impersonate::Edge99 => "edge99"@,
        Impersonate::Edge101 => "edge101"@,
        Impersonate::Edge122 => "edge122"@,
    }
}

/// Whether `s` is one of the two spellings of `v`.
pub open spec fn spells(v: Impersonate, s: Seq<char>) -> bool {
    s == tag(v) || s == compact(v)
}

/// The family a target belongs to.
pub open spec fn family(v: Impersonate) -> ClientProfile {
    match v {
        Impersonate::Chrome99
        | Impersonate::Chrome100
        | Impersonate::Chrome101
        | Impersonate::Chrome104
        | Impersonate::Chrome105
        | Impersonate::Chrome106
        | Impersonate::Chrome107
        | Impersonate::Chrome108
        | Impersonate::Chrome109
        | Impersonate::Chrome114
        | Impersonate::Chrome116
        | Impersonate::Chrome117
        | Impersonate::Chrome118
        | Impersonate::Chrome119
        | Impersonate::Chrome120
        | Impersonate::Chrome123
        | Impersonate::Chrome124
        | Impersonate::Chrome126 => ClientProfile::Chrome,
        Impersonate::SafariIos17_2
        | Impersonate::SafariIos17_4_1
        | Impersonate::SafariIos16_5
        | Impersonate::Safari15_3
        | Impersonate::Safari15_5
        | Impersonate::Safari15_6_1
        | Impersonate::Safari16
        | Impersonate::Safari16_5
        | Impersonate::Safari17_2_1
        | Impersonate::Safari17_4_1 => ClientProfile::Safari,
        Impersonate::OkHttp3_9
        | Impersonate::OkHttp3_11
        | Impersonate::OkHttp3_13
        | Impersonate::OkHttp3_14
        | Impersonate::OkHttp4_9
        | Impersonate::OkHttp4_10
        | Impersonate::OkHttp5 => ClientProfile::OkHttp,
        Impersonate::Edge99
        | Impersonate::Edge101
        | Impersonate::Edge122 => ClientProfile::Edge,
    }
}

/// What parsing `s` yields: the target that `s` spells, or
/// `InvalidImpersonate` where it spells none.
pub open spec fn parse_spec(s: Seq<char>) -> Result<Impersonate, Error> {
    if exists|v: Impersonate| spells(v, s) {
        Ok(choose|v: Impersonate| spells(v, s))
    } else {
        Err(Error::InvalidImpersonate)
    }
}

/// Length and last three characters of a spelling. They tell all the
/// spellings apart.
spec fn tail(s: Seq<char>) -> (nat, char, char, char) {
    (s.len(), s[s.len() - 3], s[s.len() - 2], s[s.len() - 1])
}

proof fn reveal_tags() 
    ensures
        tail(tag(Impersonate::Chrome99)) == (9nat, '_', '9', '9'),
        tail(tag(Impersonate::Chrome100)) == (10nat, '1', '0', '0'),
        tail(tag(Impersonate::Chrome101)) == (10nat, '1', '0', '1'),
        tail(tag(Impersonate::Chrome104)) == (10nat, '1', '0', '4'),
        tail(tag(Impersonate::Chrome105)) == (10nat, '1', '0', '5'),
        tail(tag(Impersonate::Chrome106)) == (10nat, '1', '0', '6'),
        tail(tag(Impersonate::Chrome107)) == (10nat, '1', '0', '7'),
        tail(tag(Impersonate::Chrome108)) == (10nat, '1', '0', '8'),
        tail(tag(Impersonate::Chrome109)) == (10nat, '1', '0', '9'),
        tail(tag(Impersonate::Chrome114)) == (10nat, '1', '1', '4'),
        tail(tag(Impersonate::Chrome116)) == (10nat, '1', '1', '6'),
        tail(tag(Impersonate::Chrome117)) == (10nat, '1', '1', '7'),
        tail(tag(Impersonate::Chrome118)) == (10nat, '1', '1', '8'),
        tail(tag(Impersonate::Chrome119)) == (10nat, '1', '1', '9'),
        tail(tag(Impersonate::Chrome120)) == (10nat, '1', '2', '0'),
        tail(tag(Impersonate::Chrome123)) == (10nat, '1', '2', '3'),
        tail(tag(Impersonate::Chrome124)) == (10nat, '1', '2', '4'),
        tail(tag(Impersonate::Chrome126)) == (10nat, '1', '2', '6'),
        tail(tag(Impersonate::SafariIos17_2)) == (15nat, '7', '.', '2'),
        tail(tag(Impersonate::SafariIos17_4_1)) == (17nat, '4', '.', '1'),
        tail(tag(Impersonate::SafariIos16_5)) == (15nat, '6', '.', '5'),
        tail(tag(Impersonate::Safari15_3)) == (11nat, '5', '.', '3'),
        tail(tag(Impersonate::Safari15_5)) == (11nat, '5', '.', '5'),
        tail(tag(Impersonate::Safari15_6_1)) == (13nat, '6', '.', '1'),
        tail(tag(Impersonate::Safari16)) == (9nat, '_', '1', '6'),
        tail(tag(Impersonate::Safari16_5)) == (11nat, '6', '.', '5'),
        tail(tag(Impersonate::Safari17_2_1)) == (13nat, '2', '.', '1'),
        tail(tag(Impersonate::Safari17_4_1)) == (13nat, '4', '.', '1'),
        tail(tag(Impersonate::OkHttp3_9)) == (10nat, '3', '.', '9'),
        tail(tag(Impersonate::OkHttp3_11)) == (11nat, '.', '1', '1'),
        tail(tag(Impersonate::OkHttp3_13)) == (11nat, '.', '1', '3'),
        tail(tag(Impersonate::OkHttp3_14)) == (11nat, '.', '1', '4'),
        tail(tag(Impersonate::OkHttp4_9)) == (10nat, '4', '.', '9'),
        tail(tag(Impersonate::OkHttp4_10)) == (11nat, '.', '1', '0'),
        tail(tag(Impersonate::OkHttp5)) == (8nat, 'p', '_', '5'),
        tail(tag(Impersonate::Edge99)) == (7nat, '_', '9', '9'),
        tail(tag(Impersonate::Edge101)) == (8nat, '1', '0', '1'),
        tail(tag(Impersonate::Edge122)) == (8nat, '1', '2', '2'),
{
    reveal_strlit("chrome_99");
    reveal_strlit("chrome_100");
    reveal_strlit("chrome_101");
    reveal_strlit("chrome_104");
    reveal_strlit("chrome_105");
    reveal_strlit("chrome_106");
    reveal_strlit("chrome_107");
    reveal_strlit("chrome_108");
    reveal_strlit("chrome_109");
    reveal_strlit("chrome_114");
    reveal_strlit("chrome_116");
    reveal_strlit("chrome_117");
    reveal_strlit("chrome_118");
    reveal_strlit("chrome_119");
    reveal_strlit("chrome_120");
    reveal_strlit("chrome_123");
    reveal_strlit("chrome_124");
    reveal_strlit("chrome_126");
    reveal_strlit("safari_ios_17.2");
    reveal_strlit("safari_ios_17.4.1");
    reveal_strlit("safari_ios_16.5");
    reveal_strlit("safari_15.3");
    reveal_strlit("safari_15.5");
    reveal_strlit("safari_15.6.1");
    reveal_strlit("safari_16");
    reveal_strlit("safari_16.5");
    reveal_strlit("safari_17.2.1");
    reveal_strlit("safari_17.4.1");
    reveal_strlit("okhttp_3.9");
    reveal_strlit("okhttp_3.11");
    reveal_strlit("okhttp_3.13");
    reveal_strlit("okhttp_3.14");
    reveal_strlit("okhttp_4.9");
    reveal_strlit("okhttp_4.10");
    reveal_strlit("okhttp_5");
    reveal_strlit("edge_99");
    reveal_strlit("edge_101");
    reveal_strlit("edge_122");
}

proof fn reveal_compacts() 
    ensures
        tail(compact(Impersonate::Chrome99)) == (8nat, 'e', '9', '9'),
        tail(compact(Impersonate::Chrome100)) == (9nat, '1', '0', '0'),
        tail(compact(Impersonate::Chrome101)) == (9nat, '1', '0', '1'),
        tail(compact(Impersonate::Chrome104)) == (9nat, '1', '0', '4'),
        tail(compact(Impersonate::Chrome105)) == (9nat, '1', '0', '5'),
        tail(compact(Impersonate::Chrome106)) == (9nat, '1', '0', '6'),
        tail(compact(Impersonate::Chrome107)) == (9nat, '1', '0', '7'),
        tail(compact(Impersonate::Chrome108)) == (9nat, '1', '0', '8'),
        tail(compact(Impersonate::Chrome109)) == (9nat, '1', '0', '9'),
        tail(compact(Impersonate::Chrome114)) == (9nat, '1', '1', '4'),
        tail(compact(Impersonate::Chrome116)) == (9nat, '1', '1', '6'),
        tail(compact(Impersonate::Chrome117)) == (9nat, '1', '1', '7'),
        tail(compact(Impersonate::Chrome118)) == (9nat, '1', '1', '8'),
        tail(compact(Impersonate::Chrome119)) == (9nat, '1', '1', '9'),
        tail(compact(Impersonate::Chrome120)) == (9nat, '1', '2', '0'),
        tail(compact(Impersonate::Chrome123)) == (9nat, '1', '2', '3'),
        tail(compact(Impersonate::Chrome124)) == (9nat, '1', '2', '4'),
        tail(compact(Impersonate::Chrome126)) == (9nat, '1', '2', '6'),
        tail(compact(Impersonate::SafariIos17_2)) == (14nat, '7', '_', '2'),
        tail(compact(Impersonate::SafariIos17_4_1)) == (16nat, '4', '_', '1'),
        tail(compact(Impersonate::SafariIos16_5)) == (14nat, '6', '_', '5'),
        tail(compact(Impersonate::Safari15_3)) == (10nat, '5', '_', '3'),
        tail(compact(Impersonate::Safari15_5)) == (10nat, '5', '_', '5'),
        tail(compact(Impersonate::Safari15_6_1)) == (12nat, '6', '_', '1'),
        tail(compact(Impersonate::Safari16)) == (8nat, 'i', '1', '6'),
        tail(compact(Impersonate::Safari16_5)) == (10nat, '6', '_', '5'),
        tail(compact(Impersonate::Safari17_2_1)) == (12nat, '2', '_', '1'),
        tail(compact(Impersonate::Safari17_4_1)) == (12nat, '4', '_', '1'),
        tail(compact(Impersonate::OkHttp3_9)) == (9nat, '3', '_', '9'),
        tail(compact(Impersonate::OkHttp3_11)) == (10nat, '_', '1', '1'),
        tail(compact(Impersonate::OkHttp3_13)) == (10nat, '_', '1', '3'),
        tail(compact(Impersonate::OkHttp3_14)) == (10nat, '_', '1', '4'),
        tail(compact(Impersonate::OkHttp4_9)) == (9nat, '4', '_', '9'),
        tail(compact(Impersonate::OkHttp4_10)) == (10nat, '_', '1', '0'),
        tail(compact(Impersonate::OkHttp5)) == (7nat, 't', 'p', '5'),
        tail(compact(Impersonate::Edge99)) == (6nat, 'e', '9', '9'),
        tail(compact(Impersonate::Edge101)) == (7nat, '1', '0', '1'),
        tail(compact(Impersonate::Edge122)) == (7nat, '1', '2', '2'),
{
    reveal_strlit("chrome99");
    reveal_strlit("chrome100");
    reveal_strlit("chrome101");
    reveal_strlit("chrome104");
    reveal_strlit("chrome105");
    reveal_strlit("chrome106");
    reveal_strlit("chrome107");
    reveal_strlit("chrome108");
    reveal_strlit("chrome109");
    reveal_strlit("chrome114");
    reveal_strlit("chrome116");
    reveal_strlit("chrome117");
    reveal_strlit("chrome118");
    reveal_strlit("chrome119");
    reveal_strlit("chrome120");
    reveal_strlit("chrome123");
    reveal_strlit("chrome124");
    reveal_strlit("chrome126");
    reveal_strlit("safari_ios17_2");
    reveal_strlit("safari_ios17_4_1");
    reveal_strlit("safari_ios16_5");
    reveal_strlit("safari15_3");
    reveal_strlit("safari15_5");
    reveal_strlit("safari15_6_1");
    reveal_strlit("safari16");
    reveal_strlit("safari16_5");
    reveal_strlit("safari17_2_1");
    reveal_strlit("safari17_4_1");
    reveal_strlit("okhttp3_9");
    reveal_strlit("okhttp3_11");
    reveal_strlit("okhttp3_13");
    reveal_strlit("okhttp3_14");
    reveal_strlit("okhttp4_9");
    reveal_strlit("okhttp4_10");
    reveal_strlit("okhttp5");
    reveal_strlit("edge99");
    reveal_strlit("edge101");
    reveal_strlit("edge122");
}

/// A string spells at most one target.
pub proof fn lemma_spelling_unique(v: Impersonate, w: Impersonate, s: Seq<char>)
    requires
        spells(v, s),
        spells(w, s),
    ensures
        v == w,
{
    reveal_tags();
    reveal_compacts();
    assert(tail(s) == tail(tag(v)) || tail(s) == tail(compact(v)));
    assert(tail(s) == tail(tag(w)) || tail(s) == tail(compact(w)));
}

/// Parsing either spelling of a target gives that target back.
pub proof fn lemma_parse_spelling(v: Impersonate, s: Seq<char>)
    requires
        spells(v, s),
    ensures
        parse_spec(s) == Ok::<Impersonate, Error>(v),
{
    let w = choose|w: Impersonate| spells(w, s);
    lemma_spelling_unique(v, w, s);
}

/// The display form of every target parses back to that target, and so
/// does its underscore spelling.
pub proof fn law_display_round_trip(v: Impersonate)
    ensures
        parse_spec(compact(v)) == Ok::<Impersonate, Error>(v),
        parse_spec(tag(v)) == Ok::<Impersonate, Error>(v),
{
    lemma_parse_spelling(v, compact(v));
    lemma_parse_spelling(v, tag(v));
}

/// Whether `s` is one of the two given spellings.
fn is_either(s: &str, a: &str, b: &str) -> (r: bool)
    ensures
        r == (s@ == a@ || s@ == b@),
{
    str_eq(s, a) || str_eq(s, b)
}

impl ClientProfile {
    /// The lower-case name of the family.
    pub fn as_str(&self) -> (r: &'static str)
        ensures
            r@ == match *self {
                ClientProfile::Chrome => "chrome"@,
                ClientProfile::OkHttp => "okhttp"@,
                ClientProfile::Safari => "safari"@,
                ClientProfile::Firefox => "firefox"@,
                ClientProfile::Edge => "edge"@,
            },
    {
        match self {
            ClientProfile::Chrome => "chrome",
            ClientProfile::OkHttp => "okhttp",
            ClientProfile::Safari => "safari",
            ClientProfile::Firefox => "firefox",
            ClientProfile::Edge => "edge",
        }
    }
}

impl Impersonate {
    /// The browser family of this target.
    pub fn profile(&self) -> (r: ClientProfile)
        ensures
            r == family(*self),
    {
        match self {
            Impersonate::Chrome99
            | Impersonate::Chrome100
            | Impersonate::Chrome101
            | Impersonate::Chrome104
            | Impersonate::Chrome105
            | Impersonate::Chrome106
            | Impersonate::Chrome107
            | Impersonate::Chrome108
            | Impersonate::Chrome109
            | Impersonate::Chrome114
            | Impersonate::Chrome116
            | Impersonate::Chrome117
            | Impersonate::Chrome118
            | Impersonate::Chrome119
            | Impersonate::Chrome120
            | Impersonate::Chrome123
            | Impersonate::Chrome124
            | Impersonate::Chrome126 => ClientProfile::Chrome,
            Impersonate::SafariIos17_2
            | Impersonate::SafariIos17_4_1
            | Impersonate::SafariIos16_5
            | Impersonate::Safari15_3
            | Impersonate::Safari15_5
            | Impersonate::Safari15_6_1
            | Impersonate::Safari16
            | Impersonate::Safari16_5
            | Impersonate::Safari17_2_1
            | Impersonate::Safari17_4_1 => ClientProfile::Safari,
            Impersonate::OkHttp3_9
            | Impersonate::OkHttp3_11
            | Impersonate::OkHttp3_13
            | Impersonate::OkHttp3_14
            | Impersonate::OkHttp4_9
            | Impersonate::OkHttp4_10
            | Impersonate::OkHttp5 => ClientProfile::OkHttp,
            Impersonate::Edge99
            | Impersonate::Edge101
            | Impersonate::Edge122 => ClientProfile::Edge,
        }
    }

    /// The display form of this target: its compact spelling.
    pub fn as_str(&self) -> (r: &'static str)
        ensures
            r@ == compact(*self),
    {
        match self {
            Impersonate::Chrome99 => "chrome99",
            Impersonate::Chrome100 => "chrome100",
            Impersonate::Chrome101 => "chrome101",
            Impersonate::Chrome104 => "chrome104",
            Impersonate::Chrome105 => "chrome105",
            Impersonate::Chrome106 => "chrome106",
            Impersonate::Chrome107 => "chrome107",
            Impersonate::Chrome108 => "chrome108",
            Impersonate::Chrome109 => "chrome109",
            Impersonate::Chrome114 => "chrome114",
            Impersonate::Chrome116 => "chrome116",
            Impersonate::Chrome117 => "chrome117",
            Impersonate::Chrome118 => "chrome118",
            Impersonate::Chrome119 => "chrome119",
            Impersonate::Chrome120 => "chrome120",
            Impersonate::Chrome123 => "chrome123",
            Impersonate::Chrome124 => "chrome124",
            Impersonate::Chrome126 => "chrome126",
            Impersonate::SafariIos17_2 => "safari_ios17_2",
            Impersonate::SafariIos17_4_1 => "safari_ios17_4_1",
            Impersonate::SafariIos16_5 => "safari_ios16_5",
            Impersonate::Safari15_3 => "safari15_3",
            Impersonate::Safari15_5 => "safari15_5",
            Impersonate::Safari15_6_1 => "safari15_6_1",
            Impersonate::Safari16 => "safari16",
            Impersonate::Safari16_5 => "safari16_5",
            Impersonate::Safari17_2_1 => "safari17_2_1",
            Impersonate::Safari17_4_1 => "safari17_4_1",
            Impersonate::OkHttp3_9 => "okhttp3_9",
            Impersonate::OkHttp3_11 => "okhttp3_11",
            Impersonate::OkHttp3_13 => "okhttp3_13",
            Impersonate::OkHttp3_14 => "okhttp3_14",
            Impersonate::OkHttp4_9 => "okhttp4_9",
            Impersonate::OkHttp4_10 => "okhttp4_10",
            Impersonate::OkHttp5 => "okhttp5",
            Impersonate::Edge99 => "edge99",
            Impersonate::Edge101 => "edge101",
            Impersonate::Edge122 => "edge122",
        }
    }

    /// The display form as an owned string.
    pub fn to_string(&self) -> (r: String)
        ensures
            r@ == compact(*self),
    {
        self.as_str().to_owned()
    }

    /// Reads a target from either of its spellings. Any other string is
    /// refused with `InvalidImpersonate`.
    pub fn parse(s: &str) -> (r: Result<Impersonate, Error>)
        ensures
            r == parse_spec(s@),
    {
        let found = Self::lookup(s);
        proof {
            match found {
                Some(v) => {
                    lemma_parse_spelling(v, s@);
                },
                None => {},
            }
        }
        match found {
            Some(v) => Ok(v),
            None => Err(Error::InvalidImpersonate),
        }
    }

    /// The target that `s` spells, if any.
    fn lookup(s: &str) -> (r: Option<Impersonate>)
        ensures
            match r {
                Some(v) => spells(v, s@),
                None => forall|v: Impersonate| !spells(v, s@),
            },
    {
        if is_either(s, "chrome_99", "chrome99") {
            Some(Impersonate::Chrome99)
        } else if is_either(s, "chrome_100", "chrome100") {
            Some(Impersonate::Chrome100)
        } else if is_either(s, "chrome_101", "chrome101") {
            Some(Impersonate::Chrome101)
        } else if is_either(s, "chrome_104", "chrome104") {
            Some(Impersonate::Chrome104)
        } else if is_either(s, "chrome_105", "chrome105") {
            Some(Impersonate::Chrome105)
        } else if is_either(s, "chrome_106", "chrome106") {
            Some(Impersonate::Chrome106)
        } else if is_either(s, "chrome_107", "chrome107") {
            Some(Impersonate::Chrome107)
        } else if is_either(s, "chrome_108", "chrome108") {
            Some(Impersonate::Chrome108)
        } else if is_either(s, "chrome_109", "chrome109") {
            Some(Impersonate::Chrome109)
        } else if is_either(s, "chrome_114", "chrome114") {
            Some(Impersonate::Chrome114)
        } else if is_either(s, "chrome_116", "chrome116") {
            Some(Impersonate::Chrome116)
        } else if is_either(s, "chrome_117", "chrome117") {
            Some(Impersonate::Chrome117)
        } else if is_either(s, "chrome_118", "chrome118") {
            Some(Impersonate::Chrome118)
        } else if is_either(s, "chrome_119", "chrome119") {
            Some(Impersonate::Chrome119)
        } else if is_either(s, "chrome_120", "chrome120") {
            Some(Impersonate::Chrome120)
        } else if is_either(s, "chrome_123", "chrome123") {
            Some(Impersonate::Chrome123)
        } else if is_either(s, "chrome_124", "chrome124") {
            Some(Impersonate::Chrome124)
        } else if is_either(s, "chrome_126", "chrome126") {
            Some(Impersonate::Chrome126)
        } else if is_either(s, "safari_ios_17.2", "safari_ios17_2") {
            Some(Impersonate::SafariIos17_2)
        } else if is_either(s, "safari_ios_17.4.1", "safari_ios17_4_1") {
            Some(Impersonate::SafariIos17_4_1)
        } else if is_either(s, "safari_ios_16.5", "safari_ios16_5") {
            Some(Impersonate::SafariIos16_5)
        } else if is_either(s, "safari_15.3", "safari15_3") {
            Some(Impersonate::Safari15_3)
        } else if is_either(s, "safari_15.5", "safari15_5") {
            Some(Impersonate::Safari15_5)
        } else if is_either(s, "safari_15.6.1", "safari15_6_1") {
            Some(Impersonate::Safari15_6_1)
        } else if is_either(s, "safari_16", "safari16") {
            Some(Impersonate::Safari16)
        } else if is_either(s, "safari_16.5", "safari16_5") {
            Some(Impersonate::Safari16_5)
        } else if is_either(s, "safari_17.2.1", "safari17_2_1") {
            Some(Impersonate::Safari17_2_1)
        } else if is_either(s, "safari_17.4.1", "safari17_4_1") {
            Some(Impersonate::Safari17_4_1)
        } else if is_either(s, "okhttp_3.9", "okhttp3_9") {
            Some(Impersonate::OkHttp3_9)
        } else if is_either(s, "okhttp_3.11", "okhttp3_11") {
            Some(Impersonate::OkHttp3_11)
        } else if is_either(s, "okhttp_3.13", "okhttp3_13") {
            Some(Impersonate::OkHttp3_13)
        } else if is_either(s, "okhttp_3.14", "okhttp3_14") {
            Some(Impersonate::OkHttp3_14)
        } else if is_either(s, "okhttp_4.9", "okhttp4_9") {
            Some(Impersonate::OkHttp4_9)
        } else if is_either(s, "okhttp_4.10", "okhttp4_10") {
            Some(Impersonate::OkHttp4_10)
        } else if is_either(s, "okhttp_5", "okhttp5") {
            Some(Impersonate::OkHttp5)
        } else if is_either(s, "edge_99", "edge99") {
            Some(Impersonate::Edge99)
        } else if is_either(s, "edge_101", "edge101") {
            Some(Impersonate::Edge101)
        } else if is_either(s, "edge_122", "edge122") {
            Some(Impersonate::Edge122)
        } else {
            None
        }
    }
}

impl std::str::FromStr for Impersonate {
    type Err = Error;

    /// Reads a target as `parse` does: from either of its spellings, and
    /// with `InvalidImpersonate` for any other string.
    fn from_str(s: &str) -> (r: Result<Impersonate, Error>)
        ensures
            r == parse_spec(s@),
    {
        Impersonate::parse(s)
    }
}

} // verus!
