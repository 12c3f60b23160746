//! The builds of Google Chrome: what each offers in TLS, announces in HTTP/2 and
//! sends as default headers. Asked about a target of another family, the
//! functions here answer as for chrome_126.

use vstd::prelude::*;
use http::{HeaderMap, HeaderValue};
use crate::catalog::lists::{
    chromium_ciphers,
    chromium_ciphers_list,
    chromium_ech_order,
    chromium_ech_order_list,
    chromium_order,
    chromium_order_list,
    chromium_sigalgs,
    chromium_sigalgs_list,
    lemma_chromium_ech_order,
    lemma_chromium_order,
};
use crate::catalog::names::{
    ACCEPT,
    ACCEPT_ENCODING,
    ACCEPT_LANGUAGE,
    ACCEPT_NAVIGATION_B3_Q7,
    ACCEPT_NAVIGATION_B3_Q9,
    ENCODING_GZIP_DEFLATE_BR,
    ENCODING_GZIP_DEFLATE_BR_ZSTD,
    FETCH_DEST_DOCUMENT,
    FETCH_MODE_NAVIGATE,
    FETCH_SITE_NONE,
    FETCH_USER_YES,
    LANG_EN_US,
    MARK_CHROME,
    NOT_MOBILE,
    PLATFORM_WINDOWS,
    SEC_CH_UA,
    SEC_CH_UA_MOBILE,
    SEC_CH_UA_PLATFORM,
    SEC_FETCH_DEST,
    SEC_FETCH_MODE,
    SEC_FETCH_SITE,
    SEC_FETCH_USER,
    UPGRADE_INSECURE_REQUESTS,
    UPGRADE_YES,
    USER_AGENT,
    lemma_header_names,
    lemma_shared_values,
    name_key,
};
use crate::catalog::ImpersonateSettings;
use crate::headers::{
    ascii_bytes, distinct_names, has_name, header_entries, insert_all, merge, room_for,
    static_pairs, valid_name, valid_value,
};
use crate::http2::Http2Data;
use crate::identity::Impersonate;
use crate::text::{mentions, occurs_at, texts};
use crate::tls::{
    tls_ok, AlpnProtocol, CertCompression, SslCurve, TlsProfile, TlsSettings, TlsVersion,
};

verus! {

/// User-Agent of chrome_99.
pub const UA_99: &'static str = "Mozilla/5.0 (Windows NT 10.0; Win64; x64) AppleWebKit/537.36 (KHTML, like Gecko) Chrome/99.0.4844.51 Safari/537.36";

/// How the User-Agent of chrome_99 names its version.
pub const TOKEN_99: &'static str = "Chrome/99";

/// sec-ch-ua of chrome_99.
pub const BRANDS_99: &'static str = "\" Not A;Brand\";v=\"99\", \"Chromium\";v=\"99\", \"Google Chrome\";v=\"99\"";

/// User-Agent of chrome_100.
pub const UA_100: &'static str = "Mozilla/5.0 (Windows NT 10.0; Win64; x64) AppleWebKit/537.36 (KHTML, like Gecko) Chrome/100.0.4896.75 Safari/537.36";

/// How the User-Agent of chrome_100 names its version.
pub const TOKEN_100: &'static str = "Chrome/100";

/// sec-ch-ua of chrome_100.
pub const BRANDS_100: &'static str = "\" Not A;Brand\";v=\"99\", \"Chromium\";v=\"100\", \"Google Chrome\";v=\"100\"";

/// User-Agent of chrome_101.
pub const UA_101: &'static str = "Mozilla/5.0 (Windows NT 10.0; Win64; x64) AppleWebKit/537.36 (KHTML, like Gecko) Chrome/101.0.0.0 Safari/537.36";

/// How the User-Agent of chrome_101 names its version.
pub const TOKEN_101: &'static str = "Chrome/101";

/// sec-ch-ua of chrome_101.
pub const BRANDS_101: &'static str = "\" Not A;Brand\";v=\"99\", \"Chromium\";v=\"101\", \"Google Chrome\";v=\"101\"";

/// User-Agent of chrome_104.
pub const UA_104: &'static str = "Mozilla/5.0 (Windows NT 10.0; Win64; x64) AppleWebKit/537.36 (KHTML, like Gecko) Chrome/104.0.0.0 Safari/537.36";

/// How the User-Agent of chrome_104 names its version.
pub const TOKEN_104: &'static str = "Chrome/104";

/// sec-ch-ua of chrome_104.
pub const BRANDS_104: &'static str = "\"Chromium\";v=\"104\", \" Not A;Brand\";v=\"99\", \"Google Chrome\";v=\"104\"";

/// User-Agent of chrome_105.
pub const UA_105: &'static str = "Mozilla/5.0 (Windows NT 10.0; Win64; x64) AppleWebKit/537.36 (KHTML, like Gecko) Chrome/105.0.0.0 Safari/537.36";

/// How the User-Agent of chrome_105 names its version.
pub const TOKEN_105: &'static str = "Chrome/105";

/// sec-ch-ua of chrome_105.
pub const BRANDS_105: &'static str = "\"Google Chrome\";v=\"105\", \"Not)A;Brand\";v=\"8\", \"Chromium\";v=\"105\"";

/// User-Agent of chrome_106.
pub const UA_106: &'static str = "Mozilla/5.0 (Windows NT 10.0; Win64; x64) AppleWebKit/537.36 (KHTML, like Gecko) Chrome/106.0.0.0 Safari/537.36";

/// How the User-Agent of chrome_106 names its version.
pub const TOKEN_106: &'static str = "Chrome/106";

/// sec-ch-ua of chrome_106.
pub const BRANDS_106: &'static str = "\"Chromium\";v=\"106\", \"Google Chrome\";v=\"106\", \"Not;A=Brand\";v=\"99\"";

/// User-Agent of chrome_107.
pub const UA_107: &'static str = "Mozilla/5.0 (Windows NT 10.0; Win64; x64) AppleWebKit/537.36 (KHTML, like Gecko) Chrome/107.0.0.0 Safari/537.36";

/// How the User-Agent of chrome_107 names its version.
pub const TOKEN_107: &'static str = "Chrome/107";

/// sec-ch-ua of chrome_107.
pub const BRANDS_107: &'static str = "\"Google Chrome\";v=\"107\", \"Chromium\";v=\"107\", \"Not=A?Brand\";v=\"24\"";

/// User-Agent of chrome_108.
pub const UA_108: &'static str = "Mozilla/5.0 (Windows NT 10.0; Win64; x64) AppleWebKit/537.36 (KHTML, like Gecko) Chrome/108.0.0.0 Safari/537.36";

/// How the User-Agent of chrome_108 names its version.
pub const TOKEN_108: &'static str = "Chrome/108";

/// sec-ch-ua of chrome_108.
pub const BRANDS_108: &'static str = "\"Not?A_Brand\";v=\"8\", \"Chromium\";v=\"108\", \"Google Chrome\";v=\"108\"";

/// User-Agent of chrome_109.
pub const UA_109: &'static str = "Mozilla/5.0 (Windows NT 10.0; Win64; x64) AppleWebKit/537.36 (KHTML, like Gecko) Chrome/109.0.0.0 Safari/537.36";

/// How the User-Agent of chrome_109 names its version.
pub const TOKEN_109: &'static str = "Chrome/109";

/// sec-ch-ua of chrome_109.
pub const BRANDS_109: &'static str = "\"Not_A Brand\";v=\"99\", \"Google Chrome\";v=\"109\", \"Chromium\";v=\"109\"";

/// User-Agent of chrome_114.
pub const UA_114: &'static str = "Mozilla/5.0 (Windows NT 10.0; Win64; x64) AppleWebKit/537.36 (KHTML, like Gecko) Chrome/114.0.0.0 Safari/537.36";

/// How the User-Agent of chrome_114 names its version.
pub const TOKEN_114: &'static str = "Chrome/114";

/// sec-ch-ua of chrome_114.
pub const BRANDS_114: &'static str = "\"Not.A/Brand\";v=\"8\", \"Chromium\";v=\"114\", \"Google Chrome\";v=\"114\"";

/// User-Agent of chrome_116.
pub const UA_116: &'static str = "Mozilla/5.0 (Windows NT 10.0; Win64; x64) AppleWebKit/537.36 (KHTML, like Gecko) Chrome/116.0.0.0 Safari/537.36";

/// How the User-Agent of chrome_116 names its version.
pub const TOKEN_116: &'static str = "Chrome/116";

/// sec-ch-ua of chrome_116.
pub const BRANDS_116: &'static str = "\"Chromium\";v=\"116\", \"Not)A;Brand\";v=\"24\", \"Google Chrome\";v=\"116\"";

/// User-Agent of chrome_117.
pub const UA_117: &'static str = "Mozilla/5.0 (Windows NT 10.0; Win64; x64) AppleWebKit/537.36 (KHTML, like Gecko) Chrome/117.0.0.0 Safari/537.36";

/// How the User-Agent of chrome_117 names its version.
pub const TOKEN_117: &'static str = "Chrome/117";

/// sec-ch-ua of chrome_117.
pub const BRANDS_117: &'static str = "\"Google Chrome\";v=\"117\", \"Not;A=Brand\";v=\"8\", \"Chromium\";v=\"117\"";

/// User-Agent of chrome_118.
pub const UA_118: &'static str = "Mozilla/5.0 (Windows NT 10.0; Win64; x64) AppleWebKit/537.36 (KHTML, like Gecko) Chrome/118.0.0.0 Safari/537.36";

/// How the User-Agent of chrome_118 names its version.
pub const TOKEN_118: &'static str = "Chrome/118";

/// sec-ch-ua of chrome_118.
pub const BRANDS_118: &'static str = "\"Chromium\";v=\"118\", \"Google Chrome\";v=\"118\", \"Not=A?Brand\";v=\"99\"";

/// User-Agent of chrome_119.
pub const UA_119: &'static str = "Mozilla/5.0 (Windows NT 10.0; Win64; x64) AppleWebKit/537.36 (KHTML, like Gecko) Chrome/119.0.0.0 Safari/537.36";

/// How the User-Agent of chrome_119 names its version.
pub const TOKEN_119: &'static str = "Chrome/119";

/// sec-ch-ua of chrome_119.
pub const BRANDS_119: &'static str = "\"Google Chrome\";v=\"119\", \"Chromium\";v=\"119\", \"Not?A_Brand\";v=\"24\"";

/// User-Agent of chrome_120.
pub const UA_120: &'static str = "Mozilla/5.0 (Windows NT 10.0; Win64; x64) AppleWebKit/537.36 (KHTML, like Gecko) Chrome/120.0.0.0 Safari/537.36";

/// How the User-Agent of chrome_120 names its version.
pub const TOKEN_120: &'static str = "Chrome/120";

/// sec-ch-ua of chrome_120.
pub const BRANDS_120: &'static str = "\"Not_A Brand\";v=\"8\", \"Chromium\";v=\"120\", \"Google Chrome\";v=\"120\"";

/// User-Agent of chrome_123.
pub const UA_123: &'static str = "Mozilla/5.0 (Windows NT 10.0; Win64; x64) AppleWebKit/537.36 (KHTML, like Gecko) Chrome/123.0.0.0 Safari/537.36";

/// How the User-Agent of chrome_123 names its version.
pub const TOKEN_123: &'static str = "Chrome/123";

/// sec-ch-ua of chrome_123.
pub const BRANDS_123: &'static str = "\"Google Chrome\";v=\"123\", \"Not:A-Brand\";v=\"8\", \"Chromium\";v=\"123\"";

/// User-Agent of chrome_124.
pub const UA_124: &'static str = "Mozilla/5.0 (Windows NT 10.0; Win64; x64) AppleWebKit/537.36 (KHTML, like Gecko) Chrome/124.0.0.0 Safari/537.36";

/// How the User-Agent of chrome_124 names its version.
pub const TOKEN_124: &'static str = "Chrome/124";

/// sec-ch-ua of chrome_124.
pub const BRANDS_124: &'static str = "\"Chromium\";v=\"124\", \"Google Chrome\";v=\"124\", \"Not-A.Brand\";v=\"99\"";

/// User-Agent of chrome_126.
pub const UA_126: &'static str = "Mozilla/5.0 (Windows NT 10.0; Win64; x64) AppleWebKit/537.36 (KHTML, like Gecko) Chrome/126.0.0.0 Safari/537.36";

/// How the User-Agent of chrome_126 names its version.
pub const TOKEN_126: &'static str = "Chrome/126";

/// sec-ch-ua of chrome_126.
pub const BRANDS_126: &'static str = "\"Not/A)Brand\";v=\"8\", \"Chromium\";v=\"126\", \"Google Chrome\";v=\"126\"";

/// The User-Agent that a build sends.
pub open spec fn user_agent(v: Impersonate) -> &'static str {
    match v {
        Impersonate::Chrome99 => UA_99,
        Impersonate::Chrome100 => UA_100,
        Impersonate::Chrome101 => UA_101,
        Impersonate::Chrome104 => UA_104,
        Impersonate::Chrome105 => UA_105,
        Impersonate::Chrome106 => UA_106,
        Impersonate::Chrome107 => UA_107,
        Impersonate::Chrome108 => UA_108,
        Impersonate::Chrome109 => UA_109,
        Impersonate::Chrome114 => UA_114,
        Impersonate::Chrome116 => UA_116,
        Impersonate::Chrome117 => UA_117,
        Impersonate::Chrome118 => UA_118,
        Impersonate::Chrome119 => UA_119,
        Impersonate::Chrome120 => UA_120,
        Impersonate::Chrome123 => UA_123,
        Impersonate::Chrome124 => UA_124,
        _ => UA_126,
    }
}

/// The User-Agent that a build sends.
fn user_agent_of(v: Impersonate) -> (r: &'static str)
    ensures
        r == user_agent(v),
{
    match v {
        Impersonate::Chrome99 => UA_99,
        Impersonate::Chrome100 => UA_100,
        Impersonate::Chrome101 => UA_101,
        Impersonate::Chrome104 => UA_104,
        Impersonate::Chrome105 => UA_105,
        Impersonate::Chrome106 => UA_106,
        Impersonate::Chrome107 => UA_107,
        Impersonate::Chrome108 => UA_108,
        Impersonate::Chrome109 => UA_109,
        Impersonate::Chrome114 => UA_114,
        Impersonate::Chrome116 => UA_116,
        Impersonate::Chrome117 => UA_117,
        Impersonate::Chrome118 => UA_118,
        Impersonate::Chrome119 => UA_119,
        Impersonate::Chrome120 => UA_120,
        Impersonate::Chrome123 => UA_123,
        Impersonate::Chrome124 => UA_124,
        _ => UA_126,
    }
}

/// How the User-Agent of a build names its version.
pub open spec fn version_token(v: Impersonate) -> &'static str {
    match v {
        Impersonate::Chrome99 => TOKEN_99,
        Impersonate::Chrome100 => TOKEN_100,
        Impersonate::Chrome101 => TOKEN_101,
        Impersonate::Chrome104 => TOKEN_104,
        Impersonate::Chrome105 => TOKEN_105,
        Impersonate::Chrome106 => TOKEN_106,
        Impersonate::Chrome107 => TOKEN_107,
        Impersonate::Chrome108 => TOKEN_108,
        Impersonate::Chrome109 => TOKEN_109,
        Impersonate::Chrome114 => TOKEN_114,
        Impersonate::Chrome116 => TOKEN_116,
        Impersonate::Chrome117 => TOKEN_117,
        Impersonate::Chrome118 => TOKEN_118,
        Impersonate::Chrome119 => TOKEN_119,
        Impersonate::Chrome120 => TOKEN_120,
        Impersonate::Chrome123 => TOKEN_123,
        Impersonate::Chrome124 => TOKEN_124,
        _ => TOKEN_126,
    }
}

/// The sec-ch-ua that a build sends.
pub open spec fn brands(v: Impersonate) -> &'static str {
    match v {
        Impersonate::Chrome99 => BRANDS_99,
        Impersonate::Chrome100 => BRANDS_100,
        Impersonate::Chrome101 => BRANDS_101,
        Impersonate::Chrome104 => BRANDS_104,
        Impersonate::Chrome105 => BRANDS_105,
        Impersonate::Chrome106 => BRANDS_106,
        Impersonate::Chrome107 => BRANDS_107,
        Impersonate::Chrome108 => BRANDS_108,
        Impersonate::Chrome109 => BRANDS_109,
        Impersonate::Chrome114 => BRANDS_114,
        Impersonate::Chrome116 => BRANDS_116,
        Impersonate::Chrome117 => BRANDS_117,
        Impersonate::Chrome118 => BRANDS_118,
        Impersonate::Chrome119 => BRANDS_119,
        Impersonate::Chrome120 => BRANDS_120,
        Impersonate::Chrome123 => BRANDS_123,
        Impersonate::Chrome124 => BRANDS_124,
        _ => BRANDS_126,
    }
}

/// The sec-ch-ua that a build sends.
fn brands_of(v: Impersonate) -> (r: &'static str)
    ensures
        r == brands(v),
{
    match v {
        Impersonate::Chrome99 => BRANDS_99,
        Impersonate::Chrome100 => BRANDS_100,
        Impersonate::Chrome101 => BRANDS_101,
        Impersonate::Chrome104 => BRANDS_104,
        Impersonate::Chrome105 => BRANDS_105,
        Impersonate::Chrome106 => BRANDS_106,
        Impersonate::Chrome107 => BRANDS_107,
        Impersonate::Chrome108 => BRANDS_108,
        Impersonate::Chrome109 => BRANDS_109,
        Impersonate::Chrome114 => BRANDS_114,
        Impersonate::Chrome116 => BRANDS_116,
        Impersonate::Chrome117 => BRANDS_117,
        Impersonate::Chrome118 => BRANDS_118,
        Impersonate::Chrome119 => BRANDS_119,
        Impersonate::Chrome120 => BRANDS_120,
        Impersonate::Chrome123 => BRANDS_123,
        Impersonate::Chrome124 => BRANDS_124,
        _ => BRANDS_126,
    }
}

/// The Accept that a build sends.
pub open spec fn accept(v: Impersonate) -> &'static str {
    match v {
        Impersonate::Chrome99
        | Impersonate::Chrome100
        | Impersonate::Chrome101
        | Impersonate::Chrome104
        | Impersonate::Chrome105
        | Impersonate::Chrome106
        | Impersonate::Chrome107
        | Impersonate::Chrome108
        | Impersonate::Chrome109 => ACCEPT_NAVIGATION_B3_Q9,
        _ => ACCEPT_NAVIGATION_B3_Q7,
    }
}

/// The Accept that a build sends.
fn accept_of(v: Impersonate) -> (r: &'static str)
    ensures
        r == accept(v),
{
    match v {
        Impersonate::Chrome99
        | Impersonate::Chrome100
        | Impersonate::Chrome101
        | Impersonate::Chrome104
        | Impersonate::Chrome105
        | Impersonate::Chrome106
        | Impersonate::Chrome107
        | Impersonate::Chrome108
        | Impersonate::Chrome109 => ACCEPT_NAVIGATION_B3_Q9,
        _ => ACCEPT_NAVIGATION_B3_Q7,
    }
}

/// The Accept-Encoding that a build sends.
pub open spec fn accept_encoding(v: Impersonate) -> &'static str {
    match v {
        Impersonate::Chrome99
        | Impersonate::Chrome100
        | Impersonate::Chrome101
        | Impersonate::Chrome104
        | Impersonate::Chrome105
        | Impersonate::Chrome106
        | Impersonate::Chrome107
        | Impersonate::Chrome108
        | Impersonate::Chrome109
        | Impersonate::Chrome114
        | Impersonate::Chrome116
        | Impersonate::Chrome117
        | Impersonate::Chrome118
        | Impersonate::Chrome119
        | Impersonate::Chrome120 => ENCODING_GZIP_DEFLATE_BR,
        _ => ENCODING_GZIP_DEFLATE_BR_ZSTD,
    }
}

/// The Accept-Encoding that a build sends.
fn accept_encoding_of(v: Impersonate) -> (r: &'static str)
    ensures
        r == accept_encoding(v),
{
    match v {
        Impersonate::Chrome99
        | Impersonate::Chrome100
        | Impersonate::Chrome101
        | Impersonate::Chrome104
        | Impersonate::Chrome105
        | Impersonate::Chrome106
        | Impersonate::Chrome107
        | Impersonate::Chrome108
        | Impersonate::Chrome109
        | Impersonate::Chrome114
        | Impersonate::Chrome116
        | Impersonate::Chrome117
        | Impersonate::Chrome118
        | Impersonate::Chrome119
        | Impersonate::Chrome120 => ENCODING_GZIP_DEFLATE_BR,
        _ => ENCODING_GZIP_DEFLATE_BR_ZSTD,
    }
}

/// The Accept-Language that a build sends.
pub open spec fn accept_language(v: Impersonate) -> &'static str {
    LANG_EN_US
}

/// The Accept-Language that a build sends.
fn accept_language_of(v: Impersonate) -> (r: &'static str)
    ensures
        r == accept_language(v),
{
    LANG_EN_US
}

/// The cipher suites that a build offers, in its order.
pub open spec fn cipher_suites(v: Impersonate) -> Seq<&'static str> {
    chromium_ciphers()
}

/// The cipher suites that a build offers, in its order.
fn cipher_suites_of(v: Impersonate) -> (r: Vec<&'static str>)
    ensures
        r@ == cipher_suites(v),
{
    chromium_ciphers_list()
}

/// The signature schemes that a build offers, in its order.
pub open spec fn sigalgs(v: Impersonate) -> Seq<&'static str> {
    chromium_sigalgs()
}

/// The signature schemes that a build offers, in its order.
fn sigalgs_of(v: Impersonate) -> (r: Vec<&'static str>)
    ensures
        r@ == sigalgs(v),
{
    chromium_sigalgs_list()
}

/// The groups that a build offers, in its order.
pub open spec fn curves(v: Impersonate) -> Seq<SslCurve> {
    match v {
        Impersonate::Chrome99
        | Impersonate::Chrome100
        | Impersonate::Chrome101
        | Impersonate::Chrome104
        | Impersonate::Chrome105
        | Impersonate::Chrome106
        | Impersonate::Chrome107
        | Impersonate::Chrome108
        | Impersonate::Chrome109
        | Impersonate::Chrome114
        | Impersonate::Chrome116
        | Impersonate::Chrome117
        | Impersonate::Chrome118
        | Impersonate::Chrome119
        | Impersonate::Chrome120
        | Impersonate::Chrome123 => seq![SslCurve::X25519, SslCurve::Secp256r1, SslCurve::Secp384r1],
        _ => seq![
            SslCurve::X25519Kyber768Draft00,
            SslCurve::X25519,
            SslCurve::Secp256r1,
            SslCurve::Secp384r1,
        ],
    }
}

/// The groups that a build offers, in its order.
fn curves_of(v: Impersonate) -> (r: Vec<SslCurve>)
    ensures
        r@ == curves(v),
{
    match v {
        Impersonate::Chrome99
        | Impersonate::Chrome100
        | Impersonate::Chrome101
        | Impersonate::Chrome104
        | Impersonate::Chrome105
        | Impersonate::Chrome106
        | Impersonate::Chrome107
        | Impersonate::Chrome108
        | Impersonate::Chrome109
        | Impersonate::Chrome114
        | Impersonate::Chrome116
        | Impersonate::Chrome117
        | Impersonate::Chrome118
        | Impersonate::Chrome119
        | Impersonate::Chrome120
        | Impersonate::Chrome123 => vec![SslCurve::X25519, SslCurve::Secp256r1, SslCurve::Secp384r1],
        _ => vec![
            SslCurve::X25519Kyber768Draft00,
            SslCurve::X25519,
            SslCurve::Secp256r1,
            SslCurve::Secp384r1,
        ],
    }
}

/// The extensions of a build in the order of its ClientHello.
pub open spec fn extensions_order(v: Impersonate) -> Seq<u16> {
    match v {
        Impersonate::Chrome99
        | Impersonate::Chrome100
        | Impersonate::Chrome101
        | Impersonate::Chrome104
        | Impersonate::Chrome105
        | Impersonate::Chrome106
        | Impersonate::Chrome107
        | Impersonate::Chrome108
        | Impersonate::Chrome109
        | Impersonate::Chrome114
        | Impersonate::Chrome116 => chromium_order(),
        _ => chromium_ech_order(),
    }
}

/// The extensions of a build in the order of its ClientHello.
fn extensions_order_of(v: Impersonate) -> (r: Vec<u16>)
    ensures
        r@ == extensions_order(v),
{
    match v {
        Impersonate::Chrome99
        | Impersonate::Chrome100
        | Impersonate::Chrome101
        | Impersonate::Chrome104
        | Impersonate::Chrome105
        | Impersonate::Chrome106
        | Impersonate::Chrome107
        | Impersonate::Chrome108
        | Impersonate::Chrome109
        | Impersonate::Chrome114
        | Impersonate::Chrome116 => chromium_order_list(),
        _ => chromium_ech_order_list(),
    }
}

/// The certificate-compression algorithms that a build advertises.
pub open spec fn cert_compression(v: Impersonate) -> Seq<CertCompression> {
    seq![CertCompression::Brotli]
}

/// The certificate-compression algorithms that a build advertises.
fn cert_compression_of(v: Impersonate) -> (r: Vec<CertCompression>)
    ensures
        r@ == cert_compression(v),
{
    vec![CertCompression::Brotli]
}

/// Whether a build shuffles its extensions.
pub open spec fn permutes(v: Impersonate) -> bool {
    match v {
        Impersonate::Chrome99
        | Impersonate::Chrome100
        | Impersonate::Chrome101
        | Impersonate::Chrome104
        | Impersonate::Chrome105
        | Impersonate::Chrome106
        | Impersonate::Chrome107
        | Impersonate::Chrome108
        | Impersonate::Chrome109 => false,
        _ => true,
    }
}

/// Whether a build shuffles its extensions.
fn permutes_of(v: Impersonate) -> (r: bool)
    ensures
        r == permutes(v),
{
    match v {
        Impersonate::Chrome99
        | Impersonate::Chrome100
        | Impersonate::Chrome101
        | Impersonate::Chrome104
        | Impersonate::Chrome105
        | Impersonate::Chrome106
        | Impersonate::Chrome107
        | Impersonate::Chrome108
        | Impersonate::Chrome109 => false,
        _ => true,
    }
}

/// Whether a build sends GREASE encrypted ClientHello.
pub open spec fn sends_ech(v: Impersonate) -> bool {
    match v {
        Impersonate::Chrome99
        | Impersonate::Chrome100
        | Impersonate::Chrome101
        | Impersonate::Chrome104
        | Impersonate::Chrome105
        | Impersonate::Chrome106
        | Impersonate::Chrome107
        | Impersonate::Chrome108
        | Impersonate::Chrome109
        | Impersonate::Chrome114
        | Impersonate::Chrome116 => false,
        _ => true,
    }
}

/// Whether a build sends GREASE encrypted ClientHello.
fn sends_ech_of(v: Impersonate) -> (r: bool)
    ensures
        r == sends_ech(v),
{
    match v {
        Impersonate::Chrome99
        | Impersonate::Chrome100
        | Impersonate::Chrome101
        | Impersonate::Chrome104
        | Impersonate::Chrome105
        | Impersonate::Chrome106
        | Impersonate::Chrome107
        | Impersonate::Chrome108
        | Impersonate::Chrome109
        | Impersonate::Chrome114
        | Impersonate::Chrome116 => false,
        _ => true,
    }
}

/// Whether a build pads its ClientHello.
pub open spec fn pads(v: Impersonate) -> bool {
    match v {
        Impersonate::Chrome99
        | Impersonate::Chrome100
        | Impersonate::Chrome101
        | Impersonate::Chrome104
        | Impersonate::Chrome105
        | Impersonate::Chrome106
        | Impersonate::Chrome107
        | Impersonate::Chrome108
        | Impersonate::Chrome109
        | Impersonate::Chrome114
        | Impersonate::Chrome116 => true,
        _ => false,
    }
}

/// Whether a build pads its ClientHello.
fn pads_of(v: Impersonate) -> (r: bool)
    ensures
        r == pads(v),
{
    match v {
        Impersonate::Chrome99
        | Impersonate::Chrome100
        | Impersonate::Chrome101
        | Impersonate::Chrome104
        | Impersonate::Chrome105
        | Impersonate::Chrome106
        | Impersonate::Chrome107
        | Impersonate::Chrome108
        | Impersonate::Chrome109
        | Impersonate::Chrome114
        | Impersonate::Chrome116 => true,
        _ => false,
    }
}

/// Whether a build takes Zstandard bodies.
pub open spec fn offers_zstd(v: Impersonate) -> bool {
    match v {
        Impersonate::Chrome99
        | Impersonate::Chrome100
        | Impersonate::Chrome101
        | Impersonate::Chrome104
        | Impersonate::Chrome105
        | Impersonate::Chrome106
        | Impersonate::Chrome107
        | Impersonate::Chrome108
        | Impersonate::Chrome109
        | Impersonate::Chrome114
        | Impersonate::Chrome116
        | Impersonate::Chrome117
        | Impersonate::Chrome118
        | Impersonate::Chrome119
        | Impersonate::Chrome120 => false,
        _ => true,
    }
}

/// Whether a build takes Zstandard bodies.
fn offers_zstd_of(v: Impersonate) -> (r: bool)
    ensures
        r == offers_zstd(v),
{
    match v {
        Impersonate::Chrome99
        | Impersonate::Chrome100
        | Impersonate::Chrome101
        | Impersonate::Chrome104
        | Impersonate::Chrome105
        | Impersonate::Chrome106
        | Impersonate::Chrome107
        | Impersonate::Chrome108
        | Impersonate::Chrome109
        | Impersonate::Chrome114
        | Impersonate::Chrome116
        | Impersonate::Chrome117
        | Impersonate::Chrome118
        | Impersonate::Chrome119
        | Impersonate::Chrome120 => false,
        _ => true,
    }
}

/// Whether a build takes Brotli and deflate bodies.
pub open spec fn offers_brotli(v: Impersonate) -> bool {
    true
}

/// Whether a build takes Brotli and deflate bodies.
fn offers_brotli_of(v: Impersonate) -> (r: bool)
    ensures
        r == offers_brotli(v),
{
    true
}

/// The HTTP/2 parameters of a build.
pub open spec fn http2(v: Impersonate) -> Http2Data {
    match v {
        Impersonate::Chrome99
        | Impersonate::Chrome100
        | Impersonate::Chrome101
        | Impersonate::Chrome104
        | Impersonate::Chrome105
        | Impersonate::Chrome106
        | Impersonate::Chrome107
        | Impersonate::Chrome108
        | Impersonate::Chrome109
        | Impersonate::Chrome114
        | Impersonate::Chrome116 => Http2Data {
            initial_stream_window_size: Some(6291456u32),
            initial_connection_window_size: Some(15728640u32),
            max_concurrent_streams: Some(1000u32),
            max_header_list_size: Some(262144u32),
            header_table_size: Some(65536u32),
            enable_push: None,
        },
        _ => Http2Data {
            initial_stream_window_size: Some(6291456u32),
            initial_connection_window_size: Some(15728640u32),
            max_concurrent_streams: None,
            max_header_list_size: Some(262144u32),
            header_table_size: Some(65536u32),
            enable_push: Some(false),
        },
    }
}

/// The HTTP/2 parameters of a build.
fn http2_of(v: Impersonate) -> (r: Http2Data)
    ensures
        r == http2(v),
{
    match v {
        Impersonate::Chrome99
        | Impersonate::Chrome100
        | Impersonate::Chrome101
        | Impersonate::Chrome104
        | Impersonate::Chrome105
        | Impersonate::Chrome106
        | Impersonate::Chrome107
        | Impersonate::Chrome108
        | Impersonate::Chrome109
        | Impersonate::Chrome114
        | Impersonate::Chrome116 => Http2Data {
            initial_stream_window_size: Some(6291456u32),
            initial_connection_window_size: Some(15728640u32),
            max_concurrent_streams: Some(1000u32),
            max_header_list_size: Some(262144u32),
            header_table_size: Some(65536u32),
            enable_push: None,
        },
        _ => Http2Data {
            initial_stream_window_size: Some(6291456u32),
            initial_connection_window_size: Some(15728640u32),
            max_concurrent_streams: None,
            max_header_list_size: Some(262144u32),
            header_table_size: Some(65536u32),
            enable_push: Some(false),
        },
    }
}

/// The TLS parameters of a build.
pub open spec fn tls(v: Impersonate) -> TlsProfile {
    TlsProfile {
        cipher_suites: texts(cipher_suites(v)),
        curves: curves(v),
        sigalgs: texts(sigalgs(v)),
        alpn: seq![AlpnProtocol::Http2, AlpnProtocol::Http1],
        min_version: TlsVersion::Tls1_2,
        max_version: TlsVersion::Tls1_3,
        extensions_order: extensions_order(v),
        permute_extensions: permutes(v),
        ech_grease: sends_ech(v),
        grease: true,
        ocsp_stapling: true,
        session_tickets: true,
        pre_shared_key: true,
        cert_compression: cert_compression(v),
        record_size_limit: None,
        padding: pads(v),
    }
}

/// The default headers of a build, in the order in which it sends them.
pub open spec fn header_list(v: Impersonate) -> Seq<(&'static str, &'static str)> {
    seq![
        (SEC_CH_UA, brands(v)),
        (SEC_CH_UA_MOBILE, NOT_MOBILE),
        (SEC_CH_UA_PLATFORM, PLATFORM_WINDOWS),
        (UPGRADE_INSECURE_REQUESTS, UPGRADE_YES),
        (USER_AGENT, user_agent(v)),
        (ACCEPT, accept(v)),
        (SEC_FETCH_SITE, FETCH_SITE_NONE),
        (SEC_FETCH_MODE, FETCH_MODE_NAVIGATE),
        (SEC_FETCH_USER, FETCH_USER_YES),
        (SEC_FETCH_DEST, FETCH_DEST_DOCUMENT),
        (ACCEPT_ENCODING, accept_encoding(v)),
        (ACCEPT_LANGUAGE, accept_language(v)),
    ]
}

proof fn lemma_values_99()
    ensures
        valid_value(UA_99@),
        valid_value(BRANDS_99@),
        occurs_at(UA_99@, TOKEN_99@, 81),
        occurs_at(UA_99@, MARK_CHROME@, 81),
{
    reveal_strlit("Mozilla/5.0 (Windows NT 10.0; Win64; x64) AppleWebKit/537.36 (KHTML, like Gecko) Chrome/99.0.4844.51 Safari/537.36");
    reveal_strlit("Chrome/99");
    reveal_strlit("Chrome/");
    reveal_strlit("\" Not A;Brand\";v=\"99\", \"Chromium\";v=\"99\", \"Google Chrome\";v=\"99\"");
    assert(UA_99@.subrange(81, 90) =~= TOKEN_99@);
    assert(UA_99@.subrange(81, 88) =~= MARK_CHROME@);
}

proof fn lemma_values_100()
    ensures
        valid_value(UA_100@),
        valid_value(BRANDS_100@),
        occurs_at(UA_100@, TOKEN_100@, 81),
        occurs_at(UA_100@, MARK_CHROME@, 81),
{
    reveal_strlit("Mozilla/5.0 (Windows NT 10.0; Win64; x64) AppleWebKit/537.36 (KHTML, like Gecko) Chrome/100.0.4896.75 Safari/537.36");
    reveal_strlit("Chrome/100");
    reveal_strlit("Chrome/");
    reveal_strlit("\" Not A;Brand\";v=\"99\", \"Chromium\";v=\"100\", \"Google Chrome\";v=\"100\"");
    assert(UA_100@.subrange(81, 91) =~= TOKEN_100@);
    assert(UA_100@.subrange(81, 88) =~= MARK_CHROME@);
}

proof fn lemma_values_101()
    ensures
        valid_value(UA_101@),
        valid_value(BRANDS_101@),
        occurs_at(UA_101@, TOKEN_101@, 81),
        occurs_at(UA_101@, MARK_CHROME@, 81),
{
    reveal_strlit("Mozilla/5.0 (Windows NT 10.0; Win64; x64) AppleWebKit/537.36 (KHTML, like Gecko) Chrome/101.0.0.0 Safari/537.36");
    reveal_strlit("Chrome/101");
    reveal_strlit("Chrome/");
    reveal_strlit("\" Not A;Brand\";v=\"99\", \"Chromium\";v=\"101\", \"Google Chrome\";v=\"101\"");
    assert(UA_101@.subrange(81, 91) =~= TOKEN_101@);
    assert(UA_101@.subrange(81, 88) =~= MARK_CHROME@);
}

proof fn lemma_values_104()
    ensures
        valid_value(UA_104@),
        valid_value(BRANDS_104@),
        occurs_at(UA_104@, TOKEN_104@, 81),
        occurs_at(UA_104@, MARK_CHROME@, 81),
{
    reveal_strlit("Mozilla/5.0 (Windows NT 10.0; Win64; x64) AppleWebKit/537.36 (KHTML, like Gecko) Chrome/104.0.0.0 Safari/537.36");
    reveal_strlit("Chrome/104");
    reveal_strlit("Chrome/");
    reveal_strlit("\"Chromium\";v=\"104\", \" Not A;Brand\";v=\"99\", \"Google Chrome\";v=\"104\"");
    assert(UA_104@.subrange(81, 91) =~= TOKEN_104@);
    assert(UA_104@.subrange(81, 88) =~= MARK_CHROME@);
}

proof fn lemma_values_105()
    ensures
        valid_value(UA_105@),
        valid_value(BRANDS_105@),
        occurs_at(UA_105@, TOKEN_105@, 81),
        occurs_at(UA_105@, MARK_CHROME@, 81),
{
    reveal_strlit("Mozilla/5.0 (Windows NT 10.0; Win64; x64) AppleWebKit/537.36 (KHTML, like Gecko) Chrome/105.0.0.0 Safari/537.36");
    reveal_strlit("Chrome/105");
    reveal_strlit("Chrome/");
    reveal_strlit("\"Google Chrome\";v=\"105\", \"Not)A;Brand\";v=\"8\", \"Chromium\";v=\"105\"");
    assert(UA_105@.subrange(81, 91) =~= TOKEN_105@);
    assert(UA_105@.subrange(81, 88) =~= MARK_CHROME@);
}

proof fn lemma_values_106()
    ensures
        valid_value(UA_106@),
        valid_value(BRANDS_106@),
        occurs_at(UA_106@, TOKEN_106@, 81),
        occurs_at(UA_106@, MARK_CHROME@, 81),
{
    reveal_strlit("Mozilla/5.0 (Windows NT 10.0; Win64; x64) AppleWebKit/537.36 (KHTML, like Gecko) Chrome/106.0.0.0 Safari/537.36");
    reveal_strlit("Chrome/106");
    reveal_strlit("Chrome/");
    reveal_strlit("\"Chromium\";v=\"106\", \"Google Chrome\";v=\"106\", \"Not;A=Brand\";v=\"99\"");
    assert(UA_106@.subrange(81, 91) =~= TOKEN_106@);
    assert(UA_106@.subrange(81, 88) =~= MARK_CHROME@);
}

proof fn lemma_values_107()
    ensures
        valid_value(UA_107@),
        valid_value(BRANDS_107@),
        occurs_at(UA_107@, TOKEN_107@, 81),
        occurs_at(UA_107@, MARK_CHROME@, 81),
{
    reveal_strlit("Mozilla/5.0 (Windows NT 10.0; Win64; x64) AppleWebKit/537.36 (KHTML, like Gecko) Chrome/107.0.0.0 Safari/537.36");
    reveal_strlit("Chrome/107");
    reveal_strlit("Chrome/");
    reveal_strlit("\"Google Chrome\";v=\"107\", \"Chromium\";v=\"107\", \"Not=A?Brand\";v=\"24\"");
    assert(UA_107@.subrange(81, 91) =~= TOKEN_107@);
    assert(UA_107@.subrange(81, 88) =~= MARK_CHROME@);
}

proof fn lemma_values_108()
    ensures
        valid_value(UA_108@),
        valid_value(BRANDS_108@),
        occurs_at(UA_108@, TOKEN_108@, 81),
        occurs_at(UA_108@, MARK_CHROME@, 81),
{
    reveal_strlit("Mozilla/5.0 (Windows NT 10.0; Win64; x64) AppleWebKit/537.36 (KHTML, like Gecko) Chrome/108.0.0.0 Safari/537.36");
    reveal_strlit("Chrome/108");
    reveal_strlit("Chrome/");
    reveal_strlit("\"Not?A_Brand\";v=\"8\", \"Chromium\";v=\"108\", \"Google Chrome\";v=\"108\"");
    assert(UA_108@.subrange(81, 91) =~= TOKEN_108@);
    assert(UA_108@.subrange(81, 88) =~= MARK_CHROME@);
}

proof fn lemma_values_109()
    ensures
        valid_value(UA_109@),
        valid_value(BRANDS_109@),
        occurs_at(UA_109@, TOKEN_109@, 81),
        occurs_at(UA_109@, MARK_CHROME@, 81),
{
    reveal_strlit("Mozilla/5.0 (Windows NT 10.0; Win64; x64) AppleWebKit/537.36 (KHTML, like Gecko) Chrome/109.0.0.0 Safari/537.36");
    reveal_strlit("Chrome/109");
    reveal_strlit("Chrome/");
    reveal_strlit("\"Not_A Brand\";v=\"99\", \"Google Chrome\";v=\"109\", \"Chromium\";v=\"109\"");
    assert(UA_109@.subrange(81, 91) =~= TOKEN_109@);
    assert(UA_109@.subrange(81, 88) =~= MARK_CHROME@);
}

proof fn lemma_values_114()
    ensures
        valid_value(UA_114@),
        valid_value(BRANDS_114@),
        occurs_at(UA_114@, TOKEN_114@, 81),
        occurs_at(UA_114@, MARK_CHROME@, 81),
{
    reveal_strlit("Mozilla/5.0 (Windows NT 10.0; Win64; x64) AppleWebKit/537.36 (KHTML, like Gecko) Chrome/114.0.0.0 Safari/537.36");
    reveal_strlit("Chrome/114");
    reveal_strlit("Chrome/");
    reveal_strlit("\"Not.A/Brand\";v=\"8\", \"Chromium\";v=\"114\", \"Google Chrome\";v=\"114\"");
    assert(UA_114@.subrange(81, 91) =~= TOKEN_114@);
    assert(UA_114@.subrange(81, 88) =~= MARK_CHROME@);
}

proof fn lemma_values_116()
    ensures
        valid_value(UA_116@),
        valid_value(BRANDS_116@),
        occurs_at(UA_116@, TOKEN_116@, 81),
        occurs_at(UA_116@, MARK_CHROME@, 81),
{
    reveal_strlit("Mozilla/5.0 (Windows NT 10.0; Win64; x64) AppleWebKit/537.36 (KHTML, like Gecko) Chrome/116.0.0.0 Safari/537.36");
    reveal_strlit("Chrome/116");
    reveal_strlit("Chrome/");
    reveal_strlit("\"Chromium\";v=\"116\", \"Not)A;Brand\";v=\"24\", \"Google Chrome\";v=\"116\"");
    assert(UA_116@.subrange(81, 91) =~= TOKEN_116@);
    assert(UA_116@.subrange(81, 88) =~= MARK_CHROME@);
}

proof fn lemma_values_117()
    ensures
        valid_value(UA_117@),
        valid_value(BRANDS_117@),
        occurs_at(UA_117@, TOKEN_117@, 81),
        occurs_at(UA_117@, MARK_CHROME@, 81),
{
    reveal_strlit("Mozilla/5.0 (Windows NT 10.0; Win64; x64) AppleWebKit/537.36 (KHTML, like Gecko) Chrome/117.0.0.0 Safari/537.36");
    reveal_strlit("Chrome/117");
    reveal_strlit("Chrome/");
    reveal_strlit("\"Google Chrome\";v=\"117\", \"Not;A=Brand\";v=\"8\", \"Chromium\";v=\"117\"");
    assert(UA_117@.subrange(81, 91) =~= TOKEN_117@);
    assert(UA_117@.subrange(81, 88) =~= MARK_CHROME@);
}

proof fn lemma_values_118()
    ensures
        valid_value(UA_118@),
        valid_value(BRANDS_118@),
        occurs_at(UA_118@, TOKEN_118@, 81),
        occurs_at(UA_118@, MARK_CHROME@, 81),
{
    reveal_strlit("Mozilla/5.0 (Windows NT 10.0; Win64; x64) AppleWebKit/537.36 (KHTML, like Gecko) Chrome/118.0.0.0 Safari/537.36");
    reveal_strlit("Chrome/118");
    reveal_strlit("Chrome/");
    reveal_strlit("\"Chromium\";v=\"118\", \"Google Chrome\";v=\"118\", \"Not=A?Brand\";v=\"99\"");
    assert(UA_118@.subrange(81, 91) =~= TOKEN_118@);
    assert(UA_118@.subrange(81, 88) =~= MARK_CHROME@);
}

proof fn lemma_values_119()
    ensures
        valid_value(UA_119@),
        valid_value(BRANDS_119@),
        occurs_at(UA_119@, TOKEN_119@, 81),
        occurs_at(UA_119@, MARK_CHROME@, 81),
{
    reveal_strlit("Mozilla/5.0 (Windows NT 10.0; Win64; x64) AppleWebKit/537.36 (KHTML, like Gecko) Chrome/119.0.0.0 Safari/537.36");
    reveal_strlit("Chrome/119");
    reveal_strlit("Chrome/");
    reveal_strlit("\"Google Chrome\";v=\"119\", \"Chromium\";v=\"119\", \"Not?A_Brand\";v=\"24\"");
    assert(UA_119@.subrange(81, 91) =~= TOKEN_119@);
    assert(UA_119@.subrange(81, 88) =~= MARK_CHROME@);
}

proof fn lemma_values_120()
    ensures
        valid_value(UA_120@),
        valid_value(BRANDS_120@),
        occurs_at(UA_120@, TOKEN_120@, 81),
        occurs_at(UA_120@, MARK_CHROME@, 81),
{
    reveal_strlit("Mozilla/5.0 (Windows NT 10.0; Win64; x64) AppleWebKit/537.36 (KHTML, like Gecko) Chrome/120.0.0.0 Safari/537.36");
    reveal_strlit("Chrome/120");
    reveal_strlit("Chrome/");
    reveal_strlit("\"Not_A Brand\";v=\"8\", \"Chromium\";v=\"120\", \"Google Chrome\";v=\"120\"");
    assert(UA_120@.subrange(81, 91) =~= TOKEN_120@);
    assert(UA_120@.subrange(81, 88) =~= MARK_CHROME@);
}

proof fn lemma_values_123()
    ensures
        valid_value(UA_123@),
        valid_value(BRANDS_123@),
        occurs_at(UA_123@, TOKEN_123@, 81),
        occurs_at(UA_123@, MARK_CHROME@, 81),
{
    reveal_strlit("Mozilla/5.0 (Windows NT 10.0; Win64; x64) AppleWebKit/537.36 (KHTML, like Gecko) Chrome/123.0.0.0 Safari/537.36");
    reveal_strlit("Chrome/123");
    reveal_strlit("Chrome/");
    reveal_strlit("\"Google Chrome\";v=\"123\", \"Not:A-Brand\";v=\"8\", \"Chromium\";v=\"123\"");
    assert(UA_123@.subrange(81, 91) =~= TOKEN_123@);
    assert(UA_123@.subrange(81, 88) =~= MARK_CHROME@);
}

proof fn lemma_values_124()
    ensures
        valid_value(UA_124@),
        valid_value(BRANDS_124@),
        occurs_at(UA_124@, TOKEN_124@, 81),
        occurs_at(UA_124@, MARK_CHROME@, 81),
{
    reveal_strlit("Mozilla/5.0 (Windows NT 10.0; Win64; x64) AppleWebKit/537.36 (KHTML, like Gecko) Chrome/124.0.0.0 Safari/537.36");
    reveal_strlit("Chrome/124");
    reveal_strlit("Chrome/");
    reveal_strlit("\"Chromium\";v=\"124\", \"Google Chrome\";v=\"124\", \"Not-A.Brand\";v=\"99\"");
    assert(UA_124@.subrange(81, 91) =~= TOKEN_124@);
    assert(UA_124@.subrange(81, 88) =~= MARK_CHROME@);
}

proof fn lemma_values_126()
    ensures
        valid_value(UA_126@),
        valid_value(BRANDS_126@),
        occurs_at(UA_126@, TOKEN_126@, 81),
        occurs_at(UA_126@, MARK_CHROME@, 81),
{
    reveal_strlit("Mozilla/5.0 (Windows NT 10.0; Win64; x64) AppleWebKit/537.36 (KHTML, like Gecko) Chrome/126.0.0.0 Safari/537.36");
    reveal_strlit("Chrome/126");
    reveal_strlit("Chrome/");
    reveal_strlit("\"Not/A)Brand\";v=\"8\", \"Chromium\";v=\"126\", \"Google Chrome\";v=\"126\"");
    assert(UA_126@.subrange(81, 91) =~= TOKEN_126@);
    assert(UA_126@.subrange(81, 88) =~= MARK_CHROME@);
}

/// The User-Agent of a build is a well-formed header value that names
/// the product and the version of the build; so is its sec-ch-ua.
pub proof fn lemma_user_agent(v: Impersonate)
    ensures
        valid_value(user_agent(v)@),
        valid_value(brands(v)@),
        mentions(user_agent(v)@, version_token(v)@),
        mentions(user_agent(v)@, MARK_CHROME@),
{
    match v {
        Impersonate::Chrome99 => {
            lemma_values_99();
        },
        Impersonate::Chrome100 => {
            lemma_values_100();
        },
        Impersonate::Chrome101 => {
            lemma_values_101();
        },
        Impersonate::Chrome104 => {
            lemma_values_104();
        },
        Impersonate::Chrome105 => {
            lemma_values_105();
        },
        Impersonate::Chrome106 => {
            lemma_values_106();
        },
        Impersonate::Chrome107 => {
            lemma_values_107();
        },
        Impersonate::Chrome108 => {
            lemma_values_108();
        },
        Impersonate::Chrome109 => {
            lemma_values_109();
        },
        Impersonate::Chrome114 => {
            lemma_values_114();
        },
        Impersonate::Chrome116 => {
            lemma_values_116();
        },
        Impersonate::Chrome117 => {
            lemma_values_117();
        },
        Impersonate::Chrome118 => {
            lemma_values_118();
        },
        Impersonate::Chrome119 => {
            lemma_values_119();
        },
        Impersonate::Chrome120 => {
            lemma_values_120();
        },
        Impersonate::Chrome123 => {
            lemma_values_123();
        },
        Impersonate::Chrome124 => {
            lemma_values_124();
        },
        _ => {
            lemma_values_126();
        },
    }
}

/// The default headers of a build are well formed, each name occurs
/// once, and the User-Agent is among them.
pub proof fn lemma_headers(v: Impersonate)
    ensures
        header_list(v).len() == 12,
        forall|i: int|
            0 <= i < header_list(v).len() ==> valid_name((#[trigger] header_list(v)[i]).0@)
                && valid_value(header_list(v)[i].1@),
        distinct_names(static_pairs(header_list(v))),
        static_pairs(header_list(v))[4] == (USER_AGENT@, ascii_bytes(user_agent(v)@)),
        has_name(static_pairs(header_list(v)), USER_AGENT@),
{
    lemma_header_names();
    lemma_shared_values();
    lemma_user_agent(v);
    let list = header_list(v);
    let pairs = static_pairs(list);
    assert(pairs[0].0 == SEC_CH_UA@);
    assert(pairs[1].0 == SEC_CH_UA_MOBILE@);
    assert(pairs[2].0 == SEC_CH_UA_PLATFORM@);
    assert(pairs[3].0 == UPGRADE_INSECURE_REQUESTS@);
    assert(pairs[4].0 == USER_AGENT@);
    assert(pairs[5].0 == ACCEPT@);
    assert(pairs[6].0 == SEC_FETCH_SITE@);
    assert(pairs[7].0 == SEC_FETCH_MODE@);
    assert(pairs[8].0 == SEC_FETCH_USER@);
    assert(pairs[9].0 == SEC_FETCH_DEST@);
    assert(pairs[10].0 == ACCEPT_ENCODING@);
    assert(pairs[11].0 == ACCEPT_LANGUAGE@);
    assert forall|i: int, j: int| 0 <= i < j < pairs.len() implies (#[trigger] pairs[i]).0 != (
    #[trigger] pairs[j]).0 by {
        assert(name_key(pairs[i].0) != name_key(pairs[j].0));
    }
}

/// The TLS parameters of every build are usable.
pub proof fn lemma_tls_ok(v: Impersonate)
    ensures
        tls_ok(tls(v)),
{
    lemma_chromium_order();
    lemma_chromium_ech_order();
    assert(tls(v).cipher_suites.len() == cipher_suites(v).len());
    assert(tls(v).sigalgs.len() == sigalgs(v).len());
}

/// The TLS parameters of a build.
pub fn create_tls(v: Impersonate) -> (r: TlsSettings)
    ensures
        r@ == tls(v),
{
    TlsSettings {
        cipher_suites: cipher_suites_of(v),
        curves: curves_of(v),
        sigalgs: sigalgs_of(v),
        alpn: vec![AlpnProtocol::Http2, AlpnProtocol::Http1],
        min_version: TlsVersion::Tls1_2,
        max_version: TlsVersion::Tls1_3,
        extensions_order: extensions_order_of(v),
        permute_extensions: permutes_of(v),
        ech_grease: sends_ech_of(v),
        grease: true,
        ocsp_stapling: true,
        session_tickets: true,
        pre_shared_key: true,
        cert_compression: cert_compression_of(v),
        record_size_limit: None,
        padding: pads_of(v),
    }
}

/// Sets the default headers of a build on a header map, in the order
/// in which the build sends them.
pub(crate) fn create_headers(v: Impersonate, headers: HeaderMap<HeaderValue>) -> (r: HeaderMap<HeaderValue>)
    requires
        room_for(header_entries(headers), static_pairs(header_list(v))),
    ensures
        header_entries(r) == merge(header_entries(headers), static_pairs(header_list(v))),
{
    let list: Vec<(&'static str, &'static str)> = vec![
        (SEC_CH_UA, brands_of(v)),
        (SEC_CH_UA_MOBILE, NOT_MOBILE),
        (SEC_CH_UA_PLATFORM, PLATFORM_WINDOWS),
        (UPGRADE_INSECURE_REQUESTS, UPGRADE_YES),
        (USER_AGENT, user_agent_of(v)),
        (ACCEPT, accept_of(v)),
        (SEC_FETCH_SITE, FETCH_SITE_NONE),
        (SEC_FETCH_MODE, FETCH_MODE_NAVIGATE),
        (SEC_FETCH_USER, FETCH_USER_YES),
        (SEC_FETCH_DEST, FETCH_DEST_DOCUMENT),
        (ACCEPT_ENCODING, accept_encoding_of(v)),
        (ACCEPT_LANGUAGE, accept_language_of(v)),
    ];
    proof {
        lemma_headers(v);
        assert(list@ == header_list(v));
    }
    insert_all(headers, &list)
}

/// Everything that the catalog holds for a build, with its default
/// headers set on the header map given.
pub(crate) fn get_settings(v: Impersonate, headers: HeaderMap<HeaderValue>) -> (r: ImpersonateSettings)
    requires
        room_for(header_entries(headers), static_pairs(header_list(v))),
    ensures
        r.tls@ == tls(v),
        r.http2 == http2(v),
        header_entries(r.headers) == merge(header_entries(headers), static_pairs(header_list(v))),
        r.gzip,
        r.brotli == offers_brotli(v),
        r.deflate == offers_brotli(v),
        r.zstd == offers_zstd(v),
{
    ImpersonateSettings {
        tls: create_tls(v),
        http2: http2_of(v),
        headers: create_headers(v, headers),
        gzip: true,
        brotli: offers_brotli_of(v),
        deflate: offers_brotli_of(v),
        zstd: offers_zstd_of(v),
    }
}

} // verus!
