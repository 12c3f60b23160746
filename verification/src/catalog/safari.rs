//! The builds of Apple Safari: what each offers in TLS, announces in HTTP/2 and
//! sends as default headers. Asked about a target of another family, the
//! functions here answer as for safari_17.4.1.

use vstd::prelude::*;
use http::{HeaderMap, HeaderValue};
use crate::catalog::lists::{
    lemma_safari_order,
    safari_ciphers,
    safari_ciphers_list,
    safari_order,
    safari_order_list,
    safari_sigalgs,
    safari_sigalgs_list,
};
use crate::catalog::names::{
    ACCEPT,
    ACCEPT_DOCUMENT,
    ACCEPT_ENCODING,
    ACCEPT_LANGUAGE,
    ENCODING_GZIP_DEFLATE_BR,
    LANG_EN_US,
    MARK_SAFARI,
    USER_AGENT,
    lemma_header_names,
    lemma_shared_values,
    name_key,
};
use crate::catalog::ImpersonateSettings;
use crate::headers::{
    ascii_bytes, distinct_names, has_name, header_entries, insert_all, merge, room_for,
    static_pairs, valid_name, valid_value,
};
use crate::http2::Http2Data;
use crate::identity::Impersonate;
use crate::text::{mentions, occurs_at, texts};
use crate::tls::{
    tls_ok, AlpnProtocol, CertCompression, SslCurve, TlsProfile, TlsSettings, TlsVersion,
};

verus! {

/// User-Agent of safari_ios_17.2.
pub const UA_IOS_17_2: &'static str = "Mozilla/5.0 (iPhone; CPU iPhone OS 17_2 like Mac OS X) AppleWebKit/605.1.15 (KHTML, like Gecko) Version/17.2 Mobile/15E148 Safari/604.1";

/// How the User-Agent of safari_ios_17.2 names its version.
pub const TOKEN_IOS_17_2: &'static str = "Version/17.2";

/// User-Agent of safari_ios_17.4.1.
pub const UA_IOS_17_4_1: &'static str = "Mozilla/5.0 (iPhone; CPU iPhone OS 17_4_1 like Mac OS X) AppleWebKit/605.1.15 (KHTML, like Gecko) Version/17.4.1 Mobile/15E148 Safari/604.1";

/// How the User-Agent of safari_ios_17.4.1 names its version.
pub const TOKEN_IOS_17_4_1: &'static str = "Version/17.4.1";

/// User-Agent of safari_ios_16.5.
pub const UA_IOS_16_5: &'static str = "Mozilla/5.0 (iPhone; CPU iPhone OS 16_5 like Mac OS X) AppleWebKit/605.1.15 (KHTML, like Gecko) Version/16.5 Mobile/15E148 Safari/604.1";

/// How the User-Agent of safari_ios_16.5 names its version.
pub const TOKEN_IOS_16_5: &'static str = "Version/16.5";

/// User-Agent of safari_15.3.
pub const UA_15_3: &'static str = "Mozilla/5.0 (Macintosh; Intel Mac OS X 10_15_7) AppleWebKit/605.1.15 (KHTML, like Gecko) Version/15.3 Safari/605.1.15";

/// How the User-Agent of safari_15.3 names its version.
pub const TOKEN_15_3: &'static str = "Version/15.3";

/// User-Agent of safari_15.5.
pub const UA_15_5: &'static str = "Mozilla/5.0 (Macintosh; Intel Mac OS X 10_15_7) AppleWebKit/605.1.15 (KHTML, like Gecko) Version/15.5 Safari/605.1.15";

/// How the User-Agent of safari_15.5 names its version.
pub const TOKEN_15_5: &'static str = "Version/15.5";

/// User-Agent of safari_15.6.1.
pub const UA_15_6_1: &'static str = "Mozilla/5.0 (Macintosh; Intel Mac OS X 10_15_7) AppleWebKit/605.1.15 (KHTML, like Gecko) Version/15.6.1 Safari/605.1.15";

/// How the User-Agent of safari_15.6.1 names its version.
pub const TOKEN_15_6_1: &'static str = "Version/15.6.1";

/// User-Agent of safari_16.
pub const UA_16: &'static str = "Mozilla/5.0 (Macintosh; Intel Mac OS X 10_15_7) AppleWebKit/605.1.15 (KHTML, like Gecko) Version/16 Safari/605.1.15";

/// How the User-Agent of safari_16 names its version.
pub const TOKEN_16: &'static str = "Version/16";

/// User-Agent of safari_16.5.
pub const UA_16_5: &'static str = "Mozilla/5.0 (Macintosh; Intel Mac OS X 10_15_7) AppleWebKit/605.1.15 (KHTML, like Gecko) Version/16.5 Safari/605.1.15";

/// How the User-Agent of safari_16.5 names its version.
pub const TOKEN_16_5: &'static str = "Version/16.5";

/// User-Agent of safari_17.2.1.
pub const UA_17_2_1: &'static str = "Mozilla/5.0 (Macintosh; Intel Mac OS X 10_15_7) AppleWebKit/605.1.15 (KHTML, like Gecko) Version/17.2.1 Safari/605.1.15";

/// How the User-Agent of safari_17.2.1 names its version.
pub const TOKEN_17_2_1: &'static str = "Version/17.2.1";

/// User-Agent of safari_17.4.1.
pub const UA_17_4_1: &'static str = "Mozilla/5.0 (Macintosh; Intel Mac OS X 10_15_7) AppleWebKit/605.1.15 (KHTML, like Gecko) Version/17.4.1 Safari/605.1.15";

/// How the User-Agent of safari_17.4.1 names its version.
pub const TOKEN_17_4_1: &'static str = "Version/17.4.1";

/// The User-Agent that a build sends.
pub open spec fn user_agent(v: Impersonate) -> &'static str {
    match v {
        Impersonate::SafariIos17_2 => UA_IOS_17_2,
        Impersonate::SafariIos17_4_1 => UA_IOS_17_4_1,
        Impersonate::SafariIos16_5 => UA_IOS_16_5,
        Impersonate::Safari15_3 => UA_15_3,
        Impersonate::Safari15_5 => UA_15_5,
        Impersonate::Safari15_6_1 => UA_15_6_1,
        Impersonate::Safari16 => UA_16,
        Impersonate::Safari16_5 => UA_16_5,
        Impersonate::Safari17_2_1 => UA_17_2_1,
        _ => UA_17_4_1,
    }
}

/// The User-Agent that a build sends.
fn user_agent_of(v: Impersonate) -> (r: &'static str)
    ensures
        r == user_agent(v),
{
    match v {
        Impersonate::SafariIos17_2 => UA_IOS_17_2,
        Impersonate::SafariIos17_4_1 => UA_IOS_17_4_1,
        Impersonate::SafariIos16_5 => UA_IOS_16_5,
        Impersonate::Safari15_3 => UA_15_3,
        Impersonate::Safari15_5 => UA_15_5,
        Impersonate::Safari15_6_1 => UA_15_6_1,
        Impersonate::Safari16 => UA_16,
        Impersonate::Safari16_5 => UA_16_5,
        Impersonate::Safari17_2_1 => UA_17_2_1,
        _ => UA_17_4_1,
    }
}

/// How the User-Agent of a build names its version.
pub open spec fn version_token(v: Impersonate) -> &'static str {
    match v {
        Impersonate::SafariIos17_2 => TOKEN_IOS_17_2,
        Impersonate::SafariIos17_4_1 => TOKEN_IOS_17_4_1,
        Impersonate::SafariIos16_5 => TOKEN_IOS_16_5,
        Impersonate::Safari15_3 => TOKEN_15_3,
        Impersonate::Safari15_5 => TOKEN_15_5,
        Impersonate::Safari15_6_1 => TOKEN_15_6_1,
        Impersonate::Safari16 => TOKEN_16,
        Impersonate::Safari16_5 => TOKEN_16_5,
        Impersonate::Safari17_2_1 => TOKEN_17_2_1,
        _ => TOKEN_17_4_1,
    }
}

/// The Accept that a build sends.
pub open spec fn accept(v: Impersonate) -> &'static str {
    ACCEPT_DOCUMENT
}

/// The Accept that a build sends.
fn accept_of(v: Impersonate) -> (r: &'static str)
    ensures
        r == accept(v),
{
    ACCEPT_DOCUMENT
}

/// The Accept-Encoding that a build sends.
pub open spec fn accept_encoding(v: Impersonate) -> &'static str {
    ENCODING_GZIP_DEFLATE_BR
}

/// The Accept-Encoding that a build sends.
fn accept_encoding_of(v: Impersonate) -> (r: &'static str)
    ensures
        r == accept_encoding(v),
{
    ENCODING_GZIP_DEFLATE_BR
}

/// The Accept-Language that a build sends.
pub open spec fn accept_language(v: Impersonate) -> &'static str {
    LANG_EN_US
}

/// The Accept-Language that a build sends.
fn accept_language_of(v: Impersonate) -> (r: &'static str)
    ensures
        r == accept_language(v),
{
    LANG_EN_US
}

/// The cipher suites that a build offers, in its order.
pub open spec fn cipher_suites(v: Impersonate) -> Seq<&'static str> {
    safari_ciphers()
}

/// The cipher suites that a build offers, in its order.
fn cipher_suites_of(v: Impersonate) -> (r: Vec<&'static str>)
    ensures
        r@ == cipher_suites(v),
{
    safari_ciphers_list()
}

/// The signature schemes that a build offers, in its order.
pub open spec fn sigalgs(v: Impersonate) -> Seq<&'static str> {
    safari_sigalgs()
}

/// The signature schemes that a build offers, in its order.
fn sigalgs_of(v: Impersonate) -> (r: Vec<&'static str>)
    ensures
        r@ == sigalgs(v),
{
    safari_sigalgs_list()
}

/// The groups that a build offers, in its order.
pub open spec fn curves(v: Impersonate) -> Seq<SslCurve> {
    seq![
            SslCurve::X25519,
            SslCurve::Secp256r1,
            SslCurve::Secp384r1,
            SslCurve::Secp521r1,
        ]
}

/// The groups that a build offers, in its order.
fn curves_of(v: Impersonate) -> (r: Vec<SslCurve>)
    ensures
        r@ == curves(v),
{
    vec![
            SslCurve::X25519,
            SslCurve::Secp256r1,
            SslCurve::Secp384r1,
            SslCurve::Secp521r1,
        ]
}

/// The extensions of a build in the order of its ClientHello.
pub open spec fn extensions_order(v: Impersonate) -> Seq<u16> {
    safari_order()
}

/// The extensions of a build in the order of its ClientHello.
fn extensions_order_of(v: Impersonate) -> (r: Vec<u16>)
    ensures
        r@ == extensions_order(v),
{
    safari_order_list()
}

/// The certificate-compression algorithms that a build advertises.
pub open spec fn cert_compression(v: Impersonate) -> Seq<CertCompression> {
    seq![CertCompression::Zlib]
}

/// The certificate-compression algorithms that a build advertises.
fn cert_compression_of(v: Impersonate) -> (r: Vec<CertCompression>)
    ensures
        r@ == cert_compression(v),
{
    vec![CertCompression::Zlib]
}

/// Whether a build shuffles its extensions.
pub open spec fn permutes(v: Impersonate) -> bool {
    false
}

/// Whether a build shuffles its extensions.
fn permutes_of(v: Impersonate) -> (r: bool)
    ensures
        r == permutes(v),
{
    false
}

/// Whether a build sends GREASE encrypted ClientHello.
pub open spec fn sends_ech(v: Impersonate) -> bool {
    false
}

/// Whether a build sends GREASE encrypted ClientHello.
fn sends_ech_of(v: Impersonate) -> (r: bool)
    ensures
        r == sends_ech(v),
{
    false
}

/// Whether a build pads its ClientHello.
pub open spec fn pads(v: Impersonate) -> bool {
    true
}

/// Whether a build pads its ClientHello.
fn pads_of(v: Impersonate) -> (r: bool)
    ensures
        r == pads(v),
{
    true
}

/// Whether a build takes Zstandard bodies.
pub open spec fn offers_zstd(v: Impersonate) -> bool {
    false
}

/// Whether a build takes Zstandard bodies.
fn offers_zstd_of(v: Impersonate) -> (r: bool)
    ensures
        r == offers_zstd(v),
{
    false
}

/// Whether a build takes Brotli and deflate bodies.
pub open spec fn offers_brotli(v: Impersonate) -> bool {
    true
}

/// Whether a build takes Brotli and deflate bodies.
fn offers_brotli_of(v: Impersonate) -> (r: bool)
    ensures
        r == offers_brotli(v),
{
    true
}

/// The HTTP/2 parameters of a build.
pub open spec fn http2(v: Impersonate) -> Http2Data {
    match v {
        Impersonate::SafariIos17_2
        | Impersonate::SafariIos17_4_1
        | Impersonate::Safari17_2_1
        | Impersonate::Safari17_4_1 => Http2Data {
            initial_stream_window_size: Some(2097152u32),
            initial_connection_window_size: Some(10551295u32),
            max_concurrent_streams: Some(100u32),
            max_header_list_size: None,
            header_table_size: None,
            enable_push: Some(false),
        },
        _ => Http2Data {
            initial_stream_window_size: Some(4194304u32),
            initial_connection_window_size: Some(10551295u32),
            max_concurrent_streams: Some(100u32),
            max_header_list_size: None,
            header_table_size: None,
            enable_push: None,
        },
    }
}

/// The HTTP/2 parameters of a build.
fn http2_of(v: Impersonate) -> (r: Http2Data)
    ensures
        r == http2(v),
{
    match v {
        Impersonate::SafariIos17_2
        | Impersonate::SafariIos17_4_1
        | Impersonate::Safari17_2_1
        | Impersonate::Safari17_4_1 => Http2Data {
            initial_stream_window_size: Some(2097152u32),
            initial_connection_window_size: Some(10551295u32),
            max_concurrent_streams: Some(100u32),
            max_header_list_size: None,
            header_table_size: None,
            enable_push: Some(false),
        },
        _ => Http2Data {
            initial_stream_window_size: Some(4194304u32),
            initial_connection_window_size: Some(10551295u32),
            max_concurrent_streams: Some(100u32),
            max_header_list_size: None,
            header_table_size: None,
            enable_push: None,
        },
    }
}

/// The TLS parameters of a build.
pub open spec fn tls(v: Impersonate) -> TlsProfile {
    TlsProfile {
        cipher_suites: texts(cipher_suites(v)),
        curves: curves(v),
        sigalgs: texts(sigalgs(v)),
        alpn: seq![AlpnProtocol::Http2, AlpnProtocol::Http1],
        min_version: TlsVersion::Tls1_0,
        max_version: TlsVersion::Tls1_3,
        extensions_order: extensions_order(v),
        permute_extensions: permutes(v),
        ech_grease: sends_ech(v),
        grease: true,
        ocsp_stapling: true,
        session_tickets: false,
        pre_shared_key: true,
        cert_compression: cert_compression(v),
        record_size_limit: None,
        padding: pads(v),
    }
}

/// The default headers of a build, in the order in which it sends them.
pub open spec fn header_list(v: Impersonate) -> Seq<(&'static str, &'static str)> {
    seq![
        (USER_AGENT, user_agent(v)),
        (ACCEPT, accept(v)),
        (ACCEPT_LANGUAGE, accept_language(v)),
        (ACCEPT_ENCODING, accept_encoding(v)),
    ]
}

proof fn lemma_values_ios_17_2()
    ensures
        valid_value(UA_IOS_17_2@),
        occurs_at(UA_IOS_17_2@, TOKEN_IOS_17_2@, 96),
        occurs_at(UA_IOS_17_2@, MARK_SAFARI@, 123),
{
    reveal_strlit("Mozilla/5.0 (iPhone; CPU iPhone OS 17_2 like Mac OS X) AppleWebKit/605.1.15 (KHTML, like Gecko) Version/17.2 Mobile/15E148 Safari/604.1");
    reveal_strlit("Version/17.2");
    reveal_strlit("Safari/");
    assert(UA_IOS_17_2@.subrange(96, 108) =~= TOKEN_IOS_17_2@);
    assert(UA_IOS_17_2@.subrange(123, 130) =~= MARK_SAFARI@);
}

proof fn lemma_values_ios_17_4_1()
    ensures
        valid_value(UA_IOS_17_4_1@),
        occurs_at(UA_IOS_17_4_1@, TOKEN_IOS_17_4_1@, 98),
        occurs_at(UA_IOS_17_4_1@, MARK_SAFARI@, 127),
{
    reveal_strlit("Mozilla/5.0 (iPhone; CPU iPhone OS 17_4_1 like Mac OS X) AppleWebKit/605.1.15 (KHTML, like Gecko) Version/17.4.1 Mobile/15E148 Safari/604.1");
    reveal_strlit("Version/17.4.1");
    reveal_strlit("Safari/");
    assert(UA_IOS_17_4_1@.subrange(98, 112) =~= TOKEN_IOS_17_4_1@);
    assert(UA_IOS_17_4_1@.subrange(127, 134) =~= MARK_SAFARI@);
}

proof fn lemma_values_ios_16_5()
    ensures
        valid_value(UA_IOS_16_5@),
        occurs_at(UA_IOS_16_5@, TOKEN_IOS_16_5@, 96),
        occurs_at(UA_IOS_16_5@, MARK_SAFARI@, 123),
{
    reveal_strlit("Mozilla/5.0 (iPhone; CPU iPhone OS 16_5 like Mac OS X) AppleWebKit/605.1.15 (KHTML, like Gecko) Version/16.5 Mobile/15E148 Safari/604.1");
    reveal_strlit("Version/16.5");
    reveal_strlit("Safari/");
    assert(UA_IOS_16_5@.subrange(96, 108) =~= TOKEN_IOS_16_5@);
    assert(UA_IOS_16_5@.subrange(123, 130) =~= MARK_SAFARI@);
}

proof fn lemma_values_15_3()
    ensures
        valid_value(UA_15_3@),
        occurs_at(UA_15_3@, TOKEN_15_3@, 89),
        occurs_at(UA_15_3@, MARK_SAFARI@, 102),
{
    reveal_strlit("Mozilla/5.0 (Macintosh; Intel Mac OS X 10_15_7) AppleWebKit/605.1.15 (KHTML, like Gecko) Version/15.3 Safari/605.1.15");
    reveal_strlit("Version/15.3");
    reveal_strlit("Safari/");
    assert(UA_15_3@.subrange(89, 101) =~= TOKEN_15_3@);
    assert(UA_15_3@.subrange(102, 109) =~= MARK_SAFARI@);
}

proof fn lemma_values_15_5()
    ensures
        valid_value(UA_15_5@),
        occurs_at(UA_15_5@, TOKEN_15_5@, 89),
        occurs_at(UA_15_5@, MARK_SAFARI@, 102),
{
    reveal_strlit("Mozilla/5.0 (Macintosh; Intel Mac OS X 10_15_7) AppleWebKit/605.1.15 (KHTML, like Gecko) Version/15.5 Safari/605.1.15");
    reveal_strlit("Version/15.5");
    reveal_strlit("Safari/");
    assert(UA_15_5@.subrange(89, 101) =~= TOKEN_15_5@);
    assert(UA_15_5@.subrange(102, 109) =~= MARK_SAFARI@);
}

proof fn lemma_values_15_6_1()
    ensures
        valid_value(UA_15_6_1@),
        occurs_at(UA_15_6_1@, TOKEN_15_6_1@, 89),
        occurs_at(UA_15_6_1@, MARK_SAFARI@, 104),
{
    reveal_strlit("Mozilla/5.0 (Macintosh; Intel Mac OS X 10_15_7) AppleWebKit/605.1.15 (KHTML, like Gecko) Version/15.6.1 Safari/605.1.15");
    reveal_strlit("Version/15.6.1");
    reveal_strlit("Safari/");
    assert(UA_15_6_1@.subrange(89, 103) =~= TOKEN_15_6_1@);
    assert(UA_15_6_1@.subrange(104, 111) =~= MARK_SAFARI@);
}

proof fn lemma_values_16()
    ensures
        valid_value(UA_16@),
        occurs_at(UA_16@, TOKEN_16@, 89),
        occurs_at(UA_16@, MARK_SAFARI@, 100),
{
    reveal_strlit("Mozilla/5.0 (Macintosh; Intel Mac OS X 10_15_7) AppleWebKit/605.1.15 (KHTML, like Gecko) Version/16 Safari/605.1.15");
    reveal_strlit("Version/16");
    reveal_strlit("Safari/");
    assert(UA_16@.subrange(89, 99) =~= TOKEN_16@);
    assert(UA_16@.subrange(100, 107) =~= MARK_SAFARI@);
}

proof fn lemma_values_16_5()
    ensures
        valid_value(UA_16_5@),
        occurs_at(UA_16_5@, TOKEN_16_5@, 89),
        occurs_at(UA_16_5@, MARK_SAFARI@, 102),
{
    reveal_strlit("Mozilla/5.0 (Macintosh; Intel Mac OS X 10_15_7) AppleWebKit/605.1.15 (KHTML, like Gecko) Version/16.5 Safari/605.1.15");
    reveal_strlit("Version/16.5");
    reveal_strlit("Safari/");
    assert(UA_16_5@.subrange(89, 101) =~= TOKEN_16_5@);
    assert(UA_16_5@.subrange(102, 109) =~= MARK_SAFARI@);
}

proof fn lemma_values_17_2_1()
    ensures
        valid_value(UA_17_2_1@),
        occurs_at(UA_17_2_1@, TOKEN_17_2_1@, 89),
        occurs_at(UA_17_2_1@, MARK_SAFARI@, 104),
{
    reveal_strlit("Mozilla/5.0 (Macintosh; Intel Mac OS X 10_15_7) AppleWebKit/605.1.15 (KHTML, like Gecko) Version/17.2.1 Safari/605.1.15");
    reveal_strlit("Version/17.2.1");
    reveal_strlit("Safari/");
    assert(UA_17_2_1@.subrange(89, 103) =~= TOKEN_17_2_1@);
    assert(UA_17_2_1@.subrange(104, 111) =~= MARK_SAFARI@);
}

proof fn lemma_values_17_4_1()
    ensures
        valid_value(UA_17_4_1@),
        occurs_at(UA_17_4_1@, TOKEN_17_4_1@, 89),
        occurs_at(UA_17_4_1@, MARK_SAFARI@, 104),
{
    reveal_strlit("Mozilla/5.0 (Macintosh; Intel Mac OS X 10_15_7) AppleWebKit/605.1.15 (KHTML, like Gecko) Version/17.4.1 Safari/605.1.15");
    reveal_strlit("Version/17.4.1");
    reveal_strlit("Safari/");
    assert(UA_17_4_1@.subrange(89, 103) =~= TOKEN_17_4_1@);
    assert(UA_17_4_1@.subrange(104, 111) =~= MARK_SAFARI@);
}

/// The User-Agent of a build is a well-formed header value that names
/// the product and the version of the build.
pub proof fn lemma_user_agent(v: Impersonate)
    ensures
        valid_value(user_agent(v)@),
        mentions(user_agent(v)@, version_token(v)@),
        mentions(user_agent(v)@, MARK_SAFARI@),
{
    match v {
        Impersonate::SafariIos17_2 => {
            lemma_values_ios_17_2();
        },
        Impersonate::SafariIos17_4_1 => {
            lemma_values_ios_17_4_1();
        },
        Impersonate::SafariIos16_5 => {
            lemma_values_ios_16_5();
        },
        Impersonate::Safari15_3 => {
            lemma_values_15_3();
        },
        Impersonate::Safari15_5 => {
            lemma_values_15_5();
        },
        Impersonate::Safari15_6_1 => {
            lemma_values_15_6_1();
        },
        Impersonate::Safari16 => {
            lemma_values_16();
        },
        Impersonate::Safari16_5 => {
            lemma_values_16_5();
        },
        Impersonate::Safari17_2_1 => {
            lemma_values_17_2_1();
        },
        _ => {
            lemma_values_17_4_1();
        },
    }
}

/// The default headers of a build are well formed, each name occurs
/// once, and the User-Agent is among them.
pub proof fn lemma_headers(v: Impersonate)
    ensures
        header_list(v).len() == 4,
        forall|i: int|
            0 <= i < header_list(v).len() ==> valid_name((#[trigger] header_list(v)[i]).0@)
                && valid_value(header_list(v)[i].1@),
        distinct_names(static_pairs(header_list(v))),
        static_pairs(header_list(v))[0] == (USER_AGENT@, ascii_bytes(user_agent(v)@)),
        has_name(static_pairs(header_list(v)), USER_AGENT@),
{
    lemma_header_names();
    lemma_shared_values();
    lemma_user_agent(v);
    let list = header_list(v);
    let pairs = static_pairs(list);
    assert(pairs[0].0 == USER_AGENT@);
    assert(pairs[1].0 == ACCEPT@);
    assert(pairs[2].0 == ACCEPT_LANGUAGE@);
    assert(pairs[3].0 == ACCEPT_ENCODING@);
    assert forall|i: int, j: int| 0 <= i < j < pairs.len() implies (#[trigger] pairs[i]).0 != (
    #[trigger] pairs[j]).0 by {
        assert(name_key(pairs[i].0) != name_key(pairs[j].0));
    }
}

/// The TLS parameters of every build are usable.
pub proof fn lemma_tls_ok(v: Impersonate)
    ensures
        tls_ok(tls(v)),
{
    lemma_safari_order();
    assert(tls(v).cipher_suites.len() == cipher_suites(v).len());
    assert(tls(v).sigalgs.len() == sigalgs(v).len());
}

/// The TLS parameters of a build.
pub fn create_tls(v: Impersonate) -> (r: TlsSettings)
    ensures
        r@ == tls(v),
{
    TlsSettings {
        cipher_suites: cipher_suites_of(v),
        curves: curves_of(v),
        sigalgs: sigalgs_of(v),
        alpn: vec![AlpnProtocol::Http2, AlpnProtocol::Http1],
        min_version: TlsVersion::Tls1_0,
        max_version: TlsVersion::Tls1_3,
        extensions_order: extensions_order_of(v),
        permute_extensions: permutes_of(v),
        ech_grease: sends_ech_of(v),
        grease: true,
        ocsp_stapling: true,
        session_tickets: false,
        pre_shared_key: true,
        cert_compression: cert_compression_of(v),
        record_size_limit: None,
        padding: pads_of(v),
    }
}

/// Sets the default headers of a build on a header map, in the order
/// in which the build sends them.
pub(crate) fn create_headers(v: Impersonate, headers: HeaderMap<HeaderValue>) -> (r: HeaderMap<HeaderValue>)
    requires
        room_for(header_entries(headers), static_pairs(header_list(v))),
    ensures
        header_entries(r) == merge(header_entries(headers), static_pairs(header_list(v))),
{
    let list: Vec<(&'static str, &'static str)> = vec![
        (USER_AGENT, user_agent_of(v)),
        (ACCEPT, accept_of(v)),
        (ACCEPT_LANGUAGE, accept_language_of(v)),
        (ACCEPT_ENCODING, accept_encoding_of(v)),
    ];
    proof {
        lemma_headers(v);
        assert(list@ == header_list(v));
    }
    insert_all(headers, &list)
}

/// Everything that the catalog holds for a build, with its default
/// headers set on the header map given.
pub(crate) fn get_settings(v: Impersonate, headers: HeaderMap<HeaderValue>) -> (r: ImpersonateSettings)
    requires
        room_for(header_entries(headers), static_pairs(header_list(v))),
    ensures
        r.tls@ == tls(v),
        r.http2 == http2(v),
        header_entries(r.headers) == merge(header_entries(headers), static_pairs(header_list(v))),
        r.gzip,
        r.brotli == offers_brotli(v),
        r.deflate == offers_brotli(v),
        r.zstd == offers_zstd(v),
{
    ImpersonateSettings {
        tls: create_tls(v),
        http2: http2_of(v),
        headers: create_headers(v, headers),
        gzip: true,
        brotli: offers_brotli_of(v),
        deflate: offers_brotli_of(v),
        zstd: offers_zstd_of(v),
    }
}

} // verus!
