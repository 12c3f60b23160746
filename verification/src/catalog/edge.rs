//! The builds of Microsoft Edge: what each offers in TLS, announces in HTTP/2 and
//! sends as default headers. Asked about a target of another family, the
//! functions here answer as for edge_122.

use vstd::prelude::*;
use http::{HeaderMap, HeaderValue};
use crate::catalog::lists::{
    chromium_ciphers,
    chromium_ciphers_list,
    chromium_ech_order,
    chromium_ech_order_list,
    chromium_order,
    chromium_order_list,
    chromium_sigalgs,
    chromium_sigalgs_list,
    lemma_chromium_ech_order,
    lemma_chromium_order,
};
use crate::catalog::names::{
    ACCEPT,
    ACCEPT_ENCODING,
    ACCEPT_LANGUAGE,
    ACCEPT_NAVIGATION_B3_Q7,
    ACCEPT_NAVIGATION_B3_Q9,
    ENCODING_GZIP_DEFLATE_BR,
    FETCH_DEST_DOCUMENT,
    FETCH_MODE_NAVIGATE,
    FETCH_SITE_NONE,
    FETCH_USER_YES,
    LANG_EN_US,
    MARK_EDGE,
    NOT_MOBILE,
    PLATFORM_WINDOWS,
    SEC_CH_UA,
    SEC_CH_UA_MOBILE,
    SEC_CH_UA_PLATFORM,
    SEC_FETCH_DEST,
    SEC_FETCH_MODE,
    SEC_FETCH_SITE,
    SEC_FETCH_USER,
    UPGRADE_INSECURE_REQUESTS,
    UPGRADE_YES,
    USER_AGENT,
    lemma_header_names,
    lemma_shared_values,
    name_key,
};
use crate::catalog::ImpersonateSettings;
use crate::headers::{
    ascii_bytes, distinct_names, has_name, header_entries, insert_all, merge, room_for,
    static_pairs, valid_name, valid_value,
};
use crate::http2::Http2Data;
use crate::identity::Impersonate;
use crate::text::{mentions, occurs_at, texts};
use crate::tls::{
    tls_ok, AlpnProtocol, CertCompression, SslCurve, TlsProfile, TlsSettings, TlsVersion,
};

verus! {

/// User-Agent of edge_99.
pub const UA_99: &'static str = "Mozilla/5.0 (Windows NT 10.0; Win64; x64) AppleWebKit/537.36 (KHTML, like Gecko) Chrome/99.0.4844.51 Safari/537.36 Edg/99.0.1150.30";

/// How the User-Agent of edge_99 names its version.
pub const TOKEN_99: &'static str = "Edg/99";

/// sec-ch-ua of edge_99.
pub const BRANDS_99: &'static str = "\" Not A;Brand\";v=\"99\", \"Chromium\";v=\"99\", \"Microsoft Edge\";v=\"99\"";

/// User-Agent of edge_101.
pub const UA_101: &'static str = "Mozilla/5.0 (Windows NT 10.0; Win64; x64) AppleWebKit/537.36 (KHTML, like Gecko) Chrome/101.0.4951.64 Safari/537.36 Edg/101.0.1210.47";

/// How the User-Agent of edge_101 names its version.
pub const TOKEN_101: &'static str = "Edg/101";

/// sec-ch-ua of edge_101.
pub const BRANDS_101: &'static str = "\" Not A;Brand\";v=\"99\", \"Chromium\";v=\"101\", \"Microsoft Edge\";v=\"101\"";

/// User-Agent of edge_122.
pub const UA_122: &'static str = "Mozilla/5.0 (Windows NT 10.0; Win64; x64) AppleWebKit/537.36 (KHTML, like Gecko) Chrome/122.0.0.0 Safari/537.36 Edg/122.0.0.0";

/// How the User-Agent of edge_122 names its version.
pub const TOKEN_122: &'static str = "Edg/122";

/// sec-ch-ua of edge_122.
pub const BRANDS_122: &'static str = "\"Chromium\";v=\"122\", \"Not(A:Brand\";v=\"24\", \"Microsoft Edge\";v=\"122\"";

/// The User-Agent that a build sends.
pub open spec fn user_agent(v: Impersonate) -> &'static str {
    match v {
        Impersonate::Edge99 => UA_99,
        Impersonate::Edge101 => UA_101,
        _ => UA_122,
    }
}

/// The User-Agent that a build sends.
fn user_agent_of(v: Impersonate) -> (r: &'static str)
    ensures
        r == user_agent(v),
{
    match v {
        Impersonate::Edge99 => UA_99,
        Impersonate::Edge101 => UA_101,
        _ => UA_122,
    }
}

/// How the User-Agent of a build names its version.
pub open spec fn version_token(v: Impersonate) -> &'static str {
    match v {
        Impersonate::Edge99 => TOKEN_99,
        Impersonate::Edge101 => TOKEN_101,
        _ => TOKEN_122,
    }
}

/// The sec-ch-ua that a build sends.
pub open spec fn brands(v: Impersonate) -> &'static str {
    match v {
        Impersonate::Edge99 => BRANDS_99,
        Impersonate::Edge101 => BRANDS_101,
        _ => BRANDS_122,
    }
}

/// The sec-ch-ua that a build sends.
fn brands_of(v: Impersonate) -> (r: &'static str)
    ensures
        r == brands(v),
{
    match v {
        Impersonate::Edge99 => BRANDS_99,
        Impersonate::Edge101 => BRANDS_101,
        _ => BRANDS_122,
    }
}

/// The Accept that a build sends.
pub open spec fn accept(v: Impersonate) -> &'static str {
    match v {
        Impersonate::Edge99
        | Impersonate::Edge101 => ACCEPT_NAVIGATION_B3_Q9,
        _ => ACCEPT_NAVIGATION_B3_Q7,
    }
}

/// The Accept that a build sends.
fn accept_of(v: Impersonate) -> (r: &'static str)
    ensures
        r == accept(v),
{
    match v {
        Impersonate::Edge99
        | Impersonate::Edge101 => ACCEPT_NAVIGATION_B3_Q9,
        _ => ACCEPT_NAVIGATION_B3_Q7,
    }
}

/// The Accept-Encoding that a build sends.
pub open spec fn accept_encoding(v: Impersonate) -> &'static str {
    ENCODING_GZIP_DEFLATE_BR
}

/// The Accept-Encoding that a build sends.
fn accept_encoding_of(v: Impersonate) -> (r: &'static str)
    ensures
        r == accept_encoding(v),
{
    ENCODING_GZIP_DEFLATE_BR
}

/// The Accept-Language that a build sends.
pub open spec fn accept_language(v: Impersonate) -> &'static str {
    LANG_EN_US
}

/// The Accept-Language that a build sends.
fn accept_language_of(v: Impersonate) -> (r: &'static str)
    ensures
        r == accept_language(v),
{
    LANG_EN_US
}

/// The cipher suites that a build offers, in its order.
pub open spec fn cipher_suites(v: Impersonate) -> Seq<&'static str> {
    chromium_ciphers()
}

/// The cipher suites that a build offers, in its order.
fn cipher_suites_of(v: Impersonate) -> (r: Vec<&'static str>)
    ensures
        r@ == cipher_suites(v),
{
    chromium_ciphers_list()
}

/// The signature schemes that a build offers, in its order.
pub open spec fn sigalgs(v: Impersonate) -> Seq<&'static str> {
    chromium_sigalgs()
}

/// The signature schemes that a build offers, in its order.
fn sigalgs_of(v: Impersonate) -> (r: Vec<&'static str>)
    ensures
        r@ == sigalgs(v),
{
    chromium_sigalgs_list()
}

/// The groups that a build offers, in its order.
pub open spec fn curves(v: Impersonate) -> Seq<SslCurve> {
    seq![SslCurve::X25519, SslCurve::Secp256r1, SslCurve::Secp384r1]
}

/// The groups that a build offers, in its order.
fn curves_of(v: Impersonate) -> (r: Vec<SslCurve>)
    ensures
        r@ == curves(v),
{
    vec![SslCurve::X25519, SslCurve::Secp256r1, SslCurve::Secp384r1]
}

/// The extensions of a build in the order of its ClientHello.
pub open spec fn extensions_order(v: Impersonate) -> Seq<u16> {
    match v {
        Impersonate::Edge99
        | Impersonate::Edge101 => chromium_order(),
        _ => chromium_ech_order(),
    }
}

/// The extensions of a build in the order of its ClientHello.
fn extensions_order_of(v: Impersonate) -> (r: Vec<u16>)
    ensures
        r@ == extensions_order(v),
{
    match v {
        Impersonate::Edge99
        | Impersonate::Edge101 => chromium_order_list(),
        _ => chromium_ech_order_list(),
    }
}

/// The certificate-compression algorithms that a build advertises.
pub open spec fn cert_compression(v: Impersonate) -> Seq<CertCompression> {
    seq![CertCompression::Brotli]
}

/// The certificate-compression algorithms that a build advertises.
fn cert_compression_of(v: Impersonate) -> (r: Vec<CertCompression>)
    ensures
        r@ == cert_compression(v),
{
    vec![CertCompression::Brotli]
}

/// Whether a build shuffles its extensions.
pub open spec fn permutes(v: Impersonate) -> bool {
    match v {
        Impersonate::Edge99
        | Impersonate::Edge101 => false,
        _ => true,
    }
}

/// Whether a build shuffles its extensions.
fn permutes_of(v: Impersonate) -> (r: bool)
    ensures
        r == permutes(v),
{
    match v {
        Impersonate::Edge99
        | Impersonate::Edge101 => false,
        _ => true,
    }
}

/// Whether a build sends GREASE encrypted ClientHello.
pub open spec fn sends_ech(v: Impersonate) -> bool {
    match v {
        Impersonate::Edge99
        | Impersonate::Edge101 => false,
        _ => true,
    }
}

/// Whether a build sends GREASE encrypted ClientHello.
fn sends_ech_of(v: Impersonate) -> (r: bool)
    ensures
        r == sends_ech(v),
{
    match v {
        Impersonate::Edge99
        | Impersonate::Edge101 => false,
        _ => true,
    }
}

/// Whether a build pads its ClientHello.
pub open spec fn pads(v: Impersonate) -> bool {
    match v {
        Impersonate::Edge99
        | Impersonate::Edge101 => true,
        _ => false,
    }
}

/// Whether a build pads its ClientHello.
fn pads_of(v: Impersonate) -> (r: bool)
    ensures
        r == pads(v),
{
    match v {
        Impersonate::Edge99
        | Impersonate::Edge101 => true,
        _ => false,
    }
}

/// Whether a build takes Zstandard bodies.
pub open spec fn offers_zstd(v: Impersonate) -> bool {
    false
}

/// Whether a build takes Zstandard bodies.
fn offers_zstd_of(v: Impersonate) -> (r: bool)
    ensures
        r == offers_zstd(v),
{
    false
}

/// Whether a build takes Brotli and deflate bodies.
pub open spec fn offers_brotli(v: Impersonate) -> bool {
    true
}

/// Whether a build takes Brotli and deflate bodies.
fn offers_brotli_of(v: Impersonate) -> (r: bool)
    ensures
        r == offers_brotli(v),
{
    true
}

/// The HTTP/2 parameters of a build.
pub open spec fn http2(v: Impersonate) -> Http2Data {
    match v {
        Impersonate::Edge99
        | Impersonate::Edge101 => Http2Data {
            initial_stream_window_size: Some(6291456u32),
            initial_connection_window_size: Some(15728640u32),
            max_concurrent_streams: Some(1000u32),
            max_header_list_size: Some(262144u32),
            header_table_size: Some(65536u32),
            enable_push: None,
        },
        _ => Http2Data {
            initial_stream_window_size: Some(6291456u32),
            initial_connection_window_size: Some(15728640u32),
            max_concurrent_streams: None,
            max_header_list_size: Some(262144u32),
            header_table_size: Some(65536u32),
            enable_push: Some(false),
        },
    }
}

/// The HTTP/2 parameters of a build.
fn http2_of(v: Impersonate) -> (r: Http2Data)
    ensures
        r == http2(v),
{
    match v {
        Impersonate::Edge99
        | Impersonate::Edge101 => Http2Data {
            initial_stream_window_size: Some(6291456u32),
            initial_connection_window_size: Some(15728640u32),
            max_concurrent_streams: Some(1000u32),
            max_header_list_size: Some(262144u32),
            header_table_size: Some(65536u32),
            enable_push: None,
        },
        _ => Http2Data {
            initial_stream_window_size: Some(6291456u32),
            initial_connection_window_size: Some(15728640u32),
            max_concurrent_streams: None,
            max_header_list_size: Some(262144u32),
            header_table_size: Some(65536u32),
            enable_push: Some(false),
        },
    }
}

/// The TLS parameters of a build.
pub open spec fn tls(v: Impersonate) -> TlsProfile {
    TlsProfile {
        cipher_suites: texts(cipher_suites(v)),
        curves: curves(v),
        sigalgs: texts(sigalgs(v)),
        alpn: seq![AlpnProtocol::Http2, AlpnProtocol::Http1],
        min_version: TlsVersion::Tls1_2,
        max_version: TlsVersion::Tls1_3,
        extensions_order: extensions_order(v),
        permute_extensions: permutes(v),
        ech_grease: sends_ech(v),
        grease: true,
        ocsp_stapling: true,
        session_tickets: true,
        pre_shared_key: true,
        cert_compression: cert_compression(v),
        record_size_limit: None,
        padding: pads(v),
    }
}

/// The default headers of a build, in the order in which it sends them.
pub open spec fn header_list(v: Impersonate) -> Seq<(&'static str, &'static str)> {
    seq![
        (SEC_CH_UA, brands(v)),
        (SEC_CH_UA_MOBILE, NOT_MOBILE),
        (SEC_CH_UA_PLATFORM, PLATFORM_WINDOWS),
        (UPGRADE_INSECURE_REQUESTS, UPGRADE_YES),
        (USER_AGENT, user_agent(v)),
        (ACCEPT, accept(v)),
        (SEC_FETCH_SITE, FETCH_SITE_NONE),
        (SEC_FETCH_MODE, FETCH_MODE_NAVIGATE),
        (SEC_FETCH_USER, FETCH_USER_YES),
        (SEC_FETCH_DEST, FETCH_DEST_DOCUMENT),
        (ACCEPT_ENCODING, accept_encoding(v)),
        (ACCEPT_LANGUAGE, accept_language(v)),
    ]
}

proof fn lemma_values_99()
    ensures
        valid_value(UA_99@),
        valid_value(BRANDS_99@),
        occurs_at(UA_99@, TOKEN_99@, 115),
        occurs_at(UA_99@, MARK_EDGE@, 115),
{
    reveal_strlit("Mozilla/5.0 (Windows NT 10.0; Win64; x64) AppleWebKit/537.36 (KHTML, like Gecko) Chrome/99.0.4844.51 Safari/537.36 Edg/99.0.1150.30");
    reveal_strlit("Edg/99");
    reveal_strlit("Edg/");
    reveal_strlit("\" Not A;Brand\";v=\"99\", \"Chromium\";v=\"99\", \"Microsoft Edge\";v=\"99\"");
    assert(UA_99@.subrange(115, 121) =~= TOKEN_99@);
    assert(UA_99@.subrange(115, 119) =~= MARK_EDGE@);
}

proof fn lemma_values_101()
    ensures
        valid_value(UA_101@),
        valid_value(BRANDS_101@),
        occurs_at(UA_101@, TOKEN_101@, 116),
        occurs_at(UA_101@, MARK_EDGE@, 116),
{
    reveal_strlit("Mozilla/5.0 (Windows NT 10.0; Win64; x64) AppleWebKit/537.36 (KHTML, like Gecko) Chrome/101.0.4951.64 Safari/537.36 Edg/101.0.1210.47");
    reveal_strlit("Edg/101");
    reveal_strlit("Edg/");
    reveal_strlit("\" Not A;Brand\";v=\"99\", \"Chromium\";v=\"101\", \"Microsoft Edge\";v=\"101\"");
    assert(UA_101@.subrange(116, 123) =~= TOKEN_101@);
    assert(UA_101@.subrange(116, 120) =~= MARK_EDGE@);
}

proof fn lemma_values_122()
    ensures
        valid_value(UA_122@),
        valid_value(BRANDS_122@),
        occurs_at(UA_122@, TOKEN_122@, 112),
        occurs_at(UA_122@, MARK_EDGE@, 112),
{
    reveal_strlit("Mozilla/5.0 (Windows NT 10.0; Win64; x64) AppleWebKit/537.36 (KHTML, like Gecko) Chrome/122.0.0.0 Safari/537.36 Edg/122.0.0.0");
    reveal_strlit("Edg/122");
    reveal_strlit("Edg/");
    reveal_strlit("\"Chromium\";v=\"122\", \"Not(A:Brand\";v=\"24\", \"Microsoft Edge\";v=\"122\"");
    assert(UA_122@.subrange(112, 119) =~= TOKEN_122@);
    assert(UA_122@.subrange(112, 116) =~= MARK_EDGE@);
}

/// The User-Agent of a build is a well-formed header value that names
/// the product and the version of the build; so is its sec-ch-ua.
pub proof fn lemma_user_agent(v: Impersonate)
    ensures
        valid_value(user_agent(v)@),
        valid_value(brands(v)@),
        mentions(user_agent(v)@, version_token(v)@),
        mentions(user_agent(v)@, MARK_EDGE@),
{
    match v {
        Impersonate::Edge99 => {
            lemma_values_99();
        },
        Impersonate::Edge101 => {
            lemma_values_101();
        },
        _ => {
            lemma_values_122();
        },
    }
}

/// The default headers of a build are well formed, each name occurs
/// once, and the User-Agent is among them.
pub proof fn lemma_headers(v: Impersonate)
    ensures
        header_list(v).len() == 12,
        forall|i: int|
            0 <= i < header_list(v).len() ==> valid_name((#[trigger] header_list(v)[i]).0@)
                && valid_value(header_list(v)[i].1@),
        distinct_names(static_pairs(header_list(v))),
        static_pairs(header_list(v))[4] == (USER_AGENT@, ascii_bytes(user_agent(v)@)),
        has_name(static_pairs(header_list(v)), USER_AGENT@),
{
    lemma_header_names();
    lemma_shared_values();
    lemma_user_agent(v);
    let list = header_list(v);
    let pairs = static_pairs(list);
    assert(pairs[0].0 == SEC_CH_UA@);
    assert(pairs[1].0 == SEC_CH_UA_MOBILE@);
    assert(pairs[2].0 == SEC_CH_UA_PLATFORM@);
    assert(pairs[3].0 == UPGRADE_INSECURE_REQUESTS@);
    assert(pairs[4].0 == USER_AGENT@);
    assert(pairs[5].0 == ACCEPT@);
    assert(pairs[6].0 == SEC_FETCH_SITE@);
    assert(pairs[7].0 == SEC_FETCH_MODE@);
    assert(pairs[8].0 == SEC_FETCH_USER@);
    assert(pairs[9].0 == SEC_FETCH_DEST@);
    assert(pairs[10].0 == ACCEPT_ENCODING@);
    assert(pairs[11].0 == ACCEPT_LANGUAGE@);
    assert forall|i: int, j: int| 0 <= i < j < pairs.len() implies (#[trigger] pairs[i]).0 != (
    #[trigger] pairs[j]).0 by {
        assert(name_key(pairs[i].0) != name_key(pairs[j].0));
    }
}

/// The TLS parameters of every build are usable.
pub proof fn lemma_tls_ok(v: Impersonate)
    ensures
        tls_ok(tls(v)),
{
    lemma_chromium_order();
    lemma_chromium_ech_order();
    assert(tls(v).cipher_suites.len() == cipher_suites(v).len());
    assert(tls(v).sigalgs.len() == sigalgs(v).len());
}

/// The TLS parameters of a build.
pub fn create_tls(v: Impersonate) -> (r: TlsSettings)
    ensures
        r@ == tls(v),
{
    TlsSettings {
        cipher_suites: cipher_suites_of(v),
        curves: curves_of(v),
        sigalgs: sigalgs_of(v),
        alpn: vec![AlpnProtocol::Http2, AlpnProtocol::Http1],
        min_version: TlsVersion::Tls1_2,
        max_version: TlsVersion::Tls1_3,
        extensions_order: extensions_order_of(v),
        permute_extensions: permutes_of(v),
        ech_grease: sends_ech_of(v),
        grease: true,
        ocsp_stapling: true,
        session_tickets: true,
        pre_shared_key: true,
        cert_compression: cert_compression_of(v),
        record_size_limit: None,
        padding: pads_of(v),
    }
}

/// Sets the default headers of a build on a header map, in the order
/// in which the build sends them.
pub(crate) fn create_headers(v: Impersonate, headers: HeaderMap<HeaderValue>) -> (r: HeaderMap<HeaderValue>)
    requires
        room_for(header_entries(headers), static_pairs(header_list(v))),
    ensures
        header_entries(r) == merge(header_entries(headers), static_pairs(header_list(v))),
{
    let list: Vec<(&'static str, &'static str)> = vec![
        (SEC_CH_UA, brands_of(v)),
        (SEC_CH_UA_MOBILE, NOT_MOBILE),
        (SEC_CH_UA_PLATFORM, PLATFORM_WINDOWS),
        (UPGRADE_INSECURE_REQUESTS, UPGRADE_YES),
        (USER_AGENT, user_agent_of(v)),
        (ACCEPT, accept_of(v)),
        (SEC_FETCH_SITE, FETCH_SITE_NONE),
        (SEC_FETCH_MODE, FETCH_MODE_NAVIGATE),
        (SEC_FETCH_USER, FETCH_USER_YES),
        (SEC_FETCH_DEST, FETCH_DEST_DOCUMENT),
        (ACCEPT_ENCODING, accept_encoding_of(v)),
        (ACCEPT_LANGUAGE, accept_language_of(v)),
    ];
    proof {
        lemma_headers(v);
        assert(list@ == header_list(v));
    }
    insert_all(headers, &list)
}

/// Everything that the catalog holds for a build, with its default
/// headers set on the header map given.
pub(crate) fn get_settings(v: Impersonate, headers: HeaderMap<HeaderValue>) -> (r: ImpersonateSettings)
    requires
        room_for(header_entries(headers), static_pairs(header_list(v))),
    ensures
        r.tls@ == tls(v),
        r.http2 == http2(v),
        header_entries(r.headers) == merge(header_entries(headers), static_pairs(header_list(v))),
        r.gzip,
        r.brotli == offers_brotli(v),
        r.deflate == offers_brotli(v),
        r.zstd == offers_zstd(v),
{
    ImpersonateSettings {
        tls: create_tls(v),
        http2: http2_of(v),
        headers: create_headers(v, headers),
        gzip: true,
        brotli: offers_brotli_of(v),
        deflate: offers_brotli_of(v),
        zstd: offers_zstd_of(v),
    }
}

} // verus!
