//! The builds of OkHttp: what each offers in TLS, announces in HTTP/2 and
//! sends as default headers. Asked about a target of another family, the
//! functions here answer as for okhttp_5.

use vstd::prelude::*;
use http::{HeaderMap, HeaderValue};
use crate::catalog::lists::{
    chromium_ciphers,
    chromium_ciphers_list,
    lemma_okhttp_order,
    okhttp_3_11_ciphers,
    okhttp_3_11_ciphers_list,
    okhttp_3_13_ciphers,
    okhttp_3_13_ciphers_list,
    okhttp_3_9_ciphers,
    okhttp_3_9_ciphers_list,
    okhttp_order,
    okhttp_order_list,
    okhttp_sigalgs,
    okhttp_sigalgs_list,
};
use crate::catalog::names::{
    ACCEPT,
    ACCEPT_ANY,
    ACCEPT_ENCODING,
    ACCEPT_LANGUAGE,
    ENCODING_GZIP,
    ENCODING_GZIP_DEFLATE_BR,
    LANG_DE_DE,
    MARK_OKHTTP,
    USER_AGENT,
    lemma_header_names,
    lemma_shared_values,
    name_key,
};
use crate::catalog::ImpersonateSettings;
use crate::headers::{
    ascii_bytes, distinct_names, has_name, header_entries, insert_all, merge, room_for,
    static_pairs, valid_name, valid_value,
};
use crate::http2::Http2Data;
use crate::identity::Impersonate;
use crate::text::{mentions, occurs_at, texts};
use crate::tls::{
    tls_ok, AlpnProtocol, CertCompression, SslCurve, TlsProfile, TlsSettings, TlsVersion,
};

verus! {

/// User-Agent of okhttp_3.9.
pub const UA_3_9: &'static str = "okhttp/3.9";

/// How the User-Agent of okhttp_3.9 names its version.
pub const TOKEN_3_9: &'static str = "okhttp/3.9";

/// User-Agent of okhttp_3.11.
pub const UA_3_11: &'static str = "okhttp/3.11";

/// How the User-Agent of okhttp_3.11 names its version.
pub const TOKEN_3_11: &'static str = "okhttp/3.11";

/// User-Agent of okhttp_3.13.
pub const UA_3_13: &'static str = "okhttp/3.13";

/// How the User-Agent of okhttp_3.13 names its version.
pub const TOKEN_3_13: &'static str = "okhttp/3.13";

/// User-Agent of okhttp_3.14.
pub const UA_3_14: &'static str = "okhttp/3.14";

/// How the User-Agent of okhttp_3.14 names its version.
pub const TOKEN_3_14: &'static str = "okhttp/3.14";

/// User-Agent of okhttp_4.9.
pub const UA_4_9: &'static str = "okhttp/4.9";

/// How the User-Agent of okhttp_4.9 names its version.
pub const TOKEN_4_9: &'static str = "okhttp/4.9";

/// User-Agent of okhttp_4.10.
pub const UA_4_10: &'static str = "okhttp/4.10";

/// How the User-Agent of okhttp_4.10 names its version.
pub const TOKEN_4_10: &'static str = "okhttp/4.10";

/// User-Agent of okhttp_5.
pub const UA_5: &'static str = "okhttp/5";

/// How the User-Agent of okhttp_5 names its version.
pub const TOKEN_5: &'static str = "okhttp/5";

/// The User-Agent that a build sends.
pub open spec fn user_agent(v: Impersonate) -> &'static str {
    match v {
        Impersonate::OkHttp3_9 => UA_3_9,
        Impersonate::OkHttp3_11 => UA_3_11,
        Impersonate::OkHttp3_13 => UA_3_13,
        Impersonate::OkHttp3_14 => UA_3_14,
        Impersonate::OkHttp4_9 => UA_4_9,
        Impersonate::OkHttp4_10 => UA_4_10,
        _ => UA_5,
    }
}

/// The User-Agent that a build sends.
fn user_agent_of(v: Impersonate) -> (r: &'static str)
    ensures
        r == user_agent(v),
{
    match v {
        Impersonate::OkHttp3_9 => UA_3_9,
        Impersonate::OkHttp3_11 => UA_3_11,
        Impersonate::OkHttp3_13 => UA_3_13,
        Impersonate::OkHttp3_14 => UA_3_14,
        Impersonate::OkHttp4_9 => UA_4_9,
        Impersonate::OkHttp4_10 => UA_4_10,
        _ => UA_5,
    }
}

/// How the User-Agent of a build names its version.
pub open spec fn version_token(v: Impersonate) -> &'static str {
    match v {
        Impersonate::OkHttp3_9 => TOKEN_3_9,
        Impersonate::OkHttp3_11 => TOKEN_3_11,
        Impersonate::OkHttp3_13 => TOKEN_3_13,
        Impersonate::OkHttp3_14 => TOKEN_3_14,
        Impersonate::OkHttp4_9 => TOKEN_4_9,
        Impersonate::OkHttp4_10 => TOKEN_4_10,
        _ => TOKEN_5,
    }
}

/// The Accept that a build sends.
pub open spec fn accept(v: Impersonate) -> &'static str {
    ACCEPT_ANY
}

/// The Accept that a build sends.
fn accept_of(v: Impersonate) -> (r: &'static str)
    ensures
        r == accept(v),
{
    ACCEPT_ANY
}

/// The Accept-Encoding that a build sends.
pub open spec fn accept_encoding(v: Impersonate) -> &'static str {
    match v {
        Impersonate::OkHttp3_9
        | Impersonate::OkHttp3_11
        | Impersonate::OkHttp3_13
        | Impersonate::OkHttp3_14
        | Impersonate::OkHttp4_9
        | Impersonate::OkHttp4_10 => ENCODING_GZIP_DEFLATE_BR,
        _ => ENCODING_GZIP,
    }
}

/// The Accept-Encoding that a build sends.
fn accept_encoding_of(v: Impersonate) -> (r: &'static str)
    ensures
        r == accept_encoding(v),
{
    match v {
        Impersonate::OkHttp3_9
        | Impersonate::OkHttp3_11
        | Impersonate::OkHttp3_13
        | Impersonate::OkHttp3_14
        | Impersonate::OkHttp4_9
        | Impersonate::OkHttp4_10 => ENCODING_GZIP_DEFLATE_BR,
        _ => ENCODING_GZIP,
    }
}

/// The Accept-Language that a build sends.
pub open spec fn accept_language(v: Impersonate) -> &'static str {
    LANG_DE_DE
}

/// The Accept-Language that a build sends.
fn accept_language_of(v: Impersonate) -> (r: &'static str)
    ensures
        r == accept_language(v),
{
    LANG_DE_DE
}

/// The cipher suites that a build offers, in its order.
pub open spec fn cipher_suites(v: Impersonate) -> Seq<&'static str> {
    match v {
        Impersonate::OkHttp3_9 => okhttp_3_9_ciphers(),
        Impersonate::OkHttp3_11 => okhttp_3_11_ciphers(),
        Impersonate::OkHttp3_13
        | Impersonate::OkHttp3_14 => okhttp_3_13_ciphers(),
        _ => chromium_ciphers(),
    }
}

/// The cipher suites that a build offers, in its order.
fn cipher_suites_of(v: Impersonate) -> (r: Vec<&'static str>)
    ensures
        r@ == cipher_suites(v),
{
    match v {
        Impersonate::OkHttp3_9 => okhttp_3_9_ciphers_list(),
        Impersonate::OkHttp3_11 => okhttp_3_11_ciphers_list(),
        Impersonate::OkHttp3_13
        | Impersonate::OkHttp3_14 => okhttp_3_13_ciphers_list(),
        _ => chromium_ciphers_list(),
    }
}

/// The signature schemes that a build offers, in its order.
pub open spec fn sigalgs(v: Impersonate) -> Seq<&'static str> {
    okhttp_sigalgs()
}

/// The signature schemes that a build offers, in its order.
fn sigalgs_of(v: Impersonate) -> (r: Vec<&'static str>)
    ensures
        r@ == sigalgs(v),
{
    okhttp_sigalgs_list()
}

/// The groups that a build offers, in its order.
pub open spec fn curves(v: Impersonate) -> Seq<SslCurve> {
    seq![SslCurve::X25519, SslCurve::Secp256r1, SslCurve::Secp384r1]
}

/// The groups that a build offers, in its order.
fn curves_of(v: Impersonate) -> (r: Vec<SslCurve>)
    ensures
        r@ == curves(v),
{
    vec![SslCurve::X25519, SslCurve::Secp256r1, SslCurve::Secp384r1]
}

/// The extensions of a build in the order of its ClientHello.
pub open spec fn extensions_order(v: Impersonate) -> Seq<u16> {
    okhttp_order()
}

/// The extensions of a build in the order of its ClientHello.
fn extensions_order_of(v: Impersonate) -> (r: Vec<u16>)
    ensures
        r@ == extensions_order(v),
{
    okhttp_order_list()
}

/// The certificate-compression algorithms that a build advertises.
pub open spec fn cert_compression(v: Impersonate) -> Seq<CertCompression> {
    Seq::empty()
}

/// The certificate-compression algorithms that a build advertises.
fn cert_compression_of(v: Impersonate) -> (r: Vec<CertCompression>)
    ensures
        r@ == cert_compression(v),
{
    Vec::new()
}

/// Whether a build shuffles its extensions.
pub open spec fn permutes(v: Impersonate) -> bool {
    false
}

/// Whether a build shuffles its extensions.
fn permutes_of(v: Impersonate) -> (r: bool)
    ensures
        r == permutes(v),
{
    false
}

/// Whether a build sends GREASE encrypted ClientHello.
pub open spec fn sends_ech(v: Impersonate) -> bool {
    false
}

/// Whether a build sends GREASE encrypted ClientHello.
fn sends_ech_of(v: Impersonate) -> (r: bool)
    ensures
        r == sends_ech(v),
{
    false
}

/// Whether a build pads its ClientHello.
pub open spec fn pads(v: Impersonate) -> bool {
    false
}

/// Whether a build pads its ClientHello.
fn pads_of(v: Impersonate) -> (r: bool)
    ensures
        r == pads(v),
{
    false
}

/// Whether a build takes Zstandard bodies.
pub open spec fn offers_zstd(v: Impersonate) -> bool {
    false
}

/// Whether a build takes Zstandard bodies.
fn offers_zstd_of(v: Impersonate) -> (r: bool)
    ensures
        r == offers_zstd(v),
{
    false
}

/// Whether a build takes Brotli and deflate bodies.
pub open spec fn offers_brotli(v: Impersonate) -> bool {
    match v {
        Impersonate::OkHttp3_9
        | Impersonate::OkHttp3_11
        | Impersonate::OkHttp3_13
        | Impersonate::OkHttp3_14
        | Impersonate::OkHttp4_9
        | Impersonate::OkHttp4_10 => true,
        _ => false,
    }
}

/// Whether a build takes Brotli and deflate bodies.
fn offers_brotli_of(v: Impersonate) -> (r: bool)
    ensures
        r == offers_brotli(v),
{
    match v {
        Impersonate::OkHttp3_9
        | Impersonate::OkHttp3_11
        | Impersonate::OkHttp3_13
        | Impersonate::OkHttp3_14
        | Impersonate::OkHttp4_9
        | Impersonate::OkHttp4_10 => true,
        _ => false,
    }
}

/// The HTTP/2 parameters of a build.
pub open spec fn http2(v: Impersonate) -> Http2Data {
    Http2Data {
            initial_stream_window_size: Some(16777216u32),
            initial_connection_window_size: Some(16777216u32),
            max_concurrent_streams: None,
            max_header_list_size: None,
            header_table_size: None,
            enable_push: None,
        }
}

/// The HTTP/2 parameters of a build.
fn http2_of(v: Impersonate) -> (r: Http2Data)
    ensures
        r == http2(v),
{
    Http2Data {
            initial_stream_window_size: Some(16777216u32),
            initial_connection_window_size: Some(16777216u32),
            max_concurrent_streams: None,
            max_header_list_size: None,
            header_table_size: None,
            enable_push: None,
        }
}

/// The TLS parameters of a build.
pub open spec fn tls(v: Impersonate) -> TlsProfile {
    TlsProfile {
        cipher_suites: texts(cipher_suites(v)),
        curves: curves(v),
        sigalgs: texts(sigalgs(v)),
        alpn: seq![AlpnProtocol::Http2, AlpnProtocol::Http1],
        min_version: TlsVersion::Tls1_2,
        max_version: TlsVersion::Tls1_3,
        extensions_order: extensions_order(v),
        permute_extensions: permutes(v),
        ech_grease: sends_ech(v),
        grease: false,
        ocsp_stapling: true,
        session_tickets: true,
        pre_shared_key: false,
        cert_compression: cert_compression(v),
        record_size_limit: None,
        padding: pads(v),
    }
}

/// The default headers of a build, in the order in which it sends them.
pub open spec fn header_list(v: Impersonate) -> Seq<(&'static str, &'static str)> {
    seq![
        (ACCEPT, accept(v)),
        (ACCEPT_LANGUAGE, accept_language(v)),
        (USER_AGENT, user_agent(v)),
        (ACCEPT_ENCODING, accept_encoding(v)),
    ]
}

proof fn lemma_values_3_9()
    ensures
        valid_value(UA_3_9@),
        occurs_at(UA_3_9@, TOKEN_3_9@, 0),
        occurs_at(UA_3_9@, MARK_OKHTTP@, 0),
{
    reveal_strlit("okhttp/3.9");
    reveal_strlit("okhttp/");
    assert(UA_3_9@.subrange(0, 10) =~= TOKEN_3_9@);
    assert(UA_3_9@.subrange(0, 7) =~= MARK_OKHTTP@);
}

proof fn lemma_values_3_11()
    ensures
        valid_value(UA_3_11@),
        occurs_at(UA_3_11@, TOKEN_3_11@, 0),
        occurs_at(UA_3_11@, MARK_OKHTTP@, 0),
{
    reveal_strlit("okhttp/3.11");
    reveal_strlit("okhttp/");
    assert(UA_3_11@.subrange(0, 11) =~= TOKEN_3_11@);
    assert(UA_3_11@.subrange(0, 7) =~= MARK_OKHTTP@);
}

proof fn lemma_values_3_13()
    ensures
        valid_value(UA_3_13@),
        occurs_at(UA_3_13@, TOKEN_3_13@, 0),
        occurs_at(UA_3_13@, MARK_OKHTTP@, 0),
{
    reveal_strlit("okhttp/3.13");
    reveal_strlit("okhttp/");
    assert(UA_3_13@.subrange(0, 11) =~= TOKEN_3_13@);
    assert(UA_3_13@.subrange(0, 7) =~= MARK_OKHTTP@);
}

proof fn lemma_values_3_14()
    ensures
        valid_value(UA_3_14@),
        occurs_at(UA_3_14@, TOKEN_3_14@, 0),
        occurs_at(UA_3_14@, MARK_OKHTTP@, 0),
{
    reveal_strlit("okhttp/3.14");
    reveal_strlit("okhttp/");
    assert(UA_3_14@.subrange(0, 11) =~= TOKEN_3_14@);
    assert(UA_3_14@.subrange(0, 7) =~= MARK_OKHTTP@);
}

proof fn lemma_values_4_9()
    ensures
        valid_value(UA_4_9@),
        occurs_at(UA_4_9@, TOKEN_4_9@, 0),
        occurs_at(UA_4_9@, MARK_OKHTTP@, 0),
{
    reveal_strlit("okhttp/4.9");
    reveal_strlit("okhttp/");
    assert(UA_4_9@.subrange(0, 10) =~= TOKEN_4_9@);
    assert(UA_4_9@.subrange(0, 7) =~= MARK_OKHTTP@);
}

proof fn lemma_values_4_10()
    ensures
        valid_value(UA_4_10@),
        occurs_at(UA_4_10@, TOKEN_4_10@, 0),
        occurs_at(UA_4_10@, MARK_OKHTTP@, 0),
{
    reveal_strlit("okhttp/4.10");
    reveal_strlit("okhttp/");
    assert(UA_4_10@.subrange(0, 11) =~= TOKEN_4_10@);
    assert(UA_4_10@.subrange(0, 7) =~= MARK_OKHTTP@);
}

proof fn lemma_values_5()
    ensures
        valid_value(UA_5@),
        occurs_at(UA_5@, TOKEN_5@, 0),
        occurs_at(UA_5@, MARK_OKHTTP@, 0),
{
    reveal_strlit("okhttp/5");
    reveal_strlit("okhttp/");
    assert(UA_5@.subrange(0, 8) =~= TOKEN_5@);
    assert(UA_5@.subrange(0, 7) =~= MARK_OKHTTP@);
}

/// The User-Agent of a build is a well-formed header value that names
/// the product and the version of the build.
pub proof fn lemma_user_agent(v: Impersonate)
    ensures
        valid_value(user_agent(v)@),
        mentions(user_agent(v)@, version_token(v)@),
        mentions(user_agent(v)@, MARK_OKHTTP@),
{
    match v {
        Impersonate::OkHttp3_9 => {
            lemma_values_3_9();
        },
        Impersonate::OkHttp3_11 => {
            lemma_values_3_11();
        },
        Impersonate::OkHttp3_13 => {
            lemma_values_3_13();
        },
        Impersonate::OkHttp3_14 => {
            lemma_values_3_14();
        },
        Impersonate::OkHttp4_9 => {
            lemma_values_4_9();
        },
        Impersonate::OkHttp4_10 => {
            lemma_values_4_10();
        },
        _ => {
            lemma_values_5();
        },
    }
}

/// The default headers of a build are well formed, each name occurs
/// once, and the User-Agent is among them.
pub proof fn lemma_headers(v: Impersonate)
    ensures
        header_list(v).len() == 4,
        forall|i: int|
            0 <= i < header_list(v).len() ==> valid_name((#[trigger] header_list(v)[i]).0@)
                && valid_value(header_list(v)[i].1@),
        distinct_names(static_pairs(header_list(v))),
        static_pairs(header_list(v))[2] == (USER_AGENT@, ascii_bytes(user_agent(v)@)),
        has_name(static_pairs(header_list(v)), USER_AGENT@),
{
    lemma_header_names();
    lemma_shared_values();
    lemma_user_agent(v);
    let list = header_list(v);
    let pairs = static_pairs(list);
    assert(pairs[0].0 == ACCEPT@);
    assert(pairs[1].0 == ACCEPT_LANGUAGE@);
    assert(pairs[2].0 == USER_AGENT@);
    assert(pairs[3].0 == ACCEPT_ENCODING@);
    assert forall|i: int, j: int| 0 <= i < j < pairs.len() implies (#[trigger] pairs[i]).0 != (
    #[trigger] pairs[j]).0 by {
        assert(name_key(pairs[i].0) != name_key(pairs[j].0));
    }
}

/// The TLS parameters of every build are usable.
pub proof fn lemma_tls_ok(v: Impersonate)
    ensures
        tls_ok(tls(v)),
{
    lemma_okhttp_order();
    assert(tls(v).cipher_suites.len() == cipher_suites(v).len());
    assert(tls(v).sigalgs.len() == sigalgs(v).len());
}

/// The TLS parameters of a build.
pub fn create_tls(v: Impersonate) -> (r: TlsSettings)
    ensures
        r@ == tls(v),
{
    TlsSettings {
        cipher_suites: cipher_suites_of(v),
        curves: curves_of(v),
        sigalgs: sigalgs_of(v),
        alpn: vec![AlpnProtocol::Http2, AlpnProtocol::Http1],
        min_version: TlsVersion::Tls1_2,
        max_version: TlsVersion::Tls1_3,
        extensions_order: extensions_order_of(v),
        permute_extensions: permutes_of(v),
        ech_grease: sends_ech_of(v),
        grease: false,
        ocsp_stapling: true,
        session_tickets: true,
        pre_shared_key: false,
        cert_compression: cert_compression_of(v),
        record_size_limit: None,
        padding: pads_of(v),
    }
}

/// Sets the default headers of a build on a header map, in the order
/// in which the build sends them.
pub(crate) fn create_headers(v: Impersonate, headers: HeaderMap<HeaderValue>) -> (r: HeaderMap<HeaderValue>)
    requires
        room_for(header_entries(headers), static_pairs(header_list(v))),
    ensures
        header_entries(r) == merge(header_entries(headers), static_pairs(header_list(v))),
{
    let list: Vec<(&'static str, &'static str)> = vec![
        (ACCEPT, accept_of(v)),
        (ACCEPT_LANGUAGE, accept_language_of(v)),
        (USER_AGENT, user_agent_of(v)),
        (ACCEPT_ENCODING, accept_encoding_of(v)),
    ];
    proof {
        lemma_headers(v);
        assert(list@ == header_list(v));
    }
    insert_all(headers, &list)
}

/// Everything that the catalog holds for a build, with its default
/// headers set on the header map given.
pub(crate) fn get_settings(v: Impersonate, headers: HeaderMap<HeaderValue>) -> (r: ImpersonateSettings)
    requires
        room_for(header_entries(headers), static_pairs(header_list(v))),
    ensures
        r.tls@ == tls(v),
        r.http2 == http2(v),
        header_entries(r.headers) == merge(header_entries(headers), static_pairs(header_list(v))),
        r.gzip,
        r.brotli == offers_brotli(v),
        r.deflate == offers_brotli(v),
        r.zstd == offers_zstd(v),
{
    ImpersonateSettings {
        tls: create_tls(v),
        http2: http2_of(v),
        headers: create_headers(v, headers),
        gzip: true,
        brotli: offers_brotli_of(v),
        deflate: offers_brotli_of(v),
        zstd: offers_zstd_of(v),
    }
}

} // verus!
