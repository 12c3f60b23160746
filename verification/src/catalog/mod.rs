//! The catalog: for every impersonation target, the one record of what
//! that build offers in TLS, announces in HTTP/2 and sends as headers.

pub mod chrome;
pub mod edge;
pub mod lists;
pub mod names;
pub mod okhttp;
pub mod safari;

use vstd::prelude::*;
use http::{HeaderMap, HeaderValue};
use crate::catalog::names::{
    lemma_header_names, lemma_shared_values, FIREFOX_USER_AGENT, MARK_CHROME, MARK_EDGE,
    MARK_FIREFOX, MARK_OKHTTP, MARK_SAFARI, USER_AGENT,
};
use crate::headers::{
    ascii_bytes, contains_name, distinct_names, empty_map, has_name, header_entries,
    insert_static, law_merge_appends_new, lemma_put_absent, lemma_room_when_few, name_count,
    name_total, static_pairs, valid_value, MOST_NAMES,
};
use crate::http2::{http2_ok, Http2Data};
use crate::identity::{family, ClientProfile, Impersonate};
use crate::text::mentions;
use crate::tls::{tls_ok, TlsProfile, TlsSettings, EXT_ENCRYPTED_CLIENT_HELLO};

verus! {

/// Everything that configures a client to pass for one build.
#[derive(Debug)]
pub struct ImpersonateSettings {
    /// What the ClientHello offers.
    pub tls: TlsSettings,
    /// What the HTTP/2 connection announces.
    pub http2: Http2Data,
    /// The default request headers, in the order in which they are sent.
    pub headers: HeaderMap<HeaderValue>,
    /// Whether gzip bodies are taken.
    pub gzip: bool,
    /// Whether Brotli bodies are taken.
    pub brotli: bool,
    /// Whether deflate bodies are taken.
    pub deflate: bool,
    /// Whether Zstandard bodies are taken.
    pub zstd: bool,
}

/// An `ImpersonateSettings` as mathematical values: one record of the
/// catalog.
pub struct ProfileEntry {
    pub tls: TlsProfile,
    pub http2: Http2Data,
    pub default_headers: Seq<(Seq<char>, Seq<u8>)>,
    pub gzip: bool,
    pub brotli: bool,
    pub deflate: bool,
    pub zstd: bool,
}

impl View for ImpersonateSettings {
    type V = ProfileEntry;

    open spec fn view(&self) -> ProfileEntry {
        ProfileEntry {
            tls: self.tls@,
            http2: self.http2,
            default_headers: header_entries(self.headers),
            gzip: self.gzip,
            brotli: self.brotli,
            deflate: self.deflate,
            zstd: self.zstd,
        }
    }
}

/// The TLS parameters of a target.
pub open spec fn tls_of(v: Impersonate) -> TlsProfile {
    match family(v) {
        ClientProfile::Chrome => chrome::tls(v),
        ClientProfile::Edge => edge::tls(v),
        ClientProfile::Safari => safari::tls(v),
        _ => okhttp::tls(v),
    }
}

/// The HTTP/2 parameters of a target.
pub open spec fn http2_of(v: Impersonate) -> Http2Data {
    match family(v) {
        ClientProfile::Chrome => chrome::http2(v),
        ClientProfile::Edge => edge::http2(v),
        ClientProfile::Safari => safari::http2(v),
        _ => okhttp::http2(v),
    }
}

/// The default headers of a target as written in the catalog, in order.
pub open spec fn header_list_of(v: Impersonate) -> Seq<(&'static str, &'static str)> {
    match family(v) {
        ClientProfile::Chrome => chrome::header_list(v),
        ClientProfile::Edge => edge::header_list(v),
        ClientProfile::Safari => safari::header_list(v),
        _ => okhttp::header_list(v),
    }
}

/// The User-Agent of a target.
pub open spec fn user_agent_of(v: Impersonate) -> &'static str {
    match family(v) {
        ClientProfile::Chrome => chrome::user_agent(v),
        ClientProfile::Edge => edge::user_agent(v),
        ClientProfile::Safari => safari::user_agent(v),
        _ => okhttp::user_agent(v),
    }
}

/// How the User-Agent of a target names the version: `Chrome/126`,
/// `Edg/122`, `Version/17.4.1`, `okhttp/4.10`.
pub open spec fn version_token_of(v: Impersonate) -> &'static str {
    match family(v) {
        ClientProfile::Chrome => chrome::version_token(v),
        ClientProfile::Edge => edge::version_token(v),
        ClientProfile::Safari => safari::version_token(v),
        _ => okhttp::version_token(v),
    }
}

/// How the User-Agent of a family names the product.
pub open spec fn product_mark(profile: ClientProfile) -> &'static str {
    match profile {
        ClientProfile::Chrome => MARK_CHROME,
        ClientProfile::Edge => MARK_EDGE,
        ClientProfile::Safari => MARK_SAFARI,
        ClientProfile::OkHttp => MARK_OKHTTP,
        ClientProfile::Firefox => MARK_FIREFOX,
    }
}

/// The User-Agent that stands in for a family where a profile names none.
pub open spec fn default_user_agent(profile: ClientProfile) -> &'static str {
    match profile {
        ClientProfile::Chrome => chrome::UA_126,
        ClientProfile::Edge => edge::UA_122,
        ClientProfile::Safari => safari::UA_17_4_1,
        ClientProfile::OkHttp => okhttp::UA_5,
        ClientProfile::Firefox => FIREFOX_USER_AGENT,
    }
}

/// Whether a target takes Brotli and deflate bodies.
pub open spec fn offers_brotli_of(v: Impersonate) -> bool {
    match family(v) {
        ClientProfile::Chrome => chrome::offers_brotli(v),
        ClientProfile::Edge => edge::offers_brotli(v),
        ClientProfile::Safari => safari::offers_brotli(v),
        _ => okhttp::offers_brotli(v),
    }
}

/// Whether a target takes Zstandard bodies.
pub open spec fn offers_zstd_of(v: Impersonate) -> bool {
    match family(v) {
        ClientProfile::Chrome => chrome::offers_zstd(v),
        ClientProfile::Edge => edge::offers_zstd(v),
        ClientProfile::Safari => safari::offers_zstd(v),
        _ => okhttp::offers_zstd(v),
    }
}

/// The record that the catalog holds for a target.
pub open spec fn entry(v: Impersonate) -> ProfileEntry {
    ProfileEntry {
        tls: tls_of(v),
        http2: http2_of(v),
        default_headers: static_pairs(header_list_of(v)),
        gzip: true,
        brotli: offers_brotli_of(v),
        deflate: offers_brotli_of(v),
        zstd: offers_zstd_of(v),
    }
}

/// What holds of a record that can configure a client: its TLS and
/// HTTP/2 parameters are usable, no header is named twice, and one of the
/// headers is the User-Agent.
pub open spec fn entry_ok(e: ProfileEntry) -> bool {
    &&& tls_ok(e.tls)
    &&& http2_ok(e.http2)
    &&& distinct_names(e.default_headers)
    &&& has_name(e.default_headers, USER_AGENT@)
}

/// The headers with the User-Agent of the family put in where they name
/// none.
pub open spec fn with_user_agent(
    headers: Seq<(Seq<char>, Seq<u8>)>,
    profile: ClientProfile,
) -> Seq<(Seq<char>, Seq<u8>)> {
    if has_name(headers, USER_AGENT@) {
        headers
    } else {
        headers.push((USER_AGENT@, ascii_bytes(default_user_agent(profile)@)))
    }
}

/// The User-Agent that stands in for each family is a well-formed header
/// value.
proof fn lemma_default_user_agent(profile: ClientProfile)
    ensures
        valid_value(default_user_agent(profile)@),
{
    lemma_shared_values();
    chrome::lemma_user_agent(Impersonate::Chrome126);
    edge::lemma_user_agent(Impersonate::Edge122);
    safari::lemma_user_agent(Impersonate::Safari17_4_1);
    okhttp::lemma_user_agent(Impersonate::OkHttp5);
}

/// The User-Agent that stands in for a family.
fn default_user_agent_of(profile: ClientProfile) -> (r: &'static str)
    ensures
        r == default_user_agent(profile),
{
    match profile {
        ClientProfile::Chrome => chrome::UA_126,
        ClientProfile::Edge => edge::UA_122,
        ClientProfile::Safari => safari::UA_17_4_1,
        ClientProfile::OkHttp => okhttp::UA_5,
        ClientProfile::Firefox => FIREFOX_USER_AGENT,
    }
}

/// Whether headers can be given a User-Agent: they name one already, or
/// the map that holds them has room for one.
pub open spec fn can_have_user_agent(headers: Seq<(Seq<char>, Seq<u8>)>) -> bool {
    has_name(headers, USER_AGENT@) || name_count(headers) <= MOST_NAMES
}

/// Gives the headers a User-Agent where they have none: that of the
/// family, appended. Headers that name one are left as they are. A map
/// that names none and has no room for one comes back untouched, as the
/// error.
pub fn ensure_user_agent(headers: HeaderMap<HeaderValue>, profile: ClientProfile) -> (r: Result<
    HeaderMap<HeaderValue>,
    HeaderMap<HeaderValue>,
>)
    ensures
        match r {
            Ok(m) => can_have_user_agent(header_entries(headers)) && header_entries(m)
                == with_user_agent(header_entries(headers), profile),
            Err(m) => !can_have_user_agent(header_entries(headers)) && header_entries(m)
                == header_entries(headers),
        },
{
    proof {
        lemma_header_names();
        lemma_default_user_agent(profile);
    }
    let mut map = headers;
    if contains_name(&map, USER_AGENT) {
        return Ok(map);
    }
    if name_total(&map) > MOST_NAMES {
        return Err(map);
    }
    proof {
        lemma_put_absent(
            header_entries(map),
            USER_AGENT@,
            ascii_bytes(default_user_agent(profile)@),
        );
    }
    insert_static(&mut map, USER_AGENT, default_user_agent_of(profile));
    Ok(map)
}

/// The headers that a family starts from: its User-Agent alone.
pub fn create_profile_headers(profile: ClientProfile) -> (r: HeaderMap<HeaderValue>)
    ensures
        header_entries(r) == seq![(USER_AGENT@, ascii_bytes(default_user_agent(profile)@))],
{
    let mut map = empty_map();
    proof {
        lemma_header_names();
        lemma_default_user_agent(profile);
        lemma_put_absent(
            header_entries(map),
            USER_AGENT@,
            ascii_bytes(default_user_agent(profile)@),
        );
    }
    insert_static(&mut map, USER_AGENT, default_user_agent_of(profile));
    map
}

/// What the catalog says of the headers of each family's builds.
proof fn lemma_catalog_headers(v: Impersonate)
    ensures
        static_pairs(header_list_of(v)).len() <= 12,
        distinct_names(static_pairs(header_list_of(v))),
        has_name(static_pairs(header_list_of(v)), USER_AGENT@),
        exists|i: int|
            0 <= i < static_pairs(header_list_of(v)).len() && #[trigger] static_pairs(
                header_list_of(v),
            )[i] == (USER_AGENT@, ascii_bytes(user_agent_of(v)@)),
{
    match family(v) {
        ClientProfile::Chrome => {
            chrome::lemma_headers(v);
            assert(static_pairs(header_list_of(v))[4] == (
                USER_AGENT@,
                ascii_bytes(user_agent_of(v)@),
            ));
        },
        ClientProfile::Edge => {
            edge::lemma_headers(v);
            assert(static_pairs(header_list_of(v))[4] == (
                USER_AGENT@,
                ascii_bytes(user_agent_of(v)@),
            ));
        },
        ClientProfile::Safari => {
            safari::lemma_headers(v);
            assert(static_pairs(header_list_of(v))[0] == (
                USER_AGENT@,
                ascii_bytes(user_agent_of(v)@),
            ));
        },
        _ => {
            okhttp::lemma_headers(v);
            assert(static_pairs(header_list_of(v))[2] == (
                USER_AGENT@,
                ascii_bytes(user_agent_of(v)@),
            ));
        },
    }
}

/// The record of the catalog for a target. Every target has one.
pub fn get_config_from_ver(ver: Impersonate) -> (r: ImpersonateSettings)
    ensures
        r@ == entry(ver),
{
    let profile = ver.profile();
    let start = empty_map();
    let ghost declared = static_pairs(header_list_of(ver));
    proof {
        lemma_catalog_headers(ver);
        lemma_room_when_few(header_entries(start), declared);
        assert(Seq::<(Seq<char>, Seq<u8>)>::empty() + declared =~= declared);
        law_merge_appends_new(Seq::empty(), declared);
    }
    let settings = match profile {
        ClientProfile::Chrome => chrome::get_settings(ver, start),
        ClientProfile::Edge => edge::get_settings(ver, start),
        ClientProfile::Safari => safari::get_settings(ver, start),
        _ => okhttp::get_settings(ver, start),
    };
    let ImpersonateSettings { tls, http2, headers, gzip, brotli, deflate, zstd } = settings;
    let headers = match ensure_user_agent(headers, profile) {
        Ok(named) => named,
        Err(unnamed) => unnamed,
    };
    ImpersonateSettings { tls, http2, headers, gzip, brotli, deflate, zstd }
}

/// The catalog is complete and sound: every target has a record, with
/// cipher suites, groups, signature schemes, ALPN protocols and
/// extensions to offer, usable HTTP/2 parameters, and headers of which
/// none is named twice.
pub proof fn law_catalog_complete(v: Impersonate)
    ensures
        entry_ok(entry(v)),
        entry(v).tls.cipher_suites.len() > 0,
        entry(v).tls.curves.len() > 0,
        entry(v).tls.sigalgs.len() > 0,
        entry(v).tls.alpn.len() > 0,
        entry(v).tls.extensions_order.len() > 0,
{
    lemma_catalog_headers(v);
    match family(v) {
        ClientProfile::Chrome => chrome::lemma_tls_ok(v),
        ClientProfile::Edge => edge::lemma_tls_ok(v),
        ClientProfile::Safari => safari::lemma_tls_ok(v),
        _ => okhttp::lemma_tls_ok(v),
    }
}

/// In every record the oldest TLS version accepted is no newer than the
/// newest one offered.
pub proof fn law_version_bounds(v: Impersonate)
    ensures
        entry(v).tls.min_version.rank() <= entry(v).tls.max_version.rank(),
{
    law_catalog_complete(v);
}

/// The User-Agent among the headers of a record names the product of the
/// target's family and the version of the target.
pub proof fn law_user_agent_names_build(v: Impersonate)
    ensures
        exists|i: int|
            0 <= i < entry(v).default_headers.len() && #[trigger] entry(v).default_headers[i] == (
                USER_AGENT@,
                ascii_bytes(user_agent_of(v)@),
            ),
        mentions(user_agent_of(v)@, product_mark(family(v))@),
        mentions(user_agent_of(v)@, version_token_of(v)@),
{
    lemma_catalog_headers(v);
    let pairs = static_pairs(header_list_of(v));
    let at = choose|i: int|
        0 <= i < pairs.len() && #[trigger] pairs[i] == (USER_AGENT@, ascii_bytes(user_agent_of(v)@));
    assert(entry(v).default_headers[at] == (USER_AGENT@, ascii_bytes(user_agent_of(v)@)));
    match family(v) {
        ClientProfile::Chrome => chrome::lemma_user_agent(v),
        ClientProfile::Edge => edge::lemma_user_agent(v),
        ClientProfile::Safari => safari::lemma_user_agent(v),
        _ => okhttp::lemma_user_agent(v),
    }
}

/// A build that does not send encrypted ClientHello does not list the
/// extension, and one that does lists it.
pub proof fn law_ech_only_where_sent(v: Impersonate)
    ensures
        entry(v).tls.extensions_order.contains(EXT_ENCRYPTED_CLIENT_HELLO) == entry(
            v,
        ).tls.ech_grease,
{
    law_catalog_complete(v);
}

} // verus!
