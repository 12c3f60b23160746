//! The client builder as the profiles see it: what they set on it, what
//! the caller may lay over them, and what comes out when it is built.

use vstd::prelude::*;
use http::{HeaderMap, HeaderValue};
use crate::catalog::{
    entry, get_config_from_ver, http2_of, law_catalog_complete, tls_of, ImpersonateSettings,
};
use crate::headers::{empty_map, header_entries};
use crate::http2::{http2_ok, pseudo_header_order, pseudo_order_of, Http2Data, PseudoHeader};
use crate::identity::{family, ClientProfile, Error, Impersonate};
use crate::tls::{
    connector_steps, lemma_ech_keeps_ok, psk_last, step_views, steps_of, tls_ok, with_ech_grease,
    with_permutation, AlpnProtocol, TlsOverrides, TlsProfile, TlsSettings, TlsStep, TlsStepView,
    EXT_ENCRYPTED_CLIENT_HELLO,
};

verus! {

/// Collects the configuration of a client.
#[derive(Debug)]
pub struct ClientBuilder {
    tls: Option<TlsSettings>,
    http2: Http2Data,
    headers: HeaderMap<HeaderValue>,
    profile: Option<ClientProfile>,
    gzip: bool,
    brotli: bool,
    deflate: bool,
    zstd: bool,
    ech_grease: Option<bool>,
    permute_extensions: Option<bool>,
    accept_invalid_certs: bool,
    cookie_store: bool,
    tls_info: bool,
}

/// A `ClientBuilder` as mathematical values.
pub struct BuilderView {
    pub tls: Option<TlsProfile>,
    pub http2: Http2Data,
    pub default_headers: Seq<(Seq<char>, Seq<u8>)>,
    pub profile: Option<ClientProfile>,
    pub gzip: bool,
    pub brotli: bool,
    pub deflate: bool,
    pub zstd: bool,
    pub ech_grease: Option<bool>,
    pub permute_extensions: Option<bool>,
    pub accept_invalid_certs: bool,
    pub cookie_store: bool,
    pub tls_info: bool,
}

/// The configuration of a client, as built.
#[derive(Debug)]
pub struct ClientConfig {
    /// The TLS parameters in force, where a profile gave any.
    pub tls: Option<TlsSettings>,
    /// The HTTP/2 parameters.
    pub http2: Http2Data,
    /// The default request headers, in the order in which they are sent.
    pub headers: HeaderMap<HeaderValue>,
    /// The family whose pseudo-header order requests follow.
    pub profile: Option<ClientProfile>,
    /// Whether gzip bodies are taken.
    pub gzip: bool,
    /// Whether Brotli bodies are taken.
    pub brotli: bool,
    /// Whether deflate bodies are taken.
    pub deflate: bool,
    /// Whether Zstandard bodies are taken.
    pub zstd: bool,
    /// Whether any server certificate is accepted.
    pub accept_invalid_certs: bool,
    /// Whether cookies are kept.
    pub cookie_store: bool,
    /// Whether responses carry what is known of the TLS connection.
    pub tls_info: bool,
}

/// A `ClientConfig` as mathematical values.
pub struct ConfigView {
    pub tls: Option<TlsProfile>,
    pub http2: Http2Data,
    pub default_headers: Seq<(Seq<char>, Seq<u8>)>,
    pub profile: Option<ClientProfile>,
    pub gzip: bool,
    pub brotli: bool,
    pub deflate: bool,
    pub zstd: bool,
    pub accept_invalid_certs: bool,
    pub cookie_store: bool,
    pub tls_info: bool,
}

/// The view of TLS parameters that may be absent.
pub open spec fn tls_view(tls: Option<TlsSettings>) -> Option<TlsProfile> {
    match tls {
        Some(t) => Some(t@),
        None => None,
    }
}

impl View for ClientBuilder {
    type V = BuilderView;

    closed spec fn view(&self) -> BuilderView {
        BuilderView {
            tls: tls_view(self.tls),
            http2: self.http2,
            default_headers: header_entries(self.headers),
            profile: self.profile,
            gzip: self.gzip,
            brotli: self.brotli,
            deflate: self.deflate,
            zstd: self.zstd,
            ech_grease: self.ech_grease,
            permute_extensions: self.permute_extensions,
            accept_invalid_certs: self.accept_invalid_certs,
            cookie_store: self.cookie_store,
            tls_info: self.tls_info,
        }
    }
}

impl View for ClientConfig {
    type V = ConfigView;

    open spec fn view(&self) -> ConfigView {
        ConfigView {
            tls: tls_view(self.tls),
            http2: self.http2,
            default_headers: header_entries(self.headers),
            profile: self.profile,
            gzip: self.gzip,
            brotli: self.brotli,
            deflate: self.deflate,
            zstd: self.zstd,
            accept_invalid_certs: self.accept_invalid_certs,
            cookie_store: self.cookie_store,
            tls_info: self.tls_info,
        }
    }
}

/// A builder on which nothing is set.
pub open spec fn fresh() -> BuilderView {
    BuilderView {
        tls: None,
        http2: Http2Data {
            initial_stream_window_size: None,
            initial_connection_window_size: None,
            max_concurrent_streams: None,
            max_header_list_size: None,
            header_table_size: None,
            enable_push: None,
        },
        default_headers: Seq::empty(),
        profile: None,
        gzip: false,
        brotli: false,
        deflate: false,
        zstd: false,
        ech_grease: None,
        permute_extensions: None,
        accept_invalid_certs: false,
        cookie_store: false,
        tls_info: false,
    }
}

/// The builder after a target's record is set on it: TLS, HTTP/2,
/// headers, family and content encodings come from the record, and what
/// the caller chose besides stays.
pub open spec fn configured(v: Impersonate, b: BuilderView) -> BuilderView {
    BuilderView {
        tls: Some(tls_of(v)),
        http2: http2_of(v),
        default_headers: entry(v).default_headers,
        profile: Some(family(v)),
        gzip: entry(v).gzip,
        brotli: entry(v).brotli,
        deflate: entry(v).deflate,
        zstd: entry(v).zstd,
        ..b
    }
}

/// The TLS parameters with the caller's two switches laid over them. A
/// switch that the caller did not touch leaves the profile's choice.
pub open spec fn effective_tls(
    t: TlsProfile,
    ech_grease: Option<bool>,
    permute_extensions: Option<bool>,
) -> TlsProfile {
    let with_ech = match ech_grease {
        Some(on) => with_ech_grease(t, on),
        None => t,
    };
    match permute_extensions {
        Some(on) => with_permutation(with_ech, on),
        None => with_ech,
    }
}

/// The TLS parameters that a builder ends up with.
pub open spec fn built_tls(b: BuilderView) -> Option<TlsProfile> {
    match b.tls {
        Some(t) => Some(effective_tls(t, b.ech_grease, b.permute_extensions)),
        None => None,
    }
}

/// What building yields: `TlsConfigError` where the TLS parameters in
/// force are not usable, else `Http2ConfigError` where the HTTP/2
/// parameters are not, else the configuration.
pub open spec fn build_spec(b: BuilderView) -> Result<ConfigView, Error> {
    if built_tls(b) matches Some(t) && !tls_ok(t) {
        Err(Error::TlsConfigError)
    } else if !http2_ok(b.http2) {
        Err(Error::Http2ConfigError)
    } else {
        Ok(
            ConfigView {
                tls: built_tls(b),
                http2: b.http2,
                default_headers: b.default_headers,
                profile: b.profile,
                gzip: b.gzip,
                brotli: b.brotli,
                deflate: b.deflate,
                zstd: b.zstd,
                accept_invalid_certs: b.accept_invalid_certs,
                cookie_store: b.cookie_store,
                tls_info: b.tls_info,
            },
        )
    }
}

/// The view of what building returned.
pub open spec fn built_view(r: Result<ClientConfig, Error>) -> Result<ConfigView, Error> {
    match r {
        Ok(c) => Ok(c@),
        Err(e) => Err(e),
    }
}

impl ClientBuilder {
    /// A builder on which nothing is set.
    pub fn new() -> (r: ClientBuilder)
        ensures
            r@ == fresh(),
    {
        ClientBuilder {
            tls: None,
            http2: Http2Data::empty(),
            headers: empty_map(),
            profile: None,
            gzip: false,
            brotli: false,
            deflate: false,
            zstd: false,
            ech_grease: None,
            permute_extensions: None,
            accept_invalid_certs: false,
            cookie_store: false,
            tls_info: false,
        }
    }

    /// Sets the TLS parameters.
    pub fn use_tls(self, tls: TlsSettings) -> (r: ClientBuilder)
        ensures
            r@ == (BuilderView { tls: Some(tls@), ..self@ }),
    {
        ClientBuilder { tls: Some(tls), ..self }
    }

    /// Sets the family whose pseudo-header order requests follow.
    pub fn client_profile(self, profile: ClientProfile) -> (r: ClientBuilder)
        ensures
            r@ == (BuilderView { profile: Some(profile), ..self@ }),
    {
        ClientBuilder { profile: Some(profile), ..self }
    }

    /// Sets or clears SETTINGS_INITIAL_WINDOW_SIZE.
    pub fn http2_initial_stream_window_size(self, size: Option<u32>) -> (r: ClientBuilder)
        ensures
            r@ == (BuilderView {
                http2: Http2Data { initial_stream_window_size: size, ..self@.http2 },
                ..self@
            }),
    {
        let http2 = Http2Data { initial_stream_window_size: size, ..self.http2 };
        ClientBuilder { http2, ..self }
    }

    /// Sets or clears the size to which the connection window is opened.
    pub fn http2_initial_connection_window_size(self, size: Option<u32>) -> (r: ClientBuilder)
        ensures
            r@ == (BuilderView {
                http2: Http2Data { initial_connection_window_size: size, ..self@.http2 },
                ..self@
            }),
    {
        let http2 = Http2Data { initial_connection_window_size: size, ..self.http2 };
        ClientBuilder { http2, ..self }
    }

    /// Sets or clears SETTINGS_MAX_CONCURRENT_STREAMS.
    pub fn http2_max_concurrent_streams(self, max: Option<u32>) -> (r: ClientBuilder)
        ensures
            r@ == (BuilderView {
                http2: Http2Data { max_concurrent_streams: max, ..self@.http2 },
                ..self@
            }),
    {
        let http2 = Http2Data { max_concurrent_streams: max, ..self.http2 };
        ClientBuilder { http2, ..self }
    }

    /// Sets or clears SETTINGS_MAX_HEADER_LIST_SIZE.
    pub fn http2_max_header_list_size(self, max: Option<u32>) -> (r: ClientBuilder)
        ensures
            r@ == (BuilderView {
                http2: Http2Data { max_header_list_size: max, ..self@.http2 },
                ..self@
            }),
    {
        let http2 = Http2Data { max_header_list_size: max, ..self.http2 };
        ClientBuilder { http2, ..self }
    }

    /// Sets or clears SETTINGS_HEADER_TABLE_SIZE.
    pub fn http2_header_table_size(self, size: Option<u32>) -> (r: ClientBuilder)
        ensures
            r@ == (BuilderView {
                http2: Http2Data { header_table_size: size, ..self@.http2 },
                ..self@
            }),
    {
        let http2 = Http2Data { header_table_size: size, ..self.http2 };
        ClientBuilder { http2, ..self }
    }

    /// Sets or clears SETTINGS_ENABLE_PUSH.
    pub fn http2_enable_push(self, enabled: Option<bool>) -> (r: ClientBuilder)
        ensures
            r@ == (BuilderView {
                http2: Http2Data { enable_push: enabled, ..self@.http2 },
                ..self@
            }),
    {
        let http2 = Http2Data { enable_push: enabled, ..self.http2 };
        ClientBuilder { http2, ..self }
    }

    /// Puts a header map in the place of the default headers.
    pub fn replace_default_headers(self, headers: HeaderMap<HeaderValue>) -> (r: ClientBuilder)
        ensures
            r@ == (BuilderView { default_headers: header_entries(headers), ..self@ }),
    {
        ClientBuilder { headers, ..self }
    }

    /// Takes gzip bodies or not.
    pub fn gzip(self, enable: bool) -> (r: ClientBuilder)
        ensures
            r@ == (BuilderView { gzip: enable, ..self@ }),
    {
        ClientBuilder { gzip: enable, ..self }
    }

    /// Takes Brotli bodies or not.
    pub fn brotli(self, enable: bool) -> (r: ClientBuilder)
        ensures
            r@ == (BuilderView { brotli: enable, ..self@ }),
    {
        ClientBuilder { brotli: enable, ..self }
    }

    /// Takes deflate bodies or not.
    pub fn deflate(self, enable: bool) -> (r: ClientBuilder)
        ensures
            r@ == (BuilderView { deflate: enable, ..self@ }),
    {
        ClientBuilder { deflate: enable, ..self }
    }

    /// Takes Zstandard bodies or not.
    pub fn zstd(self, enable: bool) -> (r: ClientBuilder)
        ensures
            r@ == (BuilderView { zstd: enable, ..self@ }),
    {
        ClientBuilder { zstd: enable, ..self }
    }

    /// Makes the client pass for the given build.
    pub fn impersonate(self, ver: Impersonate) -> (r: ClientBuilder)
        ensures
            r@ == configured(ver, self@),
    {
        configure_impersonate(ver, self)
    }

    /// Switches GREASE encrypted ClientHello on or off, whatever the
    /// profile says.
    pub fn enable_ech_grease(self, enable: bool) -> (r: ClientBuilder)
        ensures
            r@ == (BuilderView { ech_grease: Some(enable), ..self@ }),
    {
        ClientBuilder { ech_grease: Some(enable), ..self }
    }

    /// Switches the shuffling of extensions on or off, whatever the
    /// profile says.
    pub fn permute_extensions(self, enable: bool) -> (r: ClientBuilder)
        ensures
            r@ == (BuilderView { permute_extensions: Some(enable), ..self@ }),
    {
        ClientBuilder { permute_extensions: Some(enable), ..self }
    }

    /// Accepts any server certificate, or verifies it.
    pub fn danger_accept_invalid_certs(self, accept: bool) -> (r: ClientBuilder)
        ensures
            r@ == (BuilderView { accept_invalid_certs: accept, ..self@ }),
    {
        ClientBuilder { accept_invalid_certs: accept, ..self }
    }

    /// Keeps cookies or not.
    pub fn cookie_store(self, enable: bool) -> (r: ClientBuilder)
        ensures
            r@ == (BuilderView { cookie_store: enable, ..self@ }),
    {
        ClientBuilder { cookie_store: enable, ..self }
    }

    /// Lets responses carry what is known of the TLS connection, or not.
    pub fn tls_info(self, enable: bool) -> (r: ClientBuilder)
        ensures
            r@ == (BuilderView { tls_info: enable, ..self@ }),
    {
        ClientBuilder { tls_info: enable, ..self }
    }

    /// Builds the configuration. The caller's two TLS switches are laid
    /// over the profile here, so that they win whenever they were set.
    pub fn build(self) -> (r: Result<ClientConfig, Error>)
        ensures
            built_view(r) == build_spec(self@),
    {
        let ghost b = self@;
        let ClientBuilder {
            tls,
            http2,
            headers,
            profile,
            gzip,
            brotli,
            deflate,
            zstd,
            ech_grease,
            permute_extensions,
            accept_invalid_certs,
            cookie_store,
            tls_info,
        } = self;
        let tls = overlaid(tls, ech_grease, permute_extensions);
        assert(tls_view(tls) == built_tls(b));
        let usable = match &tls {
            Some(settings) => settings.check().is_ok(),
            None => true,
        };
        if !usable {
            return Err(Error::TlsConfigError);
        }
        if http2.check().is_err() {
            return Err(Error::Http2ConfigError);
        }
        Ok(
            ClientConfig {
                tls,
                http2,
                headers,
                profile,
                gzip,
                brotli,
                deflate,
                zstd,
                accept_invalid_certs,
                cookie_store,
                tls_info,
            },
        )
    }
}

/// The TLS parameters with the caller's two switches laid over them.
fn overlaid(tls: Option<TlsSettings>, ech_grease: Option<bool>, permute_extensions: Option<bool>) -> (r:
    Option<TlsSettings>)
    ensures
        tls_view(r) == match tls_view(tls) {
            Some(t) => Some(effective_tls(t, ech_grease, permute_extensions)),
            None => None,
        },
{
    match tls {
        Some(settings) => {
            let mut settings = settings;
            if let Some(on) = ech_grease {
                settings.set_ech_grease(on);
            }
            if let Some(on) = permute_extensions {
                settings.set_permute_extensions(on);
            }
            Some(settings)
        },
        None => None,
    }
}

/// Sets the record of a target on a builder: its TLS parameters, its
/// HTTP/2 parameters, its default headers in place of those set before,
/// its family, and its content encodings.
pub fn configure_impersonate(ver: Impersonate, builder: ClientBuilder) -> (r: ClientBuilder)
    ensures
        r@ == configured(ver, builder@),
{
    let settings = get_config_from_ver(ver);
    let ImpersonateSettings { tls, http2, headers, gzip, brotli, deflate, zstd } = settings;
    builder.use_tls(tls).client_profile(ver.profile()).http2_initial_stream_window_size(
        http2.initial_stream_window_size,
    ).http2_initial_connection_window_size(
        http2.initial_connection_window_size,
    ).http2_max_concurrent_streams(http2.max_concurrent_streams).http2_max_header_list_size(
        http2.max_header_list_size,
    ).http2_header_table_size(http2.header_table_size).http2_enable_push(
        http2.enable_push,
    ).replace_default_headers(headers).brotli(brotli).gzip(gzip).deflate(deflate).zstd(zstd)
}

/// The steps that a built configuration asks of the TLS connector, with
/// the system's trust roots and no protocol beyond the profile's.
pub open spec fn config_steps(c: ConfigView) -> Option<Seq<TlsStepView>> {
    match c.tls {
        Some(t) => Some(steps_of(t, c.accept_invalid_certs, false, Seq::empty())),
        None => None,
    }
}

impl ClientConfig {
    /// The steps that set the TLS connector up, where a profile is in
    /// force.
    pub fn tls_steps(&self) -> (r: Option<Vec<TlsStep>>)
        ensures
            match r {
                Some(steps) => config_steps(self@) == Some(step_views(steps@)),
                None => config_steps(self@) is None,
            },
    {
        match &self.tls {
            Some(tls) => {
                let overrides = TlsOverrides {
                    accept_invalid_certs: self.accept_invalid_certs,
                    custom_roots: false,
                    extra_alpn: Vec::new(),
                };
                Some(connector_steps(tls, &overrides))
            },
            None => None,
        }
    }

    /// The order in which requests name their pseudo-headers, where a
    /// family is set.
    pub fn pseudo_headers(&self) -> (r: Option<[PseudoHeader; 4]>)
        ensures
            match r {
                Some(order) => self.profile is Some && order@ == pseudo_order_of(self.profile->0),
                None => self.profile is None,
            },
    {
        match self.profile {
            Some(profile) => Some(pseudo_header_order(profile)),
            None => None,
        }
    }
}

/// The caller's two switches leave usable TLS parameters usable.
pub proof fn lemma_effective_ok(t: TlsProfile, ech: Option<bool>, permute: Option<bool>)
    requires
        tls_ok(t),
    ensures
        tls_ok(effective_tls(t, ech, permute)),
{
    if ech is Some {
        lemma_ech_keeps_ok(t, ech->0);
    }
}

/// A builder that impersonates a target always builds, whatever else the
/// caller set on it before, and the configuration holds the record of the
/// catalog: its HTTP/2 parameters, its headers in their order, its family
/// and encodings, and its TLS parameters under the caller's switches.
pub proof fn law_impersonate_builds(v: Impersonate, b: BuilderView)
    ensures
        build_spec(configured(v, b)) is Ok,
        build_spec(configured(v, b))->Ok_0.tls == Some(
            effective_tls(tls_of(v), b.ech_grease, b.permute_extensions),
        ),
        build_spec(configured(v, b))->Ok_0.http2 == http2_of(v),
        build_spec(configured(v, b))->Ok_0.default_headers == entry(v).default_headers,
        build_spec(configured(v, b))->Ok_0.profile == Some(family(v)),
{
    law_catalog_complete(v);
    lemma_effective_ok(tls_of(v), b.ech_grease, b.permute_extensions);
}

/// Where the caller touched neither switch, the TLS parameters that come
/// out of the build are those of the catalog, field for field: the same
/// cipher suites, groups, signature schemes and extensions, each in the
/// same order.
pub proof fn law_tls_as_cataloged(v: Impersonate, b: BuilderView)
    requires
        b.ech_grease is None,
        b.permute_extensions is None,
    ensures
        build_spec(configured(v, b)) is Ok,
        build_spec(configured(v, b))->Ok_0.tls == Some(tls_of(v)),
{
    law_impersonate_builds(v, b);
}

/// The switch for shuffling changes that flag alone. With it off the
/// configuration is the same for every build of it, so that nothing
/// varies between one handshake and the next; with it on the list that
/// the engine shuffles is still the one of the catalog, with
/// `pre_shared_key` nowhere but last.
pub proof fn law_permutation_switch(v: Impersonate, b: BuilderView, on: bool)
    requires
        b.ech_grease is None,
    ensures
        build_spec(configured(v, BuilderView { permute_extensions: Some(on), ..b })) is Ok,
        build_spec(
            configured(v, BuilderView { permute_extensions: Some(on), ..b }),
        )->Ok_0.tls == Some(with_permutation(tls_of(v), on)),
        with_permutation(tls_of(v), on).permute_extensions == on,
        with_permutation(tls_of(v), on).extensions_order == tls_of(v).extensions_order,
        psk_last(with_permutation(tls_of(v), on).extensions_order),
{
    law_catalog_complete(v);
    law_impersonate_builds(v, BuilderView { permute_extensions: Some(on), ..b });
}

/// The caller's switches win wherever they were set: before the profile
/// or after it, the build is the same.
pub proof fn law_overrides_win(v: Impersonate, b: BuilderView, ech: bool, permute: bool)
    ensures
        build_spec(
            configured(v, BuilderView { ech_grease: Some(ech), permute_extensions: Some(permute), ..b }),
        ) == build_spec(
            BuilderView {
                ech_grease: Some(ech),
                permute_extensions: Some(permute),
                ..configured(v, b)
            },
        ),
        build_spec(
            configured(v, BuilderView { ech_grease: Some(ech), permute_extensions: Some(permute), ..b }),
        )->Ok_0.tls->0.ech_grease == ech,
        build_spec(
            configured(v, BuilderView { ech_grease: Some(ech), permute_extensions: Some(permute), ..b }),
        )->Ok_0.tls->0.permute_extensions == permute,
        build_spec(
            configured(v, BuilderView { ech_grease: Some(ech), permute_extensions: Some(permute), ..b }),
        )->Ok_0.tls->0.extensions_order.contains(EXT_ENCRYPTED_CLIENT_HELLO) == ech,
{
    law_catalog_complete(v);
    lemma_ech_keeps_ok(tls_of(v), ech);
    law_impersonate_builds(
        v,
        BuilderView { ech_grease: Some(ech), permute_extensions: Some(permute), ..b },
    );
}

} // verus!
