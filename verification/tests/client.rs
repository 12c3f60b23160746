use chromimic::headers::{header_list, Header};
use chromimic::http2::{Http2Data, PseudoHeader};
use chromimic::tls::{
    AlpnProtocol, SslCurve, TlsSettings, TlsStep, TlsVersion, EXT_ALPN, EXT_ENCRYPTED_CLIENT_HELLO,
    EXT_SIGNATURE_ALGORITHMS, EXT_SUPPORTED_GROUPS,
};
use chromimic::{
    configure_impersonate, get_config_from_ver, ClientBuilder, ClientProfile, Error, Impersonate,
};
use http::{HeaderMap, HeaderValue};

fn targets() -> Vec<Impersonate> {
    vec![
        Impersonate::Chrome99,
        Impersonate::Chrome109,
        Impersonate::Chrome114,
        Impersonate::Chrome120,
        Impersonate::Chrome126,
        Impersonate::SafariIos17_2,
        Impersonate::SafariIos16_5,
        Impersonate::Safari15_3,
        Impersonate::Safari17_4_1,
        Impersonate::OkHttp3_9,
        Impersonate::OkHttp3_11,
        Impersonate::OkHttp5,
        Impersonate::Edge99,
        Impersonate::Edge122,
    ]
}

fn custom_tls() -> TlsSettings {
    TlsSettings {
        cipher_suites: vec!["TLS_AES_128_GCM_SHA256"],
        curves: vec![SslCurve::X25519],
        sigalgs: vec!["rsa_pkcs1_sha256"],
        alpn: vec![AlpnProtocol::Http1],
        min_version: TlsVersion::Tls1_2,
        max_version: TlsVersion::Tls1_2,
        extensions_order: vec![EXT_SUPPORTED_GROUPS, EXT_SIGNATURE_ALGORITHMS, EXT_ALPN],
        permute_extensions: false,
        ech_grease: false,
        grease: false,
        ocsp_stapling: false,
        session_tickets: false,
        pre_shared_key: false,
        cert_compression: vec![],
        record_size_limit: None,
        padding: false,
    }
}

#[test]
fn a_fresh_builder_builds_without_a_profile() {
    let config = ClientBuilder::new().build().unwrap();
    assert_eq!(config.tls, None);
    assert_eq!(config.http2, Http2Data::empty());
    assert_eq!(header_list(&config.headers), vec![]);
    assert_eq!(config.profile, None);
    assert!(!config.gzip && !config.brotli && !config.deflate && !config.zstd);
    assert!(!config.accept_invalid_certs && !config.cookie_store && !config.tls_info);
    assert_eq!(config.tls_steps(), None);
    assert_eq!(config.pseudo_headers(), None);
}

#[test]
fn impersonate_reproduces_the_catalog() {
    for v in targets() {
        let record = get_config_from_ver(v);
        let config = ClientBuilder::new().impersonate(v).build().unwrap();
        assert_eq!(config.tls, Some(record.tls), "{:?}", v);
        assert_eq!(config.http2, record.http2, "{:?}", v);
        assert_eq!(header_list(&config.headers), header_list(&record.headers), "{:?}", v);
        assert_eq!(config.profile, Some(v.profile()));
        assert_eq!(config.gzip, record.gzip);
        assert_eq!(config.brotli, record.brotli);
        assert_eq!(config.deflate, record.deflate);
        assert_eq!(config.zstd, record.zstd);
    }
}

#[test]
fn configure_impersonate_is_what_the_builder_method_does() {
    let a = configure_impersonate(Impersonate::Chrome126, ClientBuilder::new()).build().unwrap();
    let b = ClientBuilder::new().impersonate(Impersonate::Chrome126).build().unwrap();
    assert_eq!(a.tls, b.tls);
    assert_eq!(a.http2, b.http2);
    assert_eq!(header_list(&a.headers), header_list(&b.headers));
    assert_eq!(a.profile, Some(ClientProfile::Chrome));
}

#[test]
fn impersonate_replaces_what_was_set_before() {
    let mut old = HeaderMap::new();
    old.insert("x-old", HeaderValue::from_static("1"));
    let config = ClientBuilder::new()
        .replace_default_headers(old)
        .http2_max_concurrent_streams(Some(7))
        .http2_enable_push(Some(true))
        .use_tls(custom_tls())
        .zstd(true)
        .cookie_store(true)
        .impersonate(Impersonate::OkHttp3_11)
        .build()
        .unwrap();
    let record = get_config_from_ver(Impersonate::OkHttp3_11);
    assert_eq!(config.tls, Some(record.tls));
    assert_eq!(config.http2, record.http2);
    assert_eq!(header_list(&config.headers), header_list(&record.headers));
    assert!(!config.zstd);
    assert!(config.cookie_store);
}

#[test]
fn what_is_set_after_the_profile_stays() {
    let mut mine = HeaderMap::new();
    mine.insert("user-agent", HeaderValue::from_static("mine/1.0"));
    let config = ClientBuilder::new()
        .impersonate(Impersonate::Chrome126)
        .http2_max_concurrent_streams(Some(7))
        .http2_initial_stream_window_size(None)
        .http2_initial_connection_window_size(Some(70000))
        .http2_max_header_list_size(Some(1))
        .http2_header_table_size(None)
        .http2_enable_push(Some(true))
        .replace_default_headers(mine)
        .gzip(false)
        .brotli(false)
        .deflate(false)
        .zstd(false)
        .tls_info(true)
        .client_profile(ClientProfile::Safari)
        .build()
        .unwrap();
    assert_eq!(
        config.http2,
        Http2Data {
            initial_stream_window_size: None,
            initial_connection_window_size: Some(70000),
            max_concurrent_streams: Some(7),
            max_header_list_size: Some(1),
            header_table_size: None,
            enable_push: Some(true),
        }
    );
    assert_eq!(
        header_list(&config.headers),
        vec![Header { name: "user-agent".to_string(), value: b"mine/1.0".to_vec() }]
    );
    assert!(!config.gzip && !config.brotli && !config.deflate && !config.zstd);
    assert!(config.tls_info);
    assert_eq!(config.profile, Some(ClientProfile::Safari));
    assert_eq!(config.tls, Some(get_config_from_ver(Impersonate::Chrome126).tls));
}

#[test]
fn ech_grease_can_be_switched_on_over_an_older_build() {
    let config =
        ClientBuilder::new().impersonate(Impersonate::Chrome99).enable_ech_grease(true).build().unwrap();
    let tls = config.tls.unwrap();
    assert!(tls.ech_grease);
    assert_eq!(
        tls.extensions_order,
        vec![0, 65037, 23, 65281, 10, 11, 35, 16, 5, 13, 18, 51, 45, 43, 27, 17513, 21, 41]
    );
    assert_eq!(tls.check(), Ok(()));
}

#[test]
fn ech_grease_stays_on_where_the_build_sends_it() {
    let config =
        ClientBuilder::new().impersonate(Impersonate::Chrome126).enable_ech_grease(true).build().unwrap();
    assert_eq!(config.tls, Some(get_config_from_ver(Impersonate::Chrome126).tls));
    let steps = config.tls_steps().unwrap();
    assert!(steps.contains(&TlsStep::EchGrease(true)));
}

#[test]
fn ech_grease_can_be_switched_off() {
    let config =
        ClientBuilder::new().impersonate(Impersonate::Chrome126).enable_ech_grease(false).build().unwrap();
    let tls = config.tls.unwrap();
    assert!(!tls.ech_grease);
    assert!(!tls.extensions_order.contains(&EXT_ENCRYPTED_CLIENT_HELLO));
    assert_eq!(
        tls.extensions_order,
        vec![0, 23, 65281, 10, 11, 35, 16, 5, 13, 18, 51, 45, 43, 27, 17513, 41]
    );
}

#[test]
fn permutation_can_be_switched_either_way() {
    let on =
        ClientBuilder::new().impersonate(Impersonate::Chrome99).permute_extensions(true).build().unwrap();
    let mut expected = get_config_from_ver(Impersonate::Chrome99).tls;
    expected.permute_extensions = true;
    assert_eq!(on.tls, Some(expected));
    let off =
        ClientBuilder::new().impersonate(Impersonate::Chrome126).permute_extensions(false).build().unwrap();
    let mut expected = get_config_from_ver(Impersonate::Chrome126).tls;
    expected.permute_extensions = false;
    assert_eq!(off.tls, Some(expected));
    assert!(off.tls_steps().unwrap().contains(&TlsStep::PermuteExtensions(false)));
}

#[test]
fn switches_win_wherever_they_are_set() {
    for v in targets() {
        let before = ClientBuilder::new()
            .enable_ech_grease(true)
            .permute_extensions(false)
            .impersonate(v)
            .build()
            .unwrap();
        let after = ClientBuilder::new()
            .impersonate(v)
            .enable_ech_grease(true)
            .permute_extensions(false)
            .build()
            .unwrap();
        assert_eq!(before.tls, after.tls, "{:?}", v);
        let tls = after.tls.unwrap();
        assert!(tls.ech_grease);
        assert!(!tls.permute_extensions);
        assert!(tls.extensions_order.contains(&EXT_ENCRYPTED_CLIENT_HELLO));
    }
}

#[test]
fn the_last_switch_wins() {
    let config = ClientBuilder::new()
        .impersonate(Impersonate::Chrome126)
        .enable_ech_grease(false)
        .enable_ech_grease(true)
        .permute_extensions(true)
        .permute_extensions(false)
        .build()
        .unwrap();
    let tls = config.tls.unwrap();
    assert!(tls.ech_grease);
    assert!(!tls.permute_extensions);
}

#[test]
fn accepting_invalid_certs_leaves_the_fingerprint_alone() {
    let strict = ClientBuilder::new().impersonate(Impersonate::Chrome126).build().unwrap();
    let lax = ClientBuilder::new()
        .impersonate(Impersonate::Chrome126)
        .danger_accept_invalid_certs(true)
        .build()
        .unwrap();
    assert!(lax.accept_invalid_certs);
    assert_eq!(strict.tls, lax.tls);
    let strict_steps = strict.tls_steps().unwrap();
    let lax_steps = lax.tls_steps().unwrap();
    assert_eq!(strict_steps.len(), lax_steps.len());
    let last = strict_steps.len() - 1;
    assert_eq!(strict_steps[..last], lax_steps[..last]);
    assert_eq!(strict_steps[last], TlsStep::VerifyPeer(true));
    assert_eq!(lax_steps[last], TlsStep::VerifyPeer(false));
}

#[test]
fn tls_steps_of_okhttp_3_11() {
    let config = ClientBuilder::new().impersonate(Impersonate::OkHttp3_11).build().unwrap();
    assert_eq!(
        config.tls_steps().unwrap(),
        vec![
            TlsStep::DefaultRoots,
            TlsStep::MinVersion(TlsVersion::Tls1_2),
            TlsStep::MaxVersion(TlsVersion::Tls1_3),
            TlsStep::CipherList(
                "TLS_ECDHE_ECDSA_WITH_AES_128_GCM_SHA256:TLS_ECDHE_RSA_WITH_AES_128_GCM_SHA256:\
                 TLS_ECDHE_ECDSA_WITH_AES_256_GCM_SHA384:TLS_ECDHE_RSA_WITH_AES_256_GCM_SHA384:\
                 TLS_ECDHE_ECDSA_WITH_CHACHA20_POLY1305_SHA256:\
                 TLS_ECDHE_RSA_WITH_CHACHA20_POLY1305_SHA256:TLS_ECDHE_RSA_WITH_AES_128_CBC_SHA:\
                 TLS_ECDHE_RSA_WITH_AES_256_CBC_SHA:TLS_RSA_WITH_AES_128_GCM_SHA256:\
                 TLS_RSA_WITH_AES_256_GCM_SHA384:TLS_RSA_WITH_AES_128_CBC_SHA:\
                 TLS_RSA_WITH_AES_256_CBC_SHA:TLS_RSA_WITH_3DES_EDE_CBC_SHA"
                    .to_string()
            ),
            TlsStep::Curves(vec![SslCurve::X25519, SslCurve::Secp256r1, SslCurve::Secp384r1]),
            TlsStep::SigAlgs(
                "ecdsa_secp256r1_sha256:rsa_pss_rsae_sha256:rsa_pkcs1_sha256:\
                 ecdsa_secp384r1_sha384:rsa_pss_rsae_sha384:rsa_pkcs1_sha384:\
                 rsa_pss_rsae_sha512:rsa_pkcs1_sha512:rsa_pkcs1_sha1"
                    .to_string()
            ),
            TlsStep::AlpnProtocols(b"\x02h2\x08http/1.1".to_vec()),
            TlsStep::PermuteExtensions(false),
            TlsStep::Grease(false),
            TlsStep::EchGrease(false),
            TlsStep::OcspStapling(true),
            TlsStep::SessionTickets(true),
            TlsStep::VerifyPeer(true),
        ]
    );
}

#[test]
fn pseudo_headers_follow_the_family() {
    let chrome = ClientBuilder::new().impersonate(Impersonate::Chrome126).build().unwrap();
    assert_eq!(
        chrome.pseudo_headers(),
        Some([
            PseudoHeader::Method,
            PseudoHeader::Authority,
            PseudoHeader::Scheme,
            PseudoHeader::Path
        ])
    );
    let safari = ClientBuilder::new().impersonate(Impersonate::Safari17_4_1).build().unwrap();
    assert_eq!(
        safari.pseudo_headers(),
        Some([
            PseudoHeader::Method,
            PseudoHeader::Scheme,
            PseudoHeader::Path,
            PseudoHeader::Authority
        ])
    );
}

#[test]
fn unusable_tls_parameters_fail_the_build() {
    let mut bad = custom_tls();
    bad.min_version = TlsVersion::Tls1_3;
    let r = ClientBuilder::new().use_tls(bad).build();
    assert_eq!(r.err(), Some(Error::TlsConfigError));
    let mut empty = custom_tls();
    empty.cipher_suites = vec![];
    let r = ClientBuilder::new().use_tls(empty).build();
    assert_eq!(r.err(), Some(Error::TlsConfigError));
    let ok = ClientBuilder::new().use_tls(custom_tls()).build().unwrap();
    assert_eq!(ok.tls, Some(custom_tls()));
}

#[test]
fn an_oversized_window_fails_the_build() {
    let r = ClientBuilder::new()
        .impersonate(Impersonate::Chrome126)
        .http2_initial_stream_window_size(Some(0x8000_0000))
        .build();
    assert_eq!(r.err(), Some(Error::Http2ConfigError));
    let r = ClientBuilder::new().http2_initial_connection_window_size(Some(u32::MAX)).build();
    assert_eq!(r.err(), Some(Error::Http2ConfigError));
}

#[test]
fn the_tls_error_comes_first() {
    let mut bad = custom_tls();
    bad.alpn = vec![];
    let r = ClientBuilder::new()
        .use_tls(bad)
        .http2_initial_stream_window_size(Some(u32::MAX))
        .build();
    assert_eq!(r.err(), Some(Error::TlsConfigError));
}
