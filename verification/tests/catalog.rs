use chromimic::headers::{header_list, Header};
use chromimic::http2::{Http2Data, SettingId};
use chromimic::text::join_names;
use chromimic::tls::{
    encode_alpn, AlpnProtocol, CertCompression, SslCurve, TlsVersion, EXT_ENCRYPTED_CLIENT_HELLO,
    EXT_PADDING, EXT_PRE_SHARED_KEY, EXT_SESSION_TICKET,
};
use chromimic::{get_config_from_ver, Impersonate};

fn all_targets() -> Vec<(Impersonate, &'static str, &'static str)> {
    vec![
        (Impersonate::Chrome99, "Chrome/", "Chrome/99"),
        (Impersonate::Chrome100, "Chrome/", "Chrome/100"),
        (Impersonate::Chrome101, "Chrome/", "Chrome/101"),
        (Impersonate::Chrome104, "Chrome/", "Chrome/104"),
        (Impersonate::Chrome105, "Chrome/", "Chrome/105"),
        (Impersonate::Chrome106, "Chrome/", "Chrome/106"),
        (Impersonate::Chrome107, "Chrome/", "Chrome/107"),
        (Impersonate::Chrome108, "Chrome/", "Chrome/108"),
        (Impersonate::Chrome109, "Chrome/", "Chrome/109"),
        (Impersonate::Chrome114, "Chrome/", "Chrome/114"),
        (Impersonate::Chrome116, "Chrome/", "Chrome/116"),
        (Impersonate::Chrome117, "Chrome/", "Chrome/117"),
        (Impersonate::Chrome118, "Chrome/", "Chrome/118"),
        (Impersonate::Chrome119, "Chrome/", "Chrome/119"),
        (Impersonate::Chrome120, "Chrome/", "Chrome/120"),
        (Impersonate::Chrome123, "Chrome/", "Chrome/123"),
        (Impersonate::Chrome124, "Chrome/", "Chrome/124"),
        (Impersonate::Chrome126, "Chrome/", "Chrome/126"),
        (Impersonate::SafariIos17_2, "Safari/", "Version/17.2"),
        (Impersonate::SafariIos17_4_1, "Safari/", "Version/17.4.1"),
        (Impersonate::SafariIos16_5, "Safari/", "Version/16.5"),
        (Impersonate::Safari15_3, "Safari/", "Version/15.3"),
        (Impersonate::Safari15_5, "Safari/", "Version/15.5"),
        (Impersonate::Safari15_6_1, "Safari/", "Version/15.6.1"),
        (Impersonate::Safari16, "Safari/", "Version/16"),
        (Impersonate::Safari16_5, "Safari/", "Version/16.5"),
        (Impersonate::Safari17_2_1, "Safari/", "Version/17.2.1"),
        (Impersonate::Safari17_4_1, "Safari/", "Version/17.4.1"),
        (Impersonate::OkHttp3_9, "okhttp/", "okhttp/3.9"),
        (Impersonate::OkHttp3_11, "okhttp/", "okhttp/3.11"),
        (Impersonate::OkHttp3_13, "okhttp/", "okhttp/3.13"),
        (Impersonate::OkHttp3_14, "okhttp/", "okhttp/3.14"),
        (Impersonate::OkHttp4_9, "okhttp/", "okhttp/4.9"),
        (Impersonate::OkHttp4_10, "okhttp/", "okhttp/4.10"),
        (Impersonate::OkHttp5, "okhttp/", "okhttp/5"),
        (Impersonate::Edge99, "Edg/", "Edg/99"),
        (Impersonate::Edge101, "Edg/", "Edg/101"),
        (Impersonate::Edge122, "Edg/", "Edg/122"),
    ]
}

fn h(name: &str, value: &str) -> Header {
    Header { name: name.to_string(), value: value.as_bytes().to_vec() }
}

fn user_agent(v: Impersonate) -> String {
    let settings = get_config_from_ver(v);
    settings.headers.get("user-agent").unwrap().to_str().unwrap().to_string()
}

#[test]
fn every_record_has_something_to_offer() {
    for (v, _, _) in all_targets() {
        let tls = get_config_from_ver(v).tls;
        assert!(!tls.cipher_suites.is_empty(), "{:?}", v);
        assert!(!tls.curves.is_empty(), "{:?}", v);
        assert!(!tls.sigalgs.is_empty(), "{:?}", v);
        assert!(!tls.alpn.is_empty(), "{:?}", v);
        assert!(!tls.extensions_order.is_empty(), "{:?}", v);
    }
}

#[test]
fn every_record_is_usable() {
    for (v, _, _) in all_targets() {
        let settings = get_config_from_ver(v);
        assert_eq!(settings.tls.check(), Ok(()), "{:?}", v);
        assert_eq!(settings.http2.check(), Ok(()), "{:?}", v);
    }
}

#[test]
fn version_bounds_are_in_order_in_every_record() {
    for (v, _, _) in all_targets() {
        let tls = get_config_from_ver(v).tls;
        assert!(tls.min_version.at_most(tls.max_version), "{:?}", v);
        assert_eq!(tls.max_version, TlsVersion::Tls1_3);
    }
}

#[test]
fn user_agent_names_product_and_version_in_every_record() {
    for (v, mark, token) in all_targets() {
        let ua = user_agent(v);
        assert!(ua.contains(mark), "{:?}: {}", v, ua);
        assert!(ua.contains(token), "{:?}: {}", v, ua);
    }
}

#[test]
fn no_header_is_named_twice_in_any_record() {
    for (v, _, _) in all_targets() {
        let list = header_list(&get_config_from_ver(v).headers);
        for (i, a) in list.iter().enumerate() {
            for b in list.iter().skip(i + 1) {
                assert_ne!(a.name, b.name, "{:?}", v);
            }
        }
    }
}

#[test]
fn encrypted_client_hello_is_listed_only_where_it_is_sent() {
    for (v, _, _) in all_targets() {
        let tls = get_config_from_ver(v).tls;
        assert_eq!(tls.extensions_order.contains(&EXT_ENCRYPTED_CLIENT_HELLO), tls.ech_grease);
    }
    assert!(!get_config_from_ver(Impersonate::Chrome99).tls.ech_grease);
    assert!(!get_config_from_ver(Impersonate::Chrome116).tls.ech_grease);
    assert!(get_config_from_ver(Impersonate::Chrome117).tls.ech_grease);
    assert!(get_config_from_ver(Impersonate::Chrome126).tls.ech_grease);
    assert!(!get_config_from_ver(Impersonate::Edge101).tls.ech_grease);
    assert!(get_config_from_ver(Impersonate::Edge122).tls.ech_grease);
    assert!(!get_config_from_ver(Impersonate::Safari17_4_1).tls.ech_grease);
    assert!(!get_config_from_ver(Impersonate::OkHttp5).tls.ech_grease);
}

#[test]
fn pre_shared_key_comes_last_where_it_is_listed() {
    for (v, _, _) in all_targets() {
        let tls = get_config_from_ver(v).tls;
        let at = tls.extensions_order.iter().position(|e| *e == EXT_PRE_SHARED_KEY);
        match at {
            Some(i) => {
                assert!(tls.pre_shared_key);
                assert_eq!(i, tls.extensions_order.len() - 1);
            }
            None => assert!(!tls.pre_shared_key),
        }
    }
}

#[test]
fn okhttp_3_11_tls() {
    let tls = get_config_from_ver(Impersonate::OkHttp3_11).tls;
    assert_eq!(tls.curves, vec![SslCurve::X25519, SslCurve::Secp256r1, SslCurve::Secp384r1]);
    assert_eq!(
        tls.cipher_suites,
        vec![
            "TLS_ECDHE_ECDSA_WITH_AES_128_GCM_SHA256",
            "TLS_ECDHE_RSA_WITH_AES_128_GCM_SHA256",
            "TLS_ECDHE_ECDSA_WITH_AES_256_GCM_SHA384",
            "TLS_ECDHE_RSA_WITH_AES_256_GCM_SHA384",
            "TLS_ECDHE_ECDSA_WITH_CHACHA20_POLY1305_SHA256",
            "TLS_ECDHE_RSA_WITH_CHACHA20_POLY1305_SHA256",
            "TLS_ECDHE_RSA_WITH_AES_128_CBC_SHA",
            "TLS_ECDHE_RSA_WITH_AES_256_CBC_SHA",
            "TLS_RSA_WITH_AES_128_GCM_SHA256",
            "TLS_RSA_WITH_AES_256_GCM_SHA384",
            "TLS_RSA_WITH_AES_128_CBC_SHA",
            "TLS_RSA_WITH_AES_256_CBC_SHA",
            "TLS_RSA_WITH_3DES_EDE_CBC_SHA",
        ]
    );
    assert_eq!(
        join_names(&tls.sigalgs),
        "ecdsa_secp256r1_sha256:rsa_pss_rsae_sha256:rsa_pkcs1_sha256:ecdsa_secp384r1_sha384:\
         rsa_pss_rsae_sha384:rsa_pkcs1_sha384:rsa_pss_rsae_sha512:rsa_pkcs1_sha512:rsa_pkcs1_sha1"
    );
    assert_eq!(encode_alpn(&tls.alpn), b"\x02h2\x08http/1.1".to_vec());
    assert_eq!(tls.min_version, TlsVersion::Tls1_2);
    assert_eq!(tls.max_version, TlsVersion::Tls1_3);
    assert!(tls.ocsp_stapling);
    assert!(!tls.grease);
    assert!(!tls.permute_extensions);
    assert!(tls.cert_compression.is_empty());
}

#[test]
fn okhttp_3_11_http2_and_encodings() {
    let settings = get_config_from_ver(Impersonate::OkHttp3_11);
    assert_eq!(
        settings.http2,
        Http2Data {
            initial_stream_window_size: Some(16777216),
            initial_connection_window_size: Some(16777216),
            max_concurrent_streams: None,
            max_header_list_size: None,
            header_table_size: None,
            enable_push: None,
        }
    );
    assert!(settings.gzip);
    assert!(settings.brotli);
}

#[test]
fn okhttp_3_11_headers() {
    let settings = get_config_from_ver(Impersonate::OkHttp3_11);
    assert_eq!(
        header_list(&settings.headers),
        vec![
            h("accept", "*/*"),
            h("accept-language", "de-DE,de;q=0.9,en-US;q=0.8,en;q=0.7"),
            h("user-agent", "okhttp/3.11"),
            h("accept-encoding", "gzip, deflate, br"),
        ]
    );
}

#[test]
fn okhttp_5_omits_two_settings_and_takes_gzip_alone() {
    let settings = get_config_from_ver(Impersonate::OkHttp5);
    assert_eq!(settings.http2.max_concurrent_streams, None);
    assert_eq!(settings.http2.header_table_size, None);
    let sent = settings.http2.settings();
    assert!(sent.iter().all(|(id, _)| *id != SettingId::MaxConcurrentStreams));
    assert!(sent.iter().all(|(id, _)| *id != SettingId::HeaderTableSize));
    assert_eq!(settings.headers.get("accept-encoding").unwrap(), "gzip");
    assert!(settings.gzip);
    assert!(!settings.brotli);
    assert!(!settings.deflate);
    assert!(!settings.zstd);
}

#[test]
fn chrome_126_record() {
    let settings = get_config_from_ver(Impersonate::Chrome126);
    assert_eq!(
        user_agent(Impersonate::Chrome126),
        "Mozilla/5.0 (Windows NT 10.0; Win64; x64) AppleWebKit/537.36 (KHTML, like Gecko) \
         Chrome/126.0.0.0 Safari/537.36"
    );
    assert_eq!(
        settings.headers.get("sec-ch-ua").unwrap(),
        "\"Not/A)Brand\";v=\"8\", \"Chromium\";v=\"126\", \"Google Chrome\";v=\"126\""
    );
    let names: Vec<String> = header_list(&settings.headers).into_iter().map(|e| e.name).collect();
    assert_eq!(
        names,
        vec![
            "sec-ch-ua",
            "sec-ch-ua-mobile",
            "sec-ch-ua-platform",
            "upgrade-insecure-requests",
            "user-agent",
            "accept",
            "sec-fetch-site",
            "sec-fetch-mode",
            "sec-fetch-user",
            "sec-fetch-dest",
            "accept-encoding",
            "accept-language",
        ]
    );
    assert_eq!(settings.headers.get("accept-encoding").unwrap(), "gzip, deflate, br, zstd");
    assert!(settings.zstd);
    assert_eq!(
        settings.tls.curves,
        vec![
            SslCurve::X25519Kyber768Draft00,
            SslCurve::X25519,
            SslCurve::Secp256r1,
            SslCurve::Secp384r1,
        ]
    );
    assert_eq!(settings.tls.cipher_suites.len(), 15);
    assert_eq!(settings.tls.cipher_suites[0], "TLS_AES_128_GCM_SHA256");
    assert_eq!(settings.tls.cert_compression, vec![CertCompression::Brotli]);
    assert!(settings.tls.permute_extensions);
    assert!(settings.tls.grease);
    assert!(!settings.tls.extensions_order.contains(&EXT_PADDING));
    assert_eq!(
        settings.http2.settings(),
        vec![
            (SettingId::InitialWindowSize, 6291456),
            (SettingId::MaxHeaderListSize, 262144),
            (SettingId::HeaderTableSize, 65536),
            (SettingId::EnablePush, 0),
        ]
    );
    assert_eq!(settings.http2.window_increment(), Some(15663105));
}

#[test]
fn chrome_99_record() {
    let settings = get_config_from_ver(Impersonate::Chrome99);
    assert!(user_agent(Impersonate::Chrome99).contains("Chrome/99.0.4844.51"));
    assert!(!settings.tls.permute_extensions);
    assert_eq!(
        settings.tls.extensions_order,
        vec![0, 23, 65281, 10, 11, 35, 16, 5, 13, 18, 51, 45, 43, 27, 17513, 21, 41]
    );
    assert_eq!(
        settings.tls.curves,
        vec![SslCurve::X25519, SslCurve::Secp256r1, SslCurve::Secp384r1]
    );
    assert_eq!(settings.http2.max_concurrent_streams, Some(1000));
    assert_eq!(settings.http2.enable_push, None);
    assert_eq!(settings.headers.get("accept-encoding").unwrap(), "gzip, deflate, br");
    assert!(!settings.zstd);
}

#[test]
fn safari_17_4_1_record() {
    let settings = get_config_from_ver(Impersonate::Safari17_4_1);
    assert_eq!(settings.tls.alpn, vec![AlpnProtocol::Http2, AlpnProtocol::Http1]);
    assert_eq!(encode_alpn(&settings.tls.alpn), b"\x02h2\x08http/1.1".to_vec());
    assert_eq!(
        user_agent(Impersonate::Safari17_4_1),
        "Mozilla/5.0 (Macintosh; Intel Mac OS X 10_15_7) AppleWebKit/605.1.15 (KHTML, like Gecko) \
         Version/17.4.1 Safari/605.1.15"
    );
    assert_eq!(settings.tls.cipher_suites.len(), 20);
    assert_eq!(settings.tls.sigalgs.len(), 11);
    assert_eq!(settings.tls.curves.len(), 4);
    assert_eq!(settings.tls.curves[3], SslCurve::Secp521r1);
    assert_eq!(settings.tls.min_version, TlsVersion::Tls1_0);
    assert_eq!(settings.tls.cert_compression, vec![CertCompression::Zlib]);
    assert!(!settings.tls.session_tickets);
    assert!(!settings.tls.extensions_order.contains(&EXT_SESSION_TICKET));
    assert_eq!(settings.http2.initial_stream_window_size, Some(2097152));
    assert_eq!(settings.http2.max_concurrent_streams, Some(100));
    assert_eq!(settings.http2.enable_push, Some(false));
    let names: Vec<String> = header_list(&settings.headers).into_iter().map(|e| e.name).collect();
    assert_eq!(names, vec!["user-agent", "accept", "accept-language", "accept-encoding"]);
}

#[test]
fn safari_on_ios_differs_from_the_desktop_in_its_user_agent() {
    let ios = user_agent(Impersonate::SafariIos16_5);
    let desktop = user_agent(Impersonate::Safari16_5);
    assert!(ios.contains("iPhone OS 16_5"));
    assert!(ios.contains("Mobile/15E148"));
    assert!(desktop.contains("Macintosh"));
    assert_ne!(ios, desktop);
}

#[test]
fn edge_122_record() {
    let settings = get_config_from_ver(Impersonate::Edge122);
    let ua = user_agent(Impersonate::Edge122);
    assert!(ua.ends_with("Chrome/122.0.0.0 Safari/537.36 Edg/122.0.0.0"));
    assert_eq!(
        settings.headers.get("sec-ch-ua").unwrap(),
        "\"Chromium\";v=\"122\", \"Not(A:Brand\";v=\"24\", \"Microsoft Edge\";v=\"122\""
    );
    assert!(settings.tls.permute_extensions);
    assert_eq!(settings.http2.enable_push, Some(false));
    assert_eq!(settings.http2.max_concurrent_streams, None);
}

#[test]
fn the_same_target_gives_the_same_record() {
    for (v, _, _) in all_targets() {
        let a = get_config_from_ver(v);
        let b = get_config_from_ver(v);
        assert_eq!(a.tls, b.tls);
        assert_eq!(a.http2, b.http2);
        assert_eq!(header_list(&a.headers), header_list(&b.headers));
    }
}
