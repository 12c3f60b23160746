use chromimic::text::join_names;
use chromimic::tls::{
    connector_steps, encode_alpn, step_result, AlpnProtocol, CertCompression, SslCurve,
    TlsOverrides, TlsSettings, TlsStep, TlsVersion, EXT_ALPN, EXT_ENCRYPTED_CLIENT_HELLO,
    EXT_PRE_SHARED_KEY, EXT_SERVER_NAME, EXT_SIGNATURE_ALGORITHMS, EXT_STATUS_REQUEST,
    EXT_SUPPORTED_GROUPS,
};
use chromimic::Error;

fn small() -> TlsSettings {
    TlsSettings {
        cipher_suites: vec!["TLS_AES_128_GCM_SHA256", "TLS_AES_256_GCM_SHA384"],
        curves: vec![SslCurve::X25519, SslCurve::Secp256r1],
        sigalgs: vec!["ecdsa_secp256r1_sha256", "rsa_pss_rsae_sha256"],
        alpn: vec![AlpnProtocol::Http2, AlpnProtocol::Http1],
        min_version: TlsVersion::Tls1_2,
        max_version: TlsVersion::Tls1_3,
        extensions_order: vec![
            EXT_SERVER_NAME,
            EXT_SUPPORTED_GROUPS,
            EXT_ALPN,
            EXT_STATUS_REQUEST,
            EXT_SIGNATURE_ALGORITHMS,
        ],
        permute_extensions: false,
        ech_grease: false,
        grease: false,
        ocsp_stapling: true,
        session_tickets: false,
        pre_shared_key: false,
        cert_compression: vec![],
        record_size_limit: None,
        padding: false,
    }
}

fn plain() -> TlsOverrides {
    TlsOverrides { accept_invalid_certs: false, custom_roots: false, extra_alpn: vec![] }
}

#[test]
fn alpn_is_length_prefixed() {
    assert_eq!(
        encode_alpn(&vec![AlpnProtocol::Http2, AlpnProtocol::Http1]),
        b"\x02h2\x08http/1.1".to_vec()
    );
    assert_eq!(encode_alpn(&vec![AlpnProtocol::Http1]), b"\x08http/1.1".to_vec());
    assert_eq!(encode_alpn(&vec![AlpnProtocol::Http2]), b"\x02h2".to_vec());
    assert_eq!(
        encode_alpn(&vec![AlpnProtocol::Http1, AlpnProtocol::Http2]),
        b"\x08http/1.1\x02h2".to_vec()
    );
    assert_eq!(encode_alpn(&vec![]), Vec::<u8>::new());
}

#[test]
fn names_are_joined_by_colons() {
    assert_eq!(join_names(&vec![]), "");
    assert_eq!(join_names(&vec!["a"]), "a");
    assert_eq!(join_names(&vec!["a", "b"]), "a:b");
    assert_eq!(
        join_names(&vec!["TLS_AES_128_GCM_SHA256", "TLS_AES_256_GCM_SHA384", "x"]),
        "TLS_AES_128_GCM_SHA256:TLS_AES_256_GCM_SHA384:x"
    );
    assert_eq!(join_names(&vec!["", ""]), ":");
}

#[test]
fn version_numbers_and_order() {
    assert_eq!(TlsVersion::Tls1_0.wire(), 0x0301);
    assert_eq!(TlsVersion::Tls1_1.wire(), 0x0302);
    assert_eq!(TlsVersion::Tls1_2.wire(), 0x0303);
    assert_eq!(TlsVersion::Tls1_3.wire(), 0x0304);
    assert!(TlsVersion::Tls1_2.at_most(TlsVersion::Tls1_3));
    assert!(TlsVersion::Tls1_3.at_most(TlsVersion::Tls1_3));
    assert!(!TlsVersion::Tls1_3.at_most(TlsVersion::Tls1_2));
    assert!(TlsVersion::Tls1_0.at_most(TlsVersion::Tls1_1));
}

#[test]
fn group_and_compression_numbers() {
    assert_eq!(SslCurve::X25519.id(), 29);
    assert_eq!(SslCurve::Secp256r1.id(), 23);
    assert_eq!(SslCurve::Secp384r1.id(), 24);
    assert_eq!(SslCurve::Secp521r1.id(), 25);
    assert_eq!(SslCurve::X25519Kyber768Draft00.id(), 0x6399);
    assert_eq!(CertCompression::Zlib.id(), 1);
    assert_eq!(CertCompression::Brotli.id(), 2);
    assert_eq!(CertCompression::Zstd.id(), 3);
}

#[test]
fn usable_parameters_pass_the_check() {
    assert_eq!(small().check(), Ok(()));
}

#[test]
fn empty_lists_are_refused() {
    let mut t = small();
    t.cipher_suites = vec![];
    assert_eq!(t.check(), Err(Error::TlsConfigError));
    let mut t = small();
    t.curves = vec![];
    assert_eq!(t.check(), Err(Error::TlsConfigError));
    let mut t = small();
    t.sigalgs = vec![];
    assert_eq!(t.check(), Err(Error::TlsConfigError));
    let mut t = small();
    t.alpn = vec![];
    assert_eq!(t.check(), Err(Error::TlsConfigError));
    let mut t = small();
    t.extensions_order = vec![];
    t.ocsp_stapling = false;
    assert_eq!(t.check(), Err(Error::TlsConfigError));
}

#[test]
fn version_bounds_out_of_order_are_refused() {
    let mut t = small();
    t.min_version = TlsVersion::Tls1_3;
    t.max_version = TlsVersion::Tls1_2;
    assert_eq!(t.check(), Err(Error::TlsConfigError));
    t.max_version = TlsVersion::Tls1_3;
    assert_eq!(t.check(), Ok(()));
}

#[test]
fn extension_list_must_agree_with_the_flags() {
    let mut t = small();
    t.ocsp_stapling = false;
    assert_eq!(t.check(), Err(Error::TlsConfigError));
    let mut t = small();
    t.ech_grease = true;
    assert_eq!(t.check(), Err(Error::TlsConfigError));
    let mut t = small();
    t.session_tickets = true;
    assert_eq!(t.check(), Err(Error::TlsConfigError));
    let mut t = small();
    t.cert_compression = vec![CertCompression::Brotli];
    assert_eq!(t.check(), Err(Error::TlsConfigError));
    let mut t = small();
    t.padding = true;
    assert_eq!(t.check(), Err(Error::TlsConfigError));
    let mut t = small();
    t.record_size_limit = Some(16385);
    assert_eq!(t.check(), Err(Error::TlsConfigError));
    t.extensions_order.push(28);
    assert_eq!(t.check(), Ok(()));
}

#[test]
fn repeated_extensions_are_refused() {
    let mut t = small();
    t.extensions_order.push(EXT_SERVER_NAME);
    assert_eq!(t.check(), Err(Error::TlsConfigError));
}

#[test]
fn pre_shared_key_must_come_last() {
    let mut t = small();
    t.pre_shared_key = true;
    t.extensions_order.push(EXT_PRE_SHARED_KEY);
    assert_eq!(t.check(), Ok(()));
    t.extensions_order.insert(0, 77);
    assert_eq!(t.check(), Ok(()));
    let mut early = small();
    early.pre_shared_key = true;
    early.extensions_order.insert(1, EXT_PRE_SHARED_KEY);
    assert_eq!(early.check(), Err(Error::TlsConfigError));
}

#[test]
fn ech_grease_enters_behind_server_name() {
    let mut t = small();
    t.set_ech_grease(true);
    assert!(t.ech_grease);
    assert_eq!(
        t.extensions_order,
        vec![
            EXT_SERVER_NAME,
            EXT_ENCRYPTED_CLIENT_HELLO,
            EXT_SUPPORTED_GROUPS,
            EXT_ALPN,
            EXT_STATUS_REQUEST,
            EXT_SIGNATURE_ALGORITHMS,
        ]
    );
    assert_eq!(t.check(), Ok(()));
    t.set_ech_grease(true);
    assert_eq!(t.extensions_order.len(), 6);
}

#[test]
fn ech_grease_enters_in_front_without_server_name() {
    let mut t = small();
    t.extensions_order = vec![EXT_SUPPORTED_GROUPS, EXT_ALPN, EXT_STATUS_REQUEST, EXT_SIGNATURE_ALGORITHMS];
    t.set_ech_grease(true);
    assert_eq!(
        t.extensions_order,
        vec![
            EXT_ENCRYPTED_CLIENT_HELLO,
            EXT_SUPPORTED_GROUPS,
            EXT_ALPN,
            EXT_STATUS_REQUEST,
            EXT_SIGNATURE_ALGORITHMS,
        ]
    );
    let mut empty = small();
    empty.extensions_order = vec![];
    empty.set_ech_grease(true);
    assert_eq!(empty.extensions_order, vec![EXT_ENCRYPTED_CLIENT_HELLO]);
}

#[test]
fn ech_grease_leaves_again() {
    let before = small();
    let mut t = small();
    t.set_ech_grease(true);
    t.set_ech_grease(false);
    assert_eq!(t, before);
    t.set_ech_grease(false);
    assert_eq!(t, before);
}

#[test]
fn permutation_switch_changes_the_flag_alone() {
    let mut t = small();
    t.set_permute_extensions(true);
    let mut expected = small();
    expected.permute_extensions = true;
    assert_eq!(t, expected);
    t.set_permute_extensions(false);
    assert_eq!(t, small());
}

#[test]
fn connector_steps_come_in_order() {
    let mut t = small();
    t.cert_compression = vec![CertCompression::Brotli, CertCompression::Zlib];
    t.grease = true;
    let steps = connector_steps(&t, &plain());
    assert_eq!(
        steps,
        vec![
            TlsStep::DefaultRoots,
            TlsStep::MinVersion(TlsVersion::Tls1_2),
            TlsStep::MaxVersion(TlsVersion::Tls1_3),
            TlsStep::CipherList("TLS_AES_128_GCM_SHA256:TLS_AES_256_GCM_SHA384".to_string()),
            TlsStep::Curves(vec![SslCurve::X25519, SslCurve::Secp256r1]),
            TlsStep::SigAlgs("ecdsa_secp256r1_sha256:rsa_pss_rsae_sha256".to_string()),
            TlsStep::AlpnProtocols(b"\x02h2\x08http/1.1".to_vec()),
            TlsStep::PermuteExtensions(false),
            TlsStep::Grease(true),
            TlsStep::EchGrease(false),
            TlsStep::OcspStapling(true),
            TlsStep::CertCompression(CertCompression::Brotli),
            TlsStep::CertCompression(CertCompression::Zlib),
            TlsStep::SessionTickets(false),
            TlsStep::VerifyPeer(true),
        ]
    );
}

#[test]
fn connector_steps_take_the_overrides() {
    let overrides = TlsOverrides {
        accept_invalid_certs: true,
        custom_roots: true,
        extra_alpn: vec![AlpnProtocol::Http1],
    };
    let steps = connector_steps(&small(), &overrides);
    assert_eq!(steps.len(), 13);
    assert_eq!(steps[0], TlsStep::SuppliedRoots);
    assert_eq!(steps[6], TlsStep::AlpnProtocols(b"\x02h2\x08http/1.1\x08http/1.1".to_vec()));
    assert_eq!(steps[11], TlsStep::SessionTickets(false));
    assert_eq!(steps[12], TlsStep::VerifyPeer(false));
}

#[test]
fn a_refused_step_fails_the_build() {
    assert_eq!(step_result(true), Ok(()));
    assert_eq!(step_result(false), Err(Error::TlsConfigError));
}
