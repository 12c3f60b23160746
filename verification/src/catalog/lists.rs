//! The lists that several builds share: cipher suites, signature schemes
//! and the order of extensions.

use vstd::prelude::*;
use crate::catalog::names::{
    ECDSA_SECP256R1_SHA256,
    ECDSA_SECP384R1_SHA384,
    ECDSA_SHA1,
    RSA_PKCS1_SHA1,
    RSA_PKCS1_SHA256,
    RSA_PKCS1_SHA384,
    RSA_PKCS1_SHA512,
    RSA_PSS_RSAE_SHA256,
    RSA_PSS_RSAE_SHA384,
    RSA_PSS_RSAE_SHA512,
    TLS_AES_128_GCM_SHA256,
    TLS_AES_256_GCM_SHA384,
    TLS_CHACHA20_POLY1305_SHA256,
    TLS_ECDHE_ECDSA_WITH_3DES_EDE_CBC_SHA,
    TLS_ECDHE_ECDSA_WITH_AES_128_CBC_SHA,
    TLS_ECDHE_ECDSA_WITH_AES_128_GCM_SHA256,
    TLS_ECDHE_ECDSA_WITH_AES_256_CBC_SHA,
    TLS_ECDHE_ECDSA_WITH_AES_256_GCM_SHA384,
    TLS_ECDHE_ECDSA_WITH_CHACHA20_POLY1305_SHA256,
    TLS_ECDHE_RSA_WITH_3DES_EDE_CBC_SHA,
    TLS_ECDHE_RSA_WITH_AES_128_CBC_SHA,
    TLS_ECDHE_RSA_WITH_AES_128_GCM_SHA256,
    TLS_ECDHE_RSA_WITH_AES_256_CBC_SHA,
    TLS_ECDHE_RSA_WITH_AES_256_GCM_SHA384,
    TLS_ECDHE_RSA_WITH_CHACHA20_POLY1305_SHA256,
    TLS_RSA_WITH_3DES_EDE_CBC_SHA,
    TLS_RSA_WITH_AES_128_CBC_SHA,
    TLS_RSA_WITH_AES_128_GCM_SHA256,
    TLS_RSA_WITH_AES_256_CBC_SHA,
    TLS_RSA_WITH_AES_256_GCM_SHA384,
};
use crate::tls::{
    EXT_ALPN,
    EXT_APPLICATION_SETTINGS,
    EXT_COMPRESS_CERTIFICATE,
    EXT_EC_POINT_FORMATS,
    EXT_ENCRYPTED_CLIENT_HELLO,
    EXT_EXTENDED_MASTER_SECRET,
    EXT_KEY_SHARE,
    EXT_PADDING,
    EXT_PRE_SHARED_KEY,
    EXT_PSK_KEY_EXCHANGE_MODES,
    EXT_RECORD_SIZE_LIMIT,
    EXT_RENEGOTIATION_INFO,
    EXT_SERVER_NAME,
    EXT_SESSION_TICKET,
    EXT_SIGNATURE_ALGORITHMS,
    EXT_SIGNED_CERT_TIMESTAMP,
    EXT_STATUS_REQUEST,
    EXT_SUPPORTED_GROUPS,
    EXT_SUPPORTED_VERSIONS,
    psk_last,
};

verus! {

/// The cipher suites of Chromium, in its order.
pub open spec fn chromium_ciphers() -> Seq<&'static str> {
    seq![
        TLS_AES_128_GCM_SHA256,
        TLS_AES_256_GCM_SHA384,
        TLS_CHACHA20_POLY1305_SHA256,
        TLS_ECDHE_ECDSA_WITH_AES_128_GCM_SHA256,
        TLS_ECDHE_RSA_WITH_AES_128_GCM_SHA256,
        TLS_ECDHE_ECDSA_WITH_AES_256_GCM_SHA384,
        TLS_ECDHE_RSA_WITH_AES_256_GCM_SHA384,
        TLS_ECDHE_ECDSA_WITH_CHACHA20_POLY1305_SHA256,
        TLS_ECDHE_RSA_WITH_CHACHA20_POLY1305_SHA256,
        TLS_ECDHE_RSA_WITH_AES_128_CBC_SHA,
        TLS_ECDHE_RSA_WITH_AES_256_CBC_SHA,
        TLS_RSA_WITH_AES_128_GCM_SHA256,
        TLS_RSA_WITH_AES_256_GCM_SHA384,
        TLS_RSA_WITH_AES_128_CBC_SHA,
        TLS_RSA_WITH_AES_256_CBC_SHA,
    ]
}

/// The cipher suites of Chromium, in its order.
pub fn chromium_ciphers_list() -> (r: Vec<&'static str>)
    ensures
        r@ == chromium_ciphers(),
{
    vec![
        TLS_AES_128_GCM_SHA256,
        TLS_AES_256_GCM_SHA384,
        TLS_CHACHA20_POLY1305_SHA256,
        TLS_ECDHE_ECDSA_WITH_AES_128_GCM_SHA256,
        TLS_ECDHE_RSA_WITH_AES_128_GCM_SHA256,
        TLS_ECDHE_ECDSA_WITH_AES_256_GCM_SHA384,
        TLS_ECDHE_RSA_WITH_AES_256_GCM_SHA384,
        TLS_ECDHE_ECDSA_WITH_CHACHA20_POLY1305_SHA256,
        TLS_ECDHE_RSA_WITH_CHACHA20_POLY1305_SHA256,
        TLS_ECDHE_RSA_WITH_AES_128_CBC_SHA,
        TLS_ECDHE_RSA_WITH_AES_256_CBC_SHA,
        TLS_RSA_WITH_AES_128_GCM_SHA256,
        TLS_RSA_WITH_AES_256_GCM_SHA384,
        TLS_RSA_WITH_AES_128_CBC_SHA,
        TLS_RSA_WITH_AES_256_CBC_SHA,
    ]
}

/// The cipher suites of Safari, in its order.
pub open spec fn safari_ciphers() -> Seq<&'static str> {
    seq![
        TLS_AES_128_GCM_SHA256,
        TLS_AES_256_GCM_SHA384,
        TLS_CHACHA20_POLY1305_SHA256,
        TLS_ECDHE_ECDSA_WITH_AES_256_GCM_SHA384,
        TLS_ECDHE_ECDSA_WITH_AES_128_GCM_SHA256,
        TLS_ECDHE_ECDSA_WITH_CHACHA20_POLY1305_SHA256,
        TLS_ECDHE_RSA_WITH_AES_256_GCM_SHA384,
        TLS_ECDHE_RSA_WITH_AES_128_GCM_SHA256,
        TLS_ECDHE_RSA_WITH_CHACHA20_POLY1305_SHA256,
        TLS_ECDHE_ECDSA_WITH_AES_256_CBC_SHA,
        TLS_ECDHE_ECDSA_WITH_AES_128_CBC_SHA,
        TLS_ECDHE_RSA_WITH_AES_256_CBC_SHA,
        TLS_ECDHE_RSA_WITH_AES_128_CBC_SHA,
        TLS_RSA_WITH_AES_256_GCM_SHA384,
        TLS_RSA_WITH_AES_128_GCM_SHA256,
        TLS_RSA_WITH_AES_256_CBC_SHA,
        TLS_RSA_WITH_AES_128_CBC_SHA,
        TLS_ECDHE_ECDSA_WITH_3DES_EDE_CBC_SHA,
        TLS_ECDHE_RSA_WITH_3DES_EDE_CBC_SHA,
        TLS_RSA_WITH_3DES_EDE_CBC_SHA,
    ]
}

/// The cipher suites of Safari, in its order.
pub fn safari_ciphers_list() -> (r: Vec<&'static str>)
    ensures
        r@ == safari_ciphers(),
{
    vec![
        TLS_AES_128_GCM_SHA256,
        TLS_AES_256_GCM_SHA384,
        TLS_CHACHA20_POLY1305_SHA256,
        TLS_ECDHE_ECDSA_WITH_AES_256_GCM_SHA384,
        TLS_ECDHE_ECDSA_WITH_AES_128_GCM_SHA256,
        TLS_ECDHE_ECDSA_WITH_CHACHA20_POLY1305_SHA256,
        TLS_ECDHE_RSA_WITH_AES_256_GCM_SHA384,
        TLS_ECDHE_RSA_WITH_AES_128_GCM_SHA256,
        TLS_ECDHE_RSA_WITH_CHACHA20_POLY1305_SHA256,
        TLS_ECDHE_ECDSA_WITH_AES_256_CBC_SHA,
        TLS_ECDHE_ECDSA_WITH_AES_128_CBC_SHA,
        TLS_ECDHE_RSA_WITH_AES_256_CBC_SHA,
        TLS_ECDHE_RSA_WITH_AES_128_CBC_SHA,
        TLS_RSA_WITH_AES_256_GCM_SHA384,
        TLS_RSA_WITH_AES_128_GCM_SHA256,
        TLS_RSA_WITH_AES_256_CBC_SHA,
        TLS_RSA_WITH_AES_128_CBC_SHA,
        TLS_ECDHE_ECDSA_WITH_3DES_EDE_CBC_SHA,
        TLS_ECDHE_RSA_WITH_3DES_EDE_CBC_SHA,
        TLS_RSA_WITH_3DES_EDE_CBC_SHA,
    ]
}

/// The cipher suites of OkHttp 3.9, in its order.
pub open spec fn okhttp_3_9_ciphers() -> Seq<&'static str> {
    seq![
        TLS_ECDHE_ECDSA_WITH_AES_128_GCM_SHA256,
        TLS_ECDHE_RSA_WITH_AES_128_GCM_SHA256,
        TLS_ECDHE_ECDSA_WITH_AES_256_GCM_SHA384,
        TLS_ECDHE_RSA_WITH_AES_256_GCM_SHA384,
        TLS_ECDHE_ECDSA_WITH_CHACHA20_POLY1305_SHA256,
        TLS_ECDHE_RSA_WITH_CHACHA20_POLY1305_SHA256,
        TLS_ECDHE_ECDSA_WITH_AES_128_CBC_SHA,
        TLS_ECDHE_RSA_WITH_AES_128_CBC_SHA,
        TLS_ECDHE_ECDSA_WITH_AES_256_CBC_SHA,
        TLS_ECDHE_RSA_WITH_AES_256_CBC_SHA,
        TLS_RSA_WITH_AES_128_GCM_SHA256,
        TLS_RSA_WITH_AES_256_GCM_SHA384,
        TLS_RSA_WITH_AES_128_CBC_SHA,
        TLS_RSA_WITH_AES_256_CBC_SHA,
        TLS_RSA_WITH_3DES_EDE_CBC_SHA,
    ]
}

/// The cipher suites of OkHttp 3.9, in its order.
pub fn okhttp_3_9_ciphers_list() -> (r: Vec<&'static str>)
    ensures
        r@ == okhttp_3_9_ciphers(),
{
    vec![
        TLS_ECDHE_ECDSA_WITH_AES_128_GCM_SHA256,
        TLS_ECDHE_RSA_WITH_AES_128_GCM_SHA256,
        TLS_ECDHE_ECDSA_WITH_AES_256_GCM_SHA384,
        TLS_ECDHE_RSA_WITH_AES_256_GCM_SHA384,
        TLS_ECDHE_ECDSA_WITH_CHACHA20_POLY1305_SHA256,
        TLS_ECDHE_RSA_WITH_CHACHA20_POLY1305_SHA256,
        TLS_ECDHE_ECDSA_WITH_AES_128_CBC_SHA,
        TLS_ECDHE_RSA_WITH_AES_128_CBC_SHA,
        TLS_ECDHE_ECDSA_WITH_AES_256_CBC_SHA,
        TLS_ECDHE_RSA_WITH_AES_256_CBC_SHA,
        TLS_RSA_WITH_AES_128_GCM_SHA256,
        TLS_RSA_WITH_AES_256_GCM_SHA384,
        TLS_RSA_WITH_AES_128_CBC_SHA,
        TLS_RSA_WITH_AES_256_CBC_SHA,
        TLS_RSA_WITH_3DES_EDE_CBC_SHA,
    ]
}

/// The cipher suites of OkHttp 3.11, in its order.
pub open spec fn okhttp_3_11_ciphers() -> Seq<&'static str> {
    seq![
        TLS_ECDHE_ECDSA_WITH_AES_128_GCM_SHA256,
        TLS_ECDHE_RSA_WITH_AES_128_GCM_SHA256,
        TLS_ECDHE_ECDSA_WITH_AES_256_GCM_SHA384,
        TLS_ECDHE_RSA_WITH_AES_256_GCM_SHA384,
        TLS_ECDHE_ECDSA_WITH_CHACHA20_POLY1305_SHA256,
        TLS_ECDHE_RSA_WITH_CHACHA20_POLY1305_SHA256,
        TLS_ECDHE_RSA_WITH_AES_128_CBC_SHA,
        TLS_ECDHE_RSA_WITH_AES_256_CBC_SHA,
        TLS_RSA_WITH_AES_128_GCM_SHA256,
        TLS_RSA_WITH_AES_256_GCM_SHA384,
        TLS_RSA_WITH_AES_128_CBC_SHA,
        TLS_RSA_WITH_AES_256_CBC_SHA,
        TLS_RSA_WITH_3DES_EDE_CBC_SHA,
    ]
}

/// The cipher suites of OkHttp 3.11, in its order.
pub fn okhttp_3_11_ciphers_list() -> (r: Vec<&'static str>)
    ensures
        r@ == okhttp_3_11_ciphers(),
{
    vec![
        TLS_ECDHE_ECDSA_WITH_AES_128_GCM_SHA256,
        TLS_ECDHE_RSA_WITH_AES_128_GCM_SHA256,
        TLS_ECDHE_ECDSA_WITH_AES_256_GCM_SHA384,
        TLS_ECDHE_RSA_WITH_AES_256_GCM_SHA384,
        TLS_ECDHE_ECDSA_WITH_CHACHA20_POLY1305_SHA256,
        TLS_ECDHE_RSA_WITH_CHACHA20_POLY1305_SHA256,
        TLS_ECDHE_RSA_WITH_AES_128_CBC_SHA,
        TLS_ECDHE_RSA_WITH_AES_256_CBC_SHA,
        TLS_RSA_WITH_AES_128_GCM_SHA256,
        TLS_RSA_WITH_AES_256_GCM_SHA384,
        TLS_RSA_WITH_AES_128_CBC_SHA,
        TLS_RSA_WITH_AES_256_CBC_SHA,
        TLS_RSA_WITH_3DES_EDE_CBC_SHA,
    ]
}

/// The cipher suites of OkHttp 3.13 and 3.14, in their order.
pub open spec fn okhttp_3_13_ciphers() -> Seq<&'static str> {
    seq![
        TLS_AES_128_GCM_SHA256,
        TLS_AES_256_GCM_SHA384,
        TLS_CHACHA20_POLY1305_SHA256,
        TLS_ECDHE_ECDSA_WITH_AES_128_GCM_SHA256,
        TLS_ECDHE_RSA_WITH_AES_128_GCM_SHA256,
        TLS_ECDHE_ECDSA_WITH_AES_256_GCM_SHA384,
        TLS_ECDHE_RSA_WITH_AES_256_GCM_SHA384,
        TLS_ECDHE_ECDSA_WITH_CHACHA20_POLY1305_SHA256,
        TLS_ECDHE_RSA_WITH_CHACHA20_POLY1305_SHA256,
        TLS_ECDHE_RSA_WITH_AES_128_CBC_SHA,
        TLS_ECDHE_RSA_WITH_AES_256_CBC_SHA,
        TLS_RSA_WITH_AES_128_GCM_SHA256,
        TLS_RSA_WITH_AES_256_GCM_SHA384,
        TLS_RSA_WITH_AES_128_CBC_SHA,
        TLS_RSA_WITH_AES_256_CBC_SHA,
        TLS_RSA_WITH_3DES_EDE_CBC_SHA,
    ]
}

/// The cipher suites of OkHttp 3.13 and 3.14, in their order.
pub fn okhttp_3_13_ciphers_list() -> (r: Vec<&'static str>)
    ensures
        r@ == okhttp_3_13_ciphers(),
{
    vec![
        TLS_AES_128_GCM_SHA256,
        TLS_AES_256_GCM_SHA384,
        TLS_CHACHA20_POLY1305_SHA256,
        TLS_ECDHE_ECDSA_WITH_AES_128_GCM_SHA256,
        TLS_ECDHE_RSA_WITH_AES_128_GCM_SHA256,
        TLS_ECDHE_ECDSA_WITH_AES_256_GCM_SHA384,
        TLS_ECDHE_RSA_WITH_AES_256_GCM_SHA384,
        TLS_ECDHE_ECDSA_WITH_CHACHA20_POLY1305_SHA256,
        TLS_ECDHE_RSA_WITH_CHACHA20_POLY1305_SHA256,
        TLS_ECDHE_RSA_WITH_AES_128_CBC_SHA,
        TLS_ECDHE_RSA_WITH_AES_256_CBC_SHA,
        TLS_RSA_WITH_AES_128_GCM_SHA256,
        TLS_RSA_WITH_AES_256_GCM_SHA384,
        TLS_RSA_WITH_AES_128_CBC_SHA,
        TLS_RSA_WITH_AES_256_CBC_SHA,
        TLS_RSA_WITH_3DES_EDE_CBC_SHA,
    ]
}

/// The signature schemes of Chromium, in its order.
pub open spec fn chromium_sigalgs() -> Seq<&'static str> {
    seq![
        ECDSA_SECP256R1_SHA256,
        RSA_PSS_RSAE_SHA256,
        RSA_PKCS1_SHA256,
        ECDSA_SECP384R1_SHA384,
        RSA_PSS_RSAE_SHA384,
        RSA_PKCS1_SHA384,
        RSA_PSS_RSAE_SHA512,
        RSA_PKCS1_SHA512,
    ]
}

/// The signature schemes of Chromium, in its order.
pub fn chromium_sigalgs_list() -> (r: Vec<&'static str>)
    ensures
        r@ == chromium_sigalgs(),
{
    vec![
        ECDSA_SECP256R1_SHA256,
        RSA_PSS_RSAE_SHA256,
        RSA_PKCS1_SHA256,
        ECDSA_SECP384R1_SHA384,
        RSA_PSS_RSAE_SHA384,
        RSA_PKCS1_SHA384,
        RSA_PSS_RSAE_SHA512,
        RSA_PKCS1_SHA512,
    ]
}

/// The signature schemes of Safari, in its order. Safari names one twice.
pub open spec fn safari_sigalgs() -> Seq<&'static str> {
    seq![
        ECDSA_SECP256R1_SHA256,
        RSA_PSS_RSAE_SHA256,
        RSA_PKCS1_SHA256,
        ECDSA_SECP384R1_SHA384,
        ECDSA_SHA1,
        RSA_PSS_RSAE_SHA384,
        RSA_PSS_RSAE_SHA384,
        RSA_PKCS1_SHA384,
        RSA_PSS_RSAE_SHA512,
        RSA_PKCS1_SHA512,
        RSA_PKCS1_SHA1,
    ]
}

/// The signature schemes of Safari, in its order. Safari names one twice.
pub fn safari_sigalgs_list() -> (r: Vec<&'static str>)
    ensures
        r@ == safari_sigalgs(),
{
    vec![
        ECDSA_SECP256R1_SHA256,
        RSA_PSS_RSAE_SHA256,
        RSA_PKCS1_SHA256,
        ECDSA_SECP384R1_SHA384,
        ECDSA_SHA1,
        RSA_PSS_RSAE_SHA384,
        RSA_PSS_RSAE_SHA384,
        RSA_PKCS1_SHA384,
        RSA_PSS_RSAE_SHA512,
        RSA_PKCS1_SHA512,
        RSA_PKCS1_SHA1,
    ]
}

/// The signature schemes of OkHttp, in its order.
pub open spec fn okhttp_sigalgs() -> Seq<&'static str> {
    seq![
        ECDSA_SECP256R1_SHA256,
        RSA_PSS_RSAE_SHA256,
        RSA_PKCS1_SHA256,
        ECDSA_SECP384R1_SHA384,
        RSA_PSS_RSAE_SHA384,
        RSA_PKCS1_SHA384,
        RSA_PSS_RSAE_SHA512,
        RSA_PKCS1_SHA512,
        RSA_PKCS1_SHA1,
    ]
}

/// The signature schemes of OkHttp, in its order.
pub fn okhttp_sigalgs_list() -> (r: Vec<&'static str>)
    ensures
        r@ == okhttp_sigalgs(),
{
    vec![
        ECDSA_SECP256R1_SHA256,
        RSA_PSS_RSAE_SHA256,
        RSA_PKCS1_SHA256,
        ECDSA_SECP384R1_SHA384,
        RSA_PSS_RSAE_SHA384,
        RSA_PKCS1_SHA384,
        RSA_PSS_RSAE_SHA512,
        RSA_PKCS1_SHA512,
        RSA_PKCS1_SHA1,
    ]
}

/// The extensions of a Chromium ClientHello, in order.
pub open spec fn chromium_order() -> Seq<u16> {
    seq![
        EXT_SERVER_NAME,
        EXT_EXTENDED_MASTER_SECRET,
        EXT_RENEGOTIATION_INFO,
        EXT_SUPPORTED_GROUPS,
        EXT_EC_POINT_FORMATS,
        EXT_SESSION_TICKET,
        EXT_ALPN,
        EXT_STATUS_REQUEST,
        EXT_SIGNATURE_ALGORITHMS,
        EXT_SIGNED_CERT_TIMESTAMP,
        EXT_KEY_SHARE,
        EXT_PSK_KEY_EXCHANGE_MODES,
        EXT_SUPPORTED_VERSIONS,
        EXT_COMPRESS_CERTIFICATE,
        EXT_APPLICATION_SETTINGS,
        EXT_PADDING,
        EXT_PRE_SHARED_KEY,
    ]
}

/// The extensions of a Chromium ClientHello, in order.
pub fn chromium_order_list() -> (r: Vec<u16>)
    ensures
        r@ == chromium_order(),
{
    vec![
        EXT_SERVER_NAME,
        EXT_EXTENDED_MASTER_SECRET,
        EXT_RENEGOTIATION_INFO,
        EXT_SUPPORTED_GROUPS,
        EXT_EC_POINT_FORMATS,
        EXT_SESSION_TICKET,
        EXT_ALPN,
        EXT_STATUS_REQUEST,
        EXT_SIGNATURE_ALGORITHMS,
        EXT_SIGNED_CERT_TIMESTAMP,
        EXT_KEY_SHARE,
        EXT_PSK_KEY_EXCHANGE_MODES,
        EXT_SUPPORTED_VERSIONS,
        EXT_COMPRESS_CERTIFICATE,
        EXT_APPLICATION_SETTINGS,
        EXT_PADDING,
        EXT_PRE_SHARED_KEY,
    ]
}

/// The extensions of a Chromium ClientHello that carries encrypted ClientHello, in order.
pub open spec fn chromium_ech_order() -> Seq<u16> {
    seq![
        EXT_SERVER_NAME,
        EXT_ENCRYPTED_CLIENT_HELLO,
        EXT_EXTENDED_MASTER_SECRET,
        EXT_RENEGOTIATION_INFO,
        EXT_SUPPORTED_GROUPS,
        EXT_EC_POINT_FORMATS,
        EXT_SESSION_TICKET,
        EXT_ALPN,
        EXT_STATUS_REQUEST,
        EXT_SIGNATURE_ALGORITHMS,
        EXT_SIGNED_CERT_TIMESTAMP,
        EXT_KEY_SHARE,
        EXT_PSK_KEY_EXCHANGE_MODES,
        EXT_SUPPORTED_VERSIONS,
        EXT_COMPRESS_CERTIFICATE,
        EXT_APPLICATION_SETTINGS,
        EXT_PRE_SHARED_KEY,
    ]
}

/// The extensions of a Chromium ClientHello that carries encrypted ClientHello, in order.
pub fn chromium_ech_order_list() -> (r: Vec<u16>)
    ensures
        r@ == chromium_ech_order(),
{
    vec![
        EXT_SERVER_NAME,
        EXT_ENCRYPTED_CLIENT_HELLO,
        EXT_EXTENDED_MASTER_SECRET,
        EXT_RENEGOTIATION_INFO,
        EXT_SUPPORTED_GROUPS,
        EXT_EC_POINT_FORMATS,
        EXT_SESSION_TICKET,
        EXT_ALPN,
        EXT_STATUS_REQUEST,
        EXT_SIGNATURE_ALGORITHMS,
        EXT_SIGNED_CERT_TIMESTAMP,
        EXT_KEY_SHARE,
        EXT_PSK_KEY_EXCHANGE_MODES,
        EXT_SUPPORTED_VERSIONS,
        EXT_COMPRESS_CERTIFICATE,
        EXT_APPLICATION_SETTINGS,
        EXT_PRE_SHARED_KEY,
    ]
}

/// The extensions of a Safari ClientHello, in order.
pub open spec fn safari_order() -> Seq<u16> {
    seq![
        EXT_SERVER_NAME,
        EXT_EXTENDED_MASTER_SECRET,
        EXT_RENEGOTIATION_INFO,
        EXT_SUPPORTED_GROUPS,
        EXT_EC_POINT_FORMATS,
        EXT_ALPN,
        EXT_STATUS_REQUEST,
        EXT_SIGNATURE_ALGORITHMS,
        EXT_SIGNED_CERT_TIMESTAMP,
        EXT_KEY_SHARE,
        EXT_PSK_KEY_EXCHANGE_MODES,
        EXT_SUPPORTED_VERSIONS,
        EXT_COMPRESS_CERTIFICATE,
        EXT_PADDING,
        EXT_PRE_SHARED_KEY,
    ]
}

/// The extensions of a Safari ClientHello, in order.
pub fn safari_order_list() -> (r: Vec<u16>)
    ensures
        r@ == safari_order(),
{
    vec![
        EXT_SERVER_NAME,
        EXT_EXTENDED_MASTER_SECRET,
        EXT_RENEGOTIATION_INFO,
        EXT_SUPPORTED_GROUPS,
        EXT_EC_POINT_FORMATS,
        EXT_ALPN,
        EXT_STATUS_REQUEST,
        EXT_SIGNATURE_ALGORITHMS,
        EXT_SIGNED_CERT_TIMESTAMP,
        EXT_KEY_SHARE,
        EXT_PSK_KEY_EXCHANGE_MODES,
        EXT_SUPPORTED_VERSIONS,
        EXT_COMPRESS_CERTIFICATE,
        EXT_PADDING,
        EXT_PRE_SHARED_KEY,
    ]
}

/// The extensions of an OkHttp ClientHello, in order.
pub open spec fn okhttp_order() -> Seq<u16> {
    seq![
        EXT_SERVER_NAME,
        EXT_EXTENDED_MASTER_SECRET,
        EXT_RENEGOTIATION_INFO,
        EXT_SUPPORTED_GROUPS,
        EXT_EC_POINT_FORMATS,
        EXT_SESSION_TICKET,
        EXT_ALPN,
        EXT_STATUS_REQUEST,
        EXT_SIGNATURE_ALGORITHMS,
        EXT_KEY_SHARE,
        EXT_PSK_KEY_EXCHANGE_MODES,
        EXT_SUPPORTED_VERSIONS,
    ]
}

/// The extensions of an OkHttp ClientHello, in order.
pub fn okhttp_order_list() -> (r: Vec<u16>)
    ensures
        r@ == okhttp_order(),
{
    vec![
        EXT_SERVER_NAME,
        EXT_EXTENDED_MASTER_SECRET,
        EXT_RENEGOTIATION_INFO,
        EXT_SUPPORTED_GROUPS,
        EXT_EC_POINT_FORMATS,
        EXT_SESSION_TICKET,
        EXT_ALPN,
        EXT_STATUS_REQUEST,
        EXT_SIGNATURE_ALGORITHMS,
        EXT_KEY_SHARE,
        EXT_PSK_KEY_EXCHANGE_MODES,
        EXT_SUPPORTED_VERSIONS,
    ]
}

/// Which extensions the list holds: each once, and `pre_shared_key`
/// nowhere but at the end.
pub proof fn lemma_chromium_order()
    ensures
        chromium_order().len() == 17,
        chromium_order().no_duplicates(),
        psk_last(chromium_order()),
        !chromium_order().contains(EXT_ENCRYPTED_CLIENT_HELLO),
        chromium_order().contains(EXT_STATUS_REQUEST),
        chromium_order().contains(EXT_SESSION_TICKET),
        chromium_order().contains(EXT_PRE_SHARED_KEY),
        chromium_order().contains(EXT_COMPRESS_CERTIFICATE),
        !chromium_order().contains(EXT_RECORD_SIZE_LIMIT),
        chromium_order().contains(EXT_PADDING),
        chromium_order().contains(EXT_SUPPORTED_GROUPS),
        chromium_order().contains(EXT_SIGNATURE_ALGORITHMS),
        chromium_order().contains(EXT_ALPN),
{
    let order = chromium_order();
    assert(order[0] == EXT_SERVER_NAME);
    assert(order[1] == EXT_EXTENDED_MASTER_SECRET);
    assert(order[2] == EXT_RENEGOTIATION_INFO);
    assert(order[3] == EXT_SUPPORTED_GROUPS);
    assert(order[4] == EXT_EC_POINT_FORMATS);
    assert(order[5] == EXT_SESSION_TICKET);
    assert(order[6] == EXT_ALPN);
    assert(order[7] == EXT_STATUS_REQUEST);
    assert(order[8] == EXT_SIGNATURE_ALGORITHMS);
    assert(order[9] == EXT_SIGNED_CERT_TIMESTAMP);
    assert(order[10] == EXT_KEY_SHARE);
    assert(order[11] == EXT_PSK_KEY_EXCHANGE_MODES);
    assert(order[12] == EXT_SUPPORTED_VERSIONS);
    assert(order[13] == EXT_COMPRESS_CERTIFICATE);
    assert(order[14] == EXT_APPLICATION_SETTINGS);
    assert(order[15] == EXT_PADDING);
    assert(order[16] == EXT_PRE_SHARED_KEY);
}

/// Which extensions the list holds: each once, and `pre_shared_key`
/// nowhere but at the end.
pub proof fn lemma_chromium_ech_order()
    ensures
        chromium_ech_order().len() == 17,
        chromium_ech_order().no_duplicates(),
        psk_last(chromium_ech_order()),
        chromium_ech_order().contains(EXT_ENCRYPTED_CLIENT_HELLO),
        chromium_ech_order().contains(EXT_STATUS_REQUEST),
        chromium_ech_order().contains(EXT_SESSION_TICKET),
        chromium_ech_order().contains(EXT_PRE_SHARED_KEY),
        chromium_ech_order().contains(EXT_COMPRESS_CERTIFICATE),
        !chromium_ech_order().contains(EXT_RECORD_SIZE_LIMIT),
        !chromium_ech_order().contains(EXT_PADDING),
        chromium_ech_order().contains(EXT_SUPPORTED_GROUPS),
        chromium_ech_order().contains(EXT_SIGNATURE_ALGORITHMS),
        chromium_ech_order().contains(EXT_ALPN),
{
    let order = chromium_ech_order();
    assert(order[0] == EXT_SERVER_NAME);
    assert(order[1] == EXT_ENCRYPTED_CLIENT_HELLO);
    assert(order[2] == EXT_EXTENDED_MASTER_SECRET);
    assert(order[3] == EXT_RENEGOTIATION_INFO);
    assert(order[4] == EXT_SUPPORTED_GROUPS);
    assert(order[5] == EXT_EC_POINT_FORMATS);
    assert(order[6] == EXT_SESSION_TICKET);
    assert(order[7] == EXT_ALPN);
    assert(order[8] == EXT_STATUS_REQUEST);
    assert(order[9] == EXT_SIGNATURE_ALGORITHMS);
    assert(order[10] == EXT_SIGNED_CERT_TIMESTAMP);
    assert(order[11] == EXT_KEY_SHARE);
    assert(order[12] == EXT_PSK_KEY_EXCHANGE_MODES);
    assert(order[13] == EXT_SUPPORTED_VERSIONS);
    assert(order[14] == EXT_COMPRESS_CERTIFICATE);
    assert(order[15] == EXT_APPLICATION_SETTINGS);
    assert(order[16] == EXT_PRE_SHARED_KEY);
}

/// Which extensions the list holds: each once, and `pre_shared_key`
/// nowhere but at the end.
pub proof fn lemma_safari_order()
    ensures
        safari_order().len() == 15,
        safari_order().no_duplicates(),
        psk_last(safari_order()),
        !safari_order().contains(EXT_ENCRYPTED_CLIENT_HELLO),
        safari_order().contains(EXT_STATUS_REQUEST),
        !safari_order().contains(EXT_SESSION_TICKET),
        safari_order().contains(EXT_PRE_SHARED_KEY),
        safari_order().contains(EXT_COMPRESS_CERTIFICATE),
        !safari_order().contains(EXT_RECORD_SIZE_LIMIT),
        safari_order().contains(EXT_PADDING),
        safari_order().contains(EXT_SUPPORTED_GROUPS),
        safari_order().contains(EXT_SIGNATURE_ALGORITHMS),
        safari_order().contains(EXT_ALPN),
{
    let order = safari_order();
    assert(order[0] == EXT_SERVER_NAME);
    assert(order[1] == EXT_EXTENDED_MASTER_SECRET);
    assert(order[2] == EXT_RENEGOTIATION_INFO);
    assert(order[3] == EXT_SUPPORTED_GROUPS);
    assert(order[4] == EXT_EC_POINT_FORMATS);
    assert(order[5] == EXT_ALPN);
    assert(order[6] == EXT_STATUS_REQUEST);
    assert(order[7] == EXT_SIGNATURE_ALGORITHMS);
    assert(order[8] == EXT_SIGNED_CERT_TIMESTAMP);
    assert(order[9] == EXT_KEY_SHARE);
    assert(order[10] == EXT_PSK_KEY_EXCHANGE_MODES);
    assert(order[11] == EXT_SUPPORTED_VERSIONS);
    assert(order[12] == EXT_COMPRESS_CERTIFICATE);
    assert(order[13] == EXT_PADDING);
    assert(order[14] == EXT_PRE_SHARED_KEY);
}

/// Which extensions the list holds: each once, and `pre_shared_key`
/// nowhere but at the end.
pub proof fn lemma_okhttp_order()
    ensures
        okhttp_order().len() == 12,
        okhttp_order().no_duplicates(),
        psk_last(okhttp_order()),
        !okhttp_order().contains(EXT_ENCRYPTED_CLIENT_HELLO),
        okhttp_order().contains(EXT_STATUS_REQUEST),
        okhttp_order().contains(EXT_SESSION_TICKET),
        !okhttp_order().contains(EXT_PRE_SHARED_KEY),
        !okhttp_order().contains(EXT_COMPRESS_CERTIFICATE),
        !okhttp_order().contains(EXT_RECORD_SIZE_LIMIT),
        !okhttp_order().contains(EXT_PADDING),
        okhttp_order().contains(EXT_SUPPORTED_GROUPS),
        okhttp_order().contains(EXT_SIGNATURE_ALGORITHMS),
        okhttp_order().contains(EXT_ALPN),
{
    let order = okhttp_order();
    assert(order[0] == EXT_SERVER_NAME);
    assert(order[1] == EXT_EXTENDED_MASTER_SECRET);
    assert(order[2] == EXT_RENEGOTIATION_INFO);
    assert(order[3] == EXT_SUPPORTED_GROUPS);
    assert(order[4] == EXT_EC_POINT_FORMATS);
    assert(order[5] == EXT_SESSION_TICKET);
    assert(order[6] == EXT_ALPN);
    assert(order[7] == EXT_STATUS_REQUEST);
    assert(order[8] == EXT_SIGNATURE_ALGORITHMS);
    assert(order[9] == EXT_KEY_SHARE);
    assert(order[10] == EXT_PSK_KEY_EXCHANGE_MODES);
    assert(order[11] == EXT_SUPPORTED_VERSIONS);
}

} // verus!
