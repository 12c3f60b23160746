//! The strings that the catalog is written in: cipher suites, signature
//! schemes, header names and the header values that several builds share.

use vstd::prelude::*;
use crate::headers::{valid_name, valid_value};

verus! {

/// Cipher suite `TLS_AES_128_GCM_SHA256`.
pub const TLS_AES_128_GCM_SHA256: &'static str = "TLS_AES_128_GCM_SHA256";

/// Cipher suite `TLS_AES_256_GCM_SHA384`.
pub const TLS_AES_256_GCM_SHA384: &'static str = "TLS_AES_256_GCM_SHA384";

/// Cipher suite `TLS_CHACHA20_POLY1305_SHA256`.
pub const TLS_CHACHA20_POLY1305_SHA256: &'static str = "TLS_CHACHA20_POLY1305_SHA256";

/// Cipher suite `TLS_ECDHE_ECDSA_WITH_AES_128_GCM_SHA256`.
pub const TLS_ECDHE_ECDSA_WITH_AES_128_GCM_SHA256: &'static str = "TLS_ECDHE_ECDSA_WITH_AES_128_GCM_SHA256";

/// Cipher suite `TLS_ECDHE_RSA_WITH_AES_128_GCM_SHA256`.
pub const TLS_ECDHE_RSA_WITH_AES_128_GCM_SHA256: &'static str = "TLS_ECDHE_RSA_WITH_AES_128_GCM_SHA256";

/// Cipher suite `TLS_ECDHE_ECDSA_WITH_AES_256_GCM_SHA384`.
pub const TLS_ECDHE_ECDSA_WITH_AES_256_GCM_SHA384: &'static str = "TLS_ECDHE_ECDSA_WITH_AES_256_GCM_SHA384";

/// Cipher suite `TLS_ECDHE_RSA_WITH_AES_256_GCM_SHA384`.
pub const TLS_ECDHE_RSA_WITH_AES_256_GCM_SHA384: &'static str = "TLS_ECDHE_RSA_WITH_AES_256_GCM_SHA384";

/// Cipher suite `TLS_ECDHE_ECDSA_WITH_CHACHA20_POLY1305_SHA256`.
pub const TLS_ECDHE_ECDSA_WITH_CHACHA20_POLY1305_SHA256: &'static str = "TLS_ECDHE_ECDSA_WITH_CHACHA20_POLY1305_SHA256";

/// Cipher suite `TLS_ECDHE_RSA_WITH_CHACHA20_POLY1305_SHA256`.
pub const TLS_ECDHE_RSA_WITH_CHACHA20_POLY1305_SHA256: &'static str = "TLS_ECDHE_RSA_WITH_CHACHA20_POLY1305_SHA256";

/// Cipher suite `TLS_ECDHE_ECDSA_WITH_AES_128_CBC_SHA`.
pub const TLS_ECDHE_ECDSA_WITH_AES_128_CBC_SHA: &'static str = "TLS_ECDHE_ECDSA_WITH_AES_128_CBC_SHA";

/// Cipher suite `TLS_ECDHE_RSA_WITH_AES_128_CBC_SHA`.
pub const TLS_ECDHE_RSA_WITH_AES_128_CBC_SHA: &'static str = "TLS_ECDHE_RSA_WITH_AES_128_CBC_SHA";

/// Cipher suite `TLS_ECDHE_ECDSA_WITH_AES_256_CBC_SHA`.
pub const TLS_ECDHE_ECDSA_WITH_AES_256_CBC_SHA: &'static str = "TLS_ECDHE_ECDSA_WITH_AES_256_CBC_SHA";

/// Cipher suite `TLS_ECDHE_RSA_WITH_AES_256_CBC_SHA`.
pub const TLS_ECDHE_RSA_WITH_AES_256_CBC_SHA: &'static str = "TLS_ECDHE_RSA_WITH_AES_256_CBC_SHA";

/// Cipher suite `TLS_RSA_WITH_AES_128_GCM_SHA256`.
pub const TLS_RSA_WITH_AES_128_GCM_SHA256: &'static str = "TLS_RSA_WITH_AES_128_GCM_SHA256";

/// Cipher suite `TLS_RSA_WITH_AES_256_GCM_SHA384`.
pub const TLS_RSA_WITH_AES_256_GCM_SHA384: &'static str = "TLS_RSA_WITH_AES_256_GCM_SHA384";

/// Cipher suite `TLS_RSA_WITH_AES_128_CBC_SHA`.
pub const TLS_RSA_WITH_AES_128_CBC_SHA: &'static str = "TLS_RSA_WITH_AES_128_CBC_SHA";

/// Cipher suite `TLS_RSA_WITH_AES_256_CBC_SHA`.
pub const TLS_RSA_WITH_AES_256_CBC_SHA: &'static str = "TLS_RSA_WITH_AES_256_CBC_SHA";

/// Cipher suite `TLS_ECDHE_ECDSA_WITH_3DES_EDE_CBC_SHA`.
pub const TLS_ECDHE_ECDSA_WITH_3DES_EDE_CBC_SHA: &'static str = "TLS_ECDHE_ECDSA_WITH_3DES_EDE_CBC_SHA";

/// Cipher suite `TLS_ECDHE_RSA_WITH_3DES_EDE_CBC_SHA`.
pub const TLS_ECDHE_RSA_WITH_3DES_EDE_CBC_SHA: &'static str = "TLS_ECDHE_RSA_WITH_3DES_EDE_CBC_SHA";

/// Cipher suite `TLS_RSA_WITH_3DES_EDE_CBC_SHA`.
pub const TLS_RSA_WITH_3DES_EDE_CBC_SHA: &'static str = "TLS_RSA_WITH_3DES_EDE_CBC_SHA";

/// Signature scheme `ecdsa_secp256r1_sha256`.
pub const ECDSA_SECP256R1_SHA256: &'static str = "ecdsa_secp256r1_sha256";

/// Signature scheme `rsa_pss_rsae_sha256`.
pub const RSA_PSS_RSAE_SHA256: &'static str = "rsa_pss_rsae_sha256";

/// Signature scheme `rsa_pkcs1_sha256`.
pub const RSA_PKCS1_SHA256: &'static str = "rsa_pkcs1_sha256";

/// Signature scheme `ecdsa_secp384r1_sha384`.
pub const ECDSA_SECP384R1_SHA384: &'static str = "ecdsa_secp384r1_sha384";

/// Signature scheme `rsa_pss_rsae_sha384`.
pub const RSA_PSS_RSAE_SHA384: &'static str = "rsa_pss_rsae_sha384";

/// Signature scheme `rsa_pkcs1_sha384`.
pub const RSA_PKCS1_SHA384: &'static str = "rsa_pkcs1_sha384";

/// Signature scheme `rsa_pss_rsae_sha512`.
pub const RSA_PSS_RSAE_SHA512: &'static str = "rsa_pss_rsae_sha512";

/// Signature scheme `rsa_pkcs1_sha512`.
pub const RSA_PKCS1_SHA512: &'static str = "rsa_pkcs1_sha512";

/// Signature scheme `rsa_pkcs1_sha1`.
pub const RSA_PKCS1_SHA1: &'static str = "rsa_pkcs1_sha1";

/// Signature scheme `ecdsa_sha1`.
pub const ECDSA_SHA1: &'static str = "ecdsa_sha1";

/// Header name `accept`.
pub const ACCEPT: &'static str = "accept";

/// Header name `accept-encoding`.
pub const ACCEPT_ENCODING: &'static str = "accept-encoding";

/// Header name `accept-language`.
pub const ACCEPT_LANGUAGE: &'static str = "accept-language";

/// Header name `user-agent`.
pub const USER_AGENT: &'static str = "user-agent";

/// Header name `sec-ch-ua`.
pub const SEC_CH_UA: &'static str = "sec-ch-ua";

/// Header name `sec-ch-ua-mobile`.
pub const SEC_CH_UA_MOBILE: &'static str = "sec-ch-ua-mobile";

/// Header name `sec-ch-ua-platform`.
pub const SEC_CH_UA_PLATFORM: &'static str = "sec-ch-ua-platform";

/// Header name `upgrade-insecure-requests`.
pub const UPGRADE_INSECURE_REQUESTS: &'static str = "upgrade-insecure-requests";

/// Header name `sec-fetch-site`.
pub const SEC_FETCH_SITE: &'static str = "sec-fetch-site";

/// Header name `sec-fetch-mode`.
pub const SEC_FETCH_MODE: &'static str = "sec-fetch-mode";

/// Header name `sec-fetch-user`.
pub const SEC_FETCH_USER: &'static str = "sec-fetch-user";

/// Header name `sec-fetch-dest`.
pub const SEC_FETCH_DEST: &'static str = "sec-fetch-dest";

/// Accept-Language of an English-language browser.
pub const LANG_EN_US: &'static str = "en-US,en;q=0.9";

/// Accept-Language of a German-language client.
pub const LANG_DE_DE: &'static str = "de-DE,de;q=0.9,en-US;q=0.8,en;q=0.7";

/// Accept-Encoding with gzip alone.
pub const ENCODING_GZIP: &'static str = "gzip";

/// Accept-Encoding with gzip, deflate and Brotli.
pub const ENCODING_GZIP_DEFLATE_BR: &'static str = "gzip, deflate, br";

/// Accept-Encoding with gzip, deflate, Brotli and Zstandard.
pub const ENCODING_GZIP_DEFLATE_BR_ZSTD: &'static str = "gzip, deflate, br, zstd";

/// Accept for any media type.
pub const ACCEPT_ANY: &'static str = "*/*";

/// Accept of a Safari navigation.
pub const ACCEPT_DOCUMENT: &'static str = "text/html,application/xhtml+xml,application/xml;q=0.9,*/*;q=0.8";

/// Accept of a Chromium navigation, signed exchanges at 0.9.
pub const ACCEPT_NAVIGATION_B3_Q9: &'static str = "text/html,application/xhtml+xml,application/xml;q=0.9,image/avif,image/webp,image/apng,*/*;q=0.8,application/signed-exchange;v=b3;q=0.9";

/// Accept of a Chromium navigation, signed exchanges at 0.7.
pub const ACCEPT_NAVIGATION_B3_Q7: &'static str = "text/html,application/xhtml+xml,application/xml;q=0.9,image/avif,image/webp,image/apng,*/*;q=0.8,application/signed-exchange;v=b3;q=0.7";

/// sec-ch-ua-mobile of a desktop browser.
pub const NOT_MOBILE: &'static str = "?0";

/// sec-ch-ua-platform on Windows.
pub const PLATFORM_WINDOWS: &'static str = "\"Windows\"";

/// upgrade-insecure-requests, switched on.
pub const UPGRADE_YES: &'static str = "1";

/// sec-fetch-site of a navigation that the user began.
pub const FETCH_SITE_NONE: &'static str = "none";

/// sec-fetch-mode of a navigation.
pub const FETCH_MODE_NAVIGATE: &'static str = "navigate";

/// sec-fetch-user of a navigation that the user began.
pub const FETCH_USER_YES: &'static str = "?1";

/// sec-fetch-dest of a navigation.
pub const FETCH_DEST_DOCUMENT: &'static str = "document";

/// User-Agent of a current Firefox.
pub const FIREFOX_USER_AGENT: &'static str = "Mozilla/5.0 (Windows NT 10.0; Win64; x64; rv:127.0) Gecko/20100101 Firefox/127.0";

/// What a Chrome User-Agent names the product by.
pub const MARK_CHROME: &'static str = "Chrome/";

/// What a Safari User-Agent names the product by.
pub const MARK_SAFARI: &'static str = "Safari/";

/// What an OkHttp User-Agent names the product by.
pub const MARK_OKHTTP: &'static str = "okhttp/";

/// What an Edge User-Agent names the product by.
pub const MARK_EDGE: &'static str = "Edg/";

/// What a Firefox User-Agent names the product by.
pub const MARK_FIREFOX: &'static str = "Firefox/";

/// Length of a header name and one of its characters. The two tell the
/// header names of the catalog apart.
pub open spec fn name_key(s: Seq<char>) -> (nat, char) {
    (s.len(), s[s.len() - 2])
}

/// The header names of the catalog are well formed, and no two are alike.
pub proof fn lemma_header_names()
    ensures
        valid_name(ACCEPT@),
        valid_name(ACCEPT_ENCODING@),
        valid_name(ACCEPT_LANGUAGE@),
        valid_name(USER_AGENT@),
        valid_name(SEC_CH_UA@),
        valid_name(SEC_CH_UA_MOBILE@),
        valid_name(SEC_CH_UA_PLATFORM@),
        valid_name(UPGRADE_INSECURE_REQUESTS@),
        valid_name(SEC_FETCH_SITE@),
        valid_name(SEC_FETCH_MODE@),
        valid_name(SEC_FETCH_USER@),
        valid_name(SEC_FETCH_DEST@),
        name_key(ACCEPT@) == (6nat, 'p'),
        name_key(ACCEPT_ENCODING@) == (15nat, 'n'),
        name_key(ACCEPT_LANGUAGE@) == (15nat, 'g'),
        name_key(USER_AGENT@) == (10nat, 'n'),
        name_key(SEC_CH_UA@) == (9nat, 'u'),
        name_key(SEC_CH_UA_MOBILE@) == (16nat, 'l'),
        name_key(SEC_CH_UA_PLATFORM@) == (18nat, 'r'),
        name_key(UPGRADE_INSECURE_REQUESTS@) == (25nat, 't'),
        name_key(SEC_FETCH_SITE@) == (14nat, 't'),
        name_key(SEC_FETCH_MODE@) == (14nat, 'd'),
        name_key(SEC_FETCH_USER@) == (14nat, 'e'),
        name_key(SEC_FETCH_DEST@) == (14nat, 's'),
{
    reveal_strlit("accept");
    reveal_strlit("accept-encoding");
    reveal_strlit("accept-language");
    reveal_strlit("user-agent");
    reveal_strlit("sec-ch-ua");
    reveal_strlit("sec-ch-ua-mobile");
    reveal_strlit("sec-ch-ua-platform");
    reveal_strlit("upgrade-insecure-requests");
    reveal_strlit("sec-fetch-site");
    reveal_strlit("sec-fetch-mode");
    reveal_strlit("sec-fetch-user");
    reveal_strlit("sec-fetch-dest");
}

/// The header values that builds share are well formed.
pub proof fn lemma_shared_values()
    ensures
        valid_value(LANG_EN_US@),
        valid_value(LANG_DE_DE@),
        valid_value(ENCODING_GZIP@),
        valid_value(ENCODING_GZIP_DEFLATE_BR@),
        valid_value(ENCODING_GZIP_DEFLATE_BR_ZSTD@),
        valid_value(ACCEPT_ANY@),
        valid_value(ACCEPT_DOCUMENT@),
        valid_value(ACCEPT_NAVIGATION_B3_Q9@),
        valid_value(ACCEPT_NAVIGATION_B3_Q7@),
        valid_value(NOT_MOBILE@),
        valid_value(PLATFORM_WINDOWS@),
        valid_value(UPGRADE_YES@),
        valid_value(FETCH_SITE_NONE@),
        valid_value(FETCH_MODE_NAVIGATE@),
        valid_value(FETCH_USER_YES@),
        valid_value(FETCH_DEST_DOCUMENT@),
        valid_value(FIREFOX_USER_AGENT@),
{
    reveal_strlit("en-US,en;q=0.9");
    reveal_strlit("de-DE,de;q=0.9,en-US;q=0.8,en;q=0.7");
    reveal_strlit("gzip");
    reveal_strlit("gzip, deflate, br");
    reveal_strlit("gzip, deflate, br, zstd");
    reveal_strlit("*/*");
    reveal_strlit("text/html,application/xhtml+xml,application/xml;q=0.9,*/*;q=0.8");
    reveal_strlit("text/html,application/xhtml+xml,application/xml;q=0.9,image/avif,image/webp,image/apng,*/*;q=0.8,application/signed-exchange;v=b3;q=0.9");
    reveal_strlit("text/html,application/xhtml+xml,application/xml;q=0.9,image/avif,image/webp,image/apng,*/*;q=0.8,application/signed-exchange;v=b3;q=0.7");
    reveal_strlit("?0");
    reveal_strlit("\"Windows\"");
    reveal_strlit("1");
    reveal_strlit("none");
    reveal_strlit("navigate");
    reveal_strlit("?1");
    reveal_strlit("document");
    reveal_strlit("Mozilla/5.0 (Windows NT 10.0; Win64; x64; rv:127.0) Gecko/20100101 Firefox/127.0");
}

} // verus!
