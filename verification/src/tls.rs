//! The TLS side of a profile: what a ClientHello offers, and the steps
//! that set a connector up to offer it.

use vstd::prelude::*;
use crate::identity::Error;
use crate::text::{join_colon, join_names, texts};

verus! {

/// A TLS protocol version.
#[derive(Clone, Copy, Debug, PartialEq, Eq, Structural)]
pub enum TlsVersion {
    /// TLS 1.0.
    Tls1_0,
    /// TLS 1.1.
    Tls1_1,
    /// TLS 1.2.
    Tls1_2,
    /// TLS 1.3.
    Tls1_3,
}

/// A key-exchange group.
#[derive(Clone, Copy, Debug, PartialEq, Eq, Structural)]
pub enum SslCurve {
    /// X25519.
    X25519,
    /// NIST P-256.
    Secp256r1,
    /// NIST P-384.
    Secp384r1,
    /// NIST P-521.
    Secp521r1,
    /// The X25519 and Kyber-768 hybrid, draft 00.
    X25519Kyber768Draft00,
}

/// An application protocol offered through ALPN.
#[derive(Clone, Copy, Debug, PartialEq, Eq, Structural)]
pub enum AlpnProtocol {
    /// HTTP/1.1, `http/1.1` on the wire.
    Http1,
    /// HTTP/2, `h2` on the wire.
    Http2,
}

/// A certificate-compression algorithm.
#[derive(Clone, Copy, Debug, PartialEq, Eq, Structural)]
pub enum CertCompression {
    /// zlib.
    Zlib,
    /// Brotli.
    Brotli,
    /// Zstandard.
    Zstd,
}

/// Extension number of `server_name`.
pub const EXT_SERVER_NAME: u16 = 0;

/// Extension number of `status_request`.
pub const EXT_STATUS_REQUEST: u16 = 5;

/// Extension number of `supported_groups`.
pub const EXT_SUPPORTED_GROUPS: u16 = 10;

/// Extension number of `ec_point_formats`.
pub const EXT_EC_POINT_FORMATS: u16 = 11;

/// Extension number of `signature_algorithms`.
pub const EXT_SIGNATURE_ALGORITHMS: u16 = 13;

/// Extension number of `application_layer_protocol_negotiation`.
pub const EXT_ALPN: u16 = 16;

/// Extension number of `signed_certificate_timestamp`.
pub const EXT_SIGNED_CERT_TIMESTAMP: u16 = 18;

/// Extension number of `padding`.
pub const EXT_PADDING: u16 = 21;

/// Extension number of `extended_master_secret`.
pub const EXT_EXTENDED_MASTER_SECRET: u16 = 23;

/// Extension number of `compress_certificate`.
pub const EXT_COMPRESS_CERTIFICATE: u16 = 27;

/// Extension number of `record_size_limit`.
pub const EXT_RECORD_SIZE_LIMIT: u16 = 28;

/// Extension number of `session_ticket`.
pub const EXT_SESSION_TICKET: u16 = 35;

/// Extension number of `pre_shared_key`.
pub const EXT_PRE_SHARED_KEY: u16 = 41;

/// Extension number of `supported_versions`.
pub const EXT_SUPPORTED_VERSIONS: u16 = 43;

/// Extension number of `psk_key_exchange_modes`.
pub const EXT_PSK_KEY_EXCHANGE_MODES: u16 = 45;

/// Extension number of `key_share`.
pub const EXT_KEY_SHARE: u16 = 51;

/// Extension number of `application_settings`.
pub const EXT_APPLICATION_SETTINGS: u16 = 17513;

/// Extension number of `encrypted_client_hello`.
pub const EXT_ENCRYPTED_CLIENT_HELLO: u16 = 65037;

/// Extension number of `renegotiation_info`.
pub const EXT_RENEGOTIATION_INFO: u16 = 65281;

impl TlsVersion {
    /// Position of the version among the four, oldest first.
    pub open spec fn rank(self) -> int {
        match self {
            TlsVersion::Tls1_0 => 0,
            TlsVersion::Tls1_1 => 1,
            TlsVersion::Tls1_2 => 2,
            TlsVersion::Tls1_3 => 3,
        }
    }

    /// The version number as it goes over the wire.
    pub fn wire(self) -> (r: u16)
        ensures
            r == 0x0301 + self.rank(),
    {
        match self {
            TlsVersion::Tls1_0 => 0x0301,
            TlsVersion::Tls1_1 => 0x0302,
            TlsVersion::Tls1_2 => 0x0303,
            TlsVersion::Tls1_3 => 0x0304,
        }
    }

    /// Whether this version is no newer than `other`.
    pub fn at_most(self, other: TlsVersion) -> (r: bool)
        ensures
            r == (self.rank() <= other.rank()),
    {
        self.wire() <= other.wire()
    }
}

impl SslCurve {
    /// The group's number in the `supported_groups` extension.
    pub fn id(self) -> (r: u16)
        ensures
            r == match self {
                SslCurve::X25519 => 29u16,
                SslCurve::Secp256r1 => 23u16,
                SslCurve::Secp384r1 => 24u16,
                SslCurve::Secp521r1 => 25u16,
                SslCurve::X25519Kyber768Draft00 => 0x6399u16,
            },
    {
        match self {
            SslCurve::X25519 => 29,
            SslCurve::Secp256r1 => 23,
            SslCurve::Secp384r1 => 24,
            SslCurve::Secp521r1 => 25,
            SslCurve::X25519Kyber768Draft00 => 0x6399,
        }
    }
}

impl SslCurve {
    /// The name by which a TLS engine's list of groups calls the group.
    pub fn name(self) -> (r: &'static str)
        ensures
            r@ == match self {
                SslCurve::X25519 => "X25519"@,
                SslCurve::Secp256r1 => "P-256"@,
                SslCurve::Secp384r1 => "P-384"@,
                SslCurve::Secp521r1 => "P-521"@,
                SslCurve::X25519Kyber768Draft00 => "X25519Kyber768Draft00"@,
            },
    {
        match self {
            SslCurve::X25519 => "X25519",
            SslCurve::Secp256r1 => "P-256",
            SslCurve::Secp384r1 => "P-384",
            SslCurve::Secp521r1 => "P-521",
            SslCurve::X25519Kyber768Draft00 => "X25519Kyber768Draft00",
        }
    }
}

impl CertCompression {
    /// The algorithm's number in the `compress_certificate` extension.
    pub fn id(self) -> (r: u16)
        ensures
            r == match self {
                CertCompression::Zlib => 1u16,
                CertCompression::Brotli => 2u16,
                CertCompression::Zstd => 3u16,
            },
    {
        match self {
            CertCompression::Zlib => 1,
            CertCompression::Brotli => 2,
            CertCompression::Zstd => 3,
        }
    }
}

/// The bytes that name a protocol in ALPN.
pub open spec fn protocol_id(p: AlpnProtocol) -> Seq<u8> {
    match p {
        AlpnProtocol::Http1 => seq![0x68u8, 0x74, 0x74, 0x70, 0x2f, 0x31, 0x2e, 0x31],
        AlpnProtocol::Http2 => seq![0x68u8, 0x32],
    }
}

/// The ALPN protocol list on the wire: each name preceded by its length
/// in one byte, in the order offered.
pub open spec fn alpn_wire(protocols: Seq<AlpnProtocol>) -> Seq<u8>
    decreases protocols.len(),
{
    if protocols.len() == 0 {
        Seq::empty()
    } else {
        alpn_wire(protocols.drop_last()) + seq![protocol_id(protocols.last()).len() as u8]
            + protocol_id(protocols.last())
    }
}

/// Encodes the ALPN protocol list for the wire.
pub fn encode_alpn(protocols: &Vec<AlpnProtocol>) -> (r: Vec<u8>)
    ensures
        r@ == alpn_wire(protocols@),
{
    let mut out: Vec<u8> = Vec::new();
    let mut i: usize = 0;
    while i < protocols.len()
        invariant
            i <= protocols.len(),
            out@ == alpn_wire(protocols@.take(i as int)),
        decreases protocols.len() - i,
    {
        let ghost before = out@;
        proof {
            let next = protocols@.take(i + 1);
            assert(next.drop_last() == protocols@.take(i as int));
            assert(next.last() == protocols@[i as int]);
        }
        match protocols[i] {
            AlpnProtocol::Http1 => {
                out.push(8);
                out.push(0x68);
                out.push(0x74);
                out.push(0x74);
                out.push(0x70);
                out.push(0x2f);
                out.push(0x31);
                out.push(0x2e);
                out.push(0x31);
                assert(out@ == before + seq![8u8] + protocol_id(AlpnProtocol::Http1));
            },
            AlpnProtocol::Http2 => {
                out.push(2);
                out.push(0x68);
                out.push(0x32);
                assert(out@ == before + seq![2u8] + protocol_id(AlpnProtocol::Http2));
            },
        }
        i = i + 1;
    }
    assert(protocols@.take(protocols.len() as int) == protocols@);
    out
}

/// The TLS parameters of one browser build.
#[derive(Clone, Debug, PartialEq, Eq)]
pub struct TlsSettings {
    /// Cipher suites by IANA name, in the order offered.
    pub cipher_suites: Vec<&'static str>,
    /// Supported groups, in the order offered.
    pub curves: Vec<SslCurve>,
    /// Signature schemes by name, in the order offered.
    pub sigalgs: Vec<&'static str>,
    /// ALPN protocols, in the order offered.
    pub alpn: Vec<AlpnProtocol>,
    /// Oldest protocol version accepted.
    pub min_version: TlsVersion,
    /// Newest protocol version offered.
    pub max_version: TlsVersion,
    /// Extension numbers in the order of the ClientHello.
    pub extensions_order: Vec<u16>,
    /// Whether extensions are shuffled for each connection.
    pub permute_extensions: bool,
    /// Whether the GREASE form of encrypted ClientHello is sent.
    pub ech_grease: bool,
    /// Whether GREASE values are put among ciphers, groups and extensions.
    pub grease: bool,
    /// Whether `status_request` is sent.
    pub ocsp_stapling: bool,
    /// Whether session tickets are offered.
    pub session_tickets: bool,
    /// Whether `pre_shared_key` may be sent to resume a session.
    pub pre_shared_key: bool,
    /// Certificate-compression algorithms advertised.
    pub cert_compression: Vec<CertCompression>,
    /// The record size limit advertised, if any.
    pub record_size_limit: Option<u16>,
    /// Whether the ClientHello is padded.
    pub padding: bool,
}

/// A `TlsSettings` as mathematical values.
pub struct TlsProfile {
    pub cipher_suites: Seq<Seq<char>>,
    pub curves: Seq<SslCurve>,
    pub sigalgs: Seq<Seq<char>>,
    pub alpn: Seq<AlpnProtocol>,
    pub min_version: TlsVersion,
    pub max_version: TlsVersion,
    pub extensions_order: Seq<u16>,
    pub permute_extensions: bool,
    pub ech_grease: bool,
    pub grease: bool,
    pub ocsp_stapling: bool,
    pub session_tickets: bool,
    pub pre_shared_key: bool,
    pub cert_compression: Seq<CertCompression>,
    pub record_size_limit: Option<u16>,
    pub padding: bool,
}

impl View for TlsSettings {
    type V = TlsProfile;

    open spec fn view(&self) -> TlsProfile {
        TlsProfile {
            cipher_suites: texts(self.cipher_suites@),
            curves: self.curves@,
            sigalgs: texts(self.sigalgs@),
            alpn: self.alpn@,
            min_version: self.min_version,
            max_version: self.max_version,
            extensions_order: self.extensions_order@,
            permute_extensions: self.permute_extensions,
            ech_grease: self.ech_grease,
            grease: self.grease,
            ocsp_stapling: self.ocsp_stapling,
            session_tickets: self.session_tickets,
            pre_shared_key: self.pre_shared_key,
            cert_compression: self.cert_compression@,
            record_size_limit: self.record_size_limit,
            padding: self.padding,
        }
    }
}

/// Whether `pre_shared_key` stands nowhere but at the end.
pub open spec fn psk_last(order: Seq<u16>) -> bool {
    forall|i: int|
        0 <= i < order.len() && #[trigger] order[i] == EXT_PRE_SHARED_KEY ==> i == order.len() - 1
}

/// Whether the extension list names the extensions that the flags switch
/// on, and no others of them, and the three that carry the groups, the
/// signature schemes and the ALPN protocols.
pub open spec fn flags_match(t: TlsProfile) -> bool {
    &&& t.ech_grease == t.extensions_order.contains(EXT_ENCRYPTED_CLIENT_HELLO)
    &&& t.ocsp_stapling == t.extensions_order.contains(EXT_STATUS_REQUEST)
    &&& t.session_tickets == t.extensions_order.contains(EXT_SESSION_TICKET)
    &&& t.pre_shared_key == t.extensions_order.contains(EXT_PRE_SHARED_KEY)
    &&& (t.cert_compression.len() > 0) == t.extensions_order.contains(EXT_COMPRESS_CERTIFICATE)
    &&& (t.record_size_limit is Some) == t.extensions_order.contains(EXT_RECORD_SIZE_LIMIT)
    &&& t.padding == t.extensions_order.contains(EXT_PADDING)
    &&& t.extensions_order.contains(EXT_SUPPORTED_GROUPS)
    &&& t.extensions_order.contains(EXT_SIGNATURE_ALGORITHMS)
    &&& t.extensions_order.contains(EXT_ALPN)
}

/// What makes TLS parameters usable: nothing to offer is missing, the
/// version bounds are in order, and the extension list names each
/// extension once, agrees with the flags and ends with `pre_shared_key`
/// where it has it.
pub open spec fn tls_ok(t: TlsProfile) -> bool {
    &&& t.cipher_suites.len() > 0
    &&& t.curves.len() > 0
    &&& t.sigalgs.len() > 0
    &&& t.alpn.len() > 0
    &&& t.extensions_order.len() > 0
    &&& t.min_version.rank() <= t.max_version.rank()
    &&& t.extensions_order.no_duplicates()
    &&& psk_last(t.extensions_order)
    &&& flags_match(t)
}

/// Whether a list holds a number.
fn holds(order: &Vec<u16>, id: u16) -> (r: bool)
    ensures
        r == order@.contains(id),
{
    let mut i: usize = 0;
    while i < order.len()
        invariant
            i <= order.len(),
            forall|k: int| 0 <= k < i ==> order@[k] != id,
        decreases order.len() - i,
    {
        if order[i] == id {
            return true;
        }
        i = i + 1;
    }
    false
}

/// Whether no number occurs twice in a list.
fn all_distinct(order: &Vec<u16>) -> (r: bool)
    ensures
        r == order@.no_duplicates(),
{
    let mut i: usize = 0;
    while i < order.len()
        invariant
            i <= order.len(),
            forall|a: int, b: int| 0 <= a < i && a < b < order.len() ==> order@[a] != order@[b],
        decreases order.len() - i,
    {
        let mut j: usize = i + 1;
        while j < order.len()
            invariant
                i < j <= order.len(),
                forall|b: int| i < b < j ==> order@[i as int] != order@[b],
            decreases order.len() - j,
        {
            if order[i] == order[j] {
                return false;
            }
            j = j + 1;
        }
        i = i + 1;
    }
    true
}

/// Whether `pre_shared_key` stands nowhere but at the end of a list.
fn ends_with_psk(order: &Vec<u16>) -> (r: bool)
    ensures
        r == psk_last(order@),
{
    if order.len() == 0 {
        return true;
    }
    let last: usize = order.len() - 1;
    let mut i: usize = 0;
    while i < last
        invariant
            i <= last,
            last == order.len() - 1,
            forall|k: int| 0 <= k < i ==> order@[k] != EXT_PRE_SHARED_KEY,
        decreases last - i,
    {
        if order[i] == EXT_PRE_SHARED_KEY {
            return false;
        }
        i = i + 1;
    }
    true
}

impl TlsSettings {
    /// Checks the parameters. They are refused with `TlsConfigError`
    /// exactly when they are not usable.
    pub fn check(&self) -> (r: Result<(), Error>)
        ensures
            r == if tls_ok(self@) {
                Ok::<(), Error>(())
            } else {
                Err::<(), Error>(Error::TlsConfigError)
            },
    {
        assert(self@.cipher_suites.len() == self.cipher_suites@.len());
        assert(self@.sigalgs.len() == self.sigalgs@.len());
        let filled = self.cipher_suites.len() > 0 && self.curves.len() > 0 && self.sigalgs.len() > 0
            && self.alpn.len() > 0 && self.extensions_order.len() > 0;
        let flags = self.ech_grease == holds(&self.extensions_order, EXT_ENCRYPTED_CLIENT_HELLO)
            && self.ocsp_stapling == holds(&self.extensions_order, EXT_STATUS_REQUEST)
            && self.session_tickets == holds(&self.extensions_order, EXT_SESSION_TICKET)
            && self.pre_shared_key == holds(&self.extensions_order, EXT_PRE_SHARED_KEY)
            && (self.cert_compression.len() > 0) == holds(
            &self.extensions_order,
            EXT_COMPRESS_CERTIFICATE,
        ) && self.record_size_limit.is_some() == holds(
            &self.extensions_order,
            EXT_RECORD_SIZE_LIMIT,
        ) && self.padding == holds(&self.extensions_order, EXT_PADDING) && holds(
            &self.extensions_order,
            EXT_SUPPORTED_GROUPS,
        ) && holds(&self.extensions_order, EXT_SIGNATURE_ALGORITHMS) && holds(
            &self.extensions_order,
            EXT_ALPN,
        );
        if filled && flags && self.min_version.at_most(self.max_version) && all_distinct(
            &self.extensions_order,
        ) && ends_with_psk(&self.extensions_order) {
            Ok(())
        } else {
            Err(Error::TlsConfigError)
        }
    }
}

/// Whether `i` is the first place at which a list holds a number.
pub open spec fn first_at(order: Seq<u16>, id: u16, i: int) -> bool {
    &&& 0 <= i < order.len()
    &&& order[i] == id
    &&& forall|k: int| 0 <= k < i ==> order[k] != id
}

/// The list without the first occurrence of a number.
pub open spec fn without_first(order: Seq<u16>, id: u16) -> Seq<u16> {
    if order.contains(id) {
        order.remove(choose|i: int| first_at(order, id, i))
    } else {
        order
    }
}

/// Where encrypted ClientHello goes into a list that lacks it: behind
/// `server_name` where that comes first, else in front.
pub open spec fn ech_slot(order: Seq<u16>) -> int {
    if order.len() > 0 && order[0] == EXT_SERVER_NAME {
        1
    } else {
        0
    }
}

/// The parameters with GREASE encrypted ClientHello switched on or off,
/// and the extension list changed to match.
pub open spec fn with_ech_grease(t: TlsProfile, on: bool) -> TlsProfile {
    let order = t.extensions_order;
    TlsProfile {
        ech_grease: on,
        extensions_order: if !on {
            without_first(order, EXT_ENCRYPTED_CLIENT_HELLO)
        } else if order.contains(EXT_ENCRYPTED_CLIENT_HELLO) {
            order
        } else {
            order.insert(ech_slot(order), EXT_ENCRYPTED_CLIENT_HELLO)
        },
        ..t
    }
}

/// The parameters with the shuffling of extensions switched on or off.
pub open spec fn with_permutation(t: TlsProfile, on: bool) -> TlsProfile {
    TlsProfile { permute_extensions: on, ..t }
}

/// The first place at which a list holds a number.
fn position(order: &Vec<u16>, id: u16) -> (r: Option<usize>)
    ensures
        match r {
            Some(i) => first_at(order@, id, i as int),
            None => !order@.contains(id),
        },
{
    let mut i: usize = 0;
    while i < order.len()
        invariant
            i <= order.len(),
            forall|k: int| 0 <= k < i ==> order@[k] != id,
        decreases order.len() - i,
    {
        if order[i] == id {
            return Some(i);
        }
        i = i + 1;
    }
    None
}

proof fn lemma_insert_holds(s: Seq<u16>, p: int, x: u16, y: u16)
    requires
        0 <= p <= s.len(),
    ensures
        s.insert(p, x).contains(y) == (y == x || s.contains(y)),
{
    let n = s.insert(p, x);
    if n.contains(y) {
        let i = choose|i: int| 0 <= i < n.len() && n[i] == y;
        if i < p {
            assert(s[i] == y);
        } else if i > p {
            assert(s[i - 1] == y);
        }
    }
    if y == x {
        assert(n[p] == y);
    }
    if s.contains(y) {
        let i = choose|i: int| 0 <= i < s.len() && s[i] == y;
        if i < p {
            assert(n[i] == y);
        } else {
            assert(n[i + 1] == y);
        }
    }
}

proof fn lemma_remove_holds(s: Seq<u16>, j: int, y: u16)
    requires
        0 <= j < s.len(),
        s.no_duplicates(),
    ensures
        s.remove(j).contains(y) == (y != s[j] && s.contains(y)),
        s.remove(j).no_duplicates(),
{
    let n = s.remove(j);
    if n.contains(y) {
        let i = choose|i: int| 0 <= i < n.len() && n[i] == y;
        if i < j {
            assert(s[i] == y);
        } else {
            assert(s[i + 1] == y);
        }
    }
    if y != s[j] && s.contains(y) {
        let i = choose|i: int| 0 <= i < s.len() && s[i] == y;
        if i < j {
            assert(n[i] == y);
        } else {
            assert(n[i - 1] == y);
        }
    }
    assert forall|a: int, b: int| 0 <= a < n.len() && 0 <= b < n.len() && a != b implies n[a]
        != n[b] by {
        let a2 = if a < j {
            a
        } else {
            a + 1
        };
        let b2 = if b < j {
            b
        } else {
            b + 1
        };
        assert(s[a2] != s[b2]);
    }
}

/// Switching GREASE encrypted ClientHello on or off keeps usable
/// parameters usable: the extension appears exactly when the flag is set,
/// and every other extension keeps its place in the order.
pub proof fn lemma_ech_keeps_ok(t: TlsProfile, on: bool)
    requires
        tls_ok(t),
    ensures
        tls_ok(with_ech_grease(t, on)),
        with_ech_grease(t, on).extensions_order.contains(EXT_ENCRYPTED_CLIENT_HELLO) == on,
{
    let order = t.extensions_order;
    let n = with_ech_grease(t, on).extensions_order;
    let ech = EXT_ENCRYPTED_CLIENT_HELLO;
    if on && !order.contains(ech) {
        let p = ech_slot(order);
        lemma_insert_holds(order, p, ech, ech);
        lemma_insert_holds(order, p, ech, EXT_STATUS_REQUEST);
        lemma_insert_holds(order, p, ech, EXT_SESSION_TICKET);
        lemma_insert_holds(order, p, ech, EXT_PRE_SHARED_KEY);
        lemma_insert_holds(order, p, ech, EXT_COMPRESS_CERTIFICATE);
        lemma_insert_holds(order, p, ech, EXT_RECORD_SIZE_LIMIT);
        lemma_insert_holds(order, p, ech, EXT_PADDING);
        lemma_insert_holds(order, p, ech, EXT_SUPPORTED_GROUPS);
        lemma_insert_holds(order, p, ech, EXT_SIGNATURE_ALGORITHMS);
        lemma_insert_holds(order, p, ech, EXT_ALPN);
        assert forall|a: int, b: int| 0 <= a < n.len() && 0 <= b < n.len() && a != b implies n[a]
            != n[b] by {
            if a != p && b != p {
                let a2 = if a < p {
                    a
                } else {
                    a - 1
                };
                let b2 = if b < p {
                    b
                } else {
                    b - 1
                };
                assert(order[a2] != order[b2]);
            } else if a == p {
                let b2 = if b < p {
                    b
                } else {
                    b - 1
                };
                assert(order[b2] == n[b]);
            } else {
                let a2 = if a < p {
                    a
                } else {
                    a - 1
                };
                assert(order[a2] == n[a]);
            }
        }
        assert forall|i: int| 0 <= i < n.len() && #[trigger] n[i] == EXT_PRE_SHARED_KEY implies i
            == n.len() - 1 by {
            if i < p {
                assert(order[i] == EXT_PRE_SHARED_KEY);
            } else if i > p {
                assert(order[i - 1] == EXT_PRE_SHARED_KEY);
            }
        }
    } else if !on && order.contains(ech) {
        let j = choose|i: int| first_at(order, ech, i);
        let w = choose|i: int| 0 <= i < order.len() && order[i] == ech;
        lemma_first_exists(order, ech, w);
        lemma_remove_holds(order, j, ech);
        lemma_remove_holds(order, j, EXT_STATUS_REQUEST);
        lemma_remove_holds(order, j, EXT_SESSION_TICKET);
        lemma_remove_holds(order, j, EXT_PRE_SHARED_KEY);
        lemma_remove_holds(order, j, EXT_COMPRESS_CERTIFICATE);
        lemma_remove_holds(order, j, EXT_RECORD_SIZE_LIMIT);
        lemma_remove_holds(order, j, EXT_PADDING);
        lemma_remove_holds(order, j, EXT_SUPPORTED_GROUPS);
        lemma_remove_holds(order, j, EXT_SIGNATURE_ALGORITHMS);
        lemma_remove_holds(order, j, EXT_ALPN);
        assert(n.contains(EXT_ALPN));
        assert forall|i: int| 0 <= i < n.len() && #[trigger] n[i] == EXT_PRE_SHARED_KEY implies i
            == n.len() - 1 by {
            if i < j {
                assert(order[i] == EXT_PRE_SHARED_KEY);
            } else {
                assert(order[i + 1] == EXT_PRE_SHARED_KEY);
            }
        }
    }
}

/// A list that holds a number holds it at some first place.
proof fn lemma_first_exists(order: Seq<u16>, id: u16, w: int)
    requires
        0 <= w < order.len(),
        order[w] == id,
    ensures
        exists|i: int| first_at(order, id, i),
    decreases w,
{
    if exists|k: int| 0 <= k < w && order[k] == id {
        let k = choose|k: int| 0 <= k < w && order[k] == id;
        lemma_first_exists(order, id, k);
    } else {
        assert(first_at(order, id, w));
    }
}

/// The first place of a number in a list is one place.
proof fn lemma_first_unique(order: Seq<u16>, id: u16, i: int, j: int)
    requires
        first_at(order, id, i),
        first_at(order, id, j),
    ensures
        i == j,
{
}

impl TlsSettings {
    /// Switches GREASE encrypted ClientHello on or off. The extension
    /// enters the list behind `server_name`, or leaves it.
    pub fn set_ech_grease(&mut self, on: bool)
        ensures
            final(self)@ == with_ech_grease(old(self)@, on),
    {
        let found = position(&self.extensions_order, EXT_ENCRYPTED_CLIENT_HELLO);
        let ghost order = self.extensions_order@;
        self.ech_grease = on;
        match found {
            Some(i) => {
                proof {
                    assert(order.contains(EXT_ENCRYPTED_CLIENT_HELLO));
                    let j = choose|j: int| first_at(order, EXT_ENCRYPTED_CLIENT_HELLO, j);
                    lemma_first_unique(order, EXT_ENCRYPTED_CLIENT_HELLO, i as int, j);
                }
                if !on {
                    self.extensions_order.remove(i);
                }
            },
            None => {
                if on {
                    let slot: usize = if self.extensions_order.len() > 0
                        && self.extensions_order[0] == EXT_SERVER_NAME {
                        1
                    } else {
                        0
                    };
                    self.extensions_order.insert(slot, EXT_ENCRYPTED_CLIENT_HELLO);
                }
            },
        }
        assert(final(self)@.extensions_order == with_ech_grease(old(self)@, on).extensions_order);
    }

    /// Switches the shuffling of extensions on or off.
    pub fn set_permute_extensions(&mut self, on: bool)
        ensures
            final(self)@ == with_permutation(old(self)@, on),
    {
        self.permute_extensions = on;
    }
}

/// What the caller lays over a profile when a connector is set up.
#[derive(Clone, Debug, PartialEq, Eq)]
pub struct TlsOverrides {
    /// Accept any server certificate.
    pub accept_invalid_certs: bool,
    /// Trust a root set that the caller supplies, not the system's.
    pub custom_roots: bool,
    /// Protocols offered through ALPN after those of the profile.
    pub extra_alpn: Vec<AlpnProtocol>,
}

/// One step in setting up a TLS connector.
#[derive(Clone, Debug, PartialEq, Eq)]
pub enum TlsStep {
    /// Load the system's trust roots.
    DefaultRoots,
    /// Load the trust roots that the caller supplies.
    SuppliedRoots,
    /// Set the oldest protocol version accepted.
    MinVersion(TlsVersion),
    /// Set the newest protocol version offered.
    MaxVersion(TlsVersion),
    /// Set the cipher list, names joined by colons.
    CipherList(String),
    /// Set the supported groups.
    Curves(Vec<SslCurve>),
    /// Set the signature schemes, names joined by colons.
    SigAlgs(String),
    /// Set the ALPN protocols, as encoded for the wire.
    AlpnProtocols(Vec<u8>),
    /// Switch the shuffling of extensions on or off.
    PermuteExtensions(bool),
    /// Switch GREASE values on or off.
    Grease(bool),
    /// Switch GREASE encrypted ClientHello on or off.
    EchGrease(bool),
    /// Switch OCSP stapling on or off.
    OcspStapling(bool),
    /// Advertise one certificate-compression algorithm.
    CertCompression(CertCompression),
    /// Offer session tickets or not.
    SessionTickets(bool),
    /// Verify the server's certificate or not.
    VerifyPeer(bool),
}

/// A `TlsStep` as mathematical values.
pub enum TlsStepView {
    DefaultRoots,
    SuppliedRoots,
    MinVersion(TlsVersion),
    MaxVersion(TlsVersion),
    CipherList(Seq<char>),
    Curves(Seq<SslCurve>),
    SigAlgs(Seq<char>),
    AlpnProtocols(Seq<u8>),
    PermuteExtensions(bool),
    Grease(bool),
    EchGrease(bool),
    OcspStapling(bool),
    CertCompression(CertCompression),
    SessionTickets(bool),
    VerifyPeer(bool),
}

impl View for TlsStep {
    type V = TlsStepView;

    open spec fn view(&self) -> TlsStepView {
        match *self {
            TlsStep::DefaultRoots => TlsStepView::DefaultRoots,
            TlsStep::SuppliedRoots => TlsStepView::SuppliedRoots,
            TlsStep::MinVersion(v) => TlsStepView::MinVersion(v),
            TlsStep::MaxVersion(v) => TlsStepView::MaxVersion(v),
            TlsStep::CipherList(s) => TlsStepView::CipherList(s@),
            TlsStep::Curves(c) => TlsStepView::Curves(c@),
            TlsStep::SigAlgs(s) => TlsStepView::SigAlgs(s@),
            TlsStep::AlpnProtocols(b) => TlsStepView::AlpnProtocols(b@),
            TlsStep::PermuteExtensions(b) => TlsStepView::PermuteExtensions(b),
            TlsStep::Grease(b) => TlsStepView::Grease(b),
            TlsStep::EchGrease(b) => TlsStepView::EchGrease(b),
            TlsStep::OcspStapling(b) => TlsStepView::OcspStapling(b),
            TlsStep::CertCompression(a) => TlsStepView::CertCompression(a),
            TlsStep::SessionTickets(b) => TlsStepView::SessionTickets(b),
            TlsStep::VerifyPeer(b) => TlsStepView::VerifyPeer(b),
        }
    }
}

/// The steps that a list of steps stands for.
pub open spec fn step_views(steps: Seq<TlsStep>) -> Seq<TlsStepView> {
    steps.map_values(|s: TlsStep| s@)
}

/// The steps up to OCSP stapling: trust roots, version bounds, cipher
/// list, groups, signature schemes, ALPN, and the four switches.
pub open spec fn leading_steps(
    t: TlsProfile,
    custom_roots: bool,
    extra_alpn: Seq<AlpnProtocol>,
) -> Seq<TlsStepView> {
    seq![
        if custom_roots {
            TlsStepView::SuppliedRoots
        } else {
            TlsStepView::DefaultRoots
        },
        TlsStepView::MinVersion(t.min_version),
        TlsStepView::MaxVersion(t.max_version),
        TlsStepView::CipherList(join_colon(t.cipher_suites)),
        TlsStepView::Curves(t.curves),
        TlsStepView::SigAlgs(join_colon(t.sigalgs)),
        TlsStepView::AlpnProtocols(alpn_wire(t.alpn + extra_alpn)),
        TlsStepView::PermuteExtensions(t.permute_extensions),
        TlsStepView::Grease(t.grease),
        TlsStepView::EchGrease(t.ech_grease),
        TlsStepView::OcspStapling(t.ocsp_stapling),
    ]
}

/// One step for each certificate-compression algorithm, in order.
pub open spec fn compression_steps(algs: Seq<CertCompression>) -> Seq<TlsStepView> {
    algs.map_values(|a: CertCompression| TlsStepView::CertCompression(a))
}

/// All the steps that set a connector up, in the order in which they are
/// taken: the leading steps, the compression algorithms, the ticket
/// policy, and last whether the peer is verified.
pub open spec fn steps_of(
    t: TlsProfile,
    accept_invalid_certs: bool,
    custom_roots: bool,
    extra_alpn: Seq<AlpnProtocol>,
) -> Seq<TlsStepView> {
    leading_steps(t, custom_roots, extra_alpn) + compression_steps(t.cert_compression) + seq![
        TlsStepView::SessionTickets(t.session_tickets),
        TlsStepView::VerifyPeer(!accept_invalid_certs),
    ]
}

/// A copy of a list with another list behind it.
fn joined<T: Copy>(first: &Vec<T>, second: &Vec<T>) -> (r: Vec<T>)
    ensures
        r@ == first@ + second@,
{
    let mut out: Vec<T> = Vec::new();
    let mut i: usize = 0;
    while i < first.len()
        invariant
            i <= first.len(),
            out@ == first@.take(i as int),
        decreases first.len() - i,
    {
        out.push(first[i]);
        i = i + 1;
    }
    let mut k: usize = 0;
    while k < second.len()
        invariant
            k <= second.len(),
            out@ == first@ + second@.take(k as int),
        decreases second.len() - k,
    {
        out.push(second[k]);
        k = k + 1;
    }
    out
}

/// The steps that set a connector up for a profile, with the caller's
/// overrides laid over it.
pub fn connector_steps(tls: &TlsSettings, overrides: &TlsOverrides) -> (r: Vec<TlsStep>)
    ensures
        step_views(r@) == steps_of(
            tls@,
            overrides.accept_invalid_certs,
            overrides.custom_roots,
            overrides.extra_alpn@,
        ),
{
    let ghost t = tls@;
    let mut out: Vec<TlsStep> = Vec::new();
    if overrides.custom_roots {
        out.push(TlsStep::SuppliedRoots);
    } else {
        out.push(TlsStep::DefaultRoots);
    }
    out.push(TlsStep::MinVersion(tls.min_version));
    out.push(TlsStep::MaxVersion(tls.max_version));
    out.push(TlsStep::CipherList(join_names(&tls.cipher_suites)));
    let none: Vec<SslCurve> = Vec::new();
    let curves = joined(&tls.curves, &none);
    assert(curves@ == tls.curves@);
    out.push(TlsStep::Curves(curves));
    out.push(TlsStep::SigAlgs(join_names(&tls.sigalgs)));
    let offered = joined(&tls.alpn, &overrides.extra_alpn);
    out.push(TlsStep::AlpnProtocols(encode_alpn(&offered)));
    out.push(TlsStep::PermuteExtensions(tls.permute_extensions));
    out.push(TlsStep::Grease(tls.grease));
    out.push(TlsStep::EchGrease(tls.ech_grease));
    out.push(TlsStep::OcspStapling(tls.ocsp_stapling));
    let ghost lead = leading_steps(t, overrides.custom_roots, overrides.extra_alpn@);
    assert(step_views(out@) == lead);
    let mut i: usize = 0;
    while i < tls.cert_compression.len()
        invariant
            i <= tls.cert_compression.len(),
            t == tls@,
            step_views(out@) == lead + compression_steps(t.cert_compression.take(i as int)),
        decreases tls.cert_compression.len() - i,
    {
        let ghost before = step_views(out@);
        let ghost step = TlsStepView::CertCompression(t.cert_compression[i as int]);
        out.push(TlsStep::CertCompression(tls.cert_compression[i]));
        assert(step_views(out@) == before.push(step));
        assert(compression_steps(t.cert_compression.take(i + 1)) == compression_steps(
            t.cert_compression.take(i as int),
        ).push(step));
        i = i + 1;
    }
    assert(t.cert_compression.take(tls.cert_compression.len() as int) == t.cert_compression);
    out.push(TlsStep::SessionTickets(tls.session_tickets));
    out.push(TlsStep::VerifyPeer(!overrides.accept_invalid_certs));
    out
}

/// What the engine's answer to a step means for the build: a step that
/// the engine refused fails it with `TlsConfigError`.
pub fn step_result(accepted: bool) -> (r: Result<(), Error>)
    ensures
        r == if accepted {
            Ok::<(), Error>(())
        } else {
            Err::<(), Error>(Error::TlsConfigError)
        },
{
    if accepted {
        Ok(())
    } else {
        Err(Error::TlsConfigError)
    }
}

} // verus!
