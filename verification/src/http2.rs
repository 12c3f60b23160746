//! The HTTP/2 side of a profile: which SETTINGS a connection announces,
//! how far it opens its window, and in which order a request names its
//! pseudo-headers.

use vstd::prelude::*;
use crate::identity::{ClientProfile, Error};

verus! {

/// The HTTP/2 parameters of one browser build. A parameter that is absent
/// is not announced at all: leaving it out is part of the fingerprint.
#[derive(Clone, Copy, Debug, PartialEq, Eq, Structural)]
pub struct Http2Data {
    /// SETTINGS_INITIAL_WINDOW_SIZE.
    pub initial_stream_window_size: Option<u32>,
    /// The size to which the connection window is opened.
    pub initial_connection_window_size: Option<u32>,
    /// SETTINGS_MAX_CONCURRENT_STREAMS.
    pub max_concurrent_streams: Option<u32>,
    /// SETTINGS_MAX_HEADER_LIST_SIZE.
    pub max_header_list_size: Option<u32>,
    /// SETTINGS_HEADER_TABLE_SIZE.
    pub header_table_size: Option<u32>,
    /// SETTINGS_ENABLE_PUSH.
    pub enable_push: Option<bool>,
}

/// A parameter of the SETTINGS frame.
#[derive(Clone, Copy, Debug, PartialEq, Eq, Structural)]
pub enum SettingId {
    /// SETTINGS_HEADER_TABLE_SIZE, number 1.
    HeaderTableSize,
    /// SETTINGS_ENABLE_PUSH, number 2.
    EnablePush,
    /// SETTINGS_MAX_CONCURRENT_STREAMS, number 3.
    MaxConcurrentStreams,
    /// SETTINGS_INITIAL_WINDOW_SIZE, number 4.
    InitialWindowSize,
    /// SETTINGS_MAX_HEADER_LIST_SIZE, number 6.
    MaxHeaderListSize,
}

/// A pseudo-header of an HTTP/2 request.
#[derive(Clone, Copy, Debug, PartialEq, Eq, Structural)]
pub enum PseudoHeader {
    /// `:method`.
    Method,
    /// `:authority`.
    Authority,
    /// `:scheme`.
    Scheme,
    /// `:path`.
    Path,
}

/// The largest flow-control window that HTTP/2 allows.
pub const MAX_WINDOW_SIZE: u32 = 0x7fff_ffff;

/// The connection window that every HTTP/2 connection starts with.
pub const DEFAULT_WINDOW_SIZE: u32 = 65535;

/// The HPACK table size that holds where none is announced.
pub const DEFAULT_HEADER_TABLE_SIZE: u32 = 4096;

impl SettingId {
    /// The parameter's number on the wire.
    pub fn id(self) -> (r: u16)
        ensures
            r == match self {
                SettingId::HeaderTableSize => 1u16,
                SettingId::EnablePush => 2u16,
                SettingId::MaxConcurrentStreams => 3u16,
                SettingId::InitialWindowSize => 4u16,
                SettingId::MaxHeaderListSize => 6u16,
            },
    {
        match self {
            SettingId::HeaderTableSize => 1,
            SettingId::EnablePush => 2,
            SettingId::MaxConcurrentStreams => 3,
            SettingId::InitialWindowSize => 4,
            SettingId::MaxHeaderListSize => 6,
        }
    }
}

/// The list with one more pair where the value is present.
pub open spec fn with_setting(
    list: Seq<(SettingId, u32)>,
    id: SettingId,
    value: Option<u32>,
) -> Seq<(SettingId, u32)> {
    match value {
        Some(v) => list.push((id, v)),
        None => list,
    }
}

/// A flag as the number that SETTINGS carries for it.
pub open spec fn flag_value(flag: Option<bool>) -> Option<u32> {
    match flag {
        Some(true) => Some(1u32),
        Some(false) => Some(0u32),
        None => None,
    }
}

/// The pairs of the SETTINGS frame: one for each parameter that is
/// present, in the order in which the parameters are declared.
pub open spec fn settings_of(h: Http2Data) -> Seq<(SettingId, u32)> {
    let s0 = Seq::<(SettingId, u32)>::empty();
    let s1 = with_setting(s0, SettingId::InitialWindowSize, h.initial_stream_window_size);
    let s2 = with_setting(s1, SettingId::MaxConcurrentStreams, h.max_concurrent_streams);
    let s3 = with_setting(s2, SettingId::MaxHeaderListSize, h.max_header_list_size);
    let s4 = with_setting(s3, SettingId::HeaderTableSize, h.header_table_size);
    with_setting(s4, SettingId::EnablePush, flag_value(h.enable_push))
}

/// Whether the windows fit the largest that HTTP/2 allows.
pub open spec fn http2_ok(h: Http2Data) -> bool {
    &&& h.initial_stream_window_size matches Some(w) ==> w <= MAX_WINDOW_SIZE
    &&& h.initial_connection_window_size matches Some(w) ==> w <= MAX_WINDOW_SIZE
}

/// By how much the first WINDOW_UPDATE opens the connection window: the
/// distance from the starting window to the one wanted, where one is
/// wanted and it is larger.
pub open spec fn window_increment_of(h: Http2Data) -> Option<u32> {
    match h.initial_connection_window_size {
        Some(w) => if w > DEFAULT_WINDOW_SIZE {
            Some((w - DEFAULT_WINDOW_SIZE) as u32)
        } else {
            None
        },
        None => None,
    }
}

/// The order of the pseudo-headers that a family's requests use.
pub open spec fn pseudo_order_of(profile: ClientProfile) -> Seq<PseudoHeader> {
    match profile {
        ClientProfile::Chrome | ClientProfile::Edge => seq![
            PseudoHeader::Method,
            PseudoHeader::Authority,
            PseudoHeader::Scheme,
            PseudoHeader::Path,
        ],
        ClientProfile::Safari => seq![
            PseudoHeader::Method,
            PseudoHeader::Scheme,
            PseudoHeader::Path,
            PseudoHeader::Authority,
        ],
        ClientProfile::Firefox | ClientProfile::OkHttp => seq![
            PseudoHeader::Method,
            PseudoHeader::Path,
            PseudoHeader::Authority,
            PseudoHeader::Scheme,
        ],
    }
}

impl Http2Data {
    /// Parameters that announce nothing.
    pub fn empty() -> (r: Http2Data)
        ensures
            r == (Http2Data {
                initial_stream_window_size: None,
                initial_connection_window_size: None,
                max_concurrent_streams: None,
                max_header_list_size: None,
                header_table_size: None,
                enable_push: None,
            }),
    {
        Http2Data {
            initial_stream_window_size: None,
            initial_connection_window_size: None,
            max_concurrent_streams: None,
            max_header_list_size: None,
            header_table_size: None,
            enable_push: None,
        }
    }

    /// Checks the parameters. They are refused with `Http2ConfigError`
    /// exactly when a window is larger than HTTP/2 allows.
    pub fn check(&self) -> (r: Result<(), Error>)
        ensures
            r == if http2_ok(*self) {
                Ok::<(), Error>(())
            } else {
                Err::<(), Error>(Error::Http2ConfigError)
            },
    {
        let stream_fits = match self.initial_stream_window_size {
            Some(w) => w <= MAX_WINDOW_SIZE,
            None => true,
        };
        let connection_fits = match self.initial_connection_window_size {
            Some(w) => w <= MAX_WINDOW_SIZE,
            None => true,
        };
        if stream_fits && connection_fits {
            Ok(())
        } else {
            Err(Error::Http2ConfigError)
        }
    }

    /// The pairs of the SETTINGS frame that opens a connection. A
    /// parameter that is absent gets no pair.
    pub fn settings(&self) -> (r: Vec<(SettingId, u32)>)
        ensures
            r@ == settings_of(*self),
    {
        let mut out: Vec<(SettingId, u32)> = Vec::new();
        if let Some(v) = self.initial_stream_window_size {
            out.push((SettingId::InitialWindowSize, v));
        }
        if let Some(v) = self.max_concurrent_streams {
            out.push((SettingId::MaxConcurrentStreams, v));
        }
        if let Some(v) = self.max_header_list_size {
            out.push((SettingId::MaxHeaderListSize, v));
        }
        if let Some(v) = self.header_table_size {
            out.push((SettingId::HeaderTableSize, v));
        }
        if let Some(push) = self.enable_push {
            if push {
                out.push((SettingId::EnablePush, 1));
            } else {
                out.push((SettingId::EnablePush, 0));
            }
        }
        out
    }

    /// The increment of the WINDOW_UPDATE that follows the SETTINGS
    /// frame, if the connection window is to be opened.
    pub fn window_increment(&self) -> (r: Option<u32>)
        ensures
            r == window_increment_of(*self),
    {
        match self.initial_connection_window_size {
            Some(w) => if w > DEFAULT_WINDOW_SIZE {
                Some(w - DEFAULT_WINDOW_SIZE)
            } else {
                None
            },
            None => None,
        }
    }

    /// The size of the HPACK dynamic table: the one announced, or the
    /// protocol's default.
    pub fn hpack_table_size(&self) -> (r: u32)
        ensures
            r == match self.header_table_size {
                Some(v) => v,
                None => DEFAULT_HEADER_TABLE_SIZE,
            },
    {
        match self.header_table_size {
            Some(v) => v,
            None => DEFAULT_HEADER_TABLE_SIZE,
        }
    }
}

/// The order in which a family's requests name their pseudo-headers.
pub fn pseudo_header_order(profile: ClientProfile) -> (r: [PseudoHeader; 4])
    ensures
        r@ == pseudo_order_of(profile),
{
    match profile {
        ClientProfile::Chrome | ClientProfile::Edge => [
            PseudoHeader::Method,
            PseudoHeader::Authority,
            PseudoHeader::Scheme,
            PseudoHeader::Path,
        ],
        ClientProfile::Safari => [
            PseudoHeader::Method,
            PseudoHeader::Scheme,
            PseudoHeader::Path,
            PseudoHeader::Authority,
        ],
        ClientProfile::Firefox | ClientProfile::OkHttp => [
            PseudoHeader::Method,
            PseudoHeader::Path,
            PseudoHeader::Authority,
            PseudoHeader::Scheme,
        ],
    }
}

/// An absent parameter is left out of SETTINGS, and a present one is
/// announced once, with its value.
pub proof fn law_settings_present_only(h: Http2Data, id: SettingId)
    ensures
        (exists|i: int| 0 <= i < settings_of(h).len() && (#[trigger] settings_of(h)[i]).0 == id)
            == match id {
            SettingId::InitialWindowSize => h.initial_stream_window_size is Some,
            SettingId::MaxConcurrentStreams => h.max_concurrent_streams is Some,
            SettingId::MaxHeaderListSize => h.max_header_list_size is Some,
            SettingId::HeaderTableSize => h.header_table_size is Some,
            SettingId::EnablePush => h.enable_push is Some,
        },
        forall|i: int, j: int|
            0 <= i < j < settings_of(h).len() ==> (#[trigger] settings_of(h)[i]).0 != (
            #[trigger] settings_of(h)[j]).0,
{
    let s0 = Seq::<(SettingId, u32)>::empty();
    let s1 = with_setting(s0, SettingId::InitialWindowSize, h.initial_stream_window_size);
    let s2 = with_setting(s1, SettingId::MaxConcurrentStreams, h.max_concurrent_streams);
    let s3 = with_setting(s2, SettingId::MaxHeaderListSize, h.max_header_list_size);
    let s4 = with_setting(s3, SettingId::HeaderTableSize, h.header_table_size);
    let s5 = with_setting(s4, SettingId::EnablePush, flag_value(h.enable_push));
    assert(s5 == settings_of(h));
    if h.initial_stream_window_size is Some {
        assert(s5[0].0 == SettingId::InitialWindowSize);
    }
    if h.max_concurrent_streams is Some {
        assert(s5[s2.len() - 1].0 == SettingId::MaxConcurrentStreams);
    }
    if h.max_header_list_size is Some {
        assert(s5[s3.len() - 1].0 == SettingId::MaxHeaderListSize);
    }
    if h.header_table_size is Some {
        assert(s5[s4.len() - 1].0 == SettingId::HeaderTableSize);
    }
    if h.enable_push is Some {
        assert(s5[s5.len() - 1].0 == SettingId::EnablePush);
    }
}

} // verus!
