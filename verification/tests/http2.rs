use chromimic::http2::{pseudo_header_order, Http2Data, PseudoHeader, SettingId};
use chromimic::{ClientProfile, Error};

fn none() -> Http2Data {
    Http2Data::empty()
}

#[test]
fn empty_parameters_announce_nothing() {
    let h = none();
    assert_eq!(h.settings(), vec![]);
    assert_eq!(h.window_increment(), None);
    assert_eq!(h.hpack_table_size(), 4096);
    assert_eq!(h.check(), Ok(()));
}

#[test]
fn settings_hold_present_parameters_in_declared_order() {
    let h = Http2Data {
        initial_stream_window_size: Some(6291456),
        initial_connection_window_size: Some(15728640),
        max_concurrent_streams: Some(1000),
        max_header_list_size: Some(262144),
        header_table_size: Some(65536),
        enable_push: Some(false),
    };
    assert_eq!(
        h.settings(),
        vec![
            (SettingId::InitialWindowSize, 6291456),
            (SettingId::MaxConcurrentStreams, 1000),
            (SettingId::MaxHeaderListSize, 262144),
            (SettingId::HeaderTableSize, 65536),
            (SettingId::EnablePush, 0),
        ]
    );
}

#[test]
fn settings_leave_absent_parameters_out() {
    let h = Http2Data {
        initial_stream_window_size: Some(16777216),
        initial_connection_window_size: Some(16777216),
        ..none()
    };
    assert_eq!(h.settings(), vec![(SettingId::InitialWindowSize, 16777216)]);
    let push = Http2Data { enable_push: Some(true), ..none() };
    assert_eq!(push.settings(), vec![(SettingId::EnablePush, 1)]);
    let table = Http2Data { header_table_size: Some(0), ..none() };
    assert_eq!(table.settings(), vec![(SettingId::HeaderTableSize, 0)]);
}

#[test]
fn window_increment_is_the_distance_from_the_default() {
    let h = Http2Data { initial_connection_window_size: Some(15728640), ..none() };
    assert_eq!(h.window_increment(), Some(15663105));
    let safari = Http2Data { initial_connection_window_size: Some(10551295), ..none() };
    assert_eq!(safari.window_increment(), Some(10485760));
    let just_above = Http2Data { initial_connection_window_size: Some(65536), ..none() };
    assert_eq!(just_above.window_increment(), Some(1));
    let at_default = Http2Data { initial_connection_window_size: Some(65535), ..none() };
    assert_eq!(at_default.window_increment(), None);
    let below = Http2Data { initial_connection_window_size: Some(0), ..none() };
    assert_eq!(below.window_increment(), None);
}

#[test]
fn hpack_table_follows_the_announced_size() {
    let h = Http2Data { header_table_size: Some(65536), ..none() };
    assert_eq!(h.hpack_table_size(), 65536);
    let zero = Http2Data { header_table_size: Some(0), ..none() };
    assert_eq!(zero.hpack_table_size(), 0);
}

#[test]
fn windows_beyond_the_protocol_limit_are_refused() {
    let stream = Http2Data { initial_stream_window_size: Some(0x8000_0000), ..none() };
    assert_eq!(stream.check(), Err(Error::Http2ConfigError));
    let connection = Http2Data { initial_connection_window_size: Some(u32::MAX), ..none() };
    assert_eq!(connection.check(), Err(Error::Http2ConfigError));
    let largest = Http2Data {
        initial_stream_window_size: Some(0x7fff_ffff),
        initial_connection_window_size: Some(0x7fff_ffff),
        max_concurrent_streams: Some(u32::MAX),
        max_header_list_size: Some(u32::MAX),
        header_table_size: Some(u32::MAX),
        enable_push: Some(true),
    };
    assert_eq!(largest.check(), Ok(()));
}

#[test]
fn setting_numbers() {
    assert_eq!(SettingId::HeaderTableSize.id(), 1);
    assert_eq!(SettingId::EnablePush.id(), 2);
    assert_eq!(SettingId::MaxConcurrentStreams.id(), 3);
    assert_eq!(SettingId::InitialWindowSize.id(), 4);
    assert_eq!(SettingId::MaxHeaderListSize.id(), 6);
}

#[test]
fn pseudo_header_order_by_family() {
    let m = PseudoHeader::Method;
    let a = PseudoHeader::Authority;
    let s = PseudoHeader::Scheme;
    let p = PseudoHeader::Path;
    assert_eq!(pseudo_header_order(ClientProfile::Chrome), [m, a, s, p]);
    assert_eq!(pseudo_header_order(ClientProfile::Edge), [m, a, s, p]);
    assert_eq!(pseudo_header_order(ClientProfile::Safari), [m, s, p, a]);
    assert_eq!(pseudo_header_order(ClientProfile::Firefox), [m, p, a, s]);
    assert_eq!(pseudo_header_order(ClientProfile::OkHttp), [m, p, a, s]);
}

#[test]
fn pseudo_header_order_names_each_once() {
    let families = [
        ClientProfile::Chrome,
        ClientProfile::OkHttp,
        ClientProfile::Safari,
        ClientProfile::Firefox,
        ClientProfile::Edge,
    ];
    for family in families {
        let order = pseudo_header_order(family);
        for wanted in [
            PseudoHeader::Method,
            PseudoHeader::Authority,
            PseudoHeader::Scheme,
            PseudoHeader::Path,
        ] {
            assert_eq!(order.iter().filter(|p| **p == wanted).count(), 1);
        }
        assert_eq!(order[0], PseudoHeader::Method);
    }
}
