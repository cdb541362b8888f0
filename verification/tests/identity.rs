use plugin_context::context::{
    HostInfo, Identity, NativeHostInfo, NativeTrackInfo, PluginApi, TrackInfo,
};

fn text(s: &str) -> Option<String> {
    Some(s.to_string())
}

#[test]
fn plugin_api_labels_are_exact() {
    assert_eq!(PluginApi::Clap.to_label(), "CLAP");
    assert_eq!(PluginApi::Standalone.to_label(), "standalone");
    assert_eq!(PluginApi::Vst3.to_label(), "VST3");
}

#[test]
fn plugin_api_labels_have_no_padding() {
    for api in [PluginApi::Clap, PluginApi::Standalone, PluginApi::Vst3] {
        let label = api.to_label();
        assert_eq!(label.trim(), label);
        assert!(!label.is_empty());
    }
    assert_eq!(PluginApi::Clap.to_label().len(), 4);
    assert_eq!(PluginApi::Standalone.to_label().len(), 10);
    assert_eq!(PluginApi::Vst3.to_label().len(), 4);
}

#[test]
fn plugin_api_labels_tell_the_protocols_apart() {
    let all = [PluginApi::Clap, PluginApi::Standalone, PluginApi::Vst3];
    for a in all {
        for b in all {
            assert_eq!(a.to_label() == b.to_label(), a == b);
        }
    }
}

#[test]
fn plugin_api_is_a_plain_value() {
    let api = PluginApi::Vst3;
    let copy = api;
    assert_eq!(api, copy);
    assert_eq!(api.clone(), PluginApi::Vst3);
    assert_ne!(PluginApi::Clap, PluginApi::Vst3);
    assert_ne!(PluginApi::Clap, PluginApi::Standalone);
    assert_ne!(PluginApi::Standalone, PluginApi::Vst3);
    assert_eq!(format!("{:?}", PluginApi::Standalone), "Standalone");
}

#[test]
fn only_standalone_lacks_track_info() {
    assert!(PluginApi::Clap.supports_track_info());
    assert!(PluginApi::Vst3.supports_track_info());
    assert!(!PluginApi::Standalone.supports_track_info());
}

#[test]
fn host_info_keeps_every_present_field() {
    let info = HostInfo::from_native(NativeHostInfo {
        name: text("Bitwig Studio"),
        vendor: text("Bitwig GmbH"),
        version: text("5.1.2"),
        url: text("https://bitwig.com"),
    });
    assert_eq!(info.name, "Bitwig Studio");
    assert_eq!(info.vendor, "Bitwig GmbH");
    assert_eq!(info.version, "5.1.2");
    assert_eq!(info.url, "https://bitwig.com");
}

#[test]
fn host_info_empties_every_absent_field() {
    let info = HostInfo::from_native(NativeHostInfo {
        name: None,
        vendor: None,
        version: None,
        url: None,
    });
    assert_eq!(info.name, "");
    assert_eq!(info.vendor, "");
    assert_eq!(info.version, "");
    assert_eq!(info.url, "");
}

#[test]
fn host_info_handles_every_subset_of_fields() {
    for mask in 0u32..16 {
        let pick = |bit: u32, s: &str| if mask & (1 << bit) != 0 { text(s) } else { None };
        let want = |bit: u32, s: &str| if mask & (1 << bit) != 0 { s.to_string() } else { String::new() };
        let info = HostInfo::from_native(NativeHostInfo {
            name: pick(0, "REAPER"),
            vendor: pick(1, "Cockos"),
            version: pick(2, "7.0"),
            url: pick(3, "https://reaper.fm"),
        });
        assert_eq!(info.name, want(0, "REAPER"));
        assert_eq!(info.vendor, want(1, "Cockos"));
        assert_eq!(info.version, want(2, "7.0"));
        assert_eq!(info.url, want(3, "https://reaper.fm"));
    }
}

#[test]
fn host_info_keeps_text_beyond_ascii() {
    let info = HostInfo::from_native(NativeHostInfo {
        name: text("Stüdio \u{1F3B9}"),
        vendor: text(""),
        version: None,
        url: None,
    });
    assert_eq!(info.name, "Stüdio \u{1F3B9}");
    assert_eq!(info.vendor, "");
}

#[test]
fn host_info_default_is_empty() {
    let info = HostInfo::default();
    assert_eq!(info.name, "");
    assert_eq!(info.vendor, "");
    assert_eq!(info.version, "");
    assert_eq!(info.url, "");
    let native = NativeHostInfo::default();
    assert!(native.name.is_none() && native.vendor.is_none());
    assert!(native.version.is_none() && native.url.is_none());
}

#[test]
fn host_info_clone_keeps_every_field() {
    let info = HostInfo {
        name: "Reaper".to_string(),
        vendor: "Cockos".to_string(),
        version: "7.0".to_string(),
        url: String::new(),
    };
    let copy = info.clone();
    assert_eq!(copy.name, info.name);
    assert_eq!(copy.vendor, info.vendor);
    assert_eq!(copy.version, info.version);
    assert_eq!(copy.url, info.url);
}

fn full_native_track() -> NativeTrackInfo {
    NativeTrackInfo {
        name: text("Drums"),
        color: Some((255, 128, 0)),
        audio_channel_count: Some(2),
        audio_port_type: text("stereo"),
        is_for_master: Some(false),
        is_for_return_track: Some(true),
        is_for_bus: Some(false),
    }
}

#[test]
fn track_info_keeps_every_present_field() {
    let track = TrackInfo::from_native(full_native_track());
    assert_eq!(track.name.as_deref(), Some("Drums"));
    assert_eq!(track.color, Some((255, 128, 0)));
    assert_eq!(track.audio_channel_count, Some(2));
    assert_eq!(track.audio_port_type.as_deref(), Some("stereo"));
    assert_eq!(track.is_for_master, Some(false));
    assert_eq!(track.is_for_return_track, Some(true));
    assert_eq!(track.is_for_bus, Some(false));
    assert!(!track.is_empty());
}

#[test]
fn track_info_absent_fields_are_missing_not_defaults() {
    let track = TrackInfo::from_native(NativeTrackInfo {
        name: None,
        color: None,
        audio_channel_count: None,
        audio_port_type: None,
        is_for_master: None,
        is_for_return_track: None,
        is_for_bus: None,
    });
    assert_eq!(track.name, None);
    assert_ne!(track.name, Some(String::new()));
    assert_eq!(track.color, None);
    assert_ne!(track.color, Some((0, 0, 0)));
    assert_eq!(track.audio_channel_count, None);
    assert_ne!(track.audio_channel_count, Some(0));
    assert_eq!(track.audio_port_type, None);
    assert_ne!(track.audio_port_type, Some(String::new()));
    assert_eq!(track.is_for_master, None);
    assert_ne!(track.is_for_master, Some(false));
    assert_eq!(track.is_for_return_track, None);
    assert_ne!(track.is_for_return_track, Some(false));
    assert_eq!(track.is_for_bus, None);
    assert_ne!(track.is_for_bus, Some(false));
    assert!(track.is_empty());
}

#[test]
fn track_info_fields_are_missing_one_by_one() {
    for absent in 0..7 {
        let mut native = full_native_track();
        match absent {
            0 => native.name = None,
            1 => native.color = None,
            2 => native.audio_channel_count = None,
            3 => native.audio_port_type = None,
            4 => native.is_for_master = None,
            5 => native.is_for_return_track = None,
            _ => native.is_for_bus = None,
        }
        let track = TrackInfo::from_native(native);
        assert_eq!(track.name.is_none(), absent == 0);
        assert_eq!(track.color.is_none(), absent == 1);
        assert_eq!(track.audio_channel_count.is_none(), absent == 2);
        assert_eq!(track.audio_port_type.is_none(), absent == 3);
        assert_eq!(track.is_for_master.is_none(), absent == 4);
        assert_eq!(track.is_for_return_track.is_none(), absent == 5);
        assert_eq!(track.is_for_bus.is_none(), absent == 6);
        assert!(!track.is_empty());
    }
}

#[test]
fn track_info_fields_are_present_one_by_one() {
    for present in 0..7 {
        let mut native = NativeTrackInfo::default();
        match present {
            0 => native.name = text(""),
            1 => native.color = Some((0, 0, 0)),
            2 => native.audio_channel_count = Some(0),
            3 => native.audio_port_type = text(""),
            4 => native.is_for_master = Some(false),
            5 => native.is_for_return_track = Some(false),
            _ => native.is_for_bus = Some(false),
        }
        let track = TrackInfo::from_native(native);
        assert_eq!(track.name, if present == 0 { text("") } else { None });
        assert_eq!(track.color, if present == 1 { Some((0, 0, 0)) } else { None });
        assert_eq!(track.audio_channel_count, if present == 2 { Some(0) } else { None });
        assert_eq!(track.audio_port_type, if present == 3 { text("") } else { None });
        assert_eq!(track.is_for_master, if present == 4 { Some(false) } else { None });
        assert_eq!(track.is_for_return_track, if present == 5 { Some(false) } else { None });
        assert_eq!(track.is_for_bus, if present == 6 { Some(false) } else { None });
        assert!(!track.is_empty());
        assert!(track != TrackInfo::default());
    }
}

#[test]
fn track_info_takes_a_negative_channel_count_as_missing() {
    for (native_count, count) in [
        (Some(-1), None),
        (Some(i32::MIN), None),
        (Some(0), Some(0)),
        (Some(1), Some(1)),
        (Some(i32::MAX), Some(i32::MAX)),
        (None, None),
    ] {
        let mut native = full_native_track();
        native.audio_channel_count = native_count;
        let track = TrackInfo::from_native(native);
        assert_eq!(track.audio_channel_count, count);
        // The other fields are as they were supplied.
        assert_eq!(track.name.as_deref(), Some("Drums"));
        assert_eq!(track.color, Some((255, 128, 0)));
        assert_eq!(track.audio_port_type.as_deref(), Some("stereo"));
        assert_eq!(track.is_for_master, Some(false));
        assert_eq!(track.is_for_return_track, Some(true));
        assert_eq!(track.is_for_bus, Some(false));
    }
}

#[test]
fn track_info_equality_is_structural() {
    let a = TrackInfo::from_native(full_native_track());
    let b = TrackInfo::from_native(full_native_track());
    assert!(a == b);
    assert!(!(a != b));
    for changed in 0..7 {
        let mut native = full_native_track();
        match changed {
            0 => native.name = text("Bass"),
            1 => native.color = Some((255, 128, 1)),
            2 => native.audio_channel_count = Some(1),
            3 => native.audio_port_type = text("mono"),
            4 => native.is_for_master = Some(true),
            5 => native.is_for_return_track = Some(false),
            _ => native.is_for_bus = Some(true),
        }
        let c = TrackInfo::from_native(native);
        assert!(a != c);
        assert!(!(a == c));
    }
}

#[test]
fn track_info_default_is_empty() {
    let track = TrackInfo::default();
    assert!(track.is_empty());
    assert_eq!(track.name, None);
    assert_eq!(track.color, None);
    assert_eq!(track.audio_channel_count, None);
    assert_eq!(track.audio_port_type, None);
    assert_eq!(track.is_for_master, None);
    assert_eq!(track.is_for_return_track, None);
    assert_eq!(track.is_for_bus, None);
    assert!(track == TrackInfo::from_native(NativeTrackInfo::default()));
}

#[test]
fn track_info_clone_is_equal() {
    let track = TrackInfo::from_native(full_native_track());
    let copy = track.clone();
    assert!(copy == track);
    assert_eq!(copy.name.as_deref(), Some("Drums"));
    assert_eq!(copy.audio_port_type.as_deref(), Some("stereo"));
    assert!(TrackInfo::default().clone() == TrackInfo::default());
}

#[test]
fn identity_exposes_what_it_was_made_with() {
    let identity = Identity::new(
        PluginApi::Clap,
        HostInfo::from_native(NativeHostInfo {
            name: text("Bitwig Studio"),
            vendor: None,
            version: text("5.1"),
            url: None,
        }),
    );
    assert_eq!(identity.plugin_api(), PluginApi::Clap);
    assert_eq!(identity.host_info().name, "Bitwig Studio");
    assert_eq!(identity.host_info().vendor, "");
    assert_eq!(identity.host_info().version, "5.1");
    assert_eq!(identity.host_info().url, "");
    assert_eq!(identity.plugin_api(), identity.plugin_api());
}

#[test]
fn identity_from_native_normalizes_the_host() {
    let identity = Identity::from_native(
        PluginApi::Vst3,
        NativeHostInfo { name: text("Cubase"), vendor: text("Steinberg"), version: None, url: None },
    );
    assert_eq!(identity.plugin_api(), PluginApi::Vst3);
    assert_eq!(identity.host_info().name, "Cubase");
    assert_eq!(identity.host_info().vendor, "Steinberg");
    assert_eq!(identity.host_info().version, "");
    assert_eq!(identity.host_info().url, "");

    let standalone = Identity::from_native(PluginApi::Standalone, NativeHostInfo::default());
    assert_eq!(standalone.plugin_api(), PluginApi::Standalone);
    assert_eq!(standalone.host_info().name, "");
    assert_eq!(standalone.host_info().url, "");
}
