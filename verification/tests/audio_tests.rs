use hydebar::audio::{
    AudioCommand, AudioEvent, AudioService, BackendCommand, ChannelVolumes, Device, DeviceType,
    Port, ServerInfo, Sinks,
};
use hydebar::icons::Icons;

fn port(active: bool) -> Port {
    Port {
        name: "port".into(),
        description: String::new(),
        device_type: DeviceType::Speaker,
        active,
    }
}

fn device(name: &str, volumes: Vec<u32>, is_mute: bool, active: bool) -> Device {
    Device {
        name: name.into(),
        description: String::new(),
        volume: ChannelVolumes { values: volumes },
        is_mute,
        in_use: true,
        ports: vec![port(active)],
    }
}

#[test]
fn device_type_icons_match_expectations() {
    assert_eq!(DeviceType::Headphones.get_icon(), Icons::Headphones1);
    assert_eq!(DeviceType::Speaker.get_icon(), Icons::Speaker3);
    assert_eq!(DeviceType::Headset.get_icon(), Icons::Headset);
    assert_eq!(DeviceType::Hdmi.get_icon(), Icons::MonitorSpeaker);
}

#[test]
fn sink_collection_icon_considers_mute_state() {
    let sinks = vec![Device {
        name: "default".into(),
        description: String::new(),
        volume: ChannelVolumes::default(),
        is_mute: true,
        in_use: true,
        ports: vec![Port {
            name: "port".into(),
            description: String::new(),
            device_type: DeviceType::Speaker,
            active: true,
        }],
    }];

    assert_eq!(sinks.get_icon("default"), Icons::Speaker0);
}

#[test]
fn sink_collection_returns_default_when_no_match() {
    let sinks = vec![Device {
        name: "other".into(),
        description: String::new(),
        volume: ChannelVolumes::default(),
        is_mute: false,
        in_use: true,
        ports: vec![Port {
            name: "port".into(),
            description: String::new(),
            device_type: DeviceType::Speaker,
            active: true,
        }],
    }];

    assert_eq!(sinks.get_icon("default"), Icons::Speaker0);
}

#[test]
fn volume_trait_clamps_to_valid_range() {
    let mut volume = ChannelVolumes::default();
    // 120 % is clamped to 100 %; a channel list without channels is not
    // accepted, so nothing is scaled.
    let result = volume.scale_volume(120);
    assert!(result.is_none());
    assert!(volume.values.is_empty());
}

#[test]
fn channel_volume_average_rounds_down() {
    let v = ChannelVolumes { values: vec![65536, 32768, 1] };
    assert_eq!(v.avg(), 32768);
    let v = ChannelVolumes { values: vec![3, 4] };
    assert_eq!(v.avg(), 3);
}

#[test]
fn invalid_channel_volumes_are_silent() {
    assert_eq!(ChannelVolumes { values: vec![] }.avg(), 0);
    assert_eq!(ChannelVolumes { values: vec![0x8000_0000] }.avg(), 0);
    assert_eq!(ChannelVolumes { values: vec![100; 33] }.avg(), 0);
    assert!(!ChannelVolumes { values: vec![100; 33] }.is_valid());
    assert!(ChannelVolumes { values: vec![100; 32] }.is_valid());
}

#[test]
fn sink_icon_follows_volume_thresholds() {
    let icon = |v: u32| vec![device("s", vec![v, v], false, true)].get_icon("s");
    assert_eq!(icon(65536), Icons::Speaker3);
    assert_eq!(icon(43254), Icons::Speaker3);
    assert_eq!(icon(43253), Icons::Speaker2);
    assert_eq!(icon(21627), Icons::Speaker2);
    assert_eq!(icon(21626), Icons::Speaker1);
    assert_eq!(icon(1), Icons::Speaker1);
    assert_eq!(icon(0), Icons::Speaker0);
}

#[test]
fn sink_icon_needs_an_active_port() {
    let sinks = vec![device("s", vec![65536], false, false)];
    assert_eq!(sinks.get_icon("s"), Icons::Speaker0);
    let sinks = vec![
        device("s", vec![65536], false, false),
        device("s", vec![100], false, true),
    ];
    assert_eq!(sinks.get_icon("s"), Icons::Speaker1);
}

#[test]
fn active_device_volume_in_percent() {
    let devices = vec![device("a", vec![32768], false, true)];
    assert_eq!(AudioService::active_device_volume(&devices, "a"), 50);
    let devices = vec![device("a", vec![65536, 65535], false, true)];
    assert_eq!(AudioService::active_device_volume(&devices, "a"), 99);
    let devices = vec![device("a", vec![32768], true, true)];
    assert_eq!(AudioService::active_device_volume(&devices, "a"), 0);
    assert_eq!(AudioService::active_device_volume(&devices, "b"), 0);
}

#[test]
fn scale_volume_keeps_proportions() {
    let mut v = ChannelVolumes { values: vec![100, 50] };
    let sent = v.scale_volume(100).expect("valid channels");
    assert_eq!(v.values, vec![65536, 32768]);
    assert_eq!(sent.values, vec![65536, 32768]);

    let mut v = ChannelVolumes { values: vec![200, 100] };
    v.scale_volume(50).expect("valid channels");
    assert_eq!(v.values, vec![32768, 16384]);

    let mut v = ChannelVolumes { values: vec![0, 0, 0] };
    v.scale_volume(25).expect("valid channels");
    assert_eq!(v.values, vec![16384, 16384, 16384]);

    let mut v = ChannelVolumes { values: vec![10] };
    v.scale_volume(-5).expect("valid channels");
    assert_eq!(v.values, vec![0]);

    let mut v = ChannelVolumes { values: vec![10] };
    v.scale_volume(33).expect("valid channels");
    assert_eq!(v.values, vec![21626]);
}

fn service() -> AudioService {
    let mut s = AudioService::new();
    s.update(AudioEvent::ServerInfo(ServerInfo {
        default_sink: "sink".into(),
        default_source: "source".into(),
    }));
    s.update(AudioEvent::Sinks(vec![device("sink", vec![65536], false, true)]));
    s.update(AudioEvent::Sources(vec![device("source", vec![16384], false, true)]));
    s
}

#[test]
fn audio_service_update_recomputes_volumes() {
    let mut s = service();
    assert_eq!(s.data.cur_sink_volume, 100);
    assert_eq!(s.data.cur_source_volume, 25);
    s.update(AudioEvent::ServerInfo(ServerInfo {
        default_sink: "other".into(),
        default_source: "source".into(),
    }));
    assert_eq!(s.data.cur_sink_volume, 0);
    assert_eq!(s.data.cur_source_volume, 25);
}

#[test]
fn server_info_default_is_empty() {
    let info = ServerInfo::default();
    assert_eq!(info, ServerInfo { default_sink: String::new(), default_source: String::new() });
}

#[test]
fn toggle_mute_targets_default_devices() {
    let mut s = service();
    match s.command(AudioCommand::ToggleSinkMute) {
        Some(BackendCommand::SinkMute(name, true)) => assert_eq!(name, "sink"),
        other => panic!("unexpected command: {other:?}"),
    }
    match s.command(AudioCommand::ToggleSourceMute) {
        Some(BackendCommand::SourceMute(name, true)) => assert_eq!(name, "source"),
        other => panic!("unexpected command: {other:?}"),
    }
}

#[test]
fn sink_volume_command_rescales_default_sink() {
    let mut s = service();
    match s.command(AudioCommand::SinkVolume(50)) {
        Some(BackendCommand::SinkVolume(name, volume)) => {
            assert_eq!(name, "sink");
            assert_eq!(volume.values, vec![32768]);
        }
        other => panic!("unexpected command: {other:?}"),
    }
    assert_eq!(s.data.sinks[0].volume.values, vec![32768]);
}

#[test]
fn commands_without_default_device_send_nothing() {
    let mut s = AudioService::new();
    assert!(s.command(AudioCommand::ToggleSinkMute).is_none());
    assert!(s.command(AudioCommand::SourceVolume(10)).is_none());
    match s.command(AudioCommand::DefaultSink("a".into(), "p".into())) {
        Some(BackendCommand::DefaultSink(name, port)) => {
            assert_eq!(name, "a");
            assert_eq!(port, "p");
        }
        other => panic!("unexpected command: {other:?}"),
    }
}
