use hydebar::network::{
    AccessPoint, ActiveConnectionInfo, ConnectivityState, DeviceState, DeviceType,
    KnownConnection, Vpn,
};
use hydebar::network_manager::{
    BackendChoice, StreamStep, network_stream_step, NetStartAction, NetStartEvent, NetStartState, network_step, airplane_mode, choose_backend, devices_changed, known_connections,
    password_request, sort_active_connections, sort_by_strength, strongest_per_ssid, toggled,
    vpn_toggle,
};
use hydebar::network::NetworkEvent;

fn ap(ssid: &str, strength: u8, path: &str) -> AccessPoint {
    AccessPoint {
        ssid: ssid.to_owned(),
        strength,
        state: DeviceState::Activated,
        public: false,
        working: false,
        path: path.to_owned(),
        device_path: "/dev/0".to_owned(),
    }
}

#[test]
fn device_type_from_u32_maps_known_values() {
    assert_eq!(DeviceType::from(2), DeviceType::Wifi);
    assert_eq!(DeviceType::from(29), DeviceType::WireGuard);
    assert_eq!(DeviceType::from(42), DeviceType::Unknown);
}

#[test]
fn connectivity_state_from_vec_prefers_highest_state() {
    let states = vec![
        ConnectivityState::Portal,
        ConnectivityState::Loss,
        ConnectivityState::Full,
    ];

    assert_eq!(ConnectivityState::from(states), ConnectivityState::Full);
}

#[test]
fn active_connections_sorted_by_kind_then_name() {
    let sorted = sort_active_connections(vec![
        ActiveConnectionInfo::WiFi { id: "w".into(), name: "home".into(), strength: 70 },
        ActiveConnectionInfo::Wired { name: "eth-b".into(), speed: 100 },
        ActiveConnectionInfo::Vpn { name: "work".into(), object_path: "/v/1".into() },
        ActiveConnectionInfo::Wired { name: "eth-a".into(), speed: 1000 },
        ActiveConnectionInfo::Vpn { name: "alpha".into(), object_path: "/v/2".into() },
    ]);
    let names: Vec<String> = sorted.iter().map(|c| c.name()).collect();
    assert_eq!(names, vec!["alpha", "work", "eth-a", "eth-b", "home"]);
}

#[test]
fn equal_connections_keep_their_order() {
    let sorted = sort_active_connections(vec![
        ActiveConnectionInfo::Wired { name: "eth".into(), speed: 1 },
        ActiveConnectionInfo::Wired { name: "eth".into(), speed: 2 },
        ActiveConnectionInfo::Wired { name: "e".into(), speed: 3 },
    ]);
    let speeds: Vec<u32> = sorted
        .iter()
        .map(|c| match c {
            ActiveConnectionInfo::Wired { speed, .. } => *speed,
            _ => 0,
        })
        .collect();
    assert_eq!(speeds, vec![3, 1, 2]);
}

#[test]
fn access_points_strongest_first() {
    let sorted = sort_by_strength(vec![ap("a", 10, "/1"), ap("b", 90, "/2"), ap("c", 10, "/3")]);
    let paths: Vec<&str> = sorted.iter().map(|a| a.path.as_str()).collect();
    assert_eq!(paths, vec!["/2", "/1", "/3"]);
}

#[test]
fn one_access_point_per_ssid() {
    let aps = vec![
        ap("home", 40, "/1"),
        ap("cafe", 60, "/2"),
        ap("home", 80, "/3"),
        ap("home", 80, "/4"),
        ap("cafe", 20, "/5"),
    ];
    let kept = strongest_per_ssid(aps);
    let paths: Vec<&str> = kept.iter().map(|a| a.path.as_str()).collect();
    assert_eq!(paths, vec!["/4", "/2"]);
}

#[test]
fn known_connections_filter_access_points_then_vpns() {
    let aps = vec![ap("home", 40, "/1"), ap("cafe", 60, "/2"), ap("work", 10, "/3")];
    let known = known_connections(
        &aps,
        &vec!["work".to_owned(), "home".to_owned()],
        vec![Vpn { name: "corp".into(), path: "/vpn".into() }],
    );
    assert_eq!(known.len(), 3);
    assert!(matches!(&known[0], KnownConnection::AccessPoint(a) if a.ssid == "home"));
    assert!(matches!(&known[1], KnownConnection::AccessPoint(a) if a.ssid == "work"));
    assert!(matches!(&known[2], KnownConnection::Vpn(v) if v.name == "corp"));
}

#[test]
fn vpn_toggle_deactivates_active_and_activates_saved() {
    let active = vec![
        ActiveConnectionInfo::Wired { name: "corp".into(), speed: 1 },
        ActiveConnectionInfo::Vpn { name: "corp".into(), object_path: "/active/7".into() },
    ];
    let vpn = Vpn { name: "corp".into(), path: "/saved/1".into() };
    assert_eq!(vpn_toggle(&active, &vpn), ("/active/7".to_owned(), false));
    assert_eq!(vpn_toggle(&active[..1].to_vec(), &vpn), ("/saved/1".to_owned(), true));
}

#[test]
fn backend_choice_prefers_network_manager() {
    assert_eq!(choose_backend(true, true), Some(BackendChoice::NetworkManager));
    assert_eq!(choose_backend(false, true), Some(BackendChoice::Iwd));
    assert_eq!(choose_backend(false, false), None);
}

#[test]
fn switches_flip_only_when_accepted() {
    assert!(toggled(false, true));
    assert!(toggled(true, false));
    assert!(!toggled(true, true));
    assert!(airplane_mode(true, false));
    assert!(!airplane_mode(true, true));
    assert!(!airplane_mode(false, false));
}

#[test]
fn password_is_requested_only_when_authentication_is_needed() {
    assert!(matches!(
        password_request(DeviceState::NeedAuth, "home".into()),
        Some(NetworkEvent::RequestPasswordForSSID(ref s)) if s == "home"
    ));
    assert!(password_request(DeviceState::Activated, "home".into()).is_none());
}

#[test]
fn device_list_changes_are_detected() {
    let a = vec!["/d/1".to_owned(), "/d/2".to_owned()];
    assert!(!devices_changed(&a, &a.clone()));
    assert!(devices_changed(&a, &vec!["/d/2".to_owned(), "/d/1".to_owned()]));
    assert!(devices_changed(&a, &vec!["/d/1".to_owned()]));
}

#[test]
fn network_start_up_falls_back_to_iwd_and_retries_after_errors() {
    let (s, a) = network_step(NetStartState::Init, NetStartEvent::Tick);
    assert_eq!((s, a), (NetStartState::Connecting, NetStartAction::ConnectBus));
    let (s, a) = network_step(s, NetStartEvent::BusConnected(true));
    assert_eq!(a, NetStartAction::StartBackend(BackendChoice::NetworkManager));
    let (s, a) = network_step(s, NetStartEvent::BackendStarted(false));
    assert_eq!(a, NetStartAction::StartBackend(BackendChoice::Iwd));
    let (s, a) = network_step(s, NetStartEvent::BackendStarted(true));
    assert_eq!(s, NetStartState::Active(BackendChoice::Iwd));
    assert_eq!(a, NetStartAction::PublishInit(BackendChoice::Iwd));
    let (s, a) = network_step(s, NetStartEvent::Tick);
    assert_eq!(a, NetStartAction::Subscribe(BackendChoice::Iwd));
    let (s, a) = network_step(s, NetStartEvent::StreamEnded(true));
    assert_eq!((s, a), (NetStartState::Active(BackendChoice::Iwd), NetStartAction::Continue));
    let (s, _) = network_step(s, NetStartEvent::Tick);
    let (s, a) = network_step(s, NetStartEvent::StreamEnded(false));
    assert_eq!((s, a), (NetStartState::Error, NetStartAction::PublishError));
    let (s, a) = network_step(s, NetStartEvent::Tick);
    assert_eq!((s, a), (NetStartState::Init, NetStartAction::Sleep(1000)));
}

#[test]
fn network_start_up_fails_when_no_backend_starts() {
    let (s, _) = network_step(NetStartState::Connecting, NetStartEvent::BusConnected(true));
    let (s, _) = network_step(s, NetStartEvent::BackendStarted(false));
    let (s, a) = network_step(s, NetStartEvent::BackendStarted(false));
    assert_eq!((s, a), (NetStartState::Error, NetStartAction::PublishError));
    let (s, a) = network_step(NetStartState::Connecting, NetStartEvent::BusConnected(false));
    assert_eq!((s, a), (NetStartState::Error, NetStartAction::PublishError));
    let (s, a) = network_step(NetStartState::Active(BackendChoice::NetworkManager), NetStartEvent::BusConnected(true));
    assert_eq!((s, a), (NetStartState::Active(BackendChoice::NetworkManager), NetStartAction::Continue));
}

#[test]
fn network_stream_forwards_until_devices_change_or_error() {
    match network_stream_step::<String>(Some(Ok(NetworkEvent::WiFiEnabled(true)))) {
        StreamStep::Forward { event: NetworkEvent::WiFiEnabled(true), stop: false } => {},
        other => panic!("unexpected step: {other:?}"),
    }
    match network_stream_step::<String>(Some(Ok(NetworkEvent::WirelessDevice {
        wifi_present: true,
        wireless_access_points: vec![],
    }))) {
        StreamStep::Forward { event: NetworkEvent::WirelessDevice { .. }, stop: true } => {},
        other => panic!("unexpected step: {other:?}"),
    }
    match network_stream_step(Some(Err("closed".to_owned()))) {
        StreamStep::Failed(e) => assert_eq!(e, "closed"),
        other => panic!("unexpected step: {other:?}"),
    }
    assert!(matches!(network_stream_step::<String>(None), StreamStep::Finished));
}
