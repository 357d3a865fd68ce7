use std::path::PathBuf;
use std::sync::atomic::{AtomicUsize, Ordering};

use hydebar::brightness::{
    BrightnessError, backlight_candidate, brightness_from_contents, parse_u32, resolve_device_path,
};
use hydebar::config::CustomModuleDef;
use hydebar::config::regex_cfg::RegexCfg;
use hydebar::custom_module::{
    Custom, CustomCommandError, CustomCommandService, CustomListenData, IconChoice, Message,
    line_event, listener_exit, truncate_snippet,
};
use hydebar::icons::Icons;
use hydebar::idle_inhibitor::{
    GlobalKind, IdleInhibitorError, IdleInhibitorInitState, InhibitAction, MissingGlobal,
    RegistryAction, RegistryGlobals, validate_init_state,
};
use hydebar::mpris::{
    ListenerEvent, ModuleError, MprisPlayerCommand, MprisPlayerData, MprisPlayerEvent,
    MprisPlayerService, PlaybackStatus, PlayerCommand, command_target, handle_chunk,
    is_mpris_service, module_error, mpris_services,
};
use hydebar::services::ServiceEvent;
use hydebar::tray::{
    Icon, StatusNotifierItem, TrayCommand, TrayData, TrayEvent, TrayIcon, TrayService,
    TrayWatcherError, WatcherState, icon_from_pixmaps, icon_path_with_theme_fallback,
    next_watcher_state, transition_to_error,
};
use hydebar::upower::{combined_state, is_system_battery, total_time};

#[test]
fn resolve_device_path_without_device_fails() {
    let result = resolve_device_path::<PathBuf>(None);
    assert!(matches!(result, Err(BrightnessError::MissingDevice)));
    let found = resolve_device_path(Some(PathBuf::from("/sys/class/backlight/intel")));
    assert_eq!(found, Ok(PathBuf::from("/sys/class/backlight/intel")));
}

#[test]
fn first_backlight_device_is_chosen() {
    let subsystems = vec![None, Some("drm".to_owned()), Some("backlight".to_owned()), Some("backlight".to_owned())];
    assert_eq!(backlight_candidate(&subsystems), Some(2));
    assert_eq!(backlight_candidate(&vec![Some("leds".to_owned())]), None);
}

#[test]
fn converts_parse_errors() {
    let err = parse_u32("foo").unwrap_err();
    let err = BrightnessError::from_parse_error(err);
    assert!(matches!(err, BrightnessError::Parse { .. }));
}

#[test]
fn brightness_file_contents_are_trimmed_and_parsed() {
    assert_eq!(brightness_from_contents("/b", " 120\n"), Ok(120));
    let err = brightness_from_contents("/b", "12a").unwrap_err();
    assert_eq!(
        err.to_string(),
        "failed to parse brightness value: /b: invalid digit found in string"
    );
}

#[test]
fn validate_init_state_succeeds_with_all_globals() {
    let state = IdleInhibitorInitState {
        has_compositor: true,
        has_surface: true,
        has_idle_manager: true,
    };

    validate_init_state(state).expect("state should be valid");
}

#[test]
fn validate_init_state_fails_without_idle_manager() {
    let state = IdleInhibitorInitState {
        has_compositor: true,
        has_surface: true,
        has_idle_manager: false,
    };

    let err = validate_init_state(state).unwrap_err();
    assert!(matches!(err, IdleInhibitorError::MissingGlobal { .. }));
}

#[test]
fn missing_global_display_matches_variant() {
    let err = IdleInhibitorError::missing_idle_inhibit_manager();
    assert_eq!(err.to_string(), "missing wayland global: zwp_idle_inhibit_manager_v1");
}

#[test]
fn missing_global_variants_are_distinct() {
    assert_ne!(MissingGlobal::Compositor, MissingGlobal::Surface);
}

#[test]
fn registry_binds_first_globals_and_tracks_removal() {
    let mut g = RegistryGlobals::new();
    assert_eq!(g.on_global(GlobalKind::Compositor, 4), RegistryAction::BindCompositor);
    assert_eq!(g.on_global(GlobalKind::Compositor, 5), RegistryAction::Ignore);
    assert_eq!(g.on_global(GlobalKind::IdleInhibitManager, 9), RegistryAction::BindIdleManager);
    assert_eq!(g.on_global(GlobalKind::Other, 11), RegistryAction::Ignore);
    assert!(validate_init_state(g.init_state()).is_ok());
    g.on_global_remove(9);
    assert_eq!(g.idle_manager, Some(9));
    g.on_global_remove(4);
    assert_eq!(g.compositor, None);
    assert!(!g.has_surface);
    g.on_global_remove(9);
    assert_eq!(g.idle_manager, None);
}

#[test]
fn inhibitor_toggles_only_with_manager_and_surface() {
    let mut g = RegistryGlobals::new();
    assert!(matches!(
        g.set_inhibit(true),
        Err(IdleInhibitorError::MissingGlobal { global: MissingGlobal::IdleInhibitManager })
    ));
    g.on_global(GlobalKind::IdleInhibitManager, 1);
    assert!(matches!(
        g.set_inhibit(true),
        Err(IdleInhibitorError::MissingGlobal { global: MissingGlobal::Surface })
    ));
    g.on_global(GlobalKind::Compositor, 2);
    assert_eq!(g.set_inhibit(true).ok(), Some(InhibitAction::Create));
    assert_eq!(g.set_inhibit(true).ok(), Some(InhibitAction::Keep));
    assert_eq!(g.set_inhibit(false).ok(), Some(InhibitAction::Destroy));
    assert_eq!(g.set_inhibit(false).ok(), Some(InhibitAction::Keep));
}

#[test]
fn toggling_twice_restores_the_globals() {
    let mut g = RegistryGlobals::new();
    g.on_global(GlobalKind::Compositor, 1);
    g.on_global(GlobalKind::IdleInhibitManager, 2);
    let before = g;
    assert!(g.set_inhibit(!g.inhibited).is_ok());
    assert!(g.set_inhibit(!g.inhibited).is_ok());
    assert_eq!(g, before);
}

#[test]
fn module_error_formats_context() {
    let error = module_error("context", "failure");
    assert!(matches!(
        error,
        ModuleError::Registration {
            reason: ref value
        } if value == "context: failure"
    ));
    assert_eq!(error.to_string(), "Module registration failed: context: failure");
}

#[test]
fn detects_mpris_service_prefix() {
    assert!(is_mpris_service("org.mpris.MediaPlayer2.foo"));
    assert!(!is_mpris_service("org.freedesktop.DBus"));
}

#[test]
fn command_builder_preserves_inputs() {
    let command = MprisPlayerCommand::<f64>::new("svc".into(), PlayerCommand::Prev);
    assert_eq!(command.service_name, "svc");
    match command.command {
        PlayerCommand::Prev => {}
        other => panic!("unexpected command: {other:?}"),
    }
}

fn player(service: &str) -> MprisPlayerData<f64> {
    MprisPlayerData {
        service: service.to_owned(),
        metadata: None,
        volume: None,
        state: PlaybackStatus::Stopped,
    }
}

#[test]
fn mpris_services_keep_player_names_in_order() {
    let names = vec![
        "org.freedesktop.DBus".to_owned(),
        "org.mpris.MediaPlayer2.spotify".to_owned(),
        ":1.42".to_owned(),
        "org.mpris.MediaPlayer2.vlc".to_owned(),
    ];
    assert_eq!(
        mpris_services(&names),
        vec!["org.mpris.MediaPlayer2.spotify", "org.mpris.MediaPlayer2.vlc"]
    );
}

#[test]
fn mpris_updates_go_to_named_player() {
    let mut service = MprisPlayerService::new(vec![player("a"), player("b")]);
    service.update(MprisPlayerEvent::State("b".into(), PlaybackStatus::Playing));
    service.update(MprisPlayerEvent::Volume("a".into(), Some(40.0)));
    service.update(MprisPlayerEvent::State("zzz".into(), PlaybackStatus::Paused));
    assert_eq!(service.data[0].state, PlaybackStatus::Stopped);
    assert_eq!(service.data[0].volume, Some(40.0));
    assert_eq!(service.data[1].state, PlaybackStatus::Playing);
    service.update(MprisPlayerEvent::Refresh(vec![]));
    assert!(service.data.is_empty());
}

#[test]
fn mpris_command_target_errors() {
    let command = MprisPlayerCommand::new("b".into(), PlayerCommand::Volume(50.0));
    let none: Option<&MprisPlayerService<f64>> = None;
    assert_eq!(
        command_target(none, &command).unwrap_err().to_string(),
        "Module registration failed: MPRIS player service is not initialised"
    );
    let service = MprisPlayerService::new(vec![player("a"), player("b")]);
    assert_eq!(command_target(Some(&service), &command), Ok(1));
    let other = MprisPlayerCommand::<f64>::new("c".into(), PlayerCommand::Next);
    assert_eq!(
        command_target(Some(&service), &other).unwrap_err().to_string(),
        "Module registration failed: unknown MPRIS service 'c'"
    );
}

#[test]
fn listener_chunk_forwards_updates_and_flags_refresh() {
    let (updates, refresh) = handle_chunk::<f64>(vec![
        ListenerEvent::State("a".into(), PlaybackStatus::Paused),
        ListenerEvent::NameOwner,
        ListenerEvent::Volume("a".into(), None),
    ]);
    assert!(refresh);
    assert_eq!(updates.len(), 2);
    assert!(matches!(updates[0], MprisPlayerEvent::State(ref s, PlaybackStatus::Paused) if s == "a"));
    let (updates, refresh) = handle_chunk::<f64>(vec![]);
    assert!(!refresh);
    assert!(updates.is_empty());
}

#[test]
fn playback_status_from_names() {
    assert_eq!(PlaybackStatus::from("Paused".to_owned()), PlaybackStatus::Paused);
    assert_eq!(PlaybackStatus::from("Stopped".to_owned()), PlaybackStatus::Stopped);
    assert_eq!(PlaybackStatus::from("weird".to_owned()), PlaybackStatus::Playing);
}

#[test]
fn uses_theme_when_available() {
    let theme_calls = AtomicUsize::new(0);
    let default_calls = AtomicUsize::new(0);

    let expected = PathBuf::from("/tmp/themed.svg");

    let result = icon_path_with_theme_fallback(
        Some(String::from("test")),
        |_| {
            theme_calls.fetch_add(1, Ordering::Relaxed);
            Some(expected.clone())
        },
        || {
            default_calls.fetch_add(1, Ordering::Relaxed);
            Some(PathBuf::from("/tmp/default.svg"))
        },
    );

    assert_eq!(theme_calls.load(Ordering::Relaxed), 1);
    assert_eq!(default_calls.load(Ordering::Relaxed), 0);
    assert_eq!(result.as_deref(), Some(expected.as_path()));
}

#[test]
fn falls_back_to_default_when_theme_missing() {
    let theme_calls = AtomicUsize::new(0);
    let default_calls = AtomicUsize::new(0);

    let expected = PathBuf::from("/tmp/default.svg");

    let result = icon_path_with_theme_fallback(
        Some(String::from("test")),
        |_| {
            theme_calls.fetch_add(1, Ordering::Relaxed);
            None
        },
        || {
            default_calls.fetch_add(1, Ordering::Relaxed);
            Some(expected.clone())
        },
    );

    assert_eq!(theme_calls.load(Ordering::Relaxed), 1);
    assert_eq!(default_calls.load(Ordering::Relaxed), 1);
    assert_eq!(result.as_deref(), Some(expected.as_path()));
}

#[test]
fn no_theme_uses_default_lookup_only() {
    let theme_calls = AtomicUsize::new(0);
    let result = icon_path_with_theme_fallback(
        None,
        |_: &str| {
            theme_calls.fetch_add(1, Ordering::Relaxed);
            Some(1)
        },
        || Some(2),
    );
    assert_eq!(result, Some(2));
    assert_eq!(theme_calls.load(Ordering::Relaxed), 0);
}

#[test]
fn transition_sets_error_state() {
    let state = transition_to_error(TrayWatcherError::Connection("boom".to_owned()));
    assert!(matches!(state, WatcherState::Error));
}

#[test]
fn error_variants_have_context() {
    let error = TrayWatcherError::EventStream("failure".to_owned());
    let message = error.to_string();
    assert!(message.contains("failed to listen"));
}

#[test]
fn watcher_error_state_is_final() {
    assert_eq!(next_watcher_state(WatcherState::Init, true), WatcherState::Active);
    assert_eq!(next_watcher_state(WatcherState::Active, false), WatcherState::Error);
    assert_eq!(next_watcher_state(WatcherState::Error, true), WatcherState::Error);
}

#[test]
fn largest_pixmap_is_converted_to_rgba() {
    let pixmaps = vec![
        Icon { width: 16, height: 16, bytes: vec![1, 2, 3, 4] },
        Icon { width: 32, height: 8, bytes: vec![10, 20, 30, 40, 50, 60, 70, 80, 90] },
        Icon { width: 32, height: 8, bytes: vec![5, 6, 7, 8] },
        Icon { width: 24, height: 64, bytes: vec![] },
    ];
    match icon_from_pixmaps(pixmaps) {
        Some(TrayIcon::Image(img)) => {
            assert_eq!((img.width, img.height), (32, 8));
            assert_eq!(img.pixels, vec![6, 7, 8, 5]);
        }
        other => panic!("unexpected icon: {other:?}"),
    }
    let single = vec![Icon { width: 1, height: 1, bytes: vec![10, 20, 30, 40, 50, 60, 70, 80, 90] }];
    match icon_from_pixmaps(single) {
        Some(TrayIcon::Image(img)) => {
            assert_eq!(img.pixels, vec![20, 30, 40, 10, 60, 70, 80, 50, 90]);
        }
        other => panic!("unexpected icon: {other:?}"),
    }
    assert!(icon_from_pixmaps(vec![]).is_none());
}

fn item(name: &str, menu: u32) -> StatusNotifierItem<u32> {
    StatusNotifierItem { name: name.to_owned(), icon: None, menu }
}

#[test]
fn tray_events_update_items_by_name() {
    let mut tray = TrayService::new(TrayData(vec![item("a", 1), item("b", 2)]));
    tray.update(TrayEvent::Registered(item("c", 3)));
    tray.update(TrayEvent::Registered(item("a", 10)));
    tray.update(TrayEvent::MenuLayoutChanged("b".into(), 20));
    tray.update(TrayEvent::IconChanged("c".into(), TrayIcon::Svg("/i.svg".into())));
    let menus: Vec<u32> = tray.data.0.iter().map(|i| i.menu).collect();
    assert_eq!(menus, vec![10, 20, 3]);
    assert!(matches!(tray.data.0[2].icon, Some(TrayIcon::Svg(ref p)) if p == "/i.svg"));
    tray.update(TrayEvent::Registered(item("a", 11)));
    tray.update(TrayEvent::Unregistered("a".into()));
    let names: Vec<&str> = tray.data.0.iter().map(|i| i.name.as_str()).collect();
    assert_eq!(names, vec!["b", "c"]);
    let click = tray.prepare_command(TrayCommand::MenuSelected("c".into(), 7)).expect("item");
    assert_eq!((click.index, click.name.as_str(), click.id), (1, "c", 7));
    assert!(tray.prepare_command(TrayCommand::MenuSelected("zz".into(), 7)).is_none());
}

#[test]
fn registering_then_unregistering_a_new_item_restores_the_tray() {
    let mut tray = TrayService::new(TrayData(vec![item("a", 1), item("b", 2)]));
    tray.update(TrayEvent::Registered(item("new", 9)));
    assert_eq!(tray.data.0.len(), 3);
    tray.update(TrayEvent::Unregistered("new".into()));
    let names: Vec<(&str, u32)> = tray.data.0.iter().map(|i| (i.name.as_str(), i.menu)).collect();
    assert_eq!(names, vec![("a", 1), ("b", 2)]);
}

#[test]
fn battery_state_and_times_combine() {
    assert!(is_system_battery(2, true));
    assert!(!is_system_battery(2, false));
    assert!(!is_system_battery(1, true));
    assert_eq!(combined_state(&vec![Some(2), Some(1)]), 1);
    assert_eq!(combined_state(&vec![Some(2), None, Some(4)]), 2);
    assert_eq!(combined_state(&vec![None, Some(4)]), 4);
    assert_eq!(combined_state(&vec![]), 4);
    assert_eq!(total_time(&vec![Some(60), None, Some(30)]), 90);
    assert_eq!(total_time(&vec![]), 0);
}

#[test]
fn snippet_is_cut_at_character_boundary() {
    let short = "x".repeat(120);
    assert_eq!(truncate_snippet(&short), short);
    let long = "y".repeat(121);
    assert_eq!(truncate_snippet(&long), format!("{}…", "y".repeat(120)));
    // 119 ASCII bytes, then a 4-byte character starting at byte 119, then more.
    let wide = format!("{}😀z", "a".repeat(119));
    assert_eq!(truncate_snippet(&wide), format!("{}😀…", "a".repeat(119)));
    // A character that starts before byte 120 and ends after it, at the end.
    let tail = format!("{}😀", "a".repeat(118));
    assert_eq!(truncate_snippet(&tail), tail);
}

#[test]
fn listener_lines_and_exit() {
    let data = CustomListenData { alt: "on".into(), text: Some("hi".into()) };
    assert!(matches!(
        line_event("{}", Ok(data)),
        ServiceEvent::Update(ref d) if d.alt == "on"
    ));
    match line_event("garbage", Err("expected value".into())) {
        ServiceEvent::Error(CustomCommandError::Parse { snippet, error }) => {
            assert_eq!(snippet, "garbage");
            assert_eq!(error, "expected value");
        }
        other => panic!("unexpected event: {other:?}"),
    }
    assert!(listener_exit(true, Some(0)).is_ok());
    let err = listener_exit(false, Some(3)).unwrap_err();
    assert_eq!(err.to_display_message(), "Listener exited with status 3");
    assert_eq!(
        err.to_string(),
        "custom module process exited unsuccessfully (Some(3))"
    );
    assert_eq!(
        listener_exit(false, None).unwrap_err().to_display_message(),
        "Listener exited due to signal"
    );
}

fn custom_def(icons: Option<Vec<(RegexCfg, String)>>, alert: Option<RegexCfg>) -> CustomModuleDef {
    CustomModuleDef {
        name: "mod".into(),
        command: "cmd".into(),
        icon: Some("D".into()),
        listen_cmd: None,
        icons,
        alert,
    }
}

#[test]
fn custom_module_display_picks_icon_alert_and_text() {
    let icons = vec![
        (RegexCfg::new("^bat").expect("re"), "B".to_owned()),
        (RegexCfg::new("low$").expect("re"), "L".to_owned()),
    ];
    let config = custom_def(Some(icons), Some(RegexCfg::new("low").expect("re")));
    let mut module = Custom::default();
    module.update(Message::Event(ServiceEvent::<CustomCommandService>::Update(
        CustomListenData { alt: "battery-low".into(), text: Some("12%".into()) },
    )));
    let shown = module.display(&config);
    assert!(matches!(shown.icon, IconChoice::Text(ref t) if t == "B"));
    assert!(shown.alert);
    assert_eq!(shown.text.as_deref(), Some("12%"));

    module.update(Message::Event(ServiceEvent::Error(CustomCommandError::ChannelClosed)));
    let shown = module.display(&custom_def(None, None));
    assert!(matches!(shown.icon, IconChoice::Text(ref t) if t == "D"));
    assert!(shown.alert);
    assert_eq!(shown.text.as_deref(), Some("Listener updates queue closed"));

    module.update(Message::Event(ServiceEvent::Update(CustomListenData {
        alt: "x".into(),
        text: Some(String::new()),
    })));
    let mut config = custom_def(None, None);
    config.icon = None;
    let shown = module.display(&config);
    assert!(matches!(shown.icon, IconChoice::Named(Icons::Blank)));
    assert!(!shown.alert);
    assert!(shown.text.is_none());
}
