use hydebar::icons::Icons;
use hydebar::privacy::{Privacy, PrivacyMessage};
use hydebar::privacy::{PrivacyLoopAction, PrivacyLoopEvent, PrivacyLoopState, privacy_step};
use hydebar::services::ServiceEvent;
use hydebar::privacy::{
    ApplicationNode, Media, PrivacyData, PrivacyError, PrivacyEvent, PrivacyService,
    count_device_users, listener_closed, media_from_class, node_added_event,
    webcam_event_from_mask, webcam_fallback, IN_OPEN,
};

#[test]
fn device_users_are_counted_from_descriptor_links() {
    let links = vec![
        "/dev/video0".to_owned(),
        "/dev/null".to_owned(),
        "/dev/video0".to_owned(),
        "socket:[123]".to_owned(),
    ];
    assert_eq!(count_device_users(&links, "/dev/video0"), 2);
    assert_eq!(count_device_users(&links, "/dev/video1"), 0);
    assert_eq!(count_device_users(&vec![], "/dev/video0"), 0);
}

#[test]
fn device_users_are_matched_as_paths() {
    let links = vec![
        "/dev//video0".to_owned(),
        "/dev/video0/".to_owned(),
        "/dev/./video0".to_owned(),
        "dev/video0".to_owned(),
        "/dev/../dev/video0".to_owned(),
        "/dev/video00".to_owned(),
    ];
    assert_eq!(count_device_users(&links, "/dev/video0"), 3);
}

#[test]
fn device_path_matching_agrees_with_std_paths() {
    let paths = [
        "/dev/video0", "/dev//video0", "/dev/video0/", "/dev/./video0", "dev/video0",
        "./dev/video0", "dev/./video0", ".", "./", "", "/", "//", "/.", "..", "../a", "a/..",
        ".a", "./.", "a//b/", "a/b", "/a/b/.", "/a/.b",
    ];
    for a in paths.iter() {
        for b in paths.iter() {
            let expected = if std::path::Path::new(a) == std::path::Path::new(b) { 1 } else { 0 };
            assert_eq!(
                count_device_users(&vec![a.to_string()], b),
                expected,
                "{a:?} vs {b:?}"
            );
        }
    }
}

#[test]
fn missing_webcam_is_tolerated_at_start() {
    assert!(webcam_fallback(PrivacyError::WebcamUnavailable).is_ok());
    let err = PrivacyError::InotifyWatch { context: "denied".into() };
    assert_eq!(webcam_fallback(err.clone()), Err(err));
    assert_eq!(
        listener_closed(true),
        PrivacyError::Channel { context: "pipewire listener closed unexpectedly".into() }
    );
    assert_eq!(
        listener_closed(false).to_string(),
        PrivacyError::Channel { context: "webcam listener closed unexpectedly".into() }.to_string()
    );
}

#[test]
fn privacy_events_update_the_indicators() {
    let mut service = PrivacyService::new(PrivacyData::new(0));
    assert!(service.data().no_access());
    service.apply(node_added_event(7, "Stream/Input/Audio").expect("audio node"));
    assert!(service.data().microphone_access());
    assert!(!service.data().screenshare_access());
    service.apply(PrivacyEvent::AddNode(ApplicationNode { id: 8, media: Media::Video }));
    assert!(service.data().screenshare_access());
    service.apply(PrivacyEvent::RemoveNode(7));
    assert!(!service.data().microphone_access());
    service.apply(webcam_event_from_mask(IN_OPEN).expect("open event"));
    assert!(service.data().webcam_access());
    service.apply(PrivacyEvent::WebcamClose);
    service.apply(PrivacyEvent::WebcamClose);
    assert!(!service.data().webcam_access());
    service.apply(PrivacyEvent::RemoveNode(8));
    assert!(service.data().no_access());
    assert_eq!(media_from_class("Stream/Input/Video"), Some(Media::Video));
    assert_eq!(media_from_class("Audio/Sink"), None);
}

#[test]
fn privacy_module_shows_indicators_in_order() {
    let mut module = Privacy::default();
    assert!(module.indicators().is_none());
    module.update(PrivacyMessage::Event(ServiceEvent::Init(PrivacyService::new(PrivacyData::new(0)))));
    assert!(module.indicators().is_none());
    module.update(PrivacyMessage::Event(ServiceEvent::Update(PrivacyEvent::AddNode(
        ApplicationNode { id: 1, media: Media::Audio },
    ))));
    module.update(PrivacyMessage::Event(ServiceEvent::Update(PrivacyEvent::WebcamOpen)));
    module.update(PrivacyMessage::Event(ServiceEvent::Update(PrivacyEvent::AddNode(
        ApplicationNode { id: 2, media: Media::Video },
    ))));
    assert_eq!(
        module.indicators(),
        Some(vec![Icons::ScreenShare, Icons::Webcam, Icons::Mic1])
    );
}

#[test]
fn privacy_loop_runs_without_a_missing_webcam() {
    let (s, a) = privacy_step(PrivacyLoopState::Init, PrivacyLoopEvent::Tick);
    assert_eq!((s, a), (PrivacyLoopState::SubscribingPipewire, PrivacyLoopAction::SubscribePipewire));
    let (s, a) = privacy_step(s, PrivacyLoopEvent::Subscribed(Ok(())));
    assert_eq!((s, a), (PrivacyLoopState::SubscribingWebcam, PrivacyLoopAction::SubscribeWebcam));
    let (s, a) = privacy_step(s, PrivacyLoopEvent::Subscribed(Err(PrivacyError::WebcamUnavailable)));
    assert_eq!((s, a), (PrivacyLoopState::PublishingInit { webcam: false }, PrivacyLoopAction::PublishInit));
    let (s, a) = privacy_step(s, PrivacyLoopEvent::Sent(Ok(())));
    assert_eq!((s, a), (PrivacyLoopState::Active { webcam: false }, PrivacyLoopAction::Continue));
    let (s, a) = privacy_step(s, PrivacyLoopEvent::Tick);
    assert_eq!(a, PrivacyLoopAction::Listen { webcam: false });
    let (s, a) = privacy_step(
        s,
        PrivacyLoopEvent::Received { pipewire: true, event: Some(PrivacyEvent::RemoveNode(4)) },
    );
    assert_eq!(a, PrivacyLoopAction::PublishUpdate(PrivacyEvent::RemoveNode(4)));
    let (s, a) = privacy_step(s, PrivacyLoopEvent::Sent(Ok(())));
    assert_eq!((s, a), (PrivacyLoopState::Active { webcam: false }, PrivacyLoopAction::Continue));
    let (s, _) = privacy_step(s, PrivacyLoopEvent::Tick);
    let (s, a) = privacy_step(s, PrivacyLoopEvent::Received { pipewire: true, event: None });
    assert_eq!(
        a,
        PrivacyLoopAction::PublishError(PrivacyError::Channel {
            context: "pipewire listener closed unexpectedly".into()
        })
    );
    let (s, a) = privacy_step(s, PrivacyLoopEvent::Sent(Ok(())));
    assert_eq!((s, a), (PrivacyLoopState::Init, PrivacyLoopAction::Continue));
}

#[test]
fn privacy_loop_errors_and_stops_when_errors_cannot_be_sent() {
    let err = PrivacyError::InotifyWatch { context: "denied".into() };
    let (s, a) = privacy_step(
        PrivacyLoopState::SubscribingWebcam,
        PrivacyLoopEvent::Subscribed(Err(err.clone())),
    );
    assert_eq!((s, a), (PrivacyLoopState::PublishingError, PrivacyLoopAction::PublishError(err.clone())));
    let (s, a) = privacy_step(s, PrivacyLoopEvent::Sent(Err(err.clone())));
    assert_eq!((s, a), (PrivacyLoopState::Stopped, PrivacyLoopAction::Stop));
    let (s, a) = privacy_step(s, PrivacyLoopEvent::Tick);
    assert_eq!((s, a), (PrivacyLoopState::Stopped, PrivacyLoopAction::Continue));
    let (s, a) = privacy_step(
        PrivacyLoopState::Listening { webcam: true },
        PrivacyLoopEvent::Received { pipewire: false, event: None },
    );
    assert_eq!(s, PrivacyLoopState::PublishingError);
    assert_eq!(
        a,
        PrivacyLoopAction::PublishError(PrivacyError::Channel {
            context: "webcam listener closed unexpectedly".into()
        })
    );
}
