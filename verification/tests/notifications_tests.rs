use std::time::SystemTime;

use hydebar::notifications::{
    MAX_NOTIFICATIONS, Notification, NotificationStorage, NotificationsServer, Urgency,
};

fn notification(app: &str, summary: &str, urgency: Urgency) -> Notification {
    Notification {
        id: 0,
        app_name: app.to_string(),
        icon: String::new(),
        summary: summary.to_string(),
        body: String::new(),
        urgency,
        timestamp: SystemTime::now(),
        actions: vec![],
    }
}

#[test]
fn storage_max_capacity() {
    let mut storage = NotificationStorage::default();

    for i in 0..MAX_NOTIFICATIONS + 10 {
        let notif = Notification {
            id: 0,
            app_name: format!("app{}", i),
            icon: String::new(),
            summary: format!("Summary {}", i),
            body: String::new(),
            urgency: Urgency::Normal,
            timestamp: SystemTime::now(),
            actions: vec![],
        };
        storage.add(notif);
    }

    assert_eq!(storage.get_all().len(), MAX_NOTIFICATIONS);
}

#[test]
fn dnd_blocks_normal_notifications() {
    let mut storage = NotificationStorage::default();
    storage.set_dnd(true);

    assert!(!storage.should_show(&Urgency::Normal));
    assert!(!storage.should_show(&Urgency::Low));
    assert!(storage.should_show(&Urgency::Critical));
}

#[test]
fn remove_notification_by_id() {
    let mut storage = NotificationStorage::default();
    let notif = Notification {
        id: 0,
        app_name: "test".to_string(),
        icon: String::new(),
        summary: "Test".to_string(),
        body: String::new(),
        urgency: Urgency::Normal,
        timestamp: SystemTime::now(),
        actions: vec![],
    };

    let id = storage.add(notif);
    assert_eq!(storage.unread_count(), 1);

    storage.remove(id);
    assert_eq!(storage.unread_count(), 0);
}

#[test]
fn clear_all_notifications() {
    let mut storage = NotificationStorage::default();

    for i in 0..5 {
        let notif = Notification {
            id: 0,
            app_name: format!("app{}", i),
            icon: String::new(),
            summary: format!("Summary {}", i),
            body: String::new(),
            urgency: Urgency::Normal,
            timestamp: SystemTime::now(),
            actions: vec![],
        };
        storage.add(notif);
    }

    assert_eq!(storage.unread_count(), 5);
    storage.clear();
    assert_eq!(storage.unread_count(), 0);
}

#[test]
fn storage_keeps_newest_first_and_drops_oldest() {
    let mut storage = NotificationStorage::default();
    for i in 0..MAX_NOTIFICATIONS + 1 {
        storage.add(notification(&format!("app{i}"), "s", Urgency::Normal));
    }
    let all = storage.get_all();
    assert_eq!(all[0].app_name, format!("app{}", MAX_NOTIFICATIONS));
    assert_eq!(all[MAX_NOTIFICATIONS - 1].app_name, "app1");
}

#[test]
fn ids_are_assigned_in_sequence() {
    let mut storage = NotificationStorage::default();
    let a = storage.add(notification("a", "s", Urgency::Low));
    let b = storage.add(notification("b", "s", Urgency::Low));
    assert_eq!(b, a + 1);
    assert_eq!(storage.get_all()[0].id, b);
}

#[test]
fn remove_then_add_restores_count() {
    let mut storage = NotificationStorage::default();
    let id = storage.add(notification("a", "s", Urgency::Normal));
    let removed = storage.remove(id).expect("present");
    assert_eq!(removed.app_name, "a");
    assert!(storage.remove(id).is_none());
    assert_eq!(storage.unread_count(), 0);
}

#[test]
fn urgency_from_hint_byte() {
    assert_eq!(Urgency::from(0u8), Urgency::Low);
    assert_eq!(Urgency::from(1u8), Urgency::Normal);
    assert_eq!(Urgency::from(2u8), Urgency::Critical);
    assert_eq!(Urgency::from(9u8), Urgency::Normal);
}

#[test]
fn server_notify_respects_dnd_and_sounds() {
    let mut server = NotificationsServer::new(NotificationStorage::default());
    let first = server.notify(
        "app".into(),
        0,
        String::new(),
        "summary".into(),
        "body".into(),
        vec![],
        Some(2),
        -1,
        SystemTime::now(),
    );
    assert_eq!(server.storage().unread_count(), 1);
    assert_eq!(server.storage().get_all()[0].id, first.id);
    assert_eq!(
        first.sound,
        Some(NotificationsServer::notification_sound(&Urgency::Critical))
    );
    let caps = server.get_capabilities();
    assert!(!caps.is_empty());
}
