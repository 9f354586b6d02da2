use meetily::notifications::{
    notif_strings, Notification, NotificationAction, NotificationActionType, NotificationPriority,
    NotificationTimeout, NotificationType,
};

fn plain(n: &Notification) -> bool {
    n.id.is_none() && n.icon.is_none() && n.sound && n.actions.is_empty()
}

#[test]
fn new_notification_defaults() {
    let n = Notification::new("T".to_string(), "B".to_string(), NotificationType::Test);
    assert_eq!(n.title, "T");
    assert_eq!(n.body, "B");
    assert!(matches!(n.notification_type, NotificationType::Test));
    assert!(matches!(n.priority, NotificationPriority::Normal));
    assert!(matches!(n.timeout, NotificationTimeout::Default));
    assert!(plain(&n));
    assert!(matches!(NotificationPriority::default(), NotificationPriority::Normal));
    assert!(matches!(NotificationTimeout::default(), NotificationTimeout::Default));
}

#[test]
fn builder_sets_one_field_each() {
    let n = Notification::new("T".to_string(), "B".to_string(), NotificationType::RecordingPaused)
        .with_priority(NotificationPriority::Low)
        .with_timeout(NotificationTimeout::Seconds(7))
        .with_sound(false)
        .with_icon("icon.png".to_string())
        .with_id("n-1".to_string())
        .add_action(NotificationAction {
            id: "open".to_string(),
            title: "Open".to_string(),
            action_type: NotificationActionType::Button,
        })
        .add_action(NotificationAction {
            id: "reply".to_string(),
            title: "Reply".to_string(),
            action_type: NotificationActionType::Reply,
        });
    assert!(matches!(n.priority, NotificationPriority::Low));
    assert!(matches!(n.timeout, NotificationTimeout::Seconds(7)));
    assert!(!n.sound);
    assert_eq!(n.icon.as_deref(), Some("icon.png"));
    assert_eq!(n.id.as_deref(), Some("n-1"));
    assert_eq!(n.actions.len(), 2);
    assert_eq!(n.actions[0].id, "open");
    assert_eq!(n.actions[1].id, "reply");
    assert_eq!(n.title, "T");
    assert_eq!(n.body, "B");
}

#[test]
fn recording_started_named_and_generic() {
    let n = Notification::recording_started("en", Some("Weekly sync".to_string()));
    assert_eq!(n.title, "Meetily");
    assert_eq!(n.body, "Recording started for meeting: Weekly sync");
    assert!(matches!(n.notification_type, NotificationType::RecordingStarted));
    assert!(matches!(n.priority, NotificationPriority::High));
    assert!(matches!(n.timeout, NotificationTimeout::Seconds(5)));
    assert!(plain(&n));

    let g = Notification::recording_started("en", None);
    assert_eq!(
        g.body,
        "Recording has started. Please inform others in the meeting that you are recording."
    );

    let ar = Notification::recording_started("ar", Some("مراجعة".to_string()));
    assert_eq!(ar.body, "بدأ تسجيل الاجتماع: مراجعة");
    assert_eq!(ar.title, "Meetily");
}

#[test]
fn placeholder_in_value_is_not_replaced_again() {
    let n = Notification::recording_started("en", Some("{}".to_string()));
    assert_eq!(n.body, "Recording started for meeting: {}");
}

#[test]
fn recording_state_changes() {
    let s = Notification::recording_stopped("en");
    assert_eq!(s.body, "Recording has been stopped and saved");
    assert!(matches!(s.timeout, NotificationTimeout::Seconds(3)));
    assert!(matches!(s.priority, NotificationPriority::Normal));
    let p = Notification::recording_paused("ar");
    assert_eq!(p.body, "تم إيقاف التسجيل مؤقتا");
    assert!(matches!(p.notification_type, NotificationType::RecordingPaused));
    let r = Notification::recording_resumed("fr");
    assert_eq!(r.body, "Recording has been resumed");
    assert!(matches!(r.notification_type, NotificationType::RecordingResumed));
}

#[test]
fn transcription_complete_texts() {
    let n = Notification::transcription_complete("en", Some("/tmp/a.txt".to_string()));
    assert_eq!(n.body, "Transcription completed and saved to: /tmp/a.txt");
    assert!(matches!(n.timeout, NotificationTimeout::Seconds(5)));
    let g = Notification::transcription_complete("ar", None);
    assert_eq!(g.body, "اكتمل النسخ");
}

#[test]
fn meeting_reminder_texts() {
    let n = Notification::meeting_reminder("en", 15, Some("Planning".to_string()));
    assert_eq!(n.body, "Meeting 'Planning' starts in 15 minutes");
    assert!(matches!(n.notification_type, NotificationType::MeetingReminder(15)));
    assert!(matches!(n.priority, NotificationPriority::High));
    assert!(matches!(n.timeout, NotificationTimeout::Seconds(10)));
    let g = Notification::meeting_reminder("en", 0, None);
    assert_eq!(g.body, "Meeting starts in 0 minutes");
    let big = Notification::meeting_reminder("en", u64::MAX, None);
    assert_eq!(big.body, "Meeting starts in 18446744073709551615 minutes");
    let ar = Notification::meeting_reminder("ar", 5, Some("التخطيط".to_string()));
    assert_eq!(ar.body, "يبدأ اجتماع 'التخطيط' خلال 5 دقائق");
    // a title that holds the placeholder takes only the first slot
    let odd = Notification::meeting_reminder("en", 3, Some("{}".to_string()));
    assert_eq!(odd.body, "Meeting '3' starts in {} minutes");
}

#[test]
fn system_error_texts() {
    let n = Notification::system_error("en", "disk full".to_string());
    assert_eq!(n.title, "Meetily Error");
    assert_eq!(n.body, "disk full");
    match &n.notification_type {
        NotificationType::SystemError(e) => assert_eq!(e, "disk full"),
        _ => panic!("wrong type"),
    }
    assert!(matches!(n.priority, NotificationPriority::Critical));
    assert!(matches!(n.timeout, NotificationTimeout::Never));
    let ar = Notification::system_error("ar", "x".to_string());
    assert_eq!(ar.title, "خطأ في Meetily");
}

#[test]
fn test_notification_texts() {
    let n = Notification::test_notification("en");
    assert_eq!(
        n.body,
        "This is a test notification from Meetily. If you can see this, notifications are working correctly!"
    );
    assert!(matches!(n.notification_type, NotificationType::Test));
    assert!(matches!(n.timeout, NotificationTimeout::Seconds(5)));
}

// Any UI locale other than Arabic gets the English texts.
#[test]
fn non_arabic_locale_uses_english() {
    for locale in ["fr", "", "AR", "en-US"] {
        let s = notif_strings(locale);
        let e = notif_strings("en");
        assert_eq!(s.recording_started_named, e.recording_started_named);
        assert_eq!(s.test_notification, e.test_notification);
        assert_eq!(s.app_name_error, "Meetily Error");
    }
    assert_eq!(notif_strings("ar").app_name_error, "خطأ في Meetily");
}
