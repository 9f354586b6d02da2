//! Desktop notifications: their data model, a builder, and the localized
//! notifications the application raises (English, with an Arabic variant).

use vstd::prelude::*;
use crate::text::{decimal, replace, replace_all, replace_first, replacen, str_equal, u64_to_string};

verus! {

/// The user-facing texts of the notifications in one language. A `{}` in a
/// text marks where a value is put in.
pub struct NotificationStrings {
    pub app_name: &'static str,
    pub app_name_error: &'static str,
    pub recording_started_named: &'static str,
    pub recording_started_generic: &'static str,
    pub recording_stopped: &'static str,
    pub recording_paused: &'static str,
    pub recording_resumed: &'static str,
    pub transcription_complete_named: &'static str,
    pub transcription_complete_generic: &'static str,
    pub meeting_reminder_named: &'static str,
    pub meeting_reminder_generic: &'static str,
    pub test_notification: &'static str,
}

/// The English texts.
pub open spec fn english_strings() -> NotificationStrings {
    NotificationStrings {
        app_name: "Meetily",
        app_name_error: "Meetily Error",
        recording_started_named: "Recording started for meeting: {}",
        recording_started_generic: "Recording has started. Please inform others in the meeting that you are recording.",
        recording_stopped: "Recording has been stopped and saved",
        recording_paused: "Recording has been paused",
        recording_resumed: "Recording has been resumed",
        transcription_complete_named: "Transcription completed and saved to: {}",
        transcription_complete_generic: "Transcription has been completed",
        meeting_reminder_named: "Meeting '{}' starts in {} minutes",
        meeting_reminder_generic: "Meeting starts in {} minutes",
        test_notification: "This is a test notification from Meetily. If you can see this, notifications are working correctly!",
    }
}

/// The Arabic texts.
pub open spec fn arabic_strings() -> NotificationStrings {
    NotificationStrings {
        app_name: "Meetily",
        app_name_error: "خطأ في Meetily",
        recording_started_named: "بدأ تسجيل الاجتماع: {}",
        recording_started_generic: "بدأ التسجيل. يرجى إبلاغ المشاركين بأن هذا الاجتماع يتم تسجيله.",
        recording_stopped: "تم إيقاف التسجيل وحفظه",
        recording_paused: "تم إيقاف التسجيل مؤقتا",
        recording_resumed: "تم استئناف التسجيل",
        transcription_complete_named: "اكتمل النسخ وتم حفظه في: {}",
        transcription_complete_generic: "اكتمل النسخ",
        meeting_reminder_named: "يبدأ اجتماع '{}' خلال {} دقائق",
        meeting_reminder_generic: "يبدأ الاجتماع خلال {} دقائق",
        test_notification: "هذا إشعار تجريبي من Meetily. إذا كنت ترى هذا، فالإشعارات تعمل بشكل صحيح!",
    }
}

/// The texts for a UI locale: Arabic for `"ar"`, English for any other.
pub open spec fn strings_for(locale: Seq<char>) -> NotificationStrings {
    if locale == "ar"@ {
        arabic_strings()
    } else {
        english_strings()
    }
}

/// The texts for a UI locale: Arabic for `"ar"`, English for any other.
pub fn notif_strings(locale: &str) -> (s: NotificationStrings)
    ensures
        s == strings_for(locale@),
{
    if str_equal(locale, "ar") {
        NotificationStrings {
            app_name: "Meetily",
            app_name_error: "خطأ في Meetily",
            recording_started_named: "بدأ تسجيل الاجتماع: {}",
            recording_started_generic: "بدأ التسجيل. يرجى إبلاغ المشاركين بأن هذا الاجتماع يتم تسجيله.",
            recording_stopped: "تم إيقاف التسجيل وحفظه",
            recording_paused: "تم إيقاف التسجيل مؤقتا",
            recording_resumed: "تم استئناف التسجيل",
            transcription_complete_named: "اكتمل النسخ وتم حفظه في: {}",
            transcription_complete_generic: "اكتمل النسخ",
            meeting_reminder_named: "يبدأ اجتماع '{}' خلال {} دقائق",
            meeting_reminder_generic: "يبدأ الاجتماع خلال {} دقائق",
            test_notification: "هذا إشعار تجريبي من Meetily. إذا كنت ترى هذا، فالإشعارات تعمل بشكل صحيح!",
        }
    } else {
        NotificationStrings {
            app_name: "Meetily",
            app_name_error: "Meetily Error",
            recording_started_named: "Recording started for meeting: {}",
            recording_started_generic: "Recording has started. Please inform others in the meeting that you are recording.",
            recording_stopped: "Recording has been stopped and saved",
            recording_paused: "Recording has been paused",
            recording_resumed: "Recording has been resumed",
            transcription_complete_named: "Transcription completed and saved to: {}",
            transcription_complete_generic: "Transcription has been completed",
            meeting_reminder_named: "Meeting '{}' starts in {} minutes",
            meeting_reminder_generic: "Meeting starts in {} minutes",
            test_notification: "This is a test notification from Meetily. If you can see this, notifications are working correctly!",
        }
    }
}


/// A notification shown to the user.
#[derive(Debug, Clone)]
pub struct Notification {
    pub id: Option<String>,
    pub title: String,
    pub body: String,
    pub notification_type: NotificationType,
    pub priority: NotificationPriority,
    pub timeout: NotificationTimeout,
    pub icon: Option<String>,
    pub sound: bool,
    pub actions: Vec<NotificationAction>,
}

/// What a notification is about.
#[derive(Debug, Clone)]
pub enum NotificationType {
    RecordingStarted,
    RecordingStopped,
    RecordingPaused,
    RecordingResumed,
    TranscriptionComplete,
    /// Minutes until the meeting starts.
    MeetingReminder(u64),
    SystemError(String),
    /// Raised to check that notifications work.
    Test,
}

#[derive(Debug, Clone)]
pub enum NotificationPriority {
    Low,
    Normal,
    High,
    Critical,
}

/// How long a notification stays on screen.
#[derive(Debug, Clone)]
pub enum NotificationTimeout {
    Never,
    Seconds(u64),
    /// The platform's own default.
    Default,
}

/// A button or reply field offered with a notification.
#[derive(Debug, Clone)]
pub struct NotificationAction {
    pub id: String,
    pub title: String,
    pub action_type: NotificationActionType,
}

#[derive(Debug, Clone)]
pub enum NotificationActionType {
    Button,
    Reply,
}

impl Default for NotificationPriority {
    fn default() -> (p: Self)
        ensures
            p == NotificationPriority::Normal,
    {
        NotificationPriority::Normal
    }
}

impl Default for NotificationTimeout {
    fn default() -> (t: Self)
        ensures
            t == NotificationTimeout::Default,
    {
        NotificationTimeout::Default
    }
}

impl Notification {
    /// The fields that a fresh notification starts with and that the
    /// predefined notifications keep: no id, no icon, sound on, no actions.
    pub open spec fn has_plain_extras(self) -> bool {
        &&& self.id is None
        &&& self.icon is None
        &&& self.sound
        &&& self.actions@.len() == 0
    }

    /// A notification with normal priority, the platform's default timeout,
    /// sound on, and no id, icon or actions.
    pub fn new(title: String, body: String, notification_type: NotificationType) -> (n: Self)
        ensures
            n.title == title,
            n.body == body,
            n.notification_type == notification_type,
            n.priority == NotificationPriority::Normal,
            n.timeout == NotificationTimeout::Default,
            n.has_plain_extras(),
    {
        Notification {
            id: None,
            title,
            body,
            notification_type,
            priority: NotificationPriority::Normal,
            timeout: NotificationTimeout::Default,
            icon: None,
            sound: true,
            actions: Vec::new(),
        }
    }

    pub fn with_priority(self, priority: NotificationPriority) -> (n: Self)
        ensures
            n == (Notification { priority, ..self }),
    {
        let mut n = self;
        n.priority = priority;
        n
    }

    pub fn with_timeout(self, timeout: NotificationTimeout) -> (n: Self)
        ensures
            n == (Notification { timeout, ..self }),
    {
        let mut n = self;
        n.timeout = timeout;
        n
    }

    pub fn with_sound(self, sound: bool) -> (n: Self)
        ensures
            n == (Notification { sound, ..self }),
    {
        let mut n = self;
        n.sound = sound;
        n
    }

    pub fn with_icon(self, icon: String) -> (n: Self)
        ensures
            n == (Notification { icon: Some(icon), ..self }),
    {
        let mut n = self;
        n.icon = Some(icon);
        n
    }

    pub fn with_id(self, id: String) -> (n: Self)
        ensures
            n == (Notification { id: Some(id), ..self }),
    {
        let mut n = self;
        n.id = Some(id);
        n
    }

    /// Appends `action` after the actions already there.
    pub fn add_action(self, action: NotificationAction) -> (n: Self)
        ensures
            n.actions@ == self.actions@.push(action),
            n == (Notification { actions: n.actions, ..self }),
    {
        let mut n = self;
        n.actions.push(action);
        n
    }

    /// "Recording started", naming the meeting when one is given. Texts are
    /// those of `locale`.
    pub fn recording_started(locale: &str, meeting_name: Option<String>) -> (n: Self)
        ensures
            n.title@ == strings_for(locale@).app_name@,
            n.title@ == (if locale@ == "ar"@ { "Meetily"@ } else { "Meetily"@ }),
            n.body@ == match meeting_name { Some(name) => replace_all((if locale@ == "ar"@ { "بدأ تسجيل الاجتماع: {}"@ } else { "Recording started for meeting: {}"@ }), "{}"@, name@), None => (if locale@ == "ar"@ { "بدأ التسجيل. يرجى إبلاغ المشاركين بأن هذا الاجتماع يتم تسجيله."@ } else { "Recording has started. Please inform others in the meeting that you are recording."@ }) },
            n.body@ == match meeting_name {
                Some(name) => replace_all(strings_for(locale@).recording_started_named@, "{}"@, name@),
                None => strings_for(locale@).recording_started_generic@,
            },
            n.notification_type == NotificationType::RecordingStarted,
            n.priority == NotificationPriority::High,
            n.timeout == NotificationTimeout::Seconds(5),
            n.has_plain_extras(),
    {
        let s = notif_strings(locale);
        proof {
            reveal_strlit("{}");
        }
        let body = match meeting_name {
            Some(name) => replace(s.recording_started_named, "{}", name.as_str()),
            None => s.recording_started_generic.to_string(),
        };
        Notification::new(s.app_name.to_string(), body, NotificationType::RecordingStarted)
            .with_priority(NotificationPriority::High)
            .with_timeout(NotificationTimeout::Seconds(5))
    }

    /// "Recording stopped and saved", in the texts of `locale`.
    pub fn recording_stopped(locale: &str) -> (n: Self)
        ensures
            n.title@ == strings_for(locale@).app_name@,
            n.title@ == (if locale@ == "ar"@ { "Meetily"@ } else { "Meetily"@ }),
            n.body@ == (if locale@ == "ar"@ { "تم إيقاف التسجيل وحفظه"@ } else { "Recording has been stopped and saved"@ }),
            n.body@ == strings_for(locale@).recording_stopped@,
            n.notification_type == NotificationType::RecordingStopped,
            n.priority == NotificationPriority::Normal,
            n.timeout == NotificationTimeout::Seconds(3),
            n.has_plain_extras(),
    {
        let s = notif_strings(locale);
        Notification::new(
            s.app_name.to_string(),
            s.recording_stopped.to_string(),
            NotificationType::RecordingStopped,
        ).with_priority(NotificationPriority::Normal).with_timeout(NotificationTimeout::Seconds(3))
    }

    /// "Recording paused", in the texts of `locale`.
    pub fn recording_paused(locale: &str) -> (n: Self)
        ensures
            n.title@ == strings_for(locale@).app_name@,
            n.title@ == (if locale@ == "ar"@ { "Meetily"@ } else { "Meetily"@ }),
            n.body@ == (if locale@ == "ar"@ { "تم إيقاف التسجيل مؤقتا"@ } else { "Recording has been paused"@ }),
            n.body@ == strings_for(locale@).recording_paused@,
            n.notification_type == NotificationType::RecordingPaused,
            n.priority == NotificationPriority::Normal,
            n.timeout == NotificationTimeout::Seconds(3),
            n.has_plain_extras(),
    {
        let s = notif_strings(locale);
        Notification::new(
            s.app_name.to_string(),
            s.recording_paused.to_string(),
            NotificationType::RecordingPaused,
        ).with_priority(NotificationPriority::Normal).with_timeout(NotificationTimeout::Seconds(3))
    }

    /// "Recording resumed", in the texts of `locale`.
    pub fn recording_resumed(locale: &str) -> (n: Self)
        ensures
            n.title@ == strings_for(locale@).app_name@,
            n.title@ == (if locale@ == "ar"@ { "Meetily"@ } else { "Meetily"@ }),
            n.body@ == (if locale@ == "ar"@ { "تم استئناف التسجيل"@ } else { "Recording has been resumed"@ }),
            n.body@ == strings_for(locale@).recording_resumed@,
            n.notification_type == NotificationType::RecordingResumed,
            n.priority == NotificationPriority::Normal,
            n.timeout == NotificationTimeout::Seconds(3),
            n.has_plain_extras(),
    {
        let s = notif_strings(locale);
        Notification::new(
            s.app_name.to_string(),
            s.recording_resumed.to_string(),
            NotificationType::RecordingResumed,
        ).with_priority(NotificationPriority::Normal).with_timeout(NotificationTimeout::Seconds(3))
    }

    /// "Transcription complete", naming the saved file when one is given.
    pub fn transcription_complete(locale: &str, file_path: Option<String>) -> (n: Self)
        ensures
            n.title@ == strings_for(locale@).app_name@,
            n.title@ == (if locale@ == "ar"@ { "Meetily"@ } else { "Meetily"@ }),
            n.body@ == match file_path { Some(path) => replace_all((if locale@ == "ar"@ { "اكتمل النسخ وتم حفظه في: {}"@ } else { "Transcription completed and saved to: {}"@ }), "{}"@, path@), None => (if locale@ == "ar"@ { "اكتمل النسخ"@ } else { "Transcription has been completed"@ }) },
            n.body@ == match file_path {
                Some(path) => replace_all(strings_for(locale@).transcription_complete_named@, "{}"@, path@),
                None => strings_for(locale@).transcription_complete_generic@,
            },
            n.notification_type == NotificationType::TranscriptionComplete,
            n.priority == NotificationPriority::Normal,
            n.timeout == NotificationTimeout::Seconds(5),
            n.has_plain_extras(),
    {
        let s = notif_strings(locale);
        proof {
            reveal_strlit("{}");
        }
        let body = match file_path {
            Some(path) => replace(s.transcription_complete_named, "{}", path.as_str()),
            None => s.transcription_complete_generic.to_string(),
        };
        Notification::new(s.app_name.to_string(), body, NotificationType::TranscriptionComplete)
            .with_priority(NotificationPriority::Normal)
            .with_timeout(NotificationTimeout::Seconds(5))
    }

    /// "Meeting starts in N minutes", naming the meeting when a title is
    /// given: the first `{}` of the named text takes the title, the next one
    /// the minutes.
    pub fn meeting_reminder(locale: &str, minutes_until: u64, meeting_title: Option<String>) -> (n: Self)
        ensures
            n.title@ == strings_for(locale@).app_name@,
            n.title@ == (if locale@ == "ar"@ { "Meetily"@ } else { "Meetily"@ }),
            n.body@ == match meeting_title { Some(title) => replace_first(replace_first((if locale@ == "ar"@ { "يبدأ اجتماع '{}' خلال {} دقائق"@ } else { "Meeting '{}' starts in {} minutes"@ }), "{}"@, title@, 1), "{}"@, decimal(minutes_until as nat), 1), None => replace_all((if locale@ == "ar"@ { "يبدأ الاجتماع خلال {} دقائق"@ } else { "Meeting starts in {} minutes"@ }), "{}"@, decimal(minutes_until as nat)) },
            n.body@ == match meeting_title {
                Some(title) => replace_first(
                    replace_first(strings_for(locale@).meeting_reminder_named@, "{}"@, title@, 1),
                    "{}"@,
                    decimal(minutes_until as nat),
                    1,
                ),
                None => replace_all(
                    strings_for(locale@).meeting_reminder_generic@,
                    "{}"@,
                    decimal(minutes_until as nat),
                ),
            },
            n.notification_type == NotificationType::MeetingReminder(minutes_until),
            n.priority == NotificationPriority::High,
            n.timeout == NotificationTimeout::Seconds(10),
            n.has_plain_extras(),
    {
        let s = notif_strings(locale);
        proof {
            reveal_strlit("{}");
        }
        let minutes = u64_to_string(minutes_until);
        let body = match meeting_title {
            Some(title) => {
                let with_title = replacen(s.meeting_reminder_named, "{}", title.as_str(), 1);
                replacen(with_title.as_str(), "{}", minutes.as_str(), 1)
            },
            None => replace(s.meeting_reminder_generic, "{}", minutes.as_str()),
        };
        Notification::new(
            s.app_name.to_string(),
            body,
            NotificationType::MeetingReminder(minutes_until),
        ).with_priority(NotificationPriority::High).with_timeout(NotificationTimeout::Seconds(10))
    }

    /// A system error: the error text is both the body and the payload of
    /// the type; it stays until dismissed.
    pub fn system_error(locale: &str, error: String) -> (n: Self)
        ensures
            n.title@ == strings_for(locale@).app_name_error@,
            n.title@ == (if locale@ == "ar"@ { "خطأ في Meetily"@ } else { "Meetily Error"@ }),
            n.body == error,
            n.notification_type == NotificationType::SystemError(error),
            n.priority == NotificationPriority::Critical,
            n.timeout == NotificationTimeout::Never,
            n.has_plain_extras(),
    {
        let s = notif_strings(locale);
        let body = error.clone();
        Notification::new(s.app_name_error.to_string(), body, NotificationType::SystemError(error))
            .with_priority(NotificationPriority::Critical)
            .with_timeout(NotificationTimeout::Never)
    }

    /// The notification that checks that notifications work.
    pub fn test_notification(locale: &str) -> (n: Self)
        ensures
            n.title@ == strings_for(locale@).app_name@,
            n.title@ == (if locale@ == "ar"@ { "Meetily"@ } else { "Meetily"@ }),
            n.body@ == (if locale@ == "ar"@ { "هذا إشعار تجريبي من Meetily. إذا كنت ترى هذا، فالإشعارات تعمل بشكل صحيح!"@ } else { "This is a test notification from Meetily. If you can see this, notifications are working correctly!"@ }),
            n.body@ == strings_for(locale@).test_notification@,
            n.notification_type == NotificationType::Test,
            n.priority == NotificationPriority::Normal,
            n.timeout == NotificationTimeout::Seconds(5),
            n.has_plain_extras(),
    {
        let s = notif_strings(locale);
        Notification::new(s.app_name.to_string(), s.test_notification.to_string(), NotificationType::Test)
            .with_priority(NotificationPriority::Normal)
            .with_timeout(NotificationTimeout::Seconds(5))
    }
}


/// Any UI locale other than Arabic gets the English texts.
pub proof fn lemma_non_arabic_locale_uses_english(locale: Seq<char>)
    requires
        locale != "ar"@,
    ensures
        strings_for(locale) == strings_for("en"@),
        strings_for(locale) == english_strings(),
{
    reveal_strlit("en");
    reveal_strlit("ar");
    assert("en"@[0] != "ar"@[0]);
}


/// The texts of the notifications, pinned field by field: the Arabic text
/// for the locale "ar", the English text for every other locale.
pub proof fn lemma_notification_texts(locale: Seq<char>)
    ensures
        strings_for(locale).app_name@ == (if locale == "ar"@ { "Meetily"@ } else { "Meetily"@ }),
        strings_for(locale).app_name_error@ == (if locale == "ar"@ { "خطأ في Meetily"@ } else { "Meetily Error"@ }),
        strings_for(locale).recording_started_named@ == (if locale == "ar"@ { "بدأ تسجيل الاجتماع: {}"@ } else { "Recording started for meeting: {}"@ }),
        strings_for(locale).recording_started_generic@ == (if locale == "ar"@ { "بدأ التسجيل. يرجى إبلاغ المشاركين بأن هذا الاجتماع يتم تسجيله."@ } else { "Recording has started. Please inform others in the meeting that you are recording."@ }),
        strings_for(locale).recording_stopped@ == (if locale == "ar"@ { "تم إيقاف التسجيل وحفظه"@ } else { "Recording has been stopped and saved"@ }),
        strings_for(locale).recording_paused@ == (if locale == "ar"@ { "تم إيقاف التسجيل مؤقتا"@ } else { "Recording has been paused"@ }),
        strings_for(locale).recording_resumed@ == (if locale == "ar"@ { "تم استئناف التسجيل"@ } else { "Recording has been resumed"@ }),
        strings_for(locale).transcription_complete_named@ == (if locale == "ar"@ { "اكتمل النسخ وتم حفظه في: {}"@ } else { "Transcription completed and saved to: {}"@ }),
        strings_for(locale).transcription_complete_generic@ == (if locale == "ar"@ { "اكتمل النسخ"@ } else { "Transcription has been completed"@ }),
        strings_for(locale).meeting_reminder_named@ == (if locale == "ar"@ { "يبدأ اجتماع '{}' خلال {} دقائق"@ } else { "Meeting '{}' starts in {} minutes"@ }),
        strings_for(locale).meeting_reminder_generic@ == (if locale == "ar"@ { "يبدأ الاجتماع خلال {} دقائق"@ } else { "Meeting starts in {} minutes"@ }),
        strings_for(locale).test_notification@ == (if locale == "ar"@ { "هذا إشعار تجريبي من Meetily. إذا كنت ترى هذا، فالإشعارات تعمل بشكل صحيح!"@ } else { "This is a test notification from Meetily. If you can see this, notifications are working correctly!"@ }),
{
}

/// No two items of `s` are equal.
pub open spec fn all_distinct(s: Seq<Seq<char>>) -> bool {
    forall|i: int, j: int| 0 <= i < j < s.len() ==> s[i] != s[j]
}

/// The message texts of a language, one per kind of notification body.
pub open spec fn message_texts(st: NotificationStrings) -> Seq<Seq<char>> {
    seq![
        st.recording_started_named@,
        st.recording_started_generic@,
        st.recording_stopped@,
        st.recording_paused@,
        st.recording_resumed@,
        st.transcription_complete_named@,
        st.transcription_complete_generic@,
        st.meeting_reminder_named@,
        st.meeting_reminder_generic@,
        st.test_notification@,
    ]
}

/// In every locale, different kinds of notification carry different texts,
/// and the error title differs from the ordinary title.
pub proof fn lemma_notification_texts_distinct(locale: Seq<char>)
    ensures
        all_distinct(message_texts(strings_for(locale))),
        strings_for(locale).app_name@ != strings_for(locale).app_name_error@,
{
    if locale == "ar"@ {
        reveal_strlit("Meetily");
        reveal_strlit("خطأ في Meetily");
        reveal_strlit("بدأ تسجيل الاجتماع: {}");
        reveal_strlit("بدأ التسجيل. يرجى إبلاغ المشاركين بأن هذا الاجتماع يتم تسجيله.");
        reveal_strlit("تم إيقاف التسجيل وحفظه");
        reveal_strlit("تم إيقاف التسجيل مؤقتا");
        reveal_strlit("تم استئناف التسجيل");
        reveal_strlit("اكتمل النسخ وتم حفظه في: {}");
        reveal_strlit("اكتمل النسخ");
        reveal_strlit("يبدأ اجتماع '{}' خلال {} دقائق");
        reveal_strlit("يبدأ الاجتماع خلال {} دقائق");
        reveal_strlit("هذا إشعار تجريبي من Meetily. إذا كنت ترى هذا، فالإشعارات تعمل بشكل صحيح!");
        assert("بدأ تسجيل الاجتماع: {}"@[4] != "بدأ التسجيل. يرجى إبلاغ المشاركين بأن هذا الاجتماع يتم تسجيله."@[4]);
        assert("بدأ تسجيل الاجتماع: {}"@[0] != "تم إيقاف التسجيل وحفظه"@[0]);
        assert("بدأ تسجيل الاجتماع: {}"@[0] != "تم إيقاف التسجيل مؤقتا"@[0]);
        assert("بدأ تسجيل الاجتماع: {}"@[0] != "تم استئناف التسجيل"@[0]);
        assert("بدأ تسجيل الاجتماع: {}"@[0] != "اكتمل النسخ وتم حفظه في: {}"@[0]);
        assert("بدأ تسجيل الاجتماع: {}"@[0] != "اكتمل النسخ"@[0]);
        assert("بدأ تسجيل الاجتماع: {}"@[0] != "يبدأ اجتماع '{}' خلال {} دقائق"@[0]);
        assert("بدأ تسجيل الاجتماع: {}"@[0] != "يبدأ الاجتماع خلال {} دقائق"@[0]);
        assert("بدأ تسجيل الاجتماع: {}"@[0] != "هذا إشعار تجريبي من Meetily. إذا كنت ترى هذا، فالإشعارات تعمل بشكل صحيح!"@[0]);
        assert("بدأ التسجيل. يرجى إبلاغ المشاركين بأن هذا الاجتماع يتم تسجيله."@[0] != "تم إيقاف التسجيل وحفظه"@[0]);
        assert("بدأ التسجيل. يرجى إبلاغ المشاركين بأن هذا الاجتماع يتم تسجيله."@[0] != "تم إيقاف التسجيل مؤقتا"@[0]);
        assert("بدأ التسجيل. يرجى إبلاغ المشاركين بأن هذا الاجتماع يتم تسجيله."@[0] != "تم استئناف التسجيل"@[0]);
        assert("بدأ التسجيل. يرجى إبلاغ المشاركين بأن هذا الاجتماع يتم تسجيله."@[0] != "اكتمل النسخ وتم حفظه في: {}"@[0]);
        assert("بدأ التسجيل. يرجى إبلاغ المشاركين بأن هذا الاجتماع يتم تسجيله."@[0] != "اكتمل النسخ"@[0]);
        assert("بدأ التسجيل. يرجى إبلاغ المشاركين بأن هذا الاجتماع يتم تسجيله."@[0] != "يبدأ اجتماع '{}' خلال {} دقائق"@[0]);
        assert("بدأ التسجيل. يرجى إبلاغ المشاركين بأن هذا الاجتماع يتم تسجيله."@[0] != "يبدأ الاجتماع خلال {} دقائق"@[0]);
        assert("بدأ التسجيل. يرجى إبلاغ المشاركين بأن هذا الاجتماع يتم تسجيله."@[0] != "هذا إشعار تجريبي من Meetily. إذا كنت ترى هذا، فالإشعارات تعمل بشكل صحيح!"@[0]);
        assert("تم إيقاف التسجيل وحفظه"@[17] != "تم إيقاف التسجيل مؤقتا"@[17]);
        assert("تم إيقاف التسجيل وحفظه"@[3] != "تم استئناف التسجيل"@[3]);
        assert("تم إيقاف التسجيل وحفظه"@[0] != "اكتمل النسخ وتم حفظه في: {}"@[0]);
        assert("تم إيقاف التسجيل وحفظه"@[0] != "اكتمل النسخ"@[0]);
        assert("تم إيقاف التسجيل وحفظه"@[0] != "يبدأ اجتماع '{}' خلال {} دقائق"@[0]);
        assert("تم إيقاف التسجيل وحفظه"@[0] != "يبدأ الاجتماع خلال {} دقائق"@[0]);
        assert("تم إيقاف التسجيل وحفظه"@[0] != "هذا إشعار تجريبي من Meetily. إذا كنت ترى هذا، فالإشعارات تعمل بشكل صحيح!"@[0]);
        assert("تم إيقاف التسجيل مؤقتا"@[3] != "تم استئناف التسجيل"@[3]);
        assert("تم إيقاف التسجيل مؤقتا"@[0] != "اكتمل النسخ وتم حفظه في: {}"@[0]);
        assert("تم إيقاف التسجيل مؤقتا"@[0] != "اكتمل النسخ"@[0]);
        assert("تم إيقاف التسجيل مؤقتا"@[0] != "يبدأ اجتماع '{}' خلال {} دقائق"@[0]);
        assert("تم إيقاف التسجيل مؤقتا"@[0] != "يبدأ الاجتماع خلال {} دقائق"@[0]);
        assert("تم إيقاف التسجيل مؤقتا"@[0] != "هذا إشعار تجريبي من Meetily. إذا كنت ترى هذا، فالإشعارات تعمل بشكل صحيح!"@[0]);
        assert("تم استئناف التسجيل"@[0] != "اكتمل النسخ وتم حفظه في: {}"@[0]);
        assert("تم استئناف التسجيل"@[0] != "اكتمل النسخ"@[0]);
        assert("تم استئناف التسجيل"@[0] != "يبدأ اجتماع '{}' خلال {} دقائق"@[0]);
        assert("تم استئناف التسجيل"@[0] != "يبدأ الاجتماع خلال {} دقائق"@[0]);
        assert("تم استئناف التسجيل"@[0] != "هذا إشعار تجريبي من Meetily. إذا كنت ترى هذا، فالإشعارات تعمل بشكل صحيح!"@[0]);
        assert("اكتمل النسخ وتم حفظه في: {}"@.len() != "اكتمل النسخ"@.len());
        assert("اكتمل النسخ وتم حفظه في: {}"@[0] != "يبدأ اجتماع '{}' خلال {} دقائق"@[0]);
        assert("اكتمل النسخ وتم حفظه في: {}"@[0] != "يبدأ الاجتماع خلال {} دقائق"@[0]);
        assert("اكتمل النسخ وتم حفظه في: {}"@[0] != "هذا إشعار تجريبي من Meetily. إذا كنت ترى هذا، فالإشعارات تعمل بشكل صحيح!"@[0]);
        assert("اكتمل النسخ"@[0] != "يبدأ اجتماع '{}' خلال {} دقائق"@[0]);
        assert("اكتمل النسخ"@[0] != "يبدأ الاجتماع خلال {} دقائق"@[0]);
        assert("اكتمل النسخ"@[0] != "هذا إشعار تجريبي من Meetily. إذا كنت ترى هذا، فالإشعارات تعمل بشكل صحيح!"@[0]);
        assert("يبدأ اجتماع '{}' خلال {} دقائق"@[6] != "يبدأ الاجتماع خلال {} دقائق"@[6]);
        assert("يبدأ اجتماع '{}' خلال {} دقائق"@[0] != "هذا إشعار تجريبي من Meetily. إذا كنت ترى هذا، فالإشعارات تعمل بشكل صحيح!"@[0]);
        assert("يبدأ الاجتماع خلال {} دقائق"@[0] != "هذا إشعار تجريبي من Meetily. إذا كنت ترى هذا، فالإشعارات تعمل بشكل صحيح!"@[0]);
        assert("Meetily"@[0] != "خطأ في Meetily"@[0]);
    } else {
        reveal_strlit("Meetily");
        reveal_strlit("Meetily Error");
        reveal_strlit("Recording started for meeting: {}");
        reveal_strlit("Recording has started. Please inform others in the meeting that you are recording.");
        reveal_strlit("Recording has been stopped and saved");
        reveal_strlit("Recording has been paused");
        reveal_strlit("Recording has been resumed");
        reveal_strlit("Transcription completed and saved to: {}");
        reveal_strlit("Transcription has been completed");
        reveal_strlit("Meeting '{}' starts in {} minutes");
        reveal_strlit("Meeting starts in {} minutes");
        reveal_strlit("This is a test notification from Meetily. If you can see this, notifications are working correctly!");
        assert("Recording started for meeting: {}"@[10] != "Recording has started. Please inform others in the meeting that you are recording."@[10]);
        assert("Recording started for meeting: {}"@[10] != "Recording has been stopped and saved"@[10]);
        assert("Recording started for meeting: {}"@[10] != "Recording has been paused"@[10]);
        assert("Recording started for meeting: {}"@[10] != "Recording has been resumed"@[10]);
        assert("Recording started for meeting: {}"@[0] != "Transcription completed and saved to: {}"@[0]);
        assert("Recording started for meeting: {}"@[0] != "Transcription has been completed"@[0]);
        assert("Recording started for meeting: {}"@[0] != "Meeting '{}' starts in {} minutes"@[0]);
        assert("Recording started for meeting: {}"@[0] != "Meeting starts in {} minutes"@[0]);
        assert("Recording started for meeting: {}"@[0] != "This is a test notification from Meetily. If you can see this, notifications are working correctly!"@[0]);
        assert("Recording has started. Please inform others in the meeting that you are recording."@[14] != "Recording has been stopped and saved"@[14]);
        assert("Recording has started. Please inform others in the meeting that you are recording."@[14] != "Recording has been paused"@[14]);
        assert("Recording has started. Please inform others in the meeting that you are recording."@[14] != "Recording has been resumed"@[14]);
        assert("Recording has started. Please inform others in the meeting that you are recording."@[0] != "Transcription completed and saved to: {}"@[0]);
        assert("Recording has started. Please inform others in the meeting that you are recording."@[0] != "Transcription has been completed"@[0]);
        assert("Recording has started. Please inform others in the meeting that you are recording."@[0] != "Meeting '{}' starts in {} minutes"@[0]);
        assert("Recording has started. Please inform others in the meeting that you are recording."@[0] != "Meeting starts in {} minutes"@[0]);
        assert("Recording has started. Please inform others in the meeting that you are recording."@[0] != "This is a test notification from Meetily. If you can see this, notifications are working correctly!"@[0]);
        assert("Recording has been stopped and saved"@[19] != "Recording has been paused"@[19]);
        assert("Recording has been stopped and saved"@[19] != "Recording has been resumed"@[19]);
        assert("Recording has been stopped and saved"@[0] != "Transcription completed and saved to: {}"@[0]);
        assert("Recording has been stopped and saved"@[0] != "Transcription has been completed"@[0]);
        assert("Recording has been stopped and saved"@[0] != "Meeting '{}' starts in {} minutes"@[0]);
        assert("Recording has been stopped and saved"@[0] != "Meeting starts in {} minutes"@[0]);
        assert("Recording has been stopped and saved"@[0] != "This is a test notification from Meetily. If you can see this, notifications are working correctly!"@[0]);
        assert("Recording has been paused"@[19] != "Recording has been resumed"@[19]);
        assert("Recording has been paused"@[0] != "Transcription completed and saved to: {}"@[0]);
        assert("Recording has been paused"@[0] != "Transcription has been completed"@[0]);
        assert("Recording has been paused"@[0] != "Meeting '{}' starts in {} minutes"@[0]);
        assert("Recording has been paused"@[0] != "Meeting starts in {} minutes"@[0]);
        assert("Recording has been paused"@[0] != "This is a test notification from Meetily. If you can see this, notifications are working correctly!"@[0]);
        assert("Recording has been resumed"@[0] != "Transcription completed and saved to: {}"@[0]);
        assert("Recording has been resumed"@[0] != "Transcription has been completed"@[0]);
        assert("Recording has been resumed"@[0] != "Meeting '{}' starts in {} minutes"@[0]);
        assert("Recording has been resumed"@[0] != "Meeting starts in {} minutes"@[0]);
        assert("Recording has been resumed"@[0] != "This is a test notification from Meetily. If you can see this, notifications are working correctly!"@[0]);
        assert("Transcription completed and saved to: {}"@[14] != "Transcription has been completed"@[14]);
        assert("Transcription completed and saved to: {}"@[0] != "Meeting '{}' starts in {} minutes"@[0]);
        assert("Transcription completed and saved to: {}"@[0] != "Meeting starts in {} minutes"@[0]);
        assert("Transcription completed and saved to: {}"@[1] != "This is a test notification from Meetily. If you can see this, notifications are working correctly!"@[1]);
        assert("Transcription has been completed"@[0] != "Meeting '{}' starts in {} minutes"@[0]);
        assert("Transcription has been completed"@[0] != "Meeting starts in {} minutes"@[0]);
        assert("Transcription has been completed"@[1] != "This is a test notification from Meetily. If you can see this, notifications are working correctly!"@[1]);
        assert("Meeting '{}' starts in {} minutes"@[8] != "Meeting starts in {} minutes"@[8]);
        assert("Meeting '{}' starts in {} minutes"@[0] != "This is a test notification from Meetily. If you can see this, notifications are working correctly!"@[0]);
        assert("Meeting starts in {} minutes"@[0] != "This is a test notification from Meetily. If you can see this, notifications are working correctly!"@[0]);
        assert("Meetily"@.len() != "Meetily Error"@.len());
    }
}

} // verus!
