use meetily::preferences::{
    check_reject_branch, plan_patch, read, should_auto_repoint, PreferencesCache, PreferencesError,
    UserPreferences, UserPreferencesPatch,
};

fn prefs(ui: &str) -> UserPreferences {
    UserPreferences {
        id: "1".to_string(),
        ui_locale: ui.to_string(),
        summary_language: "en".to_string(),
        transcription_language: "auto".to_string(),
        updated_at: 42,
    }
}

fn patch(ui: Option<&str>, provider: Option<&str>) -> UserPreferencesPatch {
    UserPreferencesPatch {
        ui_locale: ui.map(|s| s.to_string()),
        summary_language: None,
        transcription_language: None,
        provider: provider.map(|s| s.to_string()),
    }
}

#[test]
fn merge_overrides_present_fields_only() {
    let p = UserPreferencesPatch {
        ui_locale: None,
        summary_language: Some("ar".to_string()),
        transcription_language: Some("fr".to_string()),
        provider: Some("parakeet".to_string()),
    };
    let m = prefs("en").merge(&p);
    assert_eq!(m.id, "1");
    assert_eq!(m.ui_locale, "en");
    assert_eq!(m.summary_language, "ar");
    assert_eq!(m.transcription_language, "fr");
    assert_eq!(m.updated_at, 42);
}

#[test]
fn merge_laws() {
    let base = prefs("en");
    let empty = UserPreferencesPatch::default();
    let m = base.merge(&empty);
    assert_eq!((m.ui_locale, m.summary_language, m.transcription_language), ("en".to_string(), "en".to_string(), "auto".to_string()));
    let p = patch(Some("ar"), None);
    let once = base.merge(&p);
    let twice = once.merge(&p);
    assert_eq!(once.ui_locale, twice.ui_locale);
    assert_eq!(once.summary_language, twice.summary_language);
    assert_eq!(once.transcription_language, twice.transcription_language);
}

#[test]
fn reject_parakeet_only_when_arabic() {
    let p = patch(None, Some("parakeet"));
    match check_reject_branch(&p, &prefs("ar")) {
        Err(PreferencesError::InvalidCombination { reason }) => assert_eq!(
            reason,
            "Parakeet provider is not supported when ui_locale == 'ar'; use localWhisper + large-v3"
        ),
        other => panic!("expected InvalidCombination, got {:?}", other),
    }
    assert!(check_reject_branch(&p, &prefs("en")).is_ok());
    assert!(check_reject_branch(&patch(None, Some("localWhisper")), &prefs("ar")).is_ok());
    assert!(check_reject_branch(&patch(None, None), &prefs("ar")).is_ok());
}

#[test]
fn auto_repoint_only_on_flip_to_arabic() {
    assert!(should_auto_repoint(&patch(Some("ar"), None), &prefs("en")));
    assert!(!should_auto_repoint(&patch(Some("ar"), None), &prefs("ar")));
    assert!(!should_auto_repoint(&patch(Some("en"), None), &prefs("en")));
    assert!(!should_auto_repoint(&patch(None, None), &prefs("en")));
}

// Scenario of the atomic write: switching to Arabic repoints the provider.
#[test]
fn plan_for_switch_to_arabic_repoints() {
    let plan = plan_patch(&prefs("en"), &patch(Some("ar"), None)).unwrap();
    assert_eq!(plan.merged.ui_locale, "ar");
    assert!(plan.repoint_to_local_whisper);
    assert_eq!(plan.provider_write, None);
}

// Scenario: asking for Parakeet while Arabic is rejected before any write.
#[test]
fn plan_rejects_parakeet_while_arabic() {
    let r = plan_patch(&prefs("ar"), &patch(None, Some("parakeet")));
    assert!(matches!(r, Err(PreferencesError::InvalidCombination { .. })));
    // switching to Arabic and asking for Parakeet in one patch is rejected too
    let r = plan_patch(&prefs("en"), &patch(Some("ar"), Some("parakeet")));
    assert!(matches!(r, Err(PreferencesError::InvalidCombination { .. })));
    // leaving Arabic while asking for Parakeet is accepted
    let plan = plan_patch(&prefs("ar"), &patch(Some("en"), Some("parakeet"))).unwrap();
    assert_eq!(plan.provider_write.as_deref(), Some("parakeet"));
    assert!(!plan.repoint_to_local_whisper);
}

// The policy law on concrete values: after an accepted plan, an Arabic UI
// never ends with the Parakeet provider.
#[test]
fn accepted_plans_keep_policy() {
    let cases = [
        ("en", "parakeet", Some("ar"), None),
        ("en", "parakeet", Some("ar"), Some("localWhisper")),
        ("ar", "localWhisper", None, Some("openai")),
        ("ar", "localWhisper", Some("ar"), None),
        ("en", "parakeet", None, None),
    ];
    for (ui, provider, new_ui, new_provider) in cases {
        if let Ok(plan) = plan_patch(&prefs(ui), &patch(new_ui, new_provider)) {
            let after = match &plan.provider_write {
                Some(p) => p.clone(),
                None if plan.repoint_to_local_whisper => "localWhisper".to_string(),
                None => provider.to_string(),
            };
            assert!(!(plan.merged.ui_locale == "ar" && after == "parakeet"));
        }
    }
}

#[test]
fn cache_starts_with_initial_preferences() {
    let cache = PreferencesCache::new();
    let p = read(&cache);
    assert_eq!(p.id, "1");
    assert_eq!(p.ui_locale, "en");
    assert_eq!(p.summary_language, "en");
    assert_eq!(p.transcription_language, "auto");
    assert_eq!(p.updated_at, 0);
}

#[test]
fn hydrate_then_read_gives_loaded_row() {
    let mut cache = PreferencesCache::new();
    cache.hydrate(prefs("ar"));
    assert_eq!(read(&cache).ui_locale, "ar");
}

// Rollback invariance: a failed write leaves the cache untouched.
#[test]
fn failed_write_leaves_cache_unchanged() {
    let mut cache = PreferencesCache::new();
    let r = cache.settle_write(Err(PreferencesError::Database("no such table: transcript_settings".to_string())));
    assert_eq!(r.unwrap_err(), "Database error: no such table: transcript_settings");
    assert_eq!(read(&cache).ui_locale, "en");
    let r = cache.settle_write(Err(PreferencesError::InvalidCombination { reason: "nope".to_string() }));
    assert_eq!(r.unwrap_err(), "nope");
    assert_eq!(read(&cache).ui_locale, "en");
}

#[test]
fn committed_write_replaces_cache() {
    let mut cache = PreferencesCache::new();
    let r = cache.settle_write(Ok(prefs("ar"))).unwrap();
    assert_eq!(r.ui_locale, "ar");
    assert_eq!(read(&cache).ui_locale, "ar");
    assert_eq!(read(&cache).updated_at, 42);
}

#[test]
fn error_descriptions() {
    assert_eq!(
        PreferencesError::InvalidCombination { reason: "r".to_string() }.describe(),
        "invalid combination: r"
    );
    assert_eq!(PreferencesError::Database("d".to_string()).describe(), "database error: d");
}
