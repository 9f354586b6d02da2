use meetily::summary::prompts::{
    get_builtin_prompt, get_prompt, CHUNK_COMBINER_SYSTEM_AR, CHUNK_COMBINER_SYSTEM_EN,
    CHUNK_COMBINER_USER_AR, CHUNK_COMBINER_USER_EN, CHUNK_SUMMARIZER_SYSTEM_AR,
    CHUNK_SUMMARIZER_SYSTEM_EN, CHUNK_SUMMARIZER_USER_AR, CHUNK_SUMMARIZER_USER_EN,
    FINAL_REPORT_SYSTEM_AR, FINAL_REPORT_SYSTEM_EN,
};

#[test]
fn test_all_embedded_prompts_are_non_empty() {
    assert!(!CHUNK_SUMMARIZER_SYSTEM_EN.is_empty(), "chunk_summarizer_system.en is empty");
    assert!(!CHUNK_SUMMARIZER_SYSTEM_AR.is_empty(), "chunk_summarizer_system.ar is empty");
    assert!(!CHUNK_SUMMARIZER_USER_EN.is_empty(), "chunk_summarizer_user.en is empty");
    assert!(!CHUNK_SUMMARIZER_USER_AR.is_empty(), "chunk_summarizer_user.ar is empty");
    assert!(!CHUNK_COMBINER_SYSTEM_EN.is_empty(), "chunk_combiner_system.en is empty");
    assert!(!CHUNK_COMBINER_SYSTEM_AR.is_empty(), "chunk_combiner_system.ar is empty");
    assert!(!CHUNK_COMBINER_USER_EN.is_empty(), "chunk_combiner_user.en is empty");
    assert!(!CHUNK_COMBINER_USER_AR.is_empty(), "chunk_combiner_user.ar is empty");
    assert!(!FINAL_REPORT_SYSTEM_EN.is_empty(), "final_report_system.en is empty");
    assert!(!FINAL_REPORT_SYSTEM_AR.is_empty(), "final_report_system.ar is empty");
}

#[test]
fn test_all_arabic_prompts_contain_arabic_comma() {
    let ar_prompts = [
        ("chunk_summarizer_system", CHUNK_SUMMARIZER_SYSTEM_AR),
        ("chunk_summarizer_user", CHUNK_SUMMARIZER_USER_AR),
        ("chunk_combiner_system", CHUNK_COMBINER_SYSTEM_AR),
        ("chunk_combiner_user", CHUNK_COMBINER_USER_AR),
        ("final_report_system", FINAL_REPORT_SYSTEM_AR),
    ];
    for (id, content) in ar_prompts {
        assert!(
            content.contains('\u{060C}'),
            "Arabic prompt '{}' missing Arabic comma (،)",
            id
        );
    }
}

#[test]
fn test_get_builtin_prompt_returns_correct_locale() {
    let en = get_builtin_prompt("chunk_summarizer_system", "en").unwrap();
    assert!(en.contains("expert meeting summarizer"));
    assert!(!en.contains('\u{060C}'), "EN prompt should not contain Arabic comma");

    let ar = get_builtin_prompt("chunk_summarizer_system", "ar").unwrap();
    assert!(ar.contains('\u{060C}'), "AR prompt should contain Arabic comma");
}

#[test]
fn test_get_builtin_prompt_unknown_id() {
    assert!(get_builtin_prompt("nonexistent_prompt", "en").is_none());
}

#[test]
fn test_get_builtin_prompt_unknown_locale_falls_back_to_en() {
    let result = get_builtin_prompt("chunk_summarizer_system", "fr");
    assert!(result.is_some());
    let content = result.unwrap();
    assert!(content.contains("expert meeting summarizer"));
    assert!(!content.contains('\u{060C}'));
}

#[test]
fn test_final_report_contains_named_placeholders() {
    assert!(FINAL_REPORT_SYSTEM_EN.contains("{section_instructions}"));
    assert!(FINAL_REPORT_SYSTEM_EN.contains("{template_markdown}"));
    assert!(FINAL_REPORT_SYSTEM_AR.contains("{section_instructions}"));
    assert!(FINAL_REPORT_SYSTEM_AR.contains("{template_markdown}"));
}

#[test]
fn test_user_prompts_contain_named_placeholders() {
    assert!(CHUNK_SUMMARIZER_USER_EN.contains("{transcript_chunk}"));
    assert!(CHUNK_SUMMARIZER_USER_AR.contains("{transcript_chunk}"));
    assert!(CHUNK_COMBINER_USER_EN.contains("{summaries}"));
    assert!(CHUNK_COMBINER_USER_AR.contains("{summaries}"));
}

#[test]
fn test_get_prompt_en() {
    let result = get_prompt("chunk_summarizer_system", "en");
    assert!(result.is_ok());
    assert!(result.unwrap().contains("expert meeting summarizer"));
}

#[test]
fn test_get_prompt_ar() {
    let result = get_prompt("chunk_summarizer_system", "ar");
    assert!(result.is_ok());
    assert!(result.unwrap().contains('\u{060C}'));
}

#[test]
fn test_get_prompt_fallback_to_en() {
    let result = get_prompt("chunk_summarizer_system", "fr");
    assert!(result.is_ok());
    let content = result.unwrap();
    assert!(content.contains("expert meeting summarizer"));
    assert!(!content.contains('\u{060C}'));
}

#[test]
fn test_get_prompt_unknown_id() {
    let result = get_prompt("nonexistent_prompt", "en");
    assert!(result.is_err());
    assert!(result.unwrap_err().contains("not found"));
}

#[test]
fn test_get_prompt_final_report_has_placeholders() {
    let result = get_prompt("final_report_system", "en");
    assert!(result.is_ok());
    let content = result.unwrap();
    assert!(content.contains("{section_instructions}"));
    assert!(content.contains("{template_markdown}"));
}

#[test]
fn test_get_prompt_all_ids_resolve() {
    let ids = [
        "chunk_summarizer_system",
        "chunk_summarizer_user",
        "chunk_combiner_system",
        "chunk_combiner_user",
        "final_report_system",
    ];
    for id in ids {
        assert!(get_prompt(id, "en").is_ok(), "EN prompt '{}' should resolve", id);
        assert!(get_prompt(id, "ar").is_ok(), "AR prompt '{}' should resolve", id);
    }
}

#[test]
fn qa03_ar_locale_returns_ar_content() {
    let result = get_prompt("chunk_summarizer_system", "ar");
    assert!(result.is_ok(), "AR prompt must resolve");
    assert!(
        result.unwrap().contains('\u{060C}'),
        "AR content must contain Arabic comma"
    );
}

#[test]
fn qa03_unknown_locale_falls_back_to_en() {
    let result = get_prompt("chunk_summarizer_system", "fr");
    assert!(result.is_ok(), "fallback to EN must succeed");
    let content = result.unwrap();
    assert!(
        !content.contains('\u{060C}'),
        "fallback must return EN, not AR"
    );
}

#[test]
fn qa03_nonexistent_id_returns_error() {
    let result = get_prompt("qa03_nonexistent_prompt", "ar");
    assert!(result.is_err(), "nonexistent prompt must error");
    assert!(
        result.unwrap_err().contains("not found"),
        "error must contain 'not found'"
    );
}

// The error text names the identifier and the locale.
#[test]
fn get_prompt_error_text_is_exact() {
    assert_eq!(
        get_prompt("missing", "ar").unwrap_err(),
        "Prompt 'missing' not found for locale 'ar'"
    );
}

// Any locale but Arabic resolves to the English text, for every identifier.
#[test]
fn prompt_locale_fallback_law() {
    for id in [
        "chunk_summarizer_system",
        "chunk_summarizer_user",
        "chunk_combiner_system",
        "chunk_combiner_user",
        "final_report_system",
    ] {
        assert_eq!(get_builtin_prompt(id, "de"), get_builtin_prompt(id, "en"));
        assert_eq!(get_builtin_prompt(id, ""), get_builtin_prompt(id, "en"));
        assert_ne!(get_builtin_prompt(id, "ar"), get_builtin_prompt(id, "en"));
        assert_eq!(get_prompt(id, "fr").unwrap(), get_builtin_prompt(id, "en").unwrap());
    }
    assert_eq!(get_builtin_prompt("chunk_combiner_user", "ar"), Some(CHUNK_COMBINER_USER_AR));
    assert_eq!(get_builtin_prompt("Final_report_system", "en"), None);
}
