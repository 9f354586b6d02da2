use meetily::summary::templates::{
    extract_base_template_id, get_builtin_template, get_builtin_templates, get_template,
    list_builtin_template_ids, list_template_ids, list_templates, template_file_candidates,
    template_not_found, Template, TemplateFiles, TemplateSection, DAILY_STANDUP_EN,
};

fn no_files() -> TemplateFiles {
    TemplateFiles { locale_specific: None, base: None }
}

fn text(v: &serde_json::Value, key: &str) -> String {
    v.get(key).and_then(|x| x.as_str()).unwrap_or("").to_string()
}

/// Builds a template from its JSON text, field by field.
fn parse(json: &str) -> Result<Template, String> {
    let v: serde_json::Value =
        serde_json::from_str(json).map_err(|e| format!("Failed to parse template JSON: {}", e))?;
    let sections = v
        .get("sections")
        .and_then(|s| s.as_array())
        .ok_or_else(|| "Failed to parse template JSON: missing sections".to_string())?
        .iter()
        .map(|s| TemplateSection {
            title: text(s, "title"),
            instruction: text(s, "instruction"),
            format: text(s, "format"),
        })
        .collect();
    Ok(Template { name: text(&v, "name"), description: text(&v, "description"), sections })
}

/// Resolves a template with no custom or bundled directory, as the
/// application does when only the built-in templates exist.
fn load(id: &str, locale: &str) -> Result<Template, String> {
    match get_template(id, locale, no_files(), no_files()) {
        Some(json) => {
            let t = parse(&json)?;
            t.validate()?;
            Ok(t)
        }
        None => Err(template_not_found(id, &list_template_ids(&vec![], &vec![]))),
    }
}

fn has_arabic(s: &str) -> bool {
    s.chars().any(|c| c >= '\u{0600}' && c <= '\u{06FF}')
}

#[test]
fn test_all_12_templates_valid_json() {
    for (id, locale, content) in get_builtin_templates() {
        let result = serde_json::from_str::<serde_json::Value>(content);
        assert!(
            result.is_ok(),
            "Built-in template '{}' locale '{}' contains invalid JSON: {:?}",
            id,
            locale,
            result.err()
        );
    }
}

#[test]
fn test_get_builtin_template_ar() {
    let content = get_builtin_template("daily_standup", "ar");
    assert!(content.is_some());
    let json = content.unwrap();
    assert!(json.contains("الاجتماع اليومي"), "AR template should contain Arabic name");
}

#[test]
fn test_get_builtin_template_en() {
    let content = get_builtin_template("daily_standup", "en");
    assert!(content.is_some());
    let json = content.unwrap();
    assert!(json.contains("Daily Standup"), "EN template should contain English name");
}

#[test]
fn test_get_builtin_template_fallback_to_en() {
    let content = get_builtin_template("daily_standup", "fr");
    assert!(content.is_some());
    let json = content.unwrap();
    assert!(json.contains("Daily Standup"), "Unknown locale should fall back to English");
}

#[test]
fn test_get_builtin_template_nonexistent() {
    assert!(get_builtin_template("nonexistent", "ar").is_none());
    assert!(get_builtin_template("nonexistent", "en").is_none());
}

#[test]
fn test_all_ar_templates_deserialize_and_validate() {
    let ar_ids = list_builtin_template_ids();
    for id in &ar_ids {
        let content = get_builtin_template(id, "ar")
            .unwrap_or_else(|| panic!("AR template '{}' not found", id));
        let template: Template = parse(content)
            .unwrap_or_else(|e| panic!("AR template '{}' failed to deserialize: {}", id, e));
        template
            .validate()
            .unwrap_or_else(|e| panic!("AR template '{}' failed validation: {}", id, e));
    }
}

#[test]
fn test_all_en_templates_deserialize_and_validate() {
    let en_ids = list_builtin_template_ids();
    for id in &en_ids {
        let content = get_builtin_template(id, "en")
            .unwrap_or_else(|| panic!("EN template '{}' not found", id));
        let template: Template = parse(content)
            .unwrap_or_else(|e| panic!("EN template '{}' failed to deserialize: {}", id, e));
        template
            .validate()
            .unwrap_or_else(|e| panic!("EN template '{}' failed validation: {}", id, e));
    }
}

#[test]
fn test_list_builtin_template_ids_returns_6() {
    let ids = list_builtin_template_ids();
    assert_eq!(ids.len(), 6, "Should have exactly 6 template IDs, got: {:?}", ids);
}

#[test]
fn test_retrospective_en_content() {
    let content = get_builtin_template("retrospective", "en");
    assert!(content.is_some());
    assert!(content.unwrap().contains("Retrospective"));
}

#[test]
fn test_get_builtin_templates_returns_12() {
    let templates = get_builtin_templates();
    assert_eq!(templates.len(), 12, "Should have 12 entries (6 templates x 2 locales)");
}

#[test]
fn test_get_builtin_template() {
    let template = load("daily_standup", "en");
    assert!(template.is_ok());

    let template = template.unwrap();
    assert_eq!(template.name, "Daily Standup");
    assert!(!template.sections.is_empty());
}

#[test]
fn test_get_builtin_template_arabic() {
    let template = load("daily_standup", "ar");
    assert!(template.is_ok());

    let template = template.unwrap();
    assert_eq!(template.name, "الاجتماع اليومي");
    assert!(!template.sections.is_empty());
}

#[test]
fn test_get_nonexistent_template() {
    let result = load("nonexistent_template", "en");
    assert!(result.is_err());
}

#[test]
fn test_locale_fallback() {
    let template = load("daily_standup", "fr");
    assert!(template.is_ok());

    let template = template.unwrap();
    assert_eq!(template.name, "Daily Standup", "Unknown locale should fall back to English");
}

#[test]
fn test_list_template_ids() {
    let ids = list_template_ids(&vec![], &vec![]);
    assert_eq!(ids.len(), 6, "Should have exactly 6 template IDs, got: {:?}", ids);
    assert!(ids.contains(&"daily_standup".to_string()));
    assert!(ids.contains(&"standard_meeting".to_string()));
    assert!(ids.contains(&"project_sync".to_string()));
    assert!(ids.contains(&"psychatric_session".to_string()));
    assert!(ids.contains(&"retrospective".to_string()));
    assert!(ids.contains(&"sales_marketing_client_call".to_string()));
}

#[test]
fn test_extract_base_template_id() {
    assert_eq!(extract_base_template_id("daily_standup.json"), Some("daily_standup".to_string()));
    assert_eq!(extract_base_template_id("daily_standup.ar.json"), Some("daily_standup".to_string()));
    assert_eq!(extract_base_template_id("daily_standup.en.json"), Some("daily_standup".to_string()));
    assert_eq!(extract_base_template_id("not_json"), None);
}

#[test]
fn qa03_ar_locale_returns_ar_template() {
    let result = load("daily_standup", "ar");
    assert!(result.is_ok(), "AR template must resolve");
    let template = result.unwrap();
    assert!(has_arabic(&template.name), "AR template name must contain Arabic characters");
}

#[test]
fn loader_qa03_unknown_locale_falls_back_to_en() {
    let result = load("daily_standup", "fr");
    assert!(result.is_ok(), "fallback to EN must succeed");
    let template = result.unwrap();
    assert!(!has_arabic(&template.name), "fallback must return EN template, not AR");
}

#[test]
fn loader_qa03_nonexistent_id_returns_error() {
    let result = load("qa03_nonexistent_template", "ar");
    assert!(result.is_err(), "nonexistent template must error");
}

// The fallback chain: custom beats bundled beats built-in; within a
// directory the locale-specific file beats the base file.
#[test]
fn template_source_precedence() {
    let custom = TemplateFiles { locale_specific: None, base: Some("custom-base".to_string()) };
    let bundled = TemplateFiles {
        locale_specific: Some("bundled-ar".to_string()),
        base: Some("bundled-base".to_string()),
    };
    assert_eq!(
        get_template("daily_standup", "ar", custom.clone(), bundled.clone()),
        Some("custom-base".to_string())
    );
    assert_eq!(
        get_template("daily_standup", "ar", no_files(), bundled.clone()),
        Some("bundled-ar".to_string())
    );
    let bundled_base_only = TemplateFiles { locale_specific: None, base: Some("bundled-base".to_string()) };
    assert_eq!(
        get_template("anything", "ar", no_files(), bundled_base_only),
        Some("bundled-base".to_string())
    );
    assert_eq!(
        get_template("daily_standup", "en", no_files(), no_files()),
        Some(DAILY_STANDUP_EN.to_string())
    );
    assert_eq!(get_template("nope", "en", no_files(), no_files()), None);
}

#[test]
fn template_file_names_in_order() {
    assert_eq!(
        template_file_candidates("daily_standup", "ar"),
        vec!["daily_standup.ar.json".to_string(), "daily_standup.json".to_string()]
    );
}

#[test]
fn template_not_found_lists_ids() {
    let ids = list_template_ids(&vec![], &vec![]);
    assert_eq!(
        template_not_found("x", &ids),
        "Template 'x' not found. Available templates: daily_standup, project_sync, psychatric_session, retrospective, sales_marketing_client_call, standard_meeting"
    );
    assert_eq!(template_not_found("x", &vec![]), "Template 'x' not found. Available templates: ");
}

// The listing is sorted, has no repeats, and holds the ids of `.json`
// files from both directories under their base id.
#[test]
fn list_template_ids_merges_sorts_and_dedups() {
    let bundled = vec![
        "zeta.ar.json".to_string(),
        "zeta.json".to_string(),
        "notes.txt".to_string(),
        "daily_standup.en.json".to_string(),
        "Alpha.json".to_string(),
    ];
    let custom = vec!["mine.fr.json".to_string(), "zeta.en.json".to_string(), "é.json".to_string()];
    let ids = list_template_ids(&bundled, &custom);
    assert_eq!(
        ids,
        vec![
            "Alpha", "daily_standup", "mine.fr", "project_sync", "psychatric_session",
            "retrospective", "sales_marketing_client_call", "standard_meeting", "zeta", "é",
        ]
        .into_iter()
        .map(|s| s.to_string())
        .collect::<Vec<_>>()
    );
}

#[test]
fn files_looked_up_are_listed_under_their_id() {
    for locale in ["ar", "en"] {
        for name in template_file_candidates("weekly_review", locale) {
            assert_eq!(extract_base_template_id(&name), Some("weekly_review".to_string()));
        }
    }
    assert_eq!(extract_base_template_id("x.ar"), None);
    assert_eq!(extract_base_template_id(".json"), Some(String::new()));
}

#[test]
fn validate_reports_first_problem() {
    let section = |title: &str| TemplateSection {
        title: title.to_string(),
        instruction: "i".to_string(),
        format: "list".to_string(),
    };
    let t = Template { name: String::new(), description: String::new(), sections: vec![] };
    assert_eq!(t.validate(), Err("Template name cannot be empty".to_string()));
    let t = Template { name: "n".to_string(), description: String::new(), sections: vec![] };
    assert_eq!(t.validate(), Err("Template must have at least one section".to_string()));
    let t = Template { name: "n".to_string(), description: String::new(), sections: vec![section("a"), section("")] };
    assert_eq!(t.validate(), Err("Section title cannot be empty".to_string()));
    let t = Template { name: "n".to_string(), description: String::new(), sections: vec![section("a")] };
    assert_eq!(t.validate(), Ok(()));
}

#[test]
fn list_templates_keeps_loaded_in_order() {
    let t = |name: &str| Template {
        name: name.to_string(),
        description: format!("{} description", name),
        sections: vec![],
    };
    let entries = vec![
        ("a".to_string(), Ok(t("A"))),
        ("b".to_string(), Err("broken".to_string())),
        ("c".to_string(), Ok(t("C"))),
    ];
    assert_eq!(
        list_templates(&entries),
        vec![
            ("a".to_string(), "A".to_string(), "A description".to_string()),
            ("c".to_string(), "C".to_string(), "C description".to_string()),
        ]
    );
}

#[test]
fn registry_matches_lookup() {
    for (id, locale, json) in get_builtin_templates() {
        assert_eq!(get_builtin_template(id, locale), Some(json));
        assert_eq!(get_builtin_template(id, "de"), get_builtin_template(id, "en"));
    }
}
