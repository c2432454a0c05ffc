use tigris_core::settings::{
    default_search_engines, default_theme, get_bool_extension_setting, get_default_settings,
    get_extension_setting, get_usize_extension_setting, settings_or_default, ExtensionValue,
};

fn stored_value(e: &str, s: &str, v: &str) -> ExtensionValue {
    ExtensionValue { extension_id: e.to_string(), setting_id: s.to_string(), value: v.to_string() }
}

#[test]
fn default_settings_values() {
    let s = get_default_settings();
    assert_eq!(s.width, 900);
    assert_eq!(s.height, 660);
    assert!(s.show_recent_apps);
    assert_eq!(s.box_border_radius, 16);
    assert_eq!(s.border_width, 3);
    assert_eq!(s.result_border_radius, 32);
    assert_eq!(s.icon_border_radius, 8);
    assert!(!s.hide_app_icons);
    assert!(!s.accent_border);
    assert!(s.show_shortcut_hint);
    assert_eq!(s.shortcut_key, "alt");
    assert!(s.extension_values.is_empty());
    assert_eq!(s.default_search_engine, 0);
    assert!(s.blacklist.is_empty());
    assert_eq!(s.theme, default_theme());
    assert_eq!(s.theme.accent, "#FFE072");
    assert_eq!(s.theme.disabled_text, "#bdbdbd");
}

#[test]
fn default_engines_have_placeholder() {
    let engines = default_search_engines();
    let keywords: Vec<&str> = engines.iter().map(|e| e.keyword.as_str()).collect();
    assert_eq!(keywords, vec!["ds", "gs", "bs", "ss"]);
    for (i, e) in engines.iter().enumerate() {
        assert_eq!(e.id, i);
        assert!(e.query.contains("%s"));
    }
    assert_eq!(engines[1].query, "https://www.google.com/search?q=%s");
}

#[test]
fn fallback_to_defaults() {
    let mut stored = get_default_settings();
    stored.width = 10;
    assert_eq!(settings_or_default(Some(stored.clone())), stored);
    assert_eq!(settings_or_default(None), get_default_settings());
}

#[test]
fn extension_setting_lookups() {
    let mut s = get_default_settings();
    s.extension_values = vec![
        stored_value("x", "flag", "true"),
        stored_value("x", "count", "12"),
        stored_value("x", "bad", "twelve"),
        stored_value("x", "flag", "false"),
    ];
    assert_eq!(get_extension_setting(&s, "x", "count"), Ok("12".to_string()));
    assert_eq!(get_bool_extension_setting(&s, "x", "flag"), Ok(true));
    assert_eq!(get_bool_extension_setting(&s, "x", "count"), Ok(false));
    assert_eq!(get_usize_extension_setting(&s, "x", "count"), Ok(12));
    assert_eq!(
        get_usize_extension_setting(&s, "x", "bad"),
        Err("Error parsing setting to usize".to_string())
    );
    assert_eq!(
        get_extension_setting(&s, "y", "count"),
        Err("Could not find setting with given values".to_string())
    );
}
