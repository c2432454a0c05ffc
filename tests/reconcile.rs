use tigris_core::extensions::{Extension, Setting, SettingType};
use tigris_core::reconcile::reconcile_extension_values;
use tigris_core::settings::{get_default_settings, ExtensionValue};

fn setting(id: &str, value: &str) -> Setting {
    Setting {
        id: id.to_string(),
        name: id.to_string(),
        description: String::new(),
        value: value.to_string(),
        setting_type: SettingType::Text,
        min: None,
        max: None,
        step: None,
        select_values: None,
        conditional_show: None,
    }
}

fn extension(id: &str, settings: Vec<Setting>) -> Extension {
    Extension {
        id: id.to_string(),
        name: id.to_string(),
        description: String::new(),
        creator_name: None,
        creator_link: None,
        repository_link: None,
        settings,
    }
}

fn value(e: &str, s: &str, v: &str) -> ExtensionValue {
    ExtensionValue { extension_id: e.to_string(), setting_id: s.to_string(), value: v.to_string() }
}

#[test]
fn reconcile_adds_defaults_and_keyword() {
    let mut settings = get_default_settings();
    let exts = vec![extension("x", vec![setting("s", "default"), setting("t", "5")])];
    reconcile_extension_values(&mut settings, &exts);
    assert_eq!(
        settings.extension_values,
        vec![value("x", "s", "default"), value("x", "t", "5"), value("x", "keyword", "")]
    );
}

#[test]
fn reconcile_is_idempotent_on_values() {
    let mut settings = get_default_settings();
    settings.extension_values.push(value("y", "old", "kept"));
    let exts = vec![
        extension("x", vec![setting("s", "default")]),
        extension("y", vec![setting("a", "1"), setting("b", "2")]),
    ];
    reconcile_extension_values(&mut settings, &exts);
    let once = settings.clone();
    reconcile_extension_values(&mut settings, &exts);
    assert_eq!(settings, once);
    assert_eq!(settings.extension_values.len(), 6);
}

#[test]
fn reconcile_keeps_user_edit() {
    let mut settings = get_default_settings();
    settings.extension_values.push(value("x", "s", "custom"));
    let exts = vec![extension("x", vec![setting("s", "default")])];
    reconcile_extension_values(&mut settings, &exts);
    assert_eq!(settings.extension_values, vec![value("x", "s", "custom"), value("x", "keyword", "")]);
}

#[test]
fn reconcile_keyword_without_settings() {
    let mut settings = get_default_settings();
    let exts = vec![extension("a", vec![]), extension("b", vec![])];
    reconcile_extension_values(&mut settings, &exts);
    assert_eq!(settings.extension_values, vec![value("a", "keyword", ""), value("b", "keyword", "")]);
}

#[test]
fn reconcile_keeps_stale_values_and_other_fields() {
    let mut settings = get_default_settings();
    settings.width = 1234;
    settings.extension_values.push(value("gone", "s", "v"));
    reconcile_extension_values(&mut settings, &vec![]);
    assert_eq!(settings.extension_values, vec![value("gone", "s", "v")]);
    assert_eq!(settings.width, 1234);
}

#[test]
fn reconcile_keeps_stored_keyword() {
    let mut settings = get_default_settings();
    settings.extension_values.push(value("x", "keyword", "kw"));
    let exts = vec![extension("x", vec![])];
    reconcile_extension_values(&mut settings, &exts);
    assert_eq!(settings.extension_values, vec![value("x", "keyword", "kw")]);
}
