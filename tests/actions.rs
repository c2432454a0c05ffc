use tigris_core::actions::{
    ActionType, CopyTextAction, Field, FieldType, FieldValidation, FileSystemField, OpenFormAction,
    ResultAction, RunExtensionAction, SelectField, SelectFieldValue, SliderField, SwitchField,
    TextField,
};
use tigris_core::apps::{accepts_icon, is_listed_entry, keep_installed, App};
use tigris_core::paths::{get_form_path, get_tmp_dir};
use tigris_core::search_results::SearchResult;

#[test]
fn copy_text_action_payload() {
    let a = ResultAction::new_copy_text_action(&CopyTextAction::new("hi"));
    assert!(!a.require_confirmation);
    match &a.action_type {
        ActionType::CopyText(c) => assert_eq!(c.text, "hi"),
        _ => panic!("wrong kind"),
    }
    let a = a.set_require_confirmation(true);
    assert!(a.require_confirmation);
}

#[test]
fn open_settings_has_no_payload() {
    let a = ResultAction::new_open_settings_action();
    assert_eq!(a.action_type, ActionType::OpenSettings);
}

#[test]
fn form_builder_keeps_order() {
    let f1 = Field::new_text_field("a", "A", "first", &TextField::new("x").set_placeholder("type"));
    let f2 = Field::new_switch_field("b", "B", "second", &SwitchField::new(true)).add_arg("z");
    let f3 = Field::new_slider_field("c", "C", "third", &SliderField::new(5, 0, 10, 1));
    let form = OpenFormAction::new("ext", "form", "Title", "Go")
        .add_field(&f1)
        .add_fields(&vec![f2.clone(), f3.clone()])
        .add_arg("k");
    assert_eq!(form.fields, vec![f1, f2.clone(), f3]);
    assert_eq!(form.args, vec!["k".to_string()]);
    assert_eq!(f2.args, vec!["z".to_string()]);
    assert_eq!(form.extension_id, "ext");
    assert_eq!(form.button_text, "Go");
    let a = ResultAction::new_open_form_action(&form);
    assert_eq!(a.action_type, ActionType::OpenForm(form));
}

#[test]
fn validation_builders() {
    let v = FieldValidation::new().set_only_numbers(true).set_max_characters(4);
    assert_eq!(v, FieldValidation { only_numbers: true, not_empty: false, max_characters: Some(4) });
    let t = TextField::new("").set_validation(&v.set_not_empty(true));
    assert_eq!(t.validation.unwrap().not_empty, true);
}

#[test]
fn file_system_field_builders() {
    let f = FileSystemField::new("/home").set_pick_directory(true).add_filter("png").add_filter("jpg");
    assert_eq!(f.filters, Some(vec!["png".to_string(), "jpg".to_string()]));
    assert!(f.pick_directory);
    let g = f.clone().set_not_empty(true);
    assert_eq!(g.validation, Some(FieldValidation::new().set_not_empty(true)));
    assert_eq!(g.clone().set_not_empty(false).validation, None);
    let field = Field::new_file_system_field("p", "P", "", &g);
    assert_eq!(field.field_type, FieldType::FileSystem(g));
}

#[test]
fn select_field_values() {
    let values = vec![SelectFieldValue::new("1", "One"), SelectFieldValue::new("2", "Two")];
    let s = SelectField::new("1", &values);
    assert_eq!(s.values, values);
    let field = Field::new_select_field("s", "S", "", &s);
    assert_eq!(field.field_type, FieldType::Select(s));
}

#[test]
fn run_extension_action_args() {
    let r = RunExtensionAction::new("ext", "act").add_arg("1").add_arg("2");
    assert_eq!(r.args, vec!["1".to_string(), "2".to_string()]);
    let a = ResultAction::new_run_extension_action(&r);
    assert_eq!(a.action_type, ActionType::RunExtension(r));
}

#[test]
fn search_result_builders() {
    let r = SearchResult::new("Title")
        .set_icon_path("/i.png")
        .set_icon_color("#fff")
        .set_description("desc")
        .set_action(&ResultAction::new_open_settings_action());
    assert_eq!(r.title, "Title");
    assert_eq!(r.icon_path, Some("/i.png".to_string()));
    assert_eq!(r.icon_color, Some("#fff".to_string()));
    assert_eq!(r.description, Some("desc".to_string()));
    assert_eq!(r.action, Some(ResultAction::new_open_settings_action()));
}

#[test]
fn app_builder() {
    let a = App::new("/usr/share/applications/x.desktop", "X").set_icon_path("/x.png");
    assert_eq!(a.name, "X");
    assert_eq!(a.icon_path, Some("/x.png".to_string()));
}

#[test]
fn fixed_paths() {
    assert_eq!(get_tmp_dir(), "/tmp");
    assert_eq!(get_form_path(), "/tmp/tigris-form.bin");
}

#[test]
fn listed_entries() {
    assert!(is_listed_entry(false, Some("Application")));
    assert!(!is_listed_entry(true, Some("Application")));
    assert!(!is_listed_entry(false, Some("Link")));
    assert!(!is_listed_entry(false, None));
}

#[test]
fn compressed_icons_refused() {
    assert!(accepts_icon("/icons/app.svg"));
    assert!(accepts_icon("/icons/app.png"));
    assert!(!accepts_icon("/icons/app.svgz"));
    assert!(!accepts_icon(".svgz"));
    assert!(accepts_icon("svgz"));
    assert!(accepts_icon(""));
}

#[test]
fn recent_apps_still_installed() {
    let a = App::new("/a", "A");
    let b = App::new("/b", "B");
    let c = App::new("/c", "C").set_icon_path("/c.png");
    let installed = vec![a.clone(), c.clone()];
    let recent = vec![b.clone(), c.clone(), App::new("/c", "C"), a.clone()];
    assert_eq!(keep_installed(&recent, &installed), vec![c, a]);
    assert_eq!(keep_installed(&vec![], &installed), vec![]);
    assert_eq!(keep_installed(&recent, &vec![]), vec![]);
}
