//! The global configuration document, its built-in defaults, and lookups of
//! an extension's stored setting values.

use vstd::prelude::*;
use crate::text::{is_true_text, parse_usize, usize_of_text};

verus! {

#[derive(Debug, Clone, PartialEq, Eq)]
pub struct Settings {
    pub width: u32,
    pub height: u32,
    pub show_recent_apps: bool,
    pub box_border_radius: u8,
    pub border_width: u8,
    pub result_border_radius: u8,
    pub icon_border_radius: u8,
    pub hide_app_icons: bool,
    pub accent_border: bool,
    pub show_shortcut_hint: bool,
    pub shortcut_key: String,
    pub theme: Theme,
    pub extension_values: Vec<ExtensionValue>,
    pub search_engines: Vec<SearchEngine>,
    pub default_search_engine: usize,
    pub blacklist: Vec<String>,
}

/// Named colours of the interface.
#[derive(Debug, Clone, PartialEq, Eq)]
pub struct Theme {
    pub accent: String,
    pub on_accent: String,
    pub danger: String,
    pub on_danger: String,
    pub background: String,
    pub secondary_background: String,
    pub tertiary_background: String,
    pub text: String,
    pub secondary_text: String,
    pub tertiary_text: String,
    pub disabled_text: String,
}

/// The stored value of one setting of one extension.
#[derive(Debug, Clone, PartialEq, Eq)]
pub struct ExtensionValue {
    pub extension_id: String,
    pub setting_id: String,
    pub value: String,
}

/// A web search engine; `query` holds `%s` where the search text goes.
#[derive(Debug, Clone, PartialEq, Eq)]
pub struct SearchEngine {
    pub id: usize,
    pub keyword: String,
    pub name: String,
    pub query: String,
}

pub ghost struct ExtensionValueView {
    pub extension_id: Seq<char>,
    pub setting_id: Seq<char>,
    pub value: Seq<char>,
}

impl View for ExtensionValue {
    type V = ExtensionValueView;

    open spec fn view(&self) -> ExtensionValueView {
        ExtensionValueView {
            extension_id: self.extension_id@,
            setting_id: self.setting_id@,
            value: self.value@,
        }
    }
}

/// The models of a list of stored values, in order.
pub open spec fn values_view(vals: Seq<ExtensionValue>) -> Seq<ExtensionValueView> {
    vals.map_values(|v: ExtensionValue| v@)
}

// ---------------------------------------------------------------------
// Built-in defaults
// ---------------------------------------------------------------------

pub fn default_height() -> (r: u32)
    ensures
        r == 660,
{
    660
}

pub fn default_width() -> (r: u32)
    ensures
        r == 900,
{
    900
}

pub fn default_true() -> (r: bool)
    ensures
        r,
{
    true
}

pub fn default_false() -> (r: bool)
    ensures
        !r,
{
    false
}

pub fn default_box_border_radius() -> (r: u8)
    ensures
        r == 16,
{
    16
}

pub fn default_result_border_radius() -> (r: u8)
    ensures
        r == 32,
{
    32
}

pub fn default_icon_border_radius() -> (r: u8)
    ensures
        r == 8,
{
    8
}

pub fn default_border_width() -> (r: u8)
    ensures
        r == 3,
{
    3
}

pub fn default_shortcut_key() -> (r: String)
    ensures
        r@ == "alt"@,
{
    "alt".to_owned()
}

/// The built-in colours.
pub open spec fn is_default_theme(t: Theme) -> bool {
    &&& t.accent@ == "#FFE072"@
    &&& t.on_accent@ == "#000000"@
    &&& t.danger@ == "#ff7272"@
    &&& t.on_danger@ == "#000000"@
    &&& t.background@ == "#141414"@
    &&& t.secondary_background@ == "#222222"@
    &&& t.tertiary_background@ == "#181818"@
    &&& t.text@ == "#f2f2f2"@
    &&& t.secondary_text@ == "#eaeaea"@
    &&& t.tertiary_text@ == "#d8d8d8"@
    &&& t.disabled_text@ == "#bdbdbd"@
}

pub fn default_theme() -> (r: Theme)
    ensures
        is_default_theme(r),
{
    Theme {
        accent: "#FFE072".to_owned(),
        on_accent: "#000000".to_owned(),
        danger: "#ff7272".to_owned(),
        on_danger: "#000000".to_owned(),
        background: "#141414".to_owned(),
        secondary_background: "#222222".to_owned(),
        tertiary_background: "#181818".to_owned(),
        text: "#f2f2f2".to_owned(),
        secondary_text: "#eaeaea".to_owned(),
        tertiary_text: "#d8d8d8".to_owned(),
        disabled_text: "#bdbdbd".to_owned(),
    }
}

pub fn default_extension_values() -> (r: Vec<ExtensionValue>)
    ensures
        r@.len() == 0,
{
    Vec::new()
}

pub open spec fn is_engine(
    e: SearchEngine,
    id: usize,
    keyword: Seq<char>,
    name: Seq<char>,
    query: Seq<char>,
) -> bool {
    e.id == id && e.keyword@ == keyword && e.name@ == name && e.query@ == query
}

/// The built-in search engines, in order.
pub open spec fn is_default_engines(v: Seq<SearchEngine>) -> bool {
    &&& v.len() == 4
    &&& is_engine(v[0], 0, "ds"@, "DuckDuckGo"@, "https://duckduckgo.com/?q=%s"@)
    &&& is_engine(v[1], 1, "gs"@, "Google"@, "https://www.google.com/search?q=%s"@)
    &&& is_engine(v[2], 2, "bs"@, "Brave Search"@, "https://search.brave.com/search?q=%s"@)
    &&& is_engine(v[3], 3, "ss"@, "Startpage"@, "https://www.startpage.com/do/dsearch?q=%s"@)
}

pub fn default_search_engines() -> (r: Vec<SearchEngine>)
    ensures
        is_default_engines(r@),
{
    let mut v: Vec<SearchEngine> = Vec::new();
    v.push(
        SearchEngine {
            id: 0,
            keyword: "ds".to_owned(),
            name: "DuckDuckGo".to_owned(),
            query: "https://duckduckgo.com/?q=%s".to_owned(),
        },
    );
    v.push(
        SearchEngine {
            id: 1,
            keyword: "gs".to_owned(),
            name: "Google".to_owned(),
            query: "https://www.google.com/search?q=%s".to_owned(),
        },
    );
    v.push(
        SearchEngine {
            id: 2,
            keyword: "bs".to_owned(),
            name: "Brave Search".to_owned(),
            query: "https://search.brave.com/search?q=%s".to_owned(),
        },
    );
    v.push(
        SearchEngine {
            id: 3,
            keyword: "ss".to_owned(),
            name: "Startpage".to_owned(),
            query: "https://www.startpage.com/do/dsearch?q=%s".to_owned(),
        },
    );
    v
}

pub fn default_search_engine() -> (r: usize)
    ensures
        r == 0,
{
    0
}

pub fn default_blacklist() -> (r: Vec<String>)
    ensures
        r@.len() == 0,
{
    Vec::new()
}

/// The document used when none is stored or the stored one cannot be read.
pub open spec fn is_default_settings(s: Settings) -> bool {
    &&& s.width == 900
    &&& s.height == 660
    &&& s.show_recent_apps
    &&& s.box_border_radius == 16
    &&& s.border_width == 3
    &&& s.result_border_radius == 32
    &&& s.icon_border_radius == 8
    &&& !s.hide_app_icons
    &&& !s.accent_border
    &&& s.show_shortcut_hint
    &&& s.shortcut_key@ == "alt"@
    &&& is_default_theme(s.theme)
    &&& s.extension_values@.len() == 0
    &&& is_default_engines(s.search_engines@)
    &&& s.default_search_engine == 0
    &&& s.blacklist@.len() == 0
}

pub fn get_default_settings() -> (r: Settings)
    ensures
        is_default_settings(r),
{
    Settings {
        width: default_width(),
        height: default_height(),
        show_recent_apps: true,
        box_border_radius: default_box_border_radius(),
        border_width: default_border_width(),
        result_border_radius: default_result_border_radius(),
        icon_border_radius: default_icon_border_radius(),
        hide_app_icons: false,
        accent_border: false,
        show_shortcut_hint: true,
        shortcut_key: default_shortcut_key(),
        theme: default_theme(),
        extension_values: default_extension_values(),
        search_engines: default_search_engines(),
        default_search_engine: default_search_engine(),
        blacklist: default_blacklist(),
    }
}

/// The stored document when one could be decoded, else the defaults.
pub fn settings_or_default(stored: Option<Settings>) -> (r: Settings)
    ensures
        match stored {
            Some(s) => r == s,
            None => is_default_settings(r),
        },
{
    match stored {
        Some(s) => s,
        None => get_default_settings(),
    }
}

// ---------------------------------------------------------------------
// Lookups of stored extension values
// ---------------------------------------------------------------------

/// `i` is the first stored value for extension `e` and setting `s`.
pub open spec fn is_first_value(vals: Seq<ExtensionValueView>, e: Seq<char>, s: Seq<char>, i: int) -> bool {
    &&& 0 <= i < vals.len()
    &&& vals[i].extension_id == e && vals[i].setting_id == s
    &&& forall|j: int| 0 <= j < i ==> !(vals[j].extension_id == e && vals[j].setting_id == s)
}

/// The first stored value of setting `s` of extension `e`, if any.
pub open spec fn lookup_value(vals: Seq<ExtensionValueView>, e: Seq<char>, s: Seq<char>) -> Option<Seq<char>> {
    if exists|i: int| is_first_value(vals, e, s, i) {
        Some(vals[choose|i: int| is_first_value(vals, e, s, i)].value)
    } else {
        None
    }
}

pub open spec fn setting_not_found_message() -> Seq<char> {
    "Could not find setting with given values"@
}

pub open spec fn setting_not_a_number_message() -> Seq<char> {
    "Error parsing setting to usize"@
}

/// The stored value of setting `setting_id` of extension `extension_id`.
pub fn get_extension_setting(settings: &Settings, extension_id: &str, setting_id: &str) -> (r: Result<String, String>)
    ensures
        match lookup_value(values_view(settings.extension_values@), extension_id@, setting_id@) {
            Some(v) => r is Ok && r->Ok_0@ == v,
            None => r is Err && r->Err_0@ == setting_not_found_message(),
        },
{
    let e = extension_id.to_owned();
    let s = setting_id.to_owned();
    let ghost vals = values_view(settings.extension_values@);
    let mut i: usize = 0;
    while i < settings.extension_values.len()
        invariant
            i <= settings.extension_values.len(),
            vals == values_view(settings.extension_values@),
            e@ == extension_id@,
            s@ == setting_id@,
            forall|j: int| 0 <= j < i ==> !(vals[j].extension_id == e@ && vals[j].setting_id == s@),
        decreases settings.extension_values.len() - i,
    {
        let v = &settings.extension_values[i];
        if v.extension_id == e && v.setting_id == s {
            assert(is_first_value(vals, e@, s@, i as int));
            assert forall|k: int| is_first_value(vals, e@, s@, k) implies k == i by {
                if k < i {
                    assert(!(vals[k].extension_id == e@ && vals[k].setting_id == s@));
                } else if k > i {
                    assert(vals[i as int].extension_id == e@ && vals[i as int].setting_id == s@);
                }
            }
            return Ok(v.value.clone());
        }
        i = i + 1;
    }
    Err("Could not find setting with given values".to_owned())
}

/// Whether the stored value is exactly `true`.
pub fn get_bool_extension_setting(settings: &Settings, extension_id: &str, setting_id: &str) -> (r: Result<bool, String>)
    ensures
        match lookup_value(values_view(settings.extension_values@), extension_id@, setting_id@) {
            Some(v) => r == Ok::<bool, String>(v == "true"@),
            None => r is Err && r->Err_0@ == setting_not_found_message(),
        },
{
    match get_extension_setting(settings, extension_id, setting_id) {
        Ok(v) => Ok(is_true_text(&v)),
        Err(e) => Err(e),
    }
}

/// The non-negative integer that the stored value writes.
pub fn get_usize_extension_setting(settings: &Settings, extension_id: &str, setting_id: &str) -> (r: Result<usize, String>)
    ensures
        match lookup_value(values_view(settings.extension_values@), extension_id@, setting_id@) {
            Some(v) => match usize_of_text(v) {
                Some(n) => r == Ok::<usize, String>(n),
                None => r is Err && r->Err_0@ == setting_not_a_number_message(),
            },
            None => r is Err && r->Err_0@ == setting_not_found_message(),
        },
{
    match get_extension_setting(settings, extension_id, setting_id) {
        Ok(v) => match parse_usize(v.as_str()) {
            Some(n) => Ok(n),
            None => Err("Error parsing setting to usize".to_owned()),
        },
        Err(e) => Err(e),
    }
}

} // verus!
