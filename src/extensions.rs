//! An extension's manifest: who it is and which settings it declares.

use vstd::prelude::*;

verus! {

#[derive(Debug, Clone, PartialEq, Eq)]
pub struct Extension {
    pub id: String,
    pub name: String,
    pub description: String,
    pub creator_name: Option<String>,
    pub creator_link: Option<String>,
    pub repository_link: Option<String>,
    pub settings: Vec<Setting>,
}

/// A setting that an extension declares, with its default `value`.
#[derive(Debug, Clone, PartialEq, Eq)]
pub struct Setting {
    pub id: String,
    pub name: String,
    pub description: String,
    pub value: String,
    pub setting_type: SettingType,
    pub min: Option<usize>,
    pub max: Option<usize>,
    pub step: Option<usize>,
    pub select_values: Option<Vec<SelectValue>>,
    pub conditional_show: Option<Vec<ConditionalShow>>,
}

#[derive(Debug, Clone, Copy, PartialEq, Eq)]
pub enum SettingType {
    Text,
    Select,
    Switch,
    Slider,
}

#[derive(Debug, Clone, PartialEq, Eq)]
pub struct SelectValue {
    pub id: String,
    pub text: String,
}

/// Shows a setting only while another setting has the given value.
#[derive(Debug, Clone, PartialEq, Eq)]
pub struct ConditionalShow {
    pub setting_id: String,
    pub setting_value: String,
}

/// What a manifest that omits an optional text holds there.
pub fn default_none_string() -> (r: Option<String>)
    ensures
        r is None,
{
    None
}

/// What a manifest that omits an optional bound holds there.
pub fn default_none_usize() -> (r: Option<usize>)
    ensures
        r is None,
{
    None
}

/// What a manifest that omits the choices of a setting holds there.
pub fn default_select_values() -> (r: Option<Vec<SelectValue>>)
    ensures
        r is None,
{
    None
}

/// What a manifest that omits the display conditions of a setting holds there.
pub fn default_conditional_show() -> (r: Option<Vec<ConditionalShow>>)
    ensures
        r is None,
{
    None
}

} // verus!
