//! What a search result can do when it is activated, including the form
//! sub-protocol with its typed fields.

use vstd::prelude::*;

verus! {

/// Text to put on the clipboard.
#[derive(Debug, PartialEq, Eq)]
pub struct CopyTextAction {
    pub text: String,
}

/// An image file to put on the clipboard.
#[derive(Debug, PartialEq, Eq)]
pub struct CopyImageAction {
    pub image_path: String,
}

/// A link to open in the browser.
#[derive(Debug, PartialEq, Eq)]
pub struct OpenLinkAction {
    pub link: String,
}

/// A desktop application to launch.
#[derive(Debug, PartialEq, Eq)]
pub struct OpenAppAction {
    pub path: String,
}

/// A form that the host renders and answers with a form-results request.
#[derive(Debug, PartialEq, Eq)]
pub struct OpenFormAction {
    pub extension_id: String,
    pub form_id: String,
    pub args: Vec<String>,
    pub title: String,
    pub fields: Vec<Field>,
    pub button_text: String,
}

/// One input of a form. `id` names the answer in the form results.
#[derive(Debug, PartialEq, Eq)]
pub struct Field {
    pub field_type: FieldType,
    pub id: String,
    pub args: Vec<String>,
    pub title: String,
    pub description: String,
}

/// The kind of a form field, with the data of that kind.
#[derive(Debug, PartialEq, Eq)]
pub enum FieldType {
    Text(TextField),
    TextArea(TextAreaField),
    Select(SelectField),
    Switch(SwitchField),
    Slider(SliderField),
    FileSystem(FileSystemField),
}

/// Constraints that the host checks on a submitted text value.
#[derive(Clone, Copy, Debug, PartialEq, Eq)]
pub struct FieldValidation {
    pub only_numbers: bool,
    pub not_empty: bool,
    pub max_characters: Option<usize>,
}

#[derive(Debug, PartialEq, Eq)]
pub struct TextField {
    pub value: String,
    pub placeholder: Option<String>,
    pub validation: Option<FieldValidation>,
}

#[derive(Debug, PartialEq, Eq)]
pub struct TextAreaField {
    pub value: String,
    pub placeholder: Option<String>,
    pub validation: Option<FieldValidation>,
}

#[derive(Debug, PartialEq, Eq)]
pub struct SelectField {
    pub value: String,
    pub values: Vec<SelectFieldValue>,
}

#[derive(Debug, PartialEq, Eq)]
pub struct SelectFieldValue {
    pub id: String,
    pub text: String,
}

#[derive(Clone, Copy, Debug, PartialEq, Eq)]
pub struct SwitchField {
    pub value: bool,
}

/// A numeric slider. The bounds are taken as given: `min_value <= value <= max_value`
/// is the caller's business.
#[derive(Clone, Copy, Debug, PartialEq, Eq)]
pub struct SliderField {
    pub value: usize,
    pub min_value: usize,
    pub max_value: usize,
    pub step: usize,
}

#[derive(Debug, PartialEq, Eq)]
pub struct FileSystemField {
    pub value: String,
    pub pick_directory: bool,
    pub filters: Option<Vec<String>>,
    pub validation: Option<FieldValidation>,
}

/// Runs an action of an extension, with arguments handed back to it.
#[derive(Debug, PartialEq, Eq)]
pub struct RunExtensionAction {
    pub extension_id: String,
    pub extension_action: String,
    pub args: Vec<String>,
}

/// The kind of an action, with the payload of that kind. A payload can only
/// be reached through its own variant.
#[derive(Debug, PartialEq, Eq)]
pub enum ActionType {
    CopyText(CopyTextAction),
    CopyImage(CopyImageAction),
    OpenLink(OpenLinkAction),
    OpenApp(OpenAppAction),
    OpenForm(OpenFormAction),
    RunExtension(RunExtensionAction),
    OpenSettings,
}

/// What activating a search result does; the host asks the user first when
/// `require_confirmation` is set.
#[derive(Debug, PartialEq, Eq)]
pub struct ResultAction {
    pub action_type: ActionType,
    pub require_confirmation: bool,
}

// ---------------------------------------------------------------------
// Models: every list is seen as the sequence of its elements' models
// ---------------------------------------------------------------------

pub ghost struct SelectFieldView {
    pub value: Seq<char>,
    pub values: Seq<SelectFieldValue>,
}

pub ghost struct FileSystemFieldView {
    pub value: Seq<char>,
    pub pick_directory: bool,
    pub filters: Option<Seq<Seq<char>>>,
    pub validation: Option<FieldValidation>,
}

pub ghost enum FieldTypeView {
    Text(TextField),
    TextArea(TextAreaField),
    Select(SelectFieldView),
    Switch(SwitchField),
    Slider(SliderField),
    FileSystem(FileSystemFieldView),
}

pub ghost struct FieldView {
    pub field_type: FieldTypeView,
    pub id: Seq<char>,
    pub args: Seq<Seq<char>>,
    pub title: Seq<char>,
    pub description: Seq<char>,
}

pub ghost struct OpenFormActionView {
    pub extension_id: Seq<char>,
    pub form_id: Seq<char>,
    pub args: Seq<Seq<char>>,
    pub title: Seq<char>,
    pub fields: Seq<FieldView>,
    pub button_text: Seq<char>,
}

pub ghost struct RunExtensionActionView {
    pub extension_id: Seq<char>,
    pub extension_action: Seq<char>,
    pub args: Seq<Seq<char>>,
}

pub ghost enum ActionTypeView {
    CopyText(CopyTextAction),
    CopyImage(CopyImageAction),
    OpenLink(OpenLinkAction),
    OpenApp(OpenAppAction),
    OpenForm(OpenFormActionView),
    RunExtension(RunExtensionActionView),
    OpenSettings,
}

pub ghost struct ResultActionView {
    pub action_type: ActionTypeView,
    pub require_confirmation: bool,
}

/// The texts of a list of strings, in order.
pub open spec fn strings_view(v: Seq<String>) -> Seq<Seq<char>> {
    v.map_values(|s: String| s@)
}

/// The models of a list of fields, in order.
pub open spec fn fields_view(fields: Seq<Field>) -> Seq<FieldView> {
    fields.map_values(|f: Field| f@)
}

impl View for SelectField {
    type V = SelectFieldView;

    open spec fn view(&self) -> SelectFieldView {
        SelectFieldView { value: self.value@, values: self.values@ }
    }
}

impl View for FileSystemField {
    type V = FileSystemFieldView;

    open spec fn view(&self) -> FileSystemFieldView {
        FileSystemFieldView {
            value: self.value@,
            pick_directory: self.pick_directory,
            filters: match self.filters {
                Some(f) => Some(strings_view(f@)),
                None => None,
            },
            validation: self.validation,
        }
    }
}

impl View for FieldType {
    type V = FieldTypeView;

    open spec fn view(&self) -> FieldTypeView {
        match self {
            FieldType::Text(f) => FieldTypeView::Text(*f),
            FieldType::TextArea(f) => FieldTypeView::TextArea(*f),
            FieldType::Select(f) => FieldTypeView::Select(f@),
            FieldType::Switch(f) => FieldTypeView::Switch(*f),
            FieldType::Slider(f) => FieldTypeView::Slider(*f),
            FieldType::FileSystem(f) => FieldTypeView::FileSystem(f@),
        }
    }
}

impl View for Field {
    type V = FieldView;

    open spec fn view(&self) -> FieldView {
        FieldView {
            field_type: self.field_type@,
            id: self.id@,
            args: strings_view(self.args@),
            title: self.title@,
            description: self.description@,
        }
    }
}

impl View for OpenFormAction {
    type V = OpenFormActionView;

    open spec fn view(&self) -> OpenFormActionView {
        OpenFormActionView {
            extension_id: self.extension_id@,
            form_id: self.form_id@,
            args: strings_view(self.args@),
            title: self.title@,
            fields: fields_view(self.fields@),
            button_text: self.button_text@,
        }
    }
}

impl View for RunExtensionAction {
    type V = RunExtensionActionView;

    open spec fn view(&self) -> RunExtensionActionView {
        RunExtensionActionView {
            extension_id: self.extension_id@,
            extension_action: self.extension_action@,
            args: strings_view(self.args@),
        }
    }
}

impl View for ActionType {
    type V = ActionTypeView;

    open spec fn view(&self) -> ActionTypeView {
        match self {
            ActionType::CopyText(a) => ActionTypeView::CopyText(*a),
            ActionType::CopyImage(a) => ActionTypeView::CopyImage(*a),
            ActionType::OpenLink(a) => ActionTypeView::OpenLink(*a),
            ActionType::OpenApp(a) => ActionTypeView::OpenApp(*a),
            ActionType::OpenForm(a) => ActionTypeView::OpenForm(a@),
            ActionType::RunExtension(a) => ActionTypeView::RunExtension(a@),
            ActionType::OpenSettings => ActionTypeView::OpenSettings,
        }
    }
}

impl View for ResultAction {
    type V = ResultActionView;

    open spec fn view(&self) -> ResultActionView {
        ResultActionView {
            action_type: self.action_type@,
            require_confirmation: self.require_confirmation,
        }
    }
}

// ---------------------------------------------------------------------
// Copies that keep every field
// ---------------------------------------------------------------------

/// A copy of a list of strings, element for element.
pub fn copy_strings(v: &Vec<String>) -> (r: Vec<String>)
    ensures
        r@ == v@,
{
    let r = v.clone();
    assert(r@ =~= v@);
    r
}

impl Clone for CopyTextAction {
    fn clone(&self) -> (r: Self)
        ensures
            r == *self,
    {
        CopyTextAction { text: self.text.clone() }
    }
}

impl Clone for CopyImageAction {
    fn clone(&self) -> (r: Self)
        ensures
            r == *self,
    {
        CopyImageAction { image_path: self.image_path.clone() }
    }
}

impl Clone for OpenLinkAction {
    fn clone(&self) -> (r: Self)
        ensures
            r == *self,
    {
        OpenLinkAction { link: self.link.clone() }
    }
}

impl Clone for OpenAppAction {
    fn clone(&self) -> (r: Self)
        ensures
            r == *self,
    {
        OpenAppAction { path: self.path.clone() }
    }
}

impl Clone for SelectFieldValue {
    fn clone(&self) -> (r: Self)
        ensures
            r == *self,
    {
        SelectFieldValue { id: self.id.clone(), text: self.text.clone() }
    }
}

impl Clone for TextField {
    fn clone(&self) -> (r: Self)
        ensures
            r == *self,
    {
        TextField {
            value: self.value.clone(),
            placeholder: self.placeholder.clone(),
            validation: self.validation,
        }
    }
}

impl Clone for TextAreaField {
    fn clone(&self) -> (r: Self)
        ensures
            r == *self,
    {
        TextAreaField {
            value: self.value.clone(),
            placeholder: self.placeholder.clone(),
            validation: self.validation,
        }
    }
}

impl Clone for SelectField {
    fn clone(&self) -> (r: Self)
        ensures
            r@ == self@,
    {
        let values = self.values.clone();
        assert(values@ =~= self.values@);
        SelectField { value: self.value.clone(), values }
    }
}

impl Clone for FileSystemField {
    fn clone(&self) -> (r: Self)
        ensures
            r@ == self@,
    {
        let filters = match &self.filters {
            Some(f) => Some(copy_strings(f)),
            None => None,
        };
        FileSystemField {
            value: self.value.clone(),
            pick_directory: self.pick_directory,
            filters,
            validation: self.validation,
        }
    }
}

impl Clone for FieldType {
    fn clone(&self) -> (r: Self)
        ensures
            r@ == self@,
    {
        match self {
            FieldType::Text(f) => FieldType::Text(f.clone()),
            FieldType::TextArea(f) => FieldType::TextArea(f.clone()),
            FieldType::Select(f) => FieldType::Select(f.clone()),
            FieldType::Switch(f) => FieldType::Switch(*f),
            FieldType::Slider(f) => FieldType::Slider(*f),
            FieldType::FileSystem(f) => FieldType::FileSystem(f.clone()),
        }
    }
}

impl Clone for Field {
    fn clone(&self) -> (r: Self)
        ensures
            r@ == self@,
    {
        Field {
            field_type: self.field_type.clone(),
            id: self.id.clone(),
            args: copy_strings(&self.args),
            title: self.title.clone(),
            description: self.description.clone(),
        }
    }
}

impl Clone for OpenFormAction {
    fn clone(&self) -> (r: Self)
        ensures
            r@ == self@,
    {
        let fields = self.fields.clone();
        assert(fields_view(fields@) =~= fields_view(self.fields@));
        OpenFormAction {
            extension_id: self.extension_id.clone(),
            form_id: self.form_id.clone(),
            args: copy_strings(&self.args),
            title: self.title.clone(),
            fields,
            button_text: self.button_text.clone(),
        }
    }
}

impl Clone for RunExtensionAction {
    fn clone(&self) -> (r: Self)
        ensures
            r@ == self@,
    {
        RunExtensionAction {
            extension_id: self.extension_id.clone(),
            extension_action: self.extension_action.clone(),
            args: copy_strings(&self.args),
        }
    }
}

impl Clone for ActionType {
    fn clone(&self) -> (r: Self)
        ensures
            r@ == self@,
    {
        match self {
            ActionType::CopyText(a) => ActionType::CopyText(a.clone()),
            ActionType::CopyImage(a) => ActionType::CopyImage(a.clone()),
            ActionType::OpenLink(a) => ActionType::OpenLink(a.clone()),
            ActionType::OpenApp(a) => ActionType::OpenApp(a.clone()),
            ActionType::OpenForm(a) => ActionType::OpenForm(a.clone()),
            ActionType::RunExtension(a) => ActionType::RunExtension(a.clone()),
            ActionType::OpenSettings => ActionType::OpenSettings,
        }
    }
}

impl Clone for ResultAction {
    fn clone(&self) -> (r: Self)
        ensures
            r@ == self@,
    {
        ResultAction {
            action_type: self.action_type.clone(),
            require_confirmation: self.require_confirmation,
        }
    }
}

// ---------------------------------------------------------------------
// Constructors and builders. Each returns a new value; nothing else changes.
// ---------------------------------------------------------------------

impl ResultAction {
    pub fn new_copy_text_action(action: &CopyTextAction) -> (r: Self)
        ensures
            r@ == (ResultActionView {
                action_type: ActionTypeView::CopyText(*action),
                require_confirmation: false,
            }),
    {
        ResultAction { action_type: ActionType::CopyText(action.clone()), require_confirmation: false }
    }

    pub fn new_copy_image_action(action: &CopyImageAction) -> (r: Self)
        ensures
            r@ == (ResultActionView {
                action_type: ActionTypeView::CopyImage(*action),
                require_confirmation: false,
            }),
    {
        ResultAction { action_type: ActionType::CopyImage(action.clone()), require_confirmation: false }
    }

    pub fn new_open_link_action(action: &OpenLinkAction) -> (r: Self)
        ensures
            r@ == (ResultActionView {
                action_type: ActionTypeView::OpenLink(*action),
                require_confirmation: false,
            }),
    {
        ResultAction { action_type: ActionType::OpenLink(action.clone()), require_confirmation: false }
    }

    pub fn new_open_app_action(action: &OpenAppAction) -> (r: Self)
        ensures
            r@ == (ResultActionView {
                action_type: ActionTypeView::OpenApp(*action),
                require_confirmation: false,
            }),
    {
        ResultAction { action_type: ActionType::OpenApp(action.clone()), require_confirmation: false }
    }

    pub fn new_open_form_action(action: &OpenFormAction) -> (r: Self)
        ensures
            r@ == (ResultActionView {
                action_type: ActionTypeView::OpenForm(action@),
                require_confirmation: false,
            }),
    {
        ResultAction { action_type: ActionType::OpenForm(action.clone()), require_confirmation: false }
    }

    pub fn new_run_extension_action(action: &RunExtensionAction) -> (r: Self)
        ensures
            r@ == (ResultActionView {
                action_type: ActionTypeView::RunExtension(action@),
                require_confirmation: false,
            }),
    {
        ResultAction {
            action_type: ActionType::RunExtension(action.clone()),
            require_confirmation: false,
        }
    }

    pub fn new_open_settings_action() -> (r: Self)
        ensures
            r@ == (ResultActionView {
                action_type: ActionTypeView::OpenSettings,
                require_confirmation: false,
            }),
    {
        ResultAction { action_type: ActionType::OpenSettings, require_confirmation: false }
    }

    pub fn set_require_confirmation(self, require_confirmation: bool) -> (r: Self)
        ensures
            r@ == (ResultActionView { require_confirmation, ..self@ }),
    {
        ResultAction { require_confirmation, ..self }
    }
}

impl CopyTextAction {
    pub fn new(text: &str) -> (r: Self)
        ensures
            r.text@ == text@,
    {
        CopyTextAction { text: text.to_owned() }
    }
}

impl CopyImageAction {
    pub fn new(image_path: &str) -> (r: Self)
        ensures
            r.image_path@ == image_path@,
    {
        CopyImageAction { image_path: image_path.to_owned() }
    }
}

impl OpenLinkAction {
    pub fn new(link: &str) -> (r: Self)
        ensures
            r.link@ == link@,
    {
        OpenLinkAction { link: link.to_owned() }
    }
}

impl OpenAppAction {
    pub fn new(path: &str) -> (r: Self)
        ensures
            r.path@ == path@,
    {
        OpenAppAction { path: path.to_owned() }
    }
}

impl OpenFormAction {
    /// A form with no fields and no arguments yet.
    pub fn new(extension_id: &str, form_id: &str, title: &str, button_text: &str) -> (r: Self)
        ensures
            r@ == (OpenFormActionView {
                extension_id: extension_id@,
                form_id: form_id@,
                args: Seq::empty(),
                title: title@,
                fields: Seq::empty(),
                button_text: button_text@,
            }),
    {
        let r = OpenFormAction {
            extension_id: extension_id.to_owned(),
            form_id: form_id.to_owned(),
            args: Vec::new(),
            title: title.to_owned(),
            fields: Vec::new(),
            button_text: button_text.to_owned(),
        };
        assert(fields_view(r.fields@) =~= Seq::empty());
        assert(strings_view(r.args@) =~= Seq::empty());
        r
    }

    /// Appends one field at the end of the form.
    pub fn add_field(self, field: &Field) -> (r: Self)
        ensures
            r@ == (OpenFormActionView { fields: self@.fields.push(field@), ..self@ }),
    {
        let mut r = self;
        r.fields.push(field.clone());
        assert(fields_view(r.fields@) =~= fields_view(self.fields@).push(field@));
        r
    }

    /// Appends the given fields, in their order, at the end of the form.
    pub fn add_fields(self, fields: &Vec<Field>) -> (r: Self)
        ensures
            r@ == (OpenFormActionView { fields: self@.fields + fields_view(fields@), ..self@ }),
    {
        let mut r = self;
        let mut i: usize = 0;
        while i < fields.len()
            invariant
                i <= fields.len(),
                r@ == (OpenFormActionView {
                    fields: self@.fields + fields_view(fields@.subrange(0, i as int)),
                    ..self@
                }),
            decreases fields.len() - i,
        {
            let ghost before = r.fields@;
            r.fields.push(fields[i].clone());
            assert(fields_view(r.fields@) =~= fields_view(before).push(fields@[i as int]@));
            assert(fields@.subrange(0, i + 1) =~= fields@.subrange(0, i as int).push(fields@[i as int]));
            assert(fields_view(fields@.subrange(0, i + 1)) =~= fields_view(fields@.subrange(0, i as int)).push(fields@[i as int]@));
            assert(self@.fields + fields_view(fields@.subrange(0, i + 1)) =~= (self@.fields + fields_view(fields@.subrange(0, i as int))).push(fields@[i as int]@));
            i = i + 1;
        }
        assert(fields@.subrange(0, fields.len() as int) =~= fields@);
        r
    }

    /// Appends one argument that is handed back with the form results.
    pub fn add_arg(self, arg: &str) -> (r: Self)
        ensures
            r@ == (OpenFormActionView { args: self@.args.push(arg@), ..self@ }),
    {
        let mut r = self;
        r.args.push(arg.to_owned());
        assert(strings_view(r.args@) =~= strings_view(self.args@).push(arg@));
        r
    }
}

impl Field {
    pub fn new_text_field(id: &str, title: &str, description: &str, field: &TextField) -> (r: Self)
        ensures
            r@ == (FieldView {
                field_type: FieldTypeView::Text(*field),
                id: id@,
                args: Seq::empty(),
                title: title@,
                description: description@,
            }),
    {
        let r = Field {
            field_type: FieldType::Text(field.clone()),
            id: id.to_owned(),
            args: Vec::new(),
            title: title.to_owned(),
            description: description.to_owned(),
        };
        assert(strings_view(r.args@) =~= Seq::empty());
        r
    }

    pub fn new_text_area_field(id: &str, title: &str, description: &str, field: &TextAreaField) -> (r: Self)
        ensures
            r@ == (FieldView {
                field_type: FieldTypeView::TextArea(*field),
                id: id@,
                args: Seq::empty(),
                title: title@,
                description: description@,
            }),
    {
        let r = Field {
            field_type: FieldType::TextArea(field.clone()),
            id: id.to_owned(),
            args: Vec::new(),
            title: title.to_owned(),
            description: description.to_owned(),
        };
        assert(strings_view(r.args@) =~= Seq::empty());
        r
    }

    pub fn new_select_field(id: &str, title: &str, description: &str, field: &SelectField) -> (r: Self)
        ensures
            r@ == (FieldView {
                field_type: FieldTypeView::Select(field@),
                id: id@,
                args: Seq::empty(),
                title: title@,
                description: description@,
            }),
    {
        let r = Field {
            field_type: FieldType::Select(field.clone()),
            id: id.to_owned(),
            args: Vec::new(),
            title: title.to_owned(),
            description: description.to_owned(),
        };
        assert(strings_view(r.args@) =~= Seq::empty());
        r
    }

    pub fn new_switch_field(id: &str, title: &str, description: &str, field: &SwitchField) -> (r: Self)
        ensures
            r@ == (FieldView {
                field_type: FieldTypeView::Switch(*field),
                id: id@,
                args: Seq::empty(),
                title: title@,
                description: description@,
            }),
    {
        let r = Field {
            field_type: FieldType::Switch(*field),
            id: id.to_owned(),
            args: Vec::new(),
            title: title.to_owned(),
            description: description.to_owned(),
        };
        assert(strings_view(r.args@) =~= Seq::empty());
        r
    }

    pub fn new_slider_field(id: &str, title: &str, description: &str, field: &SliderField) -> (r: Self)
        ensures
            r@ == (FieldView {
                field_type: FieldTypeView::Slider(*field),
                id: id@,
                args: Seq::empty(),
                title: title@,
                description: description@,
            }),
    {
        let r = Field {
            field_type: FieldType::Slider(*field),
            id: id.to_owned(),
            args: Vec::new(),
            title: title.to_owned(),
            description: description.to_owned(),
        };
        assert(strings_view(r.args@) =~= Seq::empty());
        r
    }

    pub fn new_file_system_field(id: &str, title: &str, description: &str, field: &FileSystemField) -> (r: Self)
        ensures
            r@ == (FieldView {
                field_type: FieldTypeView::FileSystem(field@),
                id: id@,
                args: Seq::empty(),
                title: title@,
                description: description@,
            }),
    {
        let r = Field {
            field_type: FieldType::FileSystem(field.clone()),
            id: id.to_owned(),
            args: Vec::new(),
            title: title.to_owned(),
            description: description.to_owned(),
        };
        assert(strings_view(r.args@) =~= Seq::empty());
        r
    }

    /// Appends one argument that is handed back with the answer to this field.
    pub fn add_arg(self, arg: &str) -> (r: Self)
        ensures
            r@ == (FieldView { args: self@.args.push(arg@), ..self@ }),
    {
        let mut r = self;
        r.args.push(arg.to_owned());
        assert(strings_view(r.args@) =~= strings_view(self.args@).push(arg@));
        r
    }
}

impl FieldValidation {
    /// No constraint at all.
    pub fn new() -> (r: Self)
        ensures
            r == (FieldValidation { only_numbers: false, not_empty: false, max_characters: None }),
    {
        FieldValidation { only_numbers: false, not_empty: false, max_characters: None }
    }

    /// Whether the value may hold digits only.
    pub fn set_only_numbers(self, only_numbers: bool) -> (r: Self)
        ensures
            r == (FieldValidation { only_numbers, ..self }),
    {
        FieldValidation { only_numbers, ..self }
    }

    /// Whether the value must not be empty.
    pub fn set_not_empty(self, not_empty: bool) -> (r: Self)
        ensures
            r == (FieldValidation { not_empty, ..self }),
    {
        FieldValidation { not_empty, ..self }
    }

    /// The largest number of characters that the value may have.
    pub fn set_max_characters(self, max_characters: usize) -> (r: Self)
        ensures
            r == (FieldValidation { max_characters: Some(max_characters), ..self }),
    {
        FieldValidation { max_characters: Some(max_characters), ..self }
    }
}

impl TextField {
    pub fn new(value: &str) -> (r: Self)
        ensures
            r.value@ == value@,
            r.placeholder is None,
            r.validation is None,
    {
        TextField { value: value.to_owned(), placeholder: None, validation: None }
    }

    pub fn set_placeholder(self, placeholder: &str) -> (r: Self)
        ensures
            r.value == self.value,
            r.placeholder is Some && r.placeholder->0@ == placeholder@,
            r.validation == self.validation,
    {
        TextField { placeholder: Some(placeholder.to_owned()), ..self }
    }

    pub fn set_validation(self, validation: &FieldValidation) -> (r: Self)
        ensures
            r == (TextField { validation: Some(*validation), ..self }),
    {
        TextField { validation: Some(*validation), ..self }
    }
}

impl TextAreaField {
    pub fn new(value: &str) -> (r: Self)
        ensures
            r.value@ == value@,
            r.placeholder is None,
            r.validation is None,
    {
        TextAreaField { value: value.to_owned(), placeholder: None, validation: None }
    }

    pub fn set_placeholder(self, placeholder: &str) -> (r: Self)
        ensures
            r.value == self.value,
            r.placeholder is Some && r.placeholder->0@ == placeholder@,
            r.validation == self.validation,
    {
        TextAreaField { placeholder: Some(placeholder.to_owned()), ..self }
    }

    pub fn set_validation(self, validation: &FieldValidation) -> (r: Self)
        ensures
            r == (TextAreaField { validation: Some(*validation), ..self }),
    {
        TextAreaField { validation: Some(*validation), ..self }
    }
}

impl SelectField {
    /// A choice among `values`, with `value` chosen at first.
    pub fn new(value: &str, values: &Vec<SelectFieldValue>) -> (r: Self)
        ensures
            r@ == (SelectFieldView { value: value@, values: values@ }),
    {
        let values = values.clone();
        assert(values@ =~= values@);
        SelectField { value: value.to_owned(), values }
    }
}

impl SelectFieldValue {
    pub fn new(id: &str, text: &str) -> (r: Self)
        ensures
            r.id@ == id@,
            r.text@ == text@,
    {
        SelectFieldValue { id: id.to_owned(), text: text.to_owned() }
    }
}

impl SwitchField {
    pub fn new(value: bool) -> (r: Self)
        ensures
            r == (SwitchField { value }),
    {
        SwitchField { value }
    }
}

impl SliderField {
    /// The bounds are not checked here: the caller passes consistent ones.
    pub fn new(value: usize, min_value: usize, max_value: usize, step: usize) -> (r: Self)
        ensures
            r == (SliderField { value, min_value, max_value, step }),
    {
        SliderField { value, min_value, max_value, step }
    }
}

impl FileSystemField {
    /// A file picker that starts at `value`, picks files, with no filter and
    /// no validation.
    pub fn new(value: &str) -> (r: Self)
        ensures
            r@ == (FileSystemFieldView {
                value: value@,
                pick_directory: false,
                filters: None,
                validation: None,
            }),
    {
        FileSystemField {
            value: value.to_owned(),
            pick_directory: false,
            filters: None,
            validation: None,
        }
    }

    pub fn set_pick_directory(self, pick_directory: bool) -> (r: Self)
        ensures
            r@ == (FileSystemFieldView { pick_directory, ..self@ }),
    {
        FileSystemField { pick_directory, ..self }
    }

    /// Adds a file extension to the filters; the first one creates the list.
    pub fn add_filter(self, file_extension: &str) -> (r: Self)
        ensures
            r@ == (FileSystemFieldView {
                filters: Some(
                    match self@.filters {
                        Some(f) => f,
                        None => Seq::empty(),
                    }.push(file_extension@),
                ),
                ..self@
            }),
    {
        let mut filters = match self.filters {
            Some(f) => f,
            None => {
                let empty: Vec<String> = Vec::new();
                assert(strings_view(empty@) =~= Seq::empty());
                empty
            },
        };
        let ghost before = filters@;
        filters.push(file_extension.to_owned());
        assert(strings_view(filters@) =~= strings_view(before).push(file_extension@));
        FileSystemField { filters: Some(filters), ..self }
    }

    /// A non-empty value is required when `not_empty` holds; otherwise the
    /// validation is removed.
    pub fn set_not_empty(self, not_empty: bool) -> (r: Self)
        ensures
            r@ == (FileSystemFieldView {
                validation: if not_empty {
                    Some(FieldValidation { only_numbers: false, not_empty: true, max_characters: None })
                } else {
                    None
                },
                ..self@
            }),
    {
        let validation = if not_empty {
            Some(FieldValidation::new().set_not_empty(true))
        } else {
            None
        };
        FileSystemField { validation, ..self }
    }
}

impl RunExtensionAction {
    pub fn new(extension_id: &str, extension_action: &str) -> (r: Self)
        ensures
            r@ == (RunExtensionActionView {
                extension_id: extension_id@,
                extension_action: extension_action@,
                args: Seq::empty(),
            }),
    {
        let r = RunExtensionAction {
            extension_id: extension_id.to_owned(),
            extension_action: extension_action.to_owned(),
            args: Vec::new(),
        };
        assert(strings_view(r.args@) =~= Seq::empty());
        r
    }

    /// Appends one argument that is handed to the extension's action.
    pub fn add_arg(self, arg: &str) -> (r: Self)
        ensures
            r@ == (RunExtensionActionView { args: self@.args.push(arg@), ..self@ }),
    {
        let mut r = self;
        r.args.push(arg.to_owned());
        assert(strings_view(r.args@) =~= strings_view(self.args@).push(arg@));
        r
    }
}

/// Which of the six payloads an action carries, in the order copy text,
/// copy image, open link, open app, open form, run extension.
pub open spec fn payload_slots(a: ActionTypeView) -> Seq<bool> {
    seq![
        a is CopyText,
        a is CopyImage,
        a is OpenLink,
        a is OpenApp,
        a is OpenForm,
        a is RunExtension,
    ]
}

/// Every action carries the one payload of its kind and no other; opening
/// the settings carries none.
pub proof fn result_action_has_one_payload(a: ResultAction)
    ensures
        a@.action_type is OpenSettings ==> forall|i: int| 0 <= i < 6 ==> !(#[trigger] payload_slots(a@.action_type)[i]),
        !(a@.action_type is OpenSettings) ==> exists|i: int|
            0 <= i < 6 && #[trigger] payload_slots(a@.action_type)[i]
                && forall|j: int| 0 <= j < 6 && j != i ==> !(#[trigger] payload_slots(a@.action_type)[j]),
{
    let s = payload_slots(a@.action_type);
    assert(s.len() == 6);
    match a.action_type {
        ActionType::CopyText(_) => assert(s[0]),
        ActionType::CopyImage(_) => assert(s[1]),
        ActionType::OpenLink(_) => assert(s[2]),
        ActionType::OpenApp(_) => assert(s[3]),
        ActionType::OpenForm(_) => assert(s[4]),
        ActionType::RunExtension(_) => assert(s[5]),
        ActionType::OpenSettings => {},
    }
}

} // verus!
