//! Interactive elements: buttons, checkboxes, date pickers, images, text inputs
//! and radio groups.
use vstd::prelude::*;

use crate::date::Date;
use crate::json::{object, opt_json, opt_to_json, quote, quoted, Entry, ObjectWriter, ToJson};
use crate::objects::{ConfirmationDialog, OptionInput};
use crate::text::{is_plain_text, FormattingType, Text};
use crate::uri::Url;

verus! {

/// The colour scheme of a button.
#[derive(Clone, Copy, Debug, PartialEq, Eq, Structural)]
pub enum ButtonStyle {
    Danger,
    Default,
    Primary,
}

impl ButtonStyle {
    /// The wire token of the style.
    pub open spec fn token(self) -> Seq<char> {
        match self {
            ButtonStyle::Danger => "danger"@,
            ButtonStyle::Default => "default"@,
            ButtonStyle::Primary => "primary"@,
        }
    }
}

impl ToJson for ButtonStyle {
    open spec fn json(&self) -> Seq<char> {
        quoted(self.token())
    }

    fn to_json(&self) -> (r: String) {
        match self {
            ButtonStyle::Danger => quote("danger"),
            ButtonStyle::Default => quote("default"),
            ButtonStyle::Primary => quote("primary"),
        }
    }
}

pub struct Button {
    pub text: Text,
    pub action_id: String,
    pub url: Option<Url>,
    pub value: Option<String>,
    pub style: Option<ButtonStyle>,
    pub confirm: Option<ConfirmationDialog>,
}

impl Button {
    pub open spec fn entries(&self) -> Seq<Entry> {
        seq![
            ("text"@, Some(self.text.json())),
            ("action_id"@, Some(self.action_id.json())),
            ("url"@, opt_json(self.url)),
            ("value"@, opt_json(self.value)),
            ("style"@, opt_json(self.style)),
            ("confirm"@, opt_json(self.confirm)),
        ]
    }
}

impl ToJson for Button {
    open spec fn json(&self) -> Seq<char> {
        object(self.entries())
    }

    fn to_json(&self) -> (r: String) {
        let mut w = ObjectWriter::new();
        w.field("text", self.text.to_json());
        w.field("action_id", self.action_id.to_json());
        w.optional("url", opt_to_json(&self.url));
        w.optional("value", opt_to_json(&self.value));
        w.optional("style", opt_to_json(&self.style));
        w.optional("confirm", opt_to_json(&self.confirm));
        assert(w.entries() =~= self.entries());
        w.finish()
    }
}

/// Builds a [`Button`]; the optional fields start unset.
pub struct ButtonBuilder {
    text: Text,
    action_id: String,
    url: Option<Url>,
    value: Option<String>,
    style: Option<ButtonStyle>,
    confirm: Option<ConfirmationDialog>,
}

impl View for ButtonBuilder {
    type V = Button;

    /// The button that `build` gives.
    closed spec fn view(&self) -> Button {
        Button {
            text: self.text,
            action_id: self.action_id,
            url: self.url,
            value: self.value,
            style: self.style,
            confirm: self.confirm,
        }
    }
}

impl ButtonBuilder {
    pub fn new(action_id: &str, text: Text) -> (r: ButtonBuilder)
        ensures
            r@.text == text,
            r@.action_id@ == action_id@,
            r@.url is None,
            r@.value is None,
            r@.style is None,
            r@.confirm is None,
    {
        ButtonBuilder {
            action_id: action_id.to_string(),
            text,
            url: None,
            value: None,
            style: None,
            confirm: None,
        }
    }

    pub fn set_url(self, url: Url) -> (r: ButtonBuilder)
        ensures
            r@ == (Button { url: Some(url), ..self@ }),
    {
        ButtonBuilder { url: Some(url), ..self }
    }

    pub fn set_value(self, value: String) -> (r: ButtonBuilder)
        ensures
            r@ == (Button { value: Some(value), ..self@ }),
    {
        ButtonBuilder { value: Some(value), ..self }
    }

    pub fn set_style(self, style: ButtonStyle) -> (r: ButtonBuilder)
        ensures
            r@ == (Button { style: Some(style), ..self@ }),
    {
        ButtonBuilder { style: Some(style), ..self }
    }

    pub fn set_confirm(self, confirm: ConfirmationDialog) -> (r: ButtonBuilder)
        ensures
            r@ == (Button { confirm: Some(confirm), ..self@ }),
    {
        ButtonBuilder { confirm: Some(confirm), ..self }
    }

    pub fn build(self) -> (r: Button)
        ensures
            r == self@,
    {
        Button {
            text: self.text,
            action_id: self.action_id,
            url: self.url,
            value: self.value,
            style: self.style,
            confirm: self.confirm,
        }
    }
}

pub struct Checkboxes {
    pub action_id: String,
    pub options: Vec<OptionInput>,
    pub initial_options: Option<Vec<OptionInput>>,
    pub confirm: Option<ConfirmationDialog>,
}

impl Checkboxes {
    pub open spec fn entries(&self) -> Seq<Entry> {
        seq![
            ("action_id"@, Some(self.action_id.json())),
            ("options"@, Some(self.options.json())),
            ("initial_options"@, opt_json(self.initial_options)),
            ("confirm"@, opt_json(self.confirm)),
        ]
    }
}

impl ToJson for Checkboxes {
    open spec fn json(&self) -> Seq<char> {
        object(self.entries())
    }

    fn to_json(&self) -> (r: String) {
        let mut w = ObjectWriter::new();
        w.field("action_id", self.action_id.to_json());
        w.field("options", self.options.to_json());
        w.optional("initial_options", opt_to_json(&self.initial_options));
        w.optional("confirm", opt_to_json(&self.confirm));
        assert(w.entries() =~= self.entries());
        w.finish()
    }
}

/// Builds [`Checkboxes`]; the optional fields start unset.
pub struct CheckboxesBuilder {
    action_id: String,
    options: Vec<OptionInput>,
    initial_options: Option<Vec<OptionInput>>,
    confirm: Option<ConfirmationDialog>,
}

impl View for CheckboxesBuilder {
    type V = Checkboxes;

    /// The checkboxes that `build` gives.
    closed spec fn view(&self) -> Checkboxes {
        Checkboxes {
            action_id: self.action_id,
            options: self.options,
            initial_options: self.initial_options,
            confirm: self.confirm,
        }
    }
}

impl CheckboxesBuilder {
    pub fn new(action_id: String, options: Vec<OptionInput>) -> (r: CheckboxesBuilder)
        ensures
            r@.action_id == action_id,
            r@.options == options,
            r@.initial_options is None,
            r@.confirm is None,
    {
        CheckboxesBuilder { action_id, options, initial_options: None, confirm: None }
    }

    pub fn set_initial_options(self, init_options: Vec<OptionInput>) -> (r: CheckboxesBuilder)
        ensures
            r@ == (Checkboxes { initial_options: Some(init_options), ..self@ }),
    {
        CheckboxesBuilder { initial_options: Some(init_options), ..self }
    }

    pub fn set_confirm(self, confirm: ConfirmationDialog) -> (r: CheckboxesBuilder)
        ensures
            r@ == (Checkboxes { confirm: Some(confirm), ..self@ }),
    {
        CheckboxesBuilder { confirm: Some(confirm), ..self }
    }

    pub fn build(self) -> (r: Checkboxes)
        ensures
            r == self@,
    {
        Checkboxes {
            action_id: self.action_id,
            options: self.options,
            initial_options: self.initial_options,
            confirm: self.confirm,
        }
    }
}

/// An image shown inside a section or a context block.
pub struct Image {
    pub url: Url,
    pub alt_text: String,
}

impl Image {
    pub fn new(url: Url, alt_text: String) -> (r: Image)
        ensures
            r.url == url,
            r.alt_text == alt_text,
    {
        Image { url, alt_text }
    }

    pub open spec fn entries(&self) -> Seq<Entry> {
        seq![("url"@, Some(self.url.json())), ("alt_text"@, Some(self.alt_text.json()))]
    }
}

impl ToJson for Image {
    open spec fn json(&self) -> Seq<char> {
        object(self.entries())
    }

    fn to_json(&self) -> (r: String) {
        let mut w = ObjectWriter::new();
        w.field("url", self.url.to_json());
        w.field("alt_text", self.alt_text.to_json());
        assert(w.entries() =~= self.entries());
        w.finish()
    }
}

pub struct PlainTextInput {
    pub action_id: String,
    pub placeholder: Option<Text>,
    pub initial_value: Option<String>,
    pub multiline: Option<bool>,
    pub min_length: Option<u32>,
    pub max_length: Option<u32>,
}

impl PlainTextInput {
    pub open spec fn entries(&self) -> Seq<Entry> {
        seq![
            ("action_id"@, Some(self.action_id.json())),
            ("placeholder"@, opt_json(self.placeholder)),
            ("initial_value"@, opt_json(self.initial_value)),
            ("multiline"@, opt_json(self.multiline)),
            ("min_length"@, opt_json(self.min_length)),
            ("max_length"@, opt_json(self.max_length)),
        ]
    }
}

impl ToJson for PlainTextInput {
    open spec fn json(&self) -> Seq<char> {
        object(self.entries())
    }

    fn to_json(&self) -> (r: String) {
        let mut w = ObjectWriter::new();
        w.field("action_id", self.action_id.to_json());
        w.optional("placeholder", opt_to_json(&self.placeholder));
        w.optional("initial_value", opt_to_json(&self.initial_value));
        w.optional("multiline", opt_to_json(&self.multiline));
        w.optional("min_length", opt_to_json(&self.min_length));
        w.optional("max_length", opt_to_json(&self.max_length));
        assert(w.entries() =~= self.entries());
        w.finish()
    }
}

/// Builds a [`PlainTextInput`]; the optional fields start unset.
pub struct PlainTextInputBuilder {
    action_id: String,
    placeholder: Option<Text>,
    initial_value: Option<String>,
    multiline: Option<bool>,
    min_length: Option<u32>,
    max_length: Option<u32>,
}

impl View for PlainTextInputBuilder {
    type V = PlainTextInput;

    /// The input that `build` gives.
    closed spec fn view(&self) -> PlainTextInput {
        PlainTextInput {
            action_id: self.action_id,
            placeholder: self.placeholder,
            initial_value: self.initial_value,
            multiline: self.multiline,
            min_length: self.min_length,
            max_length: self.max_length,
        }
    }
}

impl PlainTextInputBuilder {
    pub fn new(action_id: &str) -> (r: PlainTextInputBuilder)
        ensures
            r@.action_id@ == action_id@,
            r@.placeholder is None,
            r@.initial_value is None,
            r@.multiline is None,
            r@.min_length is None,
            r@.max_length is None,
    {
        PlainTextInputBuilder {
            action_id: action_id.to_string(),
            placeholder: None,
            initial_value: None,
            multiline: None,
            min_length: None,
            max_length: None,
        }
    }

    pub fn set_placeholder(self, ph: Text) -> (r: PlainTextInputBuilder)
        ensures
            r@ == (PlainTextInput { placeholder: Some(ph), ..self@ }),
    {
        PlainTextInputBuilder { placeholder: Some(ph), ..self }
    }

    pub fn set_initial_value(self, value: &str) -> (r: PlainTextInputBuilder)
        ensures
            r@.initial_value matches Some(v) && v@ == value@,
            r@ == (PlainTextInput { initial_value: r@.initial_value, ..self@ }),
    {
        PlainTextInputBuilder { initial_value: Some(value.to_string()), ..self }
    }

    pub fn set_multiline(self, ml: bool) -> (r: PlainTextInputBuilder)
        ensures
            r@ == (PlainTextInput { multiline: Some(ml), ..self@ }),
    {
        PlainTextInputBuilder { multiline: Some(ml), ..self }
    }

    pub fn set_min_length(self, ml: u32) -> (r: PlainTextInputBuilder)
        ensures
            r@ == (PlainTextInput { min_length: Some(ml), ..self@ }),
    {
        PlainTextInputBuilder { min_length: Some(ml), ..self }
    }

    pub fn set_max_length(self, ml: u32) -> (r: PlainTextInputBuilder)
        ensures
            r@ == (PlainTextInput { max_length: Some(ml), ..self@ }),
    {
        PlainTextInputBuilder { max_length: Some(ml), ..self }
    }

    pub fn build(self) -> (r: PlainTextInput)
        ensures
            r == self@,
    {
        PlainTextInput {
            action_id: self.action_id,
            placeholder: self.placeholder,
            initial_value: self.initial_value,
            multiline: self.multiline,
            min_length: self.min_length,
            max_length: self.max_length,
        }
    }
}

pub struct RadioButtonGroup {
    pub action_id: String,
    pub options: Vec<OptionInput>,
    pub initial_option: Option<OptionInput>,
    pub confirm: Option<ConfirmationDialog>,
}

impl RadioButtonGroup {
    pub open spec fn entries(&self) -> Seq<Entry> {
        seq![
            ("action_id"@, Some(self.action_id.json())),
            ("options"@, Some(self.options.json())),
            ("initial_option"@, opt_json(self.initial_option)),
            ("confirm"@, opt_json(self.confirm)),
        ]
    }
}

impl ToJson for RadioButtonGroup {
    open spec fn json(&self) -> Seq<char> {
        object(self.entries())
    }

    fn to_json(&self) -> (r: String) {
        let mut w = ObjectWriter::new();
        w.field("action_id", self.action_id.to_json());
        w.field("options", self.options.to_json());
        w.optional("initial_option", opt_to_json(&self.initial_option));
        w.optional("confirm", opt_to_json(&self.confirm));
        assert(w.entries() =~= self.entries());
        w.finish()
    }
}

/// Builds a [`RadioButtonGroup`]; the optional fields start unset.
pub struct RadioButtonGroupBuilder {
    action_id: String,
    options: Vec<OptionInput>,
    initial_option: Option<OptionInput>,
    confirm: Option<ConfirmationDialog>,
}

impl View for RadioButtonGroupBuilder {
    type V = RadioButtonGroup;

    /// The group that `build` gives.
    closed spec fn view(&self) -> RadioButtonGroup {
        RadioButtonGroup {
            action_id: self.action_id,
            options: self.options,
            initial_option: self.initial_option,
            confirm: self.confirm,
        }
    }
}

impl RadioButtonGroupBuilder {
    pub fn new(action_id: &str, options: Vec<OptionInput>) -> (r: RadioButtonGroupBuilder)
        ensures
            r@.action_id@ == action_id@,
            r@.options == options,
            r@.initial_option is None,
            r@.confirm is None,
    {
        RadioButtonGroupBuilder {
            action_id: action_id.to_string(),
            options,
            initial_option: None,
            confirm: None,
        }
    }

    pub fn set_initial_option(self, init_option: OptionInput) -> (r: RadioButtonGroupBuilder)
        ensures
            r@ == (RadioButtonGroup { initial_option: Some(init_option), ..self@ }),
    {
        RadioButtonGroupBuilder { initial_option: Some(init_option), ..self }
    }

    pub fn set_confirm(self, confirm: ConfirmationDialog) -> (r: RadioButtonGroupBuilder)
        ensures
            r@ == (RadioButtonGroup { confirm: Some(confirm), ..self@ }),
    {
        RadioButtonGroupBuilder { confirm: Some(confirm), ..self }
    }

    pub fn build(self) -> (r: RadioButtonGroup)
        ensures
            r == self@,
    {
        RadioButtonGroup {
            action_id: self.action_id,
            options: self.options,
            initial_option: self.initial_option,
            confirm: self.confirm,
        }
    }
}

pub struct DatePicker {
    pub action_id: String,
    pub placeholder: Option<Text>,
    pub initial_date: Option<Date>,
    pub confirm: Option<ConfirmationDialog>,
}

impl DatePicker {
    pub fn builder(action_id: &str) -> (r: DatePickerBuilder)
        ensures
            r@.action_id@ == action_id@,
            r@.placeholder is None,
            r@.initial_date is None,
            r@.confirm is None,
    {
        DatePickerBuilder::new(action_id)
    }

    /// A date picker always names its kind first.
    pub open spec fn entries(&self) -> Seq<Entry> {
        seq![
            ("type"@, Some(quoted("datepicker"@))),
            ("action_id"@, Some(self.action_id.json())),
            ("placeholder"@, opt_json(self.placeholder)),
            ("initial_date"@, opt_json(self.initial_date)),
            ("confirm"@, opt_json(self.confirm)),
        ]
    }
}

impl ToJson for DatePicker {
    open spec fn json(&self) -> Seq<char> {
        object(self.entries())
    }

    fn to_json(&self) -> (r: String) {
        let mut w = ObjectWriter::new();
        w.field("type", quote("datepicker"));
        w.field("action_id", self.action_id.to_json());
        w.optional("placeholder", opt_to_json(&self.placeholder));
        w.optional("initial_date", opt_to_json(&self.initial_date));
        w.optional("confirm", opt_to_json(&self.confirm));
        assert(w.entries() =~= self.entries());
        w.finish()
    }
}

/// Builds a [`DatePicker`]; the optional fields start unset.
pub struct DatePickerBuilder {
    action_id: String,
    placeholder: Option<Text>,
    initial_date: Option<Date>,
    confirm: Option<ConfirmationDialog>,
}

impl View for DatePickerBuilder {
    type V = DatePicker;

    /// The date picker that `build` gives.
    closed spec fn view(&self) -> DatePicker {
        DatePicker {
            action_id: self.action_id,
            placeholder: self.placeholder,
            initial_date: self.initial_date,
            confirm: self.confirm,
        }
    }
}

impl DatePickerBuilder {
    pub fn new(action_id: &str) -> (r: DatePickerBuilder)
        ensures
            r@.action_id@ == action_id@,
            r@.placeholder is None,
            r@.initial_date is None,
            r@.confirm is None,
    {
        DatePickerBuilder {
            action_id: action_id.to_string(),
            placeholder: None,
            initial_date: None,
            confirm: None,
        }
    }

    /// The placeholder is always plain text.
    pub fn set_placeholder(self, ph: &str) -> (r: DatePickerBuilder)
        ensures
            r@.placeholder matches Some(t) && is_plain_text(t, ph@),
            r@ == (DatePicker { placeholder: r@.placeholder, ..self@ }),
    {
        let placeholder = Text::builder(FormattingType::PlainText, ph).build();
        DatePickerBuilder { placeholder: Some(placeholder), ..self }
    }

    pub fn set_initial_date(self, init_date: Date) -> (r: DatePickerBuilder)
        ensures
            r@ == (DatePicker { initial_date: Some(init_date), ..self@ }),
    {
        DatePickerBuilder { initial_date: Some(init_date), ..self }
    }

    pub fn set_confirm(self, confirm: ConfirmationDialog) -> (r: DatePickerBuilder)
        ensures
            r@ == (DatePicker { confirm: Some(confirm), ..self@ }),
    {
        DatePickerBuilder { confirm: Some(confirm), ..self }
    }

    pub fn build(self) -> (r: DatePicker)
        ensures
            r == self@,
    {
        DatePicker {
            action_id: self.action_id,
            placeholder: self.placeholder,
            initial_date: self.initial_date,
            confirm: self.confirm,
        }
    }
}

} // verus!
