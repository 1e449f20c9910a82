//! Composition objects: confirmation dialogs and the options of menus and groups.
use vstd::prelude::*;

use crate::json::{object, opt_json, opt_to_json, Entry, ObjectWriter, ToJson};
use crate::text::{is_plain_text, FormattingType, Text};
use crate::uri::Url;

verus! {

/// A dialog that asks the user to confirm an action.
pub struct ConfirmationDialog {
    pub title: Text,
    pub text: Text,
    pub confirm: Text,
    pub deny: Text,
}

impl ConfirmationDialog {
    /// A dialog whose title and button labels are plain text.
    pub fn new(title_text: &str, text: Text, confirm_text: &str, deny_text: &str) -> (r:
        ConfirmationDialog)
        ensures
            is_plain_text(r.title, title_text@),
            r.text == text,
            is_plain_text(r.confirm, confirm_text@),
            is_plain_text(r.deny, deny_text@),
    {
        ConfirmationDialog {
            title: Text::builder(FormattingType::PlainText, title_text).build(),
            text,
            confirm: Text::builder(FormattingType::PlainText, confirm_text).build(),
            deny: Text::builder(FormattingType::PlainText, deny_text).build(),
        }
    }

    pub open spec fn entries(&self) -> Seq<Entry> {
        seq![
            ("title"@, Some(self.title.json())),
            ("text"@, Some(self.text.json())),
            ("confirm"@, Some(self.confirm.json())),
            ("deny"@, Some(self.deny.json())),
        ]
    }
}

impl ToJson for ConfirmationDialog {
    open spec fn json(&self) -> Seq<char> {
        object(self.entries())
    }

    fn to_json(&self) -> (r: String) {
        let mut w = ObjectWriter::new();
        w.field("title", self.title.to_json());
        w.field("text", self.text.to_json());
        w.field("confirm", self.confirm.to_json());
        w.field("deny", self.deny.to_json());
        assert(w.entries() =~= self.entries());
        w.finish()
    }
}

/// One option of a menu, a checkbox list or a radio group. A `url` is only
/// meaningful for the options of an overflow menu.
pub struct OptionInput {
    pub text: Text,
    pub value: String,
    pub description: Option<Text>,
    pub url: Option<Url>,
}

impl OptionInput {
    pub fn builder(text: Text, value: &str) -> (r: OptionInputBuilder)
        ensures
            r@.text == text,
            r@.value@ == value@,
            r@.description is None,
            r@.url is None,
    {
        OptionInputBuilder::new(text, value)
    }

    pub open spec fn entries(&self) -> Seq<Entry> {
        seq![
            ("text"@, Some(self.text.json())),
            ("value"@, Some(self.value.json())),
            ("description"@, opt_json(self.description)),
            ("url"@, opt_json(self.url)),
        ]
    }
}

impl ToJson for OptionInput {
    open spec fn json(&self) -> Seq<char> {
        object(self.entries())
    }

    fn to_json(&self) -> (r: String) {
        let mut w = ObjectWriter::new();
        w.field("text", self.text.to_json());
        w.field("value", self.value.to_json());
        w.optional("description", opt_to_json(&self.description));
        w.optional("url", opt_to_json(&self.url));
        assert(w.entries() =~= self.entries());
        w.finish()
    }
}

/// Builds an [`OptionInput`]; the optional fields start unset.
pub struct OptionInputBuilder {
    text: Text,
    value: String,
    description: Option<Text>,
    url: Option<Url>,
}

impl View for OptionInputBuilder {
    type V = OptionInput;

    /// The option that `build` gives.
    closed spec fn view(&self) -> OptionInput {
        OptionInput {
            text: self.text,
            value: self.value,
            description: self.description,
            url: self.url,
        }
    }
}

impl OptionInputBuilder {
    pub fn new(text: Text, value: &str) -> (r: OptionInputBuilder)
        ensures
            r@.text == text,
            r@.value@ == value@,
            r@.description is None,
            r@.url is None,
    {
        OptionInputBuilder { text, value: value.to_string(), description: None, url: None }
    }

    pub fn set_description(self, desc: Text) -> (r: OptionInputBuilder)
        ensures
            r@ == (OptionInput { description: Some(desc), ..self@ }),
    {
        OptionInputBuilder { description: Some(desc), ..self }
    }

    pub fn set_url(self, url: Url) -> (r: OptionInputBuilder)
        ensures
            r@ == (OptionInput { url: Some(url), ..self@ }),
    {
        OptionInputBuilder { url: Some(url), ..self }
    }

    pub fn build(self) -> (r: OptionInput)
        ensures
            r == self@,
    {
        OptionInput {
            text: self.text,
            value: self.value,
            description: self.description,
            url: self.url,
        }
    }
}

/// Options gathered under a label.
pub struct OptionInputGroup {
    pub label: Text,
    pub options: Vec<OptionInput>,
}

impl OptionInputGroup {
    pub fn new(label: Text, options: Vec<OptionInput>) -> (r: OptionInputGroup)
        ensures
            r.label == label,
            r.options == options,
    {
        OptionInputGroup { label, options }
    }

    pub open spec fn entries(&self) -> Seq<Entry> {
        seq![("label"@, Some(self.label.json())), ("options"@, Some(self.options.json()))]
    }
}

impl ToJson for OptionInputGroup {
    open spec fn json(&self) -> Seq<char> {
        object(self.entries())
    }

    fn to_json(&self) -> (r: String) {
        let mut w = ObjectWriter::new();
        w.field("label", self.label.to_json());
        w.field("options", self.options.to_json());
        assert(w.entries() =~= self.entries());
        w.finish()
    }
}

/// Any composition object.
pub enum Object {
    Text(Text),
    ConfirmationDialog(ConfirmationDialog),
    Option(OptionInput),
    OptionInputGroup(OptionInputGroup),
}

impl ToJson for Object {
    /// The wire form of the object held; the variant leaves no trace.
    open spec fn json(&self) -> Seq<char> {
        match self {
            Object::Text(e) => e.json(),
            Object::ConfirmationDialog(e) => e.json(),
            Object::Option(e) => e.json(),
            Object::OptionInputGroup(e) => e.json(),
        }
    }

    fn to_json(&self) -> (r: String) {
        match self {
            Object::Text(e) => e.to_json(),
            Object::ConfirmationDialog(e) => e.to_json(),
            Object::Option(e) => e.to_json(),
            Object::OptionInputGroup(e) => e.to_json(),
        }
    }
}

impl From<Text> for Object {
    fn from(e: Text) -> (r: Object) {
        Object::Text(e)
    }
}

impl vstd::std_specs::convert::FromSpecImpl<Text> for Object {
    open spec fn obeys_from_spec() -> bool {
        true
    }

    open spec fn from_spec(e: Text) -> Object {
        Object::Text(e)
    }
}

impl From<ConfirmationDialog> for Object {
    fn from(e: ConfirmationDialog) -> (r: Object) {
        Object::ConfirmationDialog(e)
    }
}

impl vstd::std_specs::convert::FromSpecImpl<ConfirmationDialog> for Object {
    open spec fn obeys_from_spec() -> bool {
        true
    }

    open spec fn from_spec(e: ConfirmationDialog) -> Object {
        Object::ConfirmationDialog(e)
    }
}

impl From<OptionInput> for Object {
    fn from(e: OptionInput) -> (r: Object) {
        Object::Option(e)
    }
}

impl vstd::std_specs::convert::FromSpecImpl<OptionInput> for Object {
    open spec fn obeys_from_spec() -> bool {
        true
    }

    open spec fn from_spec(e: OptionInput) -> Object {
        Object::Option(e)
    }
}

impl From<OptionInputGroup> for Object {
    fn from(e: OptionInputGroup) -> (r: Object) {
        Object::OptionInputGroup(e)
    }
}

impl vstd::std_specs::convert::FromSpecImpl<OptionInputGroup> for Object {
    open spec fn obeys_from_spec() -> bool {
        true
    }

    open spec fn from_spec(e: OptionInputGroup) -> Object {
        Object::OptionInputGroup(e)
    }
}

} // verus!
