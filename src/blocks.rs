//! Blocks: the containers that surfaces are made of.
use vstd::prelude::*;

use crate::json::{object, opt_json, opt_to_json, Entry, ObjectWriter, ToJson};
use crate::slots::{ActionsElement, ContextElement, InputElement, SectionElement};
use crate::text::Text;
use crate::uri::Url;

verus! {

/// A row of interactive elements.
pub struct Actions {
    pub elements: Vec<ActionsElement>,
    pub block_id: Option<String>,
}

impl Actions {
    pub fn new(elements: Vec<ActionsElement>) -> (r: Actions)
        ensures
            r.elements == elements,
            r.block_id is None,
    {
        Actions { elements, block_id: None }
    }

    pub fn new_with_id(block_id: &str, elements: Vec<ActionsElement>) -> (r: Actions)
        ensures
            r.elements == elements,
            r.block_id matches Some(id) && id@ == block_id@,
    {
        Actions { elements, block_id: Some(block_id.to_string()) }
    }

    pub open spec fn entries(&self) -> Seq<Entry> {
        seq![("elements"@, Some(self.elements.json())), ("block_id"@, opt_json(self.block_id))]
    }
}

impl ToJson for Actions {
    open spec fn json(&self) -> Seq<char> {
        object(self.entries())
    }

    fn to_json(&self) -> (r: String) {
        let mut w = ObjectWriter::new();
        w.field("elements", self.elements.to_json());
        w.optional("block_id", opt_to_json(&self.block_id));
        assert(w.entries() =~= self.entries());
        w.finish()
    }
}

/// Small images and text shown as context.
pub struct Context {
    pub elements: Vec<ContextElement>,
    pub block_id: Option<String>,
}

impl Context {
    pub fn new(elements: Vec<ContextElement>) -> (r: Context)
        ensures
            r.elements == elements,
            r.block_id is None,
    {
        Context { elements, block_id: None }
    }

    pub fn new_with_id(block_id: &str, elements: Vec<ContextElement>) -> (r: Context)
        ensures
            r.elements == elements,
            r.block_id matches Some(id) && id@ == block_id@,
    {
        Context { elements, block_id: Some(block_id.to_string()) }
    }

    pub open spec fn entries(&self) -> Seq<Entry> {
        seq![("elements"@, Some(self.elements.json())), ("block_id"@, opt_json(self.block_id))]
    }
}

impl ToJson for Context {
    open spec fn json(&self) -> Seq<char> {
        object(self.entries())
    }

    fn to_json(&self) -> (r: String) {
        let mut w = ObjectWriter::new();
        w.field("elements", self.elements.to_json());
        w.optional("block_id", opt_to_json(&self.block_id));
        assert(w.entries() =~= self.entries());
        w.finish()
    }
}

/// A horizontal rule.
pub struct Divider {
    pub block_id: Option<String>,
}

impl Divider {
    pub fn new() -> (r: Divider)
        ensures
            r.block_id is None,
    {
        Divider { block_id: None }
    }

    pub fn new_with_id(block_id: &str) -> (r: Divider)
        ensures
            r.block_id matches Some(id) && id@ == block_id@,
    {
        Divider { block_id: Some(block_id.to_string()) }
    }

    pub open spec fn entries(&self) -> Seq<Entry> {
        seq![("block_id"@, opt_json(self.block_id))]
    }
}

impl ToJson for Divider {
    open spec fn json(&self) -> Seq<char> {
        object(self.entries())
    }

    fn to_json(&self) -> (r: String) {
        let mut w = ObjectWriter::new();
        w.optional("block_id", opt_to_json(&self.block_id));
        assert(w.entries() =~= self.entries());
        w.finish()
    }
}

/// A remote file.
pub struct File {
    pub external_id: String,
    pub block_id: Option<String>,
}

impl File {
    pub fn new(external_id: &str) -> (r: File)
        ensures
            r.external_id@ == external_id@,
            r.block_id is None,
    {
        File { external_id: external_id.to_string(), block_id: None }
    }

    pub fn new_with_id(block_id: &str, external_id: &str) -> (r: File)
        ensures
            r.external_id@ == external_id@,
            r.block_id matches Some(id) && id@ == block_id@,
    {
        File { external_id: external_id.to_string(), block_id: Some(block_id.to_string()) }
    }

    pub open spec fn entries(&self) -> Seq<Entry> {
        seq![
            ("external_id"@, Some(self.external_id.json())),
            ("block_id"@, opt_json(self.block_id)),
        ]
    }
}

impl ToJson for File {
    open spec fn json(&self) -> Seq<char> {
        object(self.entries())
    }

    fn to_json(&self) -> (r: String) {
        let mut w = ObjectWriter::new();
        w.field("external_id", self.external_id.to_json());
        w.optional("block_id", opt_to_json(&self.block_id));
        assert(w.entries() =~= self.entries());
        w.finish()
    }
}

/// An image shown as a block of its own.
pub struct Image {
    pub image_url: Url,
    pub alt_text: String,
    pub title: Option<Text>,
    pub block_id: Option<String>,
}

impl Image {
    pub open spec fn entries(&self) -> Seq<Entry> {
        seq![
            ("image_url"@, Some(self.image_url.json())),
            ("alt_text"@, Some(self.alt_text.json())),
            ("title"@, opt_json(self.title)),
            ("block_id"@, opt_json(self.block_id)),
        ]
    }
}

impl ToJson for Image {
    open spec fn json(&self) -> Seq<char> {
        object(self.entries())
    }

    fn to_json(&self) -> (r: String) {
        let mut w = ObjectWriter::new();
        w.field("image_url", self.image_url.to_json());
        w.field("alt_text", self.alt_text.to_json());
        w.optional("title", opt_to_json(&self.title));
        w.optional("block_id", opt_to_json(&self.block_id));
        assert(w.entries() =~= self.entries());
        w.finish()
    }
}

/// Builds an image block; the optional fields start unset.
pub struct ImageBuilder {
    image_url: Url,
    alt_text: String,
    title: Option<Text>,
    block_id: Option<String>,
}

impl View for ImageBuilder {
    type V = Image;

    /// The image block that `build` gives.
    closed spec fn view(&self) -> Image {
        Image {
            image_url: self.image_url,
            alt_text: self.alt_text,
            title: self.title,
            block_id: self.block_id,
        }
    }
}

impl ImageBuilder {
    pub fn new(url: Url, alt_text: &str) -> (r: ImageBuilder)
        ensures
            r@.image_url == url,
            r@.alt_text@ == alt_text@,
            r@.title is None,
            r@.block_id is None,
    {
        ImageBuilder { image_url: url, alt_text: alt_text.to_string(), title: None, block_id: None }
    }

    pub fn set_title(self, title: Text) -> (r: ImageBuilder)
        ensures
            r@ == (Image { title: Some(title), ..self@ }),
    {
        ImageBuilder { title: Some(title), ..self }
    }

    pub fn set_block_id(self, block_id: String) -> (r: ImageBuilder)
        ensures
            r@ == (Image { block_id: Some(block_id), ..self@ }),
    {
        ImageBuilder { block_id: Some(block_id), ..self }
    }

    pub fn build(self) -> (r: Image)
        ensures
            r == self@,
    {
        Image {
            image_url: self.image_url,
            alt_text: self.alt_text,
            title: self.title,
            block_id: self.block_id,
        }
    }
}

/// A labelled input element, for modals.
pub struct Input {
    pub label: Text,
    pub element: InputElement,
    pub block_id: Option<String>,
    /// Meant to be plain text.
    pub hint: Option<Text>,
    pub optional: Option<bool>,
}

impl Input {
    pub open spec fn entries(&self) -> Seq<Entry> {
        seq![
            ("label"@, Some(self.label.json())),
            ("element"@, Some(self.element.json())),
            ("block_id"@, opt_json(self.block_id)),
            ("hint"@, opt_json(self.hint)),
            ("optional"@, opt_json(self.optional)),
        ]
    }
}

impl ToJson for Input {
    open spec fn json(&self) -> Seq<char> {
        object(self.entries())
    }

    fn to_json(&self) -> (r: String) {
        let mut w = ObjectWriter::new();
        w.field("label", self.label.to_json());
        w.field("element", self.element.to_json());
        w.optional("block_id", opt_to_json(&self.block_id));
        w.optional("hint", opt_to_json(&self.hint));
        w.optional("optional", opt_to_json(&self.optional));
        assert(w.entries() =~= self.entries());
        w.finish()
    }
}

/// Builds an [`Input`]; the optional fields start unset.
pub struct InputBuilder {
    label: Text,
    element: InputElement,
    block_id: Option<String>,
    hint: Option<Text>,
    optional: Option<bool>,
}

impl View for InputBuilder {
    type V = Input;

    /// The input block that `build` gives.
    closed spec fn view(&self) -> Input {
        Input {
            label: self.label,
            element: self.element,
            block_id: self.block_id,
            hint: self.hint,
            optional: self.optional,
        }
    }
}

impl InputBuilder {
    pub fn new(label: Text, element: InputElement) -> (r: InputBuilder)
        ensures
            r@.label == label,
            r@.element == element,
            r@.block_id is None,
            r@.hint is None,
            r@.optional is None,
    {
        InputBuilder { label, element, block_id: None, hint: None, optional: None }
    }

    pub fn set_block_id(self, block_id: String) -> (r: InputBuilder)
        ensures
            r@ == (Input { block_id: Some(block_id), ..self@ }),
    {
        InputBuilder { block_id: Some(block_id), ..self }
    }

    pub fn set_hint(self, hint: Text) -> (r: InputBuilder)
        ensures
            r@ == (Input { hint: Some(hint), ..self@ }),
    {
        InputBuilder { hint: Some(hint), ..self }
    }

    pub fn set_optional(self, optional: bool) -> (r: InputBuilder)
        ensures
            r@ == (Input { optional: Some(optional), ..self@ }),
    {
        InputBuilder { optional: Some(optional), ..self }
    }

    pub fn build(self) -> (r: Input)
        ensures
            r == self@,
    {
        Input {
            label: self.label,
            element: self.element,
            block_id: self.block_id,
            hint: self.hint,
            optional: self.optional,
        }
    }
}

/// Text, optionally with fields and one accessory element.
pub struct Section {
    pub text: Text,
    pub block_id: Option<String>,
    pub fields: Option<Vec<Text>>,
    pub accessory: Option<SectionElement>,
}

impl Section {
    pub open spec fn entries(&self) -> Seq<Entry> {
        seq![
            ("text"@, Some(self.text.json())),
            ("block_id"@, opt_json(self.block_id)),
            ("fields"@, opt_json(self.fields)),
            ("accessory"@, opt_json(self.accessory)),
        ]
    }
}

impl ToJson for Section {
    open spec fn json(&self) -> Seq<char> {
        object(self.entries())
    }

    fn to_json(&self) -> (r: String) {
        let mut w = ObjectWriter::new();
        w.field("text", self.text.to_json());
        w.optional("block_id", opt_to_json(&self.block_id));
        w.optional("fields", opt_to_json(&self.fields));
        w.optional("accessory", opt_to_json(&self.accessory));
        assert(w.entries() =~= self.entries());
        w.finish()
    }
}

/// Builds a [`Section`]; the optional fields start unset.
pub struct SectionBuilder {
    text: Text,
    block_id: Option<String>,
    fields: Option<Vec<Text>>,
    accessory: Option<SectionElement>,
}

impl View for SectionBuilder {
    type V = Section;

    /// The section that `build` gives.
    closed spec fn view(&self) -> Section {
        Section {
            text: self.text,
            block_id: self.block_id,
            fields: self.fields,
            accessory: self.accessory,
        }
    }
}

impl SectionBuilder {
    pub fn new(text: Text) -> (r: SectionBuilder)
        ensures
            r@.text == text,
            r@.block_id is None,
            r@.fields is None,
            r@.accessory is None,
    {
        SectionBuilder { text, block_id: None, fields: None, accessory: None }
    }

    pub fn set_block_id(self, block_id: String) -> (r: SectionBuilder)
        ensures
            r@ == (Section { block_id: Some(block_id), ..self@ }),
    {
        SectionBuilder { block_id: Some(block_id), ..self }
    }

    pub fn set_fields(self, fields: Vec<Text>) -> (r: SectionBuilder)
        ensures
            r@ == (Section { fields: Some(fields), ..self@ }),
    {
        SectionBuilder { fields: Some(fields), ..self }
    }

    pub fn set_accessory(self, accessory: SectionElement) -> (r: SectionBuilder)
        ensures
            r@ == (Section { accessory: Some(accessory), ..self@ }),
    {
        SectionBuilder { accessory: Some(accessory), ..self }
    }

    pub fn build(self) -> (r: Section)
        ensures
            r == self@,
    {
        Section {
            text: self.text,
            block_id: self.block_id,
            fields: self.fields,
            accessory: self.accessory,
        }
    }
}

} // verus!
