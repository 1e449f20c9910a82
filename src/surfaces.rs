//! Surfaces: the top-level payloads, each with the closed list of blocks it may hold.
use vstd::prelude::*;

use crate::blocks::{Actions, Context, Divider, File, Image, Input, Section};
use crate::json::{object, opt_json, opt_to_json, Entry, ObjectWriter, ToJson};
use crate::text::Text;

verus! {

/// The home tab of an app.
pub struct HomeTab {
    pub blocks: Vec<HomeTabBlock>,
}

impl HomeTab {
    pub fn new(blocks: Vec<HomeTabBlock>) -> (r: HomeTab)
        ensures
            r.blocks == blocks,
    {
        HomeTab { blocks }
    }

    pub open spec fn entries(&self) -> Seq<Entry> {
        seq![("blocks"@, Some(self.blocks.json()))]
    }
}

impl ToJson for HomeTab {
    open spec fn json(&self) -> Seq<char> {
        object(self.entries())
    }

    fn to_json(&self) -> (r: String) {
        let mut w = ObjectWriter::new();
        w.field("blocks", self.blocks.to_json());
        assert(w.entries() =~= self.entries());
        w.finish()
    }
}

/// A dialog. Its title and button captions are meant to be short plain text.
pub struct Modal {
    pub title: Text,
    pub close: Option<Text>,
    pub submit: Option<Text>,
    pub blocks: Vec<ModalBlock>,
}

impl Modal {
    pub open spec fn entries(&self) -> Seq<Entry> {
        seq![
            ("title"@, Some(self.title.json())),
            ("close"@, opt_json(self.close)),
            ("submit"@, opt_json(self.submit)),
            ("blocks"@, Some(self.blocks.json())),
        ]
    }
}

impl ToJson for Modal {
    open spec fn json(&self) -> Seq<char> {
        object(self.entries())
    }

    fn to_json(&self) -> (r: String) {
        let mut w = ObjectWriter::new();
        w.field("title", self.title.to_json());
        w.optional("close", opt_to_json(&self.close));
        w.optional("submit", opt_to_json(&self.submit));
        w.field("blocks", self.blocks.to_json());
        assert(w.entries() =~= self.entries());
        w.finish()
    }
}

/// Builds a [`Modal`]; the captions start unset.
pub struct ModalBuilder {
    title: Text,
    blocks: Vec<ModalBlock>,
    close: Option<Text>,
    submit: Option<Text>,
}

impl View for ModalBuilder {
    type V = Modal;

    /// The modal that `build` gives.
    closed spec fn view(&self) -> Modal {
        Modal { title: self.title, close: self.close, submit: self.submit, blocks: self.blocks }
    }
}

impl ModalBuilder {
    pub fn new(title: Text, blocks: Vec<ModalBlock>) -> (r: ModalBuilder)
        ensures
            r@.title == title,
            r@.blocks == blocks,
            r@.close is None,
            r@.submit is None,
    {
        ModalBuilder { title, blocks, close: None, submit: None }
    }

    pub fn set_close(self, close: Text) -> (r: ModalBuilder)
        ensures
            r@ == (Modal { close: Some(close), ..self@ }),
    {
        ModalBuilder { close: Some(close), ..self }
    }

    pub fn set_submit(self, submit: Text) -> (r: ModalBuilder)
        ensures
            r@ == (Modal { submit: Some(submit), ..self@ }),
    {
        ModalBuilder { submit: Some(submit), ..self }
    }

    pub fn build(self) -> (r: Modal)
        ensures
            r == self@,
    {
        Modal { title: self.title, close: self.close, submit: self.submit, blocks: self.blocks }
    }
}

/// A message posted to a conversation.
pub struct Message {
    pub blocks: Vec<MessageBlock>,
}

impl Message {
    pub fn new(blocks: Vec<MessageBlock>) -> (r: Message)
        ensures
            r.blocks == blocks,
    {
        Message { blocks }
    }

    pub open spec fn entries(&self) -> Seq<Entry> {
        seq![("blocks"@, Some(self.blocks.json()))]
    }
}

impl ToJson for Message {
    open spec fn json(&self) -> Seq<char> {
        object(self.entries())
    }

    fn to_json(&self) -> (r: String) {
        let mut w = ObjectWriter::new();
        w.field("blocks", self.blocks.to_json());
        assert(w.entries() =~= self.entries());
        w.finish()
    }
}

/// The blocks a modal may hold.
pub enum ModalBlock {
    Actions(Actions),
    Context(Context),
    Divider(Divider),
    Image(Image),
    Input(Input),
    Section(Section),
}

impl ToJson for ModalBlock {
    /// The wire form of the block held; the variant leaves no trace.
    open spec fn json(&self) -> Seq<char> {
        match self {
            ModalBlock::Actions(e) => e.json(),
            ModalBlock::Context(e) => e.json(),
            ModalBlock::Divider(e) => e.json(),
            ModalBlock::Image(e) => e.json(),
            ModalBlock::Input(e) => e.json(),
            ModalBlock::Section(e) => e.json(),
        }
    }

    fn to_json(&self) -> (r: String) {
        match self {
            ModalBlock::Actions(e) => e.to_json(),
            ModalBlock::Context(e) => e.to_json(),
            ModalBlock::Divider(e) => e.to_json(),
            ModalBlock::Image(e) => e.to_json(),
            ModalBlock::Input(e) => e.to_json(),
            ModalBlock::Section(e) => e.to_json(),
        }
    }
}

/// The blocks a home tab may hold.
pub enum HomeTabBlock {
    Actions(Actions),
    Context(Context),
    Divider(Divider),
    Image(Image),
    Section(Section),
}

impl ToJson for HomeTabBlock {
    /// The wire form of the block held; the variant leaves no trace.
    open spec fn json(&self) -> Seq<char> {
        match self {
            HomeTabBlock::Actions(e) => e.json(),
            HomeTabBlock::Context(e) => e.json(),
            HomeTabBlock::Divider(e) => e.json(),
            HomeTabBlock::Image(e) => e.json(),
            HomeTabBlock::Section(e) => e.json(),
        }
    }

    fn to_json(&self) -> (r: String) {
        match self {
            HomeTabBlock::Actions(e) => e.to_json(),
            HomeTabBlock::Context(e) => e.to_json(),
            HomeTabBlock::Divider(e) => e.to_json(),
            HomeTabBlock::Image(e) => e.to_json(),
            HomeTabBlock::Section(e) => e.to_json(),
        }
    }
}

/// The blocks a message may hold.
pub enum MessageBlock {
    Actions(Actions),
    Context(Context),
    Divider(Divider),
    File(File),
    Image(Image),
    Section(Section),
}

impl ToJson for MessageBlock {
    /// The wire form of the block held; the variant leaves no trace.
    open spec fn json(&self) -> Seq<char> {
        match self {
            MessageBlock::Actions(e) => e.json(),
            MessageBlock::Context(e) => e.json(),
            MessageBlock::Divider(e) => e.json(),
            MessageBlock::File(e) => e.json(),
            MessageBlock::Image(e) => e.json(),
            MessageBlock::Section(e) => e.json(),
        }
    }

    fn to_json(&self) -> (r: String) {
        match self {
            MessageBlock::Actions(e) => e.to_json(),
            MessageBlock::Context(e) => e.to_json(),
            MessageBlock::Divider(e) => e.to_json(),
            MessageBlock::File(e) => e.to_json(),
            MessageBlock::Image(e) => e.to_json(),
            MessageBlock::Section(e) => e.to_json(),
        }
    }
}

} // verus!
