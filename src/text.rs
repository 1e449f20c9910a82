//! Formatted text, the composition object that nearly every other value holds.
use vstd::prelude::*;

use crate::json::{
    keys, lemma_unset_key_absent, object, opt_json, opt_to_json, present, quote, quoted, Entry,
    ObjectWriter, ToJson,
};

verus! {

/// How the text of a [`Text`] is rendered.
#[derive(Clone, Copy, Debug, PartialEq, Eq, Structural)]
pub enum FormattingType {
    PlainText,
    Markdown,
}

impl FormattingType {
    /// The wire token of the formatting type.
    pub open spec fn token(self) -> Seq<char> {
        match self {
            FormattingType::PlainText => "plain_text"@,
            FormattingType::Markdown => "mrkdwn"@,
        }
    }
}

impl ToJson for FormattingType {
    open spec fn json(&self) -> Seq<char> {
        quoted(self.token())
    }

    fn to_json(&self) -> (r: String) {
        match self {
            FormattingType::PlainText => quote("plain_text"),
            FormattingType::Markdown => quote("mrkdwn"),
        }
    }
}

/// A formatted string. `emoji` is meant for plain text and `verbatim` for
/// markdown; whatever is set is written out.
pub struct Text {
    pub formatting_type: FormattingType,
    pub text: String,
    pub emoji: Option<bool>,
    pub verbatim: Option<bool>,
}

/// `t` is the plain text `s`, with no optional field set.
pub open spec fn is_plain_text(t: Text, s: Seq<char>) -> bool {
    &&& t.formatting_type == FormattingType::PlainText
    &&& t.text@ == s
    &&& t.emoji is None
    &&& t.verbatim is None
}

impl Text {
    pub open spec fn entries(&self) -> Seq<Entry> {
        seq![
            ("type"@, Some(self.formatting_type.json())),
            ("text"@, Some(self.text.json())),
            ("emoji"@, opt_json(self.emoji)),
            ("verbatim"@, opt_json(self.verbatim)),
        ]
    }

    pub fn builder(formatting_type: FormattingType, text: &str) -> (r: TextBuilder)
        ensures
            r@.formatting_type == formatting_type,
            r@.text@ == text@,
            r@.emoji is None,
            r@.verbatim is None,
    {
        TextBuilder::new(formatting_type, text)
    }
}

impl ToJson for Text {
    open spec fn json(&self) -> Seq<char> {
        object(self.entries())
    }

    fn to_json(&self) -> (r: String) {
        let mut w = ObjectWriter::new();
        w.field("type", self.formatting_type.to_json());
        w.field("text", self.text.to_json());
        w.optional("emoji", opt_to_json(&self.emoji));
        w.optional("verbatim", opt_to_json(&self.verbatim));
        assert(w.entries() =~= self.entries());
        w.finish()
    }
}

/// An unset `emoji` or `verbatim` leaves no key of that name in the wire form.
pub proof fn lemma_text_unset_fields_absent(t: Text)
    ensures
        t.emoji is None ==> !keys(present(t.entries())).contains("emoji"@),
        t.verbatim is None ==> !keys(present(t.entries())).contains("verbatim"@),
{
    reveal_strlit("type");
    reveal_strlit("text");
    reveal_strlit("emoji");
    reveal_strlit("verbatim");
    let e = t.entries();
    assert(e.len() == 4);
    assert(e[0].0.len() == 4 && e[1].0.len() == 4 && e[2].0.len() == 5 && e[3].0.len() == 8);
    assert forall|i: int| 0 <= i < 4 && #[trigger] e[i].0.len() == 5 implies i == 2 by {}
    assert forall|i: int| 0 <= i < 4 && #[trigger] e[i].0.len() == 8 implies i == 3 by {}
    if t.emoji is None {
        lemma_unset_key_absent(t.entries(), "emoji"@);
    }
    if t.verbatim is None {
        lemma_unset_key_absent(t.entries(), "verbatim"@);
    }
}

/// Builds a [`Text`]; the optional fields start unset.
pub struct TextBuilder {
    formatting_type: FormattingType,
    text: String,
    emoji: Option<bool>,
    verbatim: Option<bool>,
}

impl View for TextBuilder {
    type V = Text;

    /// The text that `build` gives.
    closed spec fn view(&self) -> Text {
        Text {
            formatting_type: self.formatting_type,
            text: self.text,
            emoji: self.emoji,
            verbatim: self.verbatim,
        }
    }
}

impl TextBuilder {
    pub fn new(formatting_type: FormattingType, text: &str) -> (r: TextBuilder)
        ensures
            r@.formatting_type == formatting_type,
            r@.text@ == text@,
            r@.emoji is None,
            r@.verbatim is None,
    {
        TextBuilder { formatting_type, text: text.to_string(), emoji: None, verbatim: None }
    }

    pub fn set_emoji(self, v: bool) -> (r: TextBuilder)
        ensures
            r@ == (Text { emoji: Some(v), ..self@ }),
    {
        TextBuilder { emoji: Some(v), ..self }
    }

    pub fn set_verbatim(self, v: bool) -> (r: TextBuilder)
        ensures
            r@ == (Text { verbatim: Some(v), ..self@ }),
    {
        TextBuilder { verbatim: Some(v), ..self }
    }

    pub fn build(self) -> (r: Text)
        ensures
            r == self@,
    {
        Text {
            formatting_type: self.formatting_type,
            text: self.text,
            emoji: self.emoji,
            verbatim: self.verbatim,
        }
    }
}

} // verus!
