use blockkit::json::ToJson;
use blockkit::objects::{ConfirmationDialog, Object, OptionInput, OptionInputGroup};
use blockkit::text::{FormattingType, Text, TextBuilder};
use blockkit::uri::Url;

#[test]
fn confirmation_dialog_basic() {
    let dialog = ConfirmationDialog::new(
        "Confirm?",
        Text::builder(FormattingType::Markdown, "testing").build(),
        "Yes",
        "No",
    );
    let json = dialog.to_json();
    assert_eq!(
        json.as_str(),
        r#"{"title":{"type":"plain_text","text":"Confirm?"},"text":{"type":"mrkdwn","text":"testing"},"confirm":{"type":"plain_text","text":"Yes"},"deny":{"type":"plain_text","text":"No"}}"#
    );
}

#[test]
fn object_serialize() {
    let dialog: Object = ConfirmationDialog::new(
        "Confirm?",
        Text::builder(FormattingType::Markdown, "testing").build(),
        "Yes",
        "No",
    )
    .into();

    let json = dialog.to_json();
    assert_eq!(
        json.as_str(),
        r#"{"title":{"type":"plain_text","text":"Confirm?"},"text":{"type":"mrkdwn","text":"testing"},"confirm":{"type":"plain_text","text":"Yes"},"deny":{"type":"plain_text","text":"No"}}"#
    );
}

#[test]
fn option_basic() {
    let text = Text::builder(FormattingType::PlainText, "Maru").build();
    let option = OptionInput::builder(text, "maru").build();
    let json = option.to_json();
    assert_eq!(
        json.as_str(),
        r#"{"text":{"type":"plain_text","text":"Maru"},"value":"maru"}"#
    );
}

#[test]
fn all() {
    let text = Text::builder(FormattingType::Markdown, "Maru").build();
    let desc = Text::builder(FormattingType::PlainText, "A test option").build();
    let option = OptionInput::builder(text, "maru")
        .set_url(Url::parse("https://slack.example.com/redirect?code=123").unwrap())
        .set_description(desc)
        .build();
    let json = option.to_json();
    assert_eq!(
        json.as_str(),
        r#"{"text":{"type":"mrkdwn","text":"Maru"},"value":"maru","description":{"type":"plain_text","text":"A test option"},"url":"https://slack.example.com/redirect?code=123"}"#
    );
}

#[test]
fn text_plain() {
    let text = TextBuilder::new(FormattingType::PlainText, "hello, world").build();
    let json = text.to_json();
    assert_eq!(json.as_str(), r#"{"type":"plain_text","text":"hello, world"}"#);
}

#[test]
fn text_all() {
    let text = TextBuilder::new(FormattingType::Markdown, "hello, world")
        .set_emoji(true)
        .set_verbatim(false)
        .build();
    let json = text.to_json();
    assert_eq!(
        json.as_str(),
        r#"{"type":"mrkdwn","text":"hello, world","emoji":true,"verbatim":false}"#
    );
}

#[test]
fn formatting_type_tokens() {
    assert_eq!(FormattingType::PlainText.to_json(), r#""plain_text""#);
    assert_eq!(FormattingType::Markdown.to_json(), r#""mrkdwn""#);
}

#[test]
fn text_only_emoji_set() {
    let text = TextBuilder::new(FormattingType::PlainText, "hi").set_emoji(false).build();
    assert_eq!(text.to_json(), r#"{"type":"plain_text","text":"hi","emoji":false}"#);
}

#[test]
fn text_escapes_like_serde_json() {
    let raw = "say \"hi\"\\ \n\t\r\u{8}\u{c}\u{1}\u{1f} é ✓ /";
    let text = TextBuilder::new(FormattingType::PlainText, raw).build();
    let expected = format!(
        r#"{{"type":"plain_text","text":{}}}"#,
        serde_json::to_string(raw).unwrap()
    );
    assert_eq!(text.to_json(), expected);
}

#[test]
fn empty_text() {
    let text = TextBuilder::new(FormattingType::Markdown, "").build();
    assert_eq!(text.to_json(), r#"{"type":"mrkdwn","text":""}"#);
}

#[test]
fn option_with_description_only() {
    let text = Text::builder(FormattingType::PlainText, "Maru").build();
    let desc = Text::builder(FormattingType::PlainText, "d").build();
    let option = OptionInput::builder(text, "maru").set_description(desc).build();
    assert_eq!(
        option.to_json(),
        r#"{"text":{"type":"plain_text","text":"Maru"},"value":"maru","description":{"type":"plain_text","text":"d"}}"#
    );
}

#[test]
fn option_group_and_object_transparency() {
    let a = OptionInput::builder(Text::builder(FormattingType::PlainText, "A").build(), "a").build();
    let b = OptionInput::builder(Text::builder(FormattingType::PlainText, "B").build(), "b").build();
    let group = OptionInputGroup::new(Text::builder(FormattingType::PlainText, "G").build(), vec![a, b]);
    let direct = group.to_json();
    assert_eq!(
        direct,
        r#"{"label":{"type":"plain_text","text":"G"},"options":[{"text":{"type":"plain_text","text":"A"},"value":"a"},{"text":{"type":"plain_text","text":"B"},"value":"b"}]}"#
    );
    let wrapped: Object = group.into();
    assert_eq!(wrapped.to_json(), direct);
    let empty = OptionInputGroup::new(Text::builder(FormattingType::PlainText, "E").build(), vec![]);
    assert_eq!(empty.to_json(), r#"{"label":{"type":"plain_text","text":"E"},"options":[]}"#);
}

#[test]
fn url_is_normalised_by_the_parser() {
    let url = Url::parse("HTTPS://Example.COM").unwrap();
    assert_eq!(url.as_str(), "https://example.com/");
    let text = Text::builder(FormattingType::PlainText, "x").build();
    let option = OptionInput::builder(text, "x").set_url(url).build();
    assert_eq!(
        option.to_json(),
        r#"{"text":{"type":"plain_text","text":"x"},"value":"x","url":"https://example.com/"}"#
    );
}

#[test]
fn url_refused() {
    assert!(Url::parse("not a url").is_err());
    assert!(Url::parse("").is_err());
}
