use blockkit::blocks::{
    Actions, Context, Divider, File, ImageBuilder, InputBuilder, SectionBuilder,
};
use blockkit::elements::{ButtonBuilder, DatePicker, Image, PlainTextInputBuilder};
use blockkit::json::ToJson;
use blockkit::menus::OverflowMenu;
use blockkit::objects::OptionInput;
use blockkit::slots::{ActionsElement, ContextElement, InputElement, SectionElement};
use blockkit::surfaces::{HomeTab, HomeTabBlock, Message, MessageBlock, ModalBlock, ModalBuilder};
use blockkit::text::{FormattingType, Text};
use blockkit::uri::Url;
use blockkit::views::View;

fn plain(s: &str) -> Text {
    Text::builder(FormattingType::PlainText, s).build()
}

#[test]
fn slots_leave_no_trace() {
    let direct = ButtonBuilder::new("b", plain("B")).build().to_json();
    let a: ActionsElement = ButtonBuilder::new("b", plain("B")).build().into();
    let s: SectionElement = ButtonBuilder::new("b", plain("B")).build().into();
    assert_eq!(a.to_json(), direct);
    assert_eq!(s.to_json(), direct);

    let direct = DatePicker::builder("d").build().to_json();
    let a: ActionsElement = DatePicker::builder("d").build().into();
    let s: SectionElement = DatePicker::builder("d").build().into();
    let i: InputElement = DatePicker::builder("d").build().into();
    assert_eq!(a.to_json(), direct);
    assert_eq!(s.to_json(), direct);
    assert_eq!(i.to_json(), direct);

    let direct = PlainTextInputBuilder::new("p").build().to_json();
    let i: InputElement = PlainTextInputBuilder::new("p").build().into();
    assert_eq!(i.to_json(), direct);

    let img = || Image::new(Url::parse("https://example.com/i.png").unwrap(), "i".to_string());
    let direct = img().to_json();
    let c: ContextElement = img().into();
    let s: SectionElement = img().into();
    assert_eq!(c.to_json(), direct);
    assert_eq!(s.to_json(), direct);

    let c: ContextElement = plain("t").into();
    assert_eq!(c.to_json(), plain("t").to_json());

    let opts = || vec![OptionInput::builder(plain("A"), "a").build()];
    let direct = OverflowMenu::builder("o", opts()).build().to_json();
    let a: ActionsElement = OverflowMenu::builder("o", opts()).build().into();
    assert_eq!(a.to_json(), direct);
}

#[test]
fn blocks_json() {
    let actions = Actions::new(vec![ButtonBuilder::new("b", plain("B")).build().into()]);
    assert_eq!(
        actions.to_json(),
        r#"{"elements":[{"text":{"type":"plain_text","text":"B"},"action_id":"b"}]}"#
    );
    let actions = Actions::new_with_id("id1", vec![]);
    assert_eq!(actions.to_json(), r#"{"elements":[],"block_id":"id1"}"#);
    let context = Context::new_with_id("c", vec![plain("t").into()]);
    assert_eq!(
        context.to_json(),
        r#"{"elements":[{"type":"plain_text","text":"t"}],"block_id":"c"}"#
    );
    assert_eq!(Context::new(vec![]).to_json(), r#"{"elements":[]}"#);
    assert_eq!(Divider::new().to_json(), "{}");
    assert_eq!(Divider::new_with_id("d").to_json(), r#"{"block_id":"d"}"#);
    assert_eq!(File::new("F1").to_json(), r#"{"external_id":"F1"}"#);
    assert_eq!(File::new_with_id("b", "F1").to_json(), r#"{"external_id":"F1","block_id":"b"}"#);
}

#[test]
fn image_block_json() {
    let img = ImageBuilder::new(Url::parse("https://example.com/i.png").unwrap(), "alt")
        .set_title(plain("T"))
        .set_block_id("b".to_string())
        .build();
    assert_eq!(
        img.to_json(),
        r#"{"image_url":"https://example.com/i.png","alt_text":"alt","title":{"type":"plain_text","text":"T"},"block_id":"b"}"#
    );
}

#[test]
fn section_json() {
    let section = SectionBuilder::new(plain("S")).build();
    assert_eq!(section.to_json(), r#"{"text":{"type":"plain_text","text":"S"}}"#);
    let section = SectionBuilder::new(plain("S"))
        .set_fields(vec![plain("f")])
        .set_accessory(DatePicker::builder("d").build().into())
        .build();
    assert_eq!(
        section.to_json(),
        r#"{"text":{"type":"plain_text","text":"S"},"fields":[{"type":"plain_text","text":"f"}],"accessory":{"type":"datepicker","action_id":"d"}}"#
    );
}

#[test]
fn modal_with_input_block() {
    let input = InputBuilder::new(plain("Name"), PlainTextInputBuilder::new("name").build().into())
        .set_optional(false)
        .build();
    let modal = ModalBuilder::new(plain("Title"), vec![ModalBlock::Input(input)])
        .set_submit(plain("Send"))
        .build();
    assert_eq!(
        modal.to_json(),
        r#"{"title":{"type":"plain_text","text":"Title"},"submit":{"type":"plain_text","text":"Send"},"blocks":[{"label":{"type":"plain_text","text":"Name"},"element":{"action_id":"name"},"optional":false}]}"#
    );
    let view = View::new_with_metadata(modal, "meta".to_string());
    assert_eq!(view.private_metadata.as_deref(), Some("meta"));
}

#[test]
fn home_tab_and_message() {
    let home = HomeTab::new(vec![HomeTabBlock::Divider(Divider::new())]);
    assert_eq!(home.to_json(), r#"{"blocks":[{}]}"#);
    let view = View::new(home);
    assert!(view.private_metadata.is_none());
    let message = Message::new(vec![
        MessageBlock::File(File::new("F")),
        MessageBlock::Divider(Divider::new_with_id("d")),
    ]);
    assert_eq!(message.to_json(), r#"{"blocks":[{"external_id":"F"},{"block_id":"d"}]}"#);
}
