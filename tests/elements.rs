use blockkit::date::Date;
use blockkit::elements::{
    ButtonBuilder, ButtonStyle, CheckboxesBuilder, DatePicker, Image, PlainTextInputBuilder,
    RadioButtonGroupBuilder,
};
use blockkit::json::ToJson;
use blockkit::menus::{OptionNestingType, OverflowMenu};
use blockkit::multi_select::{
    ExternalMultiMenuBuilder, MultiSelectMenu, StaticMultiMenu, UserMultiMenu,
};
use blockkit::objects::{ConfirmationDialog, OptionInput};
use blockkit::select::{
    ChannelMenu, ConversationMenu, ExternalMenuBuilder, SelectMenu, StaticMenu, UserMenu,
};
use blockkit::text::{FormattingType, Text};
use blockkit::uri::Url;

fn plain(s: &str) -> Text {
    Text::builder(FormattingType::PlainText, s).build()
}

fn option(label: &str, value: &str) -> OptionInput {
    OptionInput::builder(plain(label), value).build()
}

#[test]
fn datepicker_basic() {
    let picker = DatePicker::builder("action_id").build();
    let json = picker.to_json();
    assert_eq!(json.as_str(), r#"{"type":"datepicker","action_id":"action_id"}"#);
}

#[test]
fn full() {
    let date = Date::from_ymd(2020, 01, 01).unwrap();
    let picker = DatePicker::builder("action_id")
        .set_initial_date(date)
        .set_placeholder("placeholder")
        .build();
    let json = picker.to_json();
    assert_eq!(
        json.as_str(),
        r#"{"type":"datepicker","action_id":"action_id","placeholder":{"type":"plain_text","text":"placeholder"},"initial_date":"2020-01-01"}"#
    );
}

#[test]
fn date_text() {
    assert_eq!(Date::from_ymd(2020, 1, 1).unwrap().to_iso_string(), "2020-01-01");
    assert_eq!(Date::from_ymd(5, 3, 7).unwrap().to_iso_string(), "0005-03-07");
    assert_eq!(Date::from_ymd(-1, 12, 31).unwrap().to_iso_string(), "-0001-12-31");
    assert_eq!(Date::from_ymd(10000, 1, 1).unwrap().to_iso_string(), "+10000-01-01");
    assert_eq!(Date::from_ymd(2020, 1, 1).unwrap().to_json(), r#""2020-01-01""#);
}

#[test]
fn date_validity() {
    assert!(Date::from_ymd(2020, 2, 29).is_some());
    assert!(Date::from_ymd(2021, 2, 29).is_none());
    assert!(Date::from_ymd(1900, 2, 29).is_none());
    assert!(Date::from_ymd(2000, 2, 29).is_some());
    assert!(Date::from_ymd(2023, 4, 31).is_none());
    assert!(Date::from_ymd(2023, 0, 1).is_none());
    assert!(Date::from_ymd(2023, 13, 1).is_none());
    assert!(Date::from_ymd(2023, 1, 0).is_none());
    assert!(Date::from_ymd(262142, 12, 31).is_some());
    assert!(Date::from_ymd(262143, 1, 1).is_none());
    assert!(Date::from_ymd(-262143, 1, 1).is_some());
    assert!(Date::from_ymd(-262144, 1, 1).is_none());
}

#[test]
fn datepicker_with_confirm() {
    let confirm = ConfirmationDialog::new("T", plain("B"), "Y", "N");
    let picker = DatePicker::builder("d").set_confirm(confirm).build();
    assert_eq!(
        picker.to_json(),
        r#"{"type":"datepicker","action_id":"d","confirm":{"title":{"type":"plain_text","text":"T"},"text":{"type":"plain_text","text":"B"},"confirm":{"type":"plain_text","text":"Y"},"deny":{"type":"plain_text","text":"N"}}}"#
    );
}

#[test]
fn button_styles() {
    assert_eq!(ButtonStyle::Danger.to_json(), r#""danger""#);
    assert_eq!(ButtonStyle::Default.to_json(), r#""default""#);
    assert_eq!(ButtonStyle::Primary.to_json(), r#""primary""#);
}

#[test]
fn button_minimal_and_full() {
    let b = ButtonBuilder::new("go", plain("Go")).build();
    assert_eq!(b.to_json(), r#"{"text":{"type":"plain_text","text":"Go"},"action_id":"go"}"#);
    let b = ButtonBuilder::new("go", plain("Go"))
        .set_url(Url::parse("https://example.com/x").unwrap())
        .set_value("v".to_string())
        .set_style(ButtonStyle::Primary)
        .build();
    assert_eq!(
        b.to_json(),
        r#"{"text":{"type":"plain_text","text":"Go"},"action_id":"go","url":"https://example.com/x","value":"v","style":"primary"}"#
    );
}

#[test]
fn checkboxes_json() {
    let c = CheckboxesBuilder::new("c".to_string(), vec![option("A", "a")]).build();
    assert_eq!(
        c.to_json(),
        r#"{"action_id":"c","options":[{"text":{"type":"plain_text","text":"A"},"value":"a"}]}"#
    );
    let c = CheckboxesBuilder::new("c".to_string(), vec![])
        .set_initial_options(vec![option("A", "a")])
        .build();
    assert_eq!(
        c.to_json(),
        r#"{"action_id":"c","options":[],"initial_options":[{"text":{"type":"plain_text","text":"A"},"value":"a"}]}"#
    );
}

#[test]
fn plain_text_input_json() {
    let p = PlainTextInputBuilder::new("p").build();
    assert_eq!(p.to_json(), r#"{"action_id":"p"}"#);
    let p = PlainTextInputBuilder::new("p")
        .set_placeholder(plain("Type"))
        .set_initial_value("x")
        .set_multiline(true)
        .set_min_length(0)
        .set_max_length(4294967295)
        .build();
    assert_eq!(
        p.to_json(),
        r#"{"action_id":"p","placeholder":{"type":"plain_text","text":"Type"},"initial_value":"x","multiline":true,"min_length":0,"max_length":4294967295}"#
    );
}

#[test]
fn radio_group_json() {
    let r = RadioButtonGroupBuilder::new("r", vec![option("A", "a")])
        .set_initial_option(option("A", "a"))
        .build();
    assert_eq!(
        r.to_json(),
        r#"{"action_id":"r","options":[{"text":{"type":"plain_text","text":"A"},"value":"a"}],"initial_option":{"text":{"type":"plain_text","text":"A"},"value":"a"}}"#
    );
}

#[test]
fn image_element_json() {
    let i = Image::new(Url::parse("https://example.com/a.png").unwrap(), "alt".to_string());
    assert_eq!(i.to_json(), r#"{"url":"https://example.com/a.png","alt_text":"alt"}"#);
}

#[test]
fn overflow_menu_json() {
    let m = OverflowMenu::builder("o", vec![option("A", "a")]).build();
    assert_eq!(
        m.to_json(),
        r#"{"action_id":"o","options":[{"text":{"type":"plain_text","text":"A"},"value":"a"}]}"#
    );
}

#[test]
fn select_menus_json() {
    let s = SelectMenu::new(
        "s",
        plain("Pick"),
        StaticMenu::new(OptionNestingType::Flat(vec![option("A", "a")])).into(),
    );
    assert_eq!(
        s.to_json(),
        r#"{"action_id":"s","placeholder":{"type":"plain_text","text":"Pick"},"options":{"options":[{"text":{"type":"plain_text","text":"A"},"value":"a"}]}}"#
    );
    let e = ExternalMenuBuilder::new().set_query_length(3).build();
    assert_eq!(e.to_json(), r#"{"min_query_length":3}"#);
    assert_eq!(UserMenu::new().to_json(), "{}");
    assert_eq!(UserMenu::new_with_initial("U1").to_json(), r#"{"initial_user":"U1"}"#);
    assert_eq!(
        ConversationMenu::new_with_initial("C1").to_json(),
        r#"{"initial_conversation":"C1"}"#
    );
    assert_eq!(
        ChannelMenu::new_with_initial(OptionNestingType::Flat(vec![]), "C2").to_json(),
        r#"{"options":[],"initial_channel":"C2"}"#
    );
}

#[test]
fn multi_select_menus_json() {
    let m = MultiSelectMenu::new(
        "m",
        plain("Pick"),
        StaticMultiMenu::new_with_initial(
            OptionNestingType::Flat(vec![]),
            vec![option("A", "a")],
        )
        .into(),
    );
    assert_eq!(
        m.to_json(),
        r#"{"action_id":"m","placeholder":{"type":"plain_text","text":"Pick"},"options":{"options":[],"initial_option":[{"text":{"type":"plain_text","text":"A"},"value":"a"}]}}"#
    );
    let e = ExternalMultiMenuBuilder::new().set_query_length(vec![1, 22]).build();
    assert_eq!(e.to_json(), r#"{"min_query_length":[1,22]}"#);
    let u = UserMultiMenu::new_with_initial(vec!["U1".to_string(), "U2".to_string()]);
    assert_eq!(u.to_json(), r#"{"initial_user":["U1","U2"]}"#);
}
