//! The slots: for each place in a block, the closed list of elements that may
//! stand there. An element can only be put where its slot has a variant for it.
use vstd::prelude::*;

use crate::elements::{Button, Checkboxes, DatePicker, Image, PlainTextInput, RadioButtonGroup};
use crate::json::ToJson;
use crate::menus::OverflowMenu;
use crate::multi_select::MultiSelectMenu;
use crate::select::SelectMenu;
use crate::text::Text;
#[allow(unused_imports)]
use vstd::std_specs::convert::FromSpec;

verus! {

/// The elements a section may hold as its accessory.
pub enum SectionElement {
    Button(Button),
    Checkboxes(Checkboxes),
    DatePicker(DatePicker),
    Image(Image),
    MultiSelectMenu(MultiSelectMenu),
    OverflowMenu(OverflowMenu),
    PlainTextInput(PlainTextInput),
    RadioButtonGroup(RadioButtonGroup),
    SelectMenu(SelectMenu),
}

impl ToJson for SectionElement {
    /// The wire form of the element held; the slot leaves no trace.
    open spec fn json(&self) -> Seq<char> {
        match self {
            SectionElement::Button(e) => e.json(),
            SectionElement::Checkboxes(e) => e.json(),
            SectionElement::DatePicker(e) => e.json(),
            SectionElement::Image(e) => e.json(),
            SectionElement::MultiSelectMenu(e) => e.json(),
            SectionElement::OverflowMenu(e) => e.json(),
            SectionElement::PlainTextInput(e) => e.json(),
            SectionElement::RadioButtonGroup(e) => e.json(),
            SectionElement::SelectMenu(e) => e.json(),
        }
    }

    fn to_json(&self) -> (r: String) {
        match self {
            SectionElement::Button(e) => e.to_json(),
            SectionElement::Checkboxes(e) => e.to_json(),
            SectionElement::DatePicker(e) => e.to_json(),
            SectionElement::Image(e) => e.to_json(),
            SectionElement::MultiSelectMenu(e) => e.to_json(),
            SectionElement::OverflowMenu(e) => e.to_json(),
            SectionElement::PlainTextInput(e) => e.to_json(),
            SectionElement::RadioButtonGroup(e) => e.to_json(),
            SectionElement::SelectMenu(e) => e.to_json(),
        }
    }
}

impl From<Button> for SectionElement {
    fn from(e: Button) -> (r: SectionElement) {
        SectionElement::Button(e)
    }
}

impl vstd::std_specs::convert::FromSpecImpl<Button> for SectionElement {
    open spec fn obeys_from_spec() -> bool {
        true
    }

    open spec fn from_spec(e: Button) -> SectionElement {
        SectionElement::Button(e)
    }
}

impl From<Checkboxes> for SectionElement {
    fn from(e: Checkboxes) -> (r: SectionElement) {
        SectionElement::Checkboxes(e)
    }
}

impl vstd::std_specs::convert::FromSpecImpl<Checkboxes> for SectionElement {
    open spec fn obeys_from_spec() -> bool {
        true
    }

    open spec fn from_spec(e: Checkboxes) -> SectionElement {
        SectionElement::Checkboxes(e)
    }
}

impl From<DatePicker> for SectionElement {
    fn from(e: DatePicker) -> (r: SectionElement) {
        SectionElement::DatePicker(e)
    }
}

impl vstd::std_specs::convert::FromSpecImpl<DatePicker> for SectionElement {
    open spec fn obeys_from_spec() -> bool {
        true
    }

    open spec fn from_spec(e: DatePicker) -> SectionElement {
        SectionElement::DatePicker(e)
    }
}

impl From<Image> for SectionElement {
    fn from(e: Image) -> (r: SectionElement) {
        SectionElement::Image(e)
    }
}

impl vstd::std_specs::convert::FromSpecImpl<Image> for SectionElement {
    open spec fn obeys_from_spec() -> bool {
        true
    }

    open spec fn from_spec(e: Image) -> SectionElement {
        SectionElement::Image(e)
    }
}

impl From<MultiSelectMenu> for SectionElement {
    fn from(e: MultiSelectMenu) -> (r: SectionElement) {
        SectionElement::MultiSelectMenu(e)
    }
}

impl vstd::std_specs::convert::FromSpecImpl<MultiSelectMenu> for SectionElement {
    open spec fn obeys_from_spec() -> bool {
        true
    }

    open spec fn from_spec(e: MultiSelectMenu) -> SectionElement {
        SectionElement::MultiSelectMenu(e)
    }
}

impl From<OverflowMenu> for SectionElement {
    fn from(e: OverflowMenu) -> (r: SectionElement) {
        SectionElement::OverflowMenu(e)
    }
}

impl vstd::std_specs::convert::FromSpecImpl<OverflowMenu> for SectionElement {
    open spec fn obeys_from_spec() -> bool {
        true
    }

    open spec fn from_spec(e: OverflowMenu) -> SectionElement {
        SectionElement::OverflowMenu(e)
    }
}

impl From<PlainTextInput> for SectionElement {
    fn from(e: PlainTextInput) -> (r: SectionElement) {
        SectionElement::PlainTextInput(e)
    }
}

impl vstd::std_specs::convert::FromSpecImpl<PlainTextInput> for SectionElement {
    open spec fn obeys_from_spec() -> bool {
        true
    }

    open spec fn from_spec(e: PlainTextInput) -> SectionElement {
        SectionElement::PlainTextInput(e)
    }
}

impl From<RadioButtonGroup> for SectionElement {
    fn from(e: RadioButtonGroup) -> (r: SectionElement) {
        SectionElement::RadioButtonGroup(e)
    }
}

impl vstd::std_specs::convert::FromSpecImpl<RadioButtonGroup> for SectionElement {
    open spec fn obeys_from_spec() -> bool {
        true
    }

    open spec fn from_spec(e: RadioButtonGroup) -> SectionElement {
        SectionElement::RadioButtonGroup(e)
    }
}

impl From<SelectMenu> for SectionElement {
    fn from(e: SelectMenu) -> (r: SectionElement) {
        SectionElement::SelectMenu(e)
    }
}

impl vstd::std_specs::convert::FromSpecImpl<SelectMenu> for SectionElement {
    open spec fn obeys_from_spec() -> bool {
        true
    }

    open spec fn from_spec(e: SelectMenu) -> SectionElement {
        SectionElement::SelectMenu(e)
    }
}

/// Putting an element in the section accessory slot does not change its wire form.
pub proof fn lemma_section_element_transparent(
    button: Button,
    checkboxes: Checkboxes,
    date_picker: DatePicker,
    image: Image,
    multi_select_menu: MultiSelectMenu,
    overflow_menu: OverflowMenu,
    plain_text_input: PlainTextInput,
    radio_button_group: RadioButtonGroup,
    select_menu: SelectMenu,
)
    ensures
        <SectionElement as FromSpec<Button>>::from_spec(button).json() == button.json(),
        <SectionElement as FromSpec<Checkboxes>>::from_spec(checkboxes).json() == checkboxes.json(),
        <SectionElement as FromSpec<DatePicker>>::from_spec(date_picker).json()
            == date_picker.json(),
        <SectionElement as FromSpec<Image>>::from_spec(image).json() == image.json(),
        <SectionElement as FromSpec<MultiSelectMenu>>::from_spec(multi_select_menu).json()
            == multi_select_menu.json(),
        <SectionElement as FromSpec<OverflowMenu>>::from_spec(overflow_menu).json()
            == overflow_menu.json(),
        <SectionElement as FromSpec<PlainTextInput>>::from_spec(plain_text_input).json()
            == plain_text_input.json(),
        <SectionElement as FromSpec<RadioButtonGroup>>::from_spec(radio_button_group).json()
            == radio_button_group.json(),
        <SectionElement as FromSpec<SelectMenu>>::from_spec(select_menu).json()
            == select_menu.json(),
{
}

/// The elements an actions block may hold.
pub enum ActionsElement {
    Button(Button),
    Checkboxes(Checkboxes),
    DatePicker(DatePicker),
    OverflowMenu(OverflowMenu),
    PlainTextInput(PlainTextInput),
    RadioButtonGroup(RadioButtonGroup),
    SelectMenu(SelectMenu),
}

impl ToJson for ActionsElement {
    /// The wire form of the element held; the slot leaves no trace.
    open spec fn json(&self) -> Seq<char> {
        match self {
            ActionsElement::Button(e) => e.json(),
            ActionsElement::Checkboxes(e) => e.json(),
            ActionsElement::DatePicker(e) => e.json(),
            ActionsElement::OverflowMenu(e) => e.json(),
            ActionsElement::PlainTextInput(e) => e.json(),
            ActionsElement::RadioButtonGroup(e) => e.json(),
            ActionsElement::SelectMenu(e) => e.json(),
        }
    }

    fn to_json(&self) -> (r: String) {
        match self {
            ActionsElement::Button(e) => e.to_json(),
            ActionsElement::Checkboxes(e) => e.to_json(),
            ActionsElement::DatePicker(e) => e.to_json(),
            ActionsElement::OverflowMenu(e) => e.to_json(),
            ActionsElement::PlainTextInput(e) => e.to_json(),
            ActionsElement::RadioButtonGroup(e) => e.to_json(),
            ActionsElement::SelectMenu(e) => e.to_json(),
        }
    }
}

impl From<Button> for ActionsElement {
    fn from(e: Button) -> (r: ActionsElement) {
        ActionsElement::Button(e)
    }
}

impl vstd::std_specs::convert::FromSpecImpl<Button> for ActionsElement {
    open spec fn obeys_from_spec() -> bool {
        true
    }

    open spec fn from_spec(e: Button) -> ActionsElement {
        ActionsElement::Button(e)
    }
}

impl From<Checkboxes> for ActionsElement {
    fn from(e: Checkboxes) -> (r: ActionsElement) {
        ActionsElement::Checkboxes(e)
    }
}

impl vstd::std_specs::convert::FromSpecImpl<Checkboxes> for ActionsElement {
    open spec fn obeys_from_spec() -> bool {
        true
    }

    open spec fn from_spec(e: Checkboxes) -> ActionsElement {
        ActionsElement::Checkboxes(e)
    }
}

impl From<DatePicker> for ActionsElement {
    fn from(e: DatePicker) -> (r: ActionsElement) {
        ActionsElement::DatePicker(e)
    }
}

impl vstd::std_specs::convert::FromSpecImpl<DatePicker> for ActionsElement {
    open spec fn obeys_from_spec() -> bool {
        true
    }

    open spec fn from_spec(e: DatePicker) -> ActionsElement {
        ActionsElement::DatePicker(e)
    }
}

impl From<OverflowMenu> for ActionsElement {
    fn from(e: OverflowMenu) -> (r: ActionsElement) {
        ActionsElement::OverflowMenu(e)
    }
}

impl vstd::std_specs::convert::FromSpecImpl<OverflowMenu> for ActionsElement {
    open spec fn obeys_from_spec() -> bool {
        true
    }

    open spec fn from_spec(e: OverflowMenu) -> ActionsElement {
        ActionsElement::OverflowMenu(e)
    }
}

impl From<PlainTextInput> for ActionsElement {
    fn from(e: PlainTextInput) -> (r: ActionsElement) {
        ActionsElement::PlainTextInput(e)
    }
}

impl vstd::std_specs::convert::FromSpecImpl<PlainTextInput> for ActionsElement {
    open spec fn obeys_from_spec() -> bool {
        true
    }

    open spec fn from_spec(e: PlainTextInput) -> ActionsElement {
        ActionsElement::PlainTextInput(e)
    }
}

impl From<RadioButtonGroup> for ActionsElement {
    fn from(e: RadioButtonGroup) -> (r: ActionsElement) {
        ActionsElement::RadioButtonGroup(e)
    }
}

impl vstd::std_specs::convert::FromSpecImpl<RadioButtonGroup> for ActionsElement {
    open spec fn obeys_from_spec() -> bool {
        true
    }

    open spec fn from_spec(e: RadioButtonGroup) -> ActionsElement {
        ActionsElement::RadioButtonGroup(e)
    }
}

impl From<SelectMenu> for ActionsElement {
    fn from(e: SelectMenu) -> (r: ActionsElement) {
        ActionsElement::SelectMenu(e)
    }
}

impl vstd::std_specs::convert::FromSpecImpl<SelectMenu> for ActionsElement {
    open spec fn obeys_from_spec() -> bool {
        true
    }

    open spec fn from_spec(e: SelectMenu) -> ActionsElement {
        ActionsElement::SelectMenu(e)
    }
}

/// Putting an element in the actions block slot does not change its wire form.
pub proof fn lemma_actions_element_transparent(
    button: Button,
    checkboxes: Checkboxes,
    date_picker: DatePicker,
    overflow_menu: OverflowMenu,
    plain_text_input: PlainTextInput,
    radio_button_group: RadioButtonGroup,
    select_menu: SelectMenu,
)
    ensures
        <ActionsElement as FromSpec<Button>>::from_spec(button).json() == button.json(),
        <ActionsElement as FromSpec<Checkboxes>>::from_spec(checkboxes).json() == checkboxes.json(),
        <ActionsElement as FromSpec<DatePicker>>::from_spec(date_picker).json()
            == date_picker.json(),
        <ActionsElement as FromSpec<OverflowMenu>>::from_spec(overflow_menu).json()
            == overflow_menu.json(),
        <ActionsElement as FromSpec<PlainTextInput>>::from_spec(plain_text_input).json()
            == plain_text_input.json(),
        <ActionsElement as FromSpec<RadioButtonGroup>>::from_spec(radio_button_group).json()
            == radio_button_group.json(),
        <ActionsElement as FromSpec<SelectMenu>>::from_spec(select_menu).json()
            == select_menu.json(),
{
}

/// The elements an input block may hold.
pub enum InputElement {
    Checkboxes(Checkboxes),
    DatePicker(DatePicker),
    MultiSelectMenu(MultiSelectMenu),
    PlainTextInput(PlainTextInput),
    RadioButtonGroup(RadioButtonGroup),
    SelectMenu(SelectMenu),
}

impl ToJson for InputElement {
    /// The wire form of the element held; the slot leaves no trace.
    open spec fn json(&self) -> Seq<char> {
        match self {
            InputElement::Checkboxes(e) => e.json(),
            InputElement::DatePicker(e) => e.json(),
            InputElement::MultiSelectMenu(e) => e.json(),
            InputElement::PlainTextInput(e) => e.json(),
            InputElement::RadioButtonGroup(e) => e.json(),
            InputElement::SelectMenu(e) => e.json(),
        }
    }

    fn to_json(&self) -> (r: String) {
        match self {
            InputElement::Checkboxes(e) => e.to_json(),
            InputElement::DatePicker(e) => e.to_json(),
            InputElement::MultiSelectMenu(e) => e.to_json(),
            InputElement::PlainTextInput(e) => e.to_json(),
            InputElement::RadioButtonGroup(e) => e.to_json(),
            InputElement::SelectMenu(e) => e.to_json(),
        }
    }
}

impl From<Checkboxes> for InputElement {
    fn from(e: Checkboxes) -> (r: InputElement) {
        InputElement::Checkboxes(e)
    }
}

impl vstd::std_specs::convert::FromSpecImpl<Checkboxes> for InputElement {
    open spec fn obeys_from_spec() -> bool {
        true
    }

    open spec fn from_spec(e: Checkboxes) -> InputElement {
        InputElement::Checkboxes(e)
    }
}

impl From<DatePicker> for InputElement {
    fn from(e: DatePicker) -> (r: InputElement) {
        InputElement::DatePicker(e)
    }
}

impl vstd::std_specs::convert::FromSpecImpl<DatePicker> for InputElement {
    open spec fn obeys_from_spec() -> bool {
        true
    }

    open spec fn from_spec(e: DatePicker) -> InputElement {
        InputElement::DatePicker(e)
    }
}

impl From<MultiSelectMenu> for InputElement {
    fn from(e: MultiSelectMenu) -> (r: InputElement) {
        InputElement::MultiSelectMenu(e)
    }
}

impl vstd::std_specs::convert::FromSpecImpl<MultiSelectMenu> for InputElement {
    open spec fn obeys_from_spec() -> bool {
        true
    }

    open spec fn from_spec(e: MultiSelectMenu) -> InputElement {
        InputElement::MultiSelectMenu(e)
    }
}

impl From<PlainTextInput> for InputElement {
    fn from(e: PlainTextInput) -> (r: InputElement) {
        InputElement::PlainTextInput(e)
    }
}

impl vstd::std_specs::convert::FromSpecImpl<PlainTextInput> for InputElement {
    open spec fn obeys_from_spec() -> bool {
        true
    }

    open spec fn from_spec(e: PlainTextInput) -> InputElement {
        InputElement::PlainTextInput(e)
    }
}

impl From<RadioButtonGroup> for InputElement {
    fn from(e: RadioButtonGroup) -> (r: InputElement) {
        InputElement::RadioButtonGroup(e)
    }
}

impl vstd::std_specs::convert::FromSpecImpl<RadioButtonGroup> for InputElement {
    open spec fn obeys_from_spec() -> bool {
        true
    }

    open spec fn from_spec(e: RadioButtonGroup) -> InputElement {
        InputElement::RadioButtonGroup(e)
    }
}

impl From<SelectMenu> for InputElement {
    fn from(e: SelectMenu) -> (r: InputElement) {
        InputElement::SelectMenu(e)
    }
}

impl vstd::std_specs::convert::FromSpecImpl<SelectMenu> for InputElement {
    open spec fn obeys_from_spec() -> bool {
        true
    }

    open spec fn from_spec(e: SelectMenu) -> InputElement {
        InputElement::SelectMenu(e)
    }
}

/// Putting an element in the input block slot does not change its wire form.
pub proof fn lemma_input_element_transparent(
    checkboxes: Checkboxes,
    date_picker: DatePicker,
    multi_select_menu: MultiSelectMenu,
    plain_text_input: PlainTextInput,
    radio_button_group: RadioButtonGroup,
    select_menu: SelectMenu,
)
    ensures
        <InputElement as FromSpec<Checkboxes>>::from_spec(checkboxes).json() == checkboxes.json(),
        <InputElement as FromSpec<DatePicker>>::from_spec(date_picker).json() == date_picker.json(),
        <InputElement as FromSpec<MultiSelectMenu>>::from_spec(multi_select_menu).json()
            == multi_select_menu.json(),
        <InputElement as FromSpec<PlainTextInput>>::from_spec(plain_text_input).json()
            == plain_text_input.json(),
        <InputElement as FromSpec<RadioButtonGroup>>::from_spec(radio_button_group).json()
            == radio_button_group.json(),
        <InputElement as FromSpec<SelectMenu>>::from_spec(select_menu).json() == select_menu.json(),
{
}

/// The elements a context block may hold.
pub enum ContextElement {
    Image(Image),
    Text(Text),
}

impl ToJson for ContextElement {
    /// The wire form of the element held; the slot leaves no trace.
    open spec fn json(&self) -> Seq<char> {
        match self {
            ContextElement::Image(e) => e.json(),
            ContextElement::Text(e) => e.json(),
        }
    }

    fn to_json(&self) -> (r: String) {
        match self {
            ContextElement::Image(e) => e.to_json(),
            ContextElement::Text(e) => e.to_json(),
        }
    }
}

impl From<Image> for ContextElement {
    fn from(e: Image) -> (r: ContextElement) {
        ContextElement::Image(e)
    }
}

impl vstd::std_specs::convert::FromSpecImpl<Image> for ContextElement {
    open spec fn obeys_from_spec() -> bool {
        true
    }

    open spec fn from_spec(e: Image) -> ContextElement {
        ContextElement::Image(e)
    }
}

impl From<Text> for ContextElement {
    fn from(e: Text) -> (r: ContextElement) {
        ContextElement::Text(e)
    }
}

impl vstd::std_specs::convert::FromSpecImpl<Text> for ContextElement {
    open spec fn obeys_from_spec() -> bool {
        true
    }

    open spec fn from_spec(e: Text) -> ContextElement {
        ContextElement::Text(e)
    }
}

/// Putting an element in the context block slot does not change its wire form.
pub proof fn lemma_context_element_transparent(
    image: Image,
    text: Text,
)
    ensures
        <ContextElement as FromSpec<Image>>::from_spec(image).json() == image.json(),
        <ContextElement as FromSpec<Text>>::from_spec(text).json() == text.json(),
{
}

} // verus!
