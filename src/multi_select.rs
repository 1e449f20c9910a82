//! Multi-select menus, which let the user pick several items from a source.
use vstd::prelude::*;

use crate::json::{object, opt_json, opt_to_json, Entry, ObjectWriter, ToJson};
use crate::menus::OptionNestingType;
use crate::objects::OptionInput;
use crate::text::Text;

verus! {

pub struct MultiSelectMenu {
    pub action_id: String,
    pub placeholder: Text,
    pub options: MultiSelectMenuType,
}

impl MultiSelectMenu {
    pub fn new(action_id: &str, placeholder: Text, options: MultiSelectMenuType) -> (r:
        MultiSelectMenu)
        ensures
            r.action_id@ == action_id@,
            r.placeholder == placeholder,
            r.options == options,
    {
        MultiSelectMenu { action_id: action_id.to_string(), placeholder, options }
    }

    pub open spec fn entries(&self) -> Seq<Entry> {
        seq![
            ("action_id"@, Some(self.action_id.json())),
            ("placeholder"@, Some(self.placeholder.json())),
            ("options"@, Some(self.options.json())),
        ]
    }
}

impl ToJson for MultiSelectMenu {
    open spec fn json(&self) -> Seq<char> {
        object(self.entries())
    }

    fn to_json(&self) -> (r: String) {
        let mut w = ObjectWriter::new();
        w.field("action_id", self.action_id.to_json());
        w.field("placeholder", self.placeholder.to_json());
        w.field("options", self.options.to_json());
        assert(w.entries() =~= self.entries());
        w.finish()
    }
}

/// Where a multi-select menu takes its items from.
pub enum MultiSelectMenuType {
    Static(StaticMultiMenu),
    External(ExternalMultiMenu),
    User(UserMultiMenu),
    Conversation(ConversationMultiMenu),
    Channel(ChannelMultiMenu),
}

impl ToJson for MultiSelectMenuType {
    /// The wire form of the source held; the variant leaves no trace.
    open spec fn json(&self) -> Seq<char> {
        match self {
            MultiSelectMenuType::Static(e) => e.json(),
            MultiSelectMenuType::External(e) => e.json(),
            MultiSelectMenuType::User(e) => e.json(),
            MultiSelectMenuType::Conversation(e) => e.json(),
            MultiSelectMenuType::Channel(e) => e.json(),
        }
    }

    fn to_json(&self) -> (r: String) {
        match self {
            MultiSelectMenuType::Static(e) => e.to_json(),
            MultiSelectMenuType::External(e) => e.to_json(),
            MultiSelectMenuType::User(e) => e.to_json(),
            MultiSelectMenuType::Conversation(e) => e.to_json(),
            MultiSelectMenuType::Channel(e) => e.to_json(),
        }
    }
}

/// Items given up front.
pub struct StaticMultiMenu {
    pub options: OptionNestingType,
    pub initial_option: Option<Vec<OptionInput>>,
}

impl StaticMultiMenu {
    pub fn new(options: OptionNestingType) -> (r: StaticMultiMenu)
        ensures
            r.options == options,
            r.initial_option is None,
    {
        StaticMultiMenu { options, initial_option: None }
    }

    pub fn new_with_initial(options: OptionNestingType, init_option: Vec<OptionInput>) -> (r:
        StaticMultiMenu)
        ensures
            r.options == options,
            r.initial_option == Some(init_option),
    {
        StaticMultiMenu { options, initial_option: Some(init_option) }
    }

    pub open spec fn entries(&self) -> Seq<Entry> {
        seq![
            ("options"@, Some(self.options.json())),
            ("initial_option"@, opt_json(self.initial_option)),
        ]
    }
}

impl ToJson for StaticMultiMenu {
    open spec fn json(&self) -> Seq<char> {
        object(self.entries())
    }

    fn to_json(&self) -> (r: String) {
        let mut w = ObjectWriter::new();
        w.field("options", self.options.to_json());
        w.optional("initial_option", opt_to_json(&self.initial_option));
        assert(w.entries() =~= self.entries());
        w.finish()
    }
}

/// Items loaded from the app's own endpoint.
pub struct ExternalMultiMenu {
    pub initial_option: Option<Vec<OptionInput>>,
    pub min_query_length: Option<Vec<u32>>,
}

impl ExternalMultiMenu {
    pub open spec fn entries(&self) -> Seq<Entry> {
        seq![
            ("initial_option"@, opt_json(self.initial_option)),
            ("min_query_length"@, opt_json(self.min_query_length)),
        ]
    }
}

impl ToJson for ExternalMultiMenu {
    open spec fn json(&self) -> Seq<char> {
        object(self.entries())
    }

    fn to_json(&self) -> (r: String) {
        let mut w = ObjectWriter::new();
        w.optional("initial_option", opt_to_json(&self.initial_option));
        w.optional("min_query_length", opt_to_json(&self.min_query_length));
        assert(w.entries() =~= self.entries());
        w.finish()
    }
}

/// Builds an [`ExternalMultiMenu`]; every field starts unset.
pub struct ExternalMultiMenuBuilder {
    initial_option: Option<Vec<OptionInput>>,
    min_query_length: Option<Vec<u32>>,
}

impl View for ExternalMultiMenuBuilder {
    type V = ExternalMultiMenu;

    /// The menu that `build` gives.
    closed spec fn view(&self) -> ExternalMultiMenu {
        ExternalMultiMenu {
            initial_option: self.initial_option,
            min_query_length: self.min_query_length,
        }
    }
}

impl ExternalMultiMenuBuilder {
    pub fn new() -> (r: ExternalMultiMenuBuilder)
        ensures
            r@.initial_option is None,
            r@.min_query_length is None,
    {
        ExternalMultiMenuBuilder { initial_option: None, min_query_length: None }
    }

    pub fn set_initial_option(self, option: Vec<OptionInput>) -> (r: ExternalMultiMenuBuilder)
        ensures
            r@ == (ExternalMultiMenu { initial_option: Some(option), ..self@ }),
    {
        ExternalMultiMenuBuilder { initial_option: Some(option), ..self }
    }

    pub fn set_query_length(self, min_len: Vec<u32>) -> (r: ExternalMultiMenuBuilder)
        ensures
            r@ == (ExternalMultiMenu { min_query_length: Some(min_len), ..self@ }),
    {
        ExternalMultiMenuBuilder { min_query_length: Some(min_len), ..self }
    }

    pub fn build(self) -> (r: ExternalMultiMenu)
        ensures
            r == self@,
    {
        ExternalMultiMenu {
            initial_option: self.initial_option,
            min_query_length: self.min_query_length,
        }
    }
}

/// The users of the workspace.
pub struct UserMultiMenu {
    pub initial_user: Option<Vec<String>>,
}

impl UserMultiMenu {
    pub fn new() -> (r: UserMultiMenu)
        ensures
            r.initial_user is None,
    {
        UserMultiMenu { initial_user: None }
    }

    pub fn new_with_initial(init_user: Vec<String>) -> (r: UserMultiMenu)
        ensures
            r.initial_user == Some(init_user),
    {
        UserMultiMenu { initial_user: Some(init_user) }
    }

    pub open spec fn entries(&self) -> Seq<Entry> {
        seq![("initial_user"@, opt_json(self.initial_user))]
    }
}

impl ToJson for UserMultiMenu {
    open spec fn json(&self) -> Seq<char> {
        object(self.entries())
    }

    fn to_json(&self) -> (r: String) {
        let mut w = ObjectWriter::new();
        w.optional("initial_user", opt_to_json(&self.initial_user));
        assert(w.entries() =~= self.entries());
        w.finish()
    }
}

/// The conversations the user can see.
pub struct ConversationMultiMenu {
    pub initial_conversation: Option<Vec<String>>,
}

impl ConversationMultiMenu {
    pub fn new() -> (r: ConversationMultiMenu)
        ensures
            r.initial_conversation is None,
    {
        ConversationMultiMenu { initial_conversation: None }
    }

    pub fn new_with_initial(init_conversation: Vec<String>) -> (r: ConversationMultiMenu)
        ensures
            r.initial_conversation == Some(init_conversation),
    {
        ConversationMultiMenu { initial_conversation: Some(init_conversation) }
    }

    pub open spec fn entries(&self) -> Seq<Entry> {
        seq![("initial_conversation"@, opt_json(self.initial_conversation))]
    }
}

impl ToJson for ConversationMultiMenu {
    open spec fn json(&self) -> Seq<char> {
        object(self.entries())
    }

    fn to_json(&self) -> (r: String) {
        let mut w = ObjectWriter::new();
        w.optional("initial_conversation", opt_to_json(&self.initial_conversation));
        assert(w.entries() =~= self.entries());
        w.finish()
    }
}

/// The public channels of the workspace.
pub struct ChannelMultiMenu {
    pub options: OptionNestingType,
    pub initial_channel: Option<Vec<String>>,
}

impl ChannelMultiMenu {
    pub fn new(options: OptionNestingType) -> (r: ChannelMultiMenu)
        ensures
            r.options == options,
            r.initial_channel is None,
    {
        ChannelMultiMenu { options, initial_channel: None }
    }

    pub fn new_with_initial(options: OptionNestingType, init_channel: Vec<String>) -> (r:
        ChannelMultiMenu)
        ensures
            r.options == options,
            r.initial_channel == Some(init_channel),
    {
        ChannelMultiMenu { options, initial_channel: Some(init_channel) }
    }

    pub open spec fn entries(&self) -> Seq<Entry> {
        seq![
            ("options"@, Some(self.options.json())),
            ("initial_channel"@, opt_json(self.initial_channel)),
        ]
    }
}

impl ToJson for ChannelMultiMenu {
    open spec fn json(&self) -> Seq<char> {
        object(self.entries())
    }

    fn to_json(&self) -> (r: String) {
        let mut w = ObjectWriter::new();
        w.field("options", self.options.to_json());
        w.optional("initial_channel", opt_to_json(&self.initial_channel));
        assert(w.entries() =~= self.entries());
        w.finish()
    }
}

impl From<StaticMultiMenu> for MultiSelectMenuType {
    fn from(e: StaticMultiMenu) -> (r: MultiSelectMenuType) {
        MultiSelectMenuType::Static(e)
    }
}

impl vstd::std_specs::convert::FromSpecImpl<StaticMultiMenu> for MultiSelectMenuType {
    open spec fn obeys_from_spec() -> bool {
        true
    }

    open spec fn from_spec(e: StaticMultiMenu) -> MultiSelectMenuType {
        MultiSelectMenuType::Static(e)
    }
}

impl From<ExternalMultiMenu> for MultiSelectMenuType {
    fn from(e: ExternalMultiMenu) -> (r: MultiSelectMenuType) {
        MultiSelectMenuType::External(e)
    }
}

impl vstd::std_specs::convert::FromSpecImpl<ExternalMultiMenu> for MultiSelectMenuType {
    open spec fn obeys_from_spec() -> bool {
        true
    }

    open spec fn from_spec(e: ExternalMultiMenu) -> MultiSelectMenuType {
        MultiSelectMenuType::External(e)
    }
}

impl From<UserMultiMenu> for MultiSelectMenuType {
    fn from(e: UserMultiMenu) -> (r: MultiSelectMenuType) {
        MultiSelectMenuType::User(e)
    }
}

impl vstd::std_specs::convert::FromSpecImpl<UserMultiMenu> for MultiSelectMenuType {
    open spec fn obeys_from_spec() -> bool {
        true
    }

    open spec fn from_spec(e: UserMultiMenu) -> MultiSelectMenuType {
        MultiSelectMenuType::User(e)
    }
}

impl From<ConversationMultiMenu> for MultiSelectMenuType {
    fn from(e: ConversationMultiMenu) -> (r: MultiSelectMenuType) {
        MultiSelectMenuType::Conversation(e)
    }
}

impl vstd::std_specs::convert::FromSpecImpl<ConversationMultiMenu> for MultiSelectMenuType {
    open spec fn obeys_from_spec() -> bool {
        true
    }

    open spec fn from_spec(e: ConversationMultiMenu) -> MultiSelectMenuType {
        MultiSelectMenuType::Conversation(e)
    }
}

impl From<ChannelMultiMenu> for MultiSelectMenuType {
    fn from(e: ChannelMultiMenu) -> (r: MultiSelectMenuType) {
        MultiSelectMenuType::Channel(e)
    }
}

impl vstd::std_specs::convert::FromSpecImpl<ChannelMultiMenu> for MultiSelectMenuType {
    open spec fn obeys_from_spec() -> bool {
        true
    }

    open spec fn from_spec(e: ChannelMultiMenu) -> MultiSelectMenuType {
        MultiSelectMenuType::Channel(e)
    }
}

} // verus!
