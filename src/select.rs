//! Select menus, which let the user pick one item from a source.
use vstd::prelude::*;

use crate::json::{object, opt_json, opt_to_json, Entry, ObjectWriter, ToJson};
use crate::menus::OptionNestingType;
use crate::objects::OptionInput;
use crate::text::Text;

verus! {

pub struct SelectMenu {
    pub action_id: String,
    pub placeholder: Text,
    pub options: SelectMenuType,
}

impl SelectMenu {
    pub fn new(action_id: &str, placeholder: Text, options: SelectMenuType) -> (r: SelectMenu)
        ensures
            r.action_id@ == action_id@,
            r.placeholder == placeholder,
            r.options == options,
    {
        SelectMenu { action_id: action_id.to_string(), placeholder, options }
    }

    pub open spec fn entries(&self) -> Seq<Entry> {
        seq![
            ("action_id"@, Some(self.action_id.json())),
            ("placeholder"@, Some(self.placeholder.json())),
            ("options"@, Some(self.options.json())),
        ]
    }
}

impl ToJson for SelectMenu {
    open spec fn json(&self) -> Seq<char> {
        object(self.entries())
    }

    fn to_json(&self) -> (r: String) {
        let mut w = ObjectWriter::new();
        w.field("action_id", self.action_id.to_json());
        w.field("placeholder", self.placeholder.to_json());
        w.field("options", self.options.to_json());
        assert(w.entries() =~= self.entries());
        w.finish()
    }
}

/// Where a select menu takes its items from.
pub enum SelectMenuType {
    Static(StaticMenu),
    External(ExternalMenu),
    User(UserMenu),
    Conversation(ConversationMenu),
    Channel(ChannelMenu),
}

impl ToJson for SelectMenuType {
    /// The wire form of the source held; the variant leaves no trace.
    open spec fn json(&self) -> Seq<char> {
        match self {
            SelectMenuType::Static(e) => e.json(),
            SelectMenuType::External(e) => e.json(),
            SelectMenuType::User(e) => e.json(),
            SelectMenuType::Conversation(e) => e.json(),
            SelectMenuType::Channel(e) => e.json(),
        }
    }

    fn to_json(&self) -> (r: String) {
        match self {
            SelectMenuType::Static(e) => e.to_json(),
            SelectMenuType::External(e) => e.to_json(),
            SelectMenuType::User(e) => e.to_json(),
            SelectMenuType::Conversation(e) => e.to_json(),
            SelectMenuType::Channel(e) => e.to_json(),
        }
    }
}

/// Items given up front.
pub struct StaticMenu {
    pub options: OptionNestingType,
    pub initial_option: Option<OptionInput>,
}

impl StaticMenu {
    pub fn new(options: OptionNestingType) -> (r: StaticMenu)
        ensures
            r.options == options,
            r.initial_option is None,
    {
        StaticMenu { options, initial_option: None }
    }

    pub fn new_with_initial(options: OptionNestingType, init_option: OptionInput) -> (r:
        StaticMenu)
        ensures
            r.options == options,
            r.initial_option == Some(init_option),
    {
        StaticMenu { options, initial_option: Some(init_option) }
    }

    pub open spec fn entries(&self) -> Seq<Entry> {
        seq![
            ("options"@, Some(self.options.json())),
            ("initial_option"@, opt_json(self.initial_option)),
        ]
    }
}

impl ToJson for StaticMenu {
    open spec fn json(&self) -> Seq<char> {
        object(self.entries())
    }

    fn to_json(&self) -> (r: String) {
        let mut w = ObjectWriter::new();
        w.field("options", self.options.to_json());
        w.optional("initial_option", opt_to_json(&self.initial_option));
        assert(w.entries() =~= self.entries());
        w.finish()
    }
}

/// Items loaded from the app's own endpoint.
pub struct ExternalMenu {
    pub initial_option: Option<OptionInput>,
    pub min_query_length: Option<u32>,
}

impl ExternalMenu {
    pub open spec fn entries(&self) -> Seq<Entry> {
        seq![
            ("initial_option"@, opt_json(self.initial_option)),
            ("min_query_length"@, opt_json(self.min_query_length)),
        ]
    }
}

impl ToJson for ExternalMenu {
    open spec fn json(&self) -> Seq<char> {
        object(self.entries())
    }

    fn to_json(&self) -> (r: String) {
        let mut w = ObjectWriter::new();
        w.optional("initial_option", opt_to_json(&self.initial_option));
        w.optional("min_query_length", opt_to_json(&self.min_query_length));
        assert(w.entries() =~= self.entries());
        w.finish()
    }
}

/// Builds an [`ExternalMenu`]; every field starts unset.
pub struct ExternalMenuBuilder {
    initial_option: Option<OptionInput>,
    min_query_length: Option<u32>,
}

impl View for ExternalMenuBuilder {
    type V = ExternalMenu;

    /// The menu that `build` gives.
    closed spec fn view(&self) -> ExternalMenu {
        ExternalMenu {
            initial_option: self.initial_option,
            min_query_length: self.min_query_length,
        }
    }
}

impl ExternalMenuBuilder {
    pub fn new() -> (r: ExternalMenuBuilder)
        ensures
            r@.initial_option is None,
            r@.min_query_length is None,
    {
        ExternalMenuBuilder { initial_option: None, min_query_length: None }
    }

    pub fn set_initial_option(self, option: OptionInput) -> (r: ExternalMenuBuilder)
        ensures
            r@ == (ExternalMenu { initial_option: Some(option), ..self@ }),
    {
        ExternalMenuBuilder { initial_option: Some(option), ..self }
    }

    pub fn set_query_length(self, min_len: u32) -> (r: ExternalMenuBuilder)
        ensures
            r@ == (ExternalMenu { min_query_length: Some(min_len), ..self@ }),
    {
        ExternalMenuBuilder { min_query_length: Some(min_len), ..self }
    }

    pub fn build(self) -> (r: ExternalMenu)
        ensures
            r == self@,
    {
        ExternalMenu {
            initial_option: self.initial_option,
            min_query_length: self.min_query_length,
        }
    }
}

/// The users of the workspace.
pub struct UserMenu {
    pub initial_user: Option<String>,
}

impl UserMenu {
    pub fn new() -> (r: UserMenu)
        ensures
            r.initial_user is None,
    {
        UserMenu { initial_user: None }
    }

    pub fn new_with_initial(init_user: &str) -> (r: UserMenu)
        ensures
            r.initial_user matches Some(u) && u@ == init_user@,
    {
        UserMenu { initial_user: Some(init_user.to_string()) }
    }

    pub open spec fn entries(&self) -> Seq<Entry> {
        seq![("initial_user"@, opt_json(self.initial_user))]
    }
}

impl ToJson for UserMenu {
    open spec fn json(&self) -> Seq<char> {
        object(self.entries())
    }

    fn to_json(&self) -> (r: String) {
        let mut w = ObjectWriter::new();
        w.optional("initial_user", opt_to_json(&self.initial_user));
        assert(w.entries() =~= self.entries());
        w.finish()
    }
}

/// The conversations the user can see.
pub struct ConversationMenu {
    pub initial_conversation: Option<String>,
}

impl ConversationMenu {
    pub fn new() -> (r: ConversationMenu)
        ensures
            r.initial_conversation is None,
    {
        ConversationMenu { initial_conversation: None }
    }

    pub fn new_with_initial(init_conversation: &str) -> (r: ConversationMenu)
        ensures
            r.initial_conversation matches Some(c) && c@ == init_conversation@,
    {
        ConversationMenu { initial_conversation: Some(init_conversation.to_string()) }
    }

    pub open spec fn entries(&self) -> Seq<Entry> {
        seq![("initial_conversation"@, opt_json(self.initial_conversation))]
    }
}

impl ToJson for ConversationMenu {
    open spec fn json(&self) -> Seq<char> {
        object(self.entries())
    }

    fn to_json(&self) -> (r: String) {
        let mut w = ObjectWriter::new();
        w.optional("initial_conversation", opt_to_json(&self.initial_conversation));
        assert(w.entries() =~= self.entries());
        w.finish()
    }
}

/// The public channels of the workspace.
pub struct ChannelMenu {
    pub options: OptionNestingType,
    pub initial_channel: Option<String>,
}

impl ChannelMenu {
    pub fn new(options: OptionNestingType) -> (r: ChannelMenu)
        ensures
            r.options == options,
            r.initial_channel is None,
    {
        ChannelMenu { options, initial_channel: None }
    }

    pub fn new_with_initial(options: OptionNestingType, init_channel: &str) -> (r: ChannelMenu)
        ensures
            r.options == options,
            r.initial_channel matches Some(c) && c@ == init_channel@,
    {
        ChannelMenu { options, initial_channel: Some(init_channel.to_string()) }
    }

    pub open spec fn entries(&self) -> Seq<Entry> {
        seq![
            ("options"@, Some(self.options.json())),
            ("initial_channel"@, opt_json(self.initial_channel)),
        ]
    }
}

impl ToJson for ChannelMenu {
    open spec fn json(&self) -> Seq<char> {
        object(self.entries())
    }

    fn to_json(&self) -> (r: String) {
        let mut w = ObjectWriter::new();
        w.field("options", self.options.to_json());
        w.optional("initial_channel", opt_to_json(&self.initial_channel));
        assert(w.entries() =~= self.entries());
        w.finish()
    }
}

impl From<StaticMenu> for SelectMenuType {
    fn from(e: StaticMenu) -> (r: SelectMenuType) {
        SelectMenuType::Static(e)
    }
}

impl vstd::std_specs::convert::FromSpecImpl<StaticMenu> for SelectMenuType {
    open spec fn obeys_from_spec() -> bool {
        true
    }

    open spec fn from_spec(e: StaticMenu) -> SelectMenuType {
        SelectMenuType::Static(e)
    }
}

impl From<ExternalMenu> for SelectMenuType {
    fn from(e: ExternalMenu) -> (r: SelectMenuType) {
        SelectMenuType::External(e)
    }
}

impl vstd::std_specs::convert::FromSpecImpl<ExternalMenu> for SelectMenuType {
    open spec fn obeys_from_spec() -> bool {
        true
    }

    open spec fn from_spec(e: ExternalMenu) -> SelectMenuType {
        SelectMenuType::External(e)
    }
}

impl From<UserMenu> for SelectMenuType {
    fn from(e: UserMenu) -> (r: SelectMenuType) {
        SelectMenuType::User(e)
    }
}

impl vstd::std_specs::convert::FromSpecImpl<UserMenu> for SelectMenuType {
    open spec fn obeys_from_spec() -> bool {
        true
    }

    open spec fn from_spec(e: UserMenu) -> SelectMenuType {
        SelectMenuType::User(e)
    }
}

impl From<ConversationMenu> for SelectMenuType {
    fn from(e: ConversationMenu) -> (r: SelectMenuType) {
        SelectMenuType::Conversation(e)
    }
}

impl vstd::std_specs::convert::FromSpecImpl<ConversationMenu> for SelectMenuType {
    open spec fn obeys_from_spec() -> bool {
        true
    }

    open spec fn from_spec(e: ConversationMenu) -> SelectMenuType {
        SelectMenuType::Conversation(e)
    }
}

impl From<ChannelMenu> for SelectMenuType {
    fn from(e: ChannelMenu) -> (r: SelectMenuType) {
        SelectMenuType::Channel(e)
    }
}

impl vstd::std_specs::convert::FromSpecImpl<ChannelMenu> for SelectMenuType {
    open spec fn obeys_from_spec() -> bool {
        true
    }

    open spec fn from_spec(e: ChannelMenu) -> SelectMenuType {
        SelectMenuType::Channel(e)
    }
}

} // verus!
