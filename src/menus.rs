//! The overflow menu, and the option lists that menus share.
use vstd::prelude::*;

use crate::json::{object, opt_json, opt_to_json, Entry, ObjectWriter, ToJson};
use crate::objects::{ConfirmationDialog, OptionInput, OptionInputGroup};

verus! {

pub struct OverflowMenu {
    pub action_id: String,
    pub options: Vec<OptionInput>,
    pub confirm: Option<ConfirmationDialog>,
}

impl OverflowMenu {
    pub fn builder(action_id: &str, options: Vec<OptionInput>) -> (r: OverflowMenuBuilder)
        ensures
            r@.action_id@ == action_id@,
            r@.options == options,
            r@.confirm is None,
    {
        OverflowMenuBuilder::new(action_id, options)
    }

    pub open spec fn entries(&self) -> Seq<Entry> {
        seq![
            ("action_id"@, Some(self.action_id.json())),
            ("options"@, Some(self.options.json())),
            ("confirm"@, opt_json(self.confirm)),
        ]
    }
}

impl ToJson for OverflowMenu {
    open spec fn json(&self) -> Seq<char> {
        object(self.entries())
    }

    fn to_json(&self) -> (r: String) {
        let mut w = ObjectWriter::new();
        w.field("action_id", self.action_id.to_json());
        w.field("options", self.options.to_json());
        w.optional("confirm", opt_to_json(&self.confirm));
        assert(w.entries() =~= self.entries());
        w.finish()
    }
}

/// Builds an [`OverflowMenu`]; the confirmation starts unset.
pub struct OverflowMenuBuilder {
    action_id: String,
    options: Vec<OptionInput>,
    confirm: Option<ConfirmationDialog>,
}

impl View for OverflowMenuBuilder {
    type V = OverflowMenu;

    /// The menu that `build` gives.
    closed spec fn view(&self) -> OverflowMenu {
        OverflowMenu { action_id: self.action_id, options: self.options, confirm: self.confirm }
    }
}

impl OverflowMenuBuilder {
    pub fn new(action_id: &str, options: Vec<OptionInput>) -> (r: OverflowMenuBuilder)
        ensures
            r@.action_id@ == action_id@,
            r@.options == options,
            r@.confirm is None,
    {
        OverflowMenuBuilder { action_id: action_id.to_string(), options, confirm: None }
    }

    pub fn set_confirm(self, confirm: ConfirmationDialog) -> (r: OverflowMenuBuilder)
        ensures
            r@ == (OverflowMenu { confirm: Some(confirm), ..self@ }),
    {
        OverflowMenuBuilder { confirm: Some(confirm), ..self }
    }

    pub fn build(self) -> (r: OverflowMenu)
        ensures
            r == self@,
    {
        OverflowMenu { action_id: self.action_id, options: self.options, confirm: self.confirm }
    }
}

/// The options of a menu: either a flat list or labelled groups.
pub enum OptionNestingType {
    Flat(Vec<OptionInput>),
    Groups(Vec<OptionInputGroup>),
}

impl ToJson for OptionNestingType {
    /// The list held; the variant leaves no trace.
    open spec fn json(&self) -> Seq<char> {
        match self {
            OptionNestingType::Flat(e) => e.json(),
            OptionNestingType::Groups(e) => e.json(),
        }
    }

    fn to_json(&self) -> (r: String) {
        match self {
            OptionNestingType::Flat(e) => e.to_json(),
            OptionNestingType::Groups(e) => e.to_json(),
        }
    }
}

} // verus!
