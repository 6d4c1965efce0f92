//! Panels (screens) of buttons, and the device config that keeps the root panel.

use vstd::prelude::*;
use serde_json::Value;
use crate::button::{Button, clone_value};
use crate::keyed::{KeyedList, MapKey, entries_map, lemma_entries_map_prefix};

verus! {

/// What a panel is: its name, its data and the buttons on it by key index.
pub struct PanelView {
    pub display_name: Seq<char>,
    pub data: Value,
    pub buttons: Map<u8, Map<Seq<char>, Value>>,
}

/// Button panel: a screen of buttons, each under its key index
pub struct RawButtonPanel {
    /// Name of the panel
    pub display_name: String,
    /// Any data the panel carries, such as which folder it shows
    pub data: Value,
    /// Buttons of the panel by key index
    pub buttons: KeyedList<u8, Button>,
}

/// Panels are kept by value in the stack of a core.
pub type ButtonPanel = RawButtonPanel;

/// Views of the buttons of a keyed list.
pub open spec fn buttons_view(m: Map<u8, Button>) -> Map<u8, Map<Seq<char>, Value>> {
    m.map_values(|b: Button| b@)
}

impl View for RawButtonPanel {
    type V = PanelView;

    open spec fn view(&self) -> PanelView {
        PanelView { display_name: self.display_name@, data: self.data, buttons: buttons_view(self.buttons.map()) }
    }
}

/// Views of a stack of panels.
pub open spec fn stack_view(s: Seq<RawButtonPanel>) -> Seq<PanelView> {
    s.map_values(|p: RawButtonPanel| p@)
}

impl RawButtonPanel {
    /// Creates a panel with no buttons
    pub fn new(display_name: String, data: Value) -> (r: Self)
        ensures
            r@.display_name == display_name@,
            r@.data == data,
            r@.buttons == Map::<u8, Map<Seq<char>, Value>>::empty(),
    {
        let r = RawButtonPanel { display_name, data, buttons: KeyedList::new() };
        assert(r@.buttons =~= Map::<u8, Map<Seq<char>, Value>>::empty());
        r
    }

    /// A panel with the same name, data and buttons
    pub fn duplicate(&self) -> (r: Self)
        ensures
            r@ == self@,
    {
        let mut copy: KeyedList<u8, Button> = KeyedList::new();
        let n = self.buttons.len();
        let mut i: usize = 0;
        proof {
            assert(self.buttons.entries().take(0) =~= Seq::<(u8, Button)>::empty());
            assert(buttons_view(copy.map()) =~= buttons_view(entries_map(self.buttons.entries().take(0))));
        }
        while i < n
            invariant
                n == self.buttons.entries().len(),
                i <= n,
                buttons_view(copy.map()) == buttons_view(entries_map(self.buttons.entries().take(i as int))),
            decreases n - i,
        {
            let k = *self.buttons.key_at(i);
            let b = self.buttons.value_at(i).duplicate();
            let ghost before = copy.map();
            copy.insert(k, b);
            proof {
                lemma_entries_map_prefix(self.buttons.entries(), i as int);
                let e = self.buttons.entries()[i as int];
                assert(buttons_view(copy.map()) =~= buttons_view(entries_map(self.buttons.entries().take(i + 1)))) by {
                    assert(buttons_view(copy.map()) =~= buttons_view(before).insert(k, b@));
                    assert(buttons_view(entries_map(self.buttons.entries().take(i + 1))) =~= buttons_view(
                        entries_map(self.buttons.entries().take(i as int))).insert(e.0, e.1@));
                }
            }
            i += 1;
        }
        proof {
            assert(self.buttons.entries().take(n as int) =~= self.buttons.entries());
        }
        let display_name = self.display_name.clone();
        let data = clone_value(&self.data);
        RawButtonPanel { display_name, data, buttons: copy }
    }
}

} // verus!
