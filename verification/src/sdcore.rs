//! The core of one device: its stack of panels, and the handle through which modules act on it.
//!
//! Every change the handle makes is announced as an event; the events, the commands for the
//! device and the events for socket clients are queued in the core for the caller to deliver.

use vstd::prelude::*;
use serde_json::Value;
use crate::button::Button;
use crate::config::DeviceConfig;
use crate::features::{has_feature, unreported_feature_warning, warn_for_feature, check_feature_list_for_feature,
    supported_features, feature_views, supported_feature_views};
use crate::keyed::MapKey;
use crate::modules::{names_view, ModuleManager, SDModule};
use crate::panel::{ButtonPanel, PanelView, RawButtonPanel, stack_view};
use crate::text::{has_text, seq_lt, str_eq, to_owned};
use crate::ui::UIValue;

verus! {

/// Core event enumeration for events related to specific cores
pub enum SDCoreEvent {
    /// Called when a new button is created on current screen
    ButtonAdded {
        /// Key index
        key: u8,
        /// Current panel
        panel: ButtonPanel,
        /// Button that was added
        added_button: Button,
    },
    /// Called when a button gets updated or overridden with another button
    ButtonUpdated {
        /// Key index
        key: u8,
        /// Current panel
        panel: ButtonPanel,
        /// New version of the button
        new_button: Button,
        /// Old version of the button
        old_button: Button,
    },
    /// Called when a button gets deleted
    ButtonDeleted {
        /// Key index
        key: u8,
        /// Current panel
        panel: ButtonPanel,
        /// Button that was deleted
        deleted_button: Button,
    },
    /// Called when a valid button was pressed on
    ButtonAction {
        /// Key index
        key: u8,
        /// Current panel
        panel: ButtonPanel,
        /// Button that was pressed
        pressed_button: Button,
    },
    /// Called when a button is pressed down
    ButtonDown {
        /// Key index
        key: u8,
    },
    /// Called when a button is released
    ButtonUp {
        /// Key index
        key: u8,
    },
    /// Called when a new panel gets pushed into the stack
    PanelPushed {
        /// Panel that was pushed into the stack
        new_panel: ButtonPanel,
    },
    /// Called when panel gets popped from the stack
    PanelPopped {
        /// Panel that was popped from the stack
        popped_panel: ButtonPanel,
    },
    /// Called when panel gets replaced with different one
    PanelReplaced {
        /// Old panel that used to be on the screen
        old_panel: Option<ButtonPanel>,
        /// New panel that was put on the screen
        new_panel: ButtonPanel,
    },
    /// Called when stack gets cleared and set with a root panel
    StackReset {
        /// New root panel
        new_panel: ButtonPanel,
    },
}

/// What an event says, in terms of views.
pub enum CoreEventView {
    ButtonAdded { key: u8, panel: PanelView, added_button: Map<Seq<char>, Value> },
    ButtonUpdated { key: u8, panel: PanelView, new_button: Map<Seq<char>, Value>, old_button: Map<Seq<char>, Value> },
    ButtonDeleted { key: u8, panel: PanelView, deleted_button: Map<Seq<char>, Value> },
    ButtonAction { key: u8, panel: PanelView, pressed_button: Map<Seq<char>, Value> },
    ButtonDown { key: u8 },
    ButtonUp { key: u8 },
    PanelPushed { new_panel: PanelView },
    PanelPopped { popped_panel: PanelView },
    PanelReplaced { old_panel: Option<PanelView>, new_panel: PanelView },
    StackReset { new_panel: PanelView },
}

impl View for SDCoreEvent {
    type V = CoreEventView;

    open spec fn view(&self) -> CoreEventView {
        match self {
            SDCoreEvent::ButtonAdded { key, panel, added_button } => CoreEventView::ButtonAdded {
                key: *key,
                panel: panel@,
                added_button: added_button@,
            },
            SDCoreEvent::ButtonUpdated { key, panel, new_button, old_button } => CoreEventView::ButtonUpdated {
                key: *key,
                panel: panel@,
                new_button: new_button@,
                old_button: old_button@,
            },
            SDCoreEvent::ButtonDeleted { key, panel, deleted_button } => CoreEventView::ButtonDeleted {
                key: *key,
                panel: panel@,
                deleted_button: deleted_button@,
            },
            SDCoreEvent::ButtonAction { key, panel, pressed_button } => CoreEventView::ButtonAction {
                key: *key,
                panel: panel@,
                pressed_button: pressed_button@,
            },
            SDCoreEvent::ButtonDown { key } => CoreEventView::ButtonDown { key: *key },
            SDCoreEvent::ButtonUp { key } => CoreEventView::ButtonUp { key: *key },
            SDCoreEvent::PanelPushed { new_panel } => CoreEventView::PanelPushed { new_panel: new_panel@ },
            SDCoreEvent::PanelPopped { popped_panel } => CoreEventView::PanelPopped { popped_panel: popped_panel@ },
            SDCoreEvent::PanelReplaced { old_panel, new_panel } => CoreEventView::PanelReplaced {
                old_panel: match old_panel {
                    Some(p) => Some(p@),
                    None => None,
                },
                new_panel: new_panel@,
            },
            SDCoreEvent::StackReset { new_panel } => CoreEventView::StackReset { new_panel: new_panel@ },
        }
    }
}

/// Global event enumeration for events that are related to whole program: a core event
/// with the serial number of its device, or a device that came or went
pub enum SDGlobalEvent {
    /// Called when a new button is created on a screen
    ButtonAdded { serial_number: String, key: u8, panel: RawButtonPanel, added_button: Button },
    /// Called when a button gets updated or overridden with another button
    ButtonUpdated { serial_number: String, key: u8, panel: RawButtonPanel, new_button: Button, old_button: Button },
    /// Called when a button gets deleted
    ButtonDeleted { serial_number: String, key: u8, panel: RawButtonPanel, deleted_button: Button },
    /// Called when a valid button was pressed on
    ButtonAction { serial_number: String, key: u8, panel: RawButtonPanel, pressed_button: Button },
    /// Called when a button is pressed down
    ButtonDown { serial_number: String, key: u8 },
    /// Called when a button is released
    ButtonUp { serial_number: String, key: u8 },
    /// Called when a new panel gets pushed into the stack
    PanelPushed { serial_number: String, new_panel: RawButtonPanel },
    /// Called when panel gets popped from the stack
    PanelPopped { serial_number: String, popped_panel: RawButtonPanel },
    /// Called when panel gets replaced with different one
    PanelReplaced { serial_number: String, old_panel: Option<RawButtonPanel>, new_panel: RawButtonPanel },
    /// Called when stack gets cleared and set with a root panel
    StackReset { serial_number: String, new_panel: RawButtonPanel },
    /// Called when device has connected
    DeviceConnected { serial_number: String },
    /// Called when device has disconnected
    DeviceDisconnected { serial_number: String },
}

/// What a global event says: the serial number of the device and, for the events of a core,
/// the core event.
pub enum GlobalEventView {
    Core { serial_number: Seq<char>, event: CoreEventView },
    DeviceConnected { serial_number: Seq<char> },
    DeviceDisconnected { serial_number: Seq<char> },
}

impl View for SDGlobalEvent {
    type V = GlobalEventView;

    open spec fn view(&self) -> GlobalEventView {
        match self {
            SDGlobalEvent::ButtonAdded { serial_number, key, panel, added_button } => GlobalEventView::Core {
                serial_number: serial_number@,
                event: CoreEventView::ButtonAdded { key: *key, panel: panel@, added_button: added_button@ },
            },
            SDGlobalEvent::ButtonUpdated { serial_number, key, panel, new_button, old_button } => GlobalEventView::Core {
                serial_number: serial_number@,
                event: CoreEventView::ButtonUpdated { key: *key, panel: panel@, new_button: new_button@, old_button: old_button@ },
            },
            SDGlobalEvent::ButtonDeleted { serial_number, key, panel, deleted_button } => GlobalEventView::Core {
                serial_number: serial_number@,
                event: CoreEventView::ButtonDeleted { key: *key, panel: panel@, deleted_button: deleted_button@ },
            },
            SDGlobalEvent::ButtonAction { serial_number, key, panel, pressed_button } => GlobalEventView::Core {
                serial_number: serial_number@,
                event: CoreEventView::ButtonAction { key: *key, panel: panel@, pressed_button: pressed_button@ },
            },
            SDGlobalEvent::ButtonDown { serial_number, key } => GlobalEventView::Core {
                serial_number: serial_number@,
                event: CoreEventView::ButtonDown { key: *key },
            },
            SDGlobalEvent::ButtonUp { serial_number, key } => GlobalEventView::Core {
                serial_number: serial_number@,
                event: CoreEventView::ButtonUp { key: *key },
            },
            SDGlobalEvent::PanelPushed { serial_number, new_panel } => GlobalEventView::Core {
                serial_number: serial_number@,
                event: CoreEventView::PanelPushed { new_panel: new_panel@ },
            },
            SDGlobalEvent::PanelPopped { serial_number, popped_panel } => GlobalEventView::Core {
                serial_number: serial_number@,
                event: CoreEventView::PanelPopped { popped_panel: popped_panel@ },
            },
            SDGlobalEvent::PanelReplaced { serial_number, old_panel, new_panel } => GlobalEventView::Core {
                serial_number: serial_number@,
                event: CoreEventView::PanelReplaced {
                    old_panel: match old_panel {
                        Some(p) => Some(p@),
                        None => None,
                    },
                    new_panel: new_panel@,
                },
            },
            SDGlobalEvent::StackReset { serial_number, new_panel } => GlobalEventView::Core {
                serial_number: serial_number@,
                event: CoreEventView::StackReset { new_panel: new_panel@ },
            },
            SDGlobalEvent::DeviceConnected { serial_number } => GlobalEventView::DeviceConnected { serial_number: serial_number@ },
            SDGlobalEvent::DeviceDisconnected { serial_number } => GlobalEventView::DeviceDisconnected {
                serial_number: serial_number@,
            },
        }
    }
}

/// Converts a core event to a global event by adding the serial number of its device
pub fn core_event_to_global(event: SDCoreEvent, serial: &str) -> (r: SDGlobalEvent)
    ensures
        r@ == (GlobalEventView::Core { serial_number: serial@, event: event@ }),
{
    let serial_number = to_owned(serial);
    match event {
        SDCoreEvent::ButtonAdded { key, panel, added_button } => SDGlobalEvent::ButtonAdded { serial_number, key, panel, added_button },
        SDCoreEvent::ButtonUpdated { key, panel, new_button, old_button } => SDGlobalEvent::ButtonUpdated {
            serial_number,
            key,
            panel,
            new_button,
            old_button,
        },
        SDCoreEvent::ButtonDeleted { key, panel, deleted_button } => SDGlobalEvent::ButtonDeleted { serial_number, key, panel, deleted_button },
        SDCoreEvent::ButtonAction { key, panel, pressed_button } => SDGlobalEvent::ButtonAction { serial_number, key, panel, pressed_button },
        SDCoreEvent::ButtonDown { key } => SDGlobalEvent::ButtonDown { serial_number, key },
        SDCoreEvent::ButtonUp { key } => SDGlobalEvent::ButtonUp { serial_number, key },
        SDCoreEvent::PanelPushed { new_panel } => SDGlobalEvent::PanelPushed { serial_number, new_panel },
        SDCoreEvent::PanelPopped { popped_panel } => SDGlobalEvent::PanelPopped { serial_number, popped_panel },
        SDCoreEvent::PanelReplaced { old_panel, new_panel } => SDGlobalEvent::PanelReplaced { serial_number, old_panel, new_panel },
        SDCoreEvent::StackReset { new_panel } => SDGlobalEvent::StackReset { serial_number, new_panel },
    }
}

/// An event together with the names of the modules it is for
pub struct CoreNotice {
    /// The event
    pub event: SDCoreEvent,
    /// Names of the modules the event is sent to
    pub recipients: Vec<String>,
}

/// Commands for the thread that talks to the device
#[derive(Debug, Clone, Copy, PartialEq, Eq, Structural)]
pub enum DeviceThreadCommunication {
    /// Tells renderer that screen should be updated
    RefreshScreen,
    /// Sets streamdeck brightness to provided value
    SetBrightness(u8),
    /// Clears button and sets it to black color
    ClearButtonImage(u8),
}

/// Events queued for clients of the socket API, each with the serial number of its device
pub struct SocketManager {
    /// Serial number and event, in the order they were sent
    pub sent: Vec<(String, SDCoreEvent)>,
}

/// Core of one device
pub struct SDCore<M: SDModule> {
    /// Serial number of the device
    pub serial_number: String,
    /// Modules that provide components
    pub module_manager: ModuleManager<M>,
    /// Events for socket clients
    pub socket_manager: SocketManager,
    /// Stack of panels, the current screen on top
    pub current_stack: Vec<ButtonPanel>,
    /// Config of the device
    pub device_config: DeviceConfig,
    /// Whether the screen has to be drawn again
    pub needs_redraw: bool,
    /// Commands for the device, in the order they were sent
    pub commands: Vec<DeviceThreadCommunication>,
    /// Events for modules, in the order they were sent
    pub notices: Vec<CoreNotice>,
    /// Whether the connection to the device has ended
    pub closed: bool,
}

impl<M: SDModule> SDCore<M> {
    /// Creates a core with an empty stack
    pub fn new(serial_number: String, module_manager: ModuleManager<M>, device_config: DeviceConfig) -> (r: Self)
        ensures
            r.serial_number == serial_number,
            r.module_manager == module_manager,
            r.device_config == device_config,
            r.current_stack@.len() == 0,
            r.socket_manager.sent@.len() == 0,
            !r.needs_redraw,
            r.commands@.len() == 0,
            r.notices@.len() == 0,
            !r.closed,
    {
        SDCore {
            serial_number,
            module_manager,
            socket_manager: SocketManager { sent: Vec::new() },
            current_stack: Vec::new(),
            device_config,
            needs_redraw: false,
            commands: Vec::new(),
            notices: Vec::new(),
            closed: false,
        }
    }

    /// Marks the screen to be drawn again
    pub fn mark_for_redraw(&mut self)
        ensures
            final(self).needs_redraw,
            final(self).serial_number == old(self).serial_number,
            final(self).module_manager == old(self).module_manager,
            final(self).socket_manager == old(self).socket_manager,
            final(self).current_stack == old(self).current_stack,
            final(self).device_config == old(self).device_config,
            final(self).commands == old(self).commands,
            final(self).notices == old(self).notices,
            final(self).closed == old(self).closed,
    {
        self.needs_redraw = true;
    }

    /// Sends commands to the device
    pub fn send_commands(&mut self, commands: Vec<DeviceThreadCommunication>)
        ensures
            final(self).commands@ == old(self).commands@ + commands@,
            final(self).needs_redraw == old(self).needs_redraw,
            final(self).serial_number == old(self).serial_number,
            final(self).module_manager == old(self).module_manager,
            final(self).socket_manager == old(self).socket_manager,
            final(self).current_stack == old(self).current_stack,
            final(self).device_config == old(self).device_config,
            final(self).notices == old(self).notices,
            final(self).closed == old(self).closed,
    {
        let mut more = commands;
        self.commands.append(&mut more);
    }

    /// Whether the connection to the device has ended
    pub fn is_closed(&self) -> (r: bool)
        ensures
            r == self.closed,
    {
        self.closed
    }

    /// Ends the connection: the device thread stops and the core is no longer handed out
    pub fn close(&mut self)
        ensures
            final(self).closed,
            final(self).needs_redraw == old(self).needs_redraw,
            final(self).serial_number == old(self).serial_number,
            final(self).module_manager == old(self).module_manager,
            final(self).socket_manager == old(self).socket_manager,
            final(self).current_stack == old(self).current_stack,
            final(self).device_config == old(self).device_config,
            final(self).commands == old(self).commands,
            final(self).notices == old(self).notices,
    {
        self.closed = true;
    }
}

/// Replacing the top panel replaces the top view.
pub proof fn lemma_stack_replace_top(old_stack: Seq<RawButtonPanel>, new_stack: Seq<RawButtonPanel>, top: RawButtonPanel)
    requires
        old_stack.len() > 0,
        new_stack == old_stack.drop_last().push(top),
    ensures
        stack_view(new_stack) == stack_view(old_stack).update(old_stack.len() - 1, top@),
{
    assert forall|j: int| 0 <= j < new_stack.len() implies #[trigger] stack_view(new_stack)[j]
        == stack_view(old_stack).update(old_stack.len() - 1, top@)[j] by {
        if j < old_stack.len() - 1 {
            assert(new_stack[j] == old_stack[j]);
        }
    }
    assert(stack_view(new_stack) =~= stack_view(old_stack).update(old_stack.len() - 1, top@));
}

/// Button under a key on the top panel of a stack.
pub open spec fn top_button(stack: Seq<PanelView>, key: u8) -> Option<Map<Seq<char>, Value>> {
    if stack.len() > 0 && stack.last().buttons.dom().contains(key) {
        Some(stack.last().buttons[key])
    } else {
        None
    }
}

/// Stack after putting a button under a key on the top panel.
pub open spec fn stack_with_button(stack: Seq<PanelView>, key: u8, button: Map<Seq<char>, Value>) -> Seq<PanelView> {
    let top = stack.last();
    stack.update(stack.len() - 1, PanelView { buttons: top.buttons.insert(key, button), ..top })
}

/// Stack after removing the button under a key from the top panel.
pub open spec fn stack_without_button(stack: Seq<PanelView>, key: u8) -> Seq<PanelView> {
    let top = stack.last();
    stack.update(stack.len() - 1, PanelView { buttons: top.buttons.remove(key), ..top })
}

/// What a module is asked to do to a component of a button.
enum ComponentChange {
    Add,
    Remove,
    SetValues(Vec<UIValue>),
}

/// Whether `names` are the names of the modules that declared a component of the button,
/// sorted, each once
pub open spec fn declaring_modules<M: SDModule>(mm: ModuleManager<M>, button: Map<Seq<char>, Value>, names: Seq<String>) -> bool {
    &&& forall|n: Seq<char>| #[trigger] has_text(names, n) <==> exists|c: Seq<char>|
        #[trigger] button.dom().contains(c) && mm.component_owner().dom().contains(c)
            && mm.module_names()[mm.component_owner()[c] as int] == n
    &&& forall|i: int, j: int| 0 <= i < j < names.len() ==> seq_lt((#[trigger] names[i])@, (#[trigger] names[j])@)
}

/// Whether the named modules keep to the module spec
pub open spec fn modules_obey<M: SDModule>(mm: ModuleManager<M>, names: Seq<String>) -> bool {
    forall|i: int| 0 <= i < names.len() && mm.module_index().dom().contains((#[trigger] names[i])@)
        ==> mm.modules()[mm.module_index()[names[i]@] as int].obeys_module_spec()
}

/// The components of a new button, empty at first, after the named modules, in order, handled
/// a paste from the reference button; names without a module are passed over
pub open spec fn pasted<M: SDModule>(mm: ModuleManager<M>, names: Seq<String>, reference: Map<Seq<char>, Value>) -> Map<Seq<char>, Value>
    decreases names.len(),
{
    if names.len() == 0 {
        Map::empty()
    } else {
        let prev = pasted(mm, names.drop_last(), reference);
        if mm.module_index().dom().contains(names.last()@) {
            mm.modules()[mm.module_index()[names.last()@] as int].paste_spec(reference, prev)
        } else {
            prev
        }
    }
}

/// Handle that's given out to a module to perform actions on the core
pub struct CoreHandle<M: SDModule> {
    /// The core
    pub core: SDCore<M>,
    /// Name of the module acting through the handle
    pub module_name: String,
    /// Features the module reported
    pub module_features: Vec<(String, String)>,
}

impl<M: SDModule> CoreHandle<M> {
    /// Everything but the stack, the redraw flag and the queues is as before.
    pub open spec fn same_context(self, other: Self) -> bool {
        &&& self.module_name == other.module_name
        &&& self.module_features == other.module_features
        &&& self.core.serial_number == other.core.serial_number
        &&& self.core.module_manager == other.core.module_manager
        &&& self.core.device_config == other.core.device_config
        &&& self.core.closed == other.core.closed
    }

    /// Nothing was sent to modules, to the device or to socket clients.
    pub open spec fn same_queues(self, other: Self) -> bool {
        &&& self.core.notices == other.core.notices
        &&& self.core.commands == other.core.commands
        &&& self.core.socket_manager == other.core.socket_manager
    }

    /// Exactly one event was queued after those of `before`, for every module: its recipients
    /// are the names of the modules in the order of the module list, each once.
    pub open spec fn notified_all(self, before: Self, event: CoreEventView) -> bool {
        &&& self.core.notices@.len() == before.core.notices@.len() + 1
        &&& self.core.notices@.drop_last() == before.core.notices@
        &&& self.core.notices@.last().event@ == event
        &&& names_view(self.core.notices@.last().recipients@) == self.core.module_manager.module_list()
        &&& self.core.module_manager.module_list().no_duplicates()
        &&& forall|n: Seq<char>| #[trigger] has_text(self.core.notices@.last().recipients@, n) <==>
            self.core.module_manager.module_index().dom().contains(n)
    }

    /// Wraps core reference with a handle, used for all core features to be able to bypass feature checking
    pub fn wrap(core: SDCore<M>) -> (r: CoreHandle<M>)
        ensures
            r.core == core,
            r.module_name@ == "-system-"@,
            feature_views(r.module_features@) == supported_feature_views(),
    {
        CoreHandle { core, module_name: to_owned("-system-"), module_features: supported_features() }
    }

    /// Checks if module is allowed to use this feature
    pub fn check_for_feature(&self, feature: &str) -> (r: bool)
        ensures
            r == has_feature(self.module_features@, feature@),
    {
        check_feature_list_for_feature(&self.module_features, feature)
    }

    /// Gives the warning to log if the module is using a feature it hasn't reported
    pub fn required_feature(&self, feature: &str) -> (warning: Option<String>)
        ensures
            match warning {
                Some(w) => !has_feature(self.module_features@, feature@) && w@ == unreported_feature_warning(self.module_name@, feature@),
                None => has_feature(self.module_features@, feature@),
            },
    {
        warn_for_feature(self.module_name.as_str(), &self.module_features, feature)
    }

    /// Returns core reference
    pub fn get_core(&self) -> (r: &SDCore<M>)
        ensures
            *r == self.core,
    {
        &self.core
    }

    /// Returns socket manager reference
    pub fn socket_manager(&self) -> (r: &SocketManager)
        ensures
            *r == self.core.socket_manager,
    {
        &self.core.socket_manager
    }

    /// Returns current stack
    pub fn current_stack(&self) -> (r: &Vec<ButtonPanel>)
        ensures
            *r == self.core.current_stack,
    {
        &self.core.current_stack
    }

    /// Sends core event to all modules
    pub fn send_core_event_to_modules(&mut self, event: SDCoreEvent)
        ensures
            final(self).notified_all(*old(self), event@),
            final(self).same_context(*old(self)),
            final(self).core.current_stack == old(self).core.current_stack,
            final(self).core.needs_redraw == old(self).core.needs_redraw,
            final(self).core.commands == old(self).core.commands,
            final(self).core.socket_manager == old(self).core.socket_manager,
    {
        let recipients = self.core.module_manager.get_module_list();
        self.core.notices.push(CoreNotice { event, recipients });
        proof {
            assert(self.core.notices@.drop_last() =~= old(self).core.notices@);
        }
    }

    /// Gets current panel stack
    pub fn get_stack(&self) -> (r: Vec<ButtonPanel>)
        ensures
            stack_view(r@) == stack_view(self.core.current_stack@),
    {
        let mut r: Vec<ButtonPanel> = Vec::new();
        let mut i: usize = 0;
        while i < self.core.current_stack.len()
            invariant
                i <= self.core.current_stack@.len(),
                r@.len() == i,
                stack_view(r@) == stack_view(self.core.current_stack@.take(i as int)),
            decreases self.core.current_stack@.len() - i,
        {
            let ghost before = r@;
            let p = self.core.current_stack[i].duplicate();
            r.push(p);
            proof {
                let s = self.core.current_stack@;
                assert forall|j: int| 0 <= j < i + 1 implies #[trigger] stack_view(r@)[j] == stack_view(s.take(i + 1))[j] by {
                    if j < i {
                        assert(r@[j] == before[j]);
                        assert(stack_view(before)[j] == stack_view(s.take(i as int))[j]);
                        assert(s.take(i as int)[j] == s.take(i + 1)[j]);
                    } else {
                        assert(s.take(i + 1)[j] == s[j]);
                    }
                }
                assert(stack_view(r@) =~= stack_view(s.take(i + 1)));
            }
            i += 1;
        }
        proof {
            assert(self.core.current_stack@.take(i as int) =~= self.core.current_stack@);
        }
        r
    }

    /// Gets panel that's currently on top of the stack
    pub fn get_current_screen(&self) -> (r: Option<ButtonPanel>)
        ensures
            match r {
                Some(p) => self.core.current_stack@.len() > 0 && p@ == self.core.current_stack@.last()@,
                None => self.core.current_stack@.len() == 0,
            },
    {
        let n = self.core.current_stack.len();
        if n > 0 {
            Some(self.core.current_stack[n - 1].duplicate())
        } else {
            None
        }
    }

    /// Returns a button from current screen on specified position
    pub fn get_button(&self, key: u8) -> (r: Option<Button>)
        ensures
            match r {
                Some(b) => top_button(stack_view(self.core.current_stack@), key) == Some(b@),
                None => top_button(stack_view(self.core.current_stack@), key) is None,
            },
    {
        let n = self.core.current_stack.len();
        if n > 0 {
            match self.core.current_stack[n - 1].buttons.get(&key) {
                Some(b) => Some(b.duplicate()),
                None => None,
            }
        } else {
            None
        }
    }

    /// Creates a new button taking the provided one as an example and makes each module that
    /// declared one of its components handle the paste, in the order of their names, then sets
    /// it at the position
    pub fn paste_button(&mut self, key: u8, reference_button: &Button) -> (r: bool)
        ensures
            r == (old(self).core.current_stack@.len() > 0),
            final(self).same_context(*old(self)),
            !r ==> *final(self) == *old(self),
            r ==> exists|b: Map<Seq<char>, Value>| stack_view(final(self).core.current_stack@)
                == #[trigger] stack_with_button(stack_view(old(self).core.current_stack@), key, b),
            r ==> exists|names: Seq<String>| #[trigger] declaring_modules(old(self).core.module_manager, reference_button@, names)
                && (modules_obey(old(self).core.module_manager, names) ==> stack_view(final(self).core.current_stack@)
                    == stack_with_button(stack_view(old(self).core.current_stack@), key,
                        pasted(old(self).core.module_manager, names, reference_button@))),
            r ==> final(self).core.needs_redraw,
    {
        let mut new_button = Button::new();
        let names = reference_button.component_names();
        let responsible = self.core.module_manager.get_modules_for_declared_components(&names);
        let ghost mm = self.core.module_manager;
        proof {
            assert forall|n: Seq<char>| #[trigger] has_text(responsible@, n) <==> exists|c: Seq<char>|
                #[trigger] reference_button@.dom().contains(c) && mm.component_owner().dom().contains(c)
                    && mm.module_names()[mm.component_owner()[c] as int] == n by {
                if has_text(responsible@, n) {
                    let c = choose|c: int| 0 <= c < names@.len() && mm.component_owner().dom().contains((#[trigger] names@[c])@)
                        && mm.module_names()[mm.component_owner()[names@[c]@] as int] == n;
                    assert(reference_button@.dom().contains(names@[c]@));
                }
                if exists|c: Seq<char>| #[trigger] reference_button@.dom().contains(c) && mm.component_owner().dom().contains(c)
                    && mm.module_names()[mm.component_owner()[c] as int] == n {
                    let c = choose|c: Seq<char>| #[trigger] reference_button@.dom().contains(c) && mm.component_owner().dom().contains(c)
                        && mm.module_names()[mm.component_owner()[c] as int] == n;
                    let i = choose|i: int| 0 <= i < names@.len() && (#[trigger] names@[i])@ == c;
                    assert(mm.component_owner().dom().contains((names@[i])@));
                }
            }
            assert(declaring_modules(mm, reference_button@, responsible@));
            assert(new_button@ =~= pasted(mm, responsible@.take(0), reference_button@));
        }
        let mut i: usize = 0;
        while i < responsible.len()
            invariant
                i <= responsible@.len(),
                *self == *old(self),
                mm == self.core.module_manager,
                modules_obey(mm, responsible@) ==> new_button@ == pasted(mm, responsible@.take(i as int), reference_button@),
            decreases responsible@.len() - i,
        {
            let ghost before = new_button@;
            proof {
                assert(responsible@.take(i + 1).drop_last() =~= responsible@.take(i as int));
                assert(responsible@.take(i + 1).last() == responsible@[i as int]);
            }
            match self.core.module_manager.get_module(responsible[i].as_str()) {
                Some(m) => {
                    self.core.module_manager.lemma_indices();
                    self.core.module_manager.module_at(m).paste_component(reference_button, &mut new_button);
                },
                None => {},
            }
            i += 1;
        }
        proof {
            assert(responsible@.take(responsible@.len() as int) =~= responsible@);
        }
        self.set_button(key, new_button)
    }

    /// A handle on the same core for another module, with that module's name and features
    pub fn clone_for(self, module: &M) -> (r: CoreHandle<M>)
        ensures
            r.core == self.core,
            module.obeys_module_spec() ==> r.module_name@ == module.name_spec(),
            module.obeys_module_spec() ==> r.module_features@ == module.features_spec(),
    {
        let module_name = module.name();
        let metadata = module.metadata();
        CoreHandle { core: self.core, module_name, module_features: metadata.used_features }
    }

    /// Sets button to current screen with specified position
    pub fn set_button(&mut self, key: u8, button: Button) -> (r: bool)
        ensures
            r == (old(self).core.current_stack@.len() > 0),
            final(self).same_context(*old(self)),
            !r ==> *final(self) == *old(self),
            r ==> stack_view(final(self).core.current_stack@) == stack_with_button(
                stack_view(old(self).core.current_stack@), key, button@),
            r ==> final(self).core.needs_redraw,
            r ==> final(self).core.commands == old(self).core.commands,
            r ==> final(self).core.socket_manager == old(self).core.socket_manager,
            r ==> final(self).notified_all(*old(self), match top_button(stack_view(old(self).core.current_stack@), key) {
                Some(old_button) => CoreEventView::ButtonUpdated {
                    key,
                    panel: stack_view(final(self).core.current_stack@).last(),
                    new_button: button@,
                    old_button,
                },
                None => CoreEventView::ButtonAdded {
                    key,
                    panel: stack_view(final(self).core.current_stack@).last(),
                    added_button: button@,
                },
            }),
    {
        let n = self.core.current_stack.len();
        if n == 0 {
            return false;
        }
        let ghost old_seq = self.core.current_stack@;
        let ghost old_stack = stack_view(self.core.current_stack@);
        let mut panel = self.core.current_stack.pop().unwrap();
        let ghost old_panel = panel;
        let copy = button.duplicate();
        let ghost bv = button@;
        let previous = panel.buttons.insert(key, button);
        let panel_copy = panel.duplicate();
        self.core.current_stack.push(panel);
        proof {
            assert(panel@.buttons =~= old_panel@.buttons.insert(key, bv));
            assert(old_panel == old_seq.last());
            lemma_stack_replace_top(old_seq, self.core.current_stack@, panel);
            assert(stack_view(self.core.current_stack@) =~= stack_with_button(old_stack, key, copy@));
        }
        let event = match previous {
            Some(old_button) => SDCoreEvent::ButtonUpdated { key, panel: panel_copy, new_button: copy, old_button },
            None => SDCoreEvent::ButtonAdded { key, panel: panel_copy, added_button: copy },
        };
        self.send_core_event_to_modules(event);
        self.core.mark_for_redraw();
        true
    }

    /// Clears button from current screen on specified position
    pub fn clear_button(&mut self, key: u8) -> (r: bool)
        ensures
            r == top_button(stack_view(old(self).core.current_stack@), key) is Some,
            final(self).same_context(*old(self)),
            !r ==> stack_view(final(self).core.current_stack@) == stack_view(old(self).core.current_stack@),
            !r ==> final(self).same_queues(*old(self)),
            !r ==> final(self).core.needs_redraw == old(self).core.needs_redraw,
            r ==> stack_view(final(self).core.current_stack@) == stack_without_button(
                stack_view(old(self).core.current_stack@), key),
            r ==> final(self).core.needs_redraw,
            r ==> final(self).core.commands == old(self).core.commands,
            r ==> final(self).core.socket_manager == old(self).core.socket_manager,
            r ==> final(self).notified_all(*old(self), CoreEventView::ButtonDeleted {
                key,
                panel: stack_view(final(self).core.current_stack@).last(),
                deleted_button: top_button(stack_view(old(self).core.current_stack@), key)->0,
            }),
    {
        let n = self.core.current_stack.len();
        if n == 0 {
            return false;
        }
        let ghost old_seq = self.core.current_stack@;
        let ghost old_stack = stack_view(self.core.current_stack@);
        let mut panel = self.core.current_stack.pop().unwrap();
        let ghost old_panel = panel;
        let removed = panel.buttons.remove(&key);
        let panel_copy = panel.duplicate();
        self.core.current_stack.push(panel);
        proof {
            assert(old_panel == old_seq.last());
            lemma_stack_replace_top(old_seq, self.core.current_stack@, panel);
        }
        match removed {
            Some(deleted_button) => {
                proof {
                    assert(panel@.buttons =~= old_panel@.buttons.remove(key));
                    assert(stack_view(self.core.current_stack@) =~= stack_without_button(old_stack, key));
                }
                self.send_core_event_to_modules(SDCoreEvent::ButtonDeleted { key, panel: panel_copy, deleted_button });
                self.core.mark_for_redraw();
                true
            },
            None => {
                proof {
                    assert(panel.buttons.map() =~= old_panel.buttons.map());
                    assert(panel@ == old_panel@);
                    assert(stack_view(self.core.current_stack@) =~= old_stack);
                }
                false
            },
        }
    }

    /// Pushes new panel into the stack
    pub fn push_screen(&mut self, screen: ButtonPanel)
        ensures
            final(self).core.current_stack@ == old(self).core.current_stack@.push(screen),
            final(self).same_context(*old(self)),
            final(self).core.needs_redraw,
            final(self).core.commands == old(self).core.commands,
            final(self).core.socket_manager == old(self).core.socket_manager,
            final(self).notified_all(*old(self), CoreEventView::PanelPushed { new_panel: screen@ }),
    {
        let copy = screen.duplicate();
        self.core.current_stack.push(screen);
        self.send_core_event_to_modules(SDCoreEvent::PanelPushed { new_panel: copy });
        self.core.mark_for_redraw();
    }

    /// Pops panel from stack
    pub fn pop_screen(&mut self)
        ensures
            final(self).same_context(*old(self)),
            final(self).core.needs_redraw,
            final(self).core.commands == old(self).core.commands,
            final(self).core.socket_manager == old(self).core.socket_manager,
            old(self).core.current_stack@.len() == 0 ==> final(self).core.current_stack@.len() == 0
                && final(self).core.notices == old(self).core.notices,
            old(self).core.current_stack@.len() > 0 ==> final(self).core.current_stack@ == old(self).core.current_stack@.drop_last()
                && final(self).notified_all(*old(self), CoreEventView::PanelPopped { popped_panel: old(self).core.current_stack@.last()@ }),
    {
        let old_panel = self.core.current_stack.pop();
        match old_panel {
            Some(p) => {
                self.send_core_event_to_modules(SDCoreEvent::PanelPopped { popped_panel: p });
            },
            None => {},
        }
        self.core.mark_for_redraw();
    }

    /// Returns first panel of the stack for saving purposes
    pub fn get_root_screen(&self) -> (r: ButtonPanel)
        requires
            self.core.current_stack@.len() > 0,
        ensures
            r@ == self.core.current_stack@[0]@,
    {
        self.core.current_stack[0].duplicate()
    }

    /// Clears the stack and loads provided panel into the stack
    pub fn reset_stack(&mut self, panel: ButtonPanel)
        ensures
            final(self).core.current_stack@ == seq![panel],
            final(self).same_context(*old(self)),
            final(self).core.needs_redraw,
            final(self).core.commands == old(self).core.commands,
            final(self).core.socket_manager == old(self).core.socket_manager,
            final(self).notified_all(*old(self), CoreEventView::StackReset { new_panel: panel@ }),
    {
        let copy = panel.duplicate();
        self.core.current_stack.clear();
        self.core.current_stack.push(panel);
        proof {
            assert(self.core.current_stack@ =~= seq![panel]);
        }
        self.send_core_event_to_modules(SDCoreEvent::StackReset { new_panel: copy });
        self.core.mark_for_redraw();
    }

    /// Replaces current screen with specified one
    pub fn replace_screen(&mut self, screen: ButtonPanel)
        ensures
            old(self).core.current_stack@.len() > 0 ==> final(self).core.current_stack@
                == old(self).core.current_stack@.drop_last().push(screen),
            old(self).core.current_stack@.len() == 0 ==> final(self).core.current_stack@ == seq![screen],
            final(self).same_context(*old(self)),
            final(self).core.needs_redraw,
            final(self).core.commands == old(self).core.commands,
            final(self).core.socket_manager == old(self).core.socket_manager,
            final(self).notified_all(*old(self), CoreEventView::PanelReplaced {
                old_panel: if old(self).core.current_stack@.len() > 0 { Some(old(self).core.current_stack@.last()@) } else { None },
                new_panel: screen@,
            }),
    {
        let copy = screen.duplicate();
        let old_panel = self.core.current_stack.pop();
        self.core.current_stack.push(screen);
        proof {
            if old(self).core.current_stack@.len() == 0 {
                assert(self.core.current_stack@ =~= seq![screen]);
            }
        }
        self.send_core_event_to_modules(SDCoreEvent::PanelReplaced { old_panel, new_panel: copy });
        self.core.mark_for_redraw();
    }

    /// Triggers button down event on all modules
    pub fn button_down(&mut self, key: u8)
        ensures
            final(self).core.current_stack == old(self).core.current_stack,
            final(self).same_context(*old(self)),
            final(self).core.needs_redraw == old(self).core.needs_redraw,
            final(self).core.commands == old(self).core.commands,
            final(self).core.socket_manager == old(self).core.socket_manager,
            final(self).notified_all(*old(self), CoreEventView::ButtonDown { key }),
    {
        self.send_core_event_to_modules(SDCoreEvent::ButtonDown { key });
    }

    /// Sets brightness of the streamdeck to specified (Range from 0 to 100)
    pub fn set_brightness(&mut self, brightness: u8)
        ensures
            final(self).core.commands@ == old(self).core.commands@.push(DeviceThreadCommunication::SetBrightness(brightness)),
            final(self).core.device_config.brightness == brightness,
            final(self).core.device_config.layout == old(self).core.device_config.layout,
            final(self).core.device_config.serial == old(self).core.device_config.serial,
            final(self).core.device_config.plugin_data == old(self).core.device_config.plugin_data,
            final(self).core.device_config.vid == old(self).core.device_config.vid,
            final(self).core.device_config.pid == old(self).core.device_config.pid,
            final(self).core.device_config.dirty_state == old(self).core.device_config.dirty_state,
            final(self).core.current_stack == old(self).core.current_stack,
            final(self).core.notices == old(self).core.notices,
            final(self).core.socket_manager == old(self).core.socket_manager,
            final(self).core.module_manager == old(self).core.module_manager,
            final(self).core.serial_number == old(self).core.serial_number,
            final(self).core.closed == old(self).core.closed,
            final(self).core.needs_redraw == old(self).core.needs_redraw,
            final(self).module_name == old(self).module_name,
            final(self).module_features == old(self).module_features,
    {
        let mut commands = Vec::new();
        commands.push(DeviceThreadCommunication::SetBrightness(brightness));
        self.core.send_commands(commands);
        self.core.device_config.brightness = brightness;
    }

    /// Commits all changes to layout to device config so it can be later saved
    pub fn commit_changes(&mut self)
        requires
            old(self).core.current_stack@.len() > 0,
        ensures
            final(self).core.device_config.layout@ == old(self).core.current_stack@[0]@,
            final(self).core.device_config.brightness == old(self).core.device_config.brightness,
            final(self).core.device_config.serial == old(self).core.device_config.serial,
            final(self).core.device_config.plugin_data == old(self).core.device_config.plugin_data,
            final(self).core.device_config.vid == old(self).core.device_config.vid,
            final(self).core.device_config.pid == old(self).core.device_config.pid,
            final(self).core.device_config.dirty_state == old(self).core.device_config.dirty_state,
            final(self).core.current_stack == old(self).core.current_stack,
            final(self).same_queues(*old(self)),
            final(self).core.module_manager == old(self).core.module_manager,
    {
        let root = self.get_root_screen();
        self.core.device_config.layout = root;
    }

    /// Whether the top panel has a button under the key with the named component on it, and
    /// some module declared that component.
    pub open spec fn component_available(self, key: u8, name: Seq<char>) -> bool {
        &&& top_button(stack_view(self.core.current_stack@), key) is Some
        &&& top_button(stack_view(self.core.current_stack@), key)->0.dom().contains(name)
        &&& self.core.module_manager.component_owner().dom().contains(name)
    }

    /// Whether the top panel has a button under the key without the named component on it, and
    /// some module declared that component.
    pub open spec fn component_addable(self, key: u8, name: Seq<char>) -> bool {
        &&& top_button(stack_view(self.core.current_stack@), key) is Some
        &&& !top_button(stack_view(self.core.current_stack@), key)->0.dom().contains(name)
        &&& self.core.module_manager.component_owner().dom().contains(name)
    }

    /// The module that declared a component last, which the component's changes go to.
    pub open spec fn owner_module(self, name: Seq<char>) -> M {
        self.core.module_manager.modules()[self.core.module_manager.component_owner()[name] as int]
    }

    /// The components of the button under a key on the top panel.
    pub open spec fn key_button(self, key: u8) -> Map<Seq<char>, Value> {
        top_button(stack_view(self.core.current_stack@), key)->0
    }

    /// After a module changed the button under a key: the stack holds the changed button and an
    /// update event was sent to every module.
    pub open spec fn button_changed(self, before: Self, key: u8) -> bool {
        let new_button = top_button(stack_view(self.core.current_stack@), key)->0;
        &&& top_button(stack_view(self.core.current_stack@), key) is Some
        &&& stack_view(self.core.current_stack@) == stack_with_button(stack_view(before.core.current_stack@), key, new_button)
        &&& self.core.needs_redraw
        &&& self.core.commands == before.core.commands
        &&& self.core.socket_manager == before.core.socket_manager
        &&& self.notified_all(before, CoreEventView::ButtonUpdated {
            key,
            panel: stack_view(self.core.current_stack@).last(),
            new_button,
            old_button: top_button(stack_view(before.core.current_stack@), key)->0,
        })
    }

    /// Nothing changed that a view shows.
    pub open spec fn unchanged(self, before: Self) -> bool {
        &&& stack_view(self.core.current_stack@) == stack_view(before.core.current_stack@)
        &&& self.same_queues(before)
        &&& self.core.needs_redraw == before.core.needs_redraw
    }

    /// Takes the button under a key off the top panel, lets the module that owns the component
    /// change it, puts it back and announces the change.
    fn change_button_with_module(&mut self, key: u8, component_name: &str, owner: usize, change: ComponentChange)
        requires
            top_button(stack_view(old(self).core.current_stack@), key) is Some,
            owner < old(self).core.module_manager.modules().len(),
        ensures
            final(self).same_context(*old(self)),
            final(self).button_changed(*old(self), key),
            old(self).core.module_manager.modules()[owner as int].obeys_module_spec() ==> final(self).key_button(key) == match change {
                ComponentChange::Add => old(self).core.module_manager.modules()[owner as int].added_spec(old(self).key_button(key), component_name@),
                ComponentChange::Remove => old(self).core.module_manager.modules()[owner as int].removed_spec(old(self).key_button(key), component_name@),
                ComponentChange::SetValues(v) => old(self).core.module_manager.modules()[owner as int].set_spec(old(self).key_button(key), component_name@, v@),
            },
    {
        let ghost old_seq = self.core.current_stack@;
        let ghost old_stack = stack_view(self.core.current_stack@);
        let mut panel = self.core.current_stack.pop().unwrap();
        let ghost old_panel = panel;
        proof {
            assert(old_panel == old_seq.last());
            assert(old_panel.buttons.map().dom().contains(key));
        }
        let mut button = panel.buttons.remove(&key).unwrap();
        let previous = button.duplicate();
        let module = self.core.module_manager.module_at(owner);
        match change {
            ComponentChange::Add => module.add_component(&mut button, component_name),
            ComponentChange::Remove => module.remove_component(&mut button, component_name),
            ComponentChange::SetValues(values) => module.set_component_value(&mut button, component_name, values),
        }
        let new_copy = button.duplicate();
        let ghost bv = button@;
        panel.buttons.insert(key, button);
        let panel_copy = panel.duplicate();
        self.core.current_stack.push(panel);
        proof {
            assert(panel@.buttons =~= old_panel@.buttons.insert(key, bv));
            lemma_stack_replace_top(old_seq, self.core.current_stack@, panel);
            assert(stack_view(self.core.current_stack@) =~= stack_with_button(old_stack, key, bv));
        }
        self.send_core_event_to_modules(SDCoreEvent::ButtonUpdated {
            key,
            panel: panel_copy,
            new_button: new_copy,
            old_button: previous,
        });
        self.core.mark_for_redraw();
    }

    /// Adds component onto a button, returns success boolean
    pub fn add_component(&mut self, key: u8, component_name: &str) -> (r: bool)
        ensures
            r == old(self).component_addable(key, component_name@),
            final(self).same_context(*old(self)),
            !r ==> final(self).unchanged(*old(self)),
            r ==> final(self).button_changed(*old(self), key),
            r && old(self).owner_module(component_name@).obeys_module_spec() ==> final(self).key_button(key)
                == old(self).owner_module(component_name@).added_spec(old(self).key_button(key), component_name@),
    {
        let n = self.core.current_stack.len();
        if n == 0 {
            return false;
        }
        match self.core.current_stack[n - 1].buttons.get(&key) {
            None => {
                return false;
            },
            Some(b) => {
                if b.contains(component_name) {
                    return false;
                }
            },
        }
        match self.core.module_manager.get_component(component_name) {
            None => false,
            Some(owner) => {
                self.change_button_with_module(key, component_name, owner, ComponentChange::Add);
                true
            },
        }
    }

    /// Removes component from a button
    pub fn remove_component(&mut self, key: u8, component_name: &str) -> (r: bool)
        ensures
            r == old(self).component_available(key, component_name@),
            final(self).same_context(*old(self)),
            !r ==> final(self).unchanged(*old(self)),
            r ==> final(self).button_changed(*old(self), key),
            r && old(self).owner_module(component_name@).obeys_module_spec() ==> final(self).key_button(key)
                == old(self).owner_module(component_name@).removed_spec(old(self).key_button(key), component_name@),
    {
        let n = self.core.current_stack.len();
        if n == 0 {
            return false;
        }
        match self.core.current_stack[n - 1].buttons.get(&key) {
            None => {
                return false;
            },
            Some(b) => {
                if !b.contains(component_name) {
                    return false;
                }
            },
        }
        match self.core.module_manager.get_component(component_name) {
            None => false,
            Some(owner) => {
                self.change_button_with_module(key, component_name, owner, ComponentChange::Remove);
                true
            },
        }
    }

    /// Sets component values based on changes for component on a button
    pub fn set_component_value(&mut self, key: u8, component_name: &str, value: Vec<UIValue>) -> (r: bool)
        ensures
            r == old(self).component_available(key, component_name@),
            final(self).same_context(*old(self)),
            !r ==> final(self).unchanged(*old(self)),
            r ==> final(self).button_changed(*old(self), key),
            r && old(self).owner_module(component_name@).obeys_module_spec() ==> final(self).key_button(key)
                == old(self).owner_module(component_name@).set_spec(old(self).key_button(key), component_name@, value@),
    {
        let n = self.core.current_stack.len();
        if n == 0 {
            return false;
        }
        match self.core.current_stack[n - 1].buttons.get(&key) {
            None => {
                return false;
            },
            Some(b) => {
                if !b.contains(component_name) {
                    return false;
                }
            },
        }
        match self.core.module_manager.get_component(component_name) {
            None => false,
            Some(owner) => {
                self.change_button_with_module(key, component_name, owner, ComponentChange::SetValues(value));
                true
            },
        }
    }

    /// Gets component values from a component on a button, as the module that owns the component gives them
    pub fn get_component_values(&self, key: u8, component_name: &str) -> (r: Option<Vec<UIValue>>)
        ensures
            r is Some == self.component_available(key, component_name@),
            r is Some && self.owner_module(component_name@).obeys_module_spec() ==> r->0@ == self.owner_module(
                component_name@).values_spec(self.key_button(key), component_name@),
    {
        let n = self.core.current_stack.len();
        if n == 0 {
            return None;
        }
        match self.core.current_stack[n - 1].buttons.get(&key) {
            None => None,
            Some(b) => {
                if !b.contains(component_name) {
                    return None;
                }
                match self.core.module_manager.get_component(component_name) {
                    None => None,
                    Some(owner) => Some(self.core.module_manager.module_at(owner).component_values(b, component_name)),
                }
            },
        }
    }

    /// Whether a module of the given name listens for some component on a button.
    pub open spec fn listens_to_button(self, button: Map<Seq<char>, Value>, n: Seq<char>) -> bool {
        let mm = self.core.module_manager;
        exists|c: Seq<char>, k: int| #![trigger button.dom().contains(c), mm.listeners()[c][k]]
            button.dom().contains(c) && mm.listeners().dom().contains(c) && 0 <= k < mm.listeners()[c].len()
                && mm.module_names()[mm.listeners()[c][k] as int] == n
    }

    /// The event that pressing the button under a key on the top panel gives.
    pub open spec fn action_event(self, key: u8) -> CoreEventView {
        CoreEventView::ButtonAction {
            key,
            panel: stack_view(self.core.current_stack@).last(),
            pressed_button: top_button(stack_view(self.core.current_stack@), key)->0,
        }
    }

    /// The action of the button under a key was sent to the modules that listen for its
    /// components, and to socket clients.
    pub open spec fn action_sent(self, before: Self, key: u8) -> bool {
        let event = before.action_event(key);
        &&& self.core.needs_redraw
        &&& self.core.notices@.len() == before.core.notices@.len() + 1
        &&& self.core.notices@.drop_last() == before.core.notices@
        &&& self.core.notices@.last().event@ == event
        &&& forall|n: Seq<char>| #[trigger] has_text(self.core.notices@.last().recipients@, n) <==> (
            before.listens_to_button(top_button(stack_view(before.core.current_stack@), key)->0, n))
        &&& self.core.socket_manager.sent@.len() == before.core.socket_manager.sent@.len() + 1
        &&& self.core.socket_manager.sent@.drop_last() == before.core.socket_manager.sent@
        &&& self.core.socket_manager.sent@.last().0 == before.core.serial_number
        &&& self.core.socket_manager.sent@.last().1@ == event
    }

    /// Triggers button action event for modules that are related to components of the button
    pub fn button_action(&mut self, key: u8)
        ensures
            final(self).same_context(*old(self)),
            final(self).core.current_stack == old(self).core.current_stack,
            final(self).core.commands == old(self).core.commands,
            top_button(stack_view(old(self).core.current_stack@), key) is None ==> final(self).same_queues(*old(self))
                && final(self).core.needs_redraw == old(self).core.needs_redraw,
            top_button(stack_view(old(self).core.current_stack@), key) is Some ==> final(self).action_sent(*old(self), key),
    {
        let n = self.core.current_stack.len();
        if n == 0 {
            return;
        }
        let top = &self.core.current_stack[n - 1];
        let button = match top.buttons.get(&key) {
            None => {
                return;
            },
            Some(b) => b,
        };
        let names = button.component_names();
        let listeners = self.core.module_manager.get_modules_for_components(&names);
        proof {
            let mm = self.core.module_manager;
            let bv = button@;
            assert forall|nm: Seq<char>| has_text(listeners@, nm) <==> self.listens_to_button(bv, nm) by {
                if has_text(listeners@, nm) {
                    let (c, k) = choose|c: int, k: int| #![trigger names@[c], mm.listeners()[names@[c]@][k]]
                        0 <= c < names@.len() && mm.listeners().dom().contains(names@[c]@) && 0 <= k
                            < mm.listeners()[names@[c]@].len() && mm.module_names()[mm.listeners()[names@[c]@][k] as int] == nm;
                    assert(bv.dom().contains(names@[c]@));
                }
                if self.listens_to_button(bv, nm) {
                    let (c, k) = choose|c: Seq<char>, k: int| #![trigger bv.dom().contains(c), mm.listeners()[c][k]]
                        bv.dom().contains(c) && mm.listeners().dom().contains(c) && 0 <= k < mm.listeners()[c].len()
                            && mm.module_names()[mm.listeners()[c][k] as int] == nm;
                    let i = choose|i: int| 0 <= i < names@.len() && (#[trigger] names@[i])@ == c;
                    assert(mm.listeners()[names@[i]@][k] == mm.listeners()[c][k]);
                }
            }
        }
        let recipients = listeners;
        let event = SDCoreEvent::ButtonAction { key, panel: top.duplicate(), pressed_button: button.duplicate() };
        let socket_event = SDCoreEvent::ButtonAction { key, panel: top.duplicate(), pressed_button: button.duplicate() };
        let serial = self.core.serial_number.clone();
        self.core.notices.push(CoreNotice { event, recipients });
        self.core.socket_manager.sent.push((serial, socket_event));
        proof {
            assert(self.core.notices@.drop_last() =~= old(self).core.notices@);
            assert(self.core.socket_manager.sent@.drop_last() =~= old(self).core.socket_manager.sent@);
        }
        self.core.mark_for_redraw();
    }

    /// Triggers button up event on all modules, then the button's action
    pub fn button_up(&mut self, key: u8)
        ensures
            final(self).same_context(*old(self)),
            final(self).core.current_stack == old(self).core.current_stack,
            final(self).core.commands == old(self).core.commands,
            final(self).core.notices@.len() >= old(self).core.notices@.len() + 1,
            final(self).core.notices@[old(self).core.notices@.len() as int].event@ == (CoreEventView::ButtonUp { key }),
            final(self).core.notices@.take(old(self).core.notices@.len() as int) == old(self).core.notices@,
            top_button(stack_view(old(self).core.current_stack@), key) is None ==> final(self).core.notices@.len()
                == old(self).core.notices@.len() + 1 && final(self).core.socket_manager == old(self).core.socket_manager,
            forall|n: Seq<char>| #[trigger] has_text(final(self).core.notices@[old(self).core.notices@.len() as int].recipients@, n)
                <==> old(self).core.module_manager.module_index().dom().contains(n),
            names_view(final(self).core.notices@[old(self).core.notices@.len() as int].recipients@)
                == old(self).core.module_manager.module_list(),
            top_button(stack_view(old(self).core.current_stack@), key) is Some ==> final(self).core.notices@.len()
                == old(self).core.notices@.len() + 2 && final(self).core.notices@.last().event@ == old(self).action_event(key),
            top_button(stack_view(old(self).core.current_stack@), key) is Some ==> forall|n: Seq<char>| #[trigger] has_text(
                final(self).core.notices@.last().recipients@, n) <==> old(self).listens_to_button(
                top_button(stack_view(old(self).core.current_stack@), key)->0, n),
            top_button(stack_view(old(self).core.current_stack@), key) is Some ==> final(self).core.socket_manager.sent@
                == old(self).core.socket_manager.sent@.push((old(self).core.serial_number, final(self).core.socket_manager.sent@.last().1))
                && final(self).core.socket_manager.sent@.last().1@ == old(self).action_event(key),
            top_button(stack_view(old(self).core.current_stack@), key) is None ==> final(self).core.needs_redraw == old(self).core.needs_redraw,
            top_button(stack_view(old(self).core.current_stack@), key) is Some ==> final(self).core.needs_redraw,
    {
        self.send_core_event_to_modules(SDCoreEvent::ButtonUp { key });
        let ghost mid = self.core.notices@;
        self.button_action(key);
        proof {
            assert(mid.drop_last() == old(self).core.notices@);
            assert(self.core.notices@[old(self).core.notices@.len() as int] == mid[old(self).core.notices@.len() as int]);
            if top_button(stack_view(old(self).core.current_stack@), key) is Some {
                assert(self.core.socket_manager.sent@ =~= old(self).core.socket_manager.sent@.push(
                    (old(self).core.serial_number, self.core.socket_manager.sent@.last().1)));
            }
            if top_button(stack_view(old(self).core.current_stack@), key) is Some {
                assert(self.core.notices@.drop_last() == mid);
                assert(self.core.notices@[old(self).core.notices@.len() as int] == mid[old(self).core.notices@.len() as int]);
                assert(self.core.notices@.take(old(self).core.notices@.len() as int) =~= old(self).core.notices@);
            } else {
                assert(self.core.notices@.take(old(self).core.notices@.len() as int) =~= old(self).core.notices@);
            }
        }
    }
}

/// Reading a key after setting it on the current screen gives the button that was set.
pub proof fn law_set_then_get(stack: Seq<PanelView>, key: u8, button: Map<Seq<char>, Value>)
    requires
        stack.len() > 0,
    ensures
        top_button(stack_with_button(stack, key, button), key) == Some(button),
{
}

/// Setting a key leaves every other key of the current screen as it was.
pub proof fn law_set_keeps_other_keys(stack: Seq<PanelView>, key: u8, other: u8, button: Map<Seq<char>, Value>)
    requires
        stack.len() > 0,
        other != key,
    ensures
        top_button(stack_with_button(stack, key, button), other) == top_button(stack, other),
{
}

/// Reading a key after clearing it finds no button.
pub proof fn law_clear_then_get(stack: Seq<PanelView>, key: u8)
    requires
        stack.len() > 0,
    ensures
        top_button(stack_without_button(stack, key), key) is None,
{
}

/// Clearing a key that was empty before a button was set there gives back the stack as it was.
pub proof fn law_set_then_clear(stack: Seq<PanelView>, key: u8, button: Map<Seq<char>, Value>)
    requires
        stack.len() > 0,
        top_button(stack, key) is None,
    ensures
        stack_without_button(stack_with_button(stack, key, button), key) == stack,
{
    let top = stack.last();
    assert(top.buttons.insert(key, button).remove(key) =~= top.buttons);
    assert(stack_without_button(stack_with_button(stack, key, button), key) =~= stack);
}

/// Setting and clearing buttons change only the current screen and keep the depth of the stack.
pub proof fn law_button_edits_keep_lower_panels(stack: Seq<PanelView>, key: u8, button: Map<Seq<char>, Value>)
    requires
        stack.len() > 0,
    ensures
        stack_with_button(stack, key, button).len() == stack.len(),
        stack_without_button(stack, key).len() == stack.len(),
        stack_with_button(stack, key, button).drop_last() == stack.drop_last(),
        stack_without_button(stack, key).drop_last() == stack.drop_last(),
{
    assert(stack_with_button(stack, key, button).drop_last() =~= stack.drop_last());
    assert(stack_without_button(stack, key).drop_last() =~= stack.drop_last());
}

/// Popping a screen right after pushing it gives back the stack as it was, and while it is
/// pushed it is the current screen.
pub proof fn law_push_then_pop(stack: Seq<RawButtonPanel>, screen: RawButtonPanel)
    ensures
        stack.push(screen).drop_last() == stack,
        stack.push(screen).last() == screen,
        stack.push(screen).len() > 0,
{
    assert(stack.push(screen).drop_last() =~= stack);
}

/// Replacing the current screen keeps the depth of a non-empty stack and the panels below.
pub proof fn law_replace_keeps_depth(stack: Seq<RawButtonPanel>, screen: RawButtonPanel)
    requires
        stack.len() > 0,
    ensures
        stack.drop_last().push(screen).len() == stack.len(),
        stack.drop_last().push(screen).drop_last() == stack.drop_last(),
        stack.drop_last().push(screen).last() == screen,
{
    assert(stack.drop_last().push(screen).drop_last() =~= stack.drop_last());
}

/// After a reset the given panel is both the root and the current screen, and alone on the stack.
pub proof fn law_reset_single_root(panel: RawButtonPanel)
    ensures
        seq![panel].len() == 1,
        seq![panel][0] == panel,
        seq![panel].last() == panel,
{
}

} // verus!
