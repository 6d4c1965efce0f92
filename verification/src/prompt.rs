//! Reading commands typed at the interactive prompt: which command a line names, and the
//! words that follow it as its arguments.

use vstd::prelude::*;
use crate::commands::{split_at_char, split_on, words};
use crate::help::{trim, trimmed};
use crate::parse::{parse_index, parse_u8, parse_usize, read_u8};
use crate::text::{str_eq, to_owned};

verus! {

/// The commands of the prompt.
#[derive(Clone, Copy, Debug, PartialEq, Eq, Structural)]
pub enum CommandKind {
    /// Prints the help text
    Help,
    /// Leaves the prompt
    Exit,
    /// An unknown device command
    DeviceUnknown,
    /// Lists all devices
    DeviceList,
    /// Adds a device to the managed ones
    DeviceAdd,
    /// Removes a device from the managed ones
    DeviceRemove,
    /// Selects the device to work with, or unselects without a serial
    Select,
    /// An unknown config command
    ConfigUnknown,
    /// Reloads device configs
    ConfigReload,
    /// Saves device configs
    ConfigSave,
    /// Imports a device config from a file
    ConfigImport,
    /// Exports a device config into a file
    ConfigExport,
    /// Sets the brightness of the selected device
    Brightness,
    /// Goes back a screen
    Back,
    /// An unknown back command
    BackUnknown,
    /// Goes back to the root screen
    BackDrop,
    /// Presses a button of the selected device
    Press,
    /// An unknown module command
    ModuleUnknown,
    /// Lists the loaded modules
    ModuleList,
    /// Prints information about a module
    ModuleInfo,
    /// An unknown module params command
    ModuleParamsUnknown,
    /// Adds an element to a parameter array of a module
    ModuleParamsAdd,
    /// Removes an element from a parameter array of a module
    ModuleParamsRemove,
    /// Sets a parameter of a module
    ModuleParamsSet,
    /// Sets a parameter of a module to the contents of a file
    ModuleParamsUpload,
    /// Lists the parameters of a module
    ModuleParamsList,
    /// An unknown image command
    ImageUnknown,
    /// Lists the images of a device
    ImageList,
    /// Adds an image to a device
    ImageAdd,
    /// Removes an image from a device
    ImageRemove,
    /// An unknown component command
    ComponentUnknown,
    /// Lists the components of all modules
    ComponentList,
    /// Prints information about a component
    ComponentInfo,
    /// Shows the screen stack of the selected device
    Stack,
    /// An unknown font command
    FontUnknown,
    /// Lists the loaded fonts
    FontList,
    /// An unknown button command
    ButtonUnknown,
    /// Lists the buttons of the current screen
    ButtonList,
    /// Prints information about a button
    ButtonInfo,
    /// Creates an empty button
    ButtonNew,
    /// Creates a button from a component template
    ButtonFrom,
    /// Removes a button
    ButtonRemove,
    /// Works on the components of a button
    ButtonComponent,
    /// Copies a button to the clipboard
    ButtonCopy,
    /// Pastes a button from the clipboard
    ButtonPaste,
    /// An unknown command
    Unknown,
}

/// Whether word `i` of a line exists and is the given word.
pub open spec fn word_is(ws: Seq<Seq<char>>, i: int, w: Seq<char>) -> bool {
    i < ws.len() && ws[i] == w
}

/// The command that the words of a line name, and how many words it takes up; the words
/// after those are its arguments. A command group without a known next word is that group's
/// unknown command (or, for `back`, going back when nothing follows).
pub open spec fn command_for(ws: Seq<Seq<char>>) -> (CommandKind, nat) {
    if 0 >= ws.len() {
        (CommandKind::Unknown, 0)
    } else if word_is(ws, 0, "help"@) {
        (CommandKind::Help, 1)
    } else if word_is(ws, 0, "exit"@) {
        (CommandKind::Exit, 1)
    } else if word_is(ws, 0, "device"@) || word_is(ws, 0, "d"@) {
        if 1 >= ws.len() {
            (CommandKind::DeviceUnknown, 1)
        } else if word_is(ws, 1, "list"@) || word_is(ws, 1, "l"@) {
            (CommandKind::DeviceList, 2)
        } else if word_is(ws, 1, "add"@) || word_is(ws, 1, "a"@) {
            (CommandKind::DeviceAdd, 2)
        } else if word_is(ws, 1, "remove"@) || word_is(ws, 1, "r"@) {
            (CommandKind::DeviceRemove, 2)
        } else {
            (CommandKind::DeviceUnknown, 2)
        }
    } else if word_is(ws, 0, "select"@) || word_is(ws, 0, "s"@) {
        (CommandKind::Select, 1)
    } else if word_is(ws, 0, "config"@) || word_is(ws, 0, "con"@) {
        if 1 >= ws.len() {
            (CommandKind::ConfigUnknown, 1)
        } else if word_is(ws, 1, "reload"@) || word_is(ws, 1, "r"@) {
            (CommandKind::ConfigReload, 2)
        } else if word_is(ws, 1, "save"@) || word_is(ws, 1, "s"@) {
            (CommandKind::ConfigSave, 2)
        } else if word_is(ws, 1, "import"@) || word_is(ws, 1, "i"@) {
            (CommandKind::ConfigImport, 2)
        } else if word_is(ws, 1, "export"@) || word_is(ws, 1, "e"@) {
            (CommandKind::ConfigExport, 2)
        } else {
            (CommandKind::ConfigUnknown, 2)
        }
    } else if word_is(ws, 0, "brightness"@) || word_is(ws, 0, "br"@) {
        (CommandKind::Brightness, 1)
    } else if word_is(ws, 0, "back"@) || word_is(ws, 0, "ba"@) {
        if 1 >= ws.len() {
            (CommandKind::Back, 1)
        } else if word_is(ws, 1, "drop"@) {
            (CommandKind::BackDrop, 2)
        } else {
            (CommandKind::BackUnknown, 2)
        }
    } else if word_is(ws, 0, "press"@) || word_is(ws, 0, "p"@) {
        (CommandKind::Press, 1)
    } else if word_is(ws, 0, "module"@) || word_is(ws, 0, "m"@) {
        if 1 >= ws.len() {
            (CommandKind::ModuleUnknown, 1)
        } else if word_is(ws, 1, "list"@) || word_is(ws, 1, "l"@) {
            (CommandKind::ModuleList, 2)
        } else if word_is(ws, 1, "info"@) || word_is(ws, 1, "i"@) {
            (CommandKind::ModuleInfo, 2)
        } else if word_is(ws, 1, "params"@) || word_is(ws, 1, "p"@) {
            if 2 >= ws.len() {
                (CommandKind::ModuleParamsUnknown, 2)
            } else if word_is(ws, 2, "add"@) || word_is(ws, 2, "a"@) {
                (CommandKind::ModuleParamsAdd, 3)
            } else if word_is(ws, 2, "remove"@) || word_is(ws, 2, "r"@) {
                (CommandKind::ModuleParamsRemove, 3)
            } else if word_is(ws, 2, "set"@) || word_is(ws, 2, "s"@) {
                (CommandKind::ModuleParamsSet, 3)
            } else if word_is(ws, 2, "upload"@) || word_is(ws, 2, "u"@) {
                (CommandKind::ModuleParamsUpload, 3)
            } else if word_is(ws, 2, "list"@) || word_is(ws, 2, "l"@) {
                (CommandKind::ModuleParamsList, 3)
            } else {
                (CommandKind::ModuleParamsUnknown, 3)
            }
        } else {
            (CommandKind::ModuleUnknown, 2)
        }
    } else if word_is(ws, 0, "image"@) || word_is(ws, 0, "i"@) {
        if 1 >= ws.len() {
            (CommandKind::ImageUnknown, 1)
        } else if word_is(ws, 1, "list"@) || word_is(ws, 1, "l"@) {
            (CommandKind::ImageList, 2)
        } else if word_is(ws, 1, "add"@) || word_is(ws, 1, "a"@) {
            (CommandKind::ImageAdd, 2)
        } else if word_is(ws, 1, "remove"@) || word_is(ws, 1, "r"@) {
            (CommandKind::ImageRemove, 2)
        } else {
            (CommandKind::ImageUnknown, 2)
        }
    } else if word_is(ws, 0, "component"@) || word_is(ws, 0, "com"@) {
        if 1 >= ws.len() {
            (CommandKind::ComponentUnknown, 1)
        } else if word_is(ws, 1, "list"@) || word_is(ws, 1, "l"@) {
            (CommandKind::ComponentList, 2)
        } else if word_is(ws, 1, "info"@) || word_is(ws, 1, "i"@) {
            (CommandKind::ComponentInfo, 2)
        } else {
            (CommandKind::ComponentUnknown, 2)
        }
    } else if word_is(ws, 0, "stack"@) {
        (CommandKind::Stack, 1)
    } else if word_is(ws, 0, "font"@) || word_is(ws, 0, "f"@) {
        if 1 >= ws.len() {
            (CommandKind::FontUnknown, 1)
        } else if word_is(ws, 1, "list"@) || word_is(ws, 1, "l"@) {
            (CommandKind::FontList, 2)
        } else {
            (CommandKind::FontUnknown, 2)
        }
    } else if word_is(ws, 0, "button"@) || word_is(ws, 0, "b"@) {
        if 1 >= ws.len() {
            (CommandKind::ButtonUnknown, 1)
        } else if word_is(ws, 1, "list"@) || word_is(ws, 1, "l"@) {
            (CommandKind::ButtonList, 2)
        } else if word_is(ws, 1, "info"@) || word_is(ws, 1, "i"@) {
            (CommandKind::ButtonInfo, 2)
        } else if word_is(ws, 1, "new"@) || word_is(ws, 1, "n"@) {
            (CommandKind::ButtonNew, 2)
        } else if word_is(ws, 1, "from"@) || word_is(ws, 1, "f"@) {
            (CommandKind::ButtonFrom, 2)
        } else if word_is(ws, 1, "remove"@) || word_is(ws, 1, "r"@) {
            (CommandKind::ButtonRemove, 2)
        } else if word_is(ws, 1, "component"@) || word_is(ws, 1, "c"@) {
            (CommandKind::ButtonComponent, 2)
        } else if word_is(ws, 1, "copy"@) || word_is(ws, 1, "cp"@) {
            (CommandKind::ButtonCopy, 2)
        } else if word_is(ws, 1, "paste"@) || word_is(ws, 1, "p"@) {
            (CommandKind::ButtonPaste, 2)
        } else {
            (CommandKind::ButtonUnknown, 2)
        }
    } else {
        (CommandKind::Unknown, 1)
    }
}

fn command_of(ws: &Vec<String>) -> (r: (CommandKind, usize))
    ensures
        r.0 == command_for(words(ws@)).0,
        r.1 == command_for(words(ws@)).1,
{
    if 0 >= ws.len() {
        (CommandKind::Unknown, 0)
    } else if str_eq(ws[0].as_str(), "help") {
        (CommandKind::Help, 1)
    } else if str_eq(ws[0].as_str(), "exit") {
        (CommandKind::Exit, 1)
    } else if str_eq(ws[0].as_str(), "device") || str_eq(ws[0].as_str(), "d") {
        if 1 >= ws.len() {
            (CommandKind::DeviceUnknown, 1)
        } else if str_eq(ws[1].as_str(), "list") || str_eq(ws[1].as_str(), "l") {
            (CommandKind::DeviceList, 2)
        } else if str_eq(ws[1].as_str(), "add") || str_eq(ws[1].as_str(), "a") {
            (CommandKind::DeviceAdd, 2)
        } else if str_eq(ws[1].as_str(), "remove") || str_eq(ws[1].as_str(), "r") {
            (CommandKind::DeviceRemove, 2)
        } else {
            (CommandKind::DeviceUnknown, 2)
        }
    } else if str_eq(ws[0].as_str(), "select") || str_eq(ws[0].as_str(), "s") {
        (CommandKind::Select, 1)
    } else if str_eq(ws[0].as_str(), "config") || str_eq(ws[0].as_str(), "con") {
        if 1 >= ws.len() {
            (CommandKind::ConfigUnknown, 1)
        } else if str_eq(ws[1].as_str(), "reload") || str_eq(ws[1].as_str(), "r") {
            (CommandKind::ConfigReload, 2)
        } else if str_eq(ws[1].as_str(), "save") || str_eq(ws[1].as_str(), "s") {
            (CommandKind::ConfigSave, 2)
        } else if str_eq(ws[1].as_str(), "import") || str_eq(ws[1].as_str(), "i") {
            (CommandKind::ConfigImport, 2)
        } else if str_eq(ws[1].as_str(), "export") || str_eq(ws[1].as_str(), "e") {
            (CommandKind::ConfigExport, 2)
        } else {
            (CommandKind::ConfigUnknown, 2)
        }
    } else if str_eq(ws[0].as_str(), "brightness") || str_eq(ws[0].as_str(), "br") {
        (CommandKind::Brightness, 1)
    } else if str_eq(ws[0].as_str(), "back") || str_eq(ws[0].as_str(), "ba") {
        if 1 >= ws.len() {
            (CommandKind::Back, 1)
        } else if str_eq(ws[1].as_str(), "drop") {
            (CommandKind::BackDrop, 2)
        } else {
            (CommandKind::BackUnknown, 2)
        }
    } else if str_eq(ws[0].as_str(), "press") || str_eq(ws[0].as_str(), "p") {
        (CommandKind::Press, 1)
    } else if str_eq(ws[0].as_str(), "module") || str_eq(ws[0].as_str(), "m") {
        if 1 >= ws.len() {
            (CommandKind::ModuleUnknown, 1)
        } else if str_eq(ws[1].as_str(), "list") || str_eq(ws[1].as_str(), "l") {
            (CommandKind::ModuleList, 2)
        } else if str_eq(ws[1].as_str(), "info") || str_eq(ws[1].as_str(), "i") {
            (CommandKind::ModuleInfo, 2)
        } else if str_eq(ws[1].as_str(), "params") || str_eq(ws[1].as_str(), "p") {
            if 2 >= ws.len() {
                (CommandKind::ModuleParamsUnknown, 2)
            } else if str_eq(ws[2].as_str(), "add") || str_eq(ws[2].as_str(), "a") {
                (CommandKind::ModuleParamsAdd, 3)
            } else if str_eq(ws[2].as_str(), "remove") || str_eq(ws[2].as_str(), "r") {
                (CommandKind::ModuleParamsRemove, 3)
            } else if str_eq(ws[2].as_str(), "set") || str_eq(ws[2].as_str(), "s") {
                (CommandKind::ModuleParamsSet, 3)
            } else if str_eq(ws[2].as_str(), "upload") || str_eq(ws[2].as_str(), "u") {
                (CommandKind::ModuleParamsUpload, 3)
            } else if str_eq(ws[2].as_str(), "list") || str_eq(ws[2].as_str(), "l") {
                (CommandKind::ModuleParamsList, 3)
            } else {
                (CommandKind::ModuleParamsUnknown, 3)
            }
        } else {
            (CommandKind::ModuleUnknown, 2)
        }
    } else if str_eq(ws[0].as_str(), "image") || str_eq(ws[0].as_str(), "i") {
        if 1 >= ws.len() {
            (CommandKind::ImageUnknown, 1)
        } else if str_eq(ws[1].as_str(), "list") || str_eq(ws[1].as_str(), "l") {
            (CommandKind::ImageList, 2)
        } else if str_eq(ws[1].as_str(), "add") || str_eq(ws[1].as_str(), "a") {
            (CommandKind::ImageAdd, 2)
        } else if str_eq(ws[1].as_str(), "remove") || str_eq(ws[1].as_str(), "r") {
            (CommandKind::ImageRemove, 2)
        } else {
            (CommandKind::ImageUnknown, 2)
        }
    } else if str_eq(ws[0].as_str(), "component") || str_eq(ws[0].as_str(), "com") {
        if 1 >= ws.len() {
            (CommandKind::ComponentUnknown, 1)
        } else if str_eq(ws[1].as_str(), "list") || str_eq(ws[1].as_str(), "l") {
            (CommandKind::ComponentList, 2)
        } else if str_eq(ws[1].as_str(), "info") || str_eq(ws[1].as_str(), "i") {
            (CommandKind::ComponentInfo, 2)
        } else {
            (CommandKind::ComponentUnknown, 2)
        }
    } else if str_eq(ws[0].as_str(), "stack") {
        (CommandKind::Stack, 1)
    } else if str_eq(ws[0].as_str(), "font") || str_eq(ws[0].as_str(), "f") {
        if 1 >= ws.len() {
            (CommandKind::FontUnknown, 1)
        } else if str_eq(ws[1].as_str(), "list") || str_eq(ws[1].as_str(), "l") {
            (CommandKind::FontList, 2)
        } else {
            (CommandKind::FontUnknown, 2)
        }
    } else if str_eq(ws[0].as_str(), "button") || str_eq(ws[0].as_str(), "b") {
        if 1 >= ws.len() {
            (CommandKind::ButtonUnknown, 1)
        } else if str_eq(ws[1].as_str(), "list") || str_eq(ws[1].as_str(), "l") {
            (CommandKind::ButtonList, 2)
        } else if str_eq(ws[1].as_str(), "info") || str_eq(ws[1].as_str(), "i") {
            (CommandKind::ButtonInfo, 2)
        } else if str_eq(ws[1].as_str(), "new") || str_eq(ws[1].as_str(), "n") {
            (CommandKind::ButtonNew, 2)
        } else if str_eq(ws[1].as_str(), "from") || str_eq(ws[1].as_str(), "f") {
            (CommandKind::ButtonFrom, 2)
        } else if str_eq(ws[1].as_str(), "remove") || str_eq(ws[1].as_str(), "r") {
            (CommandKind::ButtonRemove, 2)
        } else if str_eq(ws[1].as_str(), "component") || str_eq(ws[1].as_str(), "c") {
            (CommandKind::ButtonComponent, 2)
        } else if str_eq(ws[1].as_str(), "copy") || str_eq(ws[1].as_str(), "cp") {
            (CommandKind::ButtonCopy, 2)
        } else if str_eq(ws[1].as_str(), "paste") || str_eq(ws[1].as_str(), "p") {
            (CommandKind::ButtonPaste, 2)
        } else {
            (CommandKind::ButtonUnknown, 2)
        }
    } else {
        (CommandKind::Unknown, 1)
    }
}

/// A command typed at the prompt, with its arguments.
#[derive(Debug)]
pub struct PromptCommand {
    pub kind: CommandKind,
    pub args: Vec<String>,
}

/// Reads a line typed at the prompt: the line without leading and trailing white space is
/// split at spaces; the command is named by its first words, and the rest are its arguments.
pub fn parse_prompt_line(line: &str) -> (r: PromptCommand)
    ensures
        r.kind == command_for(split_on(trimmed(line@), ' ')).0,
        words(r.args@) == split_on(trimmed(line@), ' ').skip(command_for(split_on(trimmed(line@), ' ')).1 as int),
{
    let ws = split_at_char(trim(line), ' ');
    let (kind, used) = command_of(&ws);
    let mut args: Vec<String> = Vec::new();
    let mut i: usize = used;
    proof {
        assert(words(ws@).skip(used as int).take(0) =~= Seq::<Seq<char>>::empty());
    }
    while i < ws.len()
        invariant
            used <= i <= ws@.len() || (used > ws@.len() && i == used),
            words(args@) == words(ws@).subrange(used as int, i as int),
        decreases ws@.len() - i,
    {
        let ghost before = args@;
        args.push(ws[i].clone());
        proof {
            assert(words(args@) =~= words(before).push(ws@[i as int]@));
            assert(words(ws@).subrange(used as int, i + 1) =~= words(ws@).subrange(used as int, i as int).push(ws@[i as int]@));
        }
        i += 1;
    }
    proof {
        assert(words(ws@).subrange(used as int, i as int) =~= words(ws@).skip(used as int));
    }
    PromptCommand { kind, args }
}

/// What the prompt does for a command: print a message, ask the daemon something for the
/// selected device, or hand the command to the handler of its group.
#[derive(Debug)]
pub enum PromptAction {
    /// Prints the message; nothing is asked of the daemon
    Print(String),
    /// Prints the help text
    Help,
    /// Leaves the prompt
    Exit,
    /// Unselects the device
    Unselect,
    /// Selects the device with this serial number, if the daemon knows it
    Select(String),
    /// Sets the brightness of the selected device
    SetBrightness(u8),
    /// Goes back a screen on the selected device
    PopScreen,
    /// Goes back to the root screen of the selected device
    DropStack,
    /// Presses the button at this key of the selected device
    Press(u8),
    /// Copies the button at this key of the selected device
    CopyButton(u8),
    /// Pastes into the button at this key of the selected device
    PasteButton(u8),
    /// Lists the values of the named component of the button at this key of the selected device
    ListComponentValues(u8, String),
    /// Lists the devices
    ListDevices,
    /// Adds the device with this serial number to the managed ones
    AddDevice(String),
    /// Removes the device with this serial number from the managed ones
    RemoveDevice(String),
    /// Reloads the config of the selected device
    ReloadConfig,
    /// Reloads all device configs
    ReloadAllConfigs,
    /// Saves the config of the selected device
    SaveConfig,
    /// Saves all device configs
    SaveAllConfigs,
    /// Imports the config of the selected device from the file at this path
    ImportConfig(String),
    /// Exports the config of the selected device into the file at this path
    ExportConfig(String),
    /// Creates an empty button at this key of the selected device
    NewButton(u8),
    /// Creates a button from the named component at this key of the selected device
    NewButtonFrom(u8, String),
    /// Clears the button at this key of the selected device
    ClearButton(u8),
    /// Adds the named component to the button at this key of the selected device
    AddComponent(u8, String),
    /// Removes the named component from the button at this key of the selected device
    RemoveComponent(u8, String),
    /// Adds an element to the array at the path in the values of the named component of the
    /// button at this key of the selected device
    AddComponentElement(u8, String, String),
    /// Sets the value at the path in the values of the named component of the button at this
    /// key of the selected device to the words that follow, joined by spaces
    SetComponentValue(u8, String, String, Vec<String>),
    /// Sets the image data at the path in the values of the named component of the button at
    /// this key of the selected device to the file named by the words that follow, joined by spaces
    UploadComponentImage(u8, String, String, Vec<String>),
    /// Removes the element at this index from the array at the path in the values of the
    /// named component of the button at this key of the selected device
    RemoveComponentElement(u8, String, String, usize),
    /// Removes the element at this index from the array at the path in the values of the
    /// named module
    RemoveModuleElement(String, String, usize),
    /// Prints information about the named component
    ComponentInfo(String),
    /// Lists the buttons of the current screen of the selected device
    ListButtons,
    /// Prints information about the button at this key of the selected device
    ButtonInfo(u8),
    /// Prints information about the named module
    ModuleInfo(String),
    /// Adds an element to the array at the path in the values of the named module
    AddModuleElement(String, String),
    /// Sets the value at the path in the values of the named module to the words that follow,
    /// joined by spaces
    SetModuleValue(String, String, Vec<String>),
    /// Sets the image data at the path in the values of the named module to the file named by
    /// the words that follow, joined by spaces
    UploadModuleImage(String, String, Vec<String>),
    /// Lists the values of the named module
    ListModuleValues(String),
    /// Removes the image with this identifier from the selected device
    RemoveImage(String),
    /// The handler of the command's group takes the command with its arguments
    Handler,
}

/// Spec form of a prompt action
pub enum PromptActionView {
    Print(Seq<char>),
    Help,
    Exit,
    Unselect,
    Select(Seq<char>),
    SetBrightness(u8),
    PopScreen,
    DropStack,
    Press(u8),
    CopyButton(u8),
    PasteButton(u8),
    ListComponentValues(u8, Seq<char>),
    ListDevices,
    AddDevice(Seq<char>),
    RemoveDevice(Seq<char>),
    ReloadConfig,
    ReloadAllConfigs,
    SaveConfig,
    SaveAllConfigs,
    ImportConfig(Seq<char>),
    ExportConfig(Seq<char>),
    NewButton(u8),
    NewButtonFrom(u8, Seq<char>),
    ClearButton(u8),
    AddComponent(u8, Seq<char>),
    RemoveComponent(u8, Seq<char>),
    AddComponentElement(u8, Seq<char>, Seq<char>),
    SetComponentValue(u8, Seq<char>, Seq<char>, Seq<Seq<char>>),
    UploadComponentImage(u8, Seq<char>, Seq<char>, Seq<Seq<char>>),
    RemoveComponentElement(u8, Seq<char>, Seq<char>, usize),
    RemoveModuleElement(Seq<char>, Seq<char>, usize),
    ComponentInfo(Seq<char>),
    ListButtons,
    ButtonInfo(u8),
    ModuleInfo(Seq<char>),
    AddModuleElement(Seq<char>, Seq<char>),
    SetModuleValue(Seq<char>, Seq<char>, Seq<Seq<char>>),
    UploadModuleImage(Seq<char>, Seq<char>, Seq<Seq<char>>),
    ListModuleValues(Seq<char>),
    RemoveImage(Seq<char>),
    Handler,
}

impl View for PromptAction {
    type V = PromptActionView;

    open spec fn view(&self) -> PromptActionView {
        match self {
            PromptAction::Print(m) => PromptActionView::Print(m@),
            PromptAction::Help => PromptActionView::Help,
            PromptAction::Exit => PromptActionView::Exit,
            PromptAction::Unselect => PromptActionView::Unselect,
            PromptAction::Select(s) => PromptActionView::Select(s@),
            PromptAction::SetBrightness(b) => PromptActionView::SetBrightness(*b),
            PromptAction::PopScreen => PromptActionView::PopScreen,
            PromptAction::DropStack => PromptActionView::DropStack,
            PromptAction::Press(k) => PromptActionView::Press(*k),
            PromptAction::CopyButton(k) => PromptActionView::CopyButton(*k),
            PromptAction::PasteButton(k) => PromptActionView::PasteButton(*k),
            PromptAction::ListComponentValues(k, c) => PromptActionView::ListComponentValues(*k, c@),
            PromptAction::ListDevices => PromptActionView::ListDevices,
            PromptAction::AddDevice(s) => PromptActionView::AddDevice(s@),
            PromptAction::RemoveDevice(s) => PromptActionView::RemoveDevice(s@),
            PromptAction::ReloadConfig => PromptActionView::ReloadConfig,
            PromptAction::ReloadAllConfigs => PromptActionView::ReloadAllConfigs,
            PromptAction::SaveConfig => PromptActionView::SaveConfig,
            PromptAction::SaveAllConfigs => PromptActionView::SaveAllConfigs,
            PromptAction::ImportConfig(p) => PromptActionView::ImportConfig(p@),
            PromptAction::ExportConfig(p) => PromptActionView::ExportConfig(p@),
            PromptAction::NewButton(k) => PromptActionView::NewButton(*k),
            PromptAction::NewButtonFrom(k, c) => PromptActionView::NewButtonFrom(*k, c@),
            PromptAction::ClearButton(k) => PromptActionView::ClearButton(*k),
            PromptAction::AddComponent(k, c) => PromptActionView::AddComponent(*k, c@),
            PromptAction::RemoveComponent(k, c) => PromptActionView::RemoveComponent(*k, c@),
            PromptAction::AddComponentElement(k, c, p) => PromptActionView::AddComponentElement(*k, c@, p@),
            PromptAction::SetComponentValue(k, c, p, w) => PromptActionView::SetComponentValue(*k, c@, p@, words(w@)),
            PromptAction::UploadComponentImage(k, c, p, w) => PromptActionView::UploadComponentImage(*k, c@, p@, words(w@)),
            PromptAction::RemoveComponentElement(k, c, p, x) => PromptActionView::RemoveComponentElement(*k, c@, p@, *x),
            PromptAction::RemoveModuleElement(m, p, x) => PromptActionView::RemoveModuleElement(m@, p@, *x),
            PromptAction::ComponentInfo(n) => PromptActionView::ComponentInfo(n@),
            PromptAction::ListButtons => PromptActionView::ListButtons,
            PromptAction::ButtonInfo(k) => PromptActionView::ButtonInfo(*k),
            PromptAction::ModuleInfo(n) => PromptActionView::ModuleInfo(n@),
            PromptAction::AddModuleElement(m, p) => PromptActionView::AddModuleElement(m@, p@),
            PromptAction::SetModuleValue(m, p, w) => PromptActionView::SetModuleValue(m@, p@, words(w@)),
            PromptAction::UploadModuleImage(m, p, w) => PromptActionView::UploadModuleImage(m@, p@, words(w@)),
            PromptAction::ListModuleValues(m) => PromptActionView::ListModuleValues(m@),
            PromptAction::RemoveImage(i) => PromptActionView::RemoveImage(i@),
            PromptAction::Handler => PromptActionView::Handler,
        }
    }
}

/// Argument `i` read as a key index or another `u8`, if it is there and reads as one
pub open spec fn u8_arg(args: Seq<Seq<char>>, i: int) -> Option<int> {
    if 0 <= i < args.len() {
        parse_u8(args[i])
    } else {
        None
    }
}

/// Argument `i` read as an array index, if it is there and reads as one
pub open spec fn usize_arg(args: Seq<Seq<char>>, i: int) -> Option<int> {
    if 0 <= i < args.len() {
        parse_usize(args[i])
    } else {
        None
    }
}

/// What `button component params remove` does: the key, the component, the path and the
/// index of the element must be there
pub open spec fn params_remove_action(args: Seq<Seq<char>>) -> PromptActionView {
    match key_component_action(args, 2, "button component params remove"@, ": Specify component"@) {
        Some(m) => m,
        None => if args.len() > 4 {
            match usize_arg(args, 5) {
                None => PromptActionView::Print("button component params remove: Input valid array index"@),
                Some(x) => PromptActionView::RemoveComponentElement(u8_arg(args, 2)->0 as u8, args[3], args[4], x as usize),
            }
        } else {
            PromptActionView::Print("button component params remove: Specify parameter path"@)
        },
    }
}

/// What `module params remove` does: the module, the path and the index of the element must
/// be there
pub open spec fn module_remove_action(args: Seq<Seq<char>>) -> PromptActionView {
    if args.len() == 0 {
        PromptActionView::Print("module params remove: Specify component"@)
    } else if args.len() == 1 {
        PromptActionView::Print("module params remove: Specify parameter path"@)
    } else {
        match usize_arg(args, 2) {
            None => PromptActionView::Print("module params remove: Input valid array index"@),
            Some(x) => PromptActionView::RemoveModuleElement(args[0], args[1], x as usize),
        }
    }
}

/// What a command on a key and a component does with its arguments from argument `i` on: the
/// key, then the component; `what` names the command in its messages
pub open spec fn key_component_action(args: Seq<Seq<char>>, i: int, what: Seq<char>, component_message: Seq<char>) -> Option<PromptActionView> {
    match u8_arg(args, i) {
        None => Some(PromptActionView::Print(what + ": Input valid key index (0-255)"@)),
        Some(_) => if args.len() > i + 1 {
            None
        } else {
            Some(PromptActionView::Print(what + component_message))
        },
    }
}

/// What `button component params` does on a value path: the key, the component and the path
/// must be there; `what` names the command in its messages
pub open spec fn params_path_action(args: Seq<Seq<char>>, what: Seq<char>, kind: int) -> PromptActionView {
    match key_component_action(args, 2, what, ": Specify component"@) {
        Some(m) => m,
        None => if args.len() > 4 {
            let k = u8_arg(args, 2)->0 as u8;
            if kind == 0 {
                PromptActionView::AddComponentElement(k, args[3], args[4])
            } else if kind == 1 {
                PromptActionView::SetComponentValue(k, args[3], args[4], args.skip(5))
            } else {
                PromptActionView::UploadComponentImage(k, args[3], args[4], args.skip(5))
            }
        } else {
            PromptActionView::Print(what + ": Specify parameter path"@)
        },
    }
}

/// What `button component` does with its arguments on the device with serial number `sn`
pub open spec fn button_component_action(sn: Seq<char>, args: Seq<Seq<char>>) -> PromptActionView {
    if sn.len() == 0 {
        PromptActionView::Print("button component: No device is selected"@)
    } else if args.len() == 0 {
        PromptActionView::Print("button component: Unknown command"@)
    } else if args[0] == "add"@ || args[0] == "a"@ {
        match key_component_action(args, 1, "button component add"@, ": Specify component name"@) {
            Some(m) => m,
            None => PromptActionView::AddComponent(u8_arg(args, 1)->0 as u8, args[2]),
        }
    } else if args[0] == "remove"@ || args[0] == "r"@ {
        match key_component_action(args, 1, "button component remove"@, ": Specify component name"@) {
            Some(m) => m,
            None => PromptActionView::RemoveComponent(u8_arg(args, 1)->0 as u8, args[2]),
        }
    } else if args[0] == "params"@ || args[0] == "p"@ {
        if args.len() < 2 {
            PromptActionView::Print("button component params: Unknown command"@)
        } else if args[1] == "list"@ || args[1] == "l"@ {
            match u8_arg(args, 2) {
                None => PromptActionView::Print("button component params list: Input valid key index (0-255)"@),
                Some(k) => if args.len() > 3 {
                    PromptActionView::ListComponentValues(k as u8, args[3])
                } else {
                    PromptActionView::Print("button component params list: Specify component name"@)
                },
            }
        } else if args[1] == "add"@ || args[1] == "a"@ {
            params_path_action(args, "button component params add"@, 0)
        } else if args[1] == "set"@ || args[1] == "s"@ {
            params_path_action(args, "button component params set"@, 1)
        } else if args[1] == "upload"@ || args[1] == "u"@ {
            params_path_action(args, "button component params upload"@, 2)
        } else if args[1] == "remove"@ || args[1] == "r"@ {
            params_remove_action(args)
        } else {
            PromptActionView::Print("button component params: Unknown command"@)
        }
    } else {
        PromptActionView::Print("button component: Unknown command"@)
    }
}

/// What `module params` does on a value path: the module and the path must be there; `what`
/// names the command in its messages, and `missing_module` is the message without a module
pub open spec fn module_path_action(args: Seq<Seq<char>>, what: Seq<char>, missing_module: Seq<char>, kind: int) -> PromptActionView {
    if args.len() == 0 {
        PromptActionView::Print(what + missing_module)
    } else if args.len() == 1 {
        PromptActionView::Print(what + ": Specify parameter path"@)
    } else if kind == 0 {
        PromptActionView::AddModuleElement(args[0], args[1])
    } else if kind == 1 {
        PromptActionView::SetModuleValue(args[0], args[1], args.skip(2))
    } else {
        PromptActionView::UploadModuleImage(args[0], args[1], args.skip(2))
    }
}

/// What `config reload` or `config save` does: all configs with the argument `all`, the
/// selected device's without an argument; `what` names the command in its messages
pub open spec fn config_all_action(sn: Seq<char>, args: Seq<Seq<char>>, what: Seq<char>, one: PromptActionView, all: PromptActionView) -> PromptActionView {
    if args.len() > 0 {
        if args[0] == "all"@ {
            all
        } else {
            PromptActionView::Print(what + ": Unknown operation"@)
        }
    } else if sn.len() == 0 {
        PromptActionView::Print(what + ": No device is selected"@)
    } else {
        one
    }
}

/// What the prompt does for a command with arguments `args` while the device with serial
/// number `sn` is selected (none where `sn` is empty)
pub open spec fn prompt_action(sn: Seq<char>, kind: CommandKind, args: Seq<Seq<char>>) -> PromptActionView {
    match kind {
        CommandKind::Help => PromptActionView::Help,
        CommandKind::Exit => PromptActionView::Exit,
        CommandKind::DeviceUnknown => PromptActionView::Print("device: Unknown command"@),
        CommandKind::Select => if args.len() > 0 {
            PromptActionView::Select(args[0])
        } else {
            PromptActionView::Unselect
        },
        CommandKind::ConfigUnknown => PromptActionView::Print("config: Unknown command"@),
        CommandKind::Brightness => match u8_arg(args, 0) {
            None => PromptActionView::Print("brightness: Input valid brightness value (0-255)"@),
            Some(b) => if sn.len() == 0 {
                PromptActionView::Print("brightness: No device is selected"@)
            } else {
                PromptActionView::SetBrightness(b as u8)
            },
        },
        CommandKind::Back => if sn.len() == 0 {
            PromptActionView::Print("back: No device is selected"@)
        } else {
            PromptActionView::PopScreen
        },
        CommandKind::BackDrop => if sn.len() == 0 {
            PromptActionView::Print("back: No device is selected"@)
        } else {
            PromptActionView::DropStack
        },
        CommandKind::BackUnknown => if sn.len() == 0 {
            PromptActionView::Print("back: No device is selected"@)
        } else {
            PromptActionView::Print("back: Unknown command"@)
        },
        CommandKind::Press => match u8_arg(args, 0) {
            None => PromptActionView::Print("press: Input valid key index (0-255)"@),
            Some(k) => if sn.len() == 0 {
                PromptActionView::Print("press: No device is selected"@)
            } else {
                PromptActionView::Press(k as u8)
            },
        },
        CommandKind::ModuleUnknown => PromptActionView::Print("module: Unknown command"@),
        CommandKind::ModuleParamsUnknown => PromptActionView::Print("module params: Unknown command"@),
        CommandKind::ImageUnknown => PromptActionView::Print("image: Unknown command"@),
        CommandKind::ComponentUnknown => PromptActionView::Print("component: Unknown command"@),
        CommandKind::FontUnknown => PromptActionView::Print("font: Unknown command"@),
        CommandKind::ButtonUnknown => PromptActionView::Print("button: Unknown command"@),
        CommandKind::ButtonCopy => if sn.len() == 0 {
            PromptActionView::Print("button copy: No device is selected"@)
        } else {
            match u8_arg(args, 0) {
                None => PromptActionView::Print("button copy: Input valid key index (0-255)"@),
                Some(k) => PromptActionView::CopyButton(k as u8),
            }
        },
        CommandKind::ButtonPaste => if sn.len() == 0 {
            PromptActionView::Print("button paste: No device is selected"@)
        } else {
            match u8_arg(args, 0) {
                None => PromptActionView::Print("button paste: Input valid key index (0-255)"@),
                Some(k) => PromptActionView::PasteButton(k as u8),
            }
        },
        CommandKind::ButtonComponent => button_component_action(sn, args),
        CommandKind::Unknown => PromptActionView::Print("Unknown command"@),
        CommandKind::DeviceList => PromptActionView::ListDevices,
        CommandKind::DeviceAdd => if args.len() > 0 {
            PromptActionView::AddDevice(args[0])
        } else {
            PromptActionView::Print("device add: Specify serial number"@)
        },
        CommandKind::DeviceRemove => if args.len() > 0 {
            PromptActionView::RemoveDevice(args[0])
        } else {
            PromptActionView::Print("device remove: Specify serial number"@)
        },
        CommandKind::ConfigReload => config_all_action(sn, args, "config reload"@, PromptActionView::ReloadConfig,
            PromptActionView::ReloadAllConfigs),
        CommandKind::ConfigSave => config_all_action(sn, args, "config save"@, PromptActionView::SaveConfig,
            PromptActionView::SaveAllConfigs),
        CommandKind::ConfigImport => if sn.len() == 0 {
            PromptActionView::Print("config import: No device is selected"@)
        } else if args.len() > 0 {
            PromptActionView::ImportConfig(args[0])
        } else {
            PromptActionView::Print("config import: Specify path"@)
        },
        CommandKind::ConfigExport => if sn.len() == 0 {
            PromptActionView::Print("config export: No device is selected"@)
        } else if args.len() > 0 {
            PromptActionView::ExportConfig(args[0])
        } else {
            PromptActionView::Print("config export: Specify path"@)
        },
        CommandKind::ButtonNew => if sn.len() == 0 {
            PromptActionView::Print("button new: No device is selected"@)
        } else {
            match u8_arg(args, 0) {
                None => PromptActionView::Print("button new: Input valid key index (0-255)"@),
                Some(k) => PromptActionView::NewButton(k as u8),
            }
        },
        CommandKind::ButtonFrom => if sn.len() == 0 {
            PromptActionView::Print("button from: No device is selected"@)
        } else {
            match key_component_action(args, 0, "button from"@, ": Specify component name"@) {
                Some(m) => m,
                None => PromptActionView::NewButtonFrom(u8_arg(args, 0)->0 as u8, args[1]),
            }
        },
        CommandKind::ButtonRemove => if sn.len() == 0 {
            PromptActionView::Print("button remove: No device is selected"@)
        } else {
            match u8_arg(args, 0) {
                None => PromptActionView::Print("button remove: Input valid key index (0-255)"@),
                Some(k) => PromptActionView::ClearButton(k as u8),
            }
        },
        CommandKind::ComponentInfo => if args.len() > 0 {
            PromptActionView::ComponentInfo(args[0])
        } else {
            PromptActionView::Print("component info: Specify name"@)
        },
        CommandKind::ButtonList => if sn.len() == 0 {
            PromptActionView::Print("button list: No device is selected"@)
        } else {
            PromptActionView::ListButtons
        },
        CommandKind::ButtonInfo => if sn.len() == 0 {
            PromptActionView::Print("button info: No device is selected"@)
        } else {
            match u8_arg(args, 0) {
                None => PromptActionView::Print("button info: Input valid key index (0-255)"@),
                Some(k) => PromptActionView::ButtonInfo(k as u8),
            }
        },
        CommandKind::ModuleInfo => if args.len() > 0 {
            PromptActionView::ModuleInfo(args[0])
        } else {
            PromptActionView::Print("module info: Specify name"@)
        },
        CommandKind::ModuleParamsAdd => module_path_action(args, "module params add"@, ": Specify component"@, 0),
        CommandKind::ModuleParamsSet => module_path_action(args, "module params set"@, ": Specify module name"@, 1),
        CommandKind::ModuleParamsUpload => module_path_action(args, "module params upload"@, ": Specify module name"@, 2),
        CommandKind::ModuleParamsRemove => module_remove_action(args),
        CommandKind::ModuleParamsList => if args.len() > 0 {
            PromptActionView::ListModuleValues(args[0])
        } else {
            PromptActionView::Print("module params list: Specify module name"@)
        },
        CommandKind::ImageRemove => if sn.len() == 0 {
            PromptActionView::Print("image remove: No device is specified"@)
        } else if args.len() > 0 {
            PromptActionView::RemoveImage(args[0])
        } else {
            PromptActionView::Print("image remove: Specify identifier"@)
        },
        _ => PromptActionView::Handler,
    }
}

/// Argument `i` read as a `u8`, if it is there and reads as one
fn u8_at(args: &Vec<String>, i: usize) -> (r: Option<u8>)
    ensures
        match u8_arg(words(args@), i as int) {
            Some(v) => r == Some(v as u8),
            None => r is None,
        },
{
    if i < args.len() {
        read_u8(args[i].as_str())
    } else {
        None
    }
}

/// A message to print
fn say(m: &str) -> (r: PromptAction)
    ensures
        r@ == PromptActionView::Print(m@),
{
    PromptAction::Print(to_owned(m))
}

/// Whether an argument is one of two spellings
fn arg_is(args: &Vec<String>, i: usize, a: &str, b: &str) -> (r: bool)
    requires
        i < args@.len(),
    ensures
        r == (words(args@)[i as int] == a@ || words(args@)[i as int] == b@),
{
    str_eq(args[i].as_str(), a) || str_eq(args[i].as_str(), b)
}

/// A message made of two texts
fn say2(a: &str, b: &str) -> (r: PromptAction)
    ensures
        r@ == PromptActionView::Print(a@ + b@),
{
    let mut m = to_owned(a);
    m.append(b);
    PromptAction::Print(m)
}

/// The arguments from argument `i` on
fn args_from(args: &Vec<String>, i: usize) -> (r: Vec<String>)
    requires
        i <= args@.len(),
    ensures
        words(r@) == words(args@).skip(i as int),
{
    let mut r: Vec<String> = Vec::new();
    let mut j: usize = i;
    while j < args.len()
        invariant
            i <= j <= args@.len(),
            words(r@) == words(args@).subrange(i as int, j as int),
        decreases args@.len() - j,
    {
        let ghost before = r@;
        r.push(args[j].clone());
        proof {
            assert(words(r@) =~= words(before).push(args@[j as int]@));
            assert(words(args@).subrange(i as int, j + 1) =~= words(args@).subrange(i as int, j as int).push(args@[j as int]@));
        }
        j += 1;
    }
    proof {
        assert(words(args@).subrange(i as int, j as int) =~= words(args@).skip(i as int));
    }
    r
}

/// Argument `i` read as an array index, if it is there and reads as one
fn usize_at(args: &Vec<String>, i: usize) -> (r: Option<usize>)
    ensures
        match usize_arg(words(args@), i as int) {
            Some(v) => r == Some(v as usize),
            None => r is None,
        },
{
    if i < args.len() {
        parse_index(args[i].as_str())
    } else {
        None
    }
}

fn params_remove_step(args: &Vec<String>) -> (r: PromptAction)
    ensures
        r@ == params_remove_action(words(args@)),
{
    match key_component_step(args, 2, "button component params remove", ": Specify component") {
        Some(m) => m,
        None => if args.len() > 4 {
            match usize_at(args, 5) {
                None => say("button component params remove: Input valid array index"),
                Some(x) => {
                    let k = match u8_at(args, 2) {
                        Some(k) => k,
                        None => 0,
                    };
                    PromptAction::RemoveComponentElement(k, args[3].clone(), args[4].clone(), x)
                },
            }
        } else {
            say("button component params remove: Specify parameter path")
        },
    }
}

fn module_remove_step(args: &Vec<String>) -> (r: PromptAction)
    ensures
        r@ == module_remove_action(words(args@)),
{
    if args.len() == 0 {
        say("module params remove: Specify component")
    } else if args.len() == 1 {
        say("module params remove: Specify parameter path")
    } else {
        match usize_at(args, 2) {
            None => say("module params remove: Input valid array index"),
            Some(x) => PromptAction::RemoveModuleElement(args[0].clone(), args[1].clone(), x),
        }
    }
}

fn key_component_step(args: &Vec<String>, i: usize, what: &str, component_message: &str) -> (r: Option<PromptAction>)
    requires
        i < 8,
    ensures
        match key_component_action(words(args@), i as int, what@, component_message@) {
            Some(v) => r is Some && r->0@ == v,
            None => r is None,
        },
{
    match u8_at(args, i) {
        None => Some(say2(what, ": Input valid key index (0-255)")),
        Some(_) => if args.len() > i + 1 {
            None
        } else {
            Some(say2(what, component_message))
        },
    }
}

fn params_path_step(args: &Vec<String>, what: &str, kind: u8) -> (r: PromptAction)
    requires
        kind < 3,
    ensures
        r@ == params_path_action(words(args@), what@, kind as int),
{
    match key_component_step(args, 2, what, ": Specify component") {
        Some(m) => m,
        None => if args.len() > 4 {
            let k = match u8_at(args, 2) {
                Some(k) => k,
                None => 0,
            };
            let component = args[3].clone();
            let path = args[4].clone();
            if kind == 0 {
                PromptAction::AddComponentElement(k, component, path)
            } else if kind == 1 {
                PromptAction::SetComponentValue(k, component, path, args_from(args, 5))
            } else {
                PromptAction::UploadComponentImage(k, component, path, args_from(args, 5))
            }
        } else {
            say2(what, ": Specify parameter path")
        },
    }
}

fn button_component_step(current_sn: &str, args: &Vec<String>) -> (r: PromptAction)
    ensures
        r@ == button_component_action(current_sn@, words(args@)),
{
    if current_sn.unicode_len() == 0 {
        say("button component: No device is selected")
    } else if args.len() == 0 {
        say("button component: Unknown command")
    } else if arg_is(args, 0, "add", "a") {
        match key_component_step(args, 1, "button component add", ": Specify component name") {
            Some(m) => m,
            None => {
                let k = match u8_at(args, 1) {
                    Some(k) => k,
                    None => 0,
                };
                PromptAction::AddComponent(k, args[2].clone())
            },
        }
    } else if arg_is(args, 0, "remove", "r") {
        match key_component_step(args, 1, "button component remove", ": Specify component name") {
            Some(m) => m,
            None => {
                let k = match u8_at(args, 1) {
                    Some(k) => k,
                    None => 0,
                };
                PromptAction::RemoveComponent(k, args[2].clone())
            },
        }
    } else if arg_is(args, 0, "params", "p") {
        if args.len() < 2 {
            say("button component params: Unknown command")
        } else if arg_is(args, 1, "list", "l") {
            match u8_at(args, 2) {
                None => say("button component params list: Input valid key index (0-255)"),
                Some(k) => if args.len() > 3 {
                    PromptAction::ListComponentValues(k, args[3].clone())
                } else {
                    say("button component params list: Specify component name")
                },
            }
        } else if arg_is(args, 1, "add", "a") {
            params_path_step(args, "button component params add", 0)
        } else if arg_is(args, 1, "set", "s") {
            params_path_step(args, "button component params set", 1)
        } else if arg_is(args, 1, "upload", "u") {
            params_path_step(args, "button component params upload", 2)
        } else if arg_is(args, 1, "remove", "r") {
            params_remove_step(args)
        } else {
            say("button component params: Unknown command")
        }
    } else {
        say("button component: Unknown command")
    }
}

fn module_path_step(args: &Vec<String>, what: &str, missing_module: &str, kind: u8) -> (r: PromptAction)
    requires
        kind < 3,
    ensures
        r@ == module_path_action(words(args@), what@, missing_module@, kind as int),
{
    if args.len() == 0 {
        say2(what, missing_module)
    } else if args.len() == 1 {
        say2(what, ": Specify parameter path")
    } else if kind == 0 {
        PromptAction::AddModuleElement(args[0].clone(), args[1].clone())
    } else if kind == 1 {
        PromptAction::SetModuleValue(args[0].clone(), args[1].clone(), args_from(args, 2))
    } else {
        PromptAction::UploadModuleImage(args[0].clone(), args[1].clone(), args_from(args, 2))
    }
}

fn config_all_step(current_sn: &str, args: &Vec<String>, what: &str, save: bool) -> (r: PromptAction)
    ensures
        r@ == config_all_action(current_sn@, words(args@), what@,
            if save { PromptActionView::SaveConfig } else { PromptActionView::ReloadConfig },
            if save { PromptActionView::SaveAllConfigs } else { PromptActionView::ReloadAllConfigs }),
{
    if args.len() > 0 {
        if str_eq(args[0].as_str(), "all") {
            if save { PromptAction::SaveAllConfigs } else { PromptAction::ReloadAllConfigs }
        } else {
            say2(what, ": Unknown operation")
        }
    } else if current_sn.unicode_len() == 0 {
        say2(what, ": No device is selected")
    } else if save {
        PromptAction::SaveConfig
    } else {
        PromptAction::ReloadConfig
    }
}

/// What the prompt does for a command while the device with serial number `current_sn` is
/// selected (none where it is empty): messages for what it refuses before asking the daemon
/// (a missing or unreadable key index, no selected device, an unknown command), the request
/// to make for the commands the prompt runs itself, and the handler for the others
pub fn prompt_step(current_sn: &str, command: &PromptCommand) -> (r: PromptAction)
    ensures
        r@ == prompt_action(current_sn@, command.kind, words(command.args@)),
{
    let args = &command.args;
    let no_device = current_sn.unicode_len() == 0;
    match command.kind {
        CommandKind::Help => PromptAction::Help,
        CommandKind::Exit => PromptAction::Exit,
        CommandKind::DeviceUnknown => say("device: Unknown command"),
        CommandKind::Select => if args.len() > 0 {
            PromptAction::Select(args[0].clone())
        } else {
            PromptAction::Unselect
        },
        CommandKind::ConfigUnknown => say("config: Unknown command"),
        CommandKind::Brightness => match u8_at(args, 0) {
            None => say("brightness: Input valid brightness value (0-255)"),
            Some(b) => if no_device {
                say("brightness: No device is selected")
            } else {
                PromptAction::SetBrightness(b)
            },
        },
        CommandKind::Back => if no_device {
            say("back: No device is selected")
        } else {
            PromptAction::PopScreen
        },
        CommandKind::BackDrop => if no_device {
            say("back: No device is selected")
        } else {
            PromptAction::DropStack
        },
        CommandKind::BackUnknown => if no_device {
            say("back: No device is selected")
        } else {
            say("back: Unknown command")
        },
        CommandKind::Press => match u8_at(args, 0) {
            None => say("press: Input valid key index (0-255)"),
            Some(k) => if no_device {
                say("press: No device is selected")
            } else {
                PromptAction::Press(k)
            },
        },
        CommandKind::ModuleUnknown => say("module: Unknown command"),
        CommandKind::ModuleParamsUnknown => say("module params: Unknown command"),
        CommandKind::ImageUnknown => say("image: Unknown command"),
        CommandKind::ComponentUnknown => say("component: Unknown command"),
        CommandKind::FontUnknown => say("font: Unknown command"),
        CommandKind::ButtonUnknown => say("button: Unknown command"),
        CommandKind::ButtonCopy => if no_device {
            say("button copy: No device is selected")
        } else {
            match u8_at(args, 0) {
                None => say("button copy: Input valid key index (0-255)"),
                Some(k) => PromptAction::CopyButton(k),
            }
        },
        CommandKind::ButtonPaste => if no_device {
            say("button paste: No device is selected")
        } else {
            match u8_at(args, 0) {
                None => say("button paste: Input valid key index (0-255)"),
                Some(k) => PromptAction::PasteButton(k),
            }
        },
        CommandKind::ButtonComponent => button_component_step(current_sn, args),
        CommandKind::Unknown => say("Unknown command"),
        CommandKind::DeviceList => PromptAction::ListDevices,
        CommandKind::DeviceAdd => if args.len() > 0 {
            PromptAction::AddDevice(args[0].clone())
        } else {
            say("device add: Specify serial number")
        },
        CommandKind::DeviceRemove => if args.len() > 0 {
            PromptAction::RemoveDevice(args[0].clone())
        } else {
            say("device remove: Specify serial number")
        },
        CommandKind::ConfigReload => config_all_step(current_sn, args, "config reload", false),
        CommandKind::ConfigSave => config_all_step(current_sn, args, "config save", true),
        CommandKind::ConfigImport => if no_device {
            say("config import: No device is selected")
        } else if args.len() > 0 {
            PromptAction::ImportConfig(args[0].clone())
        } else {
            say("config import: Specify path")
        },
        CommandKind::ConfigExport => if no_device {
            say("config export: No device is selected")
        } else if args.len() > 0 {
            PromptAction::ExportConfig(args[0].clone())
        } else {
            say("config export: Specify path")
        },
        CommandKind::ButtonNew => if no_device {
            say("button new: No device is selected")
        } else {
            match u8_at(args, 0) {
                None => say("button new: Input valid key index (0-255)"),
                Some(k) => PromptAction::NewButton(k),
            }
        },
        CommandKind::ButtonFrom => if no_device {
            say("button from: No device is selected")
        } else {
            match key_component_step(args, 0, "button from", ": Specify component name") {
                Some(m) => m,
                None => {
                    let k = match u8_at(args, 0) {
                        Some(k) => k,
                        None => 0,
                    };
                    PromptAction::NewButtonFrom(k, args[1].clone())
                },
            }
        },
        CommandKind::ButtonRemove => if no_device {
            say("button remove: No device is selected")
        } else {
            match u8_at(args, 0) {
                None => say("button remove: Input valid key index (0-255)"),
                Some(k) => PromptAction::ClearButton(k),
            }
        },
        CommandKind::ComponentInfo => if args.len() > 0 {
            PromptAction::ComponentInfo(args[0].clone())
        } else {
            say("component info: Specify name")
        },
        CommandKind::ButtonList => if no_device {
            say("button list: No device is selected")
        } else {
            PromptAction::ListButtons
        },
        CommandKind::ButtonInfo => if no_device {
            say("button info: No device is selected")
        } else {
            match u8_at(args, 0) {
                None => say("button info: Input valid key index (0-255)"),
                Some(k) => PromptAction::ButtonInfo(k),
            }
        },
        CommandKind::ModuleInfo => if args.len() > 0 {
            PromptAction::ModuleInfo(args[0].clone())
        } else {
            say("module info: Specify name")
        },
        CommandKind::ModuleParamsAdd => module_path_step(args, "module params add", ": Specify component", 0),
        CommandKind::ModuleParamsSet => module_path_step(args, "module params set", ": Specify module name", 1),
        CommandKind::ModuleParamsUpload => module_path_step(args, "module params upload", ": Specify module name", 2),
        CommandKind::ModuleParamsRemove => module_remove_step(args),
        CommandKind::ModuleParamsList => if args.len() > 0 {
            PromptAction::ListModuleValues(args[0].clone())
        } else {
            say("module params list: Specify module name")
        },
        CommandKind::ImageRemove => if no_device {
            say("image remove: No device is specified")
        } else if args.len() > 0 {
            PromptAction::RemoveImage(args[0].clone())
        } else {
            say("image remove: Specify identifier")
        },
        _ => PromptAction::Handler,
    }
}

/// The module parameter commands take the module's name first and the parameter path second:
/// adding an element, setting a value (to the words after the path), uploading an image (from
/// the file the words after the path name) and removing an element (at the index after the
/// path) all act on module `args[0]` at path `args[1]`, selected device or not.
pub proof fn law_module_params_take_module_then_path(sn: Seq<char>, args: Seq<Seq<char>>)
    requires
        args.len() >= 2,
    ensures
        prompt_action(sn, CommandKind::ModuleParamsAdd, args) == PromptActionView::AddModuleElement(args[0], args[1]),
        prompt_action(sn, CommandKind::ModuleParamsSet, args) == PromptActionView::SetModuleValue(args[0], args[1], args.skip(2)),
        prompt_action(sn, CommandKind::ModuleParamsUpload, args) == PromptActionView::UploadModuleImage(args[0], args[1], args.skip(2)),
        prompt_action(sn, CommandKind::ModuleParamsList, args) == PromptActionView::ListModuleValues(args[0]),
        args.len() > 2 && parse_usize(args[2]) is Some ==> prompt_action(sn, CommandKind::ModuleParamsRemove, args)
            == PromptActionView::RemoveModuleElement(args[0], args[1], parse_usize(args[2])->0 as usize),
{
}

/// The parameter commands of a button's component take the key first, then the component's
/// name, then the parameter path: on the selected device, `button component params` with
/// `add`, `set`, `upload`, `remove` or `list` acts on the button at key `rest[0]`, component
/// `rest[1]` and (but for listing) path `rest[2]`; what follows is the value, the file or the
/// element's index.
pub proof fn law_component_params_take_key_component_path(sn: Seq<char>, rest: Seq<Seq<char>>, k: int)
    requires
        sn.len() > 0,
        rest.len() >= 3,
        parse_u8(rest[0]) == Some(k),
    ensures
        prompt_action(sn, CommandKind::ButtonComponent, seq!["params"@, "add"@] + rest)
            == PromptActionView::AddComponentElement(k as u8, rest[1], rest[2]),
        prompt_action(sn, CommandKind::ButtonComponent, seq!["params"@, "set"@] + rest)
            == PromptActionView::SetComponentValue(k as u8, rest[1], rest[2], rest.skip(3)),
        prompt_action(sn, CommandKind::ButtonComponent, seq!["params"@, "upload"@] + rest)
            == PromptActionView::UploadComponentImage(k as u8, rest[1], rest[2], rest.skip(3)),
        prompt_action(sn, CommandKind::ButtonComponent, seq!["params"@, "list"@] + rest)
            == PromptActionView::ListComponentValues(k as u8, rest[1]),
        rest.len() > 3 && parse_usize(rest[3]) is Some ==> prompt_action(sn, CommandKind::ButtonComponent,
            seq!["params"@, "remove"@] + rest) == PromptActionView::RemoveComponentElement(k as u8, rest[1], rest[2],
            parse_usize(rest[3])->0 as usize),
{
    reveal_strlit("params");
    reveal_strlit("p");
    reveal_strlit("add");
    reveal_strlit("a");
    reveal_strlit("remove");
    reveal_strlit("r");
    reveal_strlit("set");
    reveal_strlit("s");
    reveal_strlit("upload");
    reveal_strlit("u");
    reveal_strlit("list");
    reveal_strlit("l");
    let words_of = |w: Seq<char>| seq!["params"@, w] + rest;
    assert forall|w: Seq<char>| #[trigger] words_of(w).len() == rest.len() + 2 && words_of(w)[0] == "params"@
        && words_of(w)[1] == w && words_of(w)[2] == rest[0] && words_of(w)[3] == rest[1] && words_of(w)[4] == rest[2]
        && words_of(w).skip(5) == rest.skip(3) && (rest.len() > 3 ==> words_of(w)[5] == rest[3]) by {
        assert(words_of(w).skip(5) =~= rest.skip(3));
    }
    assert(words_of("add"@) == seq!["params"@, "add"@] + rest);
    assert(words_of("set"@) == seq!["params"@, "set"@] + rest);
    assert(words_of("upload"@) == seq!["params"@, "upload"@] + rest);
    assert(words_of("list"@) == seq!["params"@, "list"@] + rest);
    assert(words_of("remove"@) == seq!["params"@, "remove"@] + rest);
}

/// The commands that take a key and a component name take the key first: on the selected
/// device, `button from`, `button component add` and `button component remove` act on the
/// button at key `rest[0]` with component `rest[1]`.
pub proof fn law_key_commands_take_key_then_component(sn: Seq<char>, rest: Seq<Seq<char>>, k: int)
    requires
        sn.len() > 0,
        rest.len() >= 2,
        parse_u8(rest[0]) == Some(k),
    ensures
        prompt_action(sn, CommandKind::ButtonFrom, rest) == PromptActionView::NewButtonFrom(k as u8, rest[1]),
        prompt_action(sn, CommandKind::ButtonComponent, seq!["add"@] + rest) == PromptActionView::AddComponent(k as u8, rest[1]),
        prompt_action(sn, CommandKind::ButtonComponent, seq!["remove"@] + rest)
            == PromptActionView::RemoveComponent(k as u8, rest[1]),
{
    reveal_strlit("add");
    reveal_strlit("a");
    reveal_strlit("remove");
    reveal_strlit("r");
    assert((seq!["add"@] + rest)[0] == "add"@ && (seq!["add"@] + rest)[1] == rest[0] && (seq!["add"@] + rest)[2] == rest[1]);
    assert((seq!["remove"@] + rest)[0] == "remove"@ && (seq!["remove"@] + rest)[1] == rest[0]
        && (seq!["remove"@] + rest)[2] == rest[1]);
}

} // verus!
