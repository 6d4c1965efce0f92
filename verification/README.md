# streamduck

Streamduck manages stream-deck style button devices: a stack of panels of buttons per
device, modules that put components on buttons and react to presses, folders, key sequences
and commands run on a press, localization, plugins, and a command prompt to drive it all.

`src/` is the library, verified with Verus. Public functions state what they return or
change over spec functions and views; where a result comes from an outside call or from a
module's own code, the contract says what is handed over and what holds of every answer, and
what a module does to a button is stated for modules that declare `obeys_module_spec`. The
laws that relate functions (what a read gives back of a write, what one call undoes of
another, what a printed value reads back as) stand as proof functions beside them.

- `keyed`, `text`: a map kept as a list with distinct keys, and text helpers.
- `button`, `panel`, `ui`, `render`: buttons, panels, the values shown in the user interface.
- `modules`, `sdcore`, `manager`: the module manager, the core of a device and the handle
  through which modules act on it, and the manager of the connected devices.
- `folders`, `key_sequence`, `run_command`, `core_module`: the built-in components.
- `settings`, `config`: the daemon's settings, device configs and their folders.
- `events`, `plugins`, `features`, `autoconnect`, `device`, `devices`, `device_thread`, `data`:
  event dispatch, plugin loading and feature versions, devices and what they report.
- `commands`, `help`, `prompt`, `table`, `params`, `parse`, `keys`, `localization`: the command
  prompt, its completion and output, value parsing, key names, translations.

`app/` is ordinary Rust around the library: files, the terminal, threads, serde forms of the
library's values, randomness and floating point.
