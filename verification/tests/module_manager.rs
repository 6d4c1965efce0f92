use streamduck::button::Button;
use streamduck::features::{PluginError, PluginMetadata, CORE, RENDERING};
use streamduck::plugins::{check_plugin, PluginModuleManager};
use streamduck::modules::{ComponentDefinition, ModuleManager, SDModule};
use streamduck::render::RendererComponent;
use streamduck::ui::UIValue;

struct Plain {
    name: String,
    declares: Vec<String>,
    listens: Vec<String>,
    renders: bool,
}

impl SDModule for Plain {
    fn name(&self) -> String {
        self.name.clone()
    }

    fn components(&self) -> Vec<(String, ComponentDefinition)> {
        self.declares
            .iter()
            .map(|c| {
                (
                    c.clone(),
                    ComponentDefinition { display_name: c.clone(), description: String::new(), default_looks: RendererComponent::default() },
                )
            })
            .collect()
    }

    fn add_component(&self, _button: &mut Button, _name: &str) {}

    fn paste_component(&self, _reference_button: &Button, _new_button: &mut Button) {}

    fn remove_component(&self, _button: &mut Button, _name: &str) {}

    fn component_values(&self, _button: &Button, _name: &str) -> Vec<UIValue> {
        vec![]
    }

    fn set_component_value(&self, _button: &mut Button, _name: &str, _value: Vec<UIValue>) {}

    fn listening_for(&self) -> Vec<String> {
        self.listens.clone()
    }

    fn metadata(&self) -> PluginMetadata {
        if self.renders {
            PluginMetadata::from_literals(&self.name, "a", "d", "1", &[CORE, RENDERING])
        } else {
            PluginMetadata::from_literals(&self.name, "a", "d", "1", &[CORE])
        }
    }
}

fn module(name: &str, declares: &[&str], listens: &[&str], renders: bool) -> Plain {
    Plain {
        name: name.to_string(),
        declares: declares.iter().map(|s| s.to_string()).collect(),
        listens: listens.iter().map(|s| s.to_string()).collect(),
        renders,
    }
}

fn manager() -> ModuleManager<Plain> {
    let mut m = ModuleManager::new();
    m.add_module(module("zeta", &["z1", "z2"], &["z1", "shared"], true));
    m.add_module(module("alpha", &["a1"], &["a1", "shared"], false));
    m.add_module(module("mid", &["m1"], &["shared"], true));
    m
}

#[test]
fn module_lookup_by_name() {
    let m = manager();
    assert_eq!(m.get_module("alpha"), Some(1));
    assert_eq!(m.get_module("zeta"), Some(0));
    assert_eq!(m.get_module("nope"), None);
    assert_eq!(m.module_at(2).name(), "mid");
}

#[test]
fn modules_from_list_keep_order_and_skip_unknown() {
    let m = manager();
    let list = vec!["mid".to_string(), "nope".to_string(), "zeta".to_string(), "mid".to_string()];
    assert_eq!(m.get_modules_from_list(&list), vec![2, 0, 2]);
}

#[test]
fn modules_for_one_component() {
    let m = manager();
    assert_eq!(m.get_modules_for_component("shared"), vec![0, 1, 2]);
    assert_eq!(m.get_modules_for_component("a1"), vec![1]);
    assert!(m.get_modules_for_component("m1").is_empty());
}

#[test]
fn declared_components_give_sorted_owner_names() {
    let m = manager();
    let comps = vec!["z2".to_string(), "m1".to_string(), "a1".to_string(), "z1".to_string(), "none".to_string()];
    assert_eq!(m.get_modules_for_declared_components(&comps), vec!["alpha".to_string(), "mid".to_string(), "zeta".to_string()]);
    assert_eq!(m.get_component("m1"), Some(2));
}

#[test]
fn components_of_module() {
    let m = manager();
    let comps = m.get_components_of_module("zeta").unwrap();
    let names: Vec<String> = comps.into_iter().map(|(n, _)| n).collect();
    assert_eq!(names, vec!["z1".to_string(), "z2".to_string()]);
    assert!(m.get_components_of_module("nope").is_none());
}

#[test]
fn rendering_modules_only_with_feature() {
    let m = manager();
    let r = m.get_modules_for_rendering(&vec!["shared".to_string()]);
    let mut names: Vec<String> = r.keys();
    names.sort();
    assert_eq!(names, vec!["mid".to_string(), "zeta".to_string()]);
    assert_eq!(r.get(&"zeta".to_string()), Some(&0));
    let only_z = m.get_modules_for_rendering(&vec!["z1".to_string(), "a1".to_string()]);
    assert_eq!(only_z.keys(), vec!["zeta".to_string()]);
    assert_eq!(m.get_modules_for_rendering(&vec!["a1".to_string()]).len(), 0);
}

#[test]
fn listening_modules_sorted_by_name() {
    let m = manager();
    let names = m.get_modules_for_components(&vec!["shared".to_string(), "a1".to_string()]);
    assert_eq!(names, vec!["alpha".to_string(), "mid".to_string(), "zeta".to_string()]);
}

#[test]
fn plugin_modules_load_in_order() {
    let mut m = manager();
    let mut plugin = PluginModuleManager::new();
    plugin.add_module(module("p1", &["p1c"], &[], false));
    plugin.add_module(module("p2", &["p2c"], &[], false));
    assert!(plugin.load_modules(&mut m).is_ok());
    assert_eq!(m.get_module("p1"), Some(3));
    assert_eq!(m.get_module("p2"), Some(4));
    assert_eq!(m.get_component("p2c"), Some(4));
}

#[test]
fn plugin_without_modules_is_refused() {
    let mut m = manager();
    let plugin: PluginModuleManager<Plain> = PluginModuleManager::new();
    assert!(matches!(plugin.load_modules(&mut m), Err(PluginError::NoModulesFound)));
    assert_eq!(m.get_module("p1"), None);
}

#[test]
fn plugin_stops_at_component_conflict() {
    let mut m = manager();
    let mut plugin = PluginModuleManager::new();
    plugin.add_module(module("ok", &["fresh"], &[], false));
    plugin.add_module(module("clash", &["new", "a1"], &[], false));
    plugin.add_module(module("after", &["later"], &[], false));
    match plugin.load_modules(&mut m) {
        Err(PluginError::ComponentConflict(module_name, component)) => {
            assert_eq!(module_name, "clash");
            assert_eq!(component, "a1");
        }
        _ => panic!("expected a conflict"),
    }
    assert_eq!(m.get_module("ok"), Some(3));
    assert_eq!(m.get_module("clash"), None);
    assert_eq!(m.get_module("after"), None);
}

#[test]
fn plugin_checks_before_loading() {
    let m = manager();
    let fine = PluginMetadata::from_literals("newcomer", "a", "d", "1", &[CORE]);
    assert!(check_plugin(&m, &fine, true).is_ok());
    let taken = PluginMetadata::from_literals("alpha", "a", "d", "1", &[CORE]);
    assert!(matches!(check_plugin(&m, &taken, false), Err(PluginError::AlreadyExists(n)) if n == "alpha"));
    let future = PluginMetadata::from_literals("newcomer", "a", "d", "1", &[("hologram", "9.9")]);
    assert!(matches!(check_plugin(&m, &future, true), Err(PluginError::TooNew(v)) if v == "hologram 9.9"));
    assert!(check_plugin(&m, &future, false).is_ok());
    let old = PluginMetadata::from_literals("newcomer", "a", "d", "1", &[("core", "0.0")]);
    assert!(matches!(check_plugin(&m, &old, true), Err(PluginError::WrongVersion(a, b)) if a == "core 0.0" && b == "core 0.1"));
}

#[test]
fn plugin_modules_conflict_with_earlier_ones_of_the_same_plugin() {
    let mut m = manager();
    let mut plugin = PluginModuleManager::new();
    plugin.add_module(module("first", &["one", "two"], &[], false));
    plugin.add_module(module("second", &["three", "two", "one"], &[], false));
    match plugin.load_modules(&mut m) {
        Err(PluginError::ComponentConflict(module_name, component)) => {
            assert_eq!(module_name, "second");
            assert_eq!(component, "two");
        }
        _ => panic!("expected a conflict"),
    }
    assert_eq!(m.get_module("first"), Some(3));
    assert_eq!(m.get_module("second"), None);
    assert_eq!(m.get_component("three"), None);
}
