use streamduck::core_module::{CoreModule, CoreSettings};
use streamduck::features::PluginMetadata;
use streamduck::ui::{UIFieldType, UIFieldValue, UIValue};

fn meta(features: &[(&str, &str)]) -> PluginMetadata {
    PluginMetadata::from_literals("m", "a", "d", "1", features)
}

fn boxes(values: &[UIValue]) -> Vec<(String, bool)> {
    match &values[0].value {
        UIFieldValue::Collapsable(inner) => match &inner[0].value {
            UIFieldValue::Collapsable(b) => b
                .iter()
                .map(|v| (v.name.clone(), matches!(v.value, UIFieldValue::Checkbox(true))))
                .collect(),
            _ => panic!("blacklist should be a section"),
        },
        _ => panic!("rendering should be a section"),
    }
}

fn checkbox(name: &str, state: bool) -> UIValue {
    UIValue {
        name: name.to_string(),
        display_name: name.to_string(),
        description: String::new(),
        ty: UIFieldType::Checkbox { disabled: false },
        value: UIFieldValue::Checkbox(state),
    }
}

fn settings_values(b: Vec<UIValue>) -> Vec<UIValue> {
    let blacklist = UIValue {
        name: "plugin_blacklist".to_string(),
        display_name: String::new(),
        description: String::new(),
        ty: UIFieldType::Collapsable,
        value: UIFieldValue::Collapsable(b),
    };
    vec![UIValue {
        name: "rendering".to_string(),
        display_name: String::new(),
        description: String::new(),
        ty: UIFieldType::Collapsable,
        value: UIFieldValue::Collapsable(vec![blacklist]),
    }]
}

#[test]
fn core_module_describes_itself() {
    let m = CoreModule;
    assert_eq!(m.name(), "core");
    let c = m.components();
    assert_eq!(c.len(), 1);
    assert_eq!(c[0].0, "renderer");
    assert!(m.listening_for().is_empty());
    let meta = m.metadata();
    assert_eq!(meta.used_features, vec![("core".to_string(), "0.1".to_string()), ("module_manager".to_string(), "0.1".to_string())]);
}

#[test]
fn settings_list_rendering_modules() {
    let modules = vec![
        ("one".to_string(), meta(&[("rendering", "0.1")])),
        ("two".to_string(), meta(&[("core", "0.1")])),
        ("three".to_string(), meta(&[("rendering", "0.1")])),
    ];
    let mut settings = CoreSettings::default();
    settings.renderer.plugin_blacklist.push("three".to_string());
    let values = CoreModule.settings(&modules, &settings);
    assert_eq!(values[0].name, "rendering");
    assert_eq!(boxes(&values), vec![("one".to_string(), true), ("three".to_string(), false)]);
}

#[test]
fn checkboxes_change_the_blacklist() {
    let mut settings = CoreSettings::default();
    settings.renderer.plugin_blacklist = vec!["a".to_string(), "b".to_string(), "a".to_string()];
    CoreModule.set_setting(&mut settings, settings_values(vec![checkbox("a", true), checkbox("c", false), checkbox("d", false), checkbox("d", true)]));
    assert_eq!(settings.renderer.plugin_blacklist, vec!["b".to_string(), "c".to_string()]);
}

#[test]
fn settings_without_blacklist_change_nothing() {
    let mut settings = CoreSettings::default();
    settings.renderer.plugin_blacklist = vec!["a".to_string()];
    CoreModule.set_setting(&mut settings, vec![checkbox("rendering", true)]);
    assert_eq!(settings.renderer.plugin_blacklist, vec!["a".to_string()]);
}
