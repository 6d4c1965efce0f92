//! The core module: exposes the renderer component, and the settings of the core.

use vstd::prelude::*;
use crate::features::{CORE, MODULE_MANAGER, PluginMetadata, check_feature_list_for_feature, has_feature};
use crate::key_sequence::{lookup, value_is};
use crate::modules::ComponentDefinition;
use crate::render::{RendererComponent, RendererSettings};
use crate::text::{has_text, str_eq, to_owned};
use crate::ui::{UIFieldType, UIFieldValue, UIValue, find_ui_value, last_named};
use crate::folders::contains_text;

verus! {

/// Settings related to various things around the core
#[derive(Debug)]
pub struct CoreSettings {
    pub renderer: RendererSettings,
}

impl Default for CoreSettings {
    fn default() -> (r: Self)
        ensures
            r.renderer.plugin_blacklist@.len() == 0,
    {
        CoreSettings { renderer: RendererSettings::default() }
    }
}

impl crate::config::PluginConfig for CoreSettings {
    const NAME: &'static str = "core";
}

/// The core module, for exposing renderer component to requests and such
pub struct CoreModule;

/// A module as the core settings see it: its name, and whether it uses the rendering feature.
pub open spec fn renders(m: (String, PluginMetadata)) -> bool {
    has_feature(m.1.used_features@, "rendering"@)
}

/// The checkboxes that allow plugins to render: one for each module that uses the rendering
/// feature, in order, named after it and ticked unless the module is on the blacklist.
pub open spec fn render_checkboxes(boxes: Seq<UIValue>, modules: Seq<(String, PluginMetadata)>, blacklist: Seq<String>) -> bool
    decreases modules.len(),
{
    if modules.len() == 0 {
        boxes.len() == 0
    } else {
        let m = modules.last();
        if renders(m) {
            boxes.len() > 0 && render_checkboxes(boxes.drop_last(), modules.drop_last(), blacklist) && value_is(
                boxes.last(),
                m.0@,
                m.0@,
                Seq::empty(),
            ) && boxes.last().ty == (UIFieldType::Checkbox { disabled: false }) && boxes.last().value
                == UIFieldValue::Checkbox(!has_text(blacklist, m.0@))
        } else {
            render_checkboxes(boxes, modules.drop_last(), blacklist)
        }
    }
}

/// How a checkbox value changes the blacklist: ticked takes the name off, unticked appends it.
pub open spec fn apply_checkbox(blacklist: Seq<Seq<char>>, v: UIValue) -> Seq<Seq<char>> {
    match v.value {
        UIFieldValue::Checkbox(state) => if state {
            blacklist.filter(|x: Seq<char>| x != v.name@)
        } else {
            blacklist.push(v.name@)
        },
        _ => blacklist,
    }
}

/// The blacklist after the checkbox values, where of several values with one name only the
/// last one counts.
pub open spec fn apply_checkboxes(blacklist: Seq<Seq<char>>, values: Seq<UIValue>) -> Seq<Seq<char>>
    decreases values.len(),
{
    if values.len() == 0 {
        blacklist
    } else {
        let rest = values.drop_first();
        let next = if last_named(rest, values[0].name@) is Some {
            blacklist
        } else {
            apply_checkbox(blacklist, values[0])
        };
        apply_checkboxes(next, rest)
    }
}

/// The checkbox values that a list of settings values holds under `rendering` and then
/// `plugin_blacklist`, if it holds them.
pub open spec fn blacklist_values(values: Seq<UIValue>) -> Option<Seq<UIValue>> {
    match lookup(values, "rendering"@) {
        Some(r) => match r.value {
            UIFieldValue::Collapsable(inner) => match lookup(inner@, "plugin_blacklist"@) {
                Some(b) => match b.value {
                    UIFieldValue::Collapsable(boxes) => Some(boxes@),
                    _ => None,
                },
                None => None,
            },
            _ => None,
        },
        None => None,
    }
}

/// The `plugin_blacklist` section of the core settings.
pub open spec fn shows_blacklist(inner: Seq<UIValue>, modules: Seq<(String, PluginMetadata)>, blacklist: Seq<String>) -> bool {
    &&& inner.len() == 1
    &&& value_is(inner[0], "plugin_blacklist"@, "Allowed plugins to render"@, "Disabled plugins will not appear on buttons"@)
    &&& inner[0].ty is Collapsable
    &&& inner[0].value matches UIFieldValue::Collapsable(boxes) && render_checkboxes(boxes@, modules, blacklist)
}

impl CoreModule {
    /// Module name
    pub fn name(&self) -> (r: String)
        ensures
            r@ == "core"@,
    {
        to_owned("core")
    }

    /// The renderer component, the one component of the core module
    pub fn components(&self) -> (r: Vec<(String, ComponentDefinition)>)
        ensures
            r@.len() == 1,
            r@[0].0@ == "renderer"@,
            r@[0].1.display_name@ == "Renderer"@,
            r@[0].1.description@ == "The only thing that makes a button render an image on streamdeck"@,
            r@[0].1.default_looks.text@.len() == 0,
            r@[0].1.default_looks.to_cache,
    {
        vec![(to_owned("renderer"), ComponentDefinition {
            display_name: to_owned("Renderer"),
            description: to_owned("The only thing that makes a button render an image on streamdeck"),
            default_looks: RendererComponent::default(),
        })]
    }

    /// The core module listens for no component
    pub fn listening_for(&self) -> (r: Vec<String>)
        ensures
            r@.len() == 0,
    {
        Vec::new()
    }

    /// Metadata of the core module
    pub fn metadata(&self) -> (r: PluginMetadata)
        ensures
            r.name@ == "core"@,
            r.author@ == "TheJebForge"@,
            r.description@ == "Core of the software, provides essential components"@,
            r.version@ == "0.1"@,
            r.used_features@.len() == 2,
            r.used_features@[0].0@ == CORE.0@,
            r.used_features@[0].1@ == CORE.1@,
            r.used_features@[1].0@ == MODULE_MANAGER.0@,
            r.used_features@[1].1@ == MODULE_MANAGER.1@,
    {
        let features: [(&str, &str); 2] = [CORE, MODULE_MANAGER];
        PluginMetadata::from_literals(
            "core",
            "TheJebForge",
            "Core of the software, provides essential components",
            "0.1",
            &features,
        )
    }

    /// The settings of the core as values of the user interface: a `rendering` section holding
    /// a `plugin_blacklist` section with one checkbox per module (given with its metadata) that
    /// uses the rendering feature, ticked unless the module is on the blacklist.
    pub fn settings(&self, modules: &Vec<(String, PluginMetadata)>, settings: &CoreSettings) -> (r: Vec<UIValue>)
        ensures
            r@.len() == 1,
            value_is(r@[0], "rendering"@, "Rendering Settings"@, "Settings related to rendering of buttons"@),
            r@[0].ty is Collapsable,
            r@[0].value matches UIFieldValue::Collapsable(inner) && shows_blacklist(inner@, modules@, settings.renderer.plugin_blacklist@),
    {
        let mut boxes: Vec<UIValue> = Vec::new();
        let mut i: usize = 0;
        while i < modules.len()
            invariant
                i <= modules@.len(),
                render_checkboxes(boxes@, modules@.take(i as int), settings.renderer.plugin_blacklist@),
            decreases modules@.len() - i,
        {
            proof {
                assert(modules@.take(i + 1).drop_last() =~= modules@.take(i as int));
                assert(modules@.take(i + 1).last() == modules@[i as int]);
            }
            let m = &modules[i];
            if check_feature_list_for_feature(&m.1.used_features, "rendering") {
                let allowed = !contains_text(&settings.renderer.plugin_blacklist, m.0.as_str());
                let ghost before = boxes@;
                boxes.push(UIValue {
                    name: m.0.clone(),
                    display_name: m.0.clone(),
                    description: String::new(),
                    ty: UIFieldType::Checkbox { disabled: false },
                    value: UIFieldValue::Checkbox(allowed),
                });
                assert(boxes@.drop_last() =~= before);
            }
            i += 1;
        }
        assert(modules@.take(modules@.len() as int) =~= modules@);
        let inner: Vec<UIValue> = vec![UIValue {
            name: to_owned("plugin_blacklist"),
            display_name: to_owned("Allowed plugins to render"),
            description: to_owned("Disabled plugins will not appear on buttons"),
            ty: UIFieldType::Collapsable,
            value: UIFieldValue::Collapsable(boxes),
        }];
        vec![UIValue {
            name: to_owned("rendering"),
            display_name: to_owned("Rendering Settings"),
            description: to_owned("Settings related to rendering of buttons"),
            ty: UIFieldType::Collapsable,
            value: UIFieldValue::Collapsable(inner),
        }]
    }

    /// Applies settings values to the core settings: where the values hold the checkboxes of the
    /// `plugin_blacklist` section, a ticked box takes its module off the blacklist and an
    /// unticked one appends it; of several boxes with one name only the last one counts.
    pub fn set_setting(&self, settings: &mut CoreSettings, value: Vec<UIValue>)
        ensures
            match blacklist_values(value@) {
                Some(boxes) => words_of(final(settings).renderer.plugin_blacklist@) == apply_checkboxes(
                    words_of(old(settings).renderer.plugin_blacklist@),
                    boxes,
                ),
                None => final(settings).renderer.plugin_blacklist@ == old(settings).renderer.plugin_blacklist@,
            },
    {
        if let Some(r) = find_ui_value(&value, "rendering") {
            if let UIFieldValue::Collapsable(inner) = &r.value {
                if let Some(b) = find_ui_value(inner, "plugin_blacklist") {
                    if let UIFieldValue::Collapsable(boxes) = &b.value {
                        apply_blacklist_boxes(&mut settings.renderer.plugin_blacklist, boxes);
                    }
                }
            }
        }
    }
}

/// The views of a list of strings.
pub open spec fn words_of(v: Seq<String>) -> Seq<Seq<char>> {
    v.map_values(|s: String| s@)
}

fn remove_name(list: &mut Vec<String>, name: &str)
    ensures
        words_of(final(list)@) == words_of(old(list)@).filter(|x: Seq<char>| x != name@),
{
    let mut out: Vec<String> = Vec::new();
    let mut i: usize = 0;
    while i < list.len()
        invariant
            i <= list@.len(),
            list@ == old(list)@,
            words_of(out@) == words_of(list@).take(i as int).filter(|x: Seq<char>| x != name@),
        decreases list@.len() - i,
    {
        proof {
            let w = words_of(list@);
            assert(w.take(i + 1).drop_last() =~= w.take(i as int));
            assert(w.take(i + 1).last() == list@[i as int]@);
            w.take(i as int).lemma_filter_push(list@[i as int]@, |x: Seq<char>| x != name@);
            assert(w.take(i as int).push(list@[i as int]@) =~= w.take(i + 1));
        }
        if !str_eq(list[i].as_str(), name) {
            let ghost before = out@;
            out.push(list[i].clone());
            assert(words_of(out@) =~= words_of(before).push(list@[i as int]@));
        }
        i += 1;
    }
    assert(words_of(list@).take(list@.len() as int) =~= words_of(list@));
    *list = out;
}

fn apply_blacklist_boxes(list: &mut Vec<String>, boxes: &Vec<UIValue>)
    ensures
        words_of(final(list)@) == apply_checkboxes(words_of(old(list)@), boxes@),
{
    let mut i: usize = 0;
    assert(boxes@.skip(0) =~= boxes@);
    while i < boxes.len()
        invariant
            i <= boxes@.len(),
            apply_checkboxes(words_of(list@), boxes@.skip(i as int)) == apply_checkboxes(words_of(old(list)@), boxes@),
        decreases boxes@.len() - i,
    {
        let ghost rest = boxes@.skip(i + 1);
        proof {
            assert(boxes@.skip(i as int).drop_first() =~= rest);
            assert(boxes@.skip(i as int)[0] == boxes@[i as int]);
        }
        let b = &boxes[i];
        if !named_from(boxes, i + 1, b.name.as_str()) {
            match b.value {
                UIFieldValue::Checkbox(state) => {
                    if state {
                        remove_name(list, b.name.as_str());
                    } else {
                        let ghost before = list@;
                        list.push(b.name.clone());
                        assert(words_of(list@) =~= words_of(before).push(b.name@));
                    }
                },
                _ => {},
            }
        }
        i += 1;
    }
    assert(boxes@.skip(boxes@.len() as int) =~= Seq::<UIValue>::empty());
}

fn named_from(values: &Vec<UIValue>, from: usize, name: &str) -> (r: bool)
    requires
        from <= values@.len(),
    ensures
        r == (last_named(values@.skip(from as int), name@) is Some),
{
    let mut i = values.len();
    proof {
        assert(values@.skip(from as int).take((i - from) as int) =~= values@.skip(from as int));
    }
    while i > from
        invariant
            from <= i <= values@.len(),
            last_named(values@.skip(from as int), name@) is Some == last_named(values@.skip(from as int).take(i - from), name@) is Some,
        decreases i,
    {
        proof {
            let t = values@.skip(from as int).take(i - from);
            assert(t.drop_last() =~= values@.skip(from as int).take(i - 1 - from));
            assert(t.last() == values@[i - 1]);
        }
        if str_eq(values[i - 1].name.as_str(), name) {
            return true;
        }
        i -= 1;
    }
    proof {
        assert(values@.skip(from as int).take(0) =~= Seq::<UIValue>::empty());
    }
    false
}

} // verus!
