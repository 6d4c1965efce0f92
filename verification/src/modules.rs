//! Modules provide components for buttons; the module manager indexes them.

use vstd::prelude::*;
use crate::button::Button;
use crate::features::{has_feature, PluginMetadata};
use crate::keyed::{KeyedList, MapKey, entries_map, lemma_entries_map_prefix};
use crate::render::RendererComponent;
use crate::text::{seq_lt, str_lt, str_eq, has_text};
use crate::ui::UIValue;
use serde_json::Value;

verus! {

/// Component definition
#[derive(Debug)]
pub struct ComponentDefinition {
    /// Display name for the component
    pub display_name: String,
    /// Description of the component
    pub description: String,
    /// Default looks for a button, in case user doesn't want to setup one on their own
    pub default_looks: RendererComponent,
}

/// Module trait, implemented by every module that provides components.
///
/// A module may say, through `obeys_module_spec`, that its methods keep to the spec functions
/// of the trait; then what it declares, shows and does to a button is what they give. A module
/// that does not say so promises nothing about it.
pub trait SDModule {
    /// Whether the module keeps to the spec functions below
    open spec fn obeys_module_spec(&self) -> bool {
        false
    }

    /// The components the module declares, each with its definition
    open spec fn components_spec(&self) -> Seq<(String, ComponentDefinition)> {
        Seq::empty()
    }

    /// The components of a button after the module added the named component to it
    open spec fn added_spec(&self, button: Map<Seq<char>, Value>, name: Seq<char>) -> Map<Seq<char>, Value> {
        button
    }

    /// The components of a button after the module removed the named component from it
    open spec fn removed_spec(&self, button: Map<Seq<char>, Value>, name: Seq<char>) -> Map<Seq<char>, Value> {
        button
    }

    /// The values that the module shows for the named component of a button
    open spec fn values_spec(&self, button: Map<Seq<char>, Value>, name: Seq<char>) -> Seq<UIValue> {
        Seq::empty()
    }

    /// The components of a button after the module set values of the named component on it
    open spec fn set_spec(&self, button: Map<Seq<char>, Value>, name: Seq<char>, value: Seq<UIValue>) -> Map<Seq<char>, Value> {
        button
    }

    /// The name the module goes by
    open spec fn name_spec(&self) -> Seq<char> {
        Seq::empty()
    }

    /// The components of a new button after the module handled a paste from the reference button
    open spec fn paste_spec(&self, reference: Map<Seq<char>, Value>, button: Map<Seq<char>, Value>) -> Map<Seq<char>, Value> {
        button
    }

    /// The components the module wants to receive events for
    open spec fn listening_spec(&self) -> Seq<Seq<char>> {
        Seq::empty()
    }

    /// The features the module reports in its metadata
    open spec fn features_spec(&self) -> Seq<(String, String)> {
        Seq::empty()
    }

    /// Module name
    fn name(&self) -> (r: String)
        ensures
            self.obeys_module_spec() ==> r@ == self.name_spec(),
    ;

    /// Definitions of the components that the module provides, each under its name
    fn components(&self) -> (r: Vec<(String, ComponentDefinition)>)
        ensures
            self.obeys_module_spec() ==> r@ == self.components_spec(),
    ;

    /// Adds the named component onto a button
    fn add_component(&self, button: &mut Button, name: &str)
        ensures
            self.obeys_module_spec() ==> final(button)@ == self.added_spec(old(button)@, name@),
    ;

    /// Removes the named component from a button
    fn remove_component(&self, button: &mut Button, name: &str)
        ensures
            self.obeys_module_spec() ==> final(button)@ == self.removed_spec(old(button)@, name@),
    ;

    /// Handles a paste: puts onto the new button what its components need, taking the
    /// reference button as the example
    fn paste_component(&self, reference_button: &Button, new_button: &mut Button)
        ensures
            self.obeys_module_spec() ==> final(new_button)@ == self.paste_spec(reference_button@, old(new_button)@),
    ;

    /// Values that the named component currently has on a button
    fn component_values(&self, button: &Button, name: &str) -> (r: Vec<UIValue>)
        ensures
            self.obeys_module_spec() ==> r@ == self.values_spec(button@, name@),
    ;

    /// Sets values of the named component on a button
    fn set_component_value(&self, button: &mut Button, name: &str, value: Vec<UIValue>)
        ensures
            self.obeys_module_spec() ==> final(button)@ == self.set_spec(old(button)@, name@, value@),
    ;

    /// Components the module wants to receive events for
    fn listening_for(&self) -> (r: Vec<String>)
        ensures
            self.obeys_module_spec() ==> names_view(r@) == self.listening_spec(),
    ;

    /// Metadata of the module
    fn metadata(&self) -> (r: PluginMetadata)
        ensures
            self.obeys_module_spec() ==> r.used_features@ == self.features_spec(),
    ;
}

/// The names of a list of component definitions.
pub open spec fn component_names(cs: Seq<(String, ComponentDefinition)>) -> Seq<Seq<char>> {
    cs.map_values(|c: (String, ComponentDefinition)| c.0@)
}

/// Map after giving each of the names the same value, in order.
pub open spec fn assign_all(m: Map<Seq<char>, usize>, names: Seq<Seq<char>>, v: usize) -> Map<Seq<char>, usize>
    decreases names.len(),
{
    if names.len() == 0 {
        m
    } else {
        assign_all(m, names.drop_last(), v).insert(names.last(), v)
    }
}

/// Listener lists after appending the same module index to the list of each of the names, in order.
pub open spec fn append_all(m: Map<Seq<char>, Seq<usize>>, names: Seq<Seq<char>>, v: usize) -> Map<Seq<char>, Seq<usize>>
    decreases names.len(),
{
    if names.len() == 0 {
        m
    } else {
        let prev = append_all(m, names.drop_last(), v);
        let list = if prev.dom().contains(names.last()) { prev[names.last()] } else { Seq::empty() };
        prev.insert(names.last(), list.push(v))
    }
}

/// Rendering map after the named module, under the same index, is added for each of the
/// components, in order.
pub open spec fn render_all(m: Map<Seq<char>, Map<Seq<char>, usize>>, components: Seq<Seq<char>>, module_name: Seq<char>, v: usize) -> Map<Seq<char>, Map<Seq<char>, usize>>
    decreases components.len(),
{
    if components.len() == 0 {
        m
    } else {
        let prev = render_all(m, components.drop_last(), module_name, v);
        let inner = if prev.dom().contains(components.last()) { prev[components.last()] } else { Map::empty() };
        prev.insert(components.last(), inner.insert(module_name, v))
    }
}

/// Modules able to render any of the components, by module name; a later component's entry
/// for a module name replaces an earlier one.
pub open spec fn rendering_for(names: Seq<Seq<char>>, rendering: Map<Seq<char>, Map<Seq<char>, usize>>) -> Map<Seq<char>, usize>
    decreases names.len(),
{
    if names.len() == 0 {
        Map::empty()
    } else {
        let prev = rendering_for(names.drop_last(), rendering);
        if rendering.dom().contains(names.last()) {
            prev.union_prefer_right(rendering[names.last()])
        } else {
            prev
        }
    }
}

/// Indices of the modules named in a list, for the names that exist, in the order of the list.
pub open spec fn modules_from_list(list: Seq<Seq<char>>, index: Map<Seq<char>, usize>) -> Seq<usize>
    decreases list.len(),
{
    if list.len() == 0 {
        Seq::empty()
    } else {
        let prev = modules_from_list(list.drop_last(), index);
        if index.dom().contains(list.last()) {
            prev.push(index[list.last()])
        } else {
            prev
        }
    }
}

/// Views of a list of strings.
pub open spec fn names_view(names: Seq<String>) -> Seq<Seq<char>> {
    names.map_values(|s: String| s@)
}

/// Manages modules
pub struct ModuleManager<M: SDModule> {
    modules: Vec<M>,
    names: Vec<String>,
    module_map: KeyedList<String, usize>,
    component_map: KeyedList<String, usize>,
    listener_map: KeyedList<String, Vec<usize>>,
    rendering_map: KeyedList<String, KeyedList<String, usize>>,
}

impl<M: SDModule> ModuleManager<M> {
    #[verifier::type_invariant]
    spec fn indices_valid(self) -> bool {
        &&& self.names@.len() == self.modules@.len()
        &&& forall|n: Seq<char>| #[trigger] self.module_map.map().dom().contains(n)
            ==> self.module_map.map()[n] < self.modules@.len() && self.names@[self.module_map.map()[n] as int]@ == n
        &&& forall|n: Seq<char>| #[trigger] self.component_map.map().dom().contains(n)
            ==> self.component_map.map()[n] < self.modules@.len()
        &&& forall|n: Seq<char>, i: int| #[trigger] self.listener_map.map().dom().contains(n)
            && 0 <= i < self.listener_map.map()[n]@.len() ==> #[trigger] self.listener_map.map()[n]@[i] < self.modules@.len()
        &&& forall|c: Seq<char>, n: Seq<char>| #[trigger] self.rendering_map.map().dom().contains(c)
            && #[trigger] self.rendering_map.map()[c].map().dom().contains(n) ==> self.rendering_map.map()[c].map()[n] < self.modules@.len()
    }

    /// Names of the added modules, in the order they were added, as they gave them when added
    pub closed spec fn module_names(self) -> Seq<Seq<char>> {
        names_view(self.names@)
    }

    /// Names of the modules, each once, in the order their names were first added
    pub closed spec fn module_list(self) -> Seq<Seq<char>> {
        self.module_map.key_order()
    }

    /// Module name to the index of the module that was added last under that name
    pub closed spec fn module_index(self) -> Map<Seq<char>, usize> {
        self.module_map.map()
    }

    /// Component name to the index of the module that declared it last
    pub closed spec fn component_owner(self) -> Map<Seq<char>, usize> {
        self.component_map.map()
    }

    /// Component name to the indices of the modules listening for it, in the order they were added
    pub closed spec fn listeners(self) -> Map<Seq<char>, Seq<usize>> {
        self.listener_map.map().map_values(|v: Vec<usize>| v@)
    }

    /// Component name to the modules that can render it, each under its name
    pub closed spec fn rendering(self) -> Map<Seq<char>, Map<Seq<char>, usize>> {
        self.rendering_map.map().map_values(|l: KeyedList<String, usize>| l.map())
    }

    /// The modules, in the order they were added
    pub closed spec fn modules(self) -> Seq<M> {
        self.modules@
    }

    /// Facts every manager keeps; does nothing when run.
    pub fn lemma_indices(&self)
        ensures
            self.module_names().len() == self.modules().len(),
            forall|n: Seq<char>| #[trigger] self.module_index().dom().contains(n) ==> self.module_index()[n]
                < self.modules().len() && self.module_names()[self.module_index()[n] as int] == n,
            forall|n: Seq<char>| #[trigger] self.component_owner().dom().contains(n) ==> self.component_owner()[n]
                < self.modules().len(),
            forall|n: Seq<char>, i: int| #[trigger] self.listeners().dom().contains(n) && 0 <= i < self.listeners()[n].len()
                ==> #[trigger] self.listeners()[n][i] < self.modules().len(),
            forall|c: Seq<char>, n: Seq<char>| #[trigger] self.rendering().dom().contains(c)
                && #[trigger] self.rendering()[c].dom().contains(n) ==> self.rendering()[c][n] < self.modules().len(),
    {
        proof {
            use_type_invariant(self);
        }
    }

    /// Creates an empty module manager
    pub fn new() -> (r: Self)
        ensures
            r.modules().len() == 0,
            r.module_names().len() == 0,
            r.module_index() == Map::<Seq<char>, usize>::empty(),
            r.component_owner() == Map::<Seq<char>, usize>::empty(),
            r.listeners() == Map::<Seq<char>, Seq<usize>>::empty(),
            r.rendering() == Map::<Seq<char>, Map<Seq<char>, usize>>::empty(),
    {
        let r = ModuleManager {
            modules: Vec::new(),
            names: Vec::new(),
            module_map: KeyedList::new(),
            component_map: KeyedList::new(),
            listener_map: KeyedList::new(),
            rendering_map: KeyedList::new(),
        };
        assert(r.listeners() =~= Map::<Seq<char>, Seq<usize>>::empty());
        assert(r.rendering() =~= Map::<Seq<char>, Map<Seq<char>, usize>>::empty());
        r
    }

    /// Adds a new module: it is found by its name, it owns the components it declares, it
    /// hears about the components it listens for, and, where its metadata reports the
    /// rendering feature, it is asked to render those components
    pub fn add_module(&mut self, module: M) -> (index: usize)
        requires
            old(self).modules().len() < usize::MAX,
        ensures
            index == old(self).modules().len(),
            final(self).modules() == old(self).modules().push(module),
            final(self).module_names().drop_last() == old(self).module_names(),
            final(self).module_names().len() == old(self).module_names().len() + 1,
            final(self).module_index() == old(self).module_index().insert(final(self).module_names().last(), index),
            final(self).module_list() == if old(self).module_index().dom().contains(final(self).module_names().last()) {
                old(self).module_list()
            } else {
                old(self).module_list().push(final(self).module_names().last())
            },
            exists|declared: Seq<Seq<char>>| final(self).component_owner() == #[trigger] assign_all(old(self).component_owner(), declared, index),
            module.obeys_module_spec() ==> final(self).component_owner() == assign_all(old(self).component_owner(),
                component_names(module.components_spec()), index),
            exists|listened: Seq<Seq<char>>| final(self).listeners() == #[trigger] append_all(old(self).listeners(), listened, index)
                && (final(self).rendering() == old(self).rendering()
                    || final(self).rendering() == render_all(old(self).rendering(), listened, final(self).module_names().last(), index)),
            module.obeys_module_spec() ==> final(self).module_names().last() == module.name_spec(),
            module.obeys_module_spec() ==> final(self).listeners() == append_all(old(self).listeners(),
                module.listening_spec(), index),
            module.obeys_module_spec() ==> final(self).rendering() == if has_feature(module.features_spec(), "rendering"@) {
                render_all(old(self).rendering(), module.listening_spec(), module.name_spec(), index)
            } else {
                old(self).rendering()
            },
    {
        proof {
            use_type_invariant(&*self);
        }
        let name = module.name();
        let components = module.components();
        let listening = module.listening_for();
        let metadata = module.metadata();
        let renders = crate::features::check_feature_list_for_feature(&metadata.used_features, "rendering");
        let index = self.modules.len();
        let ghost old_owner = self.component_map.map();
        let ghost old_listeners = self.listeners();
        let ghost old_rendering = self.rendering();

        let mut taken = ModuleManager::new();
        std::mem::swap(&mut taken, self);
        let ModuleManager { mut modules, mut names, mut module_map, mut component_map, mut listener_map, mut rendering_map } = taken;
        module_map.lemma_wf();
        modules.push(module);
        let ghost name_view = name@;
        names.push(name.key_copy());

        let mut i: usize = 0;
        let ghost mut declared: Seq<Seq<char>> = Seq::empty();
        while i < components.len()
            invariant
                i <= components@.len(),
                declared == component_names(components@.take(i as int)),
                component_map.map() == assign_all(old_owner, declared, index),
                forall|n: Seq<char>| #[trigger] component_map.map().dom().contains(n) ==> component_map.map()[n]
                    <= index,
            decreases components@.len() - i,
        {
            let cname = components[i].0.key_copy();
            proof {
                assert(assign_all(old_owner, declared.push(cname@), index) == assign_all(old_owner, declared, index).insert(cname@, index)) by {
                    assert(declared.push(cname@).drop_last() =~= declared);
                }
                assert(component_names(components@.take(i + 1)) =~= declared.push(cname@));
                declared = declared.push(cname@);
            }
            component_map.insert(cname, index);
            i += 1;
        }

        let mut j: usize = 0;
        let ghost mut listened: Seq<Seq<char>> = Seq::empty();
        while j < listening.len()
            invariant
                j <= listening@.len(),
                listened == names_view(listening@.take(j as int)),
                listener_map.map().map_values(|v: Vec<usize>| v@) == append_all(old_listeners, listened, index),
                forall|n: Seq<char>, k: int| #[trigger] listener_map.map().dom().contains(n) && 0 <= k
                    < listener_map.map()[n]@.len() ==> #[trigger] listener_map.map()[n]@[k] <= index,
                renders ==> rendering_map.map().map_values(|l: KeyedList<String, usize>| l.map())
                    == render_all(old_rendering, listened, name_view, index),
                !renders ==> rendering_map.map().map_values(|l: KeyedList<String, usize>| l.map()) == old_rendering,
                name@ == name_view,
                forall|c: Seq<char>, n: Seq<char>| #[trigger] rendering_map.map().dom().contains(c)
                    && #[trigger] rendering_map.map()[c].map().dom().contains(n) ==> rendering_map.map()[c].map()[n] <= index,
            decreases listening@.len() - j,
        {
            let lname = listening[j].key_copy();
            let ghost key = listening@[j as int]@;
            let ghost before = listener_map.map();
            let mut list = match listener_map.remove(&lname) {
                Some(l) => l,
                None => Vec::new(),
            };
            list.push(index);
            let ghost new_list = list@;
            listener_map.insert(lname.key_copy(), list);
            proof {
                assert(listened.push(key).drop_last() =~= listened);
                assert(listener_map.map() == before.remove(key).insert(key, listener_map.map()[key]));
                assert(listener_map.map().map_values(|v: Vec<usize>| v@) =~= append_all(old_listeners, listened.push(key), index));
                assert forall|n: Seq<char>, k: int| #[trigger] listener_map.map().dom().contains(n) && 0 <= k
                    < listener_map.map()[n]@.len() implies #[trigger] listener_map.map()[n]@[k] <= index by {
                    if n != key {
                        assert(listener_map.map()[n] == before[n]);
                    } else {
                        assert(listener_map.map()[n]@ == new_list);
                        if k < new_list.len() - 1 {
                            assert(before.dom().contains(n));
                            assert(new_list[k] == before[n]@[k]);
                        }
                    }
                }
            }
            if renders {
                let ghost rbefore = rendering_map.map();
                let mut inner = match rendering_map.remove(&lname) {
                    Some(l) => l,
                    None => KeyedList::new(),
                };
                let ghost inner_before = inner.map();
                inner.insert(name.key_copy(), index);
                let ghost inner_after = inner.map();
                rendering_map.insert(lname, inner);
                proof {
                    assert(rendering_map.map() == rbefore.remove(key).insert(key, rendering_map.map()[key]));
                    assert(inner_after == inner_before.insert(name_view, index));
                    assert(rendering_map.map().map_values(|l: KeyedList<String, usize>| l.map())
                        =~= render_all(old_rendering, listened.push(key), name_view, index));
                    assert forall|c: Seq<char>, n: Seq<char>| #[trigger] rendering_map.map().dom().contains(c)
                        && #[trigger] rendering_map.map()[c].map().dom().contains(n) implies rendering_map.map()[c].map()[n] <= index by {
                        if c != key {
                            assert(rendering_map.map()[c] == rbefore[c]);
                        } else if n != name_view {
                            assert(rbefore.dom().contains(c));
                            assert(inner_before == rbefore[c].map());
                        }
                    }
                }
            } else {
                proof {
                    assert(listened.push(key).drop_last() =~= listened);
                }
            }
            proof {
                assert(names_view(listening@.take(j + 1)) =~= listened.push(key));
                listened = listened.push(key);
            }
            j += 1;
        }

        module_map.insert(name, index);
        *self = ModuleManager { modules, names, module_map, component_map, listener_map, rendering_map };
        proof {
            assert(self.component_owner() == assign_all(old(self).component_owner(), declared, index));
            assert(components@.take(components@.len() as int) =~= components@);
            assert(self.listeners() == append_all(old(self).listeners(), listened, index));
            assert(listening@.take(listening@.len() as int) =~= listening@);
            assert(self.module_names() =~= old(self).module_names().push(name_view));
            assert(self.module_names().drop_last() =~= old(self).module_names());
        }
        index
    }

    /// Module at an index
    pub fn module_at(&self, index: usize) -> (r: &M)
        requires
            index < self.modules().len(),
        ensures
            *r == self.modules()[index as int],
    {
        &self.modules[index]
    }

    /// Index of the module that declared a component
    pub fn get_component(&self, component_name: &str) -> (r: Option<usize>)
        ensures
            match r {
                Some(i) => self.component_owner().dom().contains(component_name@) && i == self.component_owner()[component_name@]
                    && i < self.modules().len(),
                None => !self.component_owner().dom().contains(component_name@),
            },
    {
        proof {
            use_type_invariant(self);
        }
        let key = crate::text::to_owned(component_name);
        match self.component_map.get(&key) {
            Some(i) => Some(*i),
            None => None,
        }
    }

    /// Attempts to get the index of the module with the specified name
    pub fn get_module(&self, name: &str) -> (r: Option<usize>)
        ensures
            match r {
                Some(i) => self.module_index().dom().contains(name@) && i == self.module_index()[name@]
                    && i < self.modules().len(),
                None => !self.module_index().dom().contains(name@),
            },
    {
        proof {
            use_type_invariant(self);
        }
        let key = crate::text::to_owned(name);
        match self.module_map.get(&key) {
            Some(i) => Some(*i),
            None => None,
        }
    }

    /// Indices of the modules named in a list, for the names that exist, in the order of the list
    pub fn get_modules_from_list(&self, list: &Vec<String>) -> (r: Vec<usize>)
        ensures
            r@ == modules_from_list(names_view(list@), self.module_index()),
    {
        let mut r: Vec<usize> = Vec::new();
        let mut i: usize = 0;
        while i < list.len()
            invariant
                i <= list@.len(),
                r@ == modules_from_list(names_view(list@).take(i as int), self.module_index()),
            decreases list@.len() - i,
        {
            proof {
                assert(names_view(list@).take(i + 1).drop_last() =~= names_view(list@).take(i as int));
            }
            match self.get_module(list[i].as_str()) {
                Some(m) => r.push(m),
                None => {},
            }
            i += 1;
        }
        proof {
            assert(names_view(list@).take(list@.len() as int) =~= names_view(list@));
        }
        r
    }

    /// Indices of the modules that are listening to a component, in the order they were added
    pub fn get_modules_for_component(&self, component: &str) -> (r: Vec<usize>)
        ensures
            self.listeners().dom().contains(component@) ==> r@ == self.listeners()[component@],
            !self.listeners().dom().contains(component@) ==> r@.len() == 0,
    {
        let key = crate::text::to_owned(component);
        match self.listener_map.get(&key) {
            Some(list) => list.clone(),
            None => Vec::new(),
        }
    }

    /// Names of the modules that declared any of the components, sorted, each name once
    pub fn get_modules_for_declared_components(&self, components: &Vec<String>) -> (names: Vec<String>)
        ensures
            forall|n: Seq<char>| #[trigger] has_text(names@, n) <==> (
            exists|c: int| 0 <= c < components@.len() && self.component_owner().dom().contains((#[trigger] components@[c])@)
                && self.module_names()[self.component_owner()[components@[c]@] as int] == n),
            forall|i: int, j: int| 0 <= i < j < names@.len() ==> seq_lt((#[trigger] names@[i])@, (#[trigger] names@[j])@),
    {
        proof {
            use_type_invariant(self);
        }
        let mut names: Vec<String> = Vec::new();
        let mut c: usize = 0;
        while c < components.len()
            invariant
                c <= components@.len(),
                forall|i: int, j: int| 0 <= i < j < names@.len() ==> seq_lt((#[trigger] names@[i])@, (#[trigger] names@[j])@),
                forall|n: Seq<char>| #[trigger] has_text(names@, n) <==> (
                exists|c2: int| 0 <= c2 < c && self.component_owner().dom().contains((#[trigger] components@[c2])@)
                    && self.module_names()[self.component_owner()[components@[c2]@] as int] == n),
            decreases components@.len() - c,
        {
            proof {
                use_type_invariant(self);
            }
            match self.component_map.get(&components[c]) {
                Some(owner) => {
                    let idx = *owner;
                    let name = self.names[idx].key_copy();
                    let ghost before = names@;
                    insert_sorted_unique(&mut names, name);
                    proof {
                        assert forall|n: Seq<char>| #[trigger] has_text(names@, n) <==> (
                        exists|c2: int| 0 <= c2 < c + 1 && self.component_owner().dom().contains((#[trigger] components@[c2])@)
                            && self.module_names()[self.component_owner()[components@[c2]@] as int] == n) by {
                            assert(self.module_names()[idx as int] == self.names@[idx as int]@);
                            if n == self.module_names()[idx as int] {
                                assert(components@[c as int] == components@[c as int]);
                            }
                        }
                    }
                },
                None => {
                    proof {
                        assert forall|n: Seq<char>| #[trigger] has_text(names@, n) <==> (
                        exists|c2: int| 0 <= c2 < c + 1 && self.component_owner().dom().contains((#[trigger] components@[c2])@)
                            && self.module_names()[self.component_owner()[components@[c2]@] as int] == n) by {
                            if exists|c2: int| 0 <= c2 < c + 1 && self.component_owner().dom().contains((#[trigger] components@[c2])@)
                                && self.module_names()[self.component_owner()[components@[c2]@] as int] == n {
                                let c2 = choose|c2: int| 0 <= c2 < c + 1 && self.component_owner().dom().contains((#[trigger] components@[c2])@)
                                    && self.module_names()[self.component_owner()[components@[c2]@] as int] == n;
                                assert(c2 != c);
                            }
                        }
                    }
                },
            }
            c += 1;
        }
        names
    }

    /// Modules that should be able to render, by module name, according to a list of component
    /// names; a later component's entry for a module name replaces an earlier one
    pub fn get_modules_for_rendering(&self, names: &Vec<String>) -> (r: KeyedList<String, usize>)
        ensures
            r.map() == rendering_for(names_view(names@), self.rendering()),
    {
        let mut r: KeyedList<String, usize> = KeyedList::new();
        let mut i: usize = 0;
        while i < names.len()
            invariant
                i <= names@.len(),
                r.map() == rendering_for(names_view(names@).take(i as int), self.rendering()),
            decreases names@.len() - i,
        {
            proof {
                assert(names_view(names@).take(i + 1).drop_last() =~= names_view(names@).take(i as int));
            }
            let ghost prev = r.map();
            match self.rendering_map.get(&names[i]) {
                Some(inner) => {
                    inner.lemma_wf();
                    let n = inner.len();
                    let mut k: usize = 0;
                    while k < n
                        invariant
                            n == inner.entries().len(),
                            k <= n,
                            r.map() == prev.union_prefer_right(entries_map(inner.entries().take(k as int))),
                        decreases n - k,
                    {
                        proof {
                            lemma_entries_map_prefix(inner.entries(), k as int);
                        }
                        let key = inner.key_at(k).key_copy();
                        let value = *inner.value_at(k);
                        r.insert(key, value);
                        proof {
                            assert(r.map() =~= prev.union_prefer_right(entries_map(inner.entries().take(k + 1))));
                        }
                        k += 1;
                    }
                    proof {
                        assert(inner.entries().take(n as int) =~= inner.entries());
                        assert(self.rendering()[names@[i as int]@] == inner.map());
                    }
                },
                None => {},
            }
            i += 1;
        }
        proof {
            assert(names_view(names@).take(names@.len() as int) =~= names_view(names@));
        }
        r
    }

    /// Components that the named module declares, if there is a module of that name
    pub fn get_components_of_module(&self, module_name: &str) -> (r: Option<Vec<(String, ComponentDefinition)>>)
        ensures
            r is Some <==> self.module_index().dom().contains(module_name@),
            r is Some && self.modules()[self.module_index()[module_name@] as int].obeys_module_spec()
                ==> r->0@ == self.modules()[self.module_index()[module_name@] as int].components_spec(),
    {
        match self.get_module(module_name) {
            Some(i) => Some(self.modules[i].components()),
            None => None,
        }
    }

    /// Names of all modules, each once, in the order their names were first added
    pub fn get_module_list(&self) -> (names: Vec<String>)
        ensures
            forall|n: Seq<char>| self.module_index().dom().contains(n) <==> exists|i: int|
                0 <= i < names@.len() && (#[trigger] names@[i])@ == n,
            names@.len() == self.module_index().dom().len(),
            names_view(names@) == self.module_list(),
            self.module_list().no_duplicates(),
    {
        self.module_map.lemma_wf();
        let names = self.module_map.keys();
        proof {
            assert(names_view(names@) =~= self.module_list()) by {
                self.module_map.lemma_key_order(0);
                assert forall|i: int| 0 <= i < names@.len() implies names_view(names@)[i] == self.module_list()[i] by {
                    self.module_map.lemma_key_order(i);
                    assert(names@[i] == self.module_map.entries()[i].0);
                }
            }
            assert forall|i: int, j: int| 0 <= i < self.module_list().len() && 0 <= j < self.module_list().len() && i != j
                implies self.module_list()[i] != self.module_list()[j] by {
                self.module_map.lemma_key_order(i);
                self.module_map.lemma_key_order(j);
            }
            assert forall|n: Seq<char>| self.module_index().dom().contains(n) <==> exists|i: int|
                0 <= i < names@.len() && (#[trigger] names@[i])@ == n by {
                if self.module_index().dom().contains(n) {
                    let i = choose|i: int| 0 <= i < self.module_map.entries().len() && (
                    #[trigger] self.module_map.entries()[i]).0.key_view() == n;
                    assert(names@[i] == self.module_map.entries()[i].0);
                }
                if exists|i: int| 0 <= i < names@.len() && (#[trigger] names@[i])@ == n {
                    let i = choose|i: int| 0 <= i < names@.len() && (#[trigger] names@[i])@ == n;
                    assert(names@[i] == self.module_map.entries()[i].0);
                }
            }
        }
        names
    }

    /// Names of the modules listening for any of the components, sorted, each name once
    pub fn get_modules_for_components(&self, components: &Vec<String>) -> (names: Vec<String>)
        ensures
            forall|n: Seq<char>| #[trigger] has_text(names@, n) <==> (
            exists|c: int, k: int| #![trigger components@[c], self.listeners()[components@[c]@][k]]
                0 <= c < components@.len() && self.listeners().dom().contains(components@[c]@) && 0 <= k
                    < self.listeners()[components@[c]@].len() && self.module_names()[self.listeners()[components@[c]@][k] as int] == n),
            forall|i: int, j: int| 0 <= i < j < names@.len() ==> seq_lt((#[trigger] names@[i])@, (#[trigger] names@[j])@),
    {
        proof {
            use_type_invariant(self);
        }
        let mut names: Vec<String> = Vec::new();
        let mut c: usize = 0;
        while c < components.len()
            invariant
                c <= components@.len(),
                forall|i: int, j: int| 0 <= i < j < names@.len() ==> seq_lt((#[trigger] names@[i])@, (#[trigger] names@[j])@),
                forall|n: Seq<char>| #[trigger] has_text(names@, n) <==> (
                exists|c2: int, k: int| #![trigger components@[c2], self.listeners()[components@[c2]@][k]]
                    0 <= c2 < c && self.listeners().dom().contains(components@[c2]@) && 0 <= k
                        < self.listeners()[components@[c2]@].len() && self.module_names()[self.listeners()[components@[c2]@][k] as int] == n),
            decreases components@.len() - c,
        {
            match self.listener_map.get(&components[c]) {
                Some(list) => {
                    let mut k: usize = 0;
                    while k < list.len()
                        invariant
                            c < components@.len(),
                            self.listeners().dom().contains(components@[c as int]@),
                            self.listeners()[components@[c as int]@] == list@,
                            k <= list@.len(),
                            forall|i: int, j: int| 0 <= i < j < names@.len() ==> seq_lt((#[trigger] names@[i])@, (#[trigger] names@[j])@),
                            forall|n: Seq<char>| #[trigger] has_text(names@, n) <==> (
                            (exists|c2: int, k2: int| #![trigger components@[c2], self.listeners()[components@[c2]@][k2]]
                                0 <= c2 < c && self.listeners().dom().contains(components@[c2]@) && 0 <= k2
                                    < self.listeners()[components@[c2]@].len() && self.module_names()[self.listeners()[components@[c2]@][k2] as int] == n)
                            || (exists|k2: int| 0 <= k2 < k && self.module_names()[(#[trigger] list@[k2]) as int] == n)),
                        decreases list@.len() - k,
                    {
                        let idx = list[k];
                        proof {
                            use_type_invariant(self);
                            assert(self.listeners()[components@[c as int]@][k as int] == idx);
                            assert(self.listener_map.map()[components@[c as int]@]@ == list@);
                        }
                        let name = self.names[idx].key_copy();
                        let ghost before = names@;
                        insert_sorted_unique(&mut names, name);
                        proof {
                            assert forall|n: Seq<char>| #[trigger] has_text(names@, n) <==> (
                            (exists|c2: int, k2: int| #![trigger components@[c2], self.listeners()[components@[c2]@][k2]]
                                0 <= c2 < c && self.listeners().dom().contains(components@[c2]@) && 0 <= k2
                                    < self.listeners()[components@[c2]@].len() && self.module_names()[self.listeners()[components@[c2]@][k2] as int] == n)
                            || (exists|k2: int| 0 <= k2 < k + 1 && self.module_names()[(#[trigger] list@[k2]) as int] == n)) by {
                                if self.module_names()[idx as int] == n {
                                    assert(list@[k as int] == idx);
                                }
                                if exists|k2: int| 0 <= k2 < k + 1 && self.module_names()[(#[trigger] list@[k2]) as int] == n {
                                    let k2 = choose|k2: int| 0 <= k2 < k + 1 && self.module_names()[(#[trigger] list@[k2]) as int] == n;
                                    if k2 < k {
                                    } else {
                                        assert(self.module_names()[idx as int] == self.names@[idx as int]@);
                                    }
                                }
                            }
                        }
                        k += 1;
                    }
                    proof {
                        assert forall|n: Seq<char>| #[trigger] has_text(names@, n) <==> (
                        exists|c2: int, k2: int| #![trigger components@[c2], self.listeners()[components@[c2]@][k2]]
                            0 <= c2 < c + 1 && self.listeners().dom().contains(components@[c2]@) && 0 <= k2
                                < self.listeners()[components@[c2]@].len() && self.module_names()[self.listeners()[components@[c2]@][k2] as int] == n) by {
                            if exists|k2: int| 0 <= k2 < list@.len() && self.module_names()[(#[trigger] list@[k2]) as int] == n {
                                let k2 = choose|k2: int| 0 <= k2 < list@.len() && self.module_names()[(#[trigger] list@[k2]) as int] == n;
                                assert(self.listeners()[components@[c as int]@][k2] == list@[k2]);
                            }
                            if exists|c2: int, k2: int| #![trigger components@[c2], self.listeners()[components@[c2]@][k2]]
                                0 <= c2 < c + 1 && self.listeners().dom().contains(components@[c2]@) && 0 <= k2
                                    < self.listeners()[components@[c2]@].len() && self.module_names()[self.listeners()[components@[c2]@][k2] as int] == n {
                                let (c2, k2) = choose|c2: int, k2: int| #![trigger components@[c2], self.listeners()[components@[c2]@][k2]]
                                    0 <= c2 < c + 1 && self.listeners().dom().contains(components@[c2]@) && 0 <= k2
                                        < self.listeners()[components@[c2]@].len() && self.module_names()[self.listeners()[components@[c2]@][k2] as int] == n;
                                if c2 == c {
                                    assert(list@[k2] == self.listeners()[components@[c2]@][k2]);
                                }
                            }
                        }
                    }
                },
                None => {
                    proof {
                        assert forall|n: Seq<char>| #[trigger] has_text(names@, n) <==> (
                        exists|c2: int, k2: int| #![trigger components@[c2], self.listeners()[components@[c2]@][k2]]
                            0 <= c2 < c + 1 && self.listeners().dom().contains(components@[c2]@) && 0 <= k2
                                < self.listeners()[components@[c2]@].len() && self.module_names()[self.listeners()[components@[c2]@][k2] as int] == n) by {
                            if exists|c2: int, k2: int| #![trigger components@[c2], self.listeners()[components@[c2]@][k2]]
                                0 <= c2 < c + 1 && self.listeners().dom().contains(components@[c2]@) && 0 <= k2
                                    < self.listeners()[components@[c2]@].len() && self.module_names()[self.listeners()[components@[c2]@][k2] as int] == n {
                                let (c2, k2) = choose|c2: int, k2: int| #![trigger components@[c2], self.listeners()[components@[c2]@][k2]]
                                    0 <= c2 < c + 1 && self.listeners().dom().contains(components@[c2]@) && 0 <= k2
                                        < self.listeners()[components@[c2]@].len() && self.module_names()[self.listeners()[components@[c2]@][k2] as int] == n;
                                assert(c2 != c);
                            }
                        }
                    }
                },
            }
            c += 1;
        }
        names
    }
}

/// A module that was just added is found by its name at the index it was given; the other
/// names keep the modules they had.
pub proof fn law_added_module_found(index: Map<Seq<char>, usize>, name: Seq<char>, i: usize, other: Seq<char>)
    requires
        other != name,
    ensures
        index.insert(name, i).dom().contains(name),
        index.insert(name, i)[name] == i,
        index.insert(name, i).dom().contains(other) == index.dom().contains(other),
        index.dom().contains(other) ==> index.insert(name, i)[other] == index[other],
{
}

/// A module that can render is registered under its name, with its index, for every component
/// it listens for, and stays registered for every component that had renderers before.
pub proof fn law_render_all_registers(m: Map<Seq<char>, Map<Seq<char>, usize>>, components: Seq<Seq<char>>, name: Seq<char>, v: usize)
    ensures
        forall|k: int| 0 <= k < components.len() ==> render_all(m, components, name, v).dom().contains(#[trigger] components[k])
            && render_all(m, components, name, v)[components[k]].dom().contains(name)
            && render_all(m, components, name, v)[components[k]][name] == v,
        forall|c: Seq<char>| #[trigger] m.dom().contains(c) ==> render_all(m, components, name, v).dom().contains(c),
    decreases components.len(),
{
    if components.len() > 0 {
        let p = components.drop_last();
        law_render_all_registers(m, p, name, v);
        assert forall|k: int| 0 <= k < components.len() implies render_all(m, components, name, v).dom().contains(#[trigger] components[k])
            && render_all(m, components, name, v)[components[k]].dom().contains(name)
            && render_all(m, components, name, v)[components[k]][name] == v by {
            if k < components.len() - 1 {
                assert(p[k] == components[k]);
            }
        }
    }
}

/// Inserts a name into a strictly sorted list unless it is already there.
pub fn insert_sorted_unique(names: &mut Vec<String>, name: String)
    requires
        forall|i: int, j: int| 0 <= i < j < old(names)@.len() ==> seq_lt((#[trigger] old(names)@[i])@, (#[trigger] old(names)@[j])@),
    ensures
        forall|i: int, j: int| 0 <= i < j < final(names)@.len() ==> seq_lt((#[trigger] final(names)@[i])@, (#[trigger] final(names)@[j])@),
        forall|n: Seq<char>| #[trigger] has_text(final(names)@, n) <==> (n == name@ || has_text(old(names)@, n)),
{
    let ghost old_names = names@;
    let mut i: usize = 0;
    let mut found = false;
    while i < names.len()
        invariant_except_break
            !found,
        invariant
            i <= names@.len(),
            names@ == old_names,
            forall|j: int| 0 <= j < i ==> seq_lt((#[trigger] names@[j])@, name@),
        ensures
            i <= names@.len(),
            names@ == old_names,
            forall|j: int| 0 <= j < i ==> seq_lt((#[trigger] names@[j])@, name@),
            found ==> i < names@.len() && names@[i as int]@ == name@,
            !found ==> (i == names@.len() || seq_lt(name@, names@[i as int]@)),
        decreases names@.len() - i,
    {
        if str_eq(names[i].as_str(), name.as_str()) {
            found = true;
            break;
        }
        if str_lt(name.as_str(), names[i].as_str()) {
            break;
        }
        proof {
            crate::text::lemma_seq_lt_total(names@[i as int]@, name@);
        }
        i += 1;
    }
    if found {
        assert(has_text(names@, name@));
        assert(names@ == old(names)@);
    } else {
        let ghost at = i as int;
        names.insert(i, name);
        proof {
            assert forall|a: int, b: int| 0 <= a < b < names@.len() implies seq_lt((#[trigger] names@[a])@, (#[trigger] names@[b])@) by {
                if b < at {
                    assert(names@[a] == old_names[a] && names@[b] == old_names[b]);
                } else if b == at {
                    assert(names@[a] == old_names[a]);
                } else if a < at {
                    assert(names@[a] == old_names[a] && names@[b] == old_names[b - 1]);
                    if b - 1 > at {
                        crate::text::lemma_seq_lt_transitive(name@, old_names[at]@, old_names[b - 1]@);
                    }
                    crate::text::lemma_seq_lt_transitive(old_names[a]@, name@, old_names[b - 1]@);
                } else if a == at {
                    assert(names@[b] == old_names[b - 1]);
                    if b - 1 > at {
                        crate::text::lemma_seq_lt_transitive(name@, old_names[at]@, old_names[b - 1]@);
                    }
                } else {
                    assert(names@[a] == old_names[a - 1] && names@[b] == old_names[b - 1]);
                }
            }
            assert forall|n: Seq<char>| #[trigger] has_text(names@, n) <==> (n == name@ || has_text(old_names, n)) by {
                if exists|k: int| 0 <= k < names@.len() && (#[trigger] names@[k])@ == n {
                    let k = choose|k: int| 0 <= k < names@.len() && (#[trigger] names@[k])@ == n;
                    if k < at {
                        assert(names@[k] == old_names[k]);
                    } else if k > at {
                        assert(names@[k] == old_names[k - 1]);
                    }
                }
                if n == name@ {
                    assert(names@[at] == name);
                } else if exists|k: int| 0 <= k < old_names.len() && (#[trigger] old_names[k])@ == n {
                    let k = choose|k: int| 0 <= k < old_names.len() && (#[trigger] old_names[k])@ == n;
                    if k < at {
                        assert(names@[k] == old_names[k]);
                    } else {
                        assert(names@[k + 1] == old_names[k]);
                    }
                }
            }
        }
    }
}

} // verus!
