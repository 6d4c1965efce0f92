//! What plugins hand to the daemon while they initialize: socket listeners and renderers,
//! collected in order until the daemon loads them.

use vstd::prelude::*;
use crate::features::{check_versions, compare_plugin_versions, matches_check, supported_feature_views, PluginError, PluginMetadata};
use crate::modules::{assign_all, component_names, ModuleManager, SDModule};

verus! {

/// Collects the socket listeners that a plugin adds during initialization
pub struct PluginSocketManager<L> {
    listeners: Vec<L>,
}

impl<L> PluginSocketManager<L> {
    /// The listeners added so far, in order
    pub closed spec fn added(&self) -> Seq<L> {
        self.listeners@
    }

    /// A manager with no listeners added
    pub fn new() -> (r: Self)
        ensures
            r.added().len() == 0,
    {
        PluginSocketManager { listeners: Vec::new() }
    }

    /// Add listener to daemon
    pub fn add_listener(&mut self, listener: L)
        ensures
            final(self).added() == old(self).added().push(listener),
    {
        self.listeners.push(listener);
    }

    /// Hands the added listeners over to be loaded into the socket manager, in order
    pub fn load_listeners(self) -> (r: Vec<L>)
        ensures
            r@ == self.added(),
    {
        self.listeners
    }
}

/// Collects the renderers that a plugin adds during initialization
pub struct PluginRenderingManager<R> {
    renderers: Vec<R>,
}

impl<R> PluginRenderingManager<R> {
    /// The renderers added so far, in order
    pub closed spec fn added(&self) -> Seq<R> {
        self.renderers@
    }

    /// A manager with no renderers added
    pub fn new() -> (r: Self)
        ensures
            r.added().len() == 0,
    {
        PluginRenderingManager { renderers: Vec::new() }
    }

    /// Add renderer to daemon
    pub fn add_renderer(&mut self, renderer: R)
        ensures
            final(self).added() == old(self).added().push(renderer),
    {
        self.renderers.push(renderer);
    }

    /// Hands the added renderers over to be loaded into the rendering manager, in order
    pub fn load_renderers(self) -> (r: Vec<R>)
        ensures
            r@ == self.added(),
    {
        self.renderers
    }
}

/// Whether every module keeps to the module spec
pub open spec fn all_obey<M: SDModule>(ms: Seq<M>) -> bool {
    forall|i: int| 0 <= i < ms.len() ==> #[trigger] ms[i].obeys_module_spec()
}

/// The components owned after the modules are added in order, starting from `owned`
pub open spec fn owned_after<M: SDModule>(owned: Set<Seq<char>>, ms: Seq<M>) -> Set<Seq<char>>
    decreases ms.len(),
{
    if ms.len() == 0 {
        owned
    } else {
        owned_after(owned, ms.drop_last()) + component_names(ms.last().components_spec()).to_set()
    }
}

/// Whether a module declares a component that is already owned
pub open spec fn conflicts<M: SDModule>(owned: Set<Seq<char>>, m: M) -> bool {
    exists|i: int| 0 <= i < m.components_spec().len() && owned.contains(#[trigger] component_names(m.components_spec())[i])
}

/// Whether component `i` of a module is the first it declares that is already owned
pub open spec fn first_owned<M: SDModule>(owned: Set<Seq<char>>, m: M, i: int) -> bool {
    &&& 0 <= i < m.components_spec().len()
    &&& owned.contains(component_names(m.components_spec())[i])
    &&& forall|j: int| 0 <= j < i ==> !owned.contains(#[trigger] component_names(m.components_spec())[j])
}

/// Whether none of the first `k` modules declares a component owned when it is added
pub open spec fn none_conflict_before<M: SDModule>(owned: Set<Seq<char>>, ms: Seq<M>, k: int) -> bool {
    forall|j: int| 0 <= j < k ==> !conflicts(owned_after(owned, ms.take(j)), #[trigger] ms[j])
}

/// The components a name list gives owners to are added to the owned ones.
proof fn lemma_assign_all_dom(m: Map<Seq<char>, usize>, names: Seq<Seq<char>>, v: usize)
    ensures
        assign_all(m, names, v).dom() == m.dom() + names.to_set(),
    decreases names.len(),
{
    if names.len() > 0 {
        lemma_assign_all_dom(m, names.drop_last(), v);
        assert(names.to_set() =~= names.drop_last().to_set().insert(names.last())) by {
            assert forall|x: Seq<char>| names.to_set().contains(x) implies names.drop_last().to_set().insert(names.last()).contains(x) by {
                let i = choose|i: int| 0 <= i < names.len() && names[i] == x;
                if i < names.len() - 1 {
                    assert(names.drop_last()[i] == x);
                }
            }
            assert forall|x: Seq<char>| names.drop_last().to_set().insert(names.last()).contains(x) implies names.to_set().contains(x) by {
                if x != names.last() {
                    let i = choose|i: int| 0 <= i < names.drop_last().len() && names.drop_last()[i] == x;
                    assert(names[i] == x);
                } else {
                    assert(names[names.len() - 1] == x);
                }
            }
        }
        assert(assign_all(m, names, v).dom() =~= m.dom() + names.to_set());
    } else {
        assert(names.to_set() =~= Set::<Seq<char>>::empty());
        assert(assign_all(m, names, v).dom() =~= m.dom() + names.to_set());
    }
}

/// Adding a module that declares no owned component extends the owned components by its own,
/// and the modules before it still declared none.
proof fn lemma_load_step<M: SDModule>(
    owned0: Set<Seq<char>>,
    added: Seq<M>,
    k: int,
    old_owner: Map<Seq<char>, usize>,
    index: usize,
    new_owner: Map<Seq<char>, usize>,
)
    requires
        all_obey(added),
        0 <= k < added.len(),
        old_owner.dom() == owned_after(owned0, added.take(k)),
        none_conflict_before(owned0, added, k),
        !conflicts(old_owner.dom(), added[k]),
        new_owner == assign_all(old_owner, component_names(added[k].components_spec()), index),
    ensures
        new_owner.dom() == owned_after(owned0, added.take(k + 1)),
        none_conflict_before(owned0, added, k + 1),
{
    lemma_assign_all_dom(old_owner, component_names(added[k].components_spec()), index);
    assert(added.take(k + 1).drop_last() =~= added.take(k));
    assert(added.take(k + 1).last() == added[k]);
    assert(new_owner.dom() =~= owned_after(owned0, added.take(k + 1)));
}

/// Collects the modules that a plugin registers during initialization
pub struct PluginModuleManager<M> {
    modules: Vec<M>,
}

impl<M: SDModule> PluginModuleManager<M> {
    /// The modules registered so far, in order
    pub closed spec fn added(&self) -> Seq<M> {
        self.modules@
    }

    /// A manager with no modules registered
    pub fn new() -> (r: Self)
        ensures
            r.added().len() == 0,
    {
        PluginModuleManager { modules: Vec::new() }
    }

    /// Adds a new module to be used with core
    pub fn add_module(&mut self, module: M)
        ensures
            final(self).added() == old(self).added().push(module),
    {
        self.modules.push(module);
    }

    /// Loads the registered modules into the module manager, in order. A plugin that
    /// registered none is refused; loading stops at the first module that declares a component
    /// that some module already declared, and the modules before it stay loaded.
    pub fn load_modules(self, manager: &mut ModuleManager<M>) -> (r: Result<(), PluginError>)
        requires
            old(manager).modules().len() + self.added().len() < usize::MAX,
        ensures
            r matches Err(PluginError::NoModulesFound) <==> self.added().len() == 0,
            self.added().len() == 0 ==> final(manager).modules() == old(manager).modules(),
            r is Ok ==> final(manager).modules() == old(manager).modules() + self.added(),
            r is Ok || r matches Err(PluginError::NoModulesFound) || r matches Err(PluginError::ComponentConflict(_, _)),
            r matches Err(PluginError::ComponentConflict(_, c)) ==> final(manager).component_owner().dom().contains(c@)
                && exists|k: int| 0 <= k < self.added().len() && final(manager).modules() == old(manager).modules() + self.added().take(k),
            all_obey(self.added()) ==> (r is Ok <==> self.added().len() > 0 && none_conflict_before(
                old(manager).component_owner().dom(), self.added(), self.added().len() as int)),
            all_obey(self.added()) ==> match r {
                Err(PluginError::ComponentConflict(m, c)) => exists|k: int, i: int|
                    #![trigger self.added()[k], first_owned(owned_after(old(manager).component_owner().dom(), self.added().take(k)), self.added()[k], i)]
                    0 <= k < self.added().len()
                    && none_conflict_before(old(manager).component_owner().dom(), self.added(), k)
                    && first_owned(owned_after(old(manager).component_owner().dom(), self.added().take(k)), self.added()[k], i)
                    && m@ == self.added()[k].name_spec()
                    && c@ == component_names(self.added()[k].components_spec())[i]
                    && final(manager).modules() == old(manager).modules() + self.added().take(k),
                _ => true,
            },
    {
        let ghost owned0 = manager.component_owner().dom();
        let ghost added = self.modules@;
        if self.modules.len() == 0 {
            return Err(PluginError::NoModulesFound);
        }
        let mut rest = self.modules;
        let mut reversed: Vec<M> = Vec::new();
        while rest.len() > 0
            invariant
                rest@.len() + reversed@.len() == added.len(),
                rest@ == added.take(rest@.len() as int),
                forall|i: int| 0 <= i < reversed@.len() ==> #[trigger] reversed@[i] == added[added.len() - 1 - i],
            decreases rest@.len(),
        {
            let n = rest.len();
            let m = rest.pop().unwrap();
            proof {
                assert(added.take(n as int).drop_last() =~= added.take(n - 1));
            }
            reversed.push(m);
        }
        let mut k: usize = 0;
        while reversed.len() > 0
            invariant
                k + reversed@.len() == added.len(),
                forall|i: int| 0 <= i < reversed@.len() ==> #[trigger] reversed@[i] == added[added.len() - 1 - i],
                manager.modules() == old(manager).modules() + added.take(k as int),
                old(manager).modules().len() + added.len() < usize::MAX,
                added == self.added(),
                owned0 == old(manager).component_owner().dom(),
                all_obey(added) ==> manager.component_owner().dom() == owned_after(owned0, added.take(k as int)),
                all_obey(added) ==> none_conflict_before(owned0, added, k as int),
            decreases reversed@.len(),
        {
            let module = reversed.pop().unwrap();
            assert(module == added[k as int]);
            let components = module.components();
            let ghost owned = manager.component_owner().dom();
            let mut j: usize = 0;
            while j < components.len()
                invariant
                    j <= components@.len(),
                    added == self.added(),
                    0 <= k < added.len(),
                    module == added[k as int],
                    owned == manager.component_owner().dom(),
                    manager.modules() == old(manager).modules() + added.take(k as int),
                    module.obeys_module_spec() ==> components@ == module.components_spec(),
                    all_obey(added) ==> owned == owned_after(owned0, added.take(k as int)),
                    all_obey(added) ==> none_conflict_before(owned0, added, k as int),
                    owned0 == old(manager).component_owner().dom(),
                    forall|jj: int| 0 <= jj < j ==> !owned.contains(#[trigger] component_names(components@)[jj]),
                decreases components@.len() - j,
            {
                match manager.get_component(components[j].0.as_str()) {
                    Some(_) => {
                        let module_name = module.name();
                        let component_name = crate::text::to_owned(components[j].0.as_str());
                        proof {
                            assert(component_names(components@)[j as int] == components@[j as int].0@);
                            if all_obey(added) {
                                assert(added[k as int].obeys_module_spec());
                                assert(first_owned(owned_after(owned0, added.take(k as int)), added[k as int], j as int));
                                assert(conflicts(owned_after(owned0, added.take(k as int)), added[k as int]));
                                assert(!none_conflict_before(owned0, added, added.len() as int));
                                assert(module_name@ == added[k as int].name_spec());
                                assert(component_name@ == component_names(added[k as int].components_spec())[j as int]);
                            }
                        }
                        return Err(PluginError::ComponentConflict(module_name, component_name));
                    },
                    None => {},
                }
                j += 1;
            }
            let ghost old_owner = manager.component_owner();
            let ghost index = manager.modules().len();
            manager.add_module(module);
            proof {
                assert(added.take(k + 1) =~= added.take(k as int).push(added[k as int]));
                if all_obey(added) {
                    assert(added[k as int].obeys_module_spec());
                    assert(!conflicts(old_owner.dom(), added[k as int])) by {
                        if conflicts(old_owner.dom(), added[k as int]) {
                            let i = choose|i: int| 0 <= i < added[k as int].components_spec().len()
                                && old_owner.dom().contains(#[trigger] component_names(added[k as int].components_spec())[i]);
                            assert(!owned.contains(component_names(components@)[i]));
                        }
                    }
                    lemma_load_step(owned0, added, k as int, old_owner, index as usize, manager.component_owner());
                }
            }
            k += 1;
        }
        proof {
            assert(added.take(k as int) =~= added);
        }
        Ok(())
    }
}

/// Decides whether a plugin can be loaded, before its modules are: where the config asks for
/// compatibility checks, its features must be supported in the same versions; and no module
/// may already go by the plugin's name
pub fn check_plugin<M: SDModule>(manager: &ModuleManager<M>, metadata: &PluginMetadata, compatibility_checks: bool) -> (r: Result<(), PluginError>)
    ensures
        compatibility_checks && !(check_versions(metadata.used_features@, supported_feature_views()) is Compatible)
            ==> matches_check(r, check_versions(metadata.used_features@, supported_feature_views())),
        (!compatibility_checks || check_versions(metadata.used_features@, supported_feature_views()) is Compatible)
            ==> (if manager.module_index().dom().contains(metadata.name@) {
                r matches Err(PluginError::AlreadyExists(n)) && n@ == metadata.name@
            } else {
                r is Ok
            }),
{
    if compatibility_checks {
        let checked = compare_plugin_versions(&metadata.used_features);
        if checked.is_err() {
            return checked;
        }
    }
    match manager.get_module(metadata.name.as_str()) {
        Some(_) => Err(PluginError::AlreadyExists(crate::text::to_owned(metadata.name.as_str()))),
        None => Ok(()),
    }
}

} // verus!
