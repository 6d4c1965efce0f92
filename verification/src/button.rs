//! Buttons: a button is the set of components placed on it, each with its JSON value.

use vstd::prelude::*;
use serde_json::Value;
use crate::keyed::{KeyedList, MapKey};
use crate::text::to_owned;

verus! {

/// JSON values of components and panel data are carried through without being read.
#[verifier::external_type_specification]
#[verifier::external_body]
pub struct ExJsonValue(serde_json::Value);

/// `serde_json::Value::clone`: the derived clone copies the whole tree, so the copy is the
/// same value.
#[verifier::external_body]
pub fn clone_value(v: &Value) -> (r: Value)
    ensures
        r == *v,
{
    v.clone()
}

/// Whether a JSON value is null, as `Value::is_null` tells.
pub uninterp spec fn json_is_null(v: Value) -> bool;

/// `Value::Null`: the null JSON value, which `Value::is_null` documents as null.
#[verifier::external_body]
pub(crate) fn null_value() -> (r: Value)
    ensures
        json_is_null(r),
{
    Value::Null
}

/// Button definition: the components of the button, each under its name.
pub struct Button {
    components: KeyedList<String, Value>,
}

impl View for Button {
    type V = Map<Seq<char>, Value>;

    closed spec fn view(&self) -> Map<Seq<char>, Value> {
        self.components.map()
    }
}

/// Component trait, simply provides name for component generic methods
pub trait Component {
    const NAME: &'static str;
}

/// Parse error used for functions in this module
#[derive(Debug)]
pub enum ParseError {
    /// The button has no component of that name
    Missing,
    /// The component value could not be read as the component
    JSONError(String),
}

impl Button {
    /// Creates a new empty button
    pub fn new() -> (r: Button)
        ensures
            r@ == Map::<Seq<char>, Value>::empty(),
    {
        Button { components: KeyedList::new() }
    }

    /// Inserts a component value under its name, giving back the value it replaced
    pub fn insert_component(&mut self, name: String, value: Value) -> (previous: Option<Value>)
        ensures
            final(self)@ == old(self)@.insert(name@, value),
            match previous {
                Some(v) => old(self)@.dom().contains(name@) && v == old(self)@[name@],
                None => !old(self)@.dom().contains(name@),
            },
    {
        self.components.insert(name, value)
    }

    /// Removes component of provided name from the button
    pub fn remove_component(&mut self, name: &str) -> (removed: Option<Value>)
        ensures
            final(self)@ == old(self)@.remove(name@),
            match removed {
                Some(v) => old(self)@.dom().contains(name@) && v == old(self)@[name@],
                None => !old(self)@.dom().contains(name@),
            },
    {
        let key = to_owned(name);
        self.components.remove(&key)
    }

    /// Returns list of components in the button, each name once
    pub fn component_names(&self) -> (names: Vec<String>)
        ensures
            names@.len() == self@.dom().len(),
            forall|i: int| 0 <= i < names@.len() ==> self@.dom().contains(#[trigger] names@[i]@),
            forall|n: Seq<char>| self@.dom().contains(n) ==> exists|i: int|
                0 <= i < names@.len() && (#[trigger] names@[i])@ == n,
            forall|i: int, j: int|
                0 <= i < names@.len() && 0 <= j < names@.len() && i != j ==> (#[trigger] names@[i])@
                    != (#[trigger] names@[j])@,
    {
        self.components.lemma_wf();
        let names = self.components.keys();
        proof {
            assert forall|i: int| 0 <= i < names@.len() implies self@.dom().contains(
                #[trigger] names@[i]@) by {
                assert(names@[i] == self.components.entries()[i].0);
            }
            assert forall|n: Seq<char>| self@.dom().contains(n) implies exists|i: int|
                0 <= i < names@.len() && (#[trigger] names@[i])@ == n by {
                let i = choose|i: int|
                    0 <= i < self.components.entries().len() && (
                    #[trigger] self.components.entries()[i]).0.key_view() == n;
                assert(names@[i] == self.components.entries()[i].0);
            }
            assert forall|i: int, j: int|
                0 <= i < names@.len() && 0 <= j < names@.len() && i != j implies (
                #[trigger] names@[i])@ != (#[trigger] names@[j])@ by {
                assert(names@[i] == self.components.entries()[i].0);
                assert(names@[j] == self.components.entries()[j].0);
            }
        }
        names
    }

    /// Checks if button contains specified component name
    pub fn contains(&self, name: &str) -> (r: bool)
        ensures
            r == self@.dom().contains(name@),
    {
        let key = to_owned(name);
        self.components.contains_key(&key)
    }

    /// Value of the component with the given name
    pub fn get_component(&self, name: &str) -> (r: Option<&Value>)
        ensures
            match r {
                Some(v) => self@.dom().contains(name@) && *v == self@[name@],
                None => !self@.dom().contains(name@),
            },
    {
        let key = to_owned(name);
        self.components.get(&key)
    }

    /// A button with the same components and values
    pub fn duplicate(&self) -> (r: Button)
        ensures
            r@ == self@,
    {
        self.components.lemma_wf();
        let mut copy: KeyedList<String, Value> = KeyedList::new();
        let n = self.components.len();
        let mut i: usize = 0;
        proof {
            assert(self.components.entries().take(0) =~= Seq::<(String, Value)>::empty());
        }
        while i < n
            invariant
                n == self.components.entries().len(),
                i <= n,
                copy.map() == crate::keyed::entries_map(self.components.entries().take(i as int)),
            decreases n - i,
        {
            let k = self.components.key_at(i).key_copy();
            let v = clone_value(self.components.value_at(i));
            copy.insert(k, v);
            proof {
                crate::keyed::lemma_entries_map_prefix(self.components.entries(), i as int);
            }
            i += 1;
        }
        proof {
            assert(self.components.entries().take(n as int) =~= self.components.entries());
        }
        Button { components: copy }
    }
}

} // verus!
