//! Which events a listener listens for.

use vstd::prelude::*;

verus! {

/// Specifies which events a listener is listening to; event types are told apart by number
#[derive(Debug)]
pub enum ListensFor {
    /// Listens to any events
    Any,
    /// Listens to a single specific event
    Specific(u64),
    /// Listens to a list of events
    Multiple(Vec<u64>),
}

/// Whether a listener listens for events of the type.
pub open spec fn listens(l: ListensFor, ty: u64) -> bool {
    match l {
        ListensFor::Any => true,
        ListensFor::Specific(t) => t == ty,
        ListensFor::Multiple(list) => list@.contains(ty),
    }
}

impl ListensFor {
    /// Checks if the listener listens for events of the type
    pub fn listens_for(&self, ty: u64) -> (r: bool)
        ensures
            r == listens(*self, ty),
    {
        match self {
            ListensFor::Any => true,
            ListensFor::Specific(t) => *t == ty,
            ListensFor::Multiple(list) => {
                let mut i: usize = 0;
                while i < list.len()
                    invariant
                        i <= list@.len(),
                        listens(*self, ty) == list@.contains(ty),
                        forall|j: int| 0 <= j < i ==> list@[j] != ty,
                    decreases list@.len() - i,
                {
                    if list[i] == ty {
                        assert(list@[i as int] == ty);
                        return true;
                    }
                    i += 1;
                }
                false
            },
        }
    }
}

/// Result of action invocation
#[derive(Debug)]
pub enum ActionResult {
    /// Action was executed successfully
    Success,
    /// Action was executed successfully, and the success should be reported to the user as an icon
    VisibleSuccess,
    /// Action failed to execute, failure gets reported to the user as an icon
    Failure,
    /// Error occured while trying to execute the action, with its description
    Error(String),
}

/// The entries of a list for which the flag at the same position is set, in order.
pub open spec fn kept<T>(s: Seq<T>, alive: Seq<bool>) -> Seq<T>
    decreases s.len(),
{
    if s.len() == 0 {
        Seq::empty()
    } else if alive[s.len() - 1] {
        kept(s.drop_last(), alive).push(s.last())
    } else {
        kept(s.drop_last(), alive)
    }
}

/// Positions of the listeners that listen for events of the type, in order.
pub open spec fn matching<L>(s: Seq<(ListensFor, L)>, ty: u64) -> Seq<usize>
    decreases s.len(),
{
    if s.len() == 0 {
        Seq::empty()
    } else if listens(s.last().0, ty) {
        matching(s.drop_last(), ty).push((s.len() - 1) as usize)
    } else {
        matching(s.drop_last(), ty)
    }
}

/// Event dispatcher: listeners with the events they listen for, in the order they were added.
/// A listener is held by a handle that may outlive it; the dispatcher drops the entries of
/// listeners that are gone before it hands an event out.
pub struct EventDispatcher<L> {
    listeners: Vec<(ListensFor, L)>,
}

impl<L> EventDispatcher<L> {
    /// The listeners with what they listen for, in the order they were added
    pub closed spec fn entries(&self) -> Seq<(ListensFor, L)> {
        self.listeners@
    }

    /// Creates a new dispatcher
    pub fn new() -> (r: Self)
        ensures
            r.entries().len() == 0,
    {
        EventDispatcher { listeners: Vec::new() }
    }

    /// Adds a listener with the events it listens for
    pub fn add_listener_from_weak(&mut self, listens_for: ListensFor, listener: L)
        ensures
            final(self).entries() == old(self).entries().push((listens_for, listener)),
    {
        self.listeners.push((listens_for, listener));
    }

    /// Number of listeners
    pub fn len(&self) -> (r: usize)
        ensures
            r == self.entries().len(),
    {
        self.listeners.len()
    }

    /// The listener at a position
    pub fn listener_at(&self, i: usize) -> (r: &L)
        requires
            i < self.entries().len(),
        ensures
            *r == self.entries()[i as int].1,
    {
        &self.listeners[i].1
    }

    /// Drops the listeners that are gone; `alive` tells, position by position, which are not
    pub fn retain_alive(&mut self, alive: &Vec<bool>)
        requires
            alive@.len() == old(self).entries().len(),
        ensures
            final(self).entries() == kept(old(self).entries(), alive@),
    {
        let mut old_list: Vec<(ListensFor, L)> = Vec::new();
        std::mem::swap(&mut old_list, &mut self.listeners);
        let ghost s = old_list@;
        let mut rest: Vec<(ListensFor, L)> = Vec::new();
        // taken from the back, so that each entry is moved out once
        while old_list.len() > 0
            invariant
                alive@.len() == s.len(),
                old_list@ == s.take(old_list@.len() as int),
                old_list@.len() <= s.len(),
                kept(s, alive@) == kept(old_list@, alive@) + rest@.reverse(),
            decreases old_list@.len(),
        {
            let n = old_list.len();
            let entry = old_list.pop().unwrap();
            proof {
                assert(s.take(n as int).drop_last() =~= s.take(n - 1));
                assert(s.take(n as int).last() == entry);
            }
            if alive[n - 1] {
                let ghost before = rest@;
                rest.push(entry);
                proof {
                    assert(rest@.reverse() =~= seq![entry] + before.reverse());
                }
            }
        }
        let mut kept_list: Vec<(ListensFor, L)> = Vec::new();
        while rest.len() > 0
            invariant
                kept(s, alive@) == kept_list@ + rest@.reverse(),
            decreases rest@.len(),
        {
            let ghost before = rest@;
            let entry = rest.pop().unwrap();
            kept_list.push(entry);
            proof {
                assert(before.reverse() =~= seq![entry] + rest@.reverse());
            }
        }
        self.listeners = kept_list;
        proof {
            assert(kept(s, alive@) =~= self.listeners@);
        }
    }

    /// Positions of the listeners that listen for events of the type, in order
    pub fn matching(&self, ty: u64) -> (r: Vec<usize>)
        ensures
            r@ == matching(self.entries(), ty),
    {
        let mut r: Vec<usize> = Vec::new();
        let mut i: usize = 0;
        while i < self.listeners.len()
            invariant
                i <= self.listeners@.len(),
                r@ == matching(self.listeners@.take(i as int), ty),
            decreases self.listeners@.len() - i,
        {
            proof {
                assert(self.listeners@.take(i + 1).drop_last() =~= self.listeners@.take(i as int));
            }
            if self.listeners[i].0.listens_for(ty) {
                r.push(i);
            }
            i += 1;
        }
        proof {
            assert(self.listeners@.take(self.listeners@.len() as int) =~= self.listeners@);
        }
        r
    }
}

/// An event reaches exactly the listeners that listen for its type: every position handed out
/// is that of such a listener, in increasing order, and every such listener's position is
/// handed out.
pub proof fn law_matching_exact<L>(s: Seq<(ListensFor, L)>, ty: u64)
    requires
        s.len() <= usize::MAX,
    ensures
        forall|k: int| 0 <= k < matching(s, ty).len() ==> (#[trigger] matching(s, ty)[k]) < s.len()
            && listens(s[matching(s, ty)[k] as int].0, ty),
        forall|k: int, m: int| 0 <= k < m < matching(s, ty).len() ==> #[trigger] matching(s, ty)[k] < #[trigger] matching(s, ty)[m],
        forall|i: int| 0 <= i < s.len() && listens(#[trigger] s[i].0, ty) ==> matching(s, ty).contains(i as usize),
    decreases s.len(),
{
    if s.len() > 0 {
        let p = s.drop_last();
        law_matching_exact(p, ty);
        assert forall|i: int| 0 <= i < p.len() implies #[trigger] p[i] == s[i] by {}
        if listens(s.last().0, ty) {
            let m = matching(s, ty);
            assert(m == matching(p, ty).push((s.len() - 1) as usize));
            assert forall|i: int| 0 <= i < s.len() && listens(#[trigger] s[i].0, ty) implies m.contains(i as usize) by {
                if i < s.len() - 1 {
                    assert(p[i] == s[i]);
                    let k = choose|k: int| 0 <= k < matching(p, ty).len() && matching(p, ty)[k] == i as usize;
                    assert(m[k] == i as usize);
                } else {
                    assert(m[m.len() - 1] == i as usize);
                }
            }
        } else {
            assert forall|i: int| 0 <= i < s.len() && listens(#[trigger] s[i].0, ty) implies matching(s, ty).contains(i as usize) by {
                if i < s.len() - 1 {
                    assert(p[i] == s[i]);
                }
            }
        }
    }
}

/// Once the listeners that are gone are dropped, dropping again with every listener alive
/// keeps them all.
pub proof fn law_kept_all_alive<T>(s: Seq<T>, alive: Seq<bool>)
    requires
        alive.len() == s.len(),
        forall|i: int| 0 <= i < alive.len() ==> #[trigger] alive[i],
    ensures
        kept(s, alive) == s,
    decreases s.len(),
{
    if s.len() > 0 {
        law_kept_all_alive(s.drop_last(), alive.drop_last());
        lemma_kept_prefix(s.drop_last(), alive, alive.drop_last());
        assert(kept(s.drop_last(), alive).push(s.last()) =~= s);
    }
}

/// Only the flags at the positions of the entries matter.
proof fn lemma_kept_prefix<T>(s: Seq<T>, a: Seq<bool>, b: Seq<bool>)
    requires
        s.len() <= a.len(),
        s.len() <= b.len(),
        forall|i: int| 0 <= i < s.len() ==> a[i] == b[i],
    ensures
        kept(s, a) == kept(s, b),
    decreases s.len(),
{
    if s.len() > 0 {
        lemma_kept_prefix(s.drop_last(), a, b);
    }
}

/// A listener for a list of event types listens for an event type exactly when the type is
/// somewhere in the list, wherever in the list it stands; a listener for one type listens
/// for that type alone, and a listener for any type for every type.
pub proof fn law_listeners_listen_for_their_types(list: Vec<u64>, t: u64, ty: u64)
    ensures
        listens(ListensFor::Multiple(list), ty) <==> exists|i: int| 0 <= i < list@.len() && list@[i] == ty,
        forall|i: int| 0 <= i < list@.len() ==> listens(ListensFor::Multiple(list), #[trigger] list@[i]),
        listens(ListensFor::Specific(t), ty) <==> t == ty,
        listens(ListensFor::Any, ty),
{
    assert forall|i: int| 0 <= i < list@.len() implies listens(ListensFor::Multiple(list), #[trigger] list@[i]) by {
        assert(list@.contains(list@[i]));
    }
}

} // verus!
