//! Folders: panels of buttons stored under an id, opened by folder buttons, and kept only while
//! some folder button still leads to them.

use vstd::prelude::*;
use crate::button::Component;
use crate::commands::words;
use crate::text::{has_text, str_eq, to_owned};
use crate::key_sequence::{lookup, value_is, chosen, text_field};
use crate::ui::{UIFieldType, UIFieldValue, UIValue, find_ui_value, text_of};

verus! {

/// Component of a button that opens a folder
#[derive(Debug)]
pub struct FolderComponent {
    pub id: String,
    pub name: String,
}

impl Component for FolderComponent {
    const NAME: &'static str = "folder";
}

/// Component of a button that opens an existing folder, in symlink style
#[derive(Debug)]
pub struct FolderLinkComponent {
    pub id: String,
}

impl Component for FolderLinkComponent {
    const NAME: &'static str = "folder_link";
}

/// Component of a button that goes back out of a folder
#[derive(Debug)]
pub struct FolderUpComponent {}

impl Component for FolderUpComponent {
    const NAME: &'static str = "folder_up";
}

/// Data kept on a panel that shows a folder: the id of the folder
#[derive(Debug)]
pub struct FolderStackData {
    pub folder_id: String,
}

/// The folders as text: for each, its id and the ids that the folder buttons on it open.
pub open spec fn folders_view(folders: Seq<(String, Vec<String>)>) -> Seq<(Seq<char>, Seq<Seq<char>>)> {
    folders.map_values(|f: (String, Vec<String>)| (f.0@, words(f.1@)))
}

/// Whether there is a folder with the id.
pub open spec fn has_folder(f: Seq<(Seq<char>, Seq<Seq<char>>)>, x: Seq<char>) -> bool {
    exists|i: int| 0 <= i < f.len() && (#[trigger] f[i]).0 == x
}

/// The ids that the folder buttons of the (first) folder with the id open.
pub open spec fn folder_children(f: Seq<(Seq<char>, Seq<Seq<char>>)>, x: Seq<char>) -> Seq<Seq<char>>
    decreases f.len(),
{
    if f.len() == 0 {
        Seq::empty()
    } else if f[0].0 == x {
        f[0].1
    } else {
        folder_children(f.drop_first(), x)
    }
}

/// Every id that a folder button of some folder opens.
pub open spec fn all_children(f: Seq<(Seq<char>, Seq<Seq<char>>)>) -> Seq<Seq<char>>
    decreases f.len(),
{
    if f.len() == 0 {
        Seq::empty()
    } else {
        f[0].1 + all_children(f.drop_first())
    }
}

/// The ids reached in at most `n` steps: the folders that exist and that a root folder
/// button opens are reached; so is every id that a folder button of a reached, existing folder opens.
pub open spec fn reached(f: Seq<(Seq<char>, Seq<Seq<char>>)>, roots: Seq<Seq<char>>, n: nat) -> Set<Seq<char>>
    decreases n,
{
    if n == 0 {
        Set::new(|x: Seq<char>| roots.contains(x) && has_folder(f, x))
    } else {
        let prev = reached(f, roots, (n - 1) as nat);
        prev.union(Set::new(|x: Seq<char>| exists|p: Seq<char>| #[trigger] prev.contains(p) && has_folder(f, p) && folder_children(f, p).contains(x)))
    }
}

/// Whether id `x` is reached in at most `n` steps.
pub open spec fn reach(f: Seq<(Seq<char>, Seq<Seq<char>>)>, roots: Seq<Seq<char>>, n: nat, x: Seq<char>) -> bool {
    reached(f, roots, n).contains(x)
}

/// Whether id `x` is still in use: some chain of folder buttons leads to it from the root screen.
pub open spec fn is_used(f: Seq<(Seq<char>, Seq<Seq<char>>)>, roots: Seq<Seq<char>>, x: Seq<char>) -> bool {
    exists|n: nat| #[trigger] reach(f, roots, n, x)
}

proof fn lemma_children_in_all(f: Seq<(Seq<char>, Seq<Seq<char>>)>, x: Seq<char>, c: Seq<char>)
    requires
        folder_children(f, x).contains(c),
    ensures
        all_children(f).contains(c),
    decreases f.len(),
{
    if f.len() > 0 {
        if f[0].0 == x {
            let k = choose|k: int| 0 <= k < f[0].1.len() && f[0].1[k] == c;
            assert((f[0].1 + all_children(f.drop_first()))[k] == c);
        } else {
            lemma_children_in_all(f.drop_first(), x, c);
            let k = choose|k: int| 0 <= k < all_children(f.drop_first()).len() && all_children(f.drop_first())[k] == c;
            assert((f[0].1 + all_children(f.drop_first()))[f[0].1.len() + k] == c);
        }
    }
}

/// Looks up the folder with the id: the ids its folder buttons open, if it exists.
fn find_children<'a>(folders: &'a Vec<(String, Vec<String>)>, x: &str) -> (r: Option<&'a Vec<String>>)
    ensures
        match r {
            Some(v) => has_folder(folders_view(folders@), x@) && words(v@) == folder_children(folders_view(folders@), x@),
            None => !has_folder(folders_view(folders@), x@),
        },
{
    let ghost f = folders_view(folders@);
    let mut i: usize = 0;
    assert(f.skip(0) =~= f);
    while i < folders.len()
        invariant
            i <= folders@.len(),
            f == folders_view(folders@),
            folder_children(f, x@) == folder_children(f.skip(i as int), x@),
            forall|j: int| 0 <= j < i ==> (#[trigger] f[j]).0 != x@,
        decreases folders@.len() - i,
    {
        assert(f.skip(i as int)[0] == f[i as int]);
        assert(f.skip(i as int).drop_first() =~= f.skip(i + 1));
        if str_eq(folders[i].0.as_str(), x) {
            return Some(&folders[i].1);
        }
        i += 1;
    }
    None
}

/// The ids of the folders still in use, each once: those that some chain of folder buttons
/// leads to from the folder buttons of the root screen (`roots`). A folder counts only where
/// it exists; an id that a folder button of a used folder opens counts even where no folder
/// has it.
pub fn used_folders(folders: &Vec<(String, Vec<String>)>, roots: &Vec<String>) -> (r: Vec<String>)
    ensures
        words(r@).no_duplicates(),
        forall|x: Seq<char>| #[trigger] has_text(r@, x) <==> is_used(folders_view(folders@), words(roots@), x),
{
    let ghost f = folders_view(folders@);
    let ghost rs = words(roots@);
    let ghost universe = (rs + all_children(f)).to_set();
    let mut found: Vec<String> = Vec::new();
    let mut stack: Vec<String> = Vec::new();
    let mut i: usize = 0;
    while i < roots.len()
        invariant
            i <= roots@.len(),
            f == folders_view(folders@),
            rs == words(roots@),
            universe == (rs + all_children(f)).to_set(),
            words(found@).no_duplicates(),
            forall|x: Seq<char>| #[trigger] has_text(found@, x) ==> universe.contains(x),
            forall|x: Seq<char>| #[trigger] has_text(found@, x) ==> is_used(f, rs, x),
            forall|x: Seq<char>| #[trigger] has_text(stack@, x) ==> has_text(found@, x) && has_folder(f, x),
            words(stack@).no_duplicates(),
            forall|x: Seq<char>| has_text(found@, x) && has_folder(f, x) ==> #[trigger] has_text(stack@, x),
            forall|j: int| 0 <= j < i && has_folder(f, #[trigger] rs[j]) ==> has_text(found@, rs[j]),
        decreases roots@.len() - i,
    {
        let r = &roots[i];
        assert(rs[i as int] == r@);
        if !contains_text(&found, r.as_str()) {
            if let Some(_) = find_children(folders, r.as_str()) {
                proof {
                    assert(rs.contains(r@));
                    assert(reach(f, rs, 0, r@));
                    assert((rs + all_children(f))[i as int] == r@);
                }
                let ghost before_found = found@;
                let ghost before_stack = stack@;
                found.push(r.clone());
                stack.push(r.clone());
                proof {
                    lemma_push_text(before_found, found@.last());
                    lemma_push_text(before_stack, stack@.last());
                    lemma_push_distinct(before_found, found@.last());
                    lemma_push_distinct(before_stack, stack@.last());
                }
            }
        }
        i += 1;
    }
    while stack.len() > 0
        invariant
            f == folders_view(folders@),
            rs == words(roots@),
            universe == (rs + all_children(f)).to_set(),
            words(found@).no_duplicates(),
            forall|x: Seq<char>| #[trigger] has_text(found@, x) ==> universe.contains(x),
            forall|x: Seq<char>| #[trigger] has_text(found@, x) ==> is_used(f, rs, x),
            forall|x: Seq<char>| #[trigger] has_text(stack@, x) ==> has_text(found@, x) && has_folder(f, x),
            words(stack@).no_duplicates(),
            forall|x: Seq<char>, c: Seq<char>|
                has_text(found@, x) && has_folder(f, x) && !has_text(stack@, x) && #[trigger] folder_children(f, x).contains(c)
                    ==> #[trigger] has_text(found@, c),
            forall|j: int| 0 <= j < rs.len() && has_folder(f, #[trigger] rs[j]) ==> has_text(found@, rs[j]),
        decreases universe.len() - found@.len(), stack@.len(),
    {
        proof {
            lemma_found_bounded(found@, universe);
        }
        let ghost before_pop = stack@;
        let x = stack.pop().unwrap();
        let ghost after_pop = stack@;
        proof {
            assert(before_pop =~= stack@.push(x));
            assert(has_text(stack@.push(x), x@)) by {
                assert(stack@.push(x)[stack@.len() as int] == x);
            }
            lemma_pop_text(stack@, x);
        }
        let children = find_children(folders, x.as_str()).unwrap();
        let ghost found_at_pop = found@.len();
        let mut j: usize = 0;
        while j < children.len()
            invariant
                j <= children@.len(),
                f == folders_view(folders@),
                rs == words(roots@),
                universe == (rs + all_children(f)).to_set(),
                has_folder(f, x@),
                has_text(found@, x@),
                is_used(f, rs, x@),
                !has_text(stack@, x@),
                words(children@) == folder_children(f, x@),
                found@.len() >= found_at_pop,
                stack@.len() <= after_pop.len() + (found@.len() - found_at_pop),
                words(found@).no_duplicates(),
                forall|y: Seq<char>| #[trigger] has_text(found@, y) ==> universe.contains(y),
                forall|y: Seq<char>| #[trigger] has_text(found@, y) ==> is_used(f, rs, y),
                forall|y: Seq<char>| #[trigger] has_text(stack@, y) ==> has_text(found@, y) && has_folder(f, y),
                words(stack@).no_duplicates(),
                forall|y: Seq<char>, c: Seq<char>|
                    has_text(found@, y) && has_folder(f, y) && !has_text(stack@, y) && y != x@ && #[trigger] folder_children(
                        f,
                        y,
                    ).contains(c) ==> #[trigger] has_text(found@, c),
                forall|k: int| 0 <= k < j ==> has_text(found@, #[trigger] children@[k]@),
                forall|k: int| 0 <= k < rs.len() && has_folder(f, #[trigger] rs[k]) ==> has_text(found@, rs[k]),
            decreases children@.len() - j,
        {
            let c = &children[j];
            assert(folder_children(f, x@)[j as int] == c@);
            if !contains_text(&found, c.as_str()) {
                proof {
                    let n = choose|n: nat| #[trigger] reach(f, rs, n, x@);
                    assert(folder_children(f, x@).contains(c@));
                    let m: nat = n + 1;
                    assert(reach(f, rs, (m - 1) as nat, x@));
                    assert(reach(f, rs, m, c@));
                    lemma_children_in_all(f, x@, c@);
                    let k = choose|k: int| 0 <= k < all_children(f).len() && all_children(f)[k] == c@;
                    assert((rs + all_children(f))[rs.len() + k] == c@);
                }
                let ghost before_found = found@;
                found.push(c.clone());
                proof {
                    lemma_push_text(before_found, found@.last());
                    lemma_push_distinct(before_found, found@.last());
                }
                if let Some(_) = find_children(folders, c.as_str()) {
                    let ghost before_stack = stack@;
                    stack.push(c.clone());
                    proof {
                        lemma_push_text(before_stack, stack@.last());
                        lemma_push_distinct(before_stack, stack@.last());
                    }
                }
            }
            j += 1;
        }
        proof {
            assert forall|c: Seq<char>| #[trigger] folder_children(f, x@).contains(c) implies has_text(found@, c) by {
                let k = choose|k: int| 0 <= k < folder_children(f, x@).len() && folder_children(f, x@)[k] == c;
                assert(children@[k]@ == c);
            }
            lemma_found_bounded(found@, universe);
        }
    }
    proof {
        assert forall|x: Seq<char>| is_used(f, rs, x) implies #[trigger] has_text(found@, x) by {
            let n = choose|n: nat| #[trigger] reach(f, rs, n, x);
            lemma_reach_found(f, rs, found@, n, x);
        }
    }
    found
}

proof fn lemma_reach_found(f: Seq<(Seq<char>, Seq<Seq<char>>)>, rs: Seq<Seq<char>>, found: Seq<String>, n: nat, x: Seq<char>)
    requires
        reach(f, rs, n, x),
        forall|x: Seq<char>, c: Seq<char>|
            has_text(found, x) && has_folder(f, x) && #[trigger] folder_children(f, x).contains(c) ==> #[trigger] has_text(found, c),
        forall|j: int| 0 <= j < rs.len() && has_folder(f, #[trigger] rs[j]) ==> has_text(found, rs[j]),
    ensures
        has_text(found, x),
    decreases n,
{
    if n == 0 {
        let j = choose|j: int| 0 <= j < rs.len() && rs[j] == x;
        assert(has_folder(f, rs[j]));
    } else if reach(f, rs, (n - 1) as nat, x) {
        lemma_reach_found(f, rs, found, (n - 1) as nat, x);
    } else {
        let prev = reached(f, rs, (n - 1) as nat);
        let step = Set::new(|y: Seq<char>| exists|p: Seq<char>| #[trigger] prev.contains(p) && has_folder(f, p) && folder_children(f, p).contains(y));
        assert(reached(f, rs, n) == prev.union(step));
        assert(step.contains(x));
        let p = choose|p: Seq<char>| #[trigger] prev.contains(p) && has_folder(f, p) && folder_children(f, p).contains(x);
        lemma_reach_found(f, rs, found, (n - 1) as nat, p);
    }
}

proof fn lemma_found_bounded(found: Seq<String>, universe: Set<Seq<char>>)
    requires
        universe.finite(),
        words(found).no_duplicates(),
        forall|x: Seq<char>| #[trigger] has_text(found, x) ==> universe.contains(x),
    ensures
        found.len() <= universe.len(),
{
    let w = words(found);
    w.unique_seq_to_set();
    assert forall|x: Seq<char>| w.to_set().contains(x) implies universe.contains(x) by {
        let k = choose|k: int| 0 <= k < w.len() && w[k] == x;
        assert(found[k]@ == x);
        assert(has_text(found, x));
    }
    vstd::set_lib::lemma_len_subset(w.to_set(), universe);
}

proof fn lemma_push_text(s: Seq<String>, v: String)
    ensures
        forall|x: Seq<char>| #[trigger] has_text(s.push(v), x) <==> (has_text(s, x) || x == v@),
{
    assert forall|x: Seq<char>| #[trigger] has_text(s.push(v), x) <==> (has_text(s, x) || x == v@) by {
        if has_text(s, x) {
            let k = choose|k: int| 0 <= k < s.len() && (#[trigger] s[k])@ == x;
            assert(s.push(v)[k] == s[k]);
        }
        if x == v@ {
            assert(s.push(v)[s.len() as int] == v);
        }
        if has_text(s.push(v), x) {
            let k = choose|k: int| 0 <= k < s.push(v).len() && (#[trigger] s.push(v)[k])@ == x;
            if k < s.len() {
                assert(s.push(v)[k] == s[k]);
            }
        }
    }
}

proof fn lemma_pop_text(s: Seq<String>, v: String)
    requires
        words(s.push(v)).no_duplicates(),
    ensures
        words(s).no_duplicates(),
        forall|x: Seq<char>| #[trigger] has_text(s, x) ==> has_text(s.push(v), x),
        !has_text(s, v@),
{
    lemma_push_text(s, v);
    assert(words(s) =~= words(s.push(v)).drop_last());
    if has_text(s, v@) {
        let k = choose|k: int| 0 <= k < s.len() && (#[trigger] s[k])@ == v@;
        assert(words(s.push(v))[k] == words(s.push(v))[s.len() as int]);
    }
}

proof fn lemma_push_distinct(s: Seq<String>, v: String)
    requires
        words(s).no_duplicates(),
        !has_text(s, v@),
    ensures
        words(s.push(v)).no_duplicates(),
{
    assert(words(s.push(v)) =~= words(s).push(v@));
    assert forall|a: int, b: int| 0 <= a < s.len() + 1 && 0 <= b < s.len() + 1 && a != b implies words(s.push(v))[a]
        != words(s.push(v))[b] by {
        if a == s.len() {
            assert(s[b]@ == words(s)[b]);
        } else if b == s.len() {
            assert(s[a]@ == words(s)[a]);
        }
    }
}

/// Whether a list of strings has one with the given text.
pub fn contains_text(v: &Vec<String>, x: &str) -> (r: bool)
    ensures
        r == has_text(v@, x@),
{
    let mut i: usize = 0;
    while i < v.len()
        invariant
            i <= v@.len(),
            forall|j: int| 0 <= j < i ==> (#[trigger] v@[j])@ != x@,
        decreases v@.len() - i,
    {
        if str_eq(v[i].as_str(), x) {
            return true;
        }
        i += 1;
    }
    false
}

/// How a folder is offered as a link target: its display name, then its id in brackets.
pub open spec fn choice_text(display_name: Seq<char>, id: Seq<char>) -> Seq<char> {
    display_name + " ("@ + id + ")"@
}

/// Formats how a folder is offered as a link target.
pub fn folder_choice(display_name: &str, id: &str) -> (r: String)
    ensures
        r@ == choice_text(display_name@, id@),
{
    let mut r = to_owned(display_name);
    r.append(" (");
    r.append(id);
    r.append(")");
    r
}

/// The folders as text: for each, its id and its display name.
pub open spec fn names_view(folders: Seq<(String, String)>) -> Seq<(Seq<char>, Seq<char>)> {
    folders.map_values(|f: (String, String)| (f.0@, f.1@))
}

/// The link targets offered for a list of folders, given as ids with display names.
pub fn link_choices(folders: &Vec<(String, String)>) -> (r: Vec<String>)
    ensures
        r@.len() == folders@.len(),
        forall|i: int| 0 <= i < r@.len() ==> (#[trigger] r@[i])@ == choice_text(folders@[i].1@, folders@[i].0@),
{
    let mut r: Vec<String> = Vec::new();
    let mut i: usize = 0;
    while i < folders.len()
        invariant
            i <= folders@.len(),
            r@.len() == i,
            forall|k: int| 0 <= k < i ==> (#[trigger] r@[k])@ == choice_text(folders@[k].1@, folders@[k].0@),
        decreases folders@.len() - i,
    {
        let c = folder_choice(folders[i].1.as_str(), folders[i].0.as_str());
        r.push(c);
        i += 1;
    }
    r
}

/// Whether a character is a round bracket.
pub open spec fn is_paren(c: char) -> bool {
    c == '(' || c == ')'
}

/// The position of the first round bracket in a text, or its length if it has none.
pub open spec fn first_paren(s: Seq<char>) -> nat
    decreases s.len(),
{
    if s.len() == 0 {
        0
    } else if is_paren(s[0]) {
        0
    } else {
        1 + first_paren(s.drop_first())
    }
}

/// The text after the first round bracket, up to the next one: the second piece of the text
/// split at round brackets.
pub open spec fn bracketed(s: Seq<char>) -> Seq<char> {
    let rest = s.skip(first_paren(s) as int + 1);
    rest.take(first_paren(rest) as int)
}

proof fn lemma_first_paren(s: Seq<char>)
    ensures
        first_paren(s) <= s.len(),
        forall|k: int| 0 <= k < first_paren(s) ==> !is_paren(#[trigger] s[k]),
        first_paren(s) < s.len() ==> is_paren(s[first_paren(s) as int]),
    decreases s.len(),
{
    if s.len() > 0 && !is_paren(s[0]) {
        lemma_first_paren(s.drop_first());
        assert forall|k: int| 0 <= k < first_paren(s) implies !is_paren(#[trigger] s[k]) by {
            if k > 0 {
                assert(s[k] == s.drop_first()[k - 1]);
            }
        }
    }
}

proof fn lemma_first_paren_at(s: Seq<char>, i: int)
    requires
        0 <= i <= s.len(),
        forall|k: int| 0 <= k < i ==> !is_paren(#[trigger] s[k]),
        i == s.len() || is_paren(s[i]),
    ensures
        first_paren(s) == i,
    decreases s.len(),
{
    if s.len() > 0 && i > 0 {
        assert(!is_paren(s[0]));
        assert forall|k: int| 0 <= k < i - 1 implies !is_paren(#[trigger] s.drop_first()[k]) by {
            assert(s.drop_first()[k] == s[k + 1]);
        }
        if i < s.len() {
            assert(s.drop_first()[i - 1] == s[i]);
        }
        lemma_first_paren_at(s.drop_first(), i - 1);
    }
}

fn paren_at(s: &str, i: usize) -> (r: bool)
    requires
        i < s@.len(),
    ensures
        r == is_paren(s@[i as int]),
{
    let c = s.get_char(i);
    c == '(' || c == ')'
}

fn find_paren(s: &str, from: usize) -> (r: usize)
    requires
        from <= s@.len(),
    ensures
        r == from + first_paren(s@.skip(from as int)),
        r <= s@.len(),
{
    let n = s.unicode_len();
    let mut i = from;
    while i < n && !paren_at(s, i)
        invariant
            n == s@.len(),
            from <= i <= n,
            forall|k: int| from <= k < i ==> !is_paren(#[trigger] s@[k]),
        decreases n - i,
    {
        i += 1;
    }
    proof {
        let t = s@.skip(from as int);
        assert forall|k: int| 0 <= k < i - from implies !is_paren(#[trigger] t[k]) by {
            assert(t[k] == s@[from + k]);
        }
        if i < n {
            assert(t[i - from] == s@[i as int]);
        }
        lemma_first_paren_at(t, i - from);
    }
    i
}

/// The id that choosing a link target sets: where the choice is one of the targets offered for
/// the folders, the text after its first round bracket up to the next one; nothing otherwise.
pub fn link_id_from_choice(folders: &Vec<(String, String)>, choice: &str) -> (r: Option<String>)
    ensures
        match r {
            Some(id) => (exists|i: int| 0 <= i < folders@.len() && choice_text(folders@[i].1@, folders@[i].0@) == choice@)
                && id@ == bracketed(choice@),
            None => !exists|i: int| 0 <= i < folders@.len() && choice_text(folders@[i].1@, folders@[i].0@) == choice@,
        },
{
    let choices = link_choices(folders);
    let mut i: usize = 0;
    let mut found = false;
    while i < choices.len()
        invariant_except_break
            !found,
        invariant
            i <= choices@.len(),
            choices@.len() == folders@.len(),
            forall|k: int| 0 <= k < choices@.len() ==> (#[trigger] choices@[k])@ == choice_text(folders@[k].1@, folders@[k].0@),
            forall|k: int| 0 <= k < i ==> (#[trigger] choices@[k])@ != choice@,
        ensures
            found ==> i < choices@.len() && choices@[i as int]@ == choice@,
            !found ==> forall|k: int| 0 <= k < choices@.len() ==> (#[trigger] choices@[k])@ != choice@,
        decreases choices@.len() - i,
    {
        if str_eq(choices[i].as_str(), choice) {
            found = true;
            break;
        }
        i += 1;
    }
    if !found {
        proof {
            if exists|k: int| 0 <= k < folders@.len() && choice_text(folders@[k].1@, folders@[k].0@) == choice@ {
                let k = choose|k: int| 0 <= k < folders@.len() && choice_text(folders@[k].1@, folders@[k].0@) == choice@;
                assert(choices@[k]@ == choice@);
            }
        }
        return None;
    }
    let n = choice.unicode_len();
    let a = find_paren(choice, 0);
    proof {
        reveal_strlit(" (");
        reveal_strlit(")");
        assert(choice@.skip(0) =~= choice@);
        let d = folders@[i as int].1@;
        let id = folders@[i as int].0@;
        assert(choice@ == d + " ("@ + id + ")"@);
        assert(choice@.len() == d.len() + 2 + id.len() + 1);
        assert(choice@[d.len() as int + 1] == '(');
        lemma_first_paren(choice@);
        if first_paren(choice@) >= choice@.len() {
            assert(!is_paren(choice@[d.len() as int + 1]));
        }
    }
    assert(a < n);
    let b = find_paren(choice, a + 1);
    let id = to_owned(choice.substring_char(a + 1, b));
    proof {
        let rest = choice@.skip(a + 1);
        lemma_first_paren(rest);
        assert(id@ =~= rest.take(first_paren(rest) as int));
    }
    Some(id)
}

/// The values that show a folder component: its id, and the name it shows in the stack.
pub fn folder_values(component: &FolderComponent) -> (r: Vec<UIValue>)
    ensures
        r@.len() == 2,
        value_is(r@[0], "id"@, "ID"@, "ID of the folder"@),
        r@[0].ty is Label,
        r@[0].value matches UIFieldValue::Label(s) && s@ == component.id@,
        value_is(r@[1], "name"@, "Folder Name"@, "Name that will appear in breadcrumbs of the stack"@),
        r@[1].ty is InputFieldString,
        text_field(r@[1].value, component.name@),
{
    vec![
        UIValue {
            name: to_owned("id"),
            display_name: to_owned("ID"),
            description: to_owned("ID of the folder"),
            ty: UIFieldType::Label,
            value: UIFieldValue::Label(component.id.clone()),
        },
        UIValue {
            name: to_owned("name"),
            display_name: to_owned("Folder Name"),
            description: to_owned("Name that will appear in breadcrumbs of the stack"),
            ty: UIFieldType::InputFieldString,
            value: UIFieldValue::InputFieldString(component.name.clone()),
        },
    ]
}

/// Reads a folder component back from values of the user interface: the name changes where
/// the values set one. Tells whether it did.
pub fn set_folder_values(component: &mut FolderComponent, values: Vec<UIValue>) -> (renamed: bool)
    ensures
        final(component).id@ == old(component).id@,
        renamed == (match lookup(values@, "name"@) {
            Some(v) => text_of(v.value) is Some,
            None => false,
        }),
        renamed ==> final(component).name@ == text_of(lookup(values@, "name"@)->0.value)->0,
        !renamed ==> final(component).name@ == old(component).name@,
{
    if let Some(v) = find_ui_value(&values, "name") {
        if let Ok(name) = v.value.try_into_string() {
            component.name = name;
            return true;
        }
    }
    false
}

/// The values that show a folder link component: the link target, chosen among the targets
/// offered for the folders (given as ids with display names); nothing is chosen where no
/// folder has the linked id.
pub fn folder_link_values(component: &FolderLinkComponent, folders: &Vec<(String, String)>) -> (r: Vec<UIValue>)
    ensures
        r@.len() == 1,
        value_is(r@[0], "id"@, "ID"@, "Folder to link to"@),
        r@[0].ty matches UIFieldType::Choice(c) && c@.len() == folders@.len() && forall|i: int|
            0 <= i < c@.len() ==> (#[trigger] c@[i])@ == choice_text(folders@[i].1@, folders@[i].0@),
        match first_named(names_view(folders@), component.id@) {
            Some(i) => chosen(r@[0].value, choice_text(folders@[i].1@, component.id@)),
            None => chosen(r@[0].value, Seq::empty()),
        },
{
    let choices = link_choices(folders);
    let found = find_named(folders, component.id.as_str());
    let choice = match found {
        Some(i) => folder_choice(folders[i].1.as_str(), component.id.as_str()),
        None => String::new(),
    };
    vec![UIValue {
        name: to_owned("id"),
        display_name: to_owned("ID"),
        description: to_owned("Folder to link to"),
        ty: UIFieldType::Choice(choices),
        value: UIFieldValue::Choice(choice),
    }]
}

/// Finds the first folder with the id.
fn find_named(folders: &Vec<(String, String)>, id: &str) -> (r: Option<usize>)
    ensures
        match r {
            Some(i) => first_named(names_view(folders@), id@) == Some(i as int) && i < folders@.len(),
            None => first_named(names_view(folders@), id@) is None,
        },
{
    let ghost v = names_view(folders@);
    let mut i: usize = 0;
    assert(v.skip(0) =~= v);
    while i < folders.len()
        invariant
            i <= folders@.len(),
            v == names_view(folders@),
            first_named(v, id@) == shift(first_named(v.skip(i as int), id@), i as int),
        decreases folders@.len() - i,
    {
        proof {
            let w = v.skip(i as int);
            assert(w[0] == v[i as int]);
            assert(w.drop_first() =~= v.skip(i + 1));
        }
        if str_eq(folders[i].0.as_str(), id) {
            return Some(i);
        }
        i += 1;
    }
    proof {
        assert(v.skip(i as int) =~= Seq::<(Seq<char>, Seq<char>)>::empty());
    }
    None
}

/// A position moved on by `d`.
pub open spec fn shift(o: Option<int>, d: int) -> Option<int> {
    match o {
        Some(k) => Some(k + d),
        None => None,
    }
}

/// The position of the first folder with the id, if any.
pub open spec fn first_named(folders: Seq<(Seq<char>, Seq<char>)>, id: Seq<char>) -> Option<int>
    decreases folders.len(),
{
    if folders.len() == 0 {
        None
    } else if folders[0].0 == id {
        Some(0)
    } else {
        shift(first_named(folders.drop_first(), id), 1)
    }
}

/// Choosing the link target offered for a folder reads back that folder's id, when neither
/// its display name nor its id holds a round bracket.
pub proof fn law_choice_reads_back(display_name: Seq<char>, id: Seq<char>)
    requires
        forall|k: int| 0 <= k < display_name.len() ==> !is_paren(#[trigger] display_name[k]),
        forall|k: int| 0 <= k < id.len() ==> !is_paren(#[trigger] id[k]),
    ensures
        bracketed(choice_text(display_name, id)) == id,
{
    reveal_strlit(" (");
    reveal_strlit(")");
    let c = choice_text(display_name, id);
    let a: int = display_name.len() as int + 1;
    assert(c.len() == display_name.len() + 2 + id.len() + 1);
    assert forall|k: int| 0 <= k < a implies !is_paren(#[trigger] c[k]) by {
        if k < display_name.len() {
            assert(c[k] == display_name[k]);
        } else {
            assert(c[k] == ' ');
        }
    }
    assert(c[a] == '(');
    lemma_first_paren_at(c, a);
    let rest = c.skip(a + 1);
    assert forall|k: int| 0 <= k < id.len() implies !is_paren(#[trigger] rest[k]) by {
        assert(rest[k] == id[k]);
    }
    assert(rest[id.len() as int] == ')');
    lemma_first_paren_at(rest, id.len() as int);
    assert(rest.take(id.len() as int) =~= id);
}

/// What pressing a button does in the folder module
pub enum FolderAction {
    /// Nothing: the button has no folder component, or it goes up from the root
    Nothing,
    /// Goes back up: the current screen is taken off the stack
    PopScreen,
    /// Opens the folder with the id: its panel is pushed onto the stack, shown under the name
    /// where one is given, with the folder's id as its data
    Open { folder_id: String, display_name: Option<String> },
}

/// What pressing a button does, given its folder components: a folder up button goes back up
/// unless the stack holds only the root; otherwise a folder button opens its folder under the
/// folder's name, and otherwise a folder link opens the folder it links to.
pub fn folder_press(up: bool, folder: Option<&FolderComponent>, link: Option<&FolderLinkComponent>, stack_depth: usize) -> (r: FolderAction)
    ensures
        up ==> (if stack_depth > 1 { r is PopScreen } else { r is Nothing }),
        !up && folder is Some ==> (r matches FolderAction::Open { folder_id, display_name }
            && folder_id@ == folder->0.id@ && display_name is Some && display_name->0@ == folder->0.name@),
        !up && folder is None && link is Some ==> (r matches FolderAction::Open { folder_id, display_name }
            && folder_id@ == link->0.id@ && display_name is None),
        !up && folder is None && link is None ==> r is Nothing,
{
    if up {
        if stack_depth > 1 {
            FolderAction::PopScreen
        } else {
            FolderAction::Nothing
        }
    } else {
        match folder {
            Some(f) => FolderAction::Open { folder_id: to_owned(f.id.as_str()), display_name: Some(to_owned(f.name.as_str())) },
            None => match link {
                Some(l) => FolderAction::Open { folder_id: to_owned(l.id.as_str()), display_name: None },
                None => FolderAction::Nothing,
            },
        }
    }
}

} // verus!
