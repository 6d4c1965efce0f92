//! The command tree of the interactive prompt, and completion over it.
//!
//! A command map is kept as the list of full command lines it knows, each split
//! into words; the map below a word is the list of the lines that begin with that
//! word, with the word taken off.

use vstd::prelude::*;
use crate::text::{seq_lt, spec_starts_with, starts_with, str_eq, to_owned, has_text};
use crate::modules::insert_sorted_unique;

verus! {

/// The views of a list of strings.
pub open spec fn words(v: Seq<String>) -> Seq<Seq<char>> {
    v.map_values(|s: String| s@)
}

/// Splits `s` at every occurrence of `sep`, keeping empty pieces.
pub open spec fn split_on(s: Seq<char>, sep: char) -> Seq<Seq<char>>
    decreases s.len(),
{
    if s.len() == 0 {
        seq![Seq::<char>::empty()]
    } else {
        let init = split_on(s.drop_last(), sep);
        if s.last() == sep {
            init.push(Seq::<char>::empty())
        } else {
            init.update(init.len() - 1, init.last().push(s.last()))
        }
    }
}

/// Splitting always gives at least one piece.
pub proof fn lemma_split_nonempty(s: Seq<char>, sep: char)
    ensures
        split_on(s, sep).len() >= 1,
    decreases s.len(),
{
    if s.len() > 0 {
        lemma_split_nonempty(s.drop_last(), sep);
    }
}

/// Splits a line into its space-separated words, keeping empty words.
pub fn split_words(line: &str) -> (r: Vec<String>)
    ensures
        words(r@) == split_on(line@, ' '),
{
    split_at_char(line, ' ')
}

/// Splits a text at every occurrence of `sep`, keeping empty pieces.
pub fn split_at_char(line: &str, sep: char) -> (r: Vec<String>)
    ensures
        words(r@) == split_on(line@, sep),
{
    let n = line.unicode_len();
    let mut r: Vec<String> = Vec::new();
    let mut start: usize = 0;
    let mut i: usize = 0;
    proof {
        assert(line@.take(0) =~= Seq::<char>::empty());
        assert(words(r@).push(line@.subrange(0, 0)) =~= seq![Seq::<char>::empty()]);
    }
    while i < n
        invariant
            n == line@.len(),
            start <= i <= n,
            words(r@).push(line@.subrange(start as int, i as int)) == split_on(line@.take(i as int), sep),
        decreases n - i,
    {
        let c = line.get_char(i);
        let ghost before = words(r@).push(line@.subrange(start as int, i as int));
        proof {
            assert(line@.take(i + 1).drop_last() =~= line@.take(i as int));
            assert(line@.take(i + 1).last() == c);
        }
        if c == sep {
            let piece = to_owned(line.substring_char(start, i));
            r.push(piece);
            start = i + 1;
            proof {
                assert(words(r@) =~= before);
                assert(line@.subrange(start as int, i + 1) =~= Seq::<char>::empty());
            }
        } else {
            proof {
                assert(line@.subrange(start as int, i + 1) =~= line@.subrange(start as int, i as int).push(c));
                assert(words(r@).push(line@.subrange(start as int, i + 1)) =~= before.update(
                    before.len() - 1,
                    before.last().push(c),
                ));
            }
        }
        i += 1;
    }
    let last = to_owned(line.substring_char(start, n));
    r.push(last);
    proof {
        assert(line@.take(n as int) =~= line@);
        assert(words(r@) =~= words(r@.drop_last()).push(line@.subrange(start as int, n as int)));
    }
    r
}

/// The characters a list of words takes up in a line: each word and the space after it.
pub open spec fn total_len(ps: Seq<Seq<char>>) -> int
    decreases ps.len(),
{
    if ps.len() == 0 {
        0
    } else {
        ps[0].len() + 1 + total_len(ps.drop_first())
    }
}

proof fn lemma_total_len_nonneg(ps: Seq<Seq<char>>)
    ensures
        total_len(ps) >= 0,
    decreases ps.len(),
{
    if ps.len() > 0 {
        lemma_total_len_nonneg(ps.drop_first());
    }
}

proof fn lemma_total_len_push(ps: Seq<Seq<char>>, x: Seq<char>)
    ensures
        total_len(ps.push(x)) == total_len(ps) + x.len() + 1,
    decreases ps.len(),
{
    reveal_with_fuel(total_len, 2);
    if ps.len() > 0 {
        assert(ps.push(x).drop_first() =~= ps.drop_first().push(x));
        assert(ps.push(x)[0] == ps[0]);
        lemma_total_len_push(ps.drop_first(), x);
    } else {
        assert(ps.push(x).drop_first() =~= Seq::<Seq<char>>::empty());
        assert(ps.push(x)[0] == x);
    }
}

/// The words of a line take up one character more than the line.
pub proof fn lemma_split_total_len(s: Seq<char>, sep: char)
    ensures
        total_len(split_on(s, sep)) == s.len() + 1,
    decreases s.len(),
{
    reveal_with_fuel(total_len, 2);
    if s.len() == 0 {
        assert(seq![Seq::<char>::empty()].drop_first() =~= Seq::<Seq<char>>::empty());
    } else {
        let init = split_on(s.drop_last(), sep);
        lemma_split_total_len(s.drop_last(), sep);
        lemma_split_nonempty(s.drop_last(), sep);
        if s.last() == sep {
            lemma_total_len_push(init, Seq::<char>::empty());
        } else {
            let front = init.drop_last();
            assert(init =~= front.push(init.last()));
            assert(init.update(init.len() - 1, init.last().push(s.last())) =~= front.push(init.last().push(s.last())));
            lemma_total_len_push(front, init.last());
            lemma_total_len_push(front, init.last().push(s.last()));
        }
    }
}

/// A tree of commands: the command lines it knows, each as its list of words.
pub struct CommandMap(pub Vec<Vec<String>>);

impl View for CommandMap {
    type V = Seq<Seq<Seq<char>>>;

    open spec fn view(&self) -> Seq<Seq<Seq<char>>> {
        self.0@.map_values(|line: Vec<String>| words(line@))
    }
}

/// Whether `w` is a word that may come first in one of the lines.
pub open spec fn is_key(ps: Seq<Seq<Seq<char>>>, w: Seq<char>) -> bool {
    exists|i: int| 0 <= i < ps.len() && (#[trigger] ps[i]).len() > 0 && ps[i][0] == w
}

/// The lines that begin with `w`, with `w` taken off.
pub open spec fn child_paths(ps: Seq<Seq<Seq<char>>>, w: Seq<char>) -> Seq<Seq<Seq<char>>>
    decreases ps.len(),
{
    if ps.len() == 0 {
        Seq::empty()
    } else {
        let r = child_paths(ps.drop_last(), w);
        if ps.last().len() > 0 && ps.last()[0] == w {
            r.push(ps.last().drop_first())
        } else {
            r
        }
    }
}

/// `k` is the first, in character order, of the words that may come first and begin with `prefix`.
pub open spec fn is_least_match(ps: Seq<Seq<Seq<char>>>, prefix: Seq<char>, k: Seq<char>) -> bool {
    &&& is_key(ps, k)
    &&& spec_starts_with(k, prefix)
    &&& forall|k2: Seq<char>| #[trigger] is_key(ps, k2) && spec_starts_with(k2, prefix) ==> !seq_lt(k2, k)
}

/// Where the words of a line lead in a command map: `None` if the words run out while every
/// word so far was a command; else the position of the word where the walk stopped, the map
/// there, the prefix that completions there must have, and whether any completion is offered.
pub open spec fn walk(pieces: Seq<Seq<char>>, ps: Seq<Seq<Seq<char>>>, pos: int) -> Option<(int, Seq<Seq<Seq<char>>>, Seq<char>, bool)>
    decreases pieces.len(),
{
    if pieces.len() == 0 {
        None
    } else if pieces[0].len() == 0 {
        Some((pos, ps, Seq::<char>::empty(), true))
    } else if is_key(ps, pieces[0]) {
        walk(pieces.drop_first(), child_paths(ps, pieces[0]), pos + 1 + pieces[0].len())
    } else {
        Some((pos, ps, pieces[0], pieces.len() == 1))
    }
}

/// The hint for a line: the rest of the first command word that the last, unfinished word
/// begins, if the walk stopped at a non-empty last word.
pub open spec fn closest(pieces: Seq<Seq<char>>, ps: Seq<Seq<Seq<char>>>) -> Option<Seq<char>> {
    match walk(pieces, ps, 0) {
        Some((_, at, prefix, any)) => {
            if any && prefix.len() > 0 && exists|k: Seq<char>| is_least_match(at, prefix, k) {
                Some((choose|k: Seq<char>| is_least_match(at, prefix, k)).skip(prefix.len() as int))
            } else {
                None
            }
        },
        None => None,
    }
}

/// A list of strings in strictly increasing character order.
pub open spec fn strictly_sorted(v: Seq<String>) -> bool {
    forall|i: int, j: int| 0 <= i < j < v.len() ==> seq_lt((#[trigger] v[i])@, (#[trigger] v[j])@)
}

proof fn lemma_seq_lt_asym(a: Seq<char>, b: Seq<char>)
    requires
        seq_lt(a, b),
    ensures
        !seq_lt(b, a),
{
    if seq_lt(b, a) {
        crate::text::lemma_seq_lt_transitive(a, b, a);
        crate::text::lemma_seq_lt_irreflexive(a);
    }
}

proof fn lemma_least_unique(ps: Seq<Seq<Seq<char>>>, prefix: Seq<char>, a: Seq<char>, b: Seq<char>)
    requires
        is_least_match(ps, prefix, a),
        is_least_match(ps, prefix, b),
    ensures
        a == b,
{
    crate::text::lemma_seq_lt_total(a, b);
}

/// Copies a list of strings.
fn copy_words(v: &Vec<String>, from: usize) -> (r: Vec<String>)
    requires
        from <= v@.len(),
    ensures
        words(r@) == words(v@).skip(from as int),
{
    let mut r: Vec<String> = Vec::new();
    let mut i: usize = from;
    while i < v.len()
        invariant
            from <= i <= v@.len(),
            words(r@) == words(v@).subrange(from as int, i as int),
        decreases v@.len() - i,
    {
        r.push(v[i].clone());
        proof {
            assert(words(v@).subrange(from as int, i + 1) =~= words(v@).subrange(from as int, i as int).push(v@[i as int]@));
            assert(words(r@) =~= words(r@.drop_last()).push(r@.last()@));
        }
        i += 1;
    }
    assert(words(v@).subrange(from as int, v@.len() as int) =~= words(v@).skip(from as int));
    r
}

impl CommandMap {
    /// Whether `w` may come first in one of the map's lines.
    pub fn contains_key(&self, w: &str) -> (r: bool)
        ensures
            r == is_key(self@, w@),
    {
        let mut i: usize = 0;
        while i < self.0.len()
            invariant
                i <= self.0@.len(),
                forall|j: int| 0 <= j < i ==> !((#[trigger] self@[j]).len() > 0 && self@[j][0] == w@),
            decreases self.0@.len() - i,
        {
            let line = &self.0[i];
            if line.len() > 0 && str_eq(line[0].as_str(), w) {
                assert(self@[i as int].len() > 0 && self@[i as int][0] == w@);
                return true;
            }
            i += 1;
        }
        false
    }

    /// The map below the word `w`.
    pub fn get(&self, w: &str) -> (r: CommandMap)
        ensures
            r@ == child_paths(self@, w@),
    {
        let mut out: Vec<Vec<String>> = Vec::new();
        let mut i: usize = 0;
        while i < self.0.len()
            invariant
                i <= self.0@.len(),
                out@.map_values(|line: Vec<String>| words(line@)) == child_paths(self@.take(i as int), w@),
            decreases self.0@.len() - i,
        {
            let line = &self.0[i];
            proof {
                assert(self@.take(i + 1).drop_last() =~= self@.take(i as int));
                assert(self@.take(i + 1).last() == self@[i as int]);
            }
            if line.len() > 0 && str_eq(line[0].as_str(), w) {
                let rest = copy_words(line, 1);
                let ghost before = out@.map_values(|line: Vec<String>| words(line@));
                out.push(rest);
                proof {
                    assert(words(line@).skip(1) =~= words(line@).drop_first());
                    assert(out@.map_values(|line: Vec<String>| words(line@)) =~= before.push(words(rest@)));
                }
            }
            i += 1;
        }
        assert(self@.take(self@.len() as int) =~= self@);
        CommandMap(out)
    }

    /// The first words of the map's lines that begin with `prefix`, each once, in character order.
    pub fn keys_matching(&self, prefix: &str) -> (r: Vec<String>)
        ensures
            strictly_sorted(r@),
            forall|n: Seq<char>| #[trigger] has_text(r@, n) <==> (is_key(self@, n) && spec_starts_with(n, prefix@)),
    {
        let mut r: Vec<String> = Vec::new();
        let mut i: usize = 0;
        while i < self.0.len()
            invariant
                i <= self.0@.len(),
                strictly_sorted(r@),
                forall|n: Seq<char>| #[trigger] has_text(r@, n) <==> (spec_starts_with(n, prefix@) && exists|j: int|
                    0 <= j < i && (#[trigger] self@[j]).len() > 0 && self@[j][0] == n),
            decreases self.0@.len() - i,
        {
            let line = &self.0[i];
            if line.len() > 0 && starts_with(line[0].as_str(), prefix) {
                let w = line[0].clone();
                let ghost before = r@;
                insert_sorted_unique(&mut r, w);
                proof {
                    assert forall|n: Seq<char>| #[trigger] has_text(r@, n) <==> (spec_starts_with(n, prefix@) && exists|j: int|
                        0 <= j < i + 1 && (#[trigger] self@[j]).len() > 0 && self@[j][0] == n) by {
                        if n == w@ {
                            assert(self@[i as int].len() > 0 && self@[i as int][0] == n);
                        }
                        if spec_starts_with(n, prefix@) && exists|j: int| 0 <= j < i + 1 && (#[trigger] self@[j]).len() > 0 && self@[j][0] == n {
                            let j = choose|j: int| 0 <= j < i + 1 && (#[trigger] self@[j]).len() > 0 && self@[j][0] == n;
                            if j < i {
                                assert(has_text(before, n));
                            }
                        }
                    }
                }
            } else {
                proof {
                    assert forall|n: Seq<char>| #[trigger] has_text(r@, n) <==> (spec_starts_with(n, prefix@) && exists|j: int|
                        0 <= j < i + 1 && (#[trigger] self@[j]).len() > 0 && self@[j][0] == n) by {
                        if exists|j: int| 0 <= j < i + 1 && (#[trigger] self@[j]).len() > 0 && self@[j][0] == n {
                            let j = choose|j: int| 0 <= j < i + 1 && (#[trigger] self@[j]).len() > 0 && self@[j][0] == n;
                            if j == i && spec_starts_with(n, prefix@) {
                                assert(line@[0]@ == n);
                            }
                        }
                    }
                }
            }
            i += 1;
        }
        r
    }
}


/// The command lines the prompt knows.
pub open spec fn command_lines() -> Seq<Seq<char>> {
    seq![
        "exit"@,
        "help"@,
        "select"@,
        "device list"@,
        "device add"@,
        "device remove"@,
        "config reload all"@,
        "config save all"@,
        "config import"@,
        "config export"@,
        "module list"@,
        "module info"@,
        "module params add"@,
        "module params remove"@,
        "module params set"@,
        "module params upload"@,
        "module params list"@,
        "font list"@,
        "component list"@,
        "component info"@,
        "image list"@,
        "image add"@,
        "image remove"@,
        "button list"@,
        "button info"@,
        "button new"@,
        "button from"@,
        "button copy"@,
        "button paste"@,
        "button remove"@,
        "button component add"@,
        "button component remove"@,
        "button component params add"@,
        "button component params remove"@,
        "button component params set"@,
        "button component params upload"@,
        "button component params list"@,
        "brightness"@,
        "back"@,
        "press"@,
        "stack"@
    ]
}

/// The command lines the prompt knows, as text.
pub fn command_lines_text() -> (r: Vec<&'static str>)
    ensures
        r@.map_values(|s: &str| s@) == command_lines(),
{
    let r: Vec<&'static str> = vec![
        "exit",
        "help",
        "select",
        "device list",
        "device add",
        "device remove",
        "config reload all",
        "config save all",
        "config import",
        "config export",
        "module list",
        "module info",
        "module params add",
        "module params remove",
        "module params set",
        "module params upload",
        "module params list",
        "font list",
        "component list",
        "component info",
        "image list",
        "image add",
        "image remove",
        "button list",
        "button info",
        "button new",
        "button from",
        "button copy",
        "button paste",
        "button remove",
        "button component add",
        "button component remove",
        "button component params add",
        "button component params remove",
        "button component params set",
        "button component params upload",
        "button component params list",
        "brightness",
        "back",
        "press",
        "stack"
    ];
    assert(r@.map_values(|s: &str| s@) =~= command_lines());
    r
}

/// The command tree of the prompt: each known command line split into words.
pub open spec fn command_tree() -> Seq<Seq<Seq<char>>> {
    command_lines().map_values(|l: Seq<char>| split_on(l, ' '))
}

/// Builds the command tree of the prompt.
pub fn get_command_map() -> (r: CommandMap)
    ensures
        r@ == command_tree(),
{
    let lines = command_lines_text();
    let mut out: Vec<Vec<String>> = Vec::new();
    let mut i: usize = 0;
    while i < lines.len()
        invariant
            i <= lines@.len(),
            lines@.map_values(|s: &str| s@) == command_lines(),
            out@.map_values(|line: Vec<String>| words(line@)) == command_tree().take(i as int),
        decreases lines@.len() - i,
    {
        let w = split_words(lines[i]);
        let ghost before = out@.map_values(|line: Vec<String>| words(line@));
        out.push(w);
        proof {
            assert(lines@[i as int]@ == command_lines()[i as int]);
            assert(out@.map_values(|line: Vec<String>| words(line@)) =~= before.push(words(w@)));
            assert(command_tree().take(i + 1) =~= command_tree().take(i as int).push(command_tree()[i as int]));
        }
        i += 1;
    }
    assert(command_tree().take(lines@.len() as int) =~= command_tree());
    CommandMap(out)
}

/// Moving the starting position of a walk moves its end by the same amount and changes nothing else.
pub proof fn lemma_walk_shift(pieces: Seq<Seq<char>>, ps: Seq<Seq<Seq<char>>>, a: int, b: int)
    ensures
        walk(pieces, ps, a) is Some <==> walk(pieces, ps, b) is Some,
        walk(pieces, ps, a) is Some ==> ({
            let x = walk(pieces, ps, a)->0;
            let y = walk(pieces, ps, b)->0;
            x.0 - a == y.0 - b && x.1 == y.1 && x.2 == y.2 && x.3 == y.3
        }),
    decreases pieces.len(),
{
    if pieces.len() > 0 && pieces[0].len() > 0 && is_key(ps, pieces[0]) {
        lemma_walk_shift(pieces.drop_first(), child_paths(ps, pieces[0]), a + 1 + pieces[0].len(), b + 1 + pieces[0].len());
    }
}

/// The hint for the words of a line from position `from` on, in `current_map`: the rest of
/// the first command word that the last word begins.
fn find_closest_command(line: &Vec<String>, from: usize, current_map: &CommandMap) -> (r: Option<String>)
    requires
        from <= line@.len(),
    ensures
        match r {
            Some(h) => closest(words(line@).skip(from as int), current_map@) == Some(h@),
            None => closest(words(line@).skip(from as int), current_map@) is None,
        },
    decreases line@.len() - from,
{
    let ghost pieces = words(line@).skip(from as int);
    if from < line.len() {
        let piece = line[from].as_str();
        let piece_len = piece.unicode_len();
        assert(pieces[0] == piece@);
        if piece_len != 0 {
            if current_map.contains_key(piece) {
                let found = current_map.get(piece);
                proof {
                    assert(words(line@).skip(from + 1) =~= pieces.drop_first());
                    lemma_walk_shift(pieces.drop_first(), found@, 0, 1 + piece@.len() as int);
                }
                find_closest_command(line, from + 1, &found)
            } else {
                if from + 1 >= line.len() {
                    let keys = current_map.keys_matching(piece);
                    if keys.len() > 0 {
                        let k = &keys[0];
                        proof {
                            assert(has_text(keys@, k@));
                            assert(is_least_match(current_map@, piece@, k@)) by {
                                assert forall|k2: Seq<char>| #[trigger] is_key(current_map@, k2) && spec_starts_with(k2, piece@)
                                    implies !seq_lt(k2, k@) by {
                                    assert(has_text(keys@, k2));
                                    let j = choose|j: int| 0 <= j < keys@.len() && (#[trigger] keys@[j])@ == k2;
                                    if j > 0 {
                                        lemma_seq_lt_asym(k@, k2);
                                    } else {
                                        crate::text::lemma_seq_lt_irreflexive(k2);
                                    }
                                }
                            }
                            let c = choose|c: Seq<char>| is_least_match(current_map@, piece@, c);
                            lemma_least_unique(current_map@, piece@, c, k@);
                        }
                        let k_len = k.as_str().unicode_len();
                        let rest = to_owned(k.as_str().substring_char(piece_len, k_len));
                        assert(rest@ =~= k@.skip(piece@.len() as int));
                        return Some(rest);
                    } else {
                        proof {
                            if exists|c: Seq<char>| is_least_match(current_map@, piece@, c) {
                                let c = choose|c: Seq<char>| is_least_match(current_map@, piece@, c);
                                assert(has_text(keys@, c));
                            }
                        }
                    }
                }
                None
            }
        } else {
            None
        }
    } else {
        None
    }
}

/// The completions for the words of a line from position `from` on, in `current_map`, with
/// `current_pos` the position in the line of the word at `from`: where the completed word
/// starts, and the command words that may stand there, in character order.
fn get_candidates(line: &Vec<String>, from: usize, current_map: &CommandMap, current_pos: usize) -> (r: Option<(usize, Vec<String>)>)
    requires
        from <= line@.len(),
        current_pos + total_len(words(line@).skip(from as int)) <= usize::MAX,
    ensures
        match walk(words(line@).skip(from as int), current_map@, current_pos as int) {
            None => r is None,
            Some((pos, at, prefix, any)) => r matches Some((p, v)) && p == pos && strictly_sorted(v@) && forall|n: Seq<char>|
                #[trigger] has_text(v@, n) <==> (any && is_key(at, n) && spec_starts_with(n, prefix)),
        },
    decreases line@.len() - from,
{
    let ghost pieces = words(line@).skip(from as int);
    if from < line.len() {
        let piece = line[from].as_str();
        let piece_len = piece.unicode_len();
        assert(pieces[0] == piece@);
        assert(pieces.drop_first() =~= words(line@).skip(from + 1));
        if piece_len != 0 {
            if current_map.contains_key(piece) {
                let found = current_map.get(piece);
                assert(total_len(pieces) == piece@.len() + 1 + total_len(pieces.drop_first()));
                proof {
                    lemma_total_len_nonneg(pieces.drop_first());
                }
                return get_candidates(line, from + 1, &found, current_pos + 1 + piece_len);
            } else {
                let mut candidates: Vec<String> = Vec::new();
                if from + 1 >= line.len() {
                    candidates = current_map.keys_matching(piece);
                } else {
                    assert forall|i: int, j: int| 0 <= i < j < candidates@.len() implies seq_lt((#[trigger] candidates@[i])@, (#[trigger] candidates@[j])@) by {}
                }
                return Some((current_pos, candidates));
            }
        } else {
            let all = current_map.keys_matching("");
            proof {
                reveal_strlit("");
                assert forall|n: Seq<char>| #[trigger] has_text(all@, n) <==> (true && is_key(current_map@, n) && spec_starts_with(n, Seq::<char>::empty())) by {
                    assert(n.subrange(0, 0) =~= Seq::<char>::empty());
                    assert(""@ =~= Seq::<char>::empty());
                }
            }
            Some((current_pos, all))
        }
    } else {
        None
    }
}

/// Completion and hints for the interactive prompt.
pub struct StreamduckHelper;

impl StreamduckHelper {
    /// The completions for a line: where the completed word starts, and the command words that
    /// may stand there, in character order; `pos` and no words where the line names a whole command.
    pub fn complete(&self, line: &str, pos: usize) -> (r: (usize, Vec<String>))
        requires
            line@.len() < usize::MAX,
        ensures
            match walk(split_on(line@, ' '), command_tree(), 0) {
                None => r.0 == pos && r.1@.len() == 0,
                Some((p, at, prefix, any)) => r.0 == p && strictly_sorted(r.1@) && forall|n: Seq<char>|
                    #[trigger] has_text(r.1@, n) <==> (any && is_key(at, n) && spec_starts_with(n, prefix)),
            },
    {
        let map = get_command_map();
        let pieces = split_words(line);
        proof {
            lemma_split_total_len(line@, ' ');
            assert(words(pieces@).skip(0) =~= words(pieces@));
        }
        match get_candidates(&pieces, 0, &map, 0) {
            Some(result) => result,
            None => (pos, Vec::new()),
        }
    }

    /// The hint for a line: the rest of the first command word that its last word begins.
    pub fn hint(&self, line: &str) -> (r: Option<String>)
        ensures
            match r {
                Some(h) => closest(split_on(line@, ' '), command_tree()) == Some(h@),
                None => closest(split_on(line@, ' '), command_tree()) is None,
            },
    {
        let map = get_command_map();
        let pieces = split_words(line);
        assert(words(pieces@).skip(0) =~= words(pieces@));
        find_closest_command(&pieces, 0, &map)
    }
}

/// A hint is always the rest of the first completion offered for the same line: the last word
/// followed by the hint is the first, in character order, of the command words offered there.
pub proof fn law_hint_is_first_candidate(pieces: Seq<Seq<char>>, ps: Seq<Seq<Seq<char>>>, h: Seq<char>)
    requires
        closest(pieces, ps) == Some(h),
    ensures
        walk(pieces, ps, 0) is Some,
        ({
            let (_, at, prefix, any) = walk(pieces, ps, 0)->0;
            any && prefix.len() > 0 && is_least_match(at, prefix, prefix + h)
        }),
{
    let (_, at, prefix, any) = walk(pieces, ps, 0)->0;
    let k = choose|k: Seq<char>| is_least_match(at, prefix, k);
    assert(spec_starts_with(k, prefix));
    assert(prefix + h =~= k);
}

} // verus!
