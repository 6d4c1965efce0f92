//! Localizations: translations of keyed strings into languages, with English as the fallback.

use vstd::prelude::*;
use serde_json::Value;
use crate::keyed::{KeyedList, MapKey};
use crate::text::{replace_all, replace_text, to_owned};

verus! {

/// Language tag for English language, used as fallback
pub const ENGLISH_LANG_TAG: &'static str = "en";

/// The content of a JSON value that is a string; none for any other JSON value.
pub uninterp spec fn json_string_content(v: Value) -> Option<Seq<char>>;

/// The JSON text `serde_json` writes for a value; none where it fails to write it.
pub uninterp spec fn json_text(v: Value) -> Option<Seq<char>>;

/// `Value::as_str`, copied into an owned string: the content of a JSON string.
#[verifier::external_body]
fn string_content(v: &Value) -> (r: Option<String>)
    ensures
        match r {
            Some(s) => json_string_content(*v) == Some(s@),
            None => json_string_content(*v) is None,
        },
{
    match v.as_str() {
        Some(s) => Some(s.to_string()),
        None => None,
    }
}

/// `serde_json::to_string`: the JSON text of a value, named by `json_text`.
#[verifier::external_body]
fn to_json_text(v: &Value) -> (r: Option<String>)
    ensures
        match r {
            Some(s) => json_text(*v) == Some(s@),
            None => json_text(*v) is None,
        },
{
    serde_json::to_string(v).ok()
}

/// The text a translation parameter stands for: a JSON string as its content, any other JSON
/// value as its JSON text.
pub open spec fn parameter_text(v: Value) -> Option<Seq<char>> {
    match json_string_content(v) {
        Some(s) => Some(s),
        None => json_text(v),
    }
}

/// The text a translation parameter stands for
fn render_parameter(v: &Value) -> (r: Option<String>)
    ensures
        match r {
            Some(s) => parameter_text(*v) == Some(s@),
            None => parameter_text(*v) is None,
        },
{
    match string_content(v) {
        Some(s) => Some(s),
        None => to_json_text(v),
    }
}

/// The decimal digit character for a number below ten.
pub open spec fn digit_char(d: nat) -> char {
    ((d + 48) as u32) as char
}

/// A number written in decimal.
pub open spec fn decimal(n: nat) -> Seq<char>
    decreases n,
{
    if n < 10 {
        seq![digit_char(n)]
    } else {
        decimal(n / 10) + seq![digit_char(n % 10)]
    }
}

fn digit_text(d: usize) -> (r: &'static str)
    requires
        d < 10,
    ensures
        r@ == seq![digit_char(d as nat)],
{
    proof {
        reveal_strlit("0");
        reveal_strlit("1");
        reveal_strlit("2");
        reveal_strlit("3");
        reveal_strlit("4");
        reveal_strlit("5");
        reveal_strlit("6");
        reveal_strlit("7");
        reveal_strlit("8");
        reveal_strlit("9");
    }
    let r = if d == 0 {
        "0"
    } else if d == 1 {
        "1"
    } else if d == 2 {
        "2"
    } else if d == 3 {
        "3"
    } else if d == 4 {
        "4"
    } else if d == 5 {
        "5"
    } else if d == 6 {
        "6"
    } else if d == 7 {
        "7"
    } else if d == 8 {
        "8"
    } else {
        "9"
    };
    assert(r@ =~= seq![digit_char(d as nat)]);
    r
}

/// Writes a number in decimal.
pub fn decimal_text(n: usize) -> (r: String)
    ensures
        r@ == decimal(n as nat),
    decreases n,
{
    if n < 10 {
        to_owned(digit_text(n))
    } else {
        let mut s = decimal_text(n / 10);
        s.append(digit_text(n % 10));
        s
    }
}

/// The placeholder of parameter `i` in a translation: the index in curly brackets.
pub open spec fn placeholder(i: nat) -> Seq<char> {
    "{"@ + decimal(i) + "}"@
}

/// A translation with the placeholders of the first `n` parameters replaced, in order of
/// index, by the texts of the parameters.
pub open spec fn fill(translation: Seq<char>, texts: Seq<Seq<char>>, n: nat) -> Seq<char>
    decreases n,
{
    if n == 0 {
        translation
    } else {
        replace_all(fill(translation, texts, (n - 1) as nat), placeholder((n - 1) as nat), texts[n - 1])
    }
}

/// The texts of a list of parameters, if every one of them has a text.
pub open spec fn parameter_texts(params: Seq<Value>) -> Option<Seq<Seq<char>>>
    decreases params.len(),
{
    if params.len() == 0 {
        Some(Seq::empty())
    } else {
        match (parameter_texts(params.drop_last()), parameter_text(params.last())) {
            (Some(init), Some(t)) => Some(init.push(t)),
            _ => None,
        }
    }
}

/// Localized string that needs to be translated before being used
#[derive(Debug)]
pub struct LocalizedString {
    /// Translation key
    pub key: String,
    /// Parameters
    pub parameters: Vec<Value>,
}

impl LocalizedString {
    /// Creates new localized string with no parameters
    pub fn new(key: &str) -> (r: LocalizedString)
        ensures
            r.key@ == key@,
            r.parameters@.len() == 0,
    {
        LocalizedString { key: to_owned(key), parameters: Vec::new() }
    }

    /// Adds a parameter to the localized string
    pub fn add_parameter(&mut self, parameter: Value)
        ensures
            final(self).key@ == old(self).key@,
            final(self).parameters@ == old(self).parameters@.push(parameter),
    {
        self.parameters.push(parameter);
    }

    /// Adds a parameter to the localized string and returns it, made for chaining
    pub fn with_parameter(self, parameter: Value) -> (r: LocalizedString)
        ensures
            r.key@ == self.key@,
            r.parameters@ == self.parameters@.push(parameter),
    {
        let mut s = self;
        s.add_parameter(parameter);
        s
    }
}

/// Actual data of the localization
#[derive(Debug)]
pub struct LocalizationData {
    /// Display name of the language, can be in its language (eg. English, Русский)
    pub display_name: String,
    /// Translation pairs for the language, key to translation
    pub translations: KeyedList<String, String>,
}

/// What translating a localized string with a table of translations gives: nothing where the
/// table has no translation for its key or a parameter has no text; otherwise the translation
/// with the placeholders filled in.
pub open spec fn translated(table: Map<Seq<char>, String>, key: Seq<char>, params: Seq<Value>) -> Option<Seq<char>> {
    if !table.dom().contains(key) {
        None
    } else {
        match parameter_texts(params) {
            Some(texts) => Some(fill(table[key]@, texts, params.len())),
            None => None,
        }
    }
}

/// Localization for a specific language, contains the localization data and helpful functions for it
#[derive(Debug)]
pub struct Localization {
    data: LocalizationData,
}

impl Localization {
    /// The translation table, key to translation
    pub closed spec fn table(&self) -> Map<Seq<char>, String> {
        self.data.translations.map()
    }

    /// The display name of the language
    pub closed spec fn name(&self) -> Seq<char> {
        self.data.display_name@
    }

    /// Creates new instance of a localization, name of the language can be in its language (eg. English, Русский)
    pub fn new(display_name: &str) -> (r: Localization)
        ensures
            r.name() == display_name@,
            r.table() == Map::<Seq<char>, String>::empty(),
    {
        Localization { data: LocalizationData { display_name: to_owned(display_name), translations: KeyedList::new() } }
    }

    /// Wraps localization data
    pub fn from_data(data: LocalizationData) -> (r: Localization)
        ensures
            r.name() == data.display_name@,
            r.table() == data.translations.map(),
    {
        Localization { data }
    }

    /// The localization data
    pub fn data(&self) -> (r: &LocalizationData)
        ensures
            r.display_name@ == self.name(),
            r.translations.map() == self.table(),
    {
        &self.data
    }

    /// Retrieves display name of the language
    pub fn display_name(&self) -> (r: String)
        ensures
            r@ == self.name(),
    {
        self.data.display_name.clone()
    }

    /// Looks a key up in the localization
    pub fn get(&self, key: &str) -> (r: Option<String>)
        ensures
            match r {
                Some(t) => self.table().dom().contains(key@) && t@ == self.table()[key@]@,
                None => !self.table().dom().contains(key@),
            },
    {
        let k = to_owned(key);
        match self.data.translations.get(&k) {
            Some(t) => Some(t.clone()),
            None => None,
        }
    }

    /// Attempts to translate the localized string
    pub fn translate(&self, l_str: &LocalizedString) -> (r: Option<String>)
        ensures
            match r {
                Some(t) => translated(self.table(), l_str.key@, l_str.parameters@) == Some(t@),
                None => translated(self.table(), l_str.key@, l_str.parameters@) is None,
            },
    {
        let mut translation = match self.get(l_str.key.as_str()) {
            Some(t) => t,
            None => return None,
        };
        let ghost params = l_str.parameters@;
        let mut i: usize = 0;
        while i < l_str.parameters.len()
            invariant
                i <= params.len(),
                params == l_str.parameters@,
                self.table().dom().contains(l_str.key@),
                parameter_texts(params.take(i as int)) is Some,
                translation@ == fill(self.table()[l_str.key@]@, parameter_texts(params.take(i as int))->0, i as nat),
            decreases params.len() - i,
        {
            proof {
                assert(params.take(i + 1).drop_last() =~= params.take(i as int));
                assert(params.take(i + 1).last() == params[i as int]);
            }
            let representation = match render_parameter(&l_str.parameters[i]) {
                Some(t) => t,
                None => {
                    proof {
                        lemma_texts_none_grows(params, i + 1, params.len() as int);
                        assert(params.take(params.len() as int) =~= params);
                    }
                    return None;
                },
            };
            let mut pattern = to_owned("{");
            let number = decimal_text(i);
            pattern.append(number.as_str());
            pattern.append("}");
            let ghost texts = parameter_texts(params.take(i + 1))->0;
            proof {
                assert(texts == parameter_texts(params.take(i as int))->0.push(representation@));
                lemma_texts_len(params, i as int);
                lemma_fill_prefix(self.table()[l_str.key@]@, parameter_texts(params.take(i as int))->0, texts, i as nat);
            }
            assert(pattern@ == placeholder(i as nat));
            translation = replace_text(translation.as_str(), pattern.as_str(), representation.as_str());
            i += 1;
        }
        proof {
            assert(params.take(params.len() as int) =~= params);
        }
        Some(translation)
    }

    /// Inserts translation into the localization, overrides if already exists!
    pub fn insert(&mut self, key: &str, value: &str)
        ensures
            final(self).name() == old(self).name(),
            final(self).table().dom() == old(self).table().dom().insert(key@),
            final(self).table()[key@]@ == value@,
            forall|k: Seq<char>| k != key@ ==> #[trigger] final(self).table().get(k) == old(self).table().get(k),
    {
        self.data.translations.insert(to_owned(key), to_owned(value));
    }

    /// Extends the localization with translation pairs, later pairs overriding earlier ones
    pub fn extend(&mut self, pairs: Vec<(String, String)>)
        ensures
            final(self).name() == old(self).name(),
            final(self).table() == extended(old(self).table(), pairs@),
    {
        let mut i: usize = 0;
        while i < pairs.len()
            invariant
                i <= pairs@.len(),
                self.name() == old(self).name(),
                self.table() == extended(old(self).table(), pairs@.take(i as int)),
            decreases pairs@.len() - i,
        {
            proof {
                assert(pairs@.take(i + 1).drop_last() =~= pairs@.take(i as int));
                assert(pairs@.take(i + 1).last() == pairs@[i as int]);
            }
            let (k, v) = (pairs[i].0.clone(), pairs[i].1.clone());
            self.data.translations.insert(k, v);
            i += 1;
        }
        assert(pairs@.take(pairs@.len() as int) =~= pairs@);
    }

    /// Retrieves all the translation keys that the localization has
    pub fn translation_keys(&self) -> (r: Vec<String>)
        ensures
            forall|k: Seq<char>| #[trigger] self.table().dom().contains(k) <==> exists|i: int| 0 <= i < r@.len() && r@[i]@ == k,
    {
        self.data.translations.lemma_wf();
        let keys = self.data.translations.keys();
        proof {
            assert forall|k: Seq<char>| #[trigger] self.table().dom().contains(k) <==> exists|i: int| 0 <= i < keys@.len() && keys@[i]@ == k by {
                if self.table().dom().contains(k) {
                    let i = choose|i: int| 0 <= i < self.data.translations.entries().len() && (#[trigger] self.data.translations.entries()[i]).0.key_view() == k;
                    assert(keys@[i] == self.data.translations.entries()[i].0);
                }
                if exists|i: int| 0 <= i < keys@.len() && keys@[i]@ == k {
                    let i = choose|i: int| 0 <= i < keys@.len() && keys@[i]@ == k;
                    assert(keys@[i] == self.data.translations.entries()[i].0);
                    assert(self.data.translations.entries()[i].0.key_view() == k);
                }
            }
        }
        keys
    }
}

/// A translation table after the pairs, in order.
pub open spec fn extended(table: Map<Seq<char>, String>, pairs: Seq<(String, String)>) -> Map<Seq<char>, String>
    decreases pairs.len(),
{
    if pairs.len() == 0 {
        table
    } else {
        extended(table, pairs.drop_last()).insert(pairs.last().0@, pairs.last().1)
    }
}

proof fn lemma_texts_none_grows(params: Seq<Value>, n: int, m: int)
    requires
        0 <= n <= m <= params.len(),
        parameter_texts(params.take(n)) is None,
    ensures
        parameter_texts(params.take(m)) is None,
    decreases m - n,
{
    if n < m {
        assert(params.take(n + 1).drop_last() =~= params.take(n));
        lemma_texts_none_grows(params, n + 1, m);
    }
}

proof fn lemma_texts_len(params: Seq<Value>, n: int)
    requires
        0 <= n <= params.len(),
        parameter_texts(params.take(n)) is Some,
    ensures
        parameter_texts(params.take(n))->0.len() == n,
    decreases n,
{
    if n > 0 {
        assert(params.take(n).drop_last() =~= params.take(n - 1));
        lemma_texts_len(params, n - 1);
    }
}

proof fn lemma_fill_prefix(t: Seq<char>, a: Seq<Seq<char>>, b: Seq<Seq<char>>, n: nat)
    requires
        a.len() >= n,
        b.len() >= n,
        forall|k: int| 0 <= k < n ==> a[k] == b[k],
    ensures
        fill(t, a, n) == fill(t, b, n),
    decreases n,
{
    if n > 0 {
        lemma_fill_prefix(t, a, b, (n - 1) as nat);
    }
}

/// Manages localizations of the software
pub struct LocalizationManager {
    localizations: KeyedList<String, Localization>,
}

/// What the manager gives for a language: the translation in that language, if it has one.
pub open spec fn translated_in(m: Map<Seq<char>, Localization>, tag: Seq<char>, l: LocalizedString) -> Option<Seq<char>> {
    if m.dom().contains(tag) {
        translated(m[tag].table(), l.key@, l.parameters@)
    } else {
        None
    }
}

impl LocalizationManager {
    /// The localizations, by language tag
    pub closed spec fn languages_map(&self) -> Map<Seq<char>, Localization> {
        self.localizations.map()
    }

    /// Creates new instance of the manager
    pub fn new() -> (r: LocalizationManager)
        ensures
            r.languages_map() == Map::<Seq<char>, Localization>::empty(),
    {
        LocalizationManager { localizations: KeyedList::new() }
    }

    /// Retrieves localization if it exists
    pub fn get(&self, language_tag: &str) -> (r: Option<&Localization>)
        ensures
            match r {
                Some(l) => self.languages_map().dom().contains(language_tag@) && *l == self.languages_map()[language_tag@],
                None => !self.languages_map().dom().contains(language_tag@),
            },
    {
        let k = to_owned(language_tag);
        self.localizations.get(&k)
    }

    /// Translates the localized string using the preferred language, and falls back to
    /// English where the preferred language has no translation for it
    pub fn translate(&self, preferred_language: &str, l_str: &LocalizedString) -> (r: Option<String>)
        ensures
            match translated_in(self.languages_map(), preferred_language@, *l_str) {
                Some(t) => r is Some && r->0@ == t,
                None => match translated_in(self.languages_map(), ENGLISH_LANG_TAG@, *l_str) {
                    Some(t) => r is Some && r->0@ == t,
                    None => r is None,
                },
            },
    {
        if let Some(localization) = self.get(preferred_language) {
            if let Some(translation) = localization.translate(l_str) {
                return Some(translation);
            }
        }
        match self.get(ENGLISH_LANG_TAG) {
            Some(english) => english.translate(l_str),
            None => None,
        }
    }

    /// Inserts localization into the manager using the language tag, overrides if already exists!
    pub fn insert(&mut self, language_tag: &str, localization: Localization)
        ensures
            final(self).languages_map() == old(self).languages_map().insert(language_tag@, localization),
    {
        self.localizations.insert(to_owned(language_tag), localization);
    }

    /// Retrieves a localization if it exists, or inserts the given one if it doesn't
    pub fn get_or_insert(&mut self, language_tag: &str, localization: Localization) -> (r: &Localization)
        ensures
            old(self).languages_map().dom().contains(language_tag@) ==> final(self).languages_map() == old(
                self,
            ).languages_map() && *r == old(self).languages_map()[language_tag@],
            !old(self).languages_map().dom().contains(language_tag@) ==> final(self).languages_map() == old(
                self,
            ).languages_map().insert(language_tag@, localization) && *r == localization,
    {
        let k = to_owned(language_tag);
        if !self.localizations.contains_key(&k) {
            self.localizations.insert(to_owned(language_tag), localization);
        }
        self.localizations.get(&k).unwrap()
    }

    /// Builds the manager from serializable data: language tag and localization data, a later
    /// entry for a tag replacing an earlier one
    pub fn from_serializable_data(data: Vec<(String, LocalizationData)>) -> (r: LocalizationManager)
        ensures
            forall|tag: Seq<char>| #[trigger] r.languages_map().dom().contains(tag) <==> exists|i: int| 0 <= i < data@.len() && data@[i].0@ == tag,
            forall|i: int| 0 <= i < data@.len() && (forall|j: int| i < j < data@.len() ==> data@[j].0@ != data@[i].0@)
                ==> r.languages_map()[(#[trigger] data@[i]).0@].table() == data@[i].1.translations.map()
                && r.languages_map()[data@[i].0@].name() == data@[i].1.display_name@,
    {
        let ghost d = data@;
        assert(d.len() == data.len());
        let mut manager = LocalizationManager::new();
        let mut rest = data;
        let mut reversed: Vec<(String, LocalizationData)> = Vec::new();
        while rest.len() > 0
            invariant
                rest@.len() + reversed@.len() == d.len(),
                rest@ == d.take(rest@.len() as int),
                forall|i: int| 0 <= i < reversed@.len() ==> #[trigger] reversed@[i] == d[d.len() - 1 - i],
            decreases rest@.len(),
        {
            let n = rest.len();
            let entry = rest.pop().unwrap();
            proof {
                assert(d.take(n as int).drop_last() =~= d.take(n - 1));
            }
            reversed.push(entry);
        }
        let mut k: usize = 0;
        while reversed.len() > 0
            invariant
                k + reversed@.len() == d.len(),
                d.len() <= usize::MAX,
                forall|i: int| 0 <= i < reversed@.len() ==> #[trigger] reversed@[i] == d[d.len() - 1 - i],
                forall|tag: Seq<char>| #[trigger] manager.languages_map().dom().contains(tag) <==> exists|i: int| 0 <= i < k && d[i].0@ == tag,
                forall|i: int| 0 <= i < k && (forall|j: int| i < j < k ==> d[j].0@ != d[i].0@)
                    ==> manager.languages_map()[(#[trigger] d[i]).0@].table() == d[i].1.translations.map()
                    && manager.languages_map()[d[i].0@].name() == d[i].1.display_name@,
            decreases reversed@.len(),
        {
            let (tag, localization_data) = reversed.pop().unwrap();
            assert((tag, localization_data) == d[k as int]);
            manager.insert(tag.as_str(), Localization::from_data(localization_data));
            proof {
                assert forall|t: Seq<char>| #[trigger] manager.languages_map().dom().contains(t) <==> exists|i: int| 0 <= i < k + 1 && d[i].0@ == t by {
                    if t == d[k as int].0@ {
                        assert(d[k as int].0@ == t);
                    }
                }
            }
            k += 1;
        }
        manager
    }

    /// Retrieves all the languages that the manager has
    pub fn languages(&self) -> (r: Vec<String>)
        ensures
            forall|k: Seq<char>| #[trigger] self.languages_map().dom().contains(k) <==> exists|i: int| 0 <= i < r@.len() && r@[i]@ == k,
    {
        self.localizations.lemma_wf();
        let keys = self.localizations.keys();
        proof {
            assert forall|k: Seq<char>| #[trigger] self.languages_map().dom().contains(k) <==> exists|i: int| 0 <= i < keys@.len() && keys@[i]@ == k by {
                if self.languages_map().dom().contains(k) {
                    let i = choose|i: int| 0 <= i < self.localizations.entries().len() && (#[trigger] self.localizations.entries()[i]).0.key_view() == k;
                    assert(keys@[i] == self.localizations.entries()[i].0);
                }
                if exists|i: int| 0 <= i < keys@.len() && keys@[i]@ == k {
                    let i = choose|i: int| 0 <= i < keys@.len() && keys@[i]@ == k;
                    assert(keys@[i] == self.localizations.entries()[i].0);
                    assert(self.localizations.entries()[i].0.key_view() == k);
                }
            }
        }
        keys
    }
}

/// A translation inserted into a localization is what looking its key up gives back, and
/// every other key keeps what it had.
pub proof fn law_insert_then_get(table: Map<Seq<char>, String>, key: Seq<char>, value: String, other: Seq<char>)
    ensures
        table.insert(key, value)[key] == value,
        other != key ==> table.insert(key, value).get(other) == table.get(other),
{
}

} // verus!
