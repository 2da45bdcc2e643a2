//! Languages and the localized strings of the game.

use vstd::prelude::*;
use vstd::string::StrSliceExecFns;
use crate::text::{concat, lemma_split_on_nonempty, lossy_text, split_char, split_on, trim, trimmed, utf8_lossy};

verus! {

/// A language the game is localized into (`MAX` counts them).
#[derive(Copy, Clone, Default, Debug, PartialEq, Eq, Structural)]
pub enum Language {
    #[default]
    ENGLISH,
    FRENCH,
    FRENCHCANADIAN,
    GERMAN,
    AUSTRIAN,
    ITALIAN,
    SPANISH,
    BRITISH,
    RUSSIAN,
    POLISH,
    KOREAN,
    JAPANESE,
    CZECH,
    MAX,
}

impl Language {
    /// The number of a language.
    pub open spec fn number(self) -> u8 {
        match self {
            Language::ENGLISH => 0,
            Language::FRENCH => 1,
            Language::FRENCHCANADIAN => 2,
            Language::GERMAN => 3,
            Language::AUSTRIAN => 4,
            Language::ITALIAN => 5,
            Language::SPANISH => 6,
            Language::BRITISH => 7,
            Language::RUSSIAN => 8,
            Language::POLISH => 9,
            Language::KOREAN => 10,
            Language::JAPANESE => 11,
            Language::CZECH => 12,
            Language::MAX => 13,
        }
    }

    /// The number of the language.
    pub fn as_u8(self) -> (r: u8)
        ensures
            r == self.number(),
    {
        match self {
            Language::ENGLISH => 0,
            Language::FRENCH => 1,
            Language::FRENCHCANADIAN => 2,
            Language::GERMAN => 3,
            Language::AUSTRIAN => 4,
            Language::ITALIAN => 5,
            Language::SPANISH => 6,
            Language::BRITISH => 7,
            Language::RUSSIAN => 8,
            Language::POLISH => 9,
            Language::KOREAN => 10,
            Language::JAPANESE => 11,
            Language::CZECH => 12,
            Language::MAX => 13,
        }
    }

    /// The language numbered `value`, if there is one.
    pub fn try_from_u8(value: u8) -> (r: Option<Self>)
        ensures
            value <= 13 ==> (r matches Some(l) && l.number() == value),
            value > 13 ==> r is None,
    {
        match value {
            0 => Some(Language::ENGLISH),
            1 => Some(Language::FRENCH),
            2 => Some(Language::FRENCHCANADIAN),
            3 => Some(Language::GERMAN),
            4 => Some(Language::AUSTRIAN),
            5 => Some(Language::ITALIAN),
            6 => Some(Language::SPANISH),
            7 => Some(Language::BRITISH),
            8 => Some(Language::RUSSIAN),
            9 => Some(Language::POLISH),
            10 => Some(Language::KOREAN),
            11 => Some(Language::JAPANESE),
            12 => Some(Language::CZECH),
            13 => Some(Language::MAX),
            _ => None,
        }
    }
}

/// Numbering a language and reading the number back gives the language.
pub proof fn language_number_round_trip(l: Language, n: u8)
    ensures
        l.number() <= 13,
        n <= 13 ==> exists|m: Language| m.number() == n,
        forall|m: Language| m.number() == l.number() ==> m == l,
{
    if n <= 13 {
        let m = match n {
            0 => Language::ENGLISH,
            1 => Language::FRENCH,
            2 => Language::FRENCHCANADIAN,
            3 => Language::GERMAN,
            4 => Language::AUSTRIAN,
            5 => Language::ITALIAN,
            6 => Language::SPANISH,
            7 => Language::BRITISH,
            8 => Language::RUSSIAN,
            9 => Language::POLISH,
            10 => Language::KOREAN,
            11 => Language::JAPANESE,
            12 => Language::CZECH,
            _ => Language::MAX,
        };
        assert(m.number() == n);
    }
}

/// The name of a language in lower case; none for `MAX`.
pub open spec fn lang_name(l: Language) -> Seq<char> {
    match l {
        Language::ENGLISH => "english"@,
        Language::FRENCH => "french"@,
        Language::FRENCHCANADIAN => "frenchcanadian"@,
        Language::GERMAN => "german"@,
        Language::AUSTRIAN => "austrian"@,
        Language::ITALIAN => "italian"@,
        Language::SPANISH => "spanish"@,
        Language::BRITISH => "british"@,
        Language::RUSSIAN => "russian"@,
        Language::POLISH => "polish"@,
        Language::KOREAN => "korean"@,
        Language::JAPANESE => "japanese"@,
        Language::CZECH => "czech"@,
        Language::MAX => Seq::empty(),
    }
}

/// The language whose lower-case name is `s`, if any.
pub open spec fn lang_of_name(s: Seq<char>) -> Option<Language> {
    if s == "english"@ {
        Some(Language::ENGLISH)
    }
    else if s == "french"@ {
        Some(Language::FRENCH)
    }
    else if s == "frenchcanadian"@ {
        Some(Language::FRENCHCANADIAN)
    }
    else if s == "german"@ {
        Some(Language::GERMAN)
    }
    else if s == "austrian"@ {
        Some(Language::AUSTRIAN)
    }
    else if s == "italian"@ {
        Some(Language::ITALIAN)
    }
    else if s == "spanish"@ {
        Some(Language::SPANISH)
    }
    else if s == "british"@ {
        Some(Language::BRITISH)
    }
    else if s == "russian"@ {
        Some(Language::RUSSIAN)
    }
    else if s == "polish"@ {
        Some(Language::POLISH)
    }
    else if s == "korean"@ {
        Some(Language::KOREAN)
    }
    else if s == "japanese"@ {
        Some(Language::JAPANESE)
    }
    else if s == "czech"@ {
        Some(Language::CZECH)
    } else {
        None
    }
}

/// The language whose lower-case name is `lang`, if any.
pub fn lang_from_str(lang: &str) -> (r: Option<Language>)
    ensures
        r == lang_of_name(lang@),
{
    let t = lang.to_owned();
    if t == "english".to_owned() {
        Some(Language::ENGLISH)
    }
    else if t == "french".to_owned() {
        Some(Language::FRENCH)
    }
    else if t == "frenchcanadian".to_owned() {
        Some(Language::FRENCHCANADIAN)
    }
    else if t == "german".to_owned() {
        Some(Language::GERMAN)
    }
    else if t == "austrian".to_owned() {
        Some(Language::AUSTRIAN)
    }
    else if t == "italian".to_owned() {
        Some(Language::ITALIAN)
    }
    else if t == "spanish".to_owned() {
        Some(Language::SPANISH)
    }
    else if t == "british".to_owned() {
        Some(Language::BRITISH)
    }
    else if t == "russian".to_owned() {
        Some(Language::RUSSIAN)
    }
    else if t == "polish".to_owned() {
        Some(Language::POLISH)
    }
    else if t == "korean".to_owned() {
        Some(Language::KOREAN)
    }
    else if t == "japanese".to_owned() {
        Some(Language::JAPANESE)
    }
    else if t == "czech".to_owned() {
        Some(Language::CZECH)
    } else {
        None
    }
}

/// The language whose lower-case name is `lang`; English for any other
/// text.
pub fn get_lang_from_str(lang: &str) -> (r: Language)
    ensures
        r == match lang_of_name(lang@) {
            Some(l) => l,
            None => Language::ENGLISH,
        },
{
    match lang_from_str(lang) {
        Some(l) => l,
        None => Language::ENGLISH,
    }
}

/// The lower-case name of `lang`; empty for `MAX`.
pub fn get_str_from_lang(lang: Language) -> (r: &'static str)
    ensures
        r@ == lang_name(lang),
{
    proof {
        reveal_strlit("");
    }
    match lang {
        Language::ENGLISH => "english",
        Language::FRENCH => "french",
        Language::FRENCHCANADIAN => "frenchcanadian",
        Language::GERMAN => "german",
        Language::AUSTRIAN => "austrian",
        Language::ITALIAN => "italian",
        Language::SPANISH => "spanish",
        Language::BRITISH => "british",
        Language::RUSSIAN => "russian",
        Language::POLISH => "polish",
        Language::KOREAN => "korean",
        Language::JAPANESE => "japanese",
        Language::CZECH => "czech",
        Language::MAX => "",
    }
}

/// Reading a language's name gives the language back.
pub proof fn lang_name_round_trip(l: Language)
    ensures
        l != Language::MAX ==> lang_of_name(lang_name(l)) == Some(l),
{
    reveal_strlit("english");
    reveal_strlit("french");
    reveal_strlit("frenchcanadian");
    reveal_strlit("german");
    reveal_strlit("austrian");
    reveal_strlit("italian");
    reveal_strlit("spanish");
    reveal_strlit("british");
    reveal_strlit("russian");
    reveal_strlit("polish");
    reveal_strlit("korean");
    reveal_strlit("japanese");
    reveal_strlit("czech");
    match l {
        Language::ENGLISH => {

        },
        Language::FRENCH => {
            assert("french"@.len() != "english"@.len());
        },
        Language::FRENCHCANADIAN => {
            assert("frenchcanadian"@.len() != "english"@.len());
            assert("frenchcanadian"@.len() != "french"@.len());
        },
        Language::GERMAN => {
            assert("german"@.len() != "english"@.len());
            assert("german"@[0] != "french"@[0]);
            assert("german"@.len() != "frenchcanadian"@.len());
        },
        Language::AUSTRIAN => {
            assert("austrian"@.len() != "english"@.len());
            assert("austrian"@.len() != "french"@.len());
            assert("austrian"@.len() != "frenchcanadian"@.len());
            assert("austrian"@.len() != "german"@.len());
        },
        Language::ITALIAN => {
            assert("italian"@[0] != "english"@[0]);
            assert("italian"@.len() != "french"@.len());
            assert("italian"@.len() != "frenchcanadian"@.len());
            assert("italian"@.len() != "german"@.len());
            assert("italian"@.len() != "austrian"@.len());
        },
        Language::SPANISH => {
            assert("spanish"@[0] != "english"@[0]);
            assert("spanish"@.len() != "french"@.len());
            assert("spanish"@.len() != "frenchcanadian"@.len());
            assert("spanish"@.len() != "german"@.len());
            assert("spanish"@.len() != "austrian"@.len());
            assert("spanish"@[0] != "italian"@[0]);
        },
        Language::BRITISH => {
            assert("british"@[0] != "english"@[0]);
            assert("british"@.len() != "french"@.len());
            assert("british"@.len() != "frenchcanadian"@.len());
            assert("british"@.len() != "german"@.len());
            assert("british"@.len() != "austrian"@.len());
            assert("british"@[0] != "italian"@[0]);
            assert("british"@[0] != "spanish"@[0]);
        },
        Language::RUSSIAN => {
            assert("russian"@[0] != "english"@[0]);
            assert("russian"@.len() != "french"@.len());
            assert("russian"@.len() != "frenchcanadian"@.len());
            assert("russian"@.len() != "german"@.len());
            assert("russian"@.len() != "austrian"@.len());
            assert("russian"@[0] != "italian"@[0]);
            assert("russian"@[0] != "spanish"@[0]);
            assert("russian"@[0] != "british"@[0]);
        },
        Language::POLISH => {
            assert("polish"@.len() != "english"@.len());
            assert("polish"@[0] != "french"@[0]);
            assert("polish"@.len() != "frenchcanadian"@.len());
            assert("polish"@[0] != "german"@[0]);
            assert("polish"@.len() != "austrian"@.len());
            assert("polish"@.len() != "italian"@.len());
            assert("polish"@.len() != "spanish"@.len());
            assert("polish"@.len() != "british"@.len());
            assert("polish"@.len() != "russian"@.len());
        },
        Language::KOREAN => {
            assert("korean"@.len() != "english"@.len());
            assert("korean"@[0] != "french"@[0]);
            assert("korean"@.len() != "frenchcanadian"@.len());
            assert("korean"@[0] != "german"@[0]);
            assert("korean"@.len() != "austrian"@.len());
            assert("korean"@.len() != "italian"@.len());
            assert("korean"@.len() != "spanish"@.len());
            assert("korean"@.len() != "british"@.len());
            assert("korean"@.len() != "russian"@.len());
            assert("korean"@[0] != "polish"@[0]);
        },
        Language::JAPANESE => {
            assert("japanese"@.len() != "english"@.len());
            assert("japanese"@.len() != "french"@.len());
            assert("japanese"@.len() != "frenchcanadian"@.len());
            assert("japanese"@.len() != "german"@.len());
            assert("japanese"@[0] != "austrian"@[0]);
            assert("japanese"@.len() != "italian"@.len());
            assert("japanese"@.len() != "spanish"@.len());
            assert("japanese"@.len() != "british"@.len());
            assert("japanese"@.len() != "russian"@.len());
            assert("japanese"@.len() != "polish"@.len());
            assert("japanese"@.len() != "korean"@.len());
        },
        Language::CZECH => {
            assert("czech"@.len() != "english"@.len());
            assert("czech"@.len() != "french"@.len());
            assert("czech"@.len() != "frenchcanadian"@.len());
            assert("czech"@.len() != "german"@.len());
            assert("czech"@.len() != "austrian"@.len());
            assert("czech"@.len() != "italian"@.len());
            assert("czech"@.len() != "spanish"@.len());
            assert("czech"@.len() != "british"@.len());
            assert("czech"@.len() != "russian"@.len());
            assert("czech"@.len() != "polish"@.len());
            assert("czech"@.len() != "korean"@.len());
            assert("czech"@.len() != "japanese"@.len());
        },
        Language::MAX => {},
    }
}

/// The strings of the first `n` pairs of keys `k` and values `v`, by key;
/// a later pair of a key overrides an earlier one.
pub open spec fn pairs_map(k: Seq<Seq<char>>, v: Seq<Seq<char>>, n: int) -> Map<Seq<char>, Seq<char>>
    decreases n,
{
    if n <= 0 {
        Map::empty()
    } else {
        pairs_map(k, v, n - 1).insert(k[n - 1], v[n - 1])
    }
}

proof fn lemma_pairs_map_prefix(k: Seq<Seq<char>>, v: Seq<Seq<char>>, k2: Seq<Seq<char>>, v2: Seq<Seq<char>>, n: int)
    requires
        0 <= n <= k.len(),
        n <= k2.len(),
        n <= v.len(),
        n <= v2.len(),
        forall|j: int| 0 <= j < n ==> k[j] == k2[j] && v[j] == v2[j],
    ensures
        pairs_map(k, v, n) == pairs_map(k2, v2, n),
    decreases n,
{
    if n > 0 {
        lemma_pairs_map_prefix(k, v, k2, v2, n - 1);
    }
}

proof fn lemma_pairs_map_skip(k: Seq<Seq<char>>, v: Seq<Seq<char>>, i: int, n: int, s: Seq<char>)
    requires
        0 <= i <= n,
        forall|j: int| i <= j < n ==> k[j] != s,
    ensures
        pairs_map(k, v, n).dom().contains(s) == pairs_map(k, v, i).dom().contains(s),
        pairs_map(k, v, i).dom().contains(s) ==> pairs_map(k, v, n)[s] == pairs_map(k, v, i)[s],
    decreases n - i,
{
    if n > i {
        lemma_pairs_map_skip(k, v, i, n - 1, s);
    }
}

/// The language and the localized strings, by key.
pub struct Localization {
    language: Language,
    keys: Vec<String>,
    values: Vec<String>,
}

impl Localization {
    /// The language.
    pub closed spec fn language(&self) -> Language {
        self.language
    }

    spec fn key_texts(&self) -> Seq<Seq<char>> {
        self.keys@.map_values(|s: String| s@)
    }

    spec fn value_texts(&self) -> Seq<Seq<char>> {
        self.values@.map_values(|s: String| s@)
    }

    /// The localized strings, by key.
    pub closed spec fn strings(&self) -> Map<Seq<char>, Seq<char>> {
        pairs_map(self.key_texts(), self.value_texts(), self.keys@.len() as int)
    }

    /// Each key has its string.
    pub closed spec fn wf(&self) -> bool {
        self.keys@.len() == self.values@.len()
    }

    /// English, with no localized strings.
    pub fn new() -> (r: Self)
        ensures
            r.wf(),
            r.language() == Language::ENGLISH,
            r.strings() == Map::<Seq<char>, Seq<char>>::empty(),
    {
        Self { language: Language::ENGLISH, keys: Vec::new(), values: Vec::new() }
    }

    /// Gives `key` the string `value`, replacing any it had.
    pub fn insert(&mut self, key: String, value: String)
        requires
            old(self).wf(),
        ensures
            final(self).wf(),
            final(self).language() == old(self).language(),
            final(self).strings() == old(self).strings().insert(key@, value@),
    {
        let ghost k0 = self.key_texts();
        let ghost v0 = self.value_texts();
        let ghost n = self.keys@.len() as int;
        let ghost kv = key@;
        let ghost vv = value@;
        self.keys.push(key);
        self.values.push(value);
        proof {
            assert(self.key_texts() =~= k0.push(kv));
            assert(self.value_texts() =~= v0.push(vv));
            lemma_pairs_map_prefix(k0, v0, self.key_texts(), self.value_texts(), n);
        }
    }
}

/// The language of the localization.
pub fn get_lang(loc: &Localization) -> (r: Language)
    ensures
        r == loc.language(),
{
    loc.language
}

/// What localizing `s` gives with the strings `strings`: its string where
/// it has one, and `s` itself otherwise.
pub open spec fn localized(strings: Map<Seq<char>, Seq<char>>, s: Seq<char>) -> Seq<char> {
    if strings.dom().contains(s) {
        strings[s]
    } else {
        s
    }
}

/// A key given a string localizes to that string, whatever it had before;
/// every other key localizes as it did before.
pub proof fn law_insert_then_localize(
    strings: Map<Seq<char>, Seq<char>>,
    key: Seq<char>,
    value: Seq<char>,
    other: Seq<char>,
)
    ensures
        localized(strings.insert(key, value), key) == value,
        other != key ==> localized(strings.insert(key, value), other) == localized(strings, other),
{
}

/// The localized string for the key `s`, or `s` itself where it has none.
pub fn localize_ref(loc: &Localization, s: &str) -> (r: String)
    requires
        loc.wf(),
    ensures
        r@ == localized(loc.strings(), s@),
{
    let n = loc.keys.len();
    let mut i: usize = n;
    while i > 0
        invariant
            loc.wf(),
            n == loc.keys@.len(),
            i <= n,
            forall|j: int| i <= j < n ==> loc.key_texts()[j] != s@,
        decreases i,
    {
        if loc.keys[i - 1].as_str().to_owned() == s.to_owned() {
            proof {
                assert(loc.key_texts()[i - 1] == s@);
                lemma_pairs_map_skip(loc.key_texts(), loc.value_texts(), i as int, n as int, s@);
            }
            return loc.values[i - 1].clone();
        }
        i = i - 1;
    }
    proof {
        lemma_pairs_map_skip(loc.key_texts(), loc.value_texts(), 0, n as int, s@);
    }
    s.to_owned()
}

/// The lines of a localization file: its text without leading and trailing
/// white space, split at line breaks. The first line names the language.
pub open spec fn file_lines(text: Seq<char>) -> Seq<Seq<char>> {
    split_on(trimmed(text), '\n')
}

/// The language a localization file names on its first line; English when
/// it names none.
pub open spec fn file_language(text: Seq<char>) -> Language {
    match lang_of_name(file_lines(text)[0]) {
        Some(l) => l,
        None => Language::ENGLISH,
    }
}

/// The lines from the second to the `n`-th, each followed by a line break.
pub open spec fn body_text(lines: Seq<Seq<char>>, n: int) -> Seq<char>
    decreases n,
{
    if n <= 1 {
        Seq::empty()
    } else {
        body_text(lines, n - 1) + lines[n - 1] + "\n"@
    }
}

/// The pieces of `p` without leading and trailing white space, leaving out
/// those that are then empty.
pub open spec fn kept_pieces(p: Seq<Seq<char>>) -> Seq<Seq<char>>
    decreases p.len(),
{
    if p.len() == 0 {
        Seq::empty()
    } else {
        let rest = kept_pieces(p.drop_last());
        let t = trimmed(p.last());
        if t.len() > 0 {
            rest.push(t)
        } else {
            rest
        }
    }
}

/// The strings of a localization file: the text after the first line,
/// split at double quotes, each piece trimmed and the empty ones left out.
/// They alternate between keys and their localized strings.
pub open spec fn file_strings(text: Seq<char>) -> Seq<Seq<char>> {
    let lines = file_lines(text);
    kept_pieces(split_on(body_text(lines, lines.len() as int), '"'))
}

/// The localized strings of the first `k` key and string pairs of `p`; a
/// later pair of a key overrides an earlier one.
pub open spec fn strings_of(p: Seq<Seq<char>>, k: int) -> Map<Seq<char>, Seq<char>>
    decreases k,
{
    if k <= 0 {
        Map::empty()
    } else {
        strings_of(p, k - 1).insert(p[2 * (k - 1)], p[2 * (k - 1) + 1])
    }
}

/// Every pair among the first `k` of `p` is loaded: the key of pair `j`
/// finds that pair's string, unless a later pair among them has the same
/// key (which then overrides it).
pub proof fn law_pairs_are_loaded(p: Seq<Seq<char>>, k: int, j: int)
    requires
        0 <= j < k,
        2 * k <= p.len(),
        forall|j2: int| j < j2 < k ==> #[trigger] p[2 * j2] != p[2 * j],
    ensures
        strings_of(p, k).dom().contains(p[2 * j]),
        strings_of(p, k)[p[2 * j]] == p[2 * j + 1],
    decreases k,
{
    if j < k - 1 {
        assert(p[2 * (k - 1)] != p[2 * j]);
        law_pairs_are_loaded(p, k - 1, j);
    }
}

/// Only keys of pairs are loaded: every key of the strings of the first `k`
/// pairs of `p` is the key of one of them, and the string it finds is the
/// string of a pair with that key.
pub proof fn law_only_pairs_are_loaded(p: Seq<Seq<char>>, k: int, x: Seq<char>)
    requires
        0 <= k,
        2 * k <= p.len(),
        strings_of(p, k).dom().contains(x),
    ensures
        exists|j: int| 0 <= j < k && #[trigger] p[2 * j] == x && p[2 * j + 1] == strings_of(p, k)[x],
    decreases k,
{
    if k > 0 {
        if p[2 * (k - 1)] == x {
            assert(p[2 * (k - 1)] == x && p[2 * (k - 1) + 1] == strings_of(p, k)[x]);
        } else {
            law_only_pairs_are_loaded(p, k - 1, x);
            let j = choose|j: int| 0 <= j < k - 1 && #[trigger] p[2 * j] == x && p[2 * j + 1] == strings_of(p, k - 1)[x];
            assert(p[2 * j] == x && p[2 * j + 1] == strings_of(p, k)[x]);
        }
    }
}

/// Whether the contents of a localization file can be loaded: its strings
/// come in pairs.
pub open spec fn loadable(file: Option<Seq<u8>>) -> bool {
    match file {
        Some(b) => file_strings(lossy_text(b)).len() % 2 == 0,
        None => true,
    }
}

fn file_strings_of(bytes: &[u8]) -> (r: (Language, Vec<String>))
    ensures
        r.0 == file_language(lossy_text(bytes@)),
        r.1@.map_values(|s: String| s@) == file_strings(lossy_text(bytes@)),
{
    let text = utf8_lossy(bytes);
    let t = trim(text.as_str());
    let lines = split_char(t.as_str(), '\n');
    let ghost ls = lines@.map_values(|s: String| s@);
    proof {
        lemma_split_on_nonempty(t@, '\n');
    }
    assert(ls.len() >= 1);
    let lang = get_lang_from_str(lines[0].as_str());
    let mut body = String::new();
    let mut i: usize = 1;
    while i < lines.len()
        invariant
            ls == lines@.map_values(|s: String| s@),
            1 <= i <= lines@.len(),
            body@ == body_text(ls, i as int),
        decreases lines@.len() - i,
    {
        let a = concat(body.as_str(), lines[i].as_str());
        body = concat(a.as_str(), "\n");
        assert(ls[i as int] == lines@[i as int]@);
        i = i + 1;
    }
    let pieces = split_char(body.as_str(), '"');
    let ghost ps = pieces@.map_values(|s: String| s@);
    let mut kept: Vec<String> = Vec::new();
    let mut j: usize = 0;
    assert(ps.subrange(0, 0) =~= Seq::<Seq<char>>::empty());
    while j < pieces.len()
        invariant
            ps == pieces@.map_values(|s: String| s@),
            j <= pieces@.len(),
            kept@.map_values(|s: String| s@) == kept_pieces(ps.subrange(0, j as int)),
        decreases pieces@.len() - j,
    {
        let p = trim(pieces[j].as_str());
        assert(ps.subrange(0, j + 1).drop_last() =~= ps.subrange(0, j as int));
        assert(ps.subrange(0, j + 1).last() == pieces@[j as int]@);
        let ghost before = kept@.map_values(|s: String| s@);
        if p.as_str().unicode_len() > 0 {
            let ghost pv = p@;
            kept.push(p);
            assert(kept@.map_values(|s: String| s@) =~= before.push(pv));
        }
        j = j + 1;
    }
    assert(ps.subrange(0, pieces@.len() as int) =~= ps);
    (lang, kept)
}

/// Loads a localization file, or English with no strings where there is
/// none (`file` holds its contents): the language its first line names
/// (see [`file_language`]) and its strings, paired into keys and localized
/// strings (see [`file_strings`]), which must come in pairs. The language
/// is returned.
pub fn init(loc: &mut Localization, file: Option<&[u8]>) -> (r: Language)
    requires
        loadable(match file {
            Some(b) => Some(b@),
            None => None::<Seq<u8>>,
        }),
    ensures
        final(loc).wf(),
        r == final(loc).language(),
        file is None ==> r == Language::ENGLISH && final(loc).strings() == Map::<Seq<char>, Seq<char>>::empty(),
        file matches Some(b) ==> r == file_language(lossy_text(b@)) && final(loc).strings() == strings_of(
            file_strings(lossy_text(b@)),
            (file_strings(lossy_text(b@)).len() / 2) as int,
        ),
{
    let (lang, strings) = match file {
        Some(b) => file_strings_of(b),
        None => (Language::ENGLISH, Vec::new()),
    };
    let ghost ps = strings@.map_values(|s: String| s@);
    let mut next = Localization { language: lang, keys: Vec::new(), values: Vec::new() };
    let total = strings.len();
    let pairs = total / 2;
    let mut k: usize = 0;
    while k < pairs
        invariant
            ps == strings@.map_values(|s: String| s@),
            total == strings@.len(),
            2 * pairs <= total,
            pairs == ps.len() / 2,
            k <= pairs,
            next.wf(),
            next.language() == lang,
            next.strings() == strings_of(ps, k as int),
            2 * pairs <= ps.len(),
        decreases pairs - k,
    {
        assert(2 * k + 1 < total);
        let key = strings[2 * k].clone();
        let value = strings[2 * k + 1].clone();
        next.insert(key, value);
        k = k + 1;
    }
    *loc = next;
    lang
}

/// Loads a localization file (see [`init`]) where its strings come in
/// pairs; otherwise nothing changes and none is returned.
pub fn init_checked(loc: &mut Localization, file: Option<&[u8]>) -> (r: Option<Language>)
    ensures
        r is None <==> !loadable(match file {
            Some(b) => Some(b@),
            None => None::<Seq<u8>>,
        }),
        r is None ==> *final(loc) == *old(loc),
        r matches Some(l) ==> final(loc).wf() && l == final(loc).language() && match file {
            None => l == Language::ENGLISH && final(loc).strings() == Map::<Seq<char>, Seq<char>>::empty(),
            Some(b) => l == file_language(lossy_text(b@)) && final(loc).strings() == strings_of(
                file_strings(lossy_text(b@)),
                (file_strings(lossy_text(b@)).len() / 2) as int,
            ),
        },
{
    match file {
        Some(b) => {
            let (_, strings) = file_strings_of(b);
            if strings.len() % 2 != 0 {
                return None;
            }
        },
        None => {},
    }
    Some(init(loc, file))
}

} // verus!
