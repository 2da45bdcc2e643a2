use vstd::prelude::*;
use crate::text::{concat, decimal_i64, decimal_isize, decimal_usize, i64_to_string, isize_to_string, usize_to_string};

verus! {

/// Domain of a boolean dvar: always `true` or `false`.
#[derive(Clone, Copy, PartialEq, Eq, Structural, Debug, Default)]
pub struct DvarLimitsBool;

impl DvarLimitsBool {
    /// The boolean domain.
    pub fn new() -> (r: Self) {
        DvarLimitsBool
    }
}

/// Domain of an integer dvar: every value from `min` to `max`, inclusive.
#[derive(Clone, Copy, PartialEq, Eq, Structural, Debug)]
pub struct DvarLimitsInt {
    pub min: i32,
    pub max: i32,
}

impl DvarLimitsInt {
    /// The domain from `min` to `max`; `min` may not exceed `max`.
    pub fn new(min: i32, max: i32) -> (r: Self)
        requires
            min <= max,
        ensures
            r.min == min,
            r.max == max,
    {
        DvarLimitsInt { min, max }
    }

    /// The largest domain: every `i32`.
    pub fn full() -> (r: Self)
        ensures
            r.min == i32::MIN,
            r.max == i32::MAX,
    {
        DvarLimitsInt { min: i32::MIN, max: i32::MAX }
    }
}

/// Domain of a string dvar: any text.
#[derive(Clone, Copy, PartialEq, Eq, Structural, Debug, Default)]
pub struct DvarLimitsString;

impl DvarLimitsString {
    /// The string domain.
    pub fn new() -> (r: Self) {
        DvarLimitsString
    }
}

/// The characters of each string of `v`, in order.
pub open spec fn texts(v: Seq<String>) -> Seq<Seq<char>> {
    v.map_values(|s: String| s@)
}

/// `s` without repetitions: each text at the place of its first occurrence.
pub open spec fn dedup(s: Seq<Seq<char>>) -> Seq<Seq<char>>
    decreases s.len(),
{
    if s.len() == 0 {
        Seq::empty()
    } else {
        let d = dedup(s.drop_last());
        if d.contains(s.last()) {
            d
        } else {
            d.push(s.last())
        }
    }
}

/// The position of the first occurrence of `t` in `s`, if any.
pub open spec fn first_index(s: Seq<Seq<char>>, t: Seq<char>) -> Option<int> {
    if s.contains(t) {
        Some(choose|k: int| 0 <= k < s.len() && s[k] == t && forall|j: int| 0 <= j < k ==> s[j] != t)
    } else {
        None
    }
}

proof fn lemma_first_index(s: Seq<Seq<char>>, t: Seq<char>, k: int)
    requires
        0 <= k < s.len(),
        s[k] == t,
        forall|j: int| 0 <= j < k ==> s[j] != t,
    ensures
        first_index(s, t) == Some(k),
{
    assert(s.contains(t));
    let c = choose|c: int| 0 <= c < s.len() && s[c] == t && forall|j: int| 0 <= j < c ==> s[j] != t;
    if c < k {
        assert(s[c] != t);
    }
    if k < c {
        assert(s[k] != t);
    }
}

/// The first occurrence of `t` in `s` is at `k`.
pub proof fn lemma_first_index_pub(s: Seq<Seq<char>>, t: Seq<char>, k: int)
    requires
        0 <= k < s.len(),
        s[k] == t,
        forall|j: int| 0 <= j < k ==> s[j] != t,
    ensures
        first_index(s, t) == Some(k),
{
    lemma_first_index(s, t, k);
}

proof fn lemma_first_occurrence(s: Seq<Seq<char>>, t: Seq<char>, i: int)
    requires
        0 <= i < s.len(),
        s[i] == t,
    ensures
        exists|k: int| 0 <= k < s.len() && s[k] == t && forall|j: int| 0 <= j < k ==> s[j] != t,
    decreases i,
{
    if exists|j: int| 0 <= j < i && s[j] == t {
        let j = choose|j: int| 0 <= j < i && s[j] == t;
        lemma_first_occurrence(s, t, j);
    } else {
        assert(forall|j: int| 0 <= j < i ==> s[j] != t);
    }
}

/// What [`first_index`] gives: the first position of `t`, if `t` occurs.
pub proof fn lemma_first_index_props(s: Seq<Seq<char>>, t: Seq<char>)
    ensures
        match first_index(s, t) {
            Some(k) => 0 <= k < s.len() && s[k] == t && forall|j: int| 0 <= j < k ==> s[j] != t,
            None => !s.contains(t),
        },
{
    if s.contains(t) {
        let i = choose|i: int| 0 <= i < s.len() && s[i] == t;
        lemma_first_occurrence(s, t, i);
    }
}

proof fn lemma_first_index_none(s: Seq<Seq<char>>, t: Seq<char>)
    requires
        !s.contains(t),
    ensures
        first_index(s, t) is None,
{
}

/// Whether no text occurs twice in `s`.
pub open spec fn no_duplicates(s: Seq<Seq<char>>) -> bool {
    forall|i: int, j: int| 0 <= i < j < s.len() ==> s[i] != s[j]
}

/// Domain of an enumeration dvar: one of a set of strings.
///
/// The strings are kept in a vector in which no string occurs twice.
#[derive(Debug)]
pub struct DvarLimitsEnumeration {
    pub strings: Vec<String>,
}

impl DvarLimitsEnumeration {
    /// The characters of each string of the domain, in order.
    pub open spec fn view_strings(&self) -> Seq<Seq<char>> {
        texts(self.strings@)
    }

    /// Whether no string of the domain occurs twice.
    pub open spec fn wf(&self) -> bool {
        no_duplicates(self.view_strings())
    }

    /// The domain holding each distinct string of `domain`, in the order of
    /// their first occurrence; `domain` must not be empty.
    pub fn new(domain: &[String]) -> (r: Self)
        requires
            domain@.len() > 0,
        ensures
            r.view_strings() == dedup(texts(domain@)),
            r.wf(),
    {
        let mut strings: Vec<String> = Vec::new();
        let mut i: usize = 0;
        while i < domain.len()
            invariant
                0 <= i <= domain@.len(),
                texts(strings@) == dedup(texts(domain@.subrange(0, i as int))),
            decreases domain@.len() - i,
        {
            let ghost old_strings = texts(strings@);
            let ghost prefix = texts(domain@.subrange(0, i as int));
            let ghost next = texts(domain@.subrange(0, i + 1));
            assert(next.drop_last() =~= prefix);
            assert(next.last() == domain@[i as int]@);
            let found = index_of(&strings, &domain[i]);
            if found.is_none() {
                strings.push(domain[i].clone());
                assert(texts(strings@) =~= old_strings.push(domain@[i as int]@));
            } else {
                let k = found.unwrap();
                assert(old_strings[k as int] == domain@[i as int]@);
            }
            i = i + 1;
        }
        assert(domain@.subrange(0, domain@.len() as int) =~= domain@);
        proof {
            crate::dvar::laws::law_dedup(texts(domain@));
        }
        DvarLimitsEnumeration { strings }
    }

    /// Adds `s` to the domain, unless it is already there; no string comes
    /// to occur twice.
    pub fn insert(&mut self, s: &str)
        ensures
            old(self).wf() ==> final(self).wf(),
            final(self).view_strings() == (if old(self).view_strings().contains(s@) {
                old(self).view_strings()
            } else {
                old(self).view_strings().push(s@)
            }),
    {
        let owned = s.to_owned();
        let ghost before = self.view_strings();
        match index_of(&self.strings, &owned) {
            Some(k) => {
                assert(before[k as int] == s@);
            },
            None => {
                self.strings.push(owned);
                assert(self.view_strings() =~= before.push(s@));
                assert(!before.contains(s@));
                assert forall|i: int, j: int| 0 <= i < j < before.push(s@).len() && no_duplicates(before) implies before.push(
                    s@,
                )[i] != before.push(s@)[j] by {
                    if j == before.len() {
                        assert(before.push(s@)[i] == before[i]);
                    }
                }
            },
        }
    }

    /// Removes `s` from the domain, if it is there; no string comes to occur
    /// twice.
    pub fn remove(&mut self, s: &str)
        ensures
            old(self).wf() ==> final(self).wf(),
            final(self).view_strings() == (match first_index(old(self).view_strings(), s@) {
                Some(k) => old(self).view_strings().remove(k),
                None => old(self).view_strings(),
            }),
    {
        let owned = s.to_owned();
        let ghost before = self.view_strings();
        match index_of(&self.strings, &owned) {
            Some(k) => {
                proof {
                    lemma_first_index(before, s@, k as int);
                }
                self.strings.remove(k);
                assert(self.view_strings() =~= before.remove(k as int));
                let ghost after = before.remove(k as int);
                assert forall|i: int, j: int| 0 <= i < j < after.len() && no_duplicates(before) implies after[i] != after[j] by {
                    let i0 = if i < k { i } else { i + 1 };
                    let j0 = if j < k { j } else { j + 1 };
                    assert(after[i] == before[i0]);
                    assert(after[j] == before[j0]);
                }
            },
            None => {
                proof {
                    lemma_first_index_none(before, s@);
                }
            },
        }
    }

    /// A copy of the domain.
    pub fn clone_limits(&self) -> (r: Self)
        ensures
            r.view_strings() == self.view_strings(),
            self.wf() ==> r.wf(),
    {
        let mut strings: Vec<String> = Vec::new();
        let mut i: usize = 0;
        while i < self.strings.len()
            invariant
                0 <= i <= self.strings@.len(),
                texts(strings@) =~= self.view_strings().subrange(0, i as int),
            decreases self.strings@.len() - i,
        {
            let ghost before = texts(strings@);
            strings.push(self.strings[i].clone());
            assert(texts(strings@) =~= before.push(self.strings@[i as int]@));
            i = i + 1;
        }
        DvarLimitsEnumeration { strings }
    }
}

/// The position of the first string of `strings` equal to `s`, if any.
pub fn index_of(strings: &Vec<String>, s: &String) -> (r: Option<usize>)
    ensures
        match r {
            Some(i) => i < strings@.len() && strings@[i as int]@ == s@ && forall|j: int|
                0 <= j < i ==> strings@[j]@ != s@,
            None => !texts(strings@).contains(s@),
        },
{
    let mut i: usize = 0;
    while i < strings.len()
        invariant
            0 <= i <= strings@.len(),
            forall|j: int| 0 <= j < i ==> strings@[j]@ != s@,
        decreases strings@.len() - i,
    {
        if strings[i] == *s {
            return Some(i);
        }
        i = i + 1;
    }
    proof {
        if texts(strings@).contains(s@) {
            let k = choose|k: int|
                0 <= k < strings@.len() && texts(strings@)[k] == s@;
            assert(strings@[k]@ != s@);
        }
    }
    None
}

/// Domain of a colour dvar: every RGBA colour.
#[derive(Clone, Copy, PartialEq, Eq, Structural, Debug, Default)]
pub struct DvarLimitsColor;

impl DvarLimitsColor {
    /// The colour domain.
    pub fn new() -> (r: Self) {
        DvarLimitsColor
    }
}

/// Domain of a 64-bit integer dvar: every value from `min` to `max`.
#[derive(Clone, Copy, PartialEq, Eq, Structural, Debug)]
pub struct DvarLimitsInt64 {
    pub min: i64,
    pub max: i64,
}

impl DvarLimitsInt64 {
    /// The domain from `min` to `max`; `min` may not exceed `max`.
    pub fn new(min: i64, max: i64) -> (r: Self)
        requires
            min <= max,
        ensures
            r.min == min,
            r.max == max,
    {
        DvarLimitsInt64 { min, max }
    }

    /// The largest domain: every `i64`.
    pub fn full() -> (r: Self)
        ensures
            r.min == i64::MIN,
            r.max == i64::MAX,
    {
        DvarLimitsInt64 { min: i64::MIN, max: i64::MAX }
    }
}

/// The domain of a dvar, of the kind matching its value.
#[derive(Debug)]
pub enum DvarLimits {
    Bool(DvarLimitsBool),
    Int(DvarLimitsInt),
    String(DvarLimitsString),
    Enumeration(DvarLimitsEnumeration),
    Color(DvarLimitsColor),
    Int64(DvarLimitsInt64),
}

/// The mathematical model of a [`DvarLimits`].
pub enum DvarLimitsView {
    Bool,
    Int { min: i32, max: i32 },
    String,
    Enumeration(Seq<Seq<char>>),
    Color,
    Int64 { min64: i64, max64: i64 },
}

impl View for DvarLimits {
    type V = DvarLimitsView;

    open spec fn view(&self) -> DvarLimitsView {
        match self {
            DvarLimits::Bool(_) => DvarLimitsView::Bool,
            DvarLimits::Int(l) => DvarLimitsView::Int { min: l.min, max: l.max },
            DvarLimits::String(_) => DvarLimitsView::String,
            DvarLimits::Enumeration(e) => DvarLimitsView::Enumeration(e.view_strings()),
            DvarLimits::Color(_) => DvarLimitsView::Color,
            DvarLimits::Int64(l) => DvarLimitsView::Int64 { min64: l.min, max64: l.max },
        }
    }
}

impl DvarLimits {
    /// Whether the domain is well formed: bounds in order, and no string of
    /// an enumeration twice.
    pub open spec fn wf(&self) -> bool {
        match self@ {
            DvarLimitsView::Int { min, max } => min <= max,
            DvarLimitsView::Int64 { min64, max64 } => min64 <= max64,
            DvarLimitsView::Enumeration(s) => no_duplicates(s),
            _ => true,
        }
    }

    /// A copy of the domain.
    pub fn clone_limits(&self) -> (r: Self)
        ensures
            r@ == self@,
    {
        match self {
            DvarLimits::Bool(b) => DvarLimits::Bool(*b),
            DvarLimits::Int(l) => DvarLimits::Int(*l),
            DvarLimits::String(s) => DvarLimits::String(*s),
            DvarLimits::Enumeration(e) => DvarLimits::Enumeration(e.clone_limits()),
            DvarLimits::Color(c) => DvarLimits::Color(*c),
            DvarLimits::Int64(l) => DvarLimits::Int64(*l),
        }
    }

    /// The boolean domain, if the domain is one.
    pub fn as_bool_limits(&self) -> (r: Option<DvarLimitsBool>)
        ensures
            r is Some <==> self@ is Bool,
    {
        match self {
            DvarLimits::Bool(b) => Some(*b),
            _ => None,
        }
    }

    /// The integer domain, if the domain is one.
    pub fn as_int_limits(&self) -> (r: Option<DvarLimitsInt>)
        ensures
            match self@ {
                DvarLimitsView::Int { min, max } => r == Some(DvarLimitsInt { min, max }),
                _ => r is None,
            },
    {
        match self {
            DvarLimits::Int(l) => Some(*l),
            _ => None,
        }
    }

    /// The string domain, if the domain is one.
    pub fn as_string_limits(&self) -> (r: Option<DvarLimitsString>)
        ensures
            r is Some <==> self@ is String,
    {
        match self {
            DvarLimits::String(s) => Some(*s),
            _ => None,
        }
    }

    /// A copy of the enumeration domain, if the domain is one.
    pub fn as_enumeration_limits(&self) -> (r: Option<DvarLimitsEnumeration>)
        ensures
            match self@ {
                DvarLimitsView::Enumeration(s) => r is Some && r->0.view_strings() == s,
                _ => r is None,
            },
    {
        match self {
            DvarLimits::Enumeration(e) => Some(e.clone_limits()),
            _ => None,
        }
    }

    /// The colour domain, if the domain is one.
    pub fn as_color_limits(&self) -> (r: Option<DvarLimitsColor>)
        ensures
            r is Some <==> self@ is Color,
    {
        match self {
            DvarLimits::Color(c) => Some(*c),
            _ => None,
        }
    }

    /// The 64-bit integer domain, if the domain is one.
    pub fn as_int64_limits(&self) -> (r: Option<DvarLimitsInt64>)
        ensures
            match self@ {
                DvarLimitsView::Int64 { min64, max64 } => r == Some(DvarLimitsInt64 { min: min64, max: max64 }),
                _ => r is None,
            },
    {
        match self {
            DvarLimits::Int64(l) => Some(*l),
            _ => None,
        }
    }
}


/// How a domain of 32-bit integers is described.
pub open spec fn int_domain_text(min: i32, max: i32) -> Seq<char> {
    if min == i32::MIN {
        if max == i32::MAX {
            "Domain is any integer"@
        } else {
            "Domain is any integer "@ + decimal_isize(max as isize) + " or smaller"@
        }
    } else if max == i32::MAX {
        "Domain is any integer "@ + decimal_isize(min as isize) + " or bigger"@
    } else {
        "Domain is any integer from "@ + decimal_isize(min as isize) + " to "@ + decimal_isize(max as isize)
    }
}

/// How a domain of 64-bit integers is described.
pub open spec fn int64_domain_text(min: i64, max: i64) -> Seq<char> {
    if min == i64::MIN {
        if max == i64::MAX {
            "Domain is any integer"@
        } else {
            "Domain is any integer "@ + decimal_i64(max) + " or smaller"@
        }
    } else if max == i64::MAX {
        "Domain is any integer "@ + decimal_i64(min) + " or bigger"@
    } else {
        "Domain is any integer from "@ + decimal_i64(min) + " to "@ + decimal_i64(max)
    }
}

/// An index written at least two characters wide, right-aligned.
pub open spec fn padded_index(i: usize) -> Seq<char> {
    if i < 10 {
        " "@ + decimal_usize(i)
    } else {
        decimal_usize(i)
    }
}

/// The lines that list the first `n` strings of an enumeration domain,
/// each with its index.
pub open spec fn enum_lines(s: Seq<Seq<char>>, n: int) -> Seq<char>
    decreases n,
{
    if n <= 0 {
        Seq::empty()
    } else {
        enum_lines(s, n - 1) + "\n  "@ + padded_index((n - 1) as usize) + ": "@ + s[n - 1]
    }
}

/// How a domain is described.
pub open spec fn domain_text(d: DvarLimitsView) -> Seq<char> {
    match d {
        DvarLimitsView::Bool => "Domain is 0 or 1"@,
        DvarLimitsView::Int { min, max } => int_domain_text(min, max),
        DvarLimitsView::String => "Domain is any text"@,
        DvarLimitsView::Enumeration(s) => "Domain is any one of the following:"@ + enum_lines(s, s.len() as int),
        DvarLimitsView::Color => "Domain is any 4-component color, in RGBA format"@,
        DvarLimitsView::Int64 { min64, max64 } => int64_domain_text(min64, max64),
    }
}

impl DvarLimitsBool {
    /// How the domain is described.
    pub fn to_text(&self) -> (r: String)
        ensures
            r@ == domain_text(DvarLimitsView::Bool),
    {
        "Domain is 0 or 1".to_owned()
    }
}

impl DvarLimitsInt {
    /// How the domain is described (see [`int_domain_text`]).
    pub fn to_text(&self) -> (r: String)
        ensures
            r@ == int_domain_text(self.min, self.max),
    {
        if self.min == i32::MIN {
            if self.max == i32::MAX {
                "Domain is any integer".to_owned()
            } else {
                let a = concat("Domain is any integer ", isize_to_string(self.max as isize).as_str());
                concat(a.as_str(), " or smaller")
            }
        } else if self.max == i32::MAX {
            let a = concat("Domain is any integer ", isize_to_string(self.min as isize).as_str());
            concat(a.as_str(), " or bigger")
        } else {
            let a = concat("Domain is any integer from ", isize_to_string(self.min as isize).as_str());
            let b = concat(a.as_str(), " to ");
            concat(b.as_str(), isize_to_string(self.max as isize).as_str())
        }
    }
}

impl DvarLimitsString {
    /// How the domain is described.
    pub fn to_text(&self) -> (r: String)
        ensures
            r@ == domain_text(DvarLimitsView::String),
    {
        "Domain is any text".to_owned()
    }
}

impl DvarLimitsEnumeration {
    /// How the domain is described: its strings, one per line with their
    /// index.
    pub fn to_text(&self) -> (r: String)
        ensures
            r@ == domain_text(DvarLimitsView::Enumeration(self.view_strings())),
    {
        let mut out = "Domain is any one of the following:".to_owned();
        let n = self.strings.len();
        let mut i: usize = 0;
        while i < n
            invariant
                n == self.strings@.len(),
                i <= n,
                out@ == "Domain is any one of the following:"@ + enum_lines(self.view_strings(), i as int),
            decreases n - i,
        {
            let index = usize_to_string(i);
            let padded = if i < 10 {
                concat(" ", index.as_str())
            } else {
                index
            };
            let a = concat(out.as_str(), "\n  ");
            let b = concat(a.as_str(), padded.as_str());
            let c = concat(b.as_str(), ": ");
            out = concat(c.as_str(), self.strings[i].as_str());
            proof {
                assert(self.view_strings()[i as int] == self.strings@[i as int]@);
            }
            i = i + 1;
        }
        out
    }
}

impl DvarLimitsColor {
    /// How the domain is described.
    pub fn to_text(&self) -> (r: String)
        ensures
            r@ == domain_text(DvarLimitsView::Color),
    {
        "Domain is any 4-component color, in RGBA format".to_owned()
    }
}

impl DvarLimitsInt64 {
    /// How the domain is described (see [`int64_domain_text`]).
    pub fn to_text(&self) -> (r: String)
        ensures
            r@ == int64_domain_text(self.min, self.max),
    {
        if self.min == i64::MIN {
            if self.max == i64::MAX {
                "Domain is any integer".to_owned()
            } else {
                let a = concat("Domain is any integer ", i64_to_string(self.max).as_str());
                concat(a.as_str(), " or smaller")
            }
        } else if self.max == i64::MAX {
            let a = concat("Domain is any integer ", i64_to_string(self.min).as_str());
            concat(a.as_str(), " or bigger")
        } else {
            let a = concat("Domain is any integer from ", i64_to_string(self.min).as_str());
            let b = concat(a.as_str(), " to ");
            concat(b.as_str(), i64_to_string(self.max).as_str())
        }
    }
}

impl DvarLimits {
    /// How the domain is described (see [`domain_text`]).
    pub fn to_text(&self) -> (r: String)
        ensures
            r@ == domain_text(self@),
    {
        match self {
            DvarLimits::Bool(b) => b.to_text(),
            DvarLimits::Int(i) => i.to_text(),
            DvarLimits::String(s) => s.to_text(),
            DvarLimits::Enumeration(e) => e.to_text(),
            DvarLimits::Color(c) => c.to_text(),
            DvarLimits::Int64(i) => i.to_text(),
        }
    }
}

} // verus!
