//! Filtering of the variable list by name.
use crate::matching::{
    escape, escaped, fuzzy_finds_ignoring_case, fuzzy_finds_respecting_case,
    fuzzy_match_ignoring_case, fuzzy_match_respecting_case, numeric_cmp, numeric_order,
    pattern_matches, regex_finds, CompiledRegex,
};
use crate::scope::VariableRef;
use core::cmp::Ordering;
use vstd::prelude::*;
use vstd::string::{StrSliceExecFns, StringExecFns};

verus! {

/// How the filter text is matched against a name.
#[derive(Debug, Clone, Copy, PartialEq, Eq, Structural)]
pub enum VariableNameFilterType {
    /// A fuzzy (subsequence) match.
    Fuzzy,
    /// The text is a regular expression.
    Regex,
    /// The name starts with the text, taken literally.
    Start,
    /// The name contains the text, taken literally.
    Contain,
}

impl VariableNameFilterType {
    /// Every filter type, in the order that the type menu lists them.
    pub fn all() -> (r: Vec<VariableNameFilterType>)
        ensures
            r@ == seq![
                VariableNameFilterType::Fuzzy,
                VariableNameFilterType::Regex,
                VariableNameFilterType::Start,
                VariableNameFilterType::Contain,
            ],
    {
        let r = vec![
            VariableNameFilterType::Fuzzy,
            VariableNameFilterType::Regex,
            VariableNameFilterType::Start,
            VariableNameFilterType::Contain,
        ];
        assert(r@ =~= seq![
            VariableNameFilterType::Fuzzy,
            VariableNameFilterType::Regex,
            VariableNameFilterType::Start,
            VariableNameFilterType::Contain,
        ]);
        r
    }
}

/// The pattern that a filter text of the given type is compiled to; a fuzzy
/// filter uses the text as it is.
pub open spec fn compiled_pattern(t: VariableNameFilterType, text: Seq<char>) -> Seq<char> {
    match t {
        VariableNameFilterType::Fuzzy => text,
        VariableNameFilterType::Regex => text,
        VariableNameFilterType::Start => seq!['^'] + escaped(text),
        VariableNameFilterType::Contain => escaped(text),
    }
}

/// The user's filter of the variable list.
#[derive(Debug)]
pub struct VariableFilter {
    pub name_filter_type: VariableNameFilterType,
    pub name_filter_str: String,
    pub name_filter_case_insensitive: bool,
}

/// A filter compiled once, to be applied to many names.
pub enum NameMatcher {
    /// Every name matches.
    Everything,
    /// No name matches.
    Nothing,
    /// A fuzzy match of the pattern.
    Fuzzy { pattern: String, case_insensitive: bool },
    /// A regular expression that must match somewhere in the name.
    Pattern(CompiledRegex),
}

impl NameMatcher {
    /// Whether this matcher accepts `name`.
    pub open spec fn accepts(&self, name: Seq<char>) -> bool {
        match self {
            NameMatcher::Everything => true,
            NameMatcher::Nothing => false,
            NameMatcher::Fuzzy { pattern, case_insensitive } => if *case_insensitive {
                fuzzy_finds_ignoring_case(name, pattern@)
            } else {
                fuzzy_finds_respecting_case(name, pattern@)
            },
            NameMatcher::Pattern(re) => regex_finds(re.source(), re.case_insensitive(), name),
        }
    }

    pub fn matches(&self, name: &str) -> (r: bool)
        ensures
            r == self.accepts(name@),
    {
        match self {
            NameMatcher::Everything => true,
            NameMatcher::Nothing => false,
            NameMatcher::Fuzzy { pattern, case_insensitive } => {
                if *case_insensitive {
                    fuzzy_match_ignoring_case(name, pattern.as_str())
                } else {
                    fuzzy_match_respecting_case(name, pattern.as_str())
                }
            },
            NameMatcher::Pattern(re) => re.is_match(name),
        }
    }
}

impl VariableFilter {
    /// The filter of a new session: an empty text, matched as a substring,
    /// ignoring case.
    pub fn new() -> (r: VariableFilter)
        ensures
            r.name_filter_type == VariableNameFilterType::Contain,
            r.name_filter_str@ == Seq::<char>::empty(),
            r.name_filter_case_insensitive,
    {
        VariableFilter {
            name_filter_type: VariableNameFilterType::Contain,
            name_filter_str: String::new(),
            name_filter_case_insensitive: true,
        }
    }

    /// Whether a variable called `name` passes this filter. An empty text
    /// passes every name; a pattern that does not compile passes none.
    pub open spec fn admits(&self, name: Seq<char>) -> bool {
        let text = self.name_filter_str@;
        let ci = self.name_filter_case_insensitive;
        if text.len() == 0 {
            true
        } else {
            match self.name_filter_type {
                VariableNameFilterType::Fuzzy => if ci {
                    fuzzy_finds_ignoring_case(name, text)
                } else {
                    fuzzy_finds_respecting_case(name, text)
                },
                _ => pattern_matches(compiled_pattern(self.name_filter_type, text), ci, name),
            }
        }
    }

    /// The variables of `vs` that pass this filter, in their order.
    pub open spec fn matching(&self, vs: Seq<VariableRef>) -> Seq<VariableRef>
        decreases vs.len(),
    {
        if vs.len() == 0 {
            Seq::empty()
        } else {
            let rest = self.matching(vs.drop_last());
            if self.admits(vs.last().name@) {
                rest.push(vs.last())
            } else {
                rest
            }
        }
    }

    /// Compiles this filter into a matcher that accepts exactly the names
    /// that the filter admits.
    pub fn name_filter_fn(&self) -> (m: NameMatcher)
        ensures
            forall|name: Seq<char>| #[trigger] m.accepts(name) == self.admits(name),
    {
        if self.name_filter_str.as_str().is_empty() {
            return NameMatcher::Everything;
        }
        let ci = self.name_filter_case_insensitive;
        let pattern = match self.name_filter_type {
            VariableNameFilterType::Fuzzy => {
                return NameMatcher::Fuzzy { pattern: self.name_filter_str.clone(), case_insensitive: ci };
            },
            VariableNameFilterType::Regex => self.name_filter_str.clone(),
            VariableNameFilterType::Start => {
                let mut p = String::from_str("^");
                let e = escape(self.name_filter_str.as_str());
                p.append(e.as_str());
                proof {
                    reveal_strlit("^");
                }
                p
            },
            VariableNameFilterType::Contain => escape(self.name_filter_str.as_str()),
        };
        assert(pattern@ == compiled_pattern(self.name_filter_type, self.name_filter_str@));
        match CompiledRegex::compile(pattern.as_str(), ci) {
            Some(re) => NameMatcher::Pattern(re),
            None => NameMatcher::Nothing,
        }
    }

    /// The variables of `variables` whose names pass this filter, in their
    /// order.
    pub fn matching_variables(&self, variables: &[VariableRef]) -> (r: Vec<VariableRef>)
        ensures
            r@ == self.matching(variables@),
    {
        let matcher = self.name_filter_fn();
        let mut r: Vec<VariableRef> = Vec::new();
        let mut i: usize = 0;
        while i < variables.len()
            invariant
                i <= variables@.len(),
                r@ == self.matching(variables@.subrange(0, i as int)),
                forall|name: Seq<char>| #[trigger] matcher.accepts(name) == self.admits(name),
            decreases variables@.len() - i,
        {
            let v = &variables[i];
            if matcher.matches(v.name.as_str()) {
                r.push(v.duplicate());
            }
            assert(variables@.subrange(0, i + 1).drop_last() =~= variables@.subrange(0, i as int));
            i += 1;
        }
        assert(variables@.subrange(0, variables@.len() as int) =~= variables@);
        r
    }
}

/// The order of two names character by character, a proper prefix first.
pub open spec fn lexicographic_order(a: Seq<char>, b: Seq<char>) -> Ordering
    decreases a.len(),
{
    if a.len() == 0 {
        if b.len() == 0 {
            Ordering::Equal
        } else {
            Ordering::Less
        }
    } else if b.len() == 0 {
        Ordering::Greater
    } else if (a[0] as u32) < (b[0] as u32) {
        Ordering::Less
    } else if (a[0] as u32) > (b[0] as u32) {
        Ordering::Greater
    } else {
        lexicographic_order(a.drop_first(), b.drop_first())
    }
}

/// The order of the variable list: numeric-aware, and names that compare
/// equal that way (`x01` and `x1`) in lexicographic order.
#[verifier::opaque]
pub open spec fn name_order(a: Seq<char>, b: Seq<char>) -> Ordering {
    match numeric_order(a, b) {
        Ordering::Equal => lexicographic_order(a, b),
        o => o,
    }
}

/// Whether the names of `s` are in the order of the variable list.
pub open spec fn sorted_by_name(s: Seq<VariableRef>) -> bool {
    forall|i: int|
        #![trigger s[i]]
        0 <= i && i + 1 < s.len() ==> name_order(s[i].name@, s[i + 1].name@) != Ordering::Greater
}

proof fn lemma_lexicographic_flip(a: Seq<char>, b: Seq<char>)
    ensures
        (lexicographic_order(a, b) == Ordering::Less) == (lexicographic_order(b, a)
            == Ordering::Greater),
    decreases a.len(),
{
    if a.len() > 0 && b.len() > 0 && a[0] as u32 == b[0] as u32 {
        lemma_lexicographic_flip(a.drop_first(), b.drop_first());
    }
}

fn lexicographic_cmp(a: &str, b: &str) -> (r: Ordering)
    ensures
        r == lexicographic_order(a@, b@),
{
    let la = a.unicode_len();
    let lb = b.unicode_len();
    let mut i: usize = 0;
    assert(a@.skip(0) =~= a@ && b@.skip(0) =~= b@);
    while i < la && i < lb
        invariant
            i <= la,
            i <= lb,
            la == a@.len(),
            lb == b@.len(),
            lexicographic_order(a@, b@) == lexicographic_order(a@.skip(i as int), b@.skip(i as int)),
        decreases la - i,
    {
        let x = a.get_char(i);
        let y = b.get_char(i);
        assert(a@.skip(i as int).drop_first() =~= a@.skip(i + 1));
        assert(b@.skip(i as int).drop_first() =~= b@.skip(i + 1));
        if (x as u32) < (y as u32) {
            return Ordering::Less;
        }
        if (x as u32) > (y as u32) {
            return Ordering::Greater;
        }
        i += 1;
    }
    if i < la {
        Ordering::Greater
    } else if i < lb {
        Ordering::Less
    } else {
        Ordering::Equal
    }
}

/// Compares two names in the order of the variable list.
fn name_cmp(a: &str, b: &str) -> (r: Ordering)
    ensures
        r == name_order(a@, b@),
        (r == Ordering::Less) == (name_order(b@, a@) == Ordering::Greater),
{
    let o = numeric_cmp(a, b);
    proof {
        reveal(name_order);
    }
    match o {
        Ordering::Equal => {
            proof {
                lemma_lexicographic_flip(a@, b@);
            }
            lexicographic_cmp(a, b)
        },
        _ => o,
    }
}

proof fn lemma_insert_to_multiset(s: Seq<VariableRef>, j: int, x: VariableRef)
    requires
        0 <= j <= s.len(),
    ensures
        s.insert(j, x).to_multiset() =~= s.to_multiset().insert(x),
{
    broadcast use vstd::seq_lib::group_to_multiset_ensures;

    let n = s.insert(j, x);
    assert(n.remove(j) =~= s);
    assert(n[j] == x);
    assert(n.contains(x));
}

#[verifier::rlimit(40)]
proof fn lemma_insert_keeps_sorted(s: Seq<VariableRef>, j: int, x: VariableRef)
    requires
        0 <= j <= s.len(),
        sorted_by_name(s),
        j > 0 ==> name_order(s[j - 1].name@, x.name@) != Ordering::Greater,
        j < s.len() ==> name_order(x.name@, s[j].name@) == Ordering::Less,
    ensures
        sorted_by_name(s.insert(j, x)),
{
    let n = s.insert(j, x);
    assert forall|k: int| #![trigger n[k]] 0 <= k && k + 1 < n.len() implies name_order(
        n[k].name@,
        n[k + 1].name@,
    ) != Ordering::Greater by {
        if k + 1 < j {
            assert(n[k] == s[k] && n[k + 1] == s[k + 1]);
        } else if k + 1 == j {
            assert(n[k] == s[k] && n[k + 1] == x);
        } else if k == j {
            assert(n[k] == x && n[k + 1] == s[k]);
        } else {
            assert(n[k] == s[k - 1] && n[k + 1] == s[k]);
        }
    }
}

proof fn lemma_prefix_to_multiset(s: Seq<VariableRef>, i: int)
    requires
        0 <= i < s.len(),
    ensures
        s.subrange(0, i + 1).to_multiset() =~= s.subrange(0, i).to_multiset().insert(s[i]),
{
    broadcast use vstd::seq_lib::group_to_multiset_ensures;

    assert(s.subrange(0, i + 1) =~= s.subrange(0, i).push(s[i]));
}

/// The first position of `r` whose name comes after `x`'s in the order of
/// the variable list, or the length of `r` if there is none.
fn insertion_point(r: &Vec<VariableRef>, x: &VariableRef) -> (j: usize)
    ensures
        j <= r@.len(),
        j > 0 ==> name_order(r@[j - 1].name@, x.name@) != Ordering::Greater,
        j < r@.len() ==> name_order(x.name@, r@[j as int].name@) == Ordering::Less,
{
    let mut j: usize = 0;
    while j < r.len()
        invariant
            j <= r@.len(),
            j > 0 ==> name_order(r@[j - 1].name@, x.name@) != Ordering::Greater,
        decreases r@.len() - j,
    {
        if let Ordering::Less = name_cmp(x.name.as_str(), r[j].name.as_str()) {
            return j;
        }
        j += 1;
    }
    j
}

/// The variables in the order of the variable list: numeric-aware, ties
/// broken lexicographically; variables of the same name keep their order.
#[verifier::rlimit(40)]
pub fn sort_by_name(vs: Vec<VariableRef>) -> (r: Vec<VariableRef>)
    ensures
        r@.to_multiset() == vs@.to_multiset(),
        sorted_by_name(r@),
{
    let mut r: Vec<VariableRef> = Vec::new();
    let mut i: usize = 0;
    assert(r@ =~= vs@.subrange(0, 0));
    while i < vs.len()
        invariant
            i <= vs@.len(),
            r@.to_multiset() == vs@.subrange(0, i as int).to_multiset(),
            sorted_by_name(r@),
        decreases vs@.len() - i,
    {
        let x = vs[i].duplicate();
        let j = insertion_point(&r, &x);
        let ghost old_r = r@;
        r.insert(j, x);
        proof {
            lemma_insert_to_multiset(old_r, j as int, x);
            lemma_prefix_to_multiset(vs@, i as int);
            lemma_insert_keeps_sorted(old_r, j as int, x);
        }
        i += 1;
    }
    assert(vs@.subrange(0, vs@.len() as int) =~= vs@);
    r
}

/// An empty filter text admits every variable: the matching variables are
/// the input itself.
pub proof fn lemma_empty_filter_keeps_all(f: &VariableFilter, vs: Seq<VariableRef>)
    requires
        f.name_filter_str@.len() == 0,
    ensures
        f.matching(vs) == vs,
    decreases vs.len(),
{
    if vs.len() > 0 {
        lemma_empty_filter_keeps_all(f, vs.drop_last());
        assert(vs.drop_last().push(vs.last()) =~= vs);
    }
}

/// A regular-expression filter whose text does not compile matches no
/// variable at all.
pub proof fn lemma_invalid_regex_matches_nothing(f: &VariableFilter, vs: Seq<VariableRef>)
    requires
        f.name_filter_type == VariableNameFilterType::Regex,
        f.name_filter_str@.len() > 0,
        !crate::matching::regex_compiles(f.name_filter_str@, f.name_filter_case_insensitive),
    ensures
        f.matching(vs).len() == 0,
    decreases vs.len(),
{
    if vs.len() > 0 {
        lemma_invalid_regex_matches_nothing(f, vs.drop_last());
    }
}

} // verus!
