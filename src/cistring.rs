use std::cmp::Ordering;
use vstd::prelude::*;
use vstd::string::*;

verus! {

/// What `str::to_lowercase` makes of a sequence of characters.
pub uninterp spec fn lower_of(s: Seq<char>) -> Seq<char>;

/// Relies on `str::to_lowercase`: the result depends on the characters alone,
/// and an empty string stays empty.
#[verifier::external_body]
fn lowercase(s: &str) -> (r: String)
    ensures
        r@ == lower_of(s@),
        s@.len() == 0 ==> r@.len() == 0,
{
    s.to_lowercase()
}

/// The order of two characters by their scalar values.
pub open spec fn char_cmp(a: char, b: char) -> Ordering {
    if (a as u32) < (b as u32) {
        Ordering::Less
    } else if (a as u32) > (b as u32) {
        Ordering::Greater
    } else {
        Ordering::Equal
    }
}

/// Lexicographic order of two character sequences, which is the order of
/// their UTF-8 encodings byte by byte.
pub open spec fn lex_cmp(a: Seq<char>, b: Seq<char>) -> Ordering
    decreases a.len(),
{
    if a.len() == 0 {
        if b.len() == 0 {
            Ordering::Equal
        } else {
            Ordering::Less
        }
    } else if b.len() == 0 {
        Ordering::Greater
    } else if a[0] != b[0] {
        char_cmp(a[0], b[0])
    } else {
        lex_cmp(a.drop_first(), b.drop_first())
    }
}

proof fn lemma_lex_cmp_suffix(a: Seq<char>, b: Seq<char>, i: int)
    requires
        0 <= i <= a.len(),
        i <= b.len(),
        a.subrange(0, i) == b.subrange(0, i),
    ensures
        lex_cmp(a, b) == lex_cmp(a.subrange(i, a.len() as int), b.subrange(i, b.len() as int)),
    decreases i,
{
    if i > 0 {
        assert(a[0] == a.subrange(0, i)[0]);
        assert(b[0] == b.subrange(0, i)[0]);
        let a1 = a.drop_first();
        let b1 = b.drop_first();
        assert(a1.subrange(0, i - 1) =~= a.subrange(0, i).drop_first());
        assert(b1.subrange(0, i - 1) =~= b.subrange(0, i).drop_first());
        lemma_lex_cmp_suffix(a1, b1, i - 1);
        assert(a1.subrange(i - 1, a1.len() as int) =~= a.subrange(i, a.len() as int));
        assert(b1.subrange(i - 1, b1.len() as int) =~= b.subrange(i, b.len() as int));
    } else {
        assert(a.subrange(0, a.len() as int) =~= a);
        assert(b.subrange(0, b.len() as int) =~= b);
    }
}

/// Compares two strings lexicographically by character.
pub fn compare_chars(a: &str, b: &str) -> (r: Ordering)
    ensures
        r == lex_cmp(a@, b@),
{
    let la = a.unicode_len();
    let lb = b.unicode_len();
    let mut i: usize = 0;
    while i < la && i < lb
        invariant
            la == a@.len(),
            lb == b@.len(),
            i <= la,
            i <= lb,
            a@.subrange(0, i as int) == b@.subrange(0, i as int),
        decreases la - i,
    {
        let ca = a.get_char(i);
        let cb = b.get_char(i);
        if ca != cb {
            proof {
                lemma_lex_cmp_suffix(a@, b@, i as int);
                let sa = a@.subrange(i as int, a@.len() as int);
                let sb = b@.subrange(i as int, b@.len() as int);
                assert(sa[0] == ca);
                assert(sb[0] == cb);
            }
            if (ca as u32) < (cb as u32) {
                return Ordering::Less;
            } else {
                return Ordering::Greater;
            }
        }
        assert(a@.subrange(0, i + 1) =~= a@.subrange(0, i as int).push(ca));
        assert(b@.subrange(0, i + 1) =~= b@.subrange(0, i as int).push(cb));
        i = i + 1;
    }
    proof {
        lemma_lex_cmp_suffix(a@, b@, i as int);
    }
    if i < la {
        Ordering::Greater
    } else if i < lb {
        Ordering::Less
    } else {
        Ordering::Equal
    }
}

/// A string whose equality and order ignore letter case. It has no `Hash`:
/// a hash of the text as given would tell apart strings that are equal.
#[derive(Clone, Debug)]
pub struct CiString(pub String);

impl CiString {
    /// The characters that equality and order look at.
    pub open spec fn folded(&self) -> Seq<char> {
        lower_of(self.0@)
    }

    /// Wraps a string.
    pub fn new(s: String) -> (r: CiString)
        ensures
            r.0@ == s@,
    {
        CiString(s)
    }

    /// The characters as they were given.
    pub fn as_str(&self) -> (r: &str)
        ensures
            r@ == self.0@,
    {
        self.0.as_str()
    }

    /// Gives back the wrapped string.
    pub fn into_string(self) -> (r: String)
        ensures
            r@ == self.0@,
    {
        self.0
    }

    /// The text as it was given, for display.
    pub fn to_display_string(&self) -> (r: String)
        ensures
            r@ == self.0@,
    {
        self.0.clone()
    }

    /// Borrows the text as a case-insensitive string slice.
    pub fn as_ci_str(&self) -> (r: CiStr)
        ensures
            r.text() == self.0@,
    {
        CiStr(self.0.clone())
    }

    /// Case-insensitive equality.
    pub fn ci_eq(&self, other: &CiString) -> (r: bool)
        ensures
            r == (self.folded() == other.folded()),
    {
        let a = lowercase(self.0.as_str());
        let b = lowercase(other.0.as_str());
        a == b
    }

    /// Case-insensitive order.
    pub fn ci_cmp(&self, other: &CiString) -> (r: Ordering)
        ensures
            r == lex_cmp(self.folded(), other.folded()),
    {
        let a = lowercase(self.0.as_str());
        let b = lowercase(other.0.as_str());
        compare_chars(a.as_str(), b.as_str())
    }
}

impl From<String> for CiString {
    fn from(string: String) -> (r: CiString) {
        CiString(string)
    }
}

impl vstd::std_specs::convert::FromSpecImpl<String> for CiString {
    open spec fn obeys_from_spec() -> bool {
        true
    }

    open spec fn from_spec(v: String) -> CiString {
        CiString(v)
    }
}

impl PartialEq for CiString {
    fn eq(&self, other: &CiString) -> (r: bool) {
        self.ci_eq(other)
    }
}

impl vstd::std_specs::cmp::PartialEqSpecImpl for CiString {
    open spec fn obeys_eq_spec() -> bool {
        true
    }

    open spec fn eq_spec(&self, other: &CiString) -> bool {
        self.folded() == other.folded()
    }
}

impl Eq for CiString {}

impl PartialOrd for CiString {
    fn partial_cmp(&self, other: &CiString) -> (r: Option<Ordering>) {
        Some(self.ci_cmp(other))
    }
}

impl vstd::std_specs::cmp::PartialOrdSpecImpl for CiString {
    open spec fn obeys_partial_cmp_spec() -> bool {
        true
    }

    open spec fn partial_cmp_spec(&self, other: &CiString) -> Option<Ordering> {
        Some(lex_cmp(self.folded(), other.folded()))
    }
}

/// A borrowed-style form of [`CiString`], compared the same way.
#[derive(Debug)]
pub struct CiStr(pub String);

impl CiStr {
    /// The characters that equality and order look at.
    pub open spec fn folded(&self) -> Seq<char> {
        lower_of(self.0@)
    }

    /// The characters as they were given.
    pub open spec fn text(&self) -> Seq<char> {
        self.0@
    }

    /// Makes a case-insensitive view of a string slice.
    pub fn from_str(s: &str) -> (r: CiStr)
        ensures
            r.text() == s@,
    {
        CiStr(String::from_str(s))
    }

    /// The characters as they were given.
    pub fn as_str(&self) -> (r: &str)
        ensures
            r@ == self.text(),
    {
        self.0.as_str()
    }

    /// An owned copy.
    pub fn to_owned(&self) -> (r: CiString)
        ensures
            r.0@ == self.text(),
    {
        CiString(self.0.clone())
    }

    /// Case-insensitive equality with an owned string.
    pub fn eq_string(&self, other: &CiString) -> (r: bool)
        ensures
            r == (self.folded() == other.folded()),
    {
        let a = lowercase(self.0.as_str());
        let b = lowercase(other.0.as_str());
        b == a
    }

    /// Case-insensitive equality.
    pub fn ci_eq(&self, other: &CiStr) -> (r: bool)
        ensures
            r == (self.folded() == other.folded()),
    {
        let a = lowercase(self.0.as_str());
        let b = lowercase(other.0.as_str());
        a == b
    }

    /// Case-insensitive order.
    pub fn ci_cmp(&self, other: &CiStr) -> (r: Ordering)
        ensures
            r == lex_cmp(self.folded(), other.folded()),
    {
        let a = lowercase(self.0.as_str());
        let b = lowercase(other.0.as_str());
        compare_chars(a.as_str(), b.as_str())
    }
}

impl PartialEq for CiStr {
    fn eq(&self, other: &CiStr) -> (r: bool) {
        self.ci_eq(other)
    }
}

impl vstd::std_specs::cmp::PartialEqSpecImpl for CiStr {
    open spec fn obeys_eq_spec() -> bool {
        true
    }

    open spec fn eq_spec(&self, other: &CiStr) -> bool {
        self.folded() == other.folded()
    }
}

impl Eq for CiStr {}

impl PartialEq<CiString> for CiStr {
    fn eq(&self, other: &CiString) -> (r: bool) {
        self.eq_string(other)
    }
}

impl vstd::std_specs::cmp::PartialEqSpecImpl<CiString> for CiStr {
    open spec fn obeys_eq_spec() -> bool {
        true
    }

    open spec fn eq_spec(&self, other: &CiString) -> bool {
        self.folded() == other.folded()
    }
}

impl PartialOrd for CiStr {
    fn partial_cmp(&self, other: &CiStr) -> (r: Option<Ordering>) {
        Some(self.ci_cmp(other))
    }
}

impl vstd::std_specs::cmp::PartialOrdSpecImpl for CiStr {
    open spec fn obeys_partial_cmp_spec() -> bool {
        true
    }

    open spec fn partial_cmp_spec(&self, other: &CiStr) -> Option<Ordering> {
        Some(lex_cmp(self.folded(), other.folded()))
    }
}

} // verus!
