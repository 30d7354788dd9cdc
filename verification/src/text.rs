//! Text helpers: ASCII case folding for header names and the rule for header
//! values.

use vstd::prelude::*;

verus! {

/// The lower-case form of an ASCII capital letter; any other character is
/// left as it is.
pub open spec fn lower(c: char) -> char {
    if 'A' <= c && c <= 'Z' {
        ((c as u8) + 32) as char
    } else {
        c
    }
}

/// A text with each ASCII capital letter replaced by its lower-case form.
pub open spec fn fold(s: Seq<char>) -> Seq<char> {
    Seq::new(s.len(), |i: int| lower(s[i]))
}

/// Two header names denote the same header when they differ at most in the
/// case of ASCII letters.
pub open spec fn same_name(a: Seq<char>, b: Seq<char>) -> bool {
    fold(a) == fold(b)
}

/// A character that may stand in a header value: horizontal tab or
/// printable ASCII (space up to tilde).
pub open spec fn is_text_char(c: char) -> bool {
    c == '\t' || (' ' <= c && c <= '~')
}

/// A header value is valid text when each of its characters is.
pub open spec fn is_header_text(s: Seq<char>) -> bool {
    forall|i: int| 0 <= i < s.len() ==> is_text_char(#[trigger] s[i])
}

/// Comparing names is an equivalence: it is reflexive, symmetric and
/// transitive.
pub proof fn law_same_name_equivalence(a: Seq<char>, b: Seq<char>, c: Seq<char>)
    ensures
        same_name(a, a),
        same_name(a, b) ==> same_name(b, a),
        same_name(a, b) && same_name(b, c) ==> same_name(a, c),
{
}

/// Folding keeps the length, so names of different lengths never match.
pub proof fn lemma_same_name_len(a: Seq<char>, b: Seq<char>)
    requires
        same_name(a, b),
    ensures
        a.len() == b.len(),
        forall|i: int| 0 <= i < a.len() ==> lower(a[i]) == lower(b[i]),
{
    assert(fold(a).len() == a.len());
    assert(fold(b).len() == b.len());
    assert forall|i: int| 0 <= i < a.len() implies lower(a[i]) == lower(b[i]) by {
        assert(fold(a)[i] == lower(a[i]));
        assert(fold(b)[i] == lower(b[i]));
    }
}

pub fn to_lower(c: char) -> (r: char)
    ensures
        r == lower(c),
{
    if 'A' <= c && c <= 'Z' {
        ((c as u8) + 32) as char
    } else {
        c
    }
}

/// The characters of a text, one by one.
pub fn chars_of(s: &str) -> (v: Vec<char>)
    ensures
        v@ == s@,
{
    let mut v: Vec<char> = Vec::new();
    for c in it: s.chars()
        invariant
            it.seq() == s@,
            v@ == it.seq().take(it.index()),
    {
        v.push(c);
    }
    v
}

/// The folded characters of a text.
pub fn folded(s: &str) -> (v: Vec<char>)
    ensures
        v@ == fold(s@),
{
    let mut v: Vec<char> = Vec::new();
    for c in it: s.chars()
        invariant
            it.seq() == s@,
            v@ == fold(it.seq().take(it.index())),
    {
        v.push(to_lower(c));
        assert(v@ =~= fold(it.seq().take(it.index() + 1)));
    }
    assert(s@.take(s@.len() as int) =~= s@);
    v
}

/// Whether two names denote the same header.
pub fn eq_ignore_case(a: &str, b: &str) -> (r: bool)
    ensures
        r == same_name(a@, b@),
{
    let x = folded(a);
    let y = folded(b);
    if x.len() != y.len() {
        return false;
    }
    let mut i: usize = 0;
    while i < x.len()
        invariant
            i <= x.len(),
            x.len() == y.len(),
            x@ == fold(a@),
            y@ == fold(b@),
            forall|j: int| 0 <= j < i ==> x@[j] == y@[j],
        decreases x.len() - i,
    {
        if x[i] != y[i] {
            assert(fold(a@)[i as int] != fold(b@)[i as int]);
            return false;
        }
        i += 1;
    }
    assert(x@ =~= y@);
    true
}

/// Whether two texts are the same, character by character.
pub fn text_eq(a: &str, b: &str) -> (r: bool)
    ensures
        r == (a@ == b@),
{
    let x = chars_of(a);
    let y = chars_of(b);
    if x.len() != y.len() {
        return false;
    }
    let mut i: usize = 0;
    while i < x.len()
        invariant
            i <= x.len(),
            x.len() == y.len(),
            x@ == a@,
            y@ == b@,
            forall|j: int| 0 <= j < i ==> x@[j] == y@[j],
        decreases x.len() - i,
    {
        if x[i] != y[i] {
            return false;
        }
        i += 1;
    }
    assert(x@ =~= y@);
    true
}

/// Whether a text is a valid header value.
pub fn valid_header_text(s: &str) -> (r: bool)
    ensures
        r == is_header_text(s@),
{
    for c in it: s.chars()
        invariant
            it.seq() == s@,
            is_header_text(it.seq().take(it.index())),
    {
        if !(c == '\t' || (' ' <= c && c <= '~')) {
            assert(!is_text_char(s@[it.index()]));
            return false;
        }
        assert forall|i: int| 0 <= i < it.index() + 1 implies is_text_char(
            #[trigger] it.seq().take(it.index() + 1)[i],
        ) by {
            if i < it.index() {
                assert(it.seq().take(it.index())[i] == it.seq()[i]);
            }
        }
    }
    assert(s@.take(s@.len() as int) =~= s@);
    true
}

} // verus!
