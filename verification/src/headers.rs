//! HTTP headers as a mapping from names, compared without regard to ASCII
//! case, to values.

use crate::text::{eq_ignore_case, is_header_text, same_name, valid_header_text};
use vstd::prelude::*;

verus! {

/// One header line: a name and its value.
#[derive(Debug, PartialEq, Eq)]
pub struct Header {
    pub name: String,
    pub value: String,
}

/// What a header is to the contracts: its name and value as texts.
#[verifier::ext_equal]
pub struct HeaderView {
    pub name: Seq<char>,
    pub value: Seq<char>,
}

impl View for Header {
    type V = HeaderView;

    open spec fn view(&self) -> HeaderView {
        HeaderView { name: self.name@, value: self.value@ }
    }
}

impl Clone for Header {
    fn clone(&self) -> (r: Header)
        ensures
            r@ == self@,
    {
        Header { name: self.name.clone(), value: self.value.clone() }
    }
}

/// The views of a run of headers, in order.
pub open spec fn views(entries: Seq<Header>) -> Seq<HeaderView> {
    Seq::new(entries.len(), |i: int| entries[i]@)
}

/// The position of the first entry that carries `name`, or the number of
/// entries when none does.
pub open spec fn index_of(entries: Seq<HeaderView>, name: Seq<char>) -> int
    decreases entries.len(),
{
    if entries.len() == 0 {
        0
    } else if same_name(entries[0].name, name) {
        0
    } else {
        1 + index_of(entries.drop_first(), name)
    }
}

/// The value held under `name`, if any.
pub open spec fn lookup(entries: Seq<HeaderView>, name: Seq<char>) -> Option<Seq<char>> {
    let i = index_of(entries, name);
    if i < entries.len() {
        Some(entries[i].value)
    } else {
        None
    }
}

/// The entries after `name` has been given `value`: the entry that carried
/// the name is replaced where it stood, or a new last entry is added.
pub open spec fn put(entries: Seq<HeaderView>, name: Seq<char>, value: Seq<char>) -> Seq<
    HeaderView,
> {
    let i = index_of(entries, name);
    let entry = HeaderView { name, value };
    if i < entries.len() {
        entries.update(i, entry)
    } else {
        entries.push(entry)
    }
}

/// No two entries carry the same name.
pub open spec fn distinct_names(entries: Seq<HeaderView>) -> bool {
    forall|i: int, j: int|
        0 <= i < j < entries.len() ==> !same_name(
            (#[trigger] entries[i]).name,
            (#[trigger] entries[j]).name,
        )
}

/// Every value is valid header text.
pub open spec fn values_are_text(entries: Seq<HeaderView>) -> bool {
    forall|i: int| 0 <= i < entries.len() ==> is_header_text((#[trigger] entries[i]).value)
}

/// `index_of` is within bounds, no entry before it carries the name, and the
/// entry at it, if there is one, does.
pub proof fn lemma_index_of(entries: Seq<HeaderView>, name: Seq<char>)
    ensures
        0 <= index_of(entries, name) <= entries.len(),
        forall|j: int|
            0 <= j < index_of(entries, name) ==> !same_name((#[trigger] entries[j]).name, name),
        index_of(entries, name) < entries.len() ==> same_name(
            entries[index_of(entries, name)].name,
            name,
        ),
    decreases entries.len(),
{
    if entries.len() > 0 && !same_name(entries[0].name, name) {
        let rest = entries.drop_first();
        lemma_index_of(rest, name);
        assert forall|j: int| 0 <= j < index_of(entries, name) implies !same_name(
            (#[trigger] entries[j]).name,
            name,
        ) by {
            if j > 0 {
                assert(rest[j - 1] == entries[j]);
            }
        }
        if index_of(rest, name) < rest.len() {
            assert(rest[index_of(rest, name)] == entries[index_of(rest, name) + 1]);
        }
    }
}

/// A position that no match precedes, and that either holds a match or is
/// the end, is the one `index_of` gives.
pub proof fn lemma_index_of_is(entries: Seq<HeaderView>, name: Seq<char>, i: int)
    requires
        0 <= i <= entries.len(),
        forall|j: int| 0 <= j < i ==> !same_name((#[trigger] entries[j]).name, name),
        i < entries.len() ==> same_name(entries[i].name, name),
    ensures
        index_of(entries, name) == i,
{
    lemma_index_of(entries, name);
    let k = index_of(entries, name);
    if k < i {
        assert(!same_name(entries[k].name, name));
    } else if i < k {
        assert(!same_name(entries[i].name, name));
    }
}

/// After `put`, the name, in any spelling, leads to the new value.
pub proof fn law_lookup_after_put(
    entries: Seq<HeaderView>,
    name: Seq<char>,
    value: Seq<char>,
    asked: Seq<char>,
)
    requires
        same_name(name, asked),
    ensures
        lookup(put(entries, name, value), asked) == Some(value),
{
    lemma_index_of(entries, name);
    let i = index_of(entries, name);
    let after = put(entries, name, value);
    assert forall|j: int| 0 <= j < i implies !same_name((#[trigger] after[j]).name, asked) by {
        assert(after[j] == entries[j]);
    }
    lemma_index_of_is(after, asked, i);
}

/// After `put`, every other name leads to what it led to before.
pub proof fn law_lookup_after_put_elsewhere(
    entries: Seq<HeaderView>,
    name: Seq<char>,
    value: Seq<char>,
    asked: Seq<char>,
)
    requires
        !same_name(name, asked),
    ensures
        lookup(put(entries, name, value), asked) == lookup(entries, asked),
{
    lemma_index_of(entries, name);
    lemma_index_of(entries, asked);
    let i = index_of(entries, name);
    let k = index_of(entries, asked);
    let after = put(entries, name, value);
    assert(k != i || i == entries.len());
    if k < entries.len() {
        assert(after[k] == entries[k]);
    }
    assert forall|j: int| 0 <= j < k implies !same_name((#[trigger] after[j]).name, asked) by {
        if j != i {
            assert(after[j] == entries[j]);
        }
    }
    if k == entries.len() && i == entries.len() {
        lemma_index_of_is(after, asked, k + 1);
    } else {
        lemma_index_of_is(after, asked, k);
    }
}

/// `put` never makes a name occur twice.
pub proof fn law_put_keeps_distinct(entries: Seq<HeaderView>, name: Seq<char>, value: Seq<char>)
    requires
        distinct_names(entries),
    ensures
        distinct_names(put(entries, name, value)),
{
    lemma_index_of(entries, name);
    let i = index_of(entries, name);
    let after = put(entries, name, value);
    assert forall|a: int, b: int| 0 <= a < b < after.len() implies !same_name(
        (#[trigger] after[a]).name,
        (#[trigger] after[b]).name,
    ) by {
        if i < entries.len() {
            if a == i {
                assert(!same_name(entries[i].name, entries[b].name));
            } else if b == i {
                assert(!same_name(entries[a].name, entries[i].name));
            } else {
                assert(!same_name(entries[a].name, entries[b].name));
            }
        } else {
            if b == i {
                assert(!same_name(entries[a].name, name));
            } else {
                assert(!same_name(entries[a].name, entries[b].name));
            }
        }
    }
}

/// A set of headers in which each name, whatever its case, occurs once.
#[derive(Debug, PartialEq, Eq)]
pub struct Headers {
    entries: Vec<Header>,
}

impl View for Headers {
    type V = Seq<HeaderView>;

    closed spec fn view(&self) -> Seq<HeaderView> {
        views(self.entries@)
    }
}

impl Clone for Headers {
    fn clone(&self) -> (r: Headers)
        ensures
            r@ == self@,
    {
        proof {
            use_type_invariant(self);
        }
        let entries = self.entries();
        Headers { entries }
    }
}

impl Headers {
    #[verifier::type_invariant]
    spec fn no_name_twice(self) -> bool {
        distinct_names(views(self.entries@))
    }

    /// No headers at all.
    pub fn new() -> (r: Headers)
        ensures
            r@ == Seq::<HeaderView>::empty(),
    {
        let r = Headers { entries: Vec::new() };
        assert(r@ =~= Seq::<HeaderView>::empty());
        r
    }

    /// The number of headers.
    pub fn len(&self) -> (n: usize)
        ensures
            n == self@.len(),
    {
        self.entries.len()
    }

    fn position(&self, name: &str) -> (i: usize)
        ensures
            i == index_of(self@, name@),
            i <= self.entries@.len(),
    {
        let mut i: usize = 0;
        while i < self.entries.len()
            invariant
                i <= self.entries@.len(),
                forall|j: int| 0 <= j < i ==> !same_name((#[trigger] self@[j]).name, name@),
            decreases self.entries@.len() - i,
        {
            if eq_ignore_case(self.entries[i].name.as_str(), name) {
                proof {
                    assert(self@[i as int] == self.entries@[i as int]@);
                    lemma_index_of_is(self@, name@, i as int);
                }
                return i;
            }
            assert(self@[i as int] == self.entries@[i as int]@);
            i += 1;
        }
        proof {
            lemma_index_of_is(self@, name@, i as int);
        }
        i
    }

    /// The value held under `name`, compared without regard to case.
    pub fn get(&self, name: &str) -> (r: Option<String>)
        ensures
            match r {
                Some(value) => lookup(self@, name@) == Some(value@),
                None => lookup(self@, name@) is None,
            },
    {
        let i = self.position(name);
        if i < self.entries.len() {
            assert(self@[i as int] == self.entries@[i as int]@);
            Some(self.entries[i].value.clone())
        } else {
            None
        }
    }

    /// Gives `name` the value `value`, in place of the one it had, if any.
    pub fn set(&mut self, name: &str, value: &str)
        ensures
            final(self)@ == put(old(self)@, name@, value@),
    {
        proof {
            use_type_invariant(&*self);
        }
        let i = self.position(name);
        let entry = Header { name: name.to_owned(), value: value.to_owned() };
        let ghost before = self@;
        let mut entries: Vec<Header> = Vec::new();
        std::mem::swap(&mut entries, &mut self.entries);
        if i < entries.len() {
            entries.set(i, entry);
        } else {
            entries.push(entry);
        }
        proof {
            law_put_keeps_distinct(before, name@, value@);
            assert(views(entries@) =~= put(before, name@, value@));
        }
        self.entries = entries;
    }

    /// The headers one by one, in the order in which their names first came.
    pub fn entries(&self) -> (r: Vec<Header>)
        ensures
            views(r@) == self@,
            distinct_names(self@),
    {
        proof {
            use_type_invariant(self);
        }
        let mut r: Vec<Header> = Vec::new();
        let mut i: usize = 0;
        while i < self.entries.len()
            invariant
                i <= self.entries@.len(),
                r@.len() == i,
                forall|j: int| 0 <= j < i ==> (#[trigger] r@[j])@ == self.entries@[j]@,
            decreases self.entries@.len() - i,
        {
            r.push(self.entries[i].clone());
            i += 1;
        }
        assert(views(r@) =~= self@);
        r
    }

    /// Whether every value is valid header text.
    pub fn values_are_text(&self) -> (r: bool)
        ensures
            r == values_are_text(self@),
    {
        let mut i: usize = 0;
        while i < self.entries.len()
            invariant
                i <= self.entries@.len(),
                forall|j: int| 0 <= j < i ==> is_header_text((#[trigger] self@[j]).value),
            decreases self.entries@.len() - i,
        {
            assert(self@[i as int] == self.entries@[i as int]@);
            if !valid_header_text(self.entries[i].value.as_str()) {
                return false;
            }
            i += 1;
        }
        true
    }
}

} // verus!
