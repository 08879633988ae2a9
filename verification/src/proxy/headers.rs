//! Header mappings.
//!
//! A header mapping holds name and value pairs. Names differ only by more
//! than the case of their ASCII letters: `Content-Type` and `content-type`
//! are one name. Writing a name a second time replaces its value.

use crate::shared::text::{folded, same_folded};
use vstd::prelude::*;
use vstd::string::*;

verus! {

/// Two header names are the same name when they differ at most in the case
/// of ASCII letters.
pub open spec fn same_name(a: Seq<char>, b: Seq<char>) -> bool {
    folded(a) == folded(b)
}

/// No name stands twice among the pairs.
pub open spec fn distinct_names(m: Seq<(Seq<char>, Seq<char>)>) -> bool {
    forall|i: int, j: int|
        0 <= i < j < m.len() ==> !same_name(#[trigger] m[i].0, #[trigger] m[j].0)
}

/// The place of the latest pair whose name is `name`, or -1 without one.
pub open spec fn position(m: Seq<(Seq<char>, Seq<char>)>, name: Seq<char>) -> int
    decreases m.len(),
{
    if m.len() == 0 {
        -1
    } else if same_name(m.last().0, name) {
        m.len() - 1
    } else {
        position(m.drop_last(), name)
    }
}

/// The value that the pairs hold under `name`.
pub open spec fn lookup(m: Seq<(Seq<char>, Seq<char>)>, name: Seq<char>) -> Option<Seq<char>> {
    if position(m, name) >= 0 {
        Some(m[position(m, name)].1)
    } else {
        None
    }
}

/// The pairs after `value` was written under `name`: the pair of that name
/// keeps its place and its spelling and takes the value; without such a pair
/// a new one goes to the end.
pub open spec fn inserted(m: Seq<(Seq<char>, Seq<char>)>, name: Seq<char>, value: Seq<char>) -> Seq<
    (Seq<char>, Seq<char>),
> {
    let at = position(m, name);
    if at >= 0 {
        m.update(at, (m[at].0, value))
    } else {
        m.push((name, value))
    }
}

/// Where `position` points there is a pair of that name, and none after it;
/// where it points nowhere, no pair has the name.
pub proof fn lemma_position(m: Seq<(Seq<char>, Seq<char>)>, name: Seq<char>)
    ensures
        -1 <= position(m, name) < m.len(),
        position(m, name) >= 0 ==> same_name(m[position(m, name)].0, name),
        forall|k: int| position(m, name) < k < m.len() ==> !same_name(#[trigger] m[k].0, name),
    decreases m.len(),
{
    if m.len() > 0 && !same_name(m.last().0, name) {
        lemma_position(m.drop_last(), name);
        assert forall|k: int| position(m, name) < k < m.len() implies !same_name(
            #[trigger] m[k].0,
            name,
        ) by {
            if k < m.len() - 1 {
                assert(m.drop_last()[k] == m[k]);
            }
        }
    }
}

/// A value written under a name is the value found under it, however the
/// name is spelled.
pub proof fn lemma_lookup_written(
    m: Seq<(Seq<char>, Seq<char>)>,
    name: Seq<char>,
    value: Seq<char>,
    asked: Seq<char>,
)
    requires
        distinct_names(m),
        same_name(name, asked),
    ensures
        lookup(inserted(m, name, value), asked) == Some(value),
{
    let after = inserted(m, name, value);
    let at = position(m, name);
    lemma_position(m, name);
    lemma_position(after, asked);
    if at >= 0 {
        assert(same_name(after[at].0, asked));
    }
}

/// Writing under one name leaves what is found under every other name.
pub proof fn lemma_lookup_other(
    m: Seq<(Seq<char>, Seq<char>)>,
    name: Seq<char>,
    value: Seq<char>,
    asked: Seq<char>,
)
    requires
        !same_name(name, asked),
    ensures
        lookup(inserted(m, name, value), asked) == lookup(m, asked),
{
    let after = inserted(m, name, value);
    let before = position(m, asked);
    lemma_position(m, name);
    lemma_position(m, asked);
    lemma_position(after, asked);
    if position(m, name) >= 0 {
        assert forall|k: int| 0 <= k < m.len() implies #[trigger] after[k].0 == m[k].0 by {}
    } else {
        assert forall|k: int| 0 <= k < m.len() implies #[trigger] after[k] == m[k] by {}
    }
    if before >= 0 {
        assert(same_name(after[before].0, asked));
    }
}

/// Writing a value keeps the names distinct.
pub proof fn lemma_inserted_distinct(
    m: Seq<(Seq<char>, Seq<char>)>,
    name: Seq<char>,
    value: Seq<char>,
)
    requires
        distinct_names(m),
    ensures
        distinct_names(inserted(m, name, value)),
{
    let after = inserted(m, name, value);
    lemma_position(m, name);
    assert forall|i: int, j: int| 0 <= i < j < after.len() implies !same_name(
        #[trigger] after[i].0,
        #[trigger] after[j].0,
    ) by {}
}

/// One header: a name and its value.
#[derive(Debug)]
pub struct Header {
    pub name: String,
    pub value: String,
}

/// A mapping from header names to values, in the order in which the names
/// were first written.
#[derive(Debug)]
pub struct Headers {
    entries: Vec<Header>,
}

impl View for Headers {
    type V = Seq<(Seq<char>, Seq<char>)>;

    closed spec fn view(&self) -> Seq<(Seq<char>, Seq<char>)> {
        self.entries@.map_values(|h: Header| (h.name@, h.value@))
    }
}

impl Headers {
    #[verifier::type_invariant]
    spec fn names_are_distinct(&self) -> bool {
        distinct_names(self@)
    }

    /// A mapping without pairs.
    pub fn new() -> (headers: Self)
        ensures
            headers@ == Seq::<(Seq<char>, Seq<char>)>::empty(),
    {
        let headers = Headers { entries: Vec::new() };
        headers
    }

    /// The number of pairs.
    pub fn len(&self) -> (n: usize)
        ensures
            n == self@.len(),
    {
        self.entries.len()
    }

    /// Whether the mapping has no pair.
    pub fn is_empty(&self) -> (b: bool)
        ensures
            b == (self@.len() == 0),
    {
        self.entries.len() == 0
    }

    /// The pair at place `i`, counted from 0, if there is one.
    pub fn entry(&self, i: usize) -> (r: Option<&Header>)
        ensures
            r is Some == (i < self@.len()),
            r matches Some(h) ==> (h.name@, h.value@) == self@[i as int],
            distinct_names(self@),
    {
        proof {
            use_type_invariant(self);
        }
        if i < self.entries.len() {
            Some(&self.entries[i])
        } else {
            None
        }
    }

    /// The place of the pair named `name`, if there is one.
    fn find(&self, name: &str) -> (r: Option<usize>)
        ensures
            match r {
                Some(i) => i == position(self@, name@),
                None => position(self@, name@) == -1,
            },
    {
        let mut found: Option<usize> = None;
        let mut i: usize = 0;
        while i < self.entries.len()
            invariant
                i <= self.entries@.len(),
                match found {
                    Some(at) => at == position(self@.take(i as int), name@),
                    None => position(self@.take(i as int), name@) == -1,
                },
            decreases self.entries@.len() - i,
        {
            proof {
                assert(self@.take(i + 1).drop_last() == self@.take(i as int));
            }
            if same_folded(self.entries[i].name.as_str(), name) {
                found = Some(i);
            }
            i = i + 1;
        }
        proof {
            assert(self@.take(self@.len() as int) == self@);
        }
        found
    }

    /// The value held under `name`, if there is one.
    pub fn get(&self, name: &str) -> (r: Option<&String>)
        ensures
            match r {
                Some(value) => lookup(self@, name@) == Some(value@),
                None => lookup(self@, name@) is None,
            },
    {
        match self.find(name) {
            Some(i) => {
                proof {
                    lemma_position(self@, name@);
                }
                Some(&self.entries[i].value)
            },
            None => None,
        }
    }

    /// Whether a value is held under `name`.
    pub fn contains_key(&self, name: &str) -> (b: bool)
        ensures
            b == lookup(self@, name@) is Some,
    {
        self.find(name).is_some()
    }

    /// Writes `value` under `name`. A pair of that name keeps its place and
    /// spelling; the latest value wins.
    pub fn insert(&mut self, name: String, value: String)
        ensures
            final(self)@ == inserted(old(self)@, name@, value@),
    {
        proof {
            use_type_invariant(&*self);
            lemma_position(self@, name@);
            lemma_inserted_distinct(self@, name@, value@);
        }
        let found = self.find(name.as_str());
        let mut entries: Vec<Header> = Vec::new();
        std::mem::swap(&mut self.entries, &mut entries);
        match found {
            Some(i) => {
                let kept = entries[i].name.clone();
                entries.set(i, Header { name: kept, value });
            },
            None => {
                entries.push(Header { name, value });
            },
        }
        assert(entries@.map_values(|h: Header| (h.name@, h.value@)) =~= inserted(
            old(self)@,
            name@,
            value@,
        ));
        self.entries = entries;
    }
}

} // verus!
