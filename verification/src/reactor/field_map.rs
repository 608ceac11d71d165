//! The flat field map that goes to the broker with an entry: names and values
//! as text, kept in the byte order of the names, each name once.

use crate::reactor::text::{
    lemma_precedes_asymmetric, lemma_precedes_transitive, precedes, rank, Rank,
};
use vstd::prelude::*;
use vstd::utf8::encode_utf8;

verus! {

/// Whether the names of `pairs` strictly increase in the order of their bytes.
pub open spec fn sorted(pairs: Seq<(Seq<char>, Seq<char>)>) -> bool {
    forall|i: int, j: int|
        0 <= i < j < pairs.len() ==> precedes(
            encode_utf8((#[trigger] pairs[i]).0),
            encode_utf8((#[trigger] pairs[j]).0),
        )
}

/// The map without fields.
pub open spec fn no_text() -> Map<Seq<char>, Seq<char>> {
    Map::empty()
}

/// Whether `name` is the name of the pair at index `i`.
pub open spec fn named_at(pairs: Seq<(Seq<char>, Seq<char>)>, name: Seq<char>, i: int) -> bool {
    0 <= i < pairs.len() && pairs[i].0 == name
}

/// The pairs as a map from names to values.
pub open spec fn as_map(pairs: Seq<(Seq<char>, Seq<char>)>) -> Map<Seq<char>, Seq<char>> {
    Map::new(
        |name: Seq<char>| exists|i: int| named_at(pairs, name, i),
        |name: Seq<char>| pairs[choose|i: int| named_at(pairs, name, i)].1,
    )
}

/// In sorted pairs a name stands at one index only.
pub proof fn lemma_name_once(pairs: Seq<(Seq<char>, Seq<char>)>, i: int, j: int)
    requires
        sorted(pairs),
        0 <= i < pairs.len(),
        0 <= j < pairs.len(),
        pairs[i].0 == pairs[j].0,
    ensures
        i == j,
{
    lemma_precedes_asymmetric(encode_utf8(pairs[i].0), encode_utf8(pairs[j].0));
}

/// The map of sorted pairs holds each pair.
pub proof fn lemma_map_holds(pairs: Seq<(Seq<char>, Seq<char>)>, i: int)
    requires
        sorted(pairs),
        0 <= i < pairs.len(),
    ensures
        as_map(pairs).contains_pair(pairs[i].0, pairs[i].1),
{
    let name = pairs[i].0;
    assert(named_at(pairs, name, i));
    let k = choose|k: int| named_at(pairs, name, k);
    lemma_name_once(pairs, i, k);
}

/// Whether `name` belongs at index `p` of sorted pairs and is not among them:
/// the names before `p` come before it, the names from `p` on after it.
pub open spec fn belongs_at(pairs: Seq<(Seq<char>, Seq<char>)>, name: Seq<char>, p: int) -> bool {
    &&& 0 <= p <= pairs.len()
    &&& forall|i: int|
        0 <= i < p ==> precedes(encode_utf8((#[trigger] pairs[i]).0), encode_utf8(name))
    &&& forall|i: int|
        p <= i < pairs.len() ==> precedes(encode_utf8(name), encode_utf8((#[trigger] pairs[i]).0))
}

/// A name that belongs between sorted pairs is not among them.
proof fn lemma_belongs_is_missing(pairs: Seq<(Seq<char>, Seq<char>)>, name: Seq<char>, p: int)
    requires
        belongs_at(pairs, name, p),
    ensures
        !as_map(pairs).dom().contains(name),
{
    if as_map(pairs).dom().contains(name) {
        let i = choose|i: int| named_at(pairs, name, i);
        lemma_precedes_asymmetric(encode_utf8(pairs[i].0), encode_utf8(name));
    }
}

/// A new name put where it belongs keeps the pairs sorted and adds one entry
/// to their map.
proof fn lemma_insert(
    pairs: Seq<(Seq<char>, Seq<char>)>,
    p: int,
    name: Seq<char>,
    value: Seq<char>,
)
    requires
        sorted(pairs),
        belongs_at(pairs, name, p),
    ensures
        sorted(pairs.insert(p, (name, value))),
        as_map(pairs.insert(p, (name, value))) == as_map(pairs).insert(name, value),
{
    let grown = pairs.insert(p, (name, value));
    assert forall|i: int, j: int| 0 <= i < j < grown.len() implies precedes(
        encode_utf8((#[trigger] grown[i]).0),
        encode_utf8((#[trigger] grown[j]).0),
    ) by {
        let a = if i < p { i } else { i - 1 };
        let b = if j < p { j } else { j - 1 };
        if i != p {
            assert(grown[i] == pairs[a]);
        }
        if j != p {
            assert(grown[j] == pairs[b]);
        }
    }
    lemma_belongs_is_missing(pairs, name, p);
    let before = as_map(pairs).insert(name, value);
    let after = as_map(grown);
    assert forall|n: Seq<char>| after.dom().contains(n) implies #[trigger] before.dom().contains(
        n,
    ) && after[n] == before[n] by {
        let k = choose|k: int| named_at(grown, n, k);
        if k != p {
            let a = if k < p { k } else { k - 1 };
            assert(grown[k] == pairs[a]);
            lemma_map_holds(pairs, a);
        }
    }
    assert forall|n: Seq<char>| before.dom().contains(n) implies #[trigger] after.dom().contains(
        n,
    ) by {
        if n == name {
            assert(named_at(grown, n, p));
        } else {
            let a = choose|a: int| named_at(pairs, n, a);
            let k = if a < p { a } else { a + 1 };
            assert(grown[k] == pairs[a]);
            assert(named_at(grown, n, k));
        }
    }
    assert(after =~= before);
}

/// A new value under a name that is there keeps the pairs sorted and changes
/// that entry of their map.
proof fn lemma_replace(pairs: Seq<(Seq<char>, Seq<char>)>, p: int, value: Seq<char>)
    requires
        sorted(pairs),
        0 <= p < pairs.len(),
    ensures
        sorted(pairs.update(p, (pairs[p].0, value))),
        as_map(pairs.update(p, (pairs[p].0, value))) == as_map(pairs).insert(pairs[p].0, value),
{
    let name = pairs[p].0;
    let changed = pairs.update(p, (name, value));
    assert forall|i: int, j: int| 0 <= i < j < changed.len() implies precedes(
        encode_utf8((#[trigger] changed[i]).0),
        encode_utf8((#[trigger] changed[j]).0),
    ) by {
        assert(changed[i].0 == pairs[i].0);
        assert(changed[j].0 == pairs[j].0);
    }
    let before = as_map(pairs).insert(name, value);
    let after = as_map(changed);
    assert forall|n: Seq<char>| after.dom().contains(n) implies #[trigger] before.dom().contains(
        n,
    ) && after[n] == before[n] by {
        let k = choose|k: int| named_at(changed, n, k);
        assert(changed[k].0 == pairs[k].0);
        assert(named_at(pairs, n, k));
        if k != p {
            assert(changed[k] == pairs[k]);
            lemma_map_holds(pairs, k);
            if n == name {
                lemma_name_once(pairs, k, p);
            }
        }
    }
    assert forall|n: Seq<char>| before.dom().contains(n) implies #[trigger] after.dom().contains(
        n,
    ) by {
        if n == name {
            assert(named_at(changed, n, p));
        } else {
            let a = choose|a: int| named_at(pairs, n, a);
            assert(changed[a].0 == pairs[a].0);
            assert(named_at(changed, n, a));
        }
    }
    assert(after =~= before);
}

/// The pairs that entries stand for.
pub open spec fn texts(entries: Seq<(String, String)>) -> Seq<(Seq<char>, Seq<char>)> {
    entries.map_values(|e: (String, String)| (e.0@, e.1@))
}

/// Where `name` stands among sorted entries, if it is among them, and else
/// where it belongs.
fn find(entries: &Vec<(String, String)>, name: &str) -> (at: (usize, bool))
    requires
        sorted(texts(entries@)),
    ensures
        at.1 ==> named_at(texts(entries@), name@, at.0 as int),
        !at.1 ==> belongs_at(texts(entries@), name@, at.0 as int),
{
    let ghost pairs = texts(entries@);
    let mut p = entries.len();
    while p > 0
        invariant
            pairs == texts(entries@),
            sorted(pairs),
            0 <= p <= entries@.len(),
            forall|i: int|
                p <= i < pairs.len() ==> precedes(
                    encode_utf8(name@),
                    encode_utf8((#[trigger] pairs[i]).0),
                ),
        decreases p,
    {
        assert(pairs[p - 1].0 == entries@[p - 1].0@);
        match rank(entries[p - 1].0.as_str(), name) {
            Rank::After => {
                p = p - 1;
            },
            Rank::Same => {
                return (p - 1, true);
            },
            Rank::Before => {
                proof {
                    assert forall|i: int| 0 <= i < p implies precedes(
                        encode_utf8((#[trigger] pairs[i]).0),
                        encode_utf8(name@),
                    ) by {
                        if i < p - 1 {
                            lemma_precedes_transitive(
                                encode_utf8(pairs[i].0),
                                encode_utf8(pairs[p - 1].0),
                                encode_utf8(name@),
                            );
                        }
                    }
                }
                return (p, false);
            },
        }
    }
    (0, false)
}

/// A field map: names with their values, as text.
#[derive(Debug, PartialEq, Eq)]
pub struct FieldMap {
    entries: Vec<(String, String)>,
}

impl View for FieldMap {
    type V = Map<Seq<char>, Seq<char>>;

    closed spec fn view(&self) -> Map<Seq<char>, Seq<char>> {
        as_map(self.pairs())
    }
}

impl FieldMap {
    /// The fields in the order in which they are kept.
    pub closed spec fn pairs(&self) -> Seq<(Seq<char>, Seq<char>)> {
        texts(self.entries@)
    }

    #[verifier::type_invariant]
    closed spec fn kept_sorted(&self) -> bool {
        sorted(self.pairs())
    }

    /// A map without fields.
    pub fn new() -> (fields: Self)
        ensures
            fields.pairs().len() == 0,
            fields@ == no_text(),
    {
        let fields = FieldMap { entries: Vec::new() };
        assert(fields@ =~= no_text());
        fields
    }

    /// The number of fields.
    pub fn len(&self) -> (n: usize)
        ensures
            n == self.pairs().len(),
    {
        self.entries.len()
    }

    /// Puts `value` under `name`, in place of the value that may be there.
    pub fn insert(&mut self, name: String, value: String)
        ensures
            final(self)@ == old(self)@.insert(name@, value@),
    {
        proof {
            use_type_invariant(&*self);
        }
        let ghost before = self.pairs();
        let mut entries: Vec<(String, String)> = Vec::new();
        std::mem::swap(&mut self.entries, &mut entries);
        let (p, found) = find(&entries, name.as_str());
        if found {
            proof {
                lemma_replace(before, p as int, value@);
                assert(texts(entries@.update(p as int, (name, value))) =~= before.update(
                    p as int,
                    (name@, value@),
                ));
            }
            entries.set(p, (name, value));
        } else {
            proof {
                lemma_insert(before, p as int, name@, value@);
                assert(texts(entries@.insert(p as int, (name, value))) =~= before.insert(
                    p as int,
                    (name@, value@),
                ));
            }
            entries.insert(p, (name, value));
        }
        self.entries = entries;
    }

    /// The value under `name`, if there is one.
    pub fn get(&self, name: &str) -> (value: Option<&String>)
        ensures
            value matches Some(v) ==> self@.contains_pair(name@, v@),
            value is None ==> !self@.dom().contains(name@),
    {
        proof {
            use_type_invariant(self);
        }
        let (p, found) = find(&self.entries, name);
        if found {
            proof {
                lemma_map_holds(self.pairs(), p as int);
            }
            Some(&self.entries[p].1)
        } else {
            proof {
                lemma_belongs_is_missing(self.pairs(), name@, p as int);
            }
            None
        }
    }

    /// The fields in the byte order of their names, each name once.
    pub fn entries(&self) -> (entries: &Vec<(String, String)>)
        ensures
            texts(entries@) == self.pairs(),
            sorted(self.pairs()),
            as_map(self.pairs()) == self@,
    {
        proof {
            use_type_invariant(self);
        }
        &self.entries
    }

    /// The fields in the byte order of their names, each name once.
    pub fn into_entries(self) -> (entries: Vec<(String, String)>)
        ensures
            texts(entries@) == self.pairs(),
            sorted(self.pairs()),
            as_map(self.pairs()) == self@,
    {
        proof {
            use_type_invariant(&self);
        }
        self.entries
    }
}

} // verus!
