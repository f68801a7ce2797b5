//! The symbol table: a mapping from case-sensitive names to 16-bit values,
//! used both for labels (addresses assigned by position) and for constants
//! (values assigned by a definition directive). Fresh per assembly run;
//! fully populated by the end of pass one; read-only during pass two.

use vstd::prelude::*;
use crate::chars::{eq_chars, to_chars};

verus! {

/// A name-to-value mapping with last-write-wins semantics.
pub struct SymTab {
    entries: Vec<(Vec<char>, u16)>,
}

/// The mapping an entry list denotes: later entries shadow earlier ones.
pub open spec fn map_of(es: Seq<(Seq<char>, u16)>) -> Map<Seq<char>, u16>
    decreases es.len(),
{
    if es.len() == 0 {
        Map::empty()
    } else {
        map_of(es.drop_last()).insert(es.last().0, es.last().1)
    }
}

/// Lookup in a mapping, as an `Option`.
pub open spec fn sym_get(m: Map<Seq<char>, u16>, k: Seq<char>) -> Option<u16> {
    if m.contains_key(k) {
        Some(m[k])
    } else {
        None
    }
}

impl View for SymTab {
    type V = Map<Seq<char>, u16>;

    closed spec fn view(&self) -> Map<Seq<char>, u16> {
        map_of(self.entries.deep_view())
    }
}

impl SymTab {
    /// An empty table.
    pub fn new() -> (r: SymTab)
        ensures
            r@ == Map::<Seq<char>, u16>::empty(),
    {
        let r = SymTab { entries: Vec::new() };
        proof {
            assert(r.entries.deep_view() =~~= Seq::<(Seq<char>, u16)>::empty());
        }
        r
    }

    /// Bind `name` to `value`, shadowing any earlier binding.
    pub fn insert_chars(&mut self, name: Vec<char>, value: u16)
        ensures
            final(self)@ == old(self)@.insert(name@, value),
    {
        let ghost old_es = old(self).entries.deep_view();
        proof {
            assert(old_es.push((name@, value)).drop_last() =~~= old_es);
        }
        self.entries.push((name, value));
        proof {
            assert(self.entries.deep_view() =~~= old_es.push((name@, value)));
        }
    }

    /// Bind `name` to `value`, shadowing any earlier binding.
    pub fn insert(&mut self, name: &str, value: u16)
        ensures
            final(self)@ == old(self)@.insert(name@, value),
    {
        let v = to_chars(name);
        self.insert_chars(v, value);
    }

    /// The value bound to `name`, if any.
    pub fn lookup(&self, name: &[char]) -> (r: Option<u16>)
        ensures
            r == sym_get(self@, name@),
    {
        let ghost es = self.entries.deep_view();
        let mut i: usize = self.entries.len();
        proof {
            assert(es.subrange(0, es.len() as int) =~~= es);
        }
    while i > 0
        invariant
            0 <= i <= self.entries@.len(),
            es == self.entries.deep_view(),
            sym_get(map_of(es), name@) == sym_get(
                map_of(es.subrange(0, i as int)),
                name@,
            ),
        decreases i,
    {
        i = i - 1;
        let entry = &self.entries[i];
        proof {
            assert(es[i as int] == (entry.0@, entry.1));
            assert(es.subrange(0, i + 1).drop_last() =~~= es.subrange(0, i as int));
            assert(es.subrange(0, i + 1).last() == es[i as int]);
        }
        if eq_chars(entry.0.as_slice(), name) {
            return Some(entry.1);
        }
    }
        proof {
            assert(es.subrange(0, 0) =~~= Seq::<(Seq<char>, u16)>::empty());
        }
        None
    }
}

} // verus!
