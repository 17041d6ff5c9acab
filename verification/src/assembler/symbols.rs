//! The symbol table: label names mapped to resolved 16-bit addresses.
//!
//! Definition is define-once: a second definition of the same name is a
//! duplicate-label error. The table remembers definition order.

use vstd::prelude::*;

verus! {

use crate::error::AssemblerError;

/// Symbol table mapping case-sensitive label names to addresses, in
/// definition order.
#[derive(Debug, Clone)]
pub struct SymbolTable {
    /// The definitions, oldest first; names are unique.
    pub entries: Vec<(String, u16)>,
}

/// The names of a run of entries, in order.
pub open spec fn spec_entry_names(s: Seq<(String, u16)>) -> Seq<Seq<char>> {
    s.map_values(|e: (String, u16)| e.0@)
}

/// The mapping a run of entries defines: each name to its address, later
/// entries winning (entries never repeat a name, so each name has one
/// address).
pub open spec fn spec_entries_map(s: Seq<(String, u16)>) -> Map<Seq<char>, u16>
    decreases s.len(),
{
    if s.len() == 0 {
        Map::empty()
    } else {
        spec_entries_map(s.drop_last()).insert(s.last().0@, s.last().1)
    }
}

/// A table is well formed when no name is defined twice.
pub open spec fn spec_entries_unique(s: Seq<(String, u16)>) -> bool {
    forall|i: int, j: int| 0 <= i < j < s.len() ==> s[i].0@ != s[j].0@
}

/// The mapping contains exactly the entry names, and sends each name that
/// occurs once to its entry's address.
pub proof fn lemma_entries_map(s: Seq<(String, u16)>)
    ensures
        forall|k: Seq<char>|
            #[trigger] spec_entries_map(s).contains_key(k) <==> exists|i: int|
                0 <= i < s.len() && s[i].0@ == k,
        spec_entries_unique(s) ==> forall|i: int|
            0 <= i < s.len() ==> spec_entries_map(s).contains_key(#[trigger] s[i].0@)
                && spec_entries_map(s)[s[i].0@] == s[i].1,
    decreases s.len(),
{
    if s.len() > 0 {
        let d = s.drop_last();
        lemma_entries_map(d);
        assert(forall|i: int| 0 <= i < d.len() ==> #[trigger] d[i] == s[i]);
        assert forall|k: Seq<char>| #[trigger] spec_entries_map(s).contains_key(k) implies exists|
            i: int,
        | 0 <= i < s.len() && s[i].0@ == k by {
            if k == s.last().0@ {
                assert(s[s.len() - 1].0@ == k);
            } else {
                assert(spec_entries_map(d).contains_key(k));
                let i = choose|i: int| 0 <= i < d.len() && d[i].0@ == k;
                assert(s[i].0@ == k);
            }
        };
        assert forall|k: Seq<char>|
            (exists|i: int| 0 <= i < s.len() && s[i].0@ == k) implies #[trigger] spec_entries_map(
            s,
        ).contains_key(k) by {
            let i = choose|i: int| 0 <= i < s.len() && s[i].0@ == k;
            if i < s.len() - 1 {
                assert(d[i].0@ == k);
                assert(spec_entries_map(d).contains_key(k));
            }
        };
        if spec_entries_unique(s) {
            assert(spec_entries_unique(d));
            assert forall|i: int| 0 <= i < s.len() implies spec_entries_map(s).contains_key(
                #[trigger] s[i].0@,
            ) && spec_entries_map(s)[s[i].0@] == s[i].1 by {
                if i < s.len() - 1 {
                    assert(d[i].0@ == s[i].0@ && d[i].1 == s[i].1);
                    assert(s[i].0@ != s[s.len() - 1].0@);
                }
            };
        }
    }
}

/// Definition is define-once: after a name is defined, the table's
/// mapping contains it — so `define` refuses the same name from then on —
/// and sends it to exactly the defined address, which is what `lookup`
/// returns after a single definition.
pub proof fn lemma_define_once(m: Map<Seq<char>, u16>, name: Seq<char>, addr: u16)
    ensures
        m.insert(name, addr).contains_key(name),
        m.insert(name, addr)[name] == addr,
{
}

impl SymbolTable {
    /// The mapping from defined names to their addresses.
    pub open spec fn spec_map(&self) -> Map<Seq<char>, u16> {
        spec_entries_map(self.entries@)
    }

    /// The defined names, in definition order.
    pub open spec fn spec_names(&self) -> Seq<Seq<char>> {
        spec_entry_names(self.entries@)
    }

    /// No name is defined twice.
    pub open spec fn wf(&self) -> bool {
        spec_entries_unique(self.entries@)
    }

    /// Creates an empty table.
    pub fn new() -> (r: SymbolTable)
        ensures
            r.entries@.len() == 0,
            r.spec_map() == Map::<Seq<char>, u16>::empty(),
            r.spec_names() == Seq::<Seq<char>>::empty(),
            r.wf(),
    {
        let r = SymbolTable { entries: Vec::new() };
        proof {
            assert(r.spec_names() =~= Seq::<Seq<char>>::empty());
        }
        r
    }

    /// The position of the first entry named `name`, if any is defined.
    fn find(&self, name: &str) -> (r: Option<usize>)
        ensures
            r matches Some(i) ==> i < self.entries@.len() && self.entries@[i as int].0@ == name@,
            r is None ==> forall|i: int|
                0 <= i < self.entries@.len() ==> self.entries@[i].0@ != name@,
    {
        let key: String = name.to_owned();
        let n = self.entries.len();
        let mut i: usize = 0;
        while i < n
            invariant
                i <= n,
                n == self.entries@.len(),
                key@ == name@,
                forall|j: int| 0 <= j < i ==> self.entries@[j].0@ != name@,
            decreases n - i,
        {
            if self.entries[i].0 == key {
                return Some(i);
            }
            i = i + 1;
        }
        None
    }

    /// Defines `name` at `address`; a name already defined is a
    /// duplicate-label error and leaves the table unchanged.
    pub fn define(&mut self, name: &str, address: u16) -> (r: Result<(), AssemblerError>)
        requires
            old(self).wf(),
        ensures
            final(self).wf(),
            if old(self).spec_map().contains_key(name@) {
                &&& r matches Err(AssemblerError::DuplicateLabel(n)) && n@ == name@
                &&& final(self).entries@ == old(self).entries@
            } else {
                &&& r == Ok::<(), AssemblerError>(())
                &&& final(self).spec_map() == old(self).spec_map().insert(name@, address)
                &&& final(self).spec_names() == old(self).spec_names().push(name@)
                &&& final(self).entries@.drop_last() == old(self).entries@
                &&& final(self).entries@.last().0@ == name@
                &&& final(self).entries@.last().1 == address
            },
    {
        proof {
            lemma_entries_map(self.entries@);
        }
        match self.find(name) {
            Some(_) => Err(AssemblerError::DuplicateLabel(name.to_owned())),
            None => {
                let key: String = name.to_owned();
                self.entries.push((key, address));
                proof {
                    assert(self.entries@.drop_last() =~= old(self).entries@);
                    assert(spec_entry_names(self.entries@) =~= spec_entry_names(
                        old(self).entries@,
                    ).push(name@));
                }
                Ok(())
            },
        }
    }

    /// The address `name` was defined at, if it was.
    pub fn lookup(&self, name: &str) -> (r: Option<u16>)
        requires
            self.wf(),
        ensures
            self.spec_map().contains_key(name@) ==> r == Some(self.spec_map()[name@]),
            !self.spec_map().contains_key(name@) ==> r is None,
    {
        proof {
            lemma_entries_map(self.entries@);
        }
        match self.find(name) {
            Some(i) => Some(self.entries[i].1),
            None => None,
        }
    }

    /// Whether `name` is defined.
    pub fn contains(&self, name: &str) -> (r: bool)
        requires
            self.wf(),
        ensures
            r == self.spec_map().contains_key(name@),
    {
        proof {
            lemma_entries_map(self.entries@);
        }
        match self.find(name) {
            Some(_) => true,
            None => false,
        }
    }

    /// Drops every definition.
    pub fn clear(&mut self)
        ensures
            final(self).entries@.len() == 0,
            final(self).spec_map() == Map::<Seq<char>, u16>::empty(),
            final(self).spec_names() == Seq::<Seq<char>>::empty(),
            final(self).wf(),
    {
        self.entries.clear();
        proof {
            assert(self.spec_names() =~= Seq::<Seq<char>>::empty());
        }
    }

    /// Every definition as a name–address pair, in definition order.
    pub fn get_all(&self) -> (r: Vec<(String, u16)>)
        ensures
            r@ == self.entries@,
    {
        let n = self.entries.len();
        let mut r: Vec<(String, u16)> = Vec::new();
        let mut i: usize = 0;
        while i < n
            invariant
                i <= n,
                n == self.entries@.len(),
                r@.len() == i,
                forall|j: int| 0 <= j < i ==> r@[j] == self.entries@[j],
            decreases n - i,
        {
            let name = self.entries[i].0.clone();
            let addr = self.entries[i].1;
            proof {
                assert(name@ == self.entries@[i as int].0@);
            }
            r.push((name, addr));
            i = i + 1;
        }
        proof {
            assert(r@ =~= self.entries@);
        }
        r
    }

    /// The number of defined names.
    pub fn len(&self) -> (r: usize)
        ensures
            r == self.entries@.len(),
    {
        self.entries.len()
    }

    /// Whether nothing is defined.
    pub fn is_empty(&self) -> (r: bool)
        ensures
            r == (self.entries@.len() == 0),
    {
        self.entries.len() == 0
    }
}

} // verus!
