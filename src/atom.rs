use vstd::prelude::*;

verus! {

/// Atoms that the X protocol predefines (the core protocol's fixed table).
pub const ATOM_ATOM: u32 = 4;
pub const ATOM_CARDINAL: u32 = 6;
pub const ATOM_STRING: u32 = 31;
pub const ATOM_WM_NAME: u32 = 39;
pub const ATOM_WM_NORMAL_HINTS: u32 = 40;
pub const ATOM_WM_SIZE_HINTS: u32 = 41;
pub const ATOM_WM_CLASS: u32 = 67;

/// Whether two byte strings are equal, element by element.
pub fn bytes_equal(a: &[u8], b: &[u8]) -> (r: bool)
    ensures
        r == (a@ == b@),
{
    if a.len() != b.len() {
        return false;
    }
    let mut i: usize = 0;
    while i < a.len()
        invariant
            a@.len() == b@.len(),
            0 <= i <= a@.len(),
            forall|j: int| 0 <= j < i ==> a@[j] == b@[j],
        decreases a@.len() - i,
    {
        if a[i] != b[i] {
            return false;
        }
        i = i + 1;
    }
    assert(a@ =~= b@);
    true
}

/// The names a connection has resolved so far, each with the atom the server
/// gave for it.
pub struct AtomTable {
    pub entries: Vec<(Vec<u8>, u32)>,
}

/// What resolution leaves in a table that maps names to atoms: a name already
/// known keeps its atom; a new one gets the atom the server handed out.
pub open spec fn recorded(m: Map<Seq<u8>, u32>, name: Seq<u8>, atom: u32) -> Map<Seq<u8>, u32> {
    if m.contains_key(name) {
        m
    } else {
        m.insert(name, atom)
    }
}

impl AtomTable {
    /// Names are unique, and no two names share an atom.
    pub open spec fn wf(&self) -> bool {
        &&& forall|i: int, j: int|
            0 <= i < j < self.entries@.len() ==> self.entries@[i].0@ != self.entries@[j].0@
        &&& forall|i: int, j: int|
            0 <= i < j < self.entries@.len() ==> self.entries@[i].1 != self.entries@[j].1
    }

    pub open spec fn view(&self) -> Map<Seq<u8>, u32> {
        Map::new(
            |n: Seq<u8>| exists|i: int| 0 <= i < self.entries@.len() && self.entries@[i].0@ == n,
            |n: Seq<u8>|
                self.entries@[choose|i: int|
                    0 <= i < self.entries@.len() && self.entries@[i].0@ == n].1,
        )
    }

    /// An empty table.
    pub fn new() -> (r: AtomTable)
        ensures
            r.wf(),
            r@ == Map::<Seq<u8>, u32>::empty(),
    {
        let r = AtomTable { entries: Vec::new() };
        assert(r@ =~= Map::<Seq<u8>, u32>::empty());
        r
    }

    proof fn lemma_view_at(&self, i: int)
        requires
            self.wf(),
            0 <= i < self.entries@.len(),
        ensures
            self@.contains_key(self.entries@[i].0@),
            self@[self.entries@[i].0@] == self.entries@[i].1,
    {
        let n = self.entries@[i].0@;
        assert(exists|k: int| 0 <= k < self.entries@.len() && self.entries@[k].0@ == n);
        let k = choose|k: int| 0 <= k < self.entries@.len() && self.entries@[k].0@ == n;
        assert(k == i);
    }

    /// The index of `name` in the table, if it is there.
    fn position(&self, name: &[u8]) -> (r: Option<usize>)
        requires
            self.wf(),
        ensures
            r is None <==> !self@.contains_key(name@),
            r matches Some(i) ==> i < self.entries@.len() && self.entries@[i as int].0@ == name@,
    {
        let mut i: usize = 0;
        while i < self.entries.len()
            invariant
                self.wf(),
                0 <= i <= self.entries@.len(),
                forall|j: int| 0 <= j < i ==> self.entries@[j].0@ != name@,
            decreases self.entries@.len() - i,
        {
            if bytes_equal(self.entries[i].0.as_slice(), name) {
                return Some(i);
            }
            i = i + 1;
        }
        None
    }

    /// The atom recorded for `name`, if any.
    pub fn lookup(&self, name: &[u8]) -> (r: Option<u32>)
        requires
            self.wf(),
        ensures
            r is Some <==> self@.contains_key(name@),
            r matches Some(a) ==> a == self@[name@],
    {
        match self.position(name) {
            Some(i) => {
                proof {
                    self.lemma_view_at(i as int);
                }
                Some(self.entries[i].1)
            },
            None => None,
        }
    }

    /// Whether some name already stands for `atom`.
    pub fn has_atom(&self, atom: u32) -> (r: bool)
        requires
            self.wf(),
        ensures
            r == exists|n: Seq<u8>| self@.contains_key(n) && self@[n] == atom,
    {
        let mut i: usize = 0;
        while i < self.entries.len()
            invariant
                self.wf(),
                0 <= i <= self.entries@.len(),
                forall|j: int| 0 <= j < i ==> self.entries@[j].1 != atom,
            decreases self.entries@.len() - i,
        {
            if self.entries[i].1 == atom {
                proof {
                    self.lemma_view_at(i as int);
                }
                return true;
            }
            i = i + 1;
        }
        proof {
            assert forall|n: Seq<u8>| self@.contains_key(n) implies self@[n] != atom by {
                let k = choose|k: int| 0 <= k < self.entries@.len() && self.entries@[k].0@ == n;
                self.lemma_view_at(k);
            }
        }
        false
    }

    /// Records the atom the server gave for `name`. A name already known keeps
    /// the atom it has; an atom that already stands for another name is refused
    /// (`false`), since the server never gives one atom to two names.
    pub fn record(&mut self, name: &[u8], atom: u32) -> (r: bool)
        requires
            old(self).wf(),
        ensures
            final(self).wf(),
            r == (old(self)@.contains_key(name@) || !exists|n: Seq<u8>|
                old(self)@.contains_key(n) && old(self)@[n] == atom),
            r ==> final(self)@ == recorded(old(self)@, name@, atom),
            !r ==> final(self)@ == old(self)@,
    {
        if self.position(name).is_some() {
            return true;
        }
        if self.has_atom(atom) {
            return false;
        }
        let ghost prev = self.entries@;
        let ghost pm = self@;
        proof {
            assert forall|i: int| 0 <= i < prev.len() implies prev[i].1 != atom && prev[i].0@
                != name@ by {
                self.lemma_view_at(i);
            }
        }
        self.entries.push((vstd::slice::slice_to_vec(name), atom));
        proof {
            let len = prev.len();
            assert(self.entries@[len as int].0@ == name@);
            assert(self@ =~= pm.insert(name@, atom)) by {
                assert forall|n: Seq<u8>| #[trigger] self@.contains_key(n) == pm.insert(name@, atom).contains_key(n) by {
                    if pm.contains_key(n) {
                        let k = choose|k: int| 0 <= k < prev.len() && prev[k].0@ == n;
                        assert(self.entries@[k] == prev[k]);
                    }
                    if self@.contains_key(n) && n != name@ {
                        let k = choose|k: int| 0 <= k < self.entries@.len() && self.entries@[k].0@ == n;
                        assert(k < len);
                        assert(prev[k] == self.entries@[k]);
                    }
                }
                assert forall|n: Seq<u8>| #[trigger] self@.contains_key(n) implies self@[n] == pm.insert(name@, atom)[n] by {
                    let k = choose|k: int| 0 <= k < self.entries@.len() && self.entries@[k].0@ == n;
                    self.lemma_view_at(k);
                    if n != name@ {
                        assert(k < len);
                        assert(prev[k] == self.entries@[k]);
                        assert(pm.contains_key(n));
                        let k2 = choose|k2: int| 0 <= k2 < prev.len() && prev[k2].0@ == n;
                        assert(k2 == k);
                    }
                }
            }
        }
        true
    }

    /// Resolution of `name` once the server has answered `fetched` for it: the
    /// atom the table holds for the name afterwards, or `None` where `fetched`
    /// already stands for another name.
    pub fn resolve_with(&mut self, name: &[u8], fetched: u32) -> (r: Option<u32>)
        requires
            old(self).wf(),
        ensures
            final(self).wf(),
            r is Some ==> final(self)@ == recorded(old(self)@, name@, fetched),
            r matches Some(a) ==> a == recorded(old(self)@, name@, fetched)[name@],
            r is None <==> (!old(self)@.contains_key(name@) && exists|n: Seq<u8>|
                old(self)@.contains_key(n) && old(self)@[n] == fetched),
            r is None ==> final(self)@ == old(self)@,
    {
        if self.record(name, fetched) {
            self.lookup(name)
        } else {
            None
        }
    }
}

/// Resolving one name twice on a connection gives one atom: after the first
/// resolution records it, a second one, whatever the server answers, changes
/// nothing and yields the atom of the first.
pub proof fn lemma_resolution_idempotent(
    m: Map<Seq<u8>, u32>,
    name: Seq<u8>,
    first: u32,
    second: u32,
)
    ensures
        recorded(m, name, first).contains_key(name),
        recorded(recorded(m, name, first), name, second) == recorded(m, name, first),
        recorded(recorded(m, name, first), name, second)[name] == recorded(m, name, first)[name],
{
}

} // verus!
