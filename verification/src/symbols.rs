//! Symbol tables: identifier-to-value bindings for constants and labels.

use vstd::prelude::*;

verus! {

/// One binding of an identifier to a 16-bit value.
pub struct SymEntry {
    pub name: Vec<u8>,
    pub value: u16,
}

/// A namespace of bindings. Later bindings shadow earlier ones, so
/// re-assignment is a plain append. Viewed as a `Map` from the
/// identifier's bytes to its value.
pub struct SymbolTable {
    entries: Vec<SymEntry>,
}

/// The map that a sequence of bindings denotes: each binding overwrites
/// what earlier ones said of the same name.
pub open spec fn sym_map_of(entries: Seq<SymEntry>) -> Map<Seq<u8>, u16>
    decreases entries.len(),
{
    if entries.len() == 0 {
        Map::empty()
    } else {
        sym_map_of(entries.drop_last()).insert(entries.last().name@, entries.last().value)
    }
}

impl View for SymbolTable {
    type V = Map<Seq<u8>, u16>;

    closed spec fn view(&self) -> Map<Seq<u8>, u16> {
        sym_map_of(self.entries@)
    }
}

/// Bindings beyond index `i` that all miss `n` leave the map's verdict on
/// `n` to the first `i` bindings.
proof fn lemma_sym_map_skip(entries: Seq<SymEntry>, i: int, n: Seq<u8>)
    requires
        0 <= i <= entries.len(),
        forall|k: int| i <= k < entries.len() ==> (#[trigger] entries[k]).name@ != n,
    ensures
        sym_map_of(entries).contains_key(n) == sym_map_of(entries.take(i)).contains_key(n),
        sym_map_of(entries).contains_key(n) ==> sym_map_of(entries)[n] == sym_map_of(
            entries.take(i),
        )[n],
    decreases entries.len() - i,
{
    if i < entries.len() {
        let t = entries.take(i + 1);
        assert(t.drop_last() =~= entries.take(i));
        assert(t.last() == entries[i]);
        lemma_sym_map_skip(entries, i + 1, n);
        assert(entries.take(entries.len() as int) =~= entries);
    } else {
        assert(entries.take(i) =~= entries);
    }
}

/// Compares two byte strings.
pub fn bytes_eq(a: &[u8], b: &[u8]) -> (r: bool)
    ensures
        r == (a@ == b@),
{
    if a.len() != b.len() {
        proof {
            assert(a@ != b@);
        }
        return false;
    }
    let mut i: usize = 0;
    while i < a.len()
        invariant
            a@.len() == b@.len(),
            0 <= i <= a@.len(),
            forall|k: int| 0 <= k < i ==> a@[k] == b@[k],
        decreases a@.len() - i,
    {
        if a[i] != b[i] {
            proof {
                assert(a@ != b@);
            }
            return false;
        }
        i = i + 1;
    }
    proof {
        assert(a@ =~= b@);
    }
    true
}

impl SymbolTable {
    /// An empty namespace.
    pub fn new() -> (r: Self)
        ensures
            r@ == Map::<Seq<u8>, u16>::empty(),
    {
        SymbolTable { entries: Vec::new() }
    }

    /// Binds `name` to `value`, shadowing any earlier binding.
    pub fn insert(&mut self, name: Vec<u8>, value: u16)
        ensures
            final(self)@ == old(self)@.insert(name@, value),
    {
        let ghost before = self.entries@;
        self.entries.push(SymEntry { name, value });
        proof {
            assert(self.entries@.drop_last() =~= before);
        }
    }

    /// Looks `name` up; the latest binding wins.
    pub fn lookup(&self, name: &[u8]) -> (r: Option<u16>)
        ensures
            match r {
                Some(v) => self@.contains_key(name@) && self@[name@] == v,
                None => !self@.contains_key(name@),
            },
    {
        let mut i: usize = self.entries.len();
        while i > 0
            invariant
                0 <= i <= self.entries@.len(),
                forall|k: int|
                    i <= k < self.entries@.len() ==> (#[trigger] self.entries@[k]).name@ != name@,
            decreases i,
        {
            i = i - 1;
            if bytes_eq(self.entries[i].name.as_slice(), name) {
                proof {
                    lemma_sym_map_skip(self.entries@, i + 1, name@);
                    let t = self.entries@.take(i + 1);
                    assert(t.drop_last() =~= self.entries@.take(i as int));
                    assert(t.last() == self.entries@[i as int]);
                }
                return Some(self.entries[i].value);
            }
        }
        proof {
            lemma_sym_map_skip(self.entries@, 0, name@);
            assert(self.entries@.take(0) =~= Seq::<SymEntry>::empty());
        }
        None
    }
}

} // verus!
