use vstd::prelude::*;
use crate::text::text_equal;

verus! {

/// The map that a list of entries stands for: a later entry replaces an
/// earlier one with the same key.
pub open spec fn entries_map<K>(entries: Seq<(K, Seq<u8>)>) -> Map<K, Seq<u8>>
    decreases entries.len(),
{
    if entries.len() == 0 {
        Map::empty()
    } else {
        entries_map(entries.drop_last()).insert(entries.last().0, entries.last().1)
    }
}

/// A key is in the map exactly when some entry carries it.
pub proof fn lemma_entries_map_dom<K>(entries: Seq<(K, Seq<u8>)>, key: K)
    ensures
        entries_map(entries).contains_key(key) <==> exists|i: int|
            0 <= i < entries.len() && (#[trigger] entries[i]).0 == key,
    decreases entries.len(),
{
    if entries.len() > 0 {
        let front = entries.drop_last();
        lemma_entries_map_dom(front, key);
        if entries_map(entries).contains_key(key) {
            if entries.last().0 == key {
                assert(entries[entries.len() - 1].0 == key);
            } else {
                let i = choose|i: int| 0 <= i < front.len() && (#[trigger] front[i]).0 == key;
                assert(entries[i].0 == key);
            }
        }
        if exists|i: int| 0 <= i < entries.len() && (#[trigger] entries[i]).0 == key {
            let i = choose|i: int| 0 <= i < entries.len() && (#[trigger] entries[i]).0 == key;
            if i < front.len() {
                assert(front[i].0 == key);
            }
        }
    }
}

/// Entries after position `n` that do not carry `key` leave its lookup as
/// the first `n` entries give it.
pub proof fn lemma_entries_map_tail<K>(entries: Seq<(K, Seq<u8>)>, n: int, key: K)
    requires
        0 <= n <= entries.len(),
        forall|j: int| n <= j < entries.len() ==> (#[trigger] entries[j]).0 != key,
    ensures
        entries_map(entries).contains_key(key) == entries_map(entries.take(n)).contains_key(key),
        entries_map(entries).contains_key(key) ==> entries_map(entries)[key] == entries_map(
            entries.take(n),
        )[key],
    decreases entries.len() - n,
{
    if n == entries.len() {
        assert(entries.take(n) =~= entries);
    } else {
        let front = entries.drop_last();
        assert(entries[entries.len() - 1].0 != key);
        assert forall|j: int| n <= j < front.len() implies (#[trigger] front[j]).0 != key by {
            assert(entries[j].0 != key);
        }
        lemma_entries_map_tail(front, n, key);
        assert(front.take(n) =~= entries.take(n));
    }
}

/// `true` exactly when the two byte vectors hold the same bytes.
pub fn bytes_equal(a: &Vec<u8>, b: &Vec<u8>) -> (r: bool)
    ensures
        r == (a@ == b@),
{
    if a.len() != b.len() {
        return false;
    }
    let mut i: usize = 0;
    while i < a.len()
        invariant
            a.len() == b.len(),
            i <= a.len(),
            forall|j: int| 0 <= j < i ==> a@[j] == b@[j],
        decreases a.len() - i,
    {
        if a[i] != b[i] {
            return false;
        }
        i += 1;
    }
    assert(a@ =~= b@);
    true
}

/// A copy of a byte vector.
pub fn bytes_copy(a: &Vec<u8>) -> (r: Vec<u8>)
    ensures
        r@ == a@,
{
    let mut out: Vec<u8> = Vec::new();
    let mut i: usize = 0;
    while i < a.len()
        invariant
            i <= a.len(),
            out@ == a@.take(i as int),
        decreases a.len() - i,
    {
        out.push(a[i]);
        assert(a@.take(i + 1) =~= a@.take(i as int).push(a@[i as int]));
        i += 1;
    }
    assert(a@.take(a.len() as int) =~= a@);
    out
}

/// Manufacturer data of an advertisement: byte strings under 16-bit company
/// identifiers.
#[derive(Debug)]
pub struct MfrData {
    entries: Vec<(u16, Vec<u8>)>,
}

impl View for MfrData {
    type V = Map<u16, Seq<u8>>;

    closed spec fn view(&self) -> Map<u16, Seq<u8>> {
        entries_map(self.pairs())
    }
}

impl MfrData {
    spec fn pairs(&self) -> Seq<(u16, Seq<u8>)> {
        self.entries@.map_values(|e: (u16, Vec<u8>)| (e.0, e.1@))
    }

    /// The empty map.
    pub fn new() -> (r: MfrData)
        ensures
            r@ == Map::<u16, Seq<u8>>::empty(),
    {
        let r = MfrData { entries: Vec::new() };
        assert(r.pairs() =~= Seq::empty());
        r
    }

    /// Puts `value` under `key`, in place of what was there.
    pub fn insert(&mut self, key: u16, value: Vec<u8>)
        ensures
            final(self)@ == old(self)@.insert(key, value@),
    {
        let ghost before = self.pairs();
        self.entries.push((key, value));
        proof {
            assert(self.pairs() =~= before.push((key, value@)));
            assert(self.pairs().drop_last() =~= before);
        }
    }

    /// The bytes under `key`, if there are any.
    pub fn get(&self, key: u16) -> (r: Option<&Vec<u8>>)
        ensures
            r is Some == self@.contains_key(key),
            r is Some ==> r.unwrap()@ == self@[key],
    {
        let mut i: usize = self.entries.len();
        while i > 0
            invariant
                i <= self.entries.len(),
                forall|j: int| i <= j < self.entries.len() ==> (#[trigger] self.pairs()[j]).0 != key,
            decreases i,
        {
            i -= 1;
            if self.entries[i].0 == key {
                proof {
                    let s = self.pairs();
                    lemma_entries_map_tail(s, i + 1, key);
                    assert(s.take(i + 1).drop_last() =~= s.take(i as int));
                    assert(s.take(i + 1).last() == s[i as int]);
                }
                return Some(&self.entries[i].1);
            }
        }
        proof {
            lemma_entries_map_dom(self.pairs(), key);
        }
        None
    }

    /// Whether every key of `self` is a key of `other` with the same bytes.
    fn within(&self, other: &MfrData) -> (r: bool)
        ensures
            r == (forall|k: u16| #[trigger]
                self@.contains_key(k) ==> other@.contains_key(k) && other@[k] == self@[k]),
    {
        let mut i: usize = 0;
        while i < self.entries.len()
            invariant
                i <= self.entries.len(),
                forall|j: int|
                    0 <= j < i ==> other@.contains_key((#[trigger] self.pairs()[j]).0)
                        && other@[self.pairs()[j].0] == self@[self.pairs()[j].0],
            decreases self.entries.len() - i,
        {
            let key = self.entries[i].0;
            assert(self.pairs()[i as int].0 == key);
            proof {
                lemma_entries_map_dom(self.pairs(), key);
            }
            let mine = self.get(key);
            let theirs = other.get(key);
            match (mine, theirs) {
                (Some(a), Some(b)) => {
                    if !bytes_equal(a, b) {
                        return false;
                    }
                },
                _ => {
                    return false;
                },
            }
            i += 1;
        }
        proof {
            assert forall|k: u16| #[trigger] self@.contains_key(k) implies other@.contains_key(k)
                && other@[k] == self@[k] by {
                lemma_entries_map_dom(self.pairs(), k);
                let j = choose|j: int|
                    0 <= j < self.pairs().len() && (#[trigger] self.pairs()[j]).0 == k;
                assert(other@.contains_key(self.pairs()[j].0));
            }
        }
        true
    }

    /// Whether the two maps hold the same keys with the same bytes.
    pub fn same_as(&self, other: &MfrData) -> (r: bool)
        ensures
            r == (self@ == other@),
    {
        let r = self.within(other) && other.within(self);
        proof {
            if r {
                assert(self@ =~= other@);
            }
        }
        r
    }
}

impl Clone for MfrData {
    fn clone(&self) -> (r: MfrData)
        ensures
            r@ == self@,
    {
        let mut out: Vec<(u16, Vec<u8>)> = Vec::new();
        let mut i: usize = 0;
        while i < self.entries.len()
            invariant
                i <= self.entries.len(),
                out@.map_values(|e: (u16, Vec<u8>)| (e.0, e.1@)) == self.pairs().take(i as int),
            decreases self.entries.len() - i,
        {
            let ghost before = out@.map_values(|e: (u16, Vec<u8>)| (e.0, e.1@));
            let bytes = bytes_copy(&self.entries[i].1);
            out.push((self.entries[i].0, bytes));
            assert(out@.map_values(|e: (u16, Vec<u8>)| (e.0, e.1@)) =~= before.push(
                self.pairs()[i as int],
            ));
            assert(self.pairs().take(i + 1) =~= self.pairs().take(i as int).push(
                self.pairs()[i as int],
            ));
            i += 1;
        }
        assert(self.pairs().take(self.entries.len() as int) =~= self.pairs());
        MfrData { entries: out }
    }
}

/// Service data of an advertisement: byte strings under service UUIDs,
/// written as text.
#[derive(Debug)]
pub struct SvcData {
    entries: Vec<(String, Vec<u8>)>,
}

impl View for SvcData {
    type V = Map<Seq<char>, Seq<u8>>;

    closed spec fn view(&self) -> Map<Seq<char>, Seq<u8>> {
        entries_map(self.pairs())
    }
}

impl SvcData {
    spec fn pairs(&self) -> Seq<(Seq<char>, Seq<u8>)> {
        self.entries@.map_values(|e: (String, Vec<u8>)| (e.0@, e.1@))
    }

    /// The empty map.
    pub fn new() -> (r: SvcData)
        ensures
            r@ == Map::<Seq<char>, Seq<u8>>::empty(),
    {
        let r = SvcData { entries: Vec::new() };
        assert(r.pairs() =~= Seq::empty());
        r
    }

    /// Puts `value` under `key`, in place of what was there.
    pub fn insert(&mut self, key: String, value: Vec<u8>)
        ensures
            final(self)@ == old(self)@.insert(key@, value@),
    {
        let ghost before = self.pairs();
        let ghost name = key@;
        self.entries.push((key, value));
        proof {
            assert(self.pairs() =~= before.push((name, value@)));
            assert(self.pairs().drop_last() =~= before);
        }
    }

    /// The bytes under `key`, if there are any.
    pub fn get(&self, key: &str) -> (r: Option<&Vec<u8>>)
        ensures
            r is Some == self@.contains_key(key@),
            r is Some ==> r.unwrap()@ == self@[key@],
    {
        let mut i: usize = self.entries.len();
        while i > 0
            invariant
                i <= self.entries.len(),
                forall|j: int| i <= j < self.entries.len() ==> (#[trigger] self.pairs()[j]).0 != key@,
            decreases i,
        {
            i -= 1;
            if text_equal(self.entries[i].0.as_str(), key) {
                proof {
                    let s = self.pairs();
                    lemma_entries_map_tail(s, i + 1, key@);
                    assert(s.take(i + 1).drop_last() =~= s.take(i as int));
                    assert(s.take(i + 1).last() == s[i as int]);
                }
                return Some(&self.entries[i].1);
            }
        }
        proof {
            lemma_entries_map_dom(self.pairs(), key@);
        }
        None
    }

    /// Whether every key of `self` is a key of `other` with the same bytes.
    fn within(&self, other: &SvcData) -> (r: bool)
        ensures
            r == (forall|k: Seq<char>| #[trigger]
                self@.contains_key(k) ==> other@.contains_key(k) && other@[k] == self@[k]),
    {
        let mut i: usize = 0;
        while i < self.entries.len()
            invariant
                i <= self.entries.len(),
                forall|j: int|
                    0 <= j < i ==> other@.contains_key((#[trigger] self.pairs()[j]).0)
                        && other@[self.pairs()[j].0] == self@[self.pairs()[j].0],
            decreases self.entries.len() - i,
        {
            let key = self.entries[i].0.as_str();
            assert(self.pairs()[i as int].0 == key@);
            proof {
                lemma_entries_map_dom(self.pairs(), key@);
            }
            let mine = self.get(key);
            let theirs = other.get(key);
            match (mine, theirs) {
                (Some(a), Some(b)) => {
                    if !bytes_equal(a, b) {
                        return false;
                    }
                },
                _ => {
                    return false;
                },
            }
            i += 1;
        }
        proof {
            assert forall|k: Seq<char>| #[trigger] self@.contains_key(k) implies other@.contains_key(k)
                && other@[k] == self@[k] by {
                lemma_entries_map_dom(self.pairs(), k);
                let j = choose|j: int|
                    0 <= j < self.pairs().len() && (#[trigger] self.pairs()[j]).0 == k;
                assert(other@.contains_key(self.pairs()[j].0));
            }
        }
        true
    }

    /// Whether the two maps hold the same keys with the same bytes.
    pub fn same_as(&self, other: &SvcData) -> (r: bool)
        ensures
            r == (self@ == other@),
    {
        let r = self.within(other) && other.within(self);
        proof {
            if r {
                assert(self@ =~= other@);
            }
        }
        r
    }
}

impl Clone for SvcData {
    fn clone(&self) -> (r: SvcData)
        ensures
            r@ == self@,
    {
        let mut out: Vec<(String, Vec<u8>)> = Vec::new();
        let mut i: usize = 0;
        while i < self.entries.len()
            invariant
                i <= self.entries.len(),
                out@.map_values(|e: (String, Vec<u8>)| (e.0@, e.1@)) == self.pairs().take(i as int),
            decreases self.entries.len() - i,
        {
            let ghost before = out@.map_values(|e: (String, Vec<u8>)| (e.0@, e.1@));
            let bytes = bytes_copy(&self.entries[i].1);
            out.push((self.entries[i].0.clone(), bytes));
            assert(out@.map_values(|e: (String, Vec<u8>)| (e.0@, e.1@)) =~= before.push(
                self.pairs()[i as int],
            ));
            assert(self.pairs().take(i + 1) =~= self.pairs().take(i as int).push(
                self.pairs()[i as int],
            ));
            i += 1;
        }
        assert(self.pairs().take(self.entries.len() as int) =~= self.pairs());
        SvcData { entries: out }
    }
}

} // verus!
