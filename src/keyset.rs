use vstd::prelude::*;

verus! {

/// A set of key codes, kept as a vector without repeated entries.
#[derive(Debug)]
pub struct KeySet {
    codes: Vec<u32>,
}

impl View for KeySet {
    type V = Set<u32>;

    closed spec fn view(&self) -> Set<u32> {
        Set::new(|k: u32| self.codes@.contains(k))
    }
}

impl KeySet {
    /// The empty set.
    pub fn new() -> (r: KeySet)
        ensures
            r@ == Set::<u32>::empty(),
    {
        let r = KeySet { codes: Vec::new() };
        assert(r@ =~= Set::<u32>::empty());
        r
    }

    /// Whether `code` is in the set.
    pub fn contains(&self, code: u32) -> (r: bool)
        ensures
            r == self@.contains(code),
    {
        let mut i: usize = 0;
        while i < self.codes.len()
            invariant
                i <= self.codes@.len(),
                forall|j: int| 0 <= j < i ==> self.codes@[j] != code,
            decreases self.codes@.len() - i,
        {
            if self.codes[i] == code {
                assert(self.codes@.contains(code));
                return true;
            }
            i += 1;
        }
        false
    }

    /// Adds `code`; returns whether it was absent before.
    pub fn insert(&mut self, code: u32) -> (r: bool)
        ensures
            final(self)@ == old(self)@.insert(code),
            r == !old(self)@.contains(code),
    {
        if self.contains(code) {
            assert(self@ =~= self@.insert(code));
            false
        } else {
            let ghost before = self.codes@;
            self.codes.push(code);
            assert forall|k: u32| self.codes@.contains(k) <==> (before.contains(k) || k == code) by {
                if before.contains(k) {
                    let j = choose|j: int| 0 <= j < before.len() && before[j] == k;
                    assert(self.codes@[j] == k);
                }
                if self.codes@.contains(k) && k != code {
                    let j = choose|j: int| 0 <= j < self.codes@.len() && self.codes@[j] == k;
                    assert(j < before.len());
                    assert(before[j] == k);
                }
                if k == code {
                    assert(self.codes@[before.len() as int] == code);
                }
            }
            assert(self@ =~= old(self)@.insert(code));
            true
        }
    }

    /// Removes `code` if present; removing an absent code changes nothing.
    pub fn remove(&mut self, code: u32)
        ensures
            final(self)@ == old(self)@.remove(code),
    {
        let mut kept: Vec<u32> = Vec::new();
        let mut i: usize = 0;
        while i < self.codes.len()
            invariant
                i <= self.codes@.len(),
                forall|j: int| 0 <= j < kept@.len() ==> kept@[j] != code,
                forall|k: u32| kept@.contains(k) <==> (k != code && self.codes@.take(i as int).contains(k)),
            decreases self.codes@.len() - i,
        {
            let c = self.codes[i];
            let ghost prev = kept@;
            if c != code {
                kept.push(c);
            }
            assert forall|k: u32| kept@.contains(k) <==> (k != code && self.codes@.take(i + 1).contains(k)) by {
                let t = self.codes@.take(i as int);
                let t1 = self.codes@.take(i + 1);
                assert(t1 =~= t.push(c));
                if t1.contains(k) && k != code {
                    let j = choose|j: int| 0 <= j < t1.len() && t1[j] == k;
                    if j < t.len() {
                        assert(t[j] == k);
                    } else {
                        assert(kept@[kept@.len() - 1] == k);
                    }
                }
                if kept@.contains(k) {
                    let j = choose|j: int| 0 <= j < kept@.len() && kept@[j] == k;
                    if j < prev.len() {
                        assert(prev[j] == k);
                        assert(prev.contains(k));
                        let m = choose|m: int| 0 <= m < t.len() && t[m] == k;
                        assert(t1[m] == k);
                    } else {
                        assert(t1[i as int] == k);
                    }
                }
                if prev.contains(k) {
                    let j = choose|j: int| 0 <= j < prev.len() && prev[j] == k;
                    assert(kept@[j] == k);
                }
            }
            i += 1;
        }
        assert(self.codes@.take(self.codes@.len() as int) =~= self.codes@);
        let ghost before = self@;
        self.codes = kept;
        assert(self@ =~= before.remove(code));
    }

    /// Empties the set.
    pub fn clear(&mut self)
        ensures
            final(self)@ == Set::<u32>::empty(),
    {
        self.codes = Vec::new();
        assert(self@ =~= Set::<u32>::empty());
    }

    /// A separate set with the same codes.
    pub fn copy(&self) -> (r: KeySet)
        ensures
            r@ == self@,
    {
        let mut codes: Vec<u32> = Vec::new();
        let mut i: usize = 0;
        while i < self.codes.len()
            invariant
                i <= self.codes@.len(),
                codes@ == self.codes@.take(i as int),
            decreases self.codes@.len() - i,
        {
            codes.push(self.codes[i]);
            assert(codes@ =~= self.codes@.take(i + 1));
            i += 1;
        }
        assert(codes@ =~= self.codes@);
        KeySet { codes }
    }

    /// The codes in the set, each once.
    pub fn codes(&self) -> (r: Vec<u32>)
        ensures
            forall|k: u32| r@.contains(k) <==> self@.contains(k),
    {
        let c = self.copy();
        proof {
            assert forall|k: u32| c.codes@.contains(k) <==> self@.contains(k) by {
                assert(c@.contains(k) == c.codes@.contains(k));
            }
        }
        c.codes
    }
}

} // verus!
