use vstd::prelude::*;

verus! {

/// Whether entry `i` of `entries` is filed under `key`.
pub(crate) open spec fn filed_under(entries: Seq<(String, u32, u64)>, i: int, key: (Seq<char>, u32)) -> bool {
    0 <= i < entries.len() && entries[i].0@ == key.0 && entries[i].1 == key.1
}

/// A table of balances keyed by (holder, token kind), each key at most once.
pub(crate) struct BalanceTable {
    entries: Vec<(String, u32, u64)>,
}

impl View for BalanceTable {
    type V = Map<(Seq<char>, u32), u64>;

    closed spec fn view(&self) -> Map<(Seq<char>, u32), u64> {
        Map::new(
            |key: (Seq<char>, u32)| exists|i: int| #[trigger] filed_under(self.entries@, i, key),
            |key: (Seq<char>, u32)|
                self.entries@[choose|i: int| #[trigger] filed_under(self.entries@, i, key)].2,
        )
    }
}

impl BalanceTable {
    /// No key is filed twice.
    pub(crate) closed spec fn wf(&self) -> bool {
        forall|i: int, j: int, key: (Seq<char>, u32)|
            #[trigger] filed_under(self.entries@, i, key) && #[trigger] filed_under(
                self.entries@,
                j,
                key,
            ) ==> i == j
    }

    pub(crate) fn new() -> (r: Self)
        ensures
            r.wf(),
            r@ == Map::<(Seq<char>, u32), u64>::empty(),
    {
        let r = BalanceTable { entries: Vec::new() };
        assert(r@ =~= Map::<(Seq<char>, u32), u64>::empty());
        r
    }

    /// The index of the entry filed under `(who, kind)`, if there is one.
    fn find(&self, who: &String, kind: u32) -> (r: Option<usize>)
        ensures
            match r {
                Some(i) => filed_under(self.entries@, i as int, (who@, kind)),
                None => forall|i: int| !#[trigger] filed_under(self.entries@, i, (who@, kind)),
            },
    {
        let mut i: usize = 0;
        while i < self.entries.len()
            invariant
                i <= self.entries@.len(),
                forall|j: int| 0 <= j < i ==> !#[trigger] filed_under(self.entries@, j, (who@, kind)),
            decreases self.entries@.len() - i,
        {
            if self.entries[i].1 == kind && self.entries[i].0 == *who {
                return Some(i);
            }
            i = i + 1;
        }
        None
    }

    /// The amount filed under `(who, kind)`, or zero when there is none.
    pub(crate) fn get(&self, who: &String, kind: u32) -> (r: u64)
        requires
            self.wf(),
        ensures
            r == (if self@.contains_key((who@, kind)) {
                self@[(who@, kind)]
            } else {
                0u64
            }),
    {
        match self.find(who, kind) {
            Some(i) => {
                assert(self@.contains_key((who@, kind)));
                self.entries[i].2
            },
            None => {
                assert(!self@.contains_key((who@, kind)));
                0
            },
        }
    }

    /// Files `amount` under `(who, kind)`, replacing what was there.
    pub(crate) fn set(&mut self, who: &String, kind: u32, amount: u64)
        requires
            old(self).wf(),
        ensures
            final(self).wf(),
            final(self)@ == old(self)@.insert((who@, kind), amount),
    {
        let ghost before = self.entries@;
        let ghost target = (who@, kind);
        match self.find(who, kind) {
            Some(i) => {
                self.entries.set(i, (who.clone(), kind, amount));
                assert forall|a: int, b: int, key: (Seq<char>, u32)|
                    #[trigger] filed_under(self.entries@, a, key) && #[trigger] filed_under(
                        self.entries@,
                        b,
                        key,
                    ) implies a == b by {
                    if a != i as int && b != i as int {
                        assert(filed_under(before, a, key) && filed_under(before, b, key));
                    } else if a == i as int && b != i as int {
                        assert(filed_under(before, i as int, key) && filed_under(before, b, key));
                    } else if a != i as int && b == i as int {
                        assert(filed_under(before, i as int, key) && filed_under(before, a, key));
                    }
                };
                assert forall|key: (Seq<char>, u32)| #[trigger]
                    self@.contains_key(key) == old(self)@.insert(target, amount).contains_key(key)
                        && (self@.contains_key(key) ==> self@[key] == old(self)@.insert(
                        target,
                        amount,
                    )[key]) by {
                    if key != target {
                        if exists|j: int| #[trigger] filed_under(self.entries@, j, key) {
                            let j = choose|j: int| #[trigger] filed_under(self.entries@, j, key);
                            assert(filed_under(before, j, key));
                        }
                        if exists|j: int| #[trigger] filed_under(before, j, key) {
                            let j = choose|j: int| #[trigger] filed_under(before, j, key);
                            assert(filed_under(self.entries@, j, key));
                            let k = choose|k: int| #[trigger] filed_under(self.entries@, k, key);
                            assert(filed_under(before, k, key));
                        }
                    } else {
                        assert(filed_under(self.entries@, i as int, key));
                    }
                };
                assert(self@ =~= old(self)@.insert(target, amount));
            },
            None => {
                self.entries.push((who.clone(), kind, amount));
                let ghost n = before.len() as int;
                assert forall|a: int, b: int, key: (Seq<char>, u32)|
                    #[trigger] filed_under(self.entries@, a, key) && #[trigger] filed_under(
                        self.entries@,
                        b,
                        key,
                    ) implies a == b by {
                    if a != n && b != n {
                        assert(filed_under(before, a, key) && filed_under(before, b, key));
                    } else if a == n && b != n {
                        assert(filed_under(before, b, target));
                    } else if a != n && b == n {
                        assert(filed_under(before, a, target));
                    }
                };
                assert forall|key: (Seq<char>, u32)| #[trigger]
                    self@.contains_key(key) == old(self)@.insert(target, amount).contains_key(key)
                        && (self@.contains_key(key) ==> self@[key] == old(self)@.insert(
                        target,
                        amount,
                    )[key]) by {
                    if key != target {
                        if exists|j: int| #[trigger] filed_under(self.entries@, j, key) {
                            let j = choose|j: int| #[trigger] filed_under(self.entries@, j, key);
                            assert(filed_under(before, j, key));
                        }
                        if exists|j: int| #[trigger] filed_under(before, j, key) {
                            let j = choose|j: int| #[trigger] filed_under(before, j, key);
                            assert(filed_under(self.entries@, j, key));
                            let k = choose|k: int| #[trigger] filed_under(self.entries@, k, key);
                            assert(filed_under(before, k, key));
                        }
                    } else {
                        assert(filed_under(self.entries@, n, key));
                    }
                };
                assert(self@ =~= old(self)@.insert(target, amount));
            },
        }
    }
}

/// A set of identities, held as a list in which each identity appears once.
pub(crate) struct IdentitySet {
    items: Vec<String>,
}

impl View for IdentitySet {
    type V = Set<Seq<char>>;

    closed spec fn view(&self) -> Set<Seq<char>> {
        Set::new(|x: Seq<char>| exists|i: int| 0 <= i < self.items@.len() && #[trigger] self.items@[i]@ == x)
    }
}

impl IdentitySet {
    pub(crate) fn new() -> (r: Self)
        ensures
            r@ == Set::<Seq<char>>::empty(),
    {
        let r = IdentitySet { items: Vec::new() };
        assert(r@ =~= Set::<Seq<char>>::empty());
        r
    }

    pub(crate) fn contains(&self, x: &String) -> (r: bool)
        ensures
            r == self@.contains(x@),
    {
        let mut i: usize = 0;
        while i < self.items.len()
            invariant
                i <= self.items@.len(),
                forall|j: int| 0 <= j < i ==> #[trigger] self.items@[j]@ != x@,
            decreases self.items@.len() - i,
        {
            if self.items[i] == *x {
                return true;
            }
            i = i + 1;
        }
        false
    }

    /// Adds `x`; adding an identity that is already there changes nothing.
    pub(crate) fn insert(&mut self, x: String)
        ensures
            final(self)@ == old(self)@.insert(x@),
    {
        if !self.contains(&x) {
            let ghost before = self.items@;
            self.items.push(x);
            assert forall|y: Seq<char>| #[trigger] self@.contains(y) == old(self)@.insert(x@).contains(y) by {
                if old(self)@.contains(y) {
                    let j = choose|j: int| 0 <= j < before.len() && #[trigger] before[j]@ == y;
                    assert(self.items@[j]@ == y);
                }
                if self@.contains(y) && y != x@ {
                    let j = choose|j: int| 0 <= j < self.items@.len() && #[trigger] self.items@[j]@ == y;
                    assert(before[j]@ == y);
                }
                if y == x@ {
                    assert(self.items@[before.len() as int]@ == y);
                }
            };
            assert(self@ =~= old(self)@.insert(x@));
        } else {
            assert(self@ =~= old(self)@.insert(x@));
        }
    }
}

/// A set of (grantor, delegate) approval records, each held once.
pub(crate) struct ApprovalSet {
    pairs: Vec<(String, String)>,
}

impl View for ApprovalSet {
    type V = Set<(Seq<char>, Seq<char>)>;

    closed spec fn view(&self) -> Set<(Seq<char>, Seq<char>)> {
        Set::new(
            |p: (Seq<char>, Seq<char>)|
                exists|i: int|
                    0 <= i < self.pairs@.len() && #[trigger] self.pairs@[i].0@ == p.0
                        && self.pairs@[i].1@ == p.1,
        )
    }
}

impl ApprovalSet {
    pub(crate) fn new() -> (r: Self)
        ensures
            r@ == Set::<(Seq<char>, Seq<char>)>::empty(),
    {
        let r = ApprovalSet { pairs: Vec::new() };
        assert(r@ =~= Set::<(Seq<char>, Seq<char>)>::empty());
        r
    }

    pub(crate) fn contains(&self, grantor: &String, delegate: &String) -> (r: bool)
        ensures
            r == self@.contains((grantor@, delegate@)),
    {
        let mut i: usize = 0;
        while i < self.pairs.len()
            invariant
                i <= self.pairs@.len(),
                forall|j: int|
                    0 <= j < i ==> !(#[trigger] self.pairs@[j].0@ == grantor@ && self.pairs@[j].1@
                        == delegate@),
            decreases self.pairs@.len() - i,
        {
            if self.pairs[i].0 == *grantor && self.pairs[i].1 == *delegate {
                return true;
            }
            i = i + 1;
        }
        false
    }

    /// Records the pair; recording one that is already there changes nothing.
    pub(crate) fn insert(&mut self, grantor: String, delegate: String)
        ensures
            final(self)@ == old(self)@.insert((grantor@, delegate@)),
    {
        let ghost p = (grantor@, delegate@);
        if !self.contains(&grantor, &delegate) {
            let ghost before = self.pairs@;
            self.pairs.push((grantor, delegate));
            assert forall|q: (Seq<char>, Seq<char>)| #[trigger] self@.contains(q) == old(self)@.insert(p).contains(q) by {
                if old(self)@.contains(q) {
                    let j = choose|j: int| 0 <= j < before.len() && #[trigger] before[j].0@ == q.0 && before[j].1@ == q.1;
                    assert(self.pairs@[j] == before[j]);
                }
                if self@.contains(q) && q != p {
                    let j = choose|j: int| 0 <= j < self.pairs@.len() && #[trigger] self.pairs@[j].0@ == q.0 && self.pairs@[j].1@ == q.1;
                    assert(before[j] == self.pairs@[j]);
                }
                if q == p {
                    assert(self.pairs@[before.len() as int].0@ == q.0);
                }
            };
            assert(self@ =~= old(self)@.insert(p));
        } else {
            assert(self@ =~= old(self)@.insert(p));
        }
    }
}

} // verus!
