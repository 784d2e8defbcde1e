use vstd::prelude::*;

verus! {

/// The names and addresses held in `entries`, later entries over earlier ones.
pub open spec fn entries_map<A>(entries: Seq<(String, A)>) -> Map<Seq<char>, A>
    decreases entries.len(),
{
    if entries.len() == 0 {
        Map::empty()
    } else {
        entries_map(entries.drop_last()).insert(entries.last().0@, entries.last().1)
    }
}

/// No name occurs twice in `entries`.
pub open spec fn distinct_names<A>(entries: Seq<(String, A)>) -> bool {
    forall|i: int, j: int|
        0 <= i < entries.len() && 0 <= j < entries.len() && i != j ==> #[trigger] entries[i].0@
            != #[trigger] entries[j].0@
}

/// With distinct names, the map holds exactly the names of the entries, each
/// with its own address, and has as many names as there are entries.
pub proof fn lemma_entries_map<A>(entries: Seq<(String, A)>)
    requires
        distinct_names(entries),
    ensures
        entries_map(entries).dom().finite(),
        entries_map(entries).dom().len() == entries.len(),
        forall|i: int|
            0 <= i < entries.len() ==> entries_map(entries).contains_key(#[trigger] entries[i].0@)
                && entries_map(entries)[entries[i].0@] == entries[i].1,
        forall|k: Seq<char>|
            #[trigger] entries_map(entries).contains_key(k) ==> exists|i: int|
                0 <= i < entries.len() && #[trigger] entries[i].0@ == k,
    decreases entries.len(),
{
    if entries.len() > 0 {
        let front = entries.drop_last();
        let last = entries.last();
        let n = entries.len() - 1;
        assert forall|i: int, j: int|
            0 <= i < front.len() && 0 <= j < front.len() && i != j implies #[trigger] front[i].0@
            != #[trigger] front[j].0@ by {
            assert(front[i] == entries[i] && front[j] == entries[j]);
        }
        lemma_entries_map(front);
        let m = entries_map(front);
        if m.contains_key(last.0@) {
            let i = choose|i: int| 0 <= i < front.len() && #[trigger] front[i].0@ == last.0@;
            assert(front[i] == entries[i]);
            assert(entries[n] == last);
            assert(entries[i].0@ != entries[n].0@);
        }
        assert forall|i: int|
            0 <= i < entries.len() implies entries_map(entries).contains_key(
            #[trigger] entries[i].0@,
        ) && entries_map(entries)[entries[i].0@] == entries[i].1 by {
            if i < n {
                assert(front[i] == entries[i]);
                assert(entries[i].0@ != entries[n].0@);
            }
        }
        assert forall|k: Seq<char>| #[trigger]
            entries_map(entries).contains_key(k) implies exists|i: int|
            0 <= i < entries.len() && #[trigger] entries[i].0@ == k by {
            if k == last.0@ {
                assert(entries[n].0@ == k);
            } else {
                let i = choose|i: int| 0 <= i < front.len() && #[trigger] front[i].0@ == k;
                assert(front[i] == entries[i]);
            }
        }
    }
}

/// The clients connected to the websocket service, each name with the
/// address it connected from; a name is held at most once.
pub struct ClientRegistry<A> {
    entries: Vec<(String, A)>,
}

impl<A> View for ClientRegistry<A> {
    type V = Map<Seq<char>, A>;

    closed spec fn view(&self) -> Map<Seq<char>, A> {
        entries_map(self.entries@)
    }
}

impl<A> ClientRegistry<A> {
    /// The registry's internal invariant: no name is held twice.
    pub closed spec fn wf(&self) -> bool {
        distinct_names(self.entries@)
    }

    /// An empty registry.
    pub fn new() -> (r: Self)
        ensures
            r.wf(),
            r@ == Map::<Seq<char>, A>::empty(),
    {
        ClientRegistry { entries: Vec::new() }
    }

    /// The position of `name` among the entries, if it is held.
    fn position(&self, name: &String) -> (p: Option<usize>)
        requires
            self.wf(),
        ensures
            p matches Some(i) ==> i < self.entries@.len() && self.entries@[i as int].0@ == name@,
            p is None ==> forall|i: int|
                0 <= i < self.entries@.len() ==> #[trigger] self.entries@[i].0@ != name@,
    {
        let mut i: usize = 0;
        while i < self.entries.len()
            invariant
                i <= self.entries@.len(),
                forall|j: int| 0 <= j < i ==> #[trigger] self.entries@[j].0@ != name@,
            decreases self.entries@.len() - i,
        {
            if self.entries[i].0 == *name {
                return Some(i);
            }
            i = i + 1;
        }
        None
    }

    /// The number of clients held.
    pub fn len(&self) -> (n: usize)
        requires
            self.wf(),
        ensures
            self@.dom().finite(),
            n == self@.dom().len(),
    {
        proof {
            lemma_entries_map(self.entries@);
        }
        self.entries.len()
    }

    /// Whether `name` is held.
    pub fn contains(&self, name: &String) -> (b: bool)
        requires
            self.wf(),
        ensures
            b == self@.contains_key(name@),
    {
        proof {
            lemma_entries_map(self.entries@);
        }
        self.position(name).is_some()
    }

    /// The address held for `name`, if it is held.
    pub fn get(&self, name: &String) -> (a: Option<&A>)
        requires
            self.wf(),
        ensures
            a is Some <==> self@.contains_key(name@),
            a matches Some(addr) ==> *addr == self@[name@],
    {
        proof {
            lemma_entries_map(self.entries@);
        }
        match self.position(name) {
            Some(i) => Some(&self.entries[i].1),
            None => None,
        }
    }

    /// Holds `name` with the address `addr`, in place of any address it had.
    pub fn insert(&mut self, name: String, addr: A)
        requires
            old(self).wf(),
        ensures
            final(self).wf(),
            final(self)@ == old(self)@.insert(name@, addr),
    {
        let ghost before = self.entries@;
        proof {
            lemma_entries_map(before);
        }
        match self.position(&name) {
            Some(i) => {
                let ghost key = name@;
                self.entries.set(i, (name, addr));
                let ghost after = self.entries@;
                assert forall|j: int, k: int|
                    0 <= j < after.len() && 0 <= k < after.len() && j != k implies #[trigger] after[j].0@
                    != #[trigger] after[k].0@ by {
                    if j != i && k != i {
                        assert(after[j] == before[j] && after[k] == before[k]);
                    } else if j == i {
                        assert(after[k] == before[k]);
                        assert(before[i as int].0@ == key);
                    } else {
                        assert(after[j] == before[j]);
                        assert(before[i as int].0@ == key);
                    }
                }
                proof {
                    lemma_entries_map(after);
                    let m0 = entries_map(before).insert(key, addr);
                    let m1 = entries_map(after);
                    assert forall|k: Seq<char>| m1.contains_key(k) <==> m0.contains_key(k) by {
                        if m1.contains_key(k) {
                            let j = choose|j: int| 0 <= j < after.len() && #[trigger] after[j].0@ == k;
                            if j != i {
                                assert(after[j] == before[j]);
                            }
                        }
                        if m0.contains_key(k) && k != key {
                            let j = choose|j: int| 0 <= j < before.len() && #[trigger] before[j].0@ == k;
                            assert(j != i);
                            assert(after[j] == before[j]);
                        }
                        if k == key {
                            assert(after[i as int].0@ == key);
                        }
                    }
                    assert forall|k: Seq<char>| m1.contains_key(k) implies m1[k] == m0[k] by {
                        let j = choose|j: int| 0 <= j < after.len() && #[trigger] after[j].0@ == k;
                        if j != i {
                            assert(after[j] == before[j]);
                        }
                    }
                    assert(m1 =~= m0);
                }
            },
            None => {
                let ghost key = name@;
                self.entries.push((name, addr));
                let ghost after = self.entries@;
                assert(after.drop_last() =~= before);
                assert forall|j: int, k: int|
                    0 <= j < after.len() && 0 <= k < after.len() && j != k implies #[trigger] after[j].0@
                    != #[trigger] after[k].0@ by {
                    if j < before.len() && k < before.len() {
                        assert(after[j] == before[j] && after[k] == before[k]);
                    } else if j < before.len() {
                        assert(after[j] == before[j]);
                    } else {
                        assert(after[k] == before[k]);
                    }
                }
            },
        }
    }

    /// Lets go of `name`, if it is held.
    pub fn remove(&mut self, name: &String)
        requires
            old(self).wf(),
        ensures
            final(self).wf(),
            final(self)@ == old(self)@.remove(name@),
    {
        let ghost before = self.entries@;
        proof {
            lemma_entries_map(before);
        }
        match self.position(name) {
            Some(i) => {
                let ghost key = name@;
                let _ = self.entries.remove(i);
                let ghost after = self.entries@;
                assert(after =~= before.remove(i as int));
                assert forall|j: int, k: int|
                    0 <= j < after.len() && 0 <= k < after.len() && j != k implies #[trigger] after[j].0@
                    != #[trigger] after[k].0@ by {
                    let bj = if j < i { j } else { j + 1 };
                    let bk = if k < i { k } else { k + 1 };
                    assert(after[j] == before[bj] && after[k] == before[bk]);
                }
                proof {
                    lemma_entries_map(after);
                    let m0 = entries_map(before).remove(key);
                    let m1 = entries_map(after);
                    assert forall|k: Seq<char>| m1.contains_key(k) <==> m0.contains_key(k) by {
                        if m1.contains_key(k) {
                            let j = choose|j: int| 0 <= j < after.len() && #[trigger] after[j].0@ == k;
                            let bj = if j < i { j } else { j + 1 };
                            assert(after[j] == before[bj]);
                            assert(bj != i);
                        }
                        if m0.contains_key(k) {
                            let j = choose|j: int| 0 <= j < before.len() && #[trigger] before[j].0@ == k;
                            assert(j != i);
                            let aj = if j < i { j } else { j - 1 };
                            assert(after[aj] == before[j]);
                        }
                    }
                    assert forall|k: Seq<char>| m1.contains_key(k) implies m1[k] == m0[k] by {
                        let j = choose|j: int| 0 <= j < after.len() && #[trigger] after[j].0@ == k;
                        let bj = if j < i { j } else { j + 1 };
                        assert(after[j] == before[bj]);
                    }
                    assert(m1 =~= m0);
                }
            },
            None => {
                proof {
                    let m = entries_map(before);
                    if m.contains_key(name@) {
                        let j = choose|j: int| 0 <= j < before.len() && #[trigger] before[j].0@ == name@;
                    }
                    assert(m.remove(name@) =~= m);
                }
            },
        }
    }
}

} // verus!
