use vstd::prelude::*;

use crate::state::WeatherState;

verus! {

/// The characters of each string, in order.
pub open spec fn names(ids: Seq<String>) -> Seq<Seq<char>> {
    ids.map_values(|s: String| s@)
}

/// The weather state of each room, keyed by room id.
///
/// Each id occurs once; the order of the entries carries no meaning.
pub struct RoomTable {
    ids: Vec<String>,
    states: Vec<WeatherState>,
}

/// The map that pairs each key with the value at the same position.
spec fn table_view(ks: Seq<Seq<char>>, vs: Seq<WeatherState>) -> Map<Seq<char>, WeatherState> {
    Map::new(|k: Seq<char>| ks.contains(k), |k: Seq<char>| vs[ks.index_of(k)])
}

proof fn lemma_table_entry(ks: Seq<Seq<char>>, vs: Seq<WeatherState>, i: int)
    requires
        ks.no_duplicates(),
        0 <= i < ks.len(),
    ensures
        table_view(ks, vs).contains_key(ks[i]),
        table_view(ks, vs)[ks[i]] == vs[i],
{
    assert(ks.contains(ks[i]));
    let j = ks.index_of(ks[i]);
    assert(ks[j] == ks[i]);
}

proof fn lemma_table_update(ks: Seq<Seq<char>>, vs: Seq<WeatherState>, i: int, v: WeatherState)
    requires
        ks.no_duplicates(),
        ks.len() == vs.len(),
        0 <= i < ks.len(),
    ensures
        table_view(ks, vs.update(i, v)) == table_view(ks, vs).insert(ks[i], v),
{
    let a = table_view(ks, vs.update(i, v));
    let b = table_view(ks, vs).insert(ks[i], v);
    assert forall|k: Seq<char>| #[trigger] a.contains_key(k) implies b.contains_key(k) && a[k] == b[k] by {
        let j = ks.index_of(k);
        lemma_table_entry(ks, vs.update(i, v), j);
        if j != i {
            lemma_table_entry(ks, vs, j);
        }
    }
    assert forall|k: Seq<char>| #[trigger] b.contains_key(k) implies a.contains_key(k) by {
        if k != ks[i] {
            assert(ks.contains(k));
        } else {
            assert(ks.contains(ks[i]));
        }
    }
    assert(a =~= b);
}

proof fn lemma_table_push(ks: Seq<Seq<char>>, vs: Seq<WeatherState>, k: Seq<char>, v: WeatherState)
    requires
        ks.no_duplicates(),
        ks.len() == vs.len(),
        !ks.contains(k),
    ensures
        ks.push(k).no_duplicates(),
        table_view(ks.push(k), vs.push(v)) == table_view(ks, vs).insert(k, v),
{
    let ks2 = ks.push(k);
    let vs2 = vs.push(v);
    assert forall|i: int, j: int| 0 <= i < ks2.len() && 0 <= j < ks2.len() && i != j implies ks2[i]
        != ks2[j] by {
        if i < ks.len() && j < ks.len() {
        } else if i < ks.len() {
            assert(ks.contains(ks[i]));
        } else {
            assert(ks.contains(ks[j]));
        }
    }
    let a = table_view(ks2, vs2);
    let b = table_view(ks, vs).insert(k, v);
    assert forall|x: Seq<char>| #[trigger] a.contains_key(x) implies b.contains_key(x) && a[x]
        == b[x] by {
        let j = ks2.index_of(x);
        lemma_table_entry(ks2, vs2, j);
        if j < ks.len() {
            lemma_table_entry(ks, vs, j);
        }
    }
    assert forall|x: Seq<char>| #[trigger] b.contains_key(x) implies a.contains_key(x) by {
        if x == k {
            assert(ks2[ks.len() as int] == k);
        } else {
            let j = ks.index_of(x);
            assert(ks2[j] == x);
        }
    }
    assert(a =~= b);
}

proof fn lemma_table_remove(ks: Seq<Seq<char>>, vs: Seq<WeatherState>, i: int)
    requires
        ks.no_duplicates(),
        ks.len() == vs.len(),
        0 <= i < ks.len(),
    ensures
        ks.remove(i).no_duplicates(),
        table_view(ks.remove(i), vs.remove(i)) == table_view(ks, vs).remove(ks[i]),
{
    let ks2 = ks.remove(i);
    let vs2 = vs.remove(i);
    assert forall|p: int, q: int| 0 <= p < ks2.len() && 0 <= q < ks2.len() && p != q implies ks2[p]
        != ks2[q] by {
        let pp = if p < i { p } else { p + 1 };
        let qq = if q < i { q } else { q + 1 };
        assert(ks2[p] == ks[pp]);
        assert(ks2[q] == ks[qq]);
    }
    let a = table_view(ks2, vs2);
    let b = table_view(ks, vs).remove(ks[i]);
    assert forall|x: Seq<char>| #[trigger] a.contains_key(x) implies b.contains_key(x) && a[x]
        == b[x] by {
        let j = ks2.index_of(x);
        lemma_table_entry(ks2, vs2, j);
        let jj = if j < i { j } else { j + 1 };
        assert(ks2[j] == ks[jj]);
        assert(vs2[j] == vs[jj]);
        lemma_table_entry(ks, vs, jj);
    }
    assert forall|x: Seq<char>| #[trigger] b.contains_key(x) implies a.contains_key(x) by {
        let j = ks.index_of(x);
        assert(j != i);
        let jj = if j < i { j } else { j - 1 };
        assert(ks2[jj] == x);
    }
    assert(a =~= b);
}

impl View for RoomTable {
    type V = Map<Seq<char>, WeatherState>;

    closed spec fn view(&self) -> Map<Seq<char>, WeatherState> {
        table_view(names(self.ids@), self.states@)
    }
}

impl RoomTable {
    #[verifier::type_invariant]
    spec fn well_formed(self) -> bool {
        &&& self.ids@.len() == self.states@.len()
        &&& names(self.ids@).no_duplicates()
    }

    proof fn lemma_entry(self, i: int)
        requires
            self.well_formed(),
            0 <= i < self.ids@.len(),
        ensures
            self@.contains_key(self.ids@[i]@),
            self@[self.ids@[i]@] == self.states@[i],
    {
        assert(names(self.ids@)[i] == self.ids@[i]@);
        lemma_table_entry(names(self.ids@), self.states@, i);
    }

    proof fn lemma_absent(self, k: Seq<char>)
        requires
            self.well_formed(),
            forall|i: int| 0 <= i < self.ids@.len() ==> self.ids@[i]@ != k,
        ensures
            !self@.contains_key(k),
    {
        let ks = names(self.ids@);
        if ks.contains(k) {
            let j = choose|j: int| 0 <= j < ks.len() && ks[j] == k;
            assert(ks[j] == self.ids@[j]@);
        }
    }

    /// An empty table.
    pub fn new() -> (t: RoomTable)
        ensures
            t@ == Map::<Seq<char>, WeatherState>::empty(),
    {
        let t = RoomTable { ids: Vec::new(), states: Vec::new() };
        assert(t@ =~= Map::<Seq<char>, WeatherState>::empty());
        t
    }

    /// The position of `id` among the entries, if it is there.
    fn find(&self, id: &str) -> (r: Option<usize>)
        ensures
            match r {
                Some(i) => i < self.ids@.len() && self.ids@[i as int]@ == id@,
                None => forall|i: int| 0 <= i < self.ids@.len() ==> self.ids@[i]@ != id@,
            },
    {
        let key: String = id.to_owned();
        let n = self.ids.len();
        let mut i: usize = 0;
        while i < n
            invariant
                n == self.ids@.len(),
                key@ == id@,
                i <= n,
                forall|j: int| 0 <= j < i ==> self.ids@[j]@ != id@,
            decreases n - i,
        {
            if self.ids[i] == key {
                return Some(i);
            }
            i = i + 1;
        }
        None
    }

    /// Whether the table holds a state for `id`.
    pub fn contains_key(&self, id: &str) -> (b: bool)
        ensures
            b == self@.contains_key(id@),
    {
        proof {
            use_type_invariant(self);
        }
        match self.find(id) {
            Some(i) => {
                proof {
                    self.lemma_entry(i as int);
                }
                true
            },
            None => {
                proof {
                    self.lemma_absent(id@);
                }
                false
            },
        }
    }

    /// The state held for `id`, if any.
    pub fn get(&self, id: &str) -> (r: Option<&WeatherState>)
        ensures
            match r {
                Some(s) => self@.contains_key(id@) && *s == self@[id@],
                None => !self@.contains_key(id@),
            },
    {
        proof {
            use_type_invariant(self);
        }
        match self.find(id) {
            Some(i) => {
                proof {
                    self.lemma_entry(i as int);
                }
                Some(&self.states[i])
            },
            None => {
                proof {
                    self.lemma_absent(id@);
                }
                None
            },
        }
    }
}

impl RoomTable {
    /// Sets the state held for `id`, adding `id` when it is not there yet.
    pub fn insert(&mut self, id: String, state: WeatherState)
        ensures
            final(self)@ == old(self)@.insert(id@, state),
    {
        proof {
            use_type_invariant(&*self);
        }
        let pos = self.find(id.as_str());
        let mut taken = RoomTable::new();
        std::mem::swap(&mut taken, self);
        proof {
            use_type_invariant(&taken);
        }
        let ghost ks = names(taken.ids@);
        let ghost vs = taken.states@;
        let RoomTable { mut ids, mut states } = taken;
        match pos {
            Some(i) => {
                proof {
                    assert(ks[i as int] == id@);
                    lemma_table_update(ks, vs, i as int, state);
                }
                states.set(i, state);
            },
            None => {
                proof {
                    assert(!ks.contains(id@)) by {
                        if ks.contains(id@) {
                            let j = choose|j: int| 0 <= j < ks.len() && ks[j] == id@;
                            assert(ks[j] == ids@[j]@);
                        }
                    }
                    lemma_table_push(ks, vs, id@, state);
                }
                ids.push(id);
                states.push(state);
                proof {
                    assert(names(ids@) =~= ks.push(id@));
                }
            },
        }
        *self = RoomTable { ids, states };
    }

    /// Drops the state held for `id`, if any.
    pub fn remove(&mut self, id: &str)
        ensures
            final(self)@ == old(self)@.remove(id@),
    {
        proof {
            use_type_invariant(&*self);
        }
        match self.find(id) {
            None => {
                proof {
                    self.lemma_absent(id@);
                    assert(self@.remove(id@) =~= self@);
                }
            },
            Some(i) => {
                let mut taken = RoomTable::new();
                std::mem::swap(&mut taken, self);
                proof {
                    use_type_invariant(&taken);
                }
                let ghost ks = names(taken.ids@);
                let ghost vs = taken.states@;
                let RoomTable { mut ids, mut states } = taken;
                proof {
                    assert(ks[i as int] == id@);
                    lemma_table_remove(ks, vs, i as int);
                }
                ids.remove(i);
                states.remove(i);
                proof {
                    assert(names(ids@) =~= ks.remove(i as int));
                }
                *self = RoomTable { ids, states };
            },
        }
    }

    /// The number of rooms held.
    pub fn len(&self) -> (n: usize)
        ensures
            n == self@.len(),
    {
        proof {
            use_type_invariant(self);
            let ks = names(self.ids@);
            ks.unique_seq_to_set();
            assert(self@.dom() =~= ks.to_set());
        }
        self.ids.len()
    }

    /// Whether no room is held.
    pub fn is_empty(&self) -> (b: bool)
        ensures
            b == (self@ == Map::<Seq<char>, WeatherState>::empty()),
    {
        proof {
            use_type_invariant(self);
        }
        if self.ids.len() == 0 {
            proof {
                assert(self@ =~= Map::<Seq<char>, WeatherState>::empty());
            }
            true
        } else {
            proof {
                self.lemma_entry(0);
                assert(!Map::<Seq<char>, WeatherState>::empty().contains_key(self.ids@[0]@));
            }
            false
        }
    }

    /// The ids of the rooms held, each once, in no particular order.
    pub fn room_ids(&self) -> (v: Vec<String>)
        ensures
            names(v@).no_duplicates(),
            names(v@).to_set() == self@.dom(),
    {
        proof {
            use_type_invariant(self);
            assert(self@.dom() =~= names(self.ids@).to_set());
        }
        self.ids.clone()
    }

    /// Advances every room by one tick; the transition of a room ends when its id
    /// is listed in `finished` (its blend progress reached its end on this tick).
    pub fn tick_all(&mut self, finished: &Vec<String>)
        requires
            forall|k: Seq<char>| #[trigger]
                old(self)@.contains_key(k) ==> old(self)@[k].duration_ticks < u64::MAX,
        ensures
            final(self)@.dom() == old(self)@.dom(),
            forall|k: Seq<char>| #[trigger]
                final(self)@.contains_key(k) ==> final(self)@[k] == old(self)@[k].after_tick(
                    names(finished@).contains(k),
                ),
    {
        proof {
            use_type_invariant(&*self);
        }
        let mut taken = RoomTable::new();
        std::mem::swap(&mut taken, self);
        proof {
            use_type_invariant(&taken);
        }
        let ghost ks = names(taken.ids@);
        let ghost vs = taken.states@;
        let ghost before = taken@;
        let RoomTable { ids, states } = taken;
        let n = ids.len();
        let mut ticked: Vec<WeatherState> = Vec::new();
        for i in 0..n
            invariant
                n == ids@.len(),
                n == vs.len(),
                ks == names(ids@),
                vs == states@,
                ks.no_duplicates(),
                before == table_view(ks, vs),
                forall|k: Seq<char>| #[trigger]
                    before.contains_key(k) ==> before[k].duration_ticks < u64::MAX,
                ticked@.len() == i,
                forall|j: int|
                    0 <= j < i ==> #[trigger] ticked@[j] == vs[j].after_tick(
                        names(finished@).contains(ks[j]),
                    ),
        {
            let mut st = states[i];
            proof {
                lemma_table_entry(ks, vs, i as int);
                assert(ks[i as int] == ids@[i as int]@);
            }
            let done = listed(finished, &ids[i]);
            st.tick(done);
            ticked.push(st);
        }
        proof {
            let a = table_view(ks, ticked@);
            assert(a.dom() =~= before.dom());
            assert forall|k: Seq<char>| #[trigger] a.contains_key(k) implies a[k] == before[k].after_tick(
                names(finished@).contains(k),
            ) by {
                let j = ks.index_of(k);
                lemma_table_entry(ks, ticked@, j);
                lemma_table_entry(ks, vs, j);
            }
        }
        *self = RoomTable { ids, states: ticked };
    }
}

/// Whether `id` is among `list`.
fn listed(list: &Vec<String>, id: &String) -> (b: bool)
    ensures
        b == names(list@).contains(id@),
{
    let n = list.len();
    let mut i: usize = 0;
    while i < n
        invariant
            n == list@.len(),
            i <= n,
            forall|j: int| 0 <= j < i ==> list@[j]@ != id@,
        decreases n - i,
    {
        if list[i] == *id {
            proof {
                assert(names(list@)[i as int] == id@);
            }
            return true;
        }
        i = i + 1;
    }
    proof {
        if names(list@).contains(id@) {
            let j = choose|j: int| 0 <= j < names(list@).len() && names(list@)[j] == id@;
            assert(names(list@)[j] == list@[j]@);
        }
    }
    false
}

} // verus!
