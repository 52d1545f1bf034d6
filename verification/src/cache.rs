//! The in-memory caches that map a name (of a tag, a goal or a due shorthand)
//! to what the database stores for it.
use vstd::prelude::*;
use vstd::hash_map::StringHashMap;

verus! {

/// The map that rows of `(name, value)` give when they are inserted in order:
/// a later row with the same name replaces an earlier one.
pub open spec fn rows_map<V>(rows: Seq<(Seq<char>, V)>) -> Map<Seq<char>, V>
    decreases rows.len(),
{
    if rows.len() == 0 {
        Map::empty()
    } else {
        rows_map(rows.drop_last()).insert(rows.last().0, rows.last().1)
    }
}

/// The rows of a vector of `(String, V)` pairs, with each name taken as text.
pub open spec fn rows_view<V>(rows: Seq<(String, V)>) -> Seq<(Seq<char>, V)> {
    rows.map_values(|r: (String, V)| (r.0@, r.1))
}

/// The values that `m` holds for those of `keys` that it holds, in the order of `keys`.
pub open spec fn present_values<V>(m: Map<Seq<char>, V>, keys: Seq<Seq<char>>) -> Seq<V>
    decreases keys.len(),
{
    if keys.len() == 0 {
        Seq::empty()
    } else {
        let front = present_values(m, keys.drop_last());
        if m.contains_key(keys.last()) {
            front.push(m[keys.last()])
        } else {
            front
        }
    }
}

/// The names of a slice of strings, each taken as text.
pub open spec fn names_view(keys: Seq<String>) -> Seq<Seq<char>> {
    keys.map_values(|k: String| k@)
}

/// A cache from names to values.
#[verifier::reject_recursive_types(V)]
pub struct NameCache<V> {
    map: StringHashMap<V>,
}

impl<V> View for NameCache<V> {
    type V = Map<Seq<char>, V>;

    closed spec fn view(&self) -> Map<Seq<char>, V> {
        self.map@
    }
}

impl<V: Copy> NameCache<V> {
    /// An empty cache.
    pub fn new() -> (r: Self)
        ensures
            r@ == Map::<Seq<char>, V>::empty(),
    {
        NameCache { map: StringHashMap::new() }
    }

    /// The cache that the rows of a table give, each row a name and its value;
    /// where a name occurs twice, the later row wins.
    pub fn from_rows(rows: Vec<(String, V)>) -> (r: Self)
        ensures
            r@ == rows_map(rows_view(rows@)),
    {
        let mut map: StringHashMap<V> = StringHashMap::new();
        let n = rows.len();
        let mut i: usize = 0;
        while i < n
            invariant
                n == rows.len(),
                i <= n,
                map@ == rows_map(rows_view(rows@.take(i as int))),
            decreases n - i,
        {
            let name = rows[i].0.clone();
            let value = rows[i].1;
            map.insert(name, value);
            proof {
                let taken = rows_view(rows@.take(i + 1));
                assert(taken.drop_last() =~= rows_view(rows@.take(i as int)));
            }
            i = i + 1;
        }
        proof {
            assert(rows@.take(n as int) =~= rows@);
        }
        NameCache { map }
    }

    /// Adds or replaces the value for `name`.
    pub fn insert(&mut self, name: String, value: V)
        ensures
            final(self)@ == old(self)@.insert(name@, value),
    {
        self.map.insert(name, value);
    }

    /// Whether the cache holds `name`.
    pub fn contains(&self, name: &str) -> (r: bool)
        ensures
            r == self@.contains_key(name@),
    {
        self.map.contains_key(name)
    }

    /// The value for `name`, if the cache holds it.
    pub fn get(&self, name: &str) -> (r: Option<V>)
        ensures
            r == (if self@.contains_key(name@) { Some(self@[name@]) } else { None }),
    {
        match self.map.get(name) {
            Some(v) => Some(*v),
            None => None,
        }
    }
}

/// The values that `map` holds for the names in `keys`, in the order of
/// `keys`; names that it does not hold are left out.
pub fn retrieve_values<'a, V>(map: &'a NameCache<V>, keys: &[String]) -> (r: Vec<&'a V>)
    ensures
        r@.len() == present_values(map@, names_view(keys@)).len(),
        forall|i: int|
            0 <= i < r@.len() ==> *r@[i] == present_values(map@, names_view(keys@))[i],
{
    let mut out: Vec<&'a V> = Vec::new();
    let n = keys.len();
    let mut i: usize = 0;
    while i < n
        invariant
            n == keys@.len(),
            i <= n,
            out@.len() == present_values(map@, names_view(keys@.take(i as int))).len(),
            forall|j: int|
                0 <= j < out@.len() ==> *out@[j] == present_values(
                    map@,
                    names_view(keys@.take(i as int)),
                )[j],
        decreases n - i,
    {
        proof {
            assert(names_view(keys@.take(i + 1)).drop_last() =~= names_view(keys@.take(i as int)));
        }
        match map.map.get(keys[i].as_str()) {
            Some(v) => {
                out.push(v);
            },
            None => {},
        }
        i = i + 1;
    }
    proof {
        assert(keys@.take(n as int) =~= keys@);
    }
    out
}

/// Whether row `i` is the last of `rows` with the name `name`.
pub open spec fn last_row_named<V>(rows: Seq<(Seq<char>, V)>, name: Seq<char>, i: int) -> bool {
    &&& 0 <= i < rows.len()
    &&& rows[i].0 == name
    &&& forall|j: int| i < j < rows.len() ==> rows[j].0 != name
}

/// A cache built from rows holds exactly the names of the rows, and for each
/// name the value of the last row with that name.
#[verifier::spinoff_prover]
pub proof fn law_rows_lookup<V>(rows: Seq<(Seq<char>, V)>, name: Seq<char>)
    ensures
        rows_map(rows).contains_key(name) <==> exists|i: int|
            0 <= i < rows.len() && rows[i].0 == name,
        forall|i: int| #[trigger]
            last_row_named(rows, name, i) ==> rows_map(rows)[name] == rows[i].1,
    decreases rows.len(),
{
    if rows.len() > 0 {
        let front = rows.drop_last();
        law_rows_lookup(front, name);
        let k = rows.len() - 1;
        if rows[k].0 != name {
            if rows_map(rows).contains_key(name) {
                let i = choose|i: int| 0 <= i < front.len() && front[i].0 == name;
                assert(rows[i].0 == name);
            }
            assert forall|i: int| #[trigger] last_row_named(rows, name, i) implies rows_map(
                rows,
            )[name] == rows[i].1 by {
                assert(last_row_named(front, name, i));
            }
        } else {
            assert(rows[k].0 == name);
            assert forall|i: int| #[trigger] last_row_named(rows, name, i) implies rows_map(
                rows,
            )[name] == rows[i].1 by {
                assert(i == k);
            }
        }
        if exists|i: int| 0 <= i < rows.len() && rows[i].0 == name {
            let i = choose|i: int| 0 <= i < rows.len() && rows[i].0 == name;
            if i < k {
                assert(front[i].0 == name);
            }
        }
    }
}

/// Where the cache holds every key, the values come back one for one, in
/// the order of the keys.
pub proof fn law_present_values_all_known<V>(m: Map<Seq<char>, V>, keys: Seq<Seq<char>>)
    requires
        forall|i: int| 0 <= i < keys.len() ==> m.contains_key(#[trigger] keys[i]),
    ensures
        present_values(m, keys).len() == keys.len(),
        forall|i: int| 0 <= i < keys.len() ==> present_values(m, keys)[i] == m[keys[i]],
    decreases keys.len(),
{
    if keys.len() > 0 {
        let front = keys.drop_last();
        assert forall|i: int| 0 <= i < front.len() implies m.contains_key(#[trigger] front[i]) by {
            assert(front[i] == keys[i]);
        }
        law_present_values_all_known(m, front);
        assert(m.contains_key(keys[keys.len() - 1]));
    }
}

/// Whether `v` is the value `m` holds for one of `keys`.
pub open spec fn value_of_some_key<V>(m: Map<Seq<char>, V>, keys: Seq<Seq<char>>, v: V) -> bool {
    exists|j: int| 0 <= j < keys.len() && m.contains_key(keys[j]) && v == m[keys[j]]
}

/// A value of some key among the front keys is a value of some key of all.
proof fn lemma_value_of_front_key<V>(m: Map<Seq<char>, V>, keys: Seq<Seq<char>>, v: V)
    requires
        keys.len() > 0,
        value_of_some_key(m, keys.drop_last(), v),
    ensures
        value_of_some_key(m, keys, v),
{
    let front = keys.drop_last();
    let j = choose|j: int| 0 <= j < front.len() && m.contains_key(front[j]) && v == m[front[j]];
    assert(keys[j] == front[j]);
}

/// Never more values come back than keys were asked for, and each is the
/// value of one of the keys.
#[verifier::spinoff_prover]
pub proof fn law_present_values_from_keys<V>(m: Map<Seq<char>, V>, keys: Seq<Seq<char>>)
    ensures
        present_values(m, keys).len() <= keys.len(),
        forall|i: int|
            0 <= i < present_values(m, keys).len() ==> value_of_some_key(
                m,
                keys,
                #[trigger] present_values(m, keys)[i],
            ),
    decreases keys.len(),
{
    if keys.len() > 0 {
        let front = keys.drop_last();
        law_present_values_from_keys(m, front);
        let pv = present_values(m, keys);
        let pf = present_values(m, front);
        let last = keys.len() - 1;
        assert forall|i: int| 0 <= i < pv.len() implies value_of_some_key(m, keys, #[trigger] pv[i]) by {
            if i < pf.len() {
                assert(pv[i] == pf[i]);
                assert(value_of_some_key(m, front, pf[i]));
                lemma_value_of_front_key(m, keys, pf[i]);
            } else {
                assert(m.contains_key(keys[last]) && pv[i] == m[keys[last]]);
            }
        }
    }
}

/// After a name is added, the cache gives back its value, and every other
/// name keeps what it had.
pub proof fn law_insert_then_lookup<V>(before: Map<Seq<char>, V>, name: Seq<char>, value: V, other: Seq<char>)
    requires
        other != name,
    ensures
        before.insert(name, value).contains_key(name),
        before.insert(name, value)[name] == value,
        before.insert(name, value).contains_key(other) == before.contains_key(other),
        before.contains_key(other) ==> before.insert(name, value)[other] == before[other],
{
}

} // verus!
