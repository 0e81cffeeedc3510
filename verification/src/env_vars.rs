//! The pure part of the environment-variable passthrough: turning a batch of
//! keys and the values the host reported for them into a mapping from key to
//! optional value. The host lookups themselves are reads of external state
//! and are performed by the embedding runtime, which hands their results in
//! as plain `Option` values; absence of a variable is not an error.

use vstd::prelude::*;

verus! {

/// The mapping produced by looking up `keys` in an environment whose answers
/// are `vals` (one answer per key, in the same order): every looked-up key is
/// in the mapping, and a key that occurs more than once maps to the value
/// paired with its last occurrence.
pub open spec fn env_map_of(
    keys: Seq<Seq<char>>,
    vals: Seq<Option<Seq<char>>>,
) -> Map<Seq<char>, Option<Seq<char>>>
    decreases keys.len(),
{
    if keys.len() == 0 {
        Map::empty()
    } else {
        env_map_of(keys.drop_last(), vals.drop_last()).insert(keys.last(), vals.last())
    }
}

/// The mapping described by a sequence of key/value pairs, later pairs for
/// the same key superseding earlier ones.
pub open spec fn map_of_entries(
    entries: Seq<(Seq<char>, Option<Seq<char>>)>,
) -> Map<Seq<char>, Option<Seq<char>>>
    decreases entries.len(),
{
    if entries.len() == 0 {
        Map::empty()
    } else {
        map_of_entries(entries.drop_last()).insert(entries.last().0, entries.last().1)
    }
}

/// A mapping from environment-variable keys to their optional values, as a
/// list of key/value pairs in lookup order.
pub struct EnvVarMap {
    entries: Vec<(String, Option<String>)>,
}

impl View for EnvVarMap {
    type V = Map<Seq<char>, Option<Seq<char>>>;

    closed spec fn view(&self) -> Map<Seq<char>, Option<Seq<char>>> {
        map_of_entries(self.entries.deep_view())
    }
}

impl EnvVarMap {
    /// The key/value pairs in lookup order; a later pair for a key supersedes
    /// earlier ones, as the view does.
    pub fn entries(&self) -> (r: &Vec<(String, Option<String>)>)
        ensures
            map_of_entries(r.deep_view()) == self@,
    {
        &self.entries
    }

    /// Looks a key up: `None` when the key was never part of the batch,
    /// otherwise the host's answer for it (which is itself `None` when the
    /// variable was absent in the host environment).
    pub fn lookup(&self, key: &String) -> (r: Option<Option<String>>)
        ensures
            match r {
                Some(v) => self@.contains_key(key@) && v.deep_view() == self@[key@],
                None => !self@.contains_key(key@),
            },
    {
        let ghost dv = self.entries.deep_view();
        let mut j: usize = self.entries.len();
        proof {
            assert(dv.take(dv.len() as int) =~= dv);
        }
        while j > 0
            invariant
                j <= dv.len(),
                dv == self.entries.deep_view(),
                dv.len() == self.entries@.len(),
                map_of_entries(dv).contains_key(key@) <==> map_of_entries(
                    dv.take(j as int),
                ).contains_key(key@),
                map_of_entries(dv).contains_key(key@) ==> map_of_entries(dv)[key@]
                    == map_of_entries(dv.take(j as int))[key@],
            decreases j,
        {
            j = j - 1;
            proof {
                assert(dv.take(j + 1).drop_last() =~= dv.take(j as int));
                assert(dv.take(j + 1).last() == dv[j as int]);
            }
            if self.entries[j].0 == *key {
                proof {
                    assert(dv[j as int].0 == key@);
                    assert(map_of_entries(dv.take(j + 1))[key@] == dv[j as int].1);
                }
                let v: Option<String> = match &self.entries[j].1 {
                    Some(s) => Some(s.clone()),
                    None => None,
                };
                return Some(v);
            }
            proof {
                assert(dv[j as int].0 != key@);
            }
        }
        proof {
            assert(dv.take(0) =~= Seq::<(Seq<char>, Option<Seq<char>>)>::empty());
            assert(!map_of_entries(dv.take(0)).contains_key(key@));
        }
        None
    }
}

/// Builds the answer for a batch lookup: `keys` are the requested variable
/// names, `values` the host's answer for each (in the same order). The result
/// is exactly the mapping `env_map_of` describes.
pub fn collect_env_vars(keys: &Vec<String>, values: &Vec<Option<String>>) -> (m: EnvVarMap)
    requires
        keys@.len() == values@.len(),
    ensures
        m@ == env_map_of(keys.deep_view(), values.deep_view()),
{
    let ghost kd = keys.deep_view();
    let ghost vd = values.deep_view();
    let mut entries: Vec<(String, Option<String>)> = Vec::new();
    let mut i: usize = 0;
    proof {
        assert(entries.deep_view() =~= Seq::<(Seq<char>, Option<Seq<char>>)>::empty());
        assert(kd.take(0) =~= Seq::<Seq<char>>::empty());
        assert(vd.take(0) =~= Seq::<Option<Seq<char>>>::empty());
    }
    while i < keys.len()
        invariant
            i <= keys@.len(),
            keys@.len() == values@.len(),
            kd == keys.deep_view(),
            vd == values.deep_view(),
            kd.len() == keys@.len(),
            vd.len() == values@.len(),
            map_of_entries(entries.deep_view()) == env_map_of(
                kd.take(i as int),
                vd.take(i as int),
            ),
        decreases keys@.len() - i,
    {
        let ghost old_dv = entries.deep_view();
        let k = keys[i].clone();
        let v: Option<String> = match &values[i] {
            Some(s) => Some(s.clone()),
            None => None,
        };
        entries.push((k, v));
        i = i + 1;
        proof {
            assert(entries.deep_view() =~= old_dv.push((kd[i - 1], vd[i - 1])));
            assert(entries.deep_view().drop_last() =~= old_dv);
            assert(kd.take(i as int).drop_last() =~= kd.take(i - 1));
            assert(vd.take(i as int).drop_last() =~= vd.take(i - 1));
            assert(kd.take(i as int).last() == kd[i - 1]);
            assert(vd.take(i as int).last() == vd[i - 1]);
        }
    }
    proof {
        assert(kd.take(keys@.len() as int) =~= kd);
        assert(vd.take(values@.len() as int) =~= vd);
    }
    EnvVarMap { entries }
}

/// A key is in the batch-lookup result exactly when it was one of the
/// requested keys; in particular, a key that was never requested is absent.
pub proof fn lemma_env_map_of_domain(keys: Seq<Seq<char>>, vals: Seq<Option<Seq<char>>>, k: Seq<char>)
    requires
        keys.len() == vals.len(),
    ensures
        env_map_of(keys, vals).contains_key(k) <==> exists|i: int| 0 <= i < keys.len() && keys[i] == k,
    decreases keys.len(),
{
    if keys.len() > 0 {
        lemma_env_map_of_domain(keys.drop_last(), vals.drop_last(), k);
        if keys.last() == k {
            assert(keys[keys.len() - 1] == k);
        } else if env_map_of(keys, vals).contains_key(k) {
            let i = choose|i: int| 0 <= i < keys.drop_last().len() && keys.drop_last()[i] == k;
            assert(keys[i] == k);
        } else if exists|i: int| 0 <= i < keys.len() && keys[i] == k {
            let i = choose|i: int| 0 <= i < keys.len() && keys[i] == k;
            assert(keys.drop_last()[i] == k);
        }
    }
}

/// Each requested key maps to the host's answer for its last occurrence in
/// the batch: a duplicate earlier in the batch is superseded.
pub proof fn lemma_env_map_of_last_wins(
    keys: Seq<Seq<char>>,
    vals: Seq<Option<Seq<char>>>,
    i: int,
)
    requires
        keys.len() == vals.len(),
        0 <= i < keys.len(),
        forall|j: int| i < j < keys.len() ==> keys[j] != keys[i],
    ensures
        env_map_of(keys, vals).contains_key(keys[i]),
        env_map_of(keys, vals)[keys[i]] == vals[i],
    decreases keys.len(),
{
    if i == keys.len() - 1 {
        assert(keys.last() == keys[i]);
    } else {
        assert(keys.last() != keys[i]);
        assert(forall|j: int|
            i < j < keys.drop_last().len() ==> keys.drop_last()[j] != keys.drop_last()[i]);
        lemma_env_map_of_last_wins(keys.drop_last(), vals.drop_last(), i);
        assert(keys.drop_last()[i] == keys[i]);
        assert(vals.drop_last()[i] == vals[i]);
    }
}

} // verus!
