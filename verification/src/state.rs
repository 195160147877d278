//! Per-resource deployment state and the keyed store that holds it.

use vstd::prelude::*;

verus! {

/// Mathematical model of a [`DeploymentState`]: strings as character
/// sequences, counters as unbounded integers.
#[verifier::ext_equal]
pub struct DeploymentStateView {
    pub namespace: Seq<char>,
    pub name: Seq<char>,
    pub generation: int,
    pub replicas: int,
    pub ready_replicas: int,
    pub available_replicas: int,
    pub updated_replicas: int,
    pub observed_generation: int,
    pub pod_template_hash: Seq<char>,
    pub last_completed_generation: int,
    pub last_scaled_replicas: int,
}

/// Last-known normalized state of one deployment, kept per resource key.
///
/// `last_completed_generation` is the highest generation for which a
/// completion event has already been emitted; `last_scaled_replicas` is the
/// replica count for which a scale-completion event has already been emitted.
#[derive(Debug, PartialEq, Eq)]
pub struct DeploymentState {
    pub namespace: String,
    pub name: String,
    pub generation: i64,
    pub replicas: i32,
    pub ready_replicas: i32,
    pub available_replicas: i32,
    pub updated_replicas: i32,
    pub observed_generation: i64,
    pub pod_template_hash: String,
    pub last_completed_generation: i64,
    pub last_scaled_replicas: i32,
}

impl View for DeploymentState {
    type V = DeploymentStateView;

    open spec fn view(&self) -> DeploymentStateView {
        DeploymentStateView {
            namespace: self.namespace@,
            name: self.name@,
            generation: self.generation as int,
            replicas: self.replicas as int,
            ready_replicas: self.ready_replicas as int,
            available_replicas: self.available_replicas as int,
            updated_replicas: self.updated_replicas as int,
            observed_generation: self.observed_generation as int,
            pod_template_hash: self.pod_template_hash@,
            last_completed_generation: self.last_completed_generation as int,
            last_scaled_replicas: self.last_scaled_replicas as int,
        }
    }
}

impl Clone for DeploymentState {
    fn clone(&self) -> (r: Self)
        ensures
            r == *self,
    {
        DeploymentState {
            namespace: self.namespace.clone(),
            name: self.name.clone(),
            generation: self.generation,
            replicas: self.replicas,
            ready_replicas: self.ready_replicas,
            available_replicas: self.available_replicas,
            updated_replicas: self.updated_replicas,
            observed_generation: self.observed_generation,
            pod_template_hash: self.pod_template_hash.clone(),
            last_completed_generation: self.last_completed_generation,
            last_scaled_replicas: self.last_scaled_replicas,
        }
    }
}

/// Store of the last-known state of each resource, keyed by the canonical
/// `"namespace/name"` string. Viewed as a map from key characters to the
/// state model; one entry per resource identity.
pub struct StateManager {
    entries: Vec<(String, DeploymentState)>,
}

impl StateManager {
    /// The stored entries as a map, later entries winning; with the key
    /// uniqueness invariant every key occurs at most once.
    pub closed spec fn view(&self) -> Map<Seq<char>, DeploymentStateView> {
        Self::map_of(self.entries@)
    }

    spec fn map_of(s: Seq<(String, DeploymentState)>) -> Map<
        Seq<char>,
        DeploymentStateView,
    >
        decreases s.len(),
    {
        if s.len() == 0 {
            Map::empty()
        } else {
            Self::map_of(s.drop_last()).insert(s.last().0@, s.last().1@)
        }
    }

    #[verifier::type_invariant]
    spec fn keys_distinct(&self) -> bool {
        forall|i: int, j: int|
            0 <= i < j < self.entries@.len() ==> self.entries@[i].0@ != self.entries@[j].0@
    }

    proof fn lemma_map_of_absent(s: Seq<(String, DeploymentState)>, k: Seq<char>)
        requires
            forall|j: int| 0 <= j < s.len() ==> s[j].0@ != k,
        ensures
            !Self::map_of(s).contains_key(k),
        decreases s.len(),
    {
        if s.len() > 0 {
            Self::lemma_map_of_absent(s.drop_last(), k);
        }
    }

    proof fn lemma_map_of_found(s: Seq<(String, DeploymentState)>, k: Seq<char>, i: int)
        requires
            0 <= i < s.len(),
            s[i].0@ == k,
            forall|j: int| i < j < s.len() ==> s[j].0@ != k,
        ensures
            Self::map_of(s).contains_key(k),
            Self::map_of(s)[k] == s[i].1@,
        decreases s.len(),
    {
        if i < s.len() - 1 {
            Self::lemma_map_of_found(s.drop_last(), k, i);
        }
    }

    proof fn lemma_map_of_remove(s: Seq<(String, DeploymentState)>, k: Seq<char>, i: int)
        requires
            0 <= i < s.len(),
            s[i].0@ == k,
            forall|i2: int, j2: int| 0 <= i2 < j2 < s.len() ==> s[i2].0@ != s[j2].0@,
        ensures
            Self::map_of(s.remove(i)) == Self::map_of(s).remove(k),
        decreases s.len(),
    {
        if i == s.len() - 1 {
            assert(s.remove(i) =~= s.drop_last());
            assert(forall|j: int| 0 <= j < s.drop_last().len() ==> s.drop_last()[j].0@ != k);
            Self::lemma_map_of_absent(s.drop_last(), k);
            assert(Self::map_of(s.drop_last()) =~= Self::map_of(s).remove(k));
        } else {
            let t = s.remove(i);
            assert(t.drop_last() =~= s.drop_last().remove(i));
            assert(t.last() == s.last());
            Self::lemma_map_of_remove(s.drop_last(), k, i);
            assert(s.last().0@ != k);
            assert(Self::map_of(t) =~= Self::map_of(s).remove(k));
        }
    }

    pub fn new() -> (s: Self)
        ensures
            s@ == Map::<Seq<char>, DeploymentStateView>::empty(),
    {
        StateManager { entries: Vec::new() }
    }

    /// Index of the entry holding `key`, if any.
    fn find_index(&self, key: &String) -> (r: Option<usize>)
        ensures
            match r {
                Some(i) => i < self.entries@.len() && self.entries@[i as int].0@ == key@,
                None => forall|j: int| 0 <= j < self.entries@.len() ==> self.entries@[j].0@ != key@,
            },
    {
        let n = self.entries.len();
        let mut i: usize = 0;
        while i < n
            invariant
                n == self.entries@.len(),
                0 <= i <= n,
                forall|j: int| 0 <= j < i ==> self.entries@[j].0@ != key@,
            decreases n - i,
        {
            if self.entries[i].0 == *key {
                return Some(i);
            }
            i += 1;
        }
        None
    }

    /// Last-known state recorded under `key`, if the key has been seen.
    pub fn get(&self, key: &str) -> (r: Option<DeploymentState>)
        ensures
            match r {
                Some(st) => self@.contains_key(key@) && st@ == self@[key@],
                None => !self@.contains_key(key@),
            },
    {
        proof {
            use_type_invariant(self);
        }
        let owned = key.to_owned();
        match self.find_index(&owned) {
            Some(i) => {
                proof {
                    Self::lemma_map_of_found(self.entries@, key@, i as int);
                }
                Some(self.entries[i].1.clone())
            },
            None => {
                proof {
                    Self::lemma_map_of_absent(self.entries@, key@);
                }
                None
            },
        }
    }

    /// Records `state` as the last-known state under `key`, replacing any
    /// earlier entry for the same key.
    pub fn update(&mut self, key: String, state: DeploymentState)
        ensures
            final(self)@ == old(self)@.insert(key@, state@),
    {
        proof {
            use_type_invariant(&*self);
        }
        let ghost m0 = self@;
        let idx = self.find_index(&key);
        let mut v: Vec<(String, DeploymentState)> = Vec::new();
        core::mem::swap(&mut v, &mut self.entries);
        match idx {
            Some(i) => {
                proof {
                    Self::lemma_map_of_remove(v@, key@, i as int);
                }
                v.remove(i);
            },
            None => {},
        }
        proof {
            assert(forall|j: int| 0 <= j < v@.len() ==> v@[j].0@ != key@);
        }
        let ghost pre = v@;
        let ghost m1 = Self::map_of(pre);
        v.push((key, state));
        self.entries = v;
        proof {
            assert(self.entries@.drop_last() =~= pre);
            assert(self@ == m1.insert(key@, state@));
            assert(self@ =~= m0.insert(key@, state@));
        }
    }

    /// Evicts `key` from the store; a no-op when the key is absent.
    pub fn remove(&mut self, key: &str)
        ensures
            final(self)@ == old(self)@.remove(key@),
    {
        proof {
            use_type_invariant(&*self);
        }
        let owned = key.to_owned();
        let idx = self.find_index(&owned);
        match idx {
            Some(i) => {
                let mut v: Vec<(String, DeploymentState)> = Vec::new();
                core::mem::swap(&mut v, &mut self.entries);
                proof {
                    Self::lemma_map_of_remove(v@, key@, i as int);
                }
                v.remove(i);
                self.entries = v;
            },
            None => {
                proof {
                    Self::lemma_map_of_absent(self.entries@, key@);
                    assert(self@ =~= self@.remove(key@));
                }
            },
        }
    }
}

} // verus!
