//! The artifact store: image bytes addressed by key.
use vstd::prelude::*;

use crate::model::ArtifactKey;

verus! {

/// Why an artifact-store operation did not take place.
#[derive(Debug, Clone, Copy, PartialEq, Eq, Structural)]
pub enum ArtifactError {
    /// No artifact is stored under the key.
    Missing,
}

/// Byte payloads addressed by key. The entries hold each key at most once.
pub struct ArtifactStore {
    pub entries: Vec<(ArtifactKey, Vec<u8>)>,
    pub contents: Ghost<Map<ArtifactKey, Seq<u8>>>,
}

impl View for ArtifactStore {
    type V = Map<ArtifactKey, Seq<u8>>;

    open spec fn view(&self) -> Map<ArtifactKey, Seq<u8>> {
        self.contents@
    }
}

impl ArtifactStore {
    pub open spec fn wf(&self) -> bool {
        &&& forall|i: int, j: int|
            0 <= i < j < self.entries@.len() ==> #[trigger] self.entries@[i].0
                != #[trigger] self.entries@[j].0
        &&& forall|i: int|
            0 <= i < self.entries@.len() ==> self@.contains_key(#[trigger] self.entries@[i].0)
                && self@[self.entries@[i].0] == self.entries@[i].1@
        &&& forall|k: ArtifactKey|
            #[trigger] self@.contains_key(k) ==> exists|i: int|
                0 <= i < self.entries@.len() && #[trigger] self.entries@[i].0 == k
    }

    pub fn new() -> (r: ArtifactStore)
        ensures
            r.wf(),
            r@ == Map::<ArtifactKey, Seq<u8>>::empty(),
    {
        ArtifactStore { entries: Vec::new(), contents: Ghost(Map::empty()) }
    }

    /// Position of the entry stored under `key`, if any.
    fn find(&self, key: ArtifactKey) -> (r: Option<usize>)
        requires
            self.wf(),
        ensures
            match r {
                Some(i) => i < self.entries@.len() && self.entries@[i as int].0 == key,
                None => !self@.contains_key(key),
            },
    {
        let mut i: usize = 0;
        while i < self.entries.len()
            invariant
                self.wf(),
                i <= self.entries@.len(),
                forall|j: int| 0 <= j < i ==> self.entries@[j].0 != key,
            decreases self.entries@.len() - i,
        {
            if self.entries[i].0 == key {
                return Some(i);
            }
            i = i + 1;
        }
        None
    }

    pub fn contains(&self, key: ArtifactKey) -> (r: bool)
        requires
            self.wf(),
        ensures
            r == self@.contains_key(key),
    {
        self.find(key).is_some()
    }

    pub fn read(&self, key: ArtifactKey) -> (r: Option<Vec<u8>>)
        requires
            self.wf(),
        ensures
            match r {
                Some(b) => self@.contains_key(key) && b@ == self@[key],
                None => !self@.contains_key(key),
            },
    {
        match self.find(key) {
            Some(i) => {
                let b = self.entries[i].1.clone();
                assert(b@ =~= self.entries@[i as int].1@);
                Some(b)
            },
            None => None,
        }
    }

    /// Stores `bytes` under `key`, replacing what was there.
    pub fn write(&mut self, key: ArtifactKey, bytes: Vec<u8>)
        requires
            old(self).wf(),
        ensures
            final(self).wf(),
            final(self)@ == old(self)@.insert(key, bytes@),
    {
        let ghost target = self@.insert(key, bytes@);
        let ghost pos: int;
        match self.find(key) {
            Some(i) => {
                self.entries.set(i, (key, bytes));
                proof {
                    pos = i as int;
                }
            },
            None => {
                self.entries.push((key, bytes));
                proof {
                    pos = self.entries@.len() - 1;
                }
            },
        }
        self.contents = Ghost(target);
        assert(self.entries@[pos].0 == key);
        assert forall|k: ArtifactKey| #[trigger] self@.contains_key(k) implies exists|i: int|
            0 <= i < self.entries@.len() && #[trigger] self.entries@[i].0 == k by {
            if k != key {
                let i = choose|i: int|
                    0 <= i < old(self).entries@.len() && #[trigger] old(self).entries@[i].0 == k;
                assert(self.entries@[i].0 == k);
            } else {
                assert(self.entries@[pos].0 == k);
            }
        }
    }

    /// Drops the entry at position `i`, keeping the others.
    fn drop_at(&mut self, i: usize)
        requires
            old(self).wf(),
            i < old(self).entries@.len(),
        ensures
            final(self).wf(),
            final(self)@ == old(self)@.remove(old(self).entries@[i as int].0),
    {
        let ghost key = self.entries@[i as int].0;
        let ghost target = self@.remove(key);
        let _ = self.entries.remove(i);
        self.contents = Ghost(target);
        assert forall|k: ArtifactKey| #[trigger] self@.contains_key(k) implies exists|j: int|
            0 <= j < self.entries@.len() && #[trigger] self.entries@[j].0 == k by {
            let j = choose|j: int|
                0 <= j < old(self).entries@.len() && #[trigger] old(self).entries@[j].0 == k;
            if j < i {
                assert(self.entries@[j].0 == k);
            } else {
                assert(self.entries@[j - 1].0 == k);
            }
        }
        assert forall|a: int, b: int|
            0 <= a < b < self.entries@.len() implies #[trigger] self.entries@[a].0
                != #[trigger] self.entries@[b].0 by {
            let oa = if a < i { a } else { a + 1 };
            let ob = if b < i { b } else { b + 1 };
            assert(self.entries@[a] == old(self).entries@[oa]);
            assert(self.entries@[b] == old(self).entries@[ob]);
        }
    }

    /// Deletes the artifact stored under `key`.
    pub fn remove(&mut self, key: ArtifactKey) -> (r: Result<(), ArtifactError>)
        requires
            old(self).wf(),
        ensures
            final(self).wf(),
            old(self)@.contains_key(key) ==> r is Ok && final(self)@ == old(self)@.remove(key),
            !old(self)@.contains_key(key) ==> r == Err::<(), ArtifactError>(ArtifactError::Missing)
                && final(self)@ == old(self)@,
    {
        match self.find(key) {
            Some(i) => {
                self.drop_at(i);
                Ok(())
            },
            None => Err(ArtifactError::Missing),
        }
    }

    /// Moves the artifact stored under `from` to `to`, replacing whatever `to` held.
    pub fn rename(&mut self, from: ArtifactKey, to: ArtifactKey) -> (r: Result<(), ArtifactError>)
        requires
            old(self).wf(),
        ensures
            final(self).wf(),
            old(self)@.contains_key(from) ==> r is Ok && final(self)@ == old(self)@.remove(
                from,
            ).insert(to, old(self)@[from]),
            !old(self)@.contains_key(from) ==> r == Err::<(), ArtifactError>(ArtifactError::Missing)
                && final(self)@ == old(self)@,
    {
        match self.find(from) {
            Some(i) => {
                let bytes = self.entries[i].1.clone();
                assert(bytes@ =~= self.entries@[i as int].1@);
                self.drop_at(i);
                self.write(to, bytes);
                Ok(())
            },
            None => Err(ArtifactError::Missing),
        }
    }
}

} // verus!
