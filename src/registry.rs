use vstd::prelude::*;
use crate::job::{Build, BuildV, text_eq};

verus! {

/// Why a registry operation did not take place.
#[derive(Debug, Clone, Copy, PartialEq, Eq, Structural)]
pub enum RegistryError {
    /// No record is held for the architecture.
    NotFound,
    /// A record is already held for the architecture.
    AlreadyBuilding,
}

/// Registry contents: at most one record per architecture, keyed by it.
pub type Slots = Map<Seq<char>, BuildV>;

/// Claiming `arch` for `b`: refused when a record is already held.
pub open spec fn try_create_spec(m: Slots, arch: Seq<char>, b: BuildV) -> (Slots, Result<(), RegistryError>) {
    if m.contains_key(arch) {
        (m, Err(RegistryError::AlreadyBuilding))
    } else {
        (m.insert(arch, b), Ok(()))
    }
}

/// Looking up the record held for `arch`.
pub open spec fn get_spec(m: Slots, arch: Seq<char>) -> Result<BuildV, RegistryError> {
    if m.contains_key(arch) {
        Ok(m[arch])
    } else {
        Err(RegistryError::NotFound)
    }
}

/// Releasing `arch`, whether or not it was held.
pub open spec fn clear_spec(m: Slots, arch: Seq<char>) -> Slots {
    m.remove(arch)
}

/// The shared job registry: for each architecture, zero or one build record.
pub struct Db {
    slots: Vec<Build>,
    contents: Ghost<Slots>,
}

impl View for Db {
    type V = Slots;

    closed spec fn view(&self) -> Slots {
        self.contents@
    }
}

impl Db {
    /// The registry's invariant: records are keyed by their own architecture,
    /// and no architecture holds two.
    pub closed spec fn wf(&self) -> bool {
        &&& forall|i: int, j: int|
            0 <= i < j < self.slots@.len() ==> #[trigger] self.slots@[i].arch@ != #[trigger] self.slots@[j].arch@
        &&& forall|i: int|
            0 <= i < self.slots@.len() ==> self.contents@.contains_key(#[trigger] self.slots@[i].arch@)
                && self.contents@[self.slots@[i].arch@] == self.slots@[i]@
        &&& forall|k: Seq<char>|
            #[trigger] self.contents@.contains_key(k) ==> exists|i: int|
                0 <= i < self.slots@.len() && #[trigger] self.slots@[i].arch@ == k
    }

    /// An empty registry.
    pub fn new() -> (r: Db)
        ensures
            r.wf(),
            r@ == Slots::empty(),
    {
        Db { slots: Vec::new(), contents: Ghost(Map::empty()) }
    }

    fn find(&self, arch: &str) -> (r: Option<usize>)
        requires
            self.wf(),
        ensures
            match r {
                Some(i) => i < self.slots@.len() && self.slots@[i as int].arch@ == arch@,
                None => !self@.contains_key(arch@),
            },
    {
        let mut i: usize = 0;
        while i < self.slots.len()
            invariant
                self.wf(),
                i <= self.slots@.len(),
                forall|j: int| 0 <= j < i ==> #[trigger] self.slots@[j].arch@ != arch@,
            decreases self.slots.len() - i,
        {
            if text_eq(self.slots[i].arch.as_str(), arch) {
                return Some(i);
            }
            i = i + 1;
        }
        None
    }

    /// The record held for `arch`, or `NotFound`.
    pub fn get(&self, arch: &str) -> (r: Result<Build, RegistryError>)
        requires
            self.wf(),
        ensures
            match r {
                Ok(b) => get_spec(self@, arch@) == Ok::<BuildV, RegistryError>(b@),
                Err(e) => get_spec(self@, arch@) == Err::<BuildV, RegistryError>(e),
            },
    {
        match self.find(arch) {
            Some(i) => Ok(self.slots[i].clone()),
            None => Err(RegistryError::NotFound),
        }
    }

    /// Claims `arch` for `build` in one step: refused with `AlreadyBuilding`
    /// when the architecture already holds a record.
    pub fn set_building(&mut self, arch: &str, build: &Build) -> (r: Result<(), RegistryError>)
        requires
            old(self).wf(),
            build@.arch == arch@,
        ensures
            final(self).wf(),
            (final(self)@, r) == try_create_spec(old(self)@, arch@, build@),
    {
        match self.find(arch) {
            Some(_) => Err(RegistryError::AlreadyBuilding),
            None => {
                let ghost before = self.slots@;
                self.slots.push(build.clone());
                self.contents = Ghost(self.contents@.insert(arch@, build@));
                proof {
                    assert forall|k: Seq<char>| #[trigger] self.contents@.contains_key(k) implies exists|i: int|
                        0 <= i < self.slots@.len() && #[trigger] self.slots@[i].arch@ == k by {
                        if k != arch@ {
                            let i = choose|i: int| 0 <= i < before.len() && #[trigger] before[i].arch@ == k;
                            assert(self.slots@[i] == before[i]);
                        } else {
                            assert(self.slots@[before.len() as int].arch@ == k);
                        }
                    }
                }
                Ok(())
            },
        }
    }

    /// Releases `arch`. Releasing an architecture that holds no record is no error.
    pub fn set_build_done(&mut self, arch: &str)
        requires
            old(self).wf(),
        ensures
            final(self).wf(),
            final(self)@ == clear_spec(old(self)@, arch@),
    {
        match self.find(arch) {
            Some(i) => {
                let ghost before = self.slots@;
                self.slots.remove(i);
                self.contents = Ghost(self.contents@.remove(arch@));
                proof {
                    assert forall|k: Seq<char>| #[trigger] self.contents@.contains_key(k) implies exists|j: int|
                        0 <= j < self.slots@.len() && #[trigger] self.slots@[j].arch@ == k by {
                        let j = choose|j: int| 0 <= j < before.len() && #[trigger] before[j].arch@ == k;
                        if j < i {
                            assert(self.slots@[j] == before[j]);
                        } else {
                            assert(j != i);
                            assert(self.slots@[j - 1] == before[j]);
                        }
                    }
                    assert forall|a: int| 0 <= a < self.slots@.len() implies self.contents@.contains_key(
                        #[trigger] self.slots@[a].arch@) && self.contents@[self.slots@[a].arch@] == self.slots@[a]@ by {
                        if a < i {
                            assert(self.slots@[a] == before[a]);
                        } else {
                            assert(self.slots@[a] == before[a + 1]);
                        }
                    }
                }
            },
            None => {
                proof {
                    assert(self.contents@.remove(arch@) =~= self.contents@);
                }
            },
        }
    }

    /// Every record held, in no particular order.
    pub fn running_worker(&self) -> (r: Vec<Build>)
        requires
            self.wf(),
        ensures
            forall|i: int| 0 <= i < r@.len() ==> self@.contains_key(#[trigger] r@[i]@.arch)
                && self@[r@[i]@.arch] == r@[i]@,
            forall|k: Seq<char>| #[trigger] self@.contains_key(k) ==> exists|i: int|
                0 <= i < r@.len() && #[trigger] r@[i]@.arch == k,
            forall|i: int, j: int| 0 <= i < j < r@.len() ==> #[trigger] r@[i]@.arch != #[trigger] r@[j]@.arch,
    {
        let mut r: Vec<Build> = Vec::new();
        let mut i: usize = 0;
        while i < self.slots.len()
            invariant
                self.wf(),
                i <= self.slots@.len(),
                r@.len() == i,
                forall|j: int| 0 <= j < i ==> #[trigger] r@[j]@ == self.slots@[j]@,
            decreases self.slots.len() - i,
        {
            r.push(self.slots[i].clone());
            i = i + 1;
        }
        proof {
            assert forall|k: Seq<char>| #[trigger] self@.contains_key(k) implies exists|i: int|
                0 <= i < r@.len() && #[trigger] r@[i]@.arch == k by {
                let j = choose|j: int| 0 <= j < self.slots@.len() && #[trigger] self.slots@[j].arch@ == k;
                assert(r@[j]@.arch == k);
            }
            assert forall|a: int, b: int| 0 <= a < b < r@.len() implies #[trigger] r@[a]@.arch != #[trigger] r@[b]@.arch by {
                assert(self.slots@[a].arch@ != self.slots@[b].arch@);
            }
        }
        r
    }
}

} // verus!
