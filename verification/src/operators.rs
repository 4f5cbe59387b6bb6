//! Blanket grants: which identities may act for which owner.

use crate::identity::Identity;
use vstd::prelude::*;

verus! {

/// One grant: `operator` may act for `owner`.
#[derive(Debug, PartialEq, Eq)]
pub struct Grant {
    owner: Identity,
    operator: Identity,
}

impl Grant {
    /// The grant of `owner` to `operator`.
    pub fn new(owner: Identity, operator: Identity) -> (r: Grant)
        ensures
            r@ == (owner@, operator@),
    {
        Grant { owner, operator }
    }

    /// The owner that gave the grant.
    pub fn owner(&self) -> (r: &Identity)
        ensures
            r@ == self@.0,
    {
        &self.owner
    }

    /// The identity that holds the grant.
    pub fn operator(&self) -> (r: &Identity)
        ensures
            r@ == self@.1,
    {
        &self.operator
    }
}

impl View for Grant {
    type V = (Seq<u8>, Seq<u8>);

    closed spec fn view(&self) -> (Seq<u8>, Seq<u8>) {
        (self.owner@, self.operator@)
    }
}

/// The grants of all owners: a relation between owners and operators, kept
/// as a list in which no pair occurs twice.
#[derive(Debug)]
pub struct Operators {
    grants: Vec<Grant>,
}

impl View for Operators {
    type V = Set<(Seq<u8>, Seq<u8>)>;

    closed spec fn view(&self) -> Set<(Seq<u8>, Seq<u8>)> {
        Set::new(
            |p: (Seq<u8>, Seq<u8>)|
                exists|i: int| 0 <= i < self.grants@.len() && self.grants@[i]@ == p,
        )
    }
}

/// The pairs of owner and operator that occur in a list of grants.
pub open spec fn pairs(list: Seq<Grant>) -> Set<(Seq<u8>, Seq<u8>)> {
    Set::new(
        |p: (Seq<u8>, Seq<u8>)| exists|i: int| 0 <= i < list.len() && (#[trigger] list[i])@ == p,
    )
}

/// The operators that `owner` has granted, in the relation `grants`.
pub open spec fn operators_of(grants: Set<(Seq<u8>, Seq<u8>)>, owner: Seq<u8>) -> Set<Seq<u8>> {
    Set::new(|operator: Seq<u8>| grants.contains((owner, operator)))
}

/// The relation `grants` without any grant given by `owner`.
pub open spec fn without_owner(
    grants: Set<(Seq<u8>, Seq<u8>)>,
    owner: Seq<u8>,
) -> Set<(Seq<u8>, Seq<u8>)> {
    Set::new(|p: (Seq<u8>, Seq<u8>)| grants.contains(p) && p.0 != owner)
}

impl Operators {
    /// No pair is listed twice.
    pub closed spec fn wf(&self) -> bool {
        forall|i: int, j: int|
            0 <= i < j < self.grants@.len() ==> self.grants@[i]@ != self.grants@[j]@
    }

    /// The pairs in the order in which they are kept.
    pub closed spec fn listing(&self) -> Seq<(Seq<u8>, Seq<u8>)> {
        self.grants@.map_values(|g: Grant| g@)
    }

    /// The listing names exactly the grants, each once.
    pub proof fn lemma_listing(&self)
        requires
            self.wf(),
        ensures
            self.listing().no_duplicates(),
            forall|p: (Seq<u8>, Seq<u8>)| self.listing().contains(p) <==> self@.contains(p),
    {
        let l = self.listing();
        assert forall|p: (Seq<u8>, Seq<u8>)| l.contains(p) <==> self@.contains(p) by {
            if l.contains(p) {
                let i = choose|i: int| 0 <= i < l.len() && l[i] == p;
                assert(self.grants@[i]@ == p);
            }
            if self@.contains(p) {
                let i = choose|i: int| 0 <= i < self.grants@.len() && self.grants@[i]@ == p;
                assert(l[i] == p);
            }
        }
    }

    /// No grants at all.
    pub fn new() -> (r: Operators)
        ensures
            r.wf(),
            r@ == Set::<(Seq<u8>, Seq<u8>)>::empty(),
    {
        let r = Operators { grants: Vec::new() };
        proof {
            assert(r@ =~= Set::<(Seq<u8>, Seq<u8>)>::empty());
        }
        r
    }

    /// The relation of the grants that occur in `list`.
    pub fn from_vec(list: &Vec<Grant>) -> (r: Operators)
        ensures
            r.wf(),
            r@ == pairs(list@),
    {
        let mut table = Operators::new();
        let mut i: usize = 0;
        while i < list.len()
            invariant
                i <= list@.len(),
                table.wf(),
                table@ == pairs(list@.subrange(0, i as int)),
            decreases list@.len() - i,
        {
            table.grant(list[i].owner.clone(), list[i].operator.clone());
            proof {
                let before = list@.subrange(0, i as int);
                let after = list@.subrange(0, i + 1);
                assert forall|p: (Seq<u8>, Seq<u8>)| pairs(after).contains(p) <==> pairs(
                    before,
                ).insert(list@[i as int]@).contains(p) by {
                    if pairs(after).contains(p) {
                        let j = choose|j: int| 0 <= j < after.len() && (#[trigger] after[j])@ == p;
                        if j < i {
                            assert(before[j]@ == p);
                        }
                    }
                    if pairs(before).contains(p) {
                        let j = choose|j: int|
                            0 <= j < before.len() && (#[trigger] before[j])@ == p;
                        assert(after[j]@ == p);
                    }
                    if p == list@[i as int]@ {
                        assert(after[i as int]@ == p);
                    }
                }
                assert(table@ =~= pairs(after));
            }
            i += 1;
        }
        proof {
            assert(list@.subrange(0, i as int) =~= list@);
        }
        table
    }

    /// The grants as a list, each once.
    pub fn to_vec(&self) -> (r: Vec<Grant>)
        requires
            self.wf(),
        ensures
            pairs(r@) == self@,
    {
        let mut list: Vec<Grant> = Vec::new();
        let mut i: usize = 0;
        while i < self.grants.len()
            invariant
                i <= self.grants@.len(),
                list@.len() == i,
                forall|j: int| 0 <= j < i ==> list@[j]@ == self.grants@[j]@,
            decreases self.grants@.len() - i,
        {
            list.push(Grant::new(self.grants[i].owner.clone(), self.grants[i].operator.clone()));
            i += 1;
        }
        proof {
            assert forall|p: (Seq<u8>, Seq<u8>)|
                pairs(list@).contains(p) <==> self@.contains(p) by {
                if pairs(list@).contains(p) {
                    let j = choose|j: int| 0 <= j < list@.len() && (#[trigger] list@[j])@ == p;
                    assert(self.grants@[j]@ == p);
                }
                if self@.contains(p) {
                    let j = choose|j: int| 0 <= j < self.grants@.len() && self.grants@[j]@ == p;
                    assert(list@[j]@ == p);
                }
            }
            assert(pairs(list@) =~= self@);
        }
        list
    }

    /// Where the pair is listed, if it is.
    fn position(&self, owner: &Identity, operator: &Identity) -> (r: Option<usize>)
        ensures
            match r {
                Some(i) => i < self.grants@.len() && self.grants@[i as int]@ == (
                    owner@,
                    operator@,
                ),
                None => !self@.contains((owner@, operator@)),
            },
    {
        let mut i: usize = 0;
        while i < self.grants.len()
            invariant
                i <= self.grants@.len(),
                forall|j: int| 0 <= j < i ==> self.grants@[j]@ != (owner@, operator@),
            decreases self.grants@.len() - i,
        {
            if self.grants[i].owner.same(owner) && self.grants[i].operator.same(operator) {
                return Some(i);
            }
            i += 1;
        }
        None
    }

    /// Whether `owner` has granted `operator`.
    pub fn contains(&self, owner: &Identity, operator: &Identity) -> (r: bool)
        ensures
            r == self@.contains((owner@, operator@)),
    {
        self.position(owner, operator).is_some()
    }

    /// Records that `owner` grants `operator`.
    pub fn grant(&mut self, owner: Identity, operator: Identity)
        requires
            old(self).wf(),
        ensures
            final(self).wf(),
            final(self)@ == old(self)@.insert((owner@, operator@)),
    {
        let ghost before = *self;
        let ghost p0 = (owner@, operator@);
        match self.position(&owner, &operator) {
            Some(_) => {
                proof {
                    assert(self@ =~= self@.insert(p0));
                }
            },
            None => {
                self.grants.push(Grant { owner, operator });
                proof {
                    let n = before.grants@.len() as int;
                    assert forall|p: (Seq<u8>, Seq<u8>)| self@.contains(p) <==> before@.insert(
                        p0,
                    ).contains(p) by {
                        if self@.contains(p) {
                            let i = choose|i: int|
                                0 <= i < self.grants@.len() && self.grants@[i]@ == p;
                            if i < n {
                                assert(before.grants@[i]@ == p);
                            }
                        }
                        if before@.contains(p) {
                            let i = choose|i: int|
                                0 <= i < before.grants@.len() && before.grants@[i]@ == p;
                            assert(self.grants@[i]@ == p);
                        }
                        if p == p0 {
                            assert(self.grants@[n]@ == p);
                        }
                    }
                    assert(self@ =~= before@.insert(p0));
                }
            },
        }
    }

    /// Takes back the grant of `owner` to `operator`, if there is one.
    pub fn revoke(&mut self, owner: &Identity, operator: &Identity)
        requires
            old(self).wf(),
        ensures
            final(self).wf(),
            final(self)@ == old(self)@.remove((owner@, operator@)),
    {
        let ghost before = *self;
        let ghost p0 = (owner@, operator@);
        match self.position(owner, operator) {
            None => {
                proof {
                    assert(self@ =~= self@.remove(p0));
                }
            },
            Some(k) => {
                self.grants.remove(k);
                proof {
                    assert forall|p: (Seq<u8>, Seq<u8>)| self@.contains(p) <==> before@.remove(
                        p0,
                    ).contains(p) by {
                        if self@.contains(p) {
                            let i = choose|i: int|
                                0 <= i < self.grants@.len() && self.grants@[i]@ == p;
                            if i < k {
                                assert(before.grants@[i]@ == p);
                            } else {
                                assert(before.grants@[i + 1]@ == p);
                            }
                        }
                        if before@.remove(p0).contains(p) {
                            let i = choose|i: int|
                                0 <= i < before.grants@.len() && before.grants@[i]@ == p;
                            if i < k {
                                assert(self.grants@[i]@ == p);
                            } else {
                                assert(self.grants@[i - 1]@ == p);
                            }
                        }
                    }
                    assert(self@ =~= before@.remove(p0));
                }
            },
        }
    }

    /// Takes back every grant that `owner` has given.
    pub fn revoke_all(&mut self, owner: &Identity)
        requires
            old(self).wf(),
        ensures
            final(self).wf(),
            final(self)@ == without_owner(old(self)@, owner@),
    {
        let ghost before = *self;
        let mut i: usize = 0;
        while i < self.grants.len()
            invariant
                i <= self.grants@.len(),
                self.wf(),
                forall|j: int| 0 <= j < i ==> (#[trigger] self.grants@[j]@).0 != owner@,
                forall|p: (Seq<u8>, Seq<u8>)|
                    p.0 != owner@ ==> (self@.contains(p) <==> before@.contains(p)),
                forall|p: (Seq<u8>, Seq<u8>)| self@.contains(p) ==> before@.contains(p),
            decreases self.grants@.len() - i,
        {
            if self.grants[i].owner.same(owner) {
                let ghost prev = *self;
                self.grants.remove(i);
                proof {
                    assert forall|p: (Seq<u8>, Seq<u8>)| self@.contains(p) <==> prev@.remove(
                        prev.grants@[i as int]@,
                    ).contains(p) by {
                        if self@.contains(p) {
                            let a = choose|a: int|
                                0 <= a < self.grants@.len() && self.grants@[a]@ == p;
                            if a < i {
                                assert(prev.grants@[a]@ == p);
                            } else {
                                assert(prev.grants@[a + 1]@ == p);
                            }
                        }
                        if prev@.remove(prev.grants@[i as int]@).contains(p) {
                            let a = choose|a: int|
                                0 <= a < prev.grants@.len() && prev.grants@[a]@ == p;
                            if a < i {
                                assert(self.grants@[a]@ == p);
                            } else {
                                assert(self.grants@[a - 1]@ == p);
                            }
                        }
                    }
                }
            } else {
                i += 1;
            }
        }
        proof {
            assert forall|p: (Seq<u8>, Seq<u8>)| self@.contains(p) <==> without_owner(
                before@,
                owner@,
            ).contains(p) by {
                if self@.contains(p) {
                    let a = choose|a: int| 0 <= a < self.grants@.len() && self.grants@[a]@ == p;
                    assert((self.grants@[a]@).0 != owner@);
                }
            }
            assert(self@ =~= without_owner(before@, owner@));
        }
    }

    /// How many grants are kept.
    pub fn len(&self) -> (r: usize)
        ensures
            r == self.listing().len(),
    {
        self.grants.len()
    }

    /// The grant kept at place `i`.
    pub fn get(&self, i: usize) -> (r: &Grant)
        requires
            i < self.listing().len(),
        ensures
            r@ == self.listing()[i as int],
    {
        &self.grants[i]
    }
}

} // verus!
