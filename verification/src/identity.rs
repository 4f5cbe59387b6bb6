//! Identities: opaque byte strings that name a caller or an owner.

use vstd::prelude::*;

verus! {

/// An opaque identity. Two identities are the same when their bytes are.
///
/// The identity with no bytes is the sentinel: it owns burned tokens and is
/// never a valid target of a safe transfer.
#[derive(Debug, PartialEq, Eq, Hash)]
pub struct Identity {
    bytes: Vec<u8>,
}

impl View for Identity {
    type V = Seq<u8>;

    closed spec fn view(&self) -> Seq<u8> {
        self.bytes@
    }
}

/// The bytes of the sentinel identity: none.
pub open spec fn sentinel() -> Seq<u8> {
    Seq::<u8>::empty()
}

impl Clone for Identity {
    fn clone(&self) -> (r: Self)
        ensures
            r@ == self@,
    {
        Identity { bytes: self.bytes.clone() }
    }
}

impl Identity {
    /// The identity made of the given bytes.
    pub fn from_bytes(bytes: Vec<u8>) -> (r: Identity)
        ensures
            r@ == bytes@,
    {
        Identity { bytes }
    }

    /// The bytes of this identity.
    pub fn as_bytes(&self) -> (r: &Vec<u8>)
        ensures
            r@ == self@,
    {
        &self.bytes
    }

    /// The sentinel identity.
    pub fn sentinel() -> (r: Identity)
        ensures
            r@ == sentinel(),
    {
        Identity { bytes: Vec::new() }
    }

    /// Whether this is the sentinel identity.
    pub fn is_sentinel(&self) -> (r: bool)
        ensures
            r == (self@ == sentinel()),
    {
        let r = self.bytes.len() == 0;
        proof {
            if r {
                assert(self.bytes@ =~= Seq::<u8>::empty());
            }
        }
        r
    }

    /// Whether two identities are the same.
    pub fn same(&self, other: &Identity) -> (r: bool)
        ensures
            r == (self@ == other@),
    {
        if self.bytes.len() != other.bytes.len() {
            return false;
        }
        let mut i: usize = 0;
        while i < self.bytes.len()
            invariant
                i <= self.bytes.len(),
                self.bytes.len() == other.bytes.len(),
                forall|j: int| 0 <= j < i ==> self.bytes@[j] == other.bytes@[j],
            decreases self.bytes.len() - i,
        {
            if self.bytes[i] != other.bytes[i] {
                return false;
            }
            i += 1;
        }
        proof {
            assert(self.bytes@ =~= other.bytes@);
        }
        true
    }
}

/// The identities that occur in a list.
pub open spec fn members(list: Seq<Identity>) -> Set<Seq<u8>> {
    Set::new(|s: Seq<u8>| exists|i: int| 0 <= i < list.len() && (#[trigger] list[i])@ == s)
}

/// The identities of a list as contracts see them, in their order.
pub open spec fn identities_view(list: Seq<Identity>) -> Seq<Seq<u8>> {
    list.map_values(|w: Identity| w@)
}

/// A copy of a list of identities.
pub fn clone_identities(list: &Vec<Identity>) -> (r: Vec<Identity>)
    ensures
        identities_view(r@) == identities_view(list@),
{
    let mut copy: Vec<Identity> = Vec::new();
    let mut i: usize = 0;
    while i < list.len()
        invariant
            i <= list@.len(),
            copy@.len() == i,
            forall|j: int| 0 <= j < i ==> copy@[j]@ == list@[j]@,
        decreases list@.len() - i,
    {
        copy.push(list[i].clone());
        i += 1;
    }
    proof {
        assert(identities_view(copy@) =~= identities_view(list@));
    }
    copy
}

/// A finite set of identities, kept as a list in which none occurs twice.
#[derive(Debug)]
pub struct IdentitySet {
    items: Vec<Identity>,
}

impl View for IdentitySet {
    type V = Set<Seq<u8>>;

    closed spec fn view(&self) -> Set<Seq<u8>> {
        Set::new(|s: Seq<u8>| exists|i: int| 0 <= i < self.items@.len() && self.items@[i]@ == s)
    }
}

impl IdentitySet {
    /// No identity is listed twice.
    pub closed spec fn wf(&self) -> bool {
        forall|i: int, j: int|
            0 <= i < j < self.items@.len() ==> self.items@[i]@ != self.items@[j]@
    }

    /// The members in the order in which they are kept.
    pub closed spec fn listing(&self) -> Seq<Seq<u8>> {
        self.items@.map_values(|x: Identity| x@)
    }

    /// The listing names exactly the members, each once.
    pub proof fn lemma_listing(&self)
        requires
            self.wf(),
        ensures
            self.listing().no_duplicates(),
            forall|s: Seq<u8>| self.listing().contains(s) <==> self@.contains(s),
    {
        let l = self.listing();
        assert forall|s: Seq<u8>| l.contains(s) <==> self@.contains(s) by {
            if l.contains(s) {
                let i = choose|i: int| 0 <= i < l.len() && l[i] == s;
                assert(self.items@[i]@ == s);
            }
            if self@.contains(s) {
                let i = choose|i: int| 0 <= i < self.items@.len() && self.items@[i]@ == s;
                assert(l[i] == s);
            }
        }
    }

    /// The empty set.
    pub fn new() -> (r: IdentitySet)
        ensures
            r.wf(),
            r@ == Set::<Seq<u8>>::empty(),
    {
        let r = IdentitySet { items: Vec::new() };
        proof {
            assert(r@ =~= Set::<Seq<u8>>::empty());
        }
        r
    }

    /// The set of the identities that occur in `list`.
    pub fn from_vec(list: &Vec<Identity>) -> (r: IdentitySet)
        ensures
            r.wf(),
            r@ == members(list@),
    {
        let mut set = IdentitySet::new();
        let mut i: usize = 0;
        while i < list.len()
            invariant
                i <= list@.len(),
                set.wf(),
                set@ == members(list@.subrange(0, i as int)),
            decreases list@.len() - i,
        {
            set.insert(list[i].clone());
            proof {
                let before = list@.subrange(0, i as int);
                let after = list@.subrange(0, i + 1);
                assert forall|s: Seq<u8>| members(after).contains(s) <==> members(before).insert(
                    list@[i as int]@,
                ).contains(s) by {
                    if members(after).contains(s) {
                        let j = choose|j: int| 0 <= j < after.len() && (#[trigger] after[j])@ == s;
                        if j < i {
                            assert(before[j]@ == s);
                        }
                    }
                    if members(before).contains(s) {
                        let j = choose|j: int|
                            0 <= j < before.len() && (#[trigger] before[j])@ == s;
                        assert(after[j]@ == s);
                    }
                    if s == list@[i as int]@ {
                        assert(after[i as int]@ == s);
                    }
                }
                assert(set@ =~= members(after));
            }
            i += 1;
        }
        proof {
            assert(list@.subrange(0, i as int) =~= list@);
        }
        set
    }

    /// The members as a list, each once.
    pub fn to_vec(&self) -> (r: Vec<Identity>)
        requires
            self.wf(),
        ensures
            members(r@) == self@,
            identities_view(r@) == self.listing(),
    {
        let list = clone_identities(&self.items);
        proof {
            assert(identities_view(list@) =~= self.listing());
            assert forall|s: Seq<u8>| members(list@).contains(s) <==> self@.contains(s) by {
                if members(list@).contains(s) {
                    let j = choose|j: int| 0 <= j < list@.len() && (#[trigger] list@[j])@ == s;
                    assert(identities_view(list@)[j] == s);
                    assert(self.items@[j]@ == s);
                }
                if self@.contains(s) {
                    let j = choose|j: int| 0 <= j < self.items@.len() && self.items@[j]@ == s;
                    assert(identities_view(list@)[j] == s);
                    assert(list@[j]@ == s);
                }
            }
            assert(members(list@) =~= self@);
        }
        list
    }

    /// Where `who` is listed, if it is.
    fn position(&self, who: &Identity) -> (r: Option<usize>)
        ensures
            match r {
                Some(i) => i < self.items@.len() && self.items@[i as int]@ == who@,
                None => !self@.contains(who@),
            },
    {
        let mut i: usize = 0;
        while i < self.items.len()
            invariant
                i <= self.items@.len(),
                forall|j: int| 0 <= j < i ==> self.items@[j]@ != who@,
            decreases self.items@.len() - i,
        {
            if self.items[i].same(who) {
                return Some(i);
            }
            i += 1;
        }
        None
    }

    /// Whether `who` is a member.
    pub fn contains(&self, who: &Identity) -> (r: bool)
        ensures
            r == self@.contains(who@),
    {
        self.position(who).is_some()
    }

    /// Adds `who`; says whether it was new.
    pub fn insert(&mut self, who: Identity) -> (r: bool)
        requires
            old(self).wf(),
        ensures
            final(self).wf(),
            final(self)@ == old(self)@.insert(who@),
            r == !old(self)@.contains(who@),
    {
        match self.position(&who) {
            Some(_) => {
                proof {
                    assert(self@ =~= self@.insert(who@));
                }
                false
            },
            None => {
                let ghost before = *self;
                self.items.push(who);
                proof {
                    assert forall|s: Seq<u8>| self@.contains(s) <==> before@.insert(who@).contains(
                        s,
                    ) by {
                        if self@.contains(s) {
                            let i = choose|i: int|
                                0 <= i < self.items@.len() && self.items@[i]@ == s;
                            if i < before.items@.len() {
                                assert(before.items@[i]@ == s);
                            }
                        }
                        if before@.contains(s) {
                            let i = choose|i: int|
                                0 <= i < before.items@.len() && before.items@[i]@ == s;
                            assert(self.items@[i]@ == s);
                        }
                        if s == who@ {
                            assert(self.items@[before.items@.len() as int]@ == s);
                        }
                    }
                    assert(self@ =~= before@.insert(who@));
                }
                true
            },
        }
    }

    /// Takes `who` out; says whether it was a member.
    pub fn remove(&mut self, who: &Identity) -> (r: bool)
        requires
            old(self).wf(),
        ensures
            final(self).wf(),
            final(self)@ == old(self)@.remove(who@),
            r == old(self)@.contains(who@),
    {
        match self.position(who) {
            None => {
                proof {
                    assert(self@ =~= self@.remove(who@));
                }
                false
            },
            Some(k) => {
                let ghost before = *self;
                self.items.remove(k);
                proof {
                    assert forall|s: Seq<u8>| self@.contains(s) <==> before@.remove(who@).contains(
                        s,
                    ) by {
                        if self@.contains(s) {
                            let i = choose|i: int|
                                0 <= i < self.items@.len() && self.items@[i]@ == s;
                            if i < k {
                                assert(before.items@[i]@ == s);
                            } else {
                                assert(before.items@[i + 1]@ == s);
                            }
                        }
                        if before@.remove(who@).contains(s) {
                            let i = choose|i: int|
                                0 <= i < before.items@.len() && before.items@[i]@ == s;
                            if i < k {
                                assert(self.items@[i]@ == s);
                            } else {
                                assert(self.items@[i - 1]@ == s);
                            }
                        }
                    }
                    assert(self@ =~= before@.remove(who@));
                }
                true
            },
        }
    }

    /// Takes every member out.
    pub fn clear(&mut self)
        ensures
            final(self).wf(),
            final(self)@ == Set::<Seq<u8>>::empty(),
    {
        self.items.clear();
        proof {
            assert(self@ =~= Set::<Seq<u8>>::empty());
        }
    }

    /// How many identities are kept.
    pub fn len(&self) -> (r: usize)
        ensures
            r == self.listing().len(),
    {
        self.items.len()
    }

    /// The member kept at place `i`.
    pub fn get(&self, i: usize) -> (r: &Identity)
        requires
            i < self.listing().len(),
        ensures
            r@ == self.listing()[i as int],
    {
        &self.items[i]
    }
}

} // verus!
