//! The content-hash index: one digest for each minted token, written when
//! the token is minted and never changed.

use vstd::prelude::*;

verus! {

/// The digests of all minted tokens: the entry at place `i` belongs to the
/// token with id `i`. Entries are only ever appended.
#[derive(Debug)]
pub struct ContentHashIndex {
    digests: Vec<Vec<u8>>,
}

impl View for ContentHashIndex {
    type V = Seq<Seq<u8>>;

    closed spec fn view(&self) -> Seq<Seq<u8>> {
        digests_view(self.digests@)
    }
}

/// A list of digests as contracts see it.
pub open spec fn digests_view(list: Seq<Vec<u8>>) -> Seq<Seq<u8>> {
    list.map_values(|d: Vec<u8>| d@)
}

impl ContentHashIndex {
    /// The index of a registry without tokens.
    pub fn new() -> (r: ContentHashIndex)
        ensures
            r@ == Seq::<Seq<u8>>::empty(),
    {
        let r = ContentHashIndex { digests: Vec::new() };
        proof {
            assert(r@ =~= Seq::<Seq<u8>>::empty());
        }
        r
    }

    /// How many tokens have an entry.
    pub fn len(&self) -> (r: usize)
        ensures
            r == self@.len(),
    {
        self.digests.len()
    }

    /// The digest recorded for the token `token_id`, if that token exists.
    pub fn get(&self, token_id: u64) -> (r: Option<&Vec<u8>>)
        ensures
            match r {
                Some(d) => token_id < self@.len() && d@ == self@[token_id as int],
                None => token_id >= self@.len(),
            },
    {
        if token_id < self.digests.len() as u64 {
            Some(&self.digests[token_id as usize])
        } else {
            None
        }
    }

    /// Records the digest of the next token. The entries that were there stay
    /// as they were.
    pub fn record(&mut self, digest: Vec<u8>)
        ensures
            final(self)@ == old(self)@.push(digest@),
    {
        self.digests.push(digest);
        proof {
            assert(self@ =~= old(self)@.push(digest@));
        }
    }

    /// The index with the given digests as its entries, in their order.
    pub fn from_digests(digests: Vec<Vec<u8>>) -> (r: ContentHashIndex)
        ensures
            r@ == digests_view(digests@),
    {
        ContentHashIndex { digests }
    }

    /// The entries of the index, in their order.
    pub fn into_digests(self) -> (r: Vec<Vec<u8>>)
        ensures
            digests_view(r@) == self@,
    {
        self.digests
    }
}

} // verus!
