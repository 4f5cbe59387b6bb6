//! What a token carries besides its owner: metadata parts, each a purpose,
//! a table of named values and raw bytes.

use vstd::prelude::*;

verus! {

/// What a metadata part is for.
#[derive(Debug, Clone, Copy, PartialEq, Eq, Structural)]
pub enum MetadataPurpose {
    Preview,
    Rendered,
}

/// A typed value in a metadata table.
#[derive(Debug, PartialEq, Eq)]
pub enum MetadataVal {
    TextContent(String),
    BlobContent(Vec<u8>),
    NatContent(u128),
    Nat8Content(u8),
    Nat16Content(u16),
    Nat32Content(u32),
    Nat64Content(u64),
}

/// A typed value as contracts see it.
pub enum MetadataValView {
    TextContent(Seq<char>),
    BlobContent(Seq<u8>),
    NatContent(u128),
    Nat8Content(u8),
    Nat16Content(u16),
    Nat32Content(u32),
    Nat64Content(u64),
}

impl View for MetadataVal {
    type V = MetadataValView;

    open spec fn view(&self) -> MetadataValView {
        match self {
            MetadataVal::TextContent(s) => MetadataValView::TextContent(s@),
            MetadataVal::BlobContent(b) => MetadataValView::BlobContent(b@),
            MetadataVal::NatContent(n) => MetadataValView::NatContent(*n),
            MetadataVal::Nat8Content(n) => MetadataValView::Nat8Content(*n),
            MetadataVal::Nat16Content(n) => MetadataValView::Nat16Content(*n),
            MetadataVal::Nat32Content(n) => MetadataValView::Nat32Content(*n),
            MetadataVal::Nat64Content(n) => MetadataValView::Nat64Content(*n),
        }
    }
}

impl Clone for MetadataVal {
    fn clone(&self) -> (r: Self)
        ensures
            r@ == self@,
    {
        match self {
            MetadataVal::TextContent(s) => MetadataVal::TextContent(s.clone()),
            MetadataVal::BlobContent(b) => MetadataVal::BlobContent(b.clone()),
            MetadataVal::NatContent(n) => MetadataVal::NatContent(*n),
            MetadataVal::Nat8Content(n) => MetadataVal::Nat8Content(*n),
            MetadataVal::Nat16Content(n) => MetadataVal::Nat16Content(*n),
            MetadataVal::Nat32Content(n) => MetadataVal::Nat32Content(*n),
            MetadataVal::Nat64Content(n) => MetadataVal::Nat64Content(*n),
        }
    }
}

/// One part of a token's metadata. No key occurs twice in its table.
#[derive(Debug)]
pub struct MetadataPart {
    purpose: MetadataPurpose,
    key_val_data: Vec<(String, MetadataVal)>,
    data: Vec<u8>,
}

/// A metadata part as contracts see it.
pub struct MetadataPartView {
    pub purpose: MetadataPurpose,
    pub key_val_data: Map<Seq<char>, MetadataValView>,
    pub data: Seq<u8>,
}

/// The parts of a token's metadata as contracts see them, in their order.
pub open spec fn parts_view(parts: Seq<MetadataPart>) -> Seq<MetadataPartView> {
    parts.map_values(|p: MetadataPart| p@)
}

/// Every part of the metadata is well formed.
pub open spec fn parts_wf(parts: Seq<MetadataPart>) -> bool {
    forall|i: int| 0 <= i < parts.len() ==> (#[trigger] parts[i]).wf()
}

impl View for MetadataPart {
    type V = MetadataPartView;

    closed spec fn view(&self) -> MetadataPartView {
        MetadataPartView {
            purpose: self.purpose,
            key_val_data: Map::new(
                |k: Seq<char>| self.holds(k),
                |k: Seq<char>| self.key_val_data@[self.place(k)].1@,
            ),
            data: self.data@,
        }
    }
}

impl MetadataPart {
    /// The table has a pair under the key `k`.
    spec fn holds(&self, k: Seq<char>) -> bool {
        exists|i: int| 0 <= i < self.key_val_data@.len() && self.key_val_data@[i].0@ == k
    }

    /// Where the pair under the key `k` is kept.
    spec fn place(&self, k: Seq<char>) -> int {
        choose|i: int| 0 <= i < self.key_val_data@.len() && self.key_val_data@[i].0@ == k
    }

    /// No key is kept twice.
    pub closed spec fn wf(&self) -> bool {
        forall|i: int, j: int|
            0 <= i < j < self.key_val_data@.len() ==> self.key_val_data@[i].0@
                != self.key_val_data@[j].0@
    }

    /// The keys in the order in which they are kept.
    pub closed spec fn keys(&self) -> Seq<Seq<char>> {
        self.key_val_data@.map_values(|e: (String, MetadataVal)| e.0@)
    }

    /// The kept keys are those of the table, each once, and each pair holds
    /// the table's value.
    pub proof fn lemma_keys(&self)
        requires
            self.wf(),
        ensures
            self.keys().no_duplicates(),
            forall|k: Seq<char>| self.keys().contains(k) <==> self@.key_val_data.contains_key(k),
    {
        let l = self.keys();
        assert forall|k: Seq<char>| l.contains(k) <==> self@.key_val_data.contains_key(k) by {
            if l.contains(k) {
                let i = choose|i: int| 0 <= i < l.len() && l[i] == k;
                assert(self.key_val_data@[i].0@ == k);
            }
            if self.holds(k) {
                assert(l[self.place(k)] == k);
            }
        }
    }

    /// A part with an empty table.
    pub fn new(purpose: MetadataPurpose, data: Vec<u8>) -> (r: MetadataPart)
        ensures
            r.wf(),
            r@.purpose == purpose,
            r@.data == data@,
            r@.key_val_data == Map::<Seq<char>, MetadataValView>::empty(),
    {
        let r = MetadataPart { purpose, key_val_data: Vec::new(), data };
        proof {
            assert(r@.key_val_data =~= Map::<Seq<char>, MetadataValView>::empty());
        }
        r
    }

    /// What the part is for.
    pub fn purpose(&self) -> (r: MetadataPurpose)
        ensures
            r == self@.purpose,
    {
        self.purpose
    }

    /// The raw bytes of the part.
    pub fn data(&self) -> (r: &Vec<u8>)
        ensures
            r@ == self@.data,
    {
        &self.data
    }

    /// How many pairs the table holds.
    pub fn len(&self) -> (r: usize)
        ensures
            r == self.keys().len(),
    {
        self.key_val_data.len()
    }

    /// The pair kept at place `i`.
    pub fn entry(&self, i: usize) -> (r: (&String, &MetadataVal))
        requires
            self.wf(),
            i < self.keys().len(),
        ensures
            r.0@ == self.keys()[i as int],
            self@.key_val_data.contains_key(r.0@),
            r.1@ == self@.key_val_data[r.0@],
    {
        let e = &self.key_val_data[i];
        proof {
            self.lemma_place(i as int);
        }
        (&e.0, &e.1)
    }

    /// With distinct keys, a key is found only at its own place.
    proof fn lemma_place(&self, i: int)
        requires
            self.wf(),
            0 <= i < self.key_val_data@.len(),
        ensures
            self.holds(self.key_val_data@[i].0@),
            self.place(self.key_val_data@[i].0@) == i,
    {
        let k = self.key_val_data@[i].0@;
        let p = self.place(k);
        assert(0 <= p < self.key_val_data@.len() && self.key_val_data@[p].0@ == k);
        if p < i {
            assert(self.key_val_data@[p].0@ != self.key_val_data@[i].0@);
        } else if i < p {
            assert(self.key_val_data@[i].0@ != self.key_val_data@[p].0@);
        }
    }

    /// Where `key` is kept, if it is.
    fn position(&self, key: &String) -> (r: Option<usize>)
        ensures
            match r {
                Some(i) => i < self.key_val_data@.len() && self.key_val_data@[i as int].0@ == key@,
                None => !self.holds(key@),
            },
    {
        let mut i: usize = 0;
        while i < self.key_val_data.len()
            invariant
                i <= self.key_val_data@.len(),
                forall|j: int| 0 <= j < i ==> self.key_val_data@[j].0@ != key@,
            decreases self.key_val_data@.len() - i,
        {
            if self.key_val_data[i].0 == *key {
                return Some(i);
            }
            i += 1;
        }
        None
    }

    /// The value under `key`, if the table has one.
    pub fn get(&self, key: &str) -> (r: Option<&MetadataVal>)
        requires
            self.wf(),
        ensures
            match r {
                Some(v) => self@.key_val_data.contains_key(key@) && v@ == self@.key_val_data[key@],
                None => !self@.key_val_data.contains_key(key@),
            },
    {
        let k = key.to_owned();
        match self.position(&k) {
            Some(i) => {
                proof {
                    self.lemma_place(i as int);
                }
                Some(&self.key_val_data[i].1)
            },
            None => None,
        }
    }

    /// Puts `val` under `key`, in place of any value that was there.
    pub fn insert(&mut self, key: String, val: MetadataVal)
        requires
            old(self).wf(),
        ensures
            final(self).wf(),
            final(self)@.purpose == old(self)@.purpose,
            final(self)@.data == old(self)@.data,
            final(self)@.key_val_data == old(self)@.key_val_data.insert(key@, val@),
    {
        let ghost before = *self;
        let ghost k0 = key@;
        let ghost v0 = val@;
        let ghost n = self.key_val_data@.len() as int;
        let found = self.position(&key);
        let ghost at = match found {
            Some(i) => i as int,
            None => n,
        };
        match found {
            Some(i) => {
                self.key_val_data.set(i, (key, val));
            },
            None => {
                self.key_val_data.push((key, val));
            },
        }
        proof {
            // Every pair but the one at `at` is as it was, and that one holds
            // the new key and value.
            assert(self.key_val_data@[at].0@ == k0 && self.key_val_data@[at].1@ == v0);
            assert forall|a: int| 0 <= a < n && a != at implies #[trigger] self.key_val_data@[a]
                == before.key_val_data@[a] by {}
            assert forall|a: int, b: int|
                0 <= a < b < self.key_val_data@.len() implies self.key_val_data@[a].0@
                != self.key_val_data@[b].0@ by {
                if b == at && at == n {
                    assert(before.key_val_data@[a].0@ != k0);
                } else if a == at {
                    assert(before.key_val_data@[a].0@ != before.key_val_data@[b].0@);
                } else if b == at {
                    assert(before.key_val_data@[a].0@ != before.key_val_data@[b].0@);
                }
            }
            let target = before@.key_val_data.insert(k0, v0);
            assert forall|k: Seq<char>|
                self@.key_val_data.dom().contains(k) <==> target.dom().contains(k) by {
                if self.holds(k) {
                    let a = self.place(k);
                    if a != at {
                        assert(before.key_val_data@[a].0@ == k);
                    }
                }
                if before.holds(k) {
                    let a = before.place(k);
                    assert(self.key_val_data@[a].0@ == k);
                }
            }
            assert forall|k: Seq<char>| self.holds(k) implies #[trigger] self@.key_val_data[k]
                == target[k] by {
                let a = self.place(k);
                self.lemma_place(a);
                if a != at {
                    assert(before.key_val_data@[a].0@ == k);
                    before.lemma_place(a);
                }
            }
            assert(self@.key_val_data =~= target);
        }
    }
}

/// The numeric tag of a location that is a URI.
pub const LOCATION_TYPE_URI: u8 = 3;

/// The metadata that a public mint makes for a URI: the table with its six
/// named values, no raw bytes, to be rendered.
pub open spec fn uri_metadata(
    uri: Seq<char>,
    content_hash: Seq<u8>,
    mime_type: Seq<char>,
    name: Seq<char>,
    origin: Seq<char>,
) -> MetadataPartView {
    MetadataPartView {
        purpose: MetadataPurpose::Rendered,
        key_val_data: Map::<Seq<char>, MetadataValView>::empty().insert(
            "locationType"@,
            MetadataValView::Nat8Content(LOCATION_TYPE_URI),
        ).insert("location"@, MetadataValView::TextContent(uri)).insert(
            "contentHash"@,
            MetadataValView::BlobContent(content_hash),
        ).insert("contentType"@, MetadataValView::TextContent(mime_type)).insert(
            "name"@,
            MetadataValView::TextContent(name),
        ).insert("origin"@, MetadataValView::TextContent(origin)),
        data: Seq::<u8>::empty(),
    }
}

/// Makes the metadata of a public mint from the URI and its digest.
pub fn rendered_part(
    uri: String,
    content_hash: Vec<u8>,
    mime_type: String,
    name: String,
    origin: String,
) -> (r: MetadataPart)
    ensures
        r.wf(),
        r@ == uri_metadata(uri@, content_hash@, mime_type@, name@, origin@),
{
    let mut part = MetadataPart::new(MetadataPurpose::Rendered, Vec::new());
    part.insert("locationType".to_owned(), MetadataVal::Nat8Content(LOCATION_TYPE_URI));
    part.insert("location".to_owned(), MetadataVal::TextContent(uri));
    part.insert("contentHash".to_owned(), MetadataVal::BlobContent(content_hash));
    part.insert("contentType".to_owned(), MetadataVal::TextContent(mime_type));
    part.insert("name".to_owned(), MetadataVal::TextContent(name));
    part.insert("origin".to_owned(), MetadataVal::TextContent(origin));
    part
}

} // verus!
