//! Artifacts: binary objects under stable keys, and the store that holds them.
//!
//! Keys are derived from the identifier of the object and the directory of
//! its kind. A write never replaces an object that is already present.

use vstd::prelude::*;
use vstd::string::StringExecFns;

verus! {

/// Key of the program image with the given image id.
pub open spec fn elf_key(image_id: Seq<char>) -> Seq<char> {
    "elfs/"@ + image_id
}

/// Key of the input with the given id.
pub open spec fn input_key(input_id: Seq<char>) -> Seq<char> {
    "inputs/"@ + input_id
}

/// Key of the receipt of the given job among the STARK receipts.
pub open spec fn stark_receipt_key(id: Seq<char>) -> Seq<char> {
    "receipts/stark/"@ + id + ".bincode"@
}

/// Key of the receipt of the given job among the Groth16 receipts.
pub open spec fn groth16_receipt_key(id: Seq<char>) -> Seq<char> {
    "receipts/groth16/"@ + id + ".bincode"@
}

/// Builds [`elf_key`].
pub fn make_elf_key(image_id: &str) -> (key: String)
    ensures
        key@ == elf_key(image_id@),
{
    String::from_str("elfs/").concat(image_id)
}

/// Builds [`input_key`].
pub fn make_input_key(input_id: &str) -> (key: String)
    ensures
        key@ == input_key(input_id@),
{
    String::from_str("inputs/").concat(input_id)
}

/// Builds [`stark_receipt_key`].
pub fn make_stark_receipt_key(id: &str) -> (key: String)
    ensures
        key@ == stark_receipt_key(id@),
{
    String::from_str("receipts/stark/").concat(id).concat(".bincode")
}

/// Builds [`groth16_receipt_key`].
pub fn make_groth16_receipt_key(id: &str) -> (key: String)
    ensures
        key@ == groth16_receipt_key(id@),
{
    String::from_str("receipts/groth16/").concat(id).concat(".bincode")
}

/// A binary object to be stored under a key.
#[derive(Debug, PartialEq, Eq)]
pub struct Artifact {
    pub key: String,
    pub bytes: Vec<u8>,
}

impl View for Artifact {
    type V = (Seq<char>, Seq<u8>);

    open spec fn view(&self) -> (Seq<char>, Seq<u8>) {
        (self.key@, self.bytes@)
    }
}

/// The keys and contents of a list of artifacts, in order.
pub open spec fn artifacts_view(v: Seq<Artifact>) -> Seq<(Seq<char>, Seq<u8>)> {
    Seq::new(v.len(), |i: int| v[i]@)
}

/// The store after a write that respects objects already present: a key
/// that is taken keeps its content, a free key receives `bytes`.
pub open spec fn put_new(
    store: Map<Seq<char>, Seq<u8>>,
    key: Seq<char>,
    bytes: Seq<u8>,
) -> Map<Seq<char>, Seq<u8>> {
    if store.contains_key(key) {
        store
    } else {
        store.insert(key, bytes)
    }
}

/// The store after the given writes, each respecting objects already present.
pub open spec fn put_all_new(
    store: Map<Seq<char>, Seq<u8>>,
    writes: Seq<(Seq<char>, Seq<u8>)>,
) -> Map<Seq<char>, Seq<u8>>
    decreases writes.len(),
{
    if writes.len() == 0 {
        store
    } else {
        put_new(put_all_new(store, writes.drop_last()), writes.last().0, writes.last().1)
    }
}

/// Writing is idempotent: after a write under a key, a second write under
/// the same key, with the same or any other bytes, leaves the store as it is.
pub proof fn lemma_second_write_changes_nothing(
    store: Map<Seq<char>, Seq<u8>>,
    key: Seq<char>,
    first: Seq<u8>,
    second: Seq<u8>,
)
    ensures
        put_new(put_new(store, key, first), key, second) == put_new(store, key, first),
        put_new(put_new(store, key, first), key, first) == put_new(store, key, first),
{
}

/// Whether the decision to upload is taken for an object: only where the
/// store does not hold its key yet.
pub fn should_write(already_stored: bool) -> (write: bool)
    ensures
        write == !already_stored,
{
    !already_stored
}

/// An in-memory artifact store.
pub struct ArtifactStore {
    objects: Vec<Artifact>,
}

impl ArtifactStore {
    /// No key is held twice.
    pub closed spec fn wf(&self) -> bool {
        forall|i: int, j: int|
            0 <= i < j < self.objects@.len() ==> self.objects@[i].key@ != self.objects@[j].key@
    }

    spec fn holds_at(&self, key: Seq<char>, i: int) -> bool {
        0 <= i < self.objects@.len() && self.objects@[i].key@ == key
    }

    /// The content of the store: the bytes under each key.
    pub closed spec fn view(&self) -> Map<Seq<char>, Seq<u8>> {
        Map::new(
            |k: Seq<char>| exists|i: int| self.holds_at(k, i),
            |k: Seq<char>| self.objects@[choose|i: int| self.holds_at(k, i)].bytes@,
        )
    }

    /// An empty store.
    pub fn new() -> (store: Self)
        ensures
            store.wf(),
            store@ == Map::<Seq<char>, Seq<u8>>::empty(),
    {
        let store = ArtifactStore { objects: Vec::new() };
        store
    }

    fn position(&self, key: &String) -> (at: Option<usize>)
        ensures
            match at {
                Some(i) => self.holds_at(key@, i as int),
                None => forall|i: int| !self.holds_at(key@, i),
            },
    {
        let mut i: usize = 0;
        while i < self.objects.len()
            invariant
                i <= self.objects@.len(),
                forall|j: int| 0 <= j < i ==> self.objects@[j].key@ != key@,
            decreases self.objects@.len() - i,
        {
            if self.objects[i].key == *key {
                return Some(i);
            }
            i += 1;
        }
        None
    }

    /// Whether an object is stored under `key`.
    pub fn object_exists(&self, key: &str) -> (present: bool)
        requires
            self.wf(),
        ensures
            present == self@.contains_key(key@),
    {
        let k = String::from_str(key);
        self.position(&k).is_some()
    }

    /// The bytes stored under `key`, if any.
    pub fn read(&self, key: &str) -> (bytes: Option<Vec<u8>>)
        requires
            self.wf(),
        ensures
            match bytes {
                Some(b) => self@.contains_key(key@) && b@ == self@[key@],
                None => !self@.contains_key(key@),
            },
    {
        let k = String::from_str(key);
        match self.position(&k) {
            Some(i) => Some(self.objects[i].bytes.clone()),
            None => None,
        }
    }

    /// Stores `bytes` under `key` unless the key is taken; says whether the
    /// object was written.
    pub fn write_if_absent(&mut self, key: &str, bytes: Vec<u8>) -> (written: bool)
        requires
            old(self).wf(),
        ensures
            final(self).wf(),
            written == !old(self)@.contains_key(key@),
            final(self)@ == put_new(old(self)@, key@, bytes@),
    {
        let k = String::from_str(key);
        match self.position(&k) {
            Some(_) => false,
            None => {
                let ghost before = *self;
                self.objects.push(Artifact { key: k, bytes });
                proof {
                    let n = before.objects@.len() as int;
                    assert forall|i: int, j: int| 0 <= i < j < self.objects@.len() implies
                        self.objects@[i].key@ != self.objects@[j].key@ by {
                        if j == n {
                            assert(!before.holds_at(key@, i));
                        }
                    }
                    assert(self.holds_at(key@, n));
                    assert forall|q: Seq<char>| #[trigger]
                        self@.contains_key(q) == before@.insert(key@, bytes@).contains_key(q) by {
                        if before@.contains_key(q) {
                            let i = choose|i: int| before.holds_at(q, i);
                            assert(self.holds_at(q, i));
                        }
                        if self@.contains_key(q) && q != key@ {
                            let i = choose|i: int| self.holds_at(q, i);
                            assert(before.holds_at(q, i));
                        }
                    }
                }
                true
            },
        }
    }

    /// Removes the object under `key`, if there is one.
    pub fn delete(&mut self, key: &str)
        requires
            old(self).wf(),
        ensures
            final(self).wf(),
            final(self)@ == old(self)@.remove(key@),
    {
        let k = String::from_str(key);
        let ghost before = *self;
        match self.position(&k) {
            Some(at) => {
                let _ = self.objects.remove(at);
                proof {
                    let p = at as int;
                    assert forall|q: Seq<char>| #[trigger]
                        self@.contains_key(q) == before@.remove(key@).contains_key(q) by {
                        if before@.contains_key(q) && q != key@ {
                            let i = choose|i: int| before.holds_at(q, i);
                            if i < p {
                                assert(self.holds_at(q, i));
                            } else {
                                assert(self.holds_at(q, i - 1));
                            }
                        }
                        if self@.contains_key(q) {
                            let i = choose|i: int| self.holds_at(q, i);
                            if i < p {
                                assert(before.holds_at(q, i));
                            } else {
                                assert(before.holds_at(q, i + 1));
                            }
                        }
                    }
                }
            },
            None => {},
        }
    }
}

} // verus!
