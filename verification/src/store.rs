use vstd::prelude::*;
use vstd::map::*;

use crate::document::Document;
use crate::errors::WorldError;
use crate::ids::{FileIdentity, IdView};

verus! {

/// A (file, page) cursor: what is currently on screen. Created by an
/// explicit open operation, which always starts at page 0.
#[derive(Debug)]
pub struct GraphBuffer {
    /// The page of the compiled document to display.
    pub page: usize,
    /// The identity of the file being viewed.
    pub note_id: FileIdentity,
}

/// Do all documents of `s` carry pairwise distinct identities?
pub(crate) open spec fn seq_wf(s: Seq<Document>) -> bool {
    forall|i: int, j: int|
        0 <= i < j < s.len() ==> (#[trigger] s[i])@.id != (#[trigger] s[j])@.id
}

/// Does some document of `s` carry the identity `id`?
pub(crate) open spec fn seq_contains_id(s: Seq<Document>, id: IdView) -> bool {
    exists|i: int| 0 <= i < s.len() && (#[trigger] s[i])@.id == id
}

/// The position of the document of `s` carrying `id` (unique when `seq_wf`).
pub(crate) open spec fn seq_index_of(s: Seq<Document>, id: IdView) -> int {
    choose|i: int| 0 <= i < s.len() && (#[trigger] s[i])@.id == id
}

/// The mapping from identities to texts that `s` represents.
pub(crate) open spec fn seq_to_map(s: Seq<Document>) -> Map<IdView, Seq<char>> {
    Map::new(|id: IdView| seq_contains_id(s, id), |id: IdView| s[seq_index_of(s, id)]@.text)
}

/// Under `seq_wf`, a witness position for `id` is the position `seq_index_of`
/// picks, and the represented map holds that document's text at `id`.
pub(crate) proof fn lemma_index_unique(s: Seq<Document>, i: int, id: IdView)
    requires
        seq_wf(s),
        0 <= i < s.len(),
        s[i]@.id == id,
    ensures
        seq_contains_id(s, id),
        seq_index_of(s, id) == i,
        seq_to_map(s).contains_key(id),
        seq_to_map(s)[id] == s[i]@.text,
{
    assert(seq_contains_id(s, id));
    let j = seq_index_of(s, id);
    assert(0 <= j < s.len() && s[j]@.id == id);
    if i < j {
        assert(s[i]@.id != s[j]@.id);
    } else if j < i {
        assert(s[j]@.id != s[i]@.id);
    }
}

/// Appending a document with a fresh identity inserts its text into the
/// represented map and keeps the identities distinct.
pub(crate) proof fn lemma_seq_push(s: Seq<Document>, d: Document)
    requires
        seq_wf(s),
        !seq_contains_id(s, d@.id),
    ensures
        seq_wf(s.push(d)),
        seq_to_map(s.push(d)) == seq_to_map(s).insert(d@.id, d@.text),
{
    let t = s.push(d);
    assert forall|i: int, j: int| 0 <= i < j < t.len() implies (#[trigger] t[i])@.id != (
    #[trigger] t[j])@.id by {
        if j < s.len() {
            assert(t[i] == s[i] && t[j] == s[j]);
        } else {
            assert(t[j] == d);
            assert(t[i] == s[i]);
            if s[i]@.id == d@.id {
                lemma_index_unique(s, i, d@.id);
            }
        }
    }
    assert_maps_equal!(seq_to_map(s.push(d)), seq_to_map(s).insert(d@.id, d@.text), id: IdView => {
        if id == d@.id {
            lemma_index_unique(t, s.len() as int, id);
        } else {
            if seq_contains_id(s, id) {
                let i = seq_index_of(s, id);
                assert(0 <= i < s.len() && s[i]@.id == id);
                assert(t[i] == s[i]);
                lemma_index_unique(t, i, id);
                lemma_index_unique(s, i, id);
            }
            if seq_contains_id(t, id) {
                let i = seq_index_of(t, id);
                assert(0 <= i < t.len() && t[i]@.id == id);
                assert(i < s.len() ==> t[i] == s[i]);
                if i < s.len() {
                    lemma_index_unique(s, i, id);
                }
            }
        }
    });
}

/// Overwriting the document at a position with one of the same identity
/// replaces that identity's text in the represented map.
pub(crate) proof fn lemma_seq_update(s: Seq<Document>, i: int, d: Document)
    requires
        seq_wf(s),
        0 <= i < s.len(),
        s[i]@.id == d@.id,
    ensures
        seq_wf(s.update(i, d)),
        seq_to_map(s.update(i, d)) == seq_to_map(s).insert(d@.id, d@.text),
{
    let t = s.update(i, d);
    assert forall|p: int, q: int| 0 <= p < q < t.len() implies (#[trigger] t[p])@.id != (
    #[trigger] t[q])@.id by {
        assert(p != i ==> t[p] == s[p]);
        assert(q != i ==> t[q] == s[q]);
        assert(t[i]@.id == s[i]@.id);
    }
    assert_maps_equal!(seq_to_map(s.update(i, d)), seq_to_map(s).insert(d@.id, d@.text), id: IdView => {
        if id == d@.id {
            lemma_index_unique(t, i, id);
        } else {
            if seq_contains_id(s, id) {
                let p = seq_index_of(s, id);
                assert(0 <= p < s.len() && s[p]@.id == id);
                assert(p != i);
                assert(t[p] == s[p]);
                lemma_index_unique(t, p, id);
                lemma_index_unique(s, p, id);
            }
            if seq_contains_id(t, id) {
                let p = seq_index_of(t, id);
                assert(0 <= p < t.len() && t[p]@.id == id);
                assert(p != i);
                assert(t[p] == s[p]);
                lemma_index_unique(s, p, id);
            }
        }
    });
}

/// The virtual file store: a mapping from file identities to documents.
///
/// Keys are unique and insertion order is irrelevant; its mathematical
/// image is the map from each identity to the text stored under it.
/// Documents are created at seeding or by upsert and never deleted.
pub struct FileStore {
    docs: Vec<Document>,
}

impl View for FileStore {
    type V = Map<IdView, Seq<char>>;

    closed spec fn view(&self) -> Map<IdView, Seq<char>> {
        seq_to_map(self.docs@)
    }
}

impl FileStore {
    #[verifier::type_invariant]
    spec fn wf(self) -> bool {
        seq_wf(self.docs@)
    }

    /// Creates an empty store.
    pub fn new() -> (r: FileStore)
        ensures
            r@ == Map::<IdView, Seq<char>>::empty(),
    {
        let r = FileStore { docs: Vec::new() };
        proof {
            assert_maps_equal!(r@, Map::<IdView, Seq<char>>::empty(), id: IdView => {});
        }
        r
    }

    /// The position of the document carrying `id`, if any.
    fn position_of(&self, id: &FileIdentity) -> (r: Option<usize>)
        ensures
            r matches Some(i) ==> i < self.docs@.len() && self.docs@[i as int]@.id == id@,
            r is None ==> !self@.contains_key(id@),
            r is Some ==> self@.contains_key(id@),
    {
        proof {
            use_type_invariant(self);
        }
        let n = self.docs.len();
        let mut i: usize = 0;
        while i < n
            invariant
                n == self.docs@.len(),
                i <= n,
                seq_wf(self.docs@),
                forall|k: int| 0 <= k < i ==> (#[trigger] self.docs@[k])@.id != id@,
            decreases n - i,
        {
            if self.docs[i].id().same_as(id) {
                proof {
                    lemma_index_unique(self.docs@, i as int, id@);
                }
                return Some(i);
            }
            i += 1;
        }
        proof {
            assert(!seq_contains_id(self.docs@, id@));
        }
        None
    }

    /// Looks the identity up and hands back the stored document, or
    /// `None` if the identity is unknown.
    pub fn get(&self, id: &FileIdentity) -> (r: Option<&Document>)
        ensures
            r is Some <==> self@.contains_key(id@),
            r matches Some(d) ==> d@.id == id@ && d@.text == self@[id@],
    {
        proof {
            use_type_invariant(self);
        }
        match self.position_of(id) {
            Option::Some(i) => {
                proof {
                    lemma_index_unique(self.docs@, i as int, id@);
                }
                Option::Some(&self.docs[i])
            },
            Option::None => Option::None,
        }
    }

    /// Is the identity present in the store?
    pub fn contains(&self, id: &FileIdentity) -> (r: bool)
        ensures
            r == self@.contains_key(id@),
    {
        self.position_of(id).is_some()
    }

    /// Upsert: if `id` exists its text is overwritten, otherwise a new
    /// document is created. There is no error condition.
    pub fn insert_or_replace(&mut self, id: FileIdentity, content: &str)
        ensures
            final(self)@ == old(self)@.insert(id@, content@),
    {
        proof {
            use_type_invariant(&*self);
        }
        let position = self.position_of(&id);
        let mut docs: Vec<Document> = Vec::new();
        std::mem::swap(&mut docs, &mut self.docs);
        let ghost original = docs@;
        match position {
            Option::Some(i) => {
                docs[i].replace(content);
                proof {
                    let d = docs@[i as int];
                    lemma_seq_update(original, i as int, d);
                    assert(docs@ =~= original.update(i as int, d));
                }
            },
            Option::None => {
                let d = Document::new(id, content.to_owned());
                proof {
                    lemma_seq_push(original, d);
                }
                docs.push(d);
            },
        }
        self.docs = docs;
    }

    /// A point-in-time snapshot of every identity in the store: each
    /// listed identity is present, every present identity is listed, and
    /// no identity is listed twice.
    pub fn list_ids(&self) -> (r: Vec<FileIdentity>)
        ensures
            forall|k: int| 0 <= k < r@.len() ==> self@.contains_key((#[trigger] r@[k])@),
            forall|id: IdView| #[trigger] self@.contains_key(id) ==> exists|k: int|
                0 <= k < r@.len() && (#[trigger] r@[k])@ == id,
            forall|k1: int, k2: int|
                0 <= k1 < k2 < r@.len() ==> (#[trigger] r@[k1])@ != (#[trigger] r@[k2])@,
    {
        proof {
            use_type_invariant(self);
        }
        let n = self.docs.len();
        let mut r: Vec<FileIdentity> = Vec::new();
        let mut i: usize = 0;
        while i < n
            invariant
                n == self.docs@.len(),
                i <= n,
                seq_wf(self.docs@),
                r@.len() == i,
                forall|k: int| 0 <= k < i ==> (#[trigger] r@[k])@ == self.docs@[k]@.id,
            decreases n - i,
        {
            r.push(self.docs[i].id().clone());
            i += 1;
        }
        proof {
            assert forall|k: int| 0 <= k < r@.len() implies self@.contains_key(
                (#[trigger] r@[k])@,
            ) by {
                lemma_index_unique(self.docs@, k, self.docs@[k]@.id);
            }
            assert forall|id: IdView| #[trigger] self@.contains_key(id) implies exists|k: int|
                0 <= k < r@.len() && (#[trigger] r@[k])@ == id by {
                let i = seq_index_of(self.docs@, id);
                assert(0 <= i < self.docs@.len() && self.docs@[i]@.id == id);
                assert((r@[i])@ == id);
            }
        }
        r
    }

    /// Validates that `id` exists and returns a cursor at page 0, or
    /// `NotFound` for an unknown identity.
    pub fn open(&self, id: &FileIdentity) -> (r: Result<GraphBuffer, WorldError>)
        ensures
            r is Ok <==> self@.contains_key(id@),
            r matches Ok(b) ==> b.page == 0 && b.note_id@ == id@,
            r matches Err(e) ==> e is NotFound,
    {
        if self.contains(id) {
            Result::Ok(GraphBuffer { page: 0, note_id: id.clone() })
        } else {
            Result::Err(WorldError::NotFound)
        }
    }
}

/// Law: a store round-trip. A text just written under an identity is
/// exactly what a read of that identity hands back.
pub proof fn lemma_store_round_trip(m: Map<IdView, Seq<char>>, id: IdView, text: Seq<char>)
    ensures
        m.insert(id, text).contains_key(id),
        m.insert(id, text)[id] == text,
{
}

} // verus!
