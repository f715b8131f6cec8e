use vstd::prelude::*;

use crate::handle::{handle_for, handle_of, lemma_handle_injective};
use crate::session::{EntryRecord, OpenMode};

verus! {

/// An entry of the in-memory download collection.
#[derive(Debug)]
pub struct StoredEntry {
    pub id: u64,
    pub uri: String,
    pub record: EntryRecord,
    pub content: Vec<u8>,
}

/// A call received by the provider, in the order received.
#[derive(Debug, Clone, Copy, PartialEq, Eq, Structural)]
pub enum ProviderCall {
    Insert,
    OpenOutputStream(OpenMode),
    Update,
}

/// A deterministic in-memory content provider: entries get identifiers in
/// increasing order, and every call it receives is logged.
#[derive(Debug)]
pub struct MemoryProvider {
    pub entries: Vec<StoredEntry>,
    pub calls: Vec<ProviderCall>,
    pub next_id: u64,
}

/// `a` and `b` are the same entry, whatever their content.
pub open spec fn same_identity(a: StoredEntry, b: StoredEntry) -> bool {
    a.id == b.id && a.uri == b.uri && a.record == b.record
}

/// `after` holds the entries of `before` and one new empty entry, with handle
/// `h`, the handle of the next identifier.
pub open spec fn begun(before: MemoryProvider, after: MemoryProvider, h: Seq<char>) -> bool {
    &&& after.entries@.len() == before.entries@.len() + 1
    &&& after.entries@.drop_last() == before.entries@
    &&& after.entries@.last().id == before.next_id
    &&& after.entries@.last().uri@ == h
    &&& h == handle_of(before.next_id as nat)
    &&& after.entries@.last().content@ == Seq::<u8>::empty()
    &&& after.next_id == before.next_id + 1
}

/// The content of entry `i` became `data` (when truncating) or its old content
/// followed by `data` (when appending); nothing else changed.
pub open spec fn written_at(
    before: MemoryProvider,
    after: MemoryProvider,
    i: int,
    mode: OpenMode,
    data: Seq<u8>,
) -> bool {
    &&& 0 <= i < before.entries@.len()
    &&& after.entries@.len() == before.entries@.len()
    &&& forall|j: int| 0 <= j < before.entries@.len() && j != i ==> after.entries@[j] == before.entries@[j]
    &&& same_identity(after.entries@[i], before.entries@[i])
    &&& after.entries@[i].content@ == match mode {
        OpenMode::Truncate => data,
        OpenMode::Append => before.entries@[i].content@ + data,
    }
    &&& after.next_id == before.next_id
}

/// The pending flag of entry `i` was cleared; nothing else changed.
pub open spec fn published_at(before: MemoryProvider, after: MemoryProvider, i: int) -> bool {
    let (a, b) = (after.entries@[i], before.entries@[i]);
    &&& 0 <= i < before.entries@.len()
    &&& after.entries@.len() == before.entries@.len()
    &&& forall|j: int| 0 <= j < before.entries@.len() && j != i ==> after.entries@[j] == before.entries@[j]
    &&& a.id == b.id && a.uri == b.uri && a.content == b.content
    &&& a.record.display_name == b.record.display_name
    &&& a.record.mime_type == b.record.mime_type
    &&& a.record.relative_path == b.record.relative_path
    &&& !a.record.pending
    &&& after.next_id == before.next_id
}

impl MemoryProvider {
    /// Each entry's handle is the handle of its identifier; identifiers
    /// increase along the collection and stay below the next one.
    pub open spec fn wf(&self) -> bool {
        &&& forall|i: int| 0 <= i < self.entries@.len() ==> #[trigger] self.entries@[i].uri@ == handle_of(self.entries@[i].id as nat)
        &&& forall|i: int| 0 <= i < self.entries@.len() ==> #[trigger] self.entries@[i].id < self.next_id
        &&& forall|i: int, j: int| #![trigger self.entries@[i], self.entries@[j]] 0 <= i < j < self.entries@.len() ==> self.entries@[i].id < self.entries@[j].id
    }

    /// Some entry of the collection has handle `uri`.
    pub open spec fn has_handle(&self, uri: Seq<char>) -> bool {
        exists|i: int| 0 <= i < self.entries@.len() && #[trigger] self.entries@[i].uri@ == uri
    }

    /// At most one entry has a given handle.
    pub proof fn lemma_handles_unique(&self, i: int, j: int)
        requires
            self.wf(),
            0 <= i < self.entries@.len(),
            0 <= j < self.entries@.len(),
            self.entries@[i].uri@ == self.entries@[j].uri@,
        ensures
            i == j,
    {
        lemma_handle_injective(self.entries@[i].id as nat, self.entries@[j].id as nat);
    }

    /// An empty collection whose first entry gets identifier `first_id`.
    pub fn new(first_id: u64) -> (r: MemoryProvider)
        ensures
            r.wf(),
            r.entries@.len() == 0,
            r.calls@.len() == 0,
            r.next_id == first_id,
    {
        MemoryProvider { entries: Vec::new(), calls: Vec::new(), next_id: first_id }
    }

    /// Index of the entry with handle `uri`, if any.
    pub fn find(&self, uri: &String) -> (r: Option<usize>)
        ensures
            match r {
                Some(i) => i < self.entries@.len() && self.entries@[i as int].uri@ == uri@,
                None => !self.has_handle(uri@),
            },
    {
        let mut i: usize = 0;
        while i < self.entries.len()
            invariant
                0 <= i <= self.entries@.len(),
                forall|j: int| 0 <= j < i ==> self.entries@[j].uri@ != uri@,
            decreases self.entries@.len() - i,
        {
            if self.entries[i].uri == *uri {
                return Some(i);
            }
            i += 1;
        }
        None
    }

    /// Inserts a new entry with `record` and no content; `None` once the
    /// identifiers are used up.
    pub fn insert(&mut self, record: EntryRecord) -> (r: Option<String>)
        requires
            old(self).wf(),
        ensures
            final(self).wf(),
            final(self).calls@ == old(self).calls@.push(ProviderCall::Insert),
            r is None <==> old(self).next_id == u64::MAX,
            r is None ==> final(self).entries@ == old(self).entries@ && final(self).next_id == old(self).next_id,
            r is Some ==> begun(*old(self), *final(self), r->Some_0@) && final(self).entries@.last().record == record,
    {
        self.calls.push(ProviderCall::Insert);
        if self.next_id == u64::MAX {
            return None;
        }
        let id = self.next_id;
        let uri = handle_for(id);
        let entry = StoredEntry { id, uri: uri.clone(), record, content: Vec::new() };
        self.entries.push(entry);
        self.next_id = id + 1;
        assert(self.entries@.drop_last() =~= old(self).entries@);
        Some(uri)
    }

    /// Opens entry `uri` for writing: truncating drops its content. `None`
    /// when no entry has that handle.
    pub fn open_output_stream(&mut self, uri: &String, mode: OpenMode) -> (r: Option<usize>)
        requires
            old(self).wf(),
        ensures
            final(self).wf(),
            final(self).calls@ == old(self).calls@.push(ProviderCall::OpenOutputStream(mode)),
            final(self).next_id == old(self).next_id,
            r is None <==> !old(self).has_handle(uri@),
            r is None ==> final(self).entries@ == old(self).entries@,
            r is Some ==> old(self).entries@[r->Some_0 as int].uri@ == uri@
                && written_at(*old(self), *final(self), r->Some_0 as int, mode, Seq::<u8>::empty()),
    {
        self.calls.push(ProviderCall::OpenOutputStream(mode));
        match self.find(uri) {
            None => None,
            Some(i) => {
                if mode == OpenMode::Truncate {
                    let mut e = self.entries.remove(i);
                    e.content = Vec::new();
                    self.entries.insert(i, e);
                }
                assert(self.entries@[i as int].content@ =~= match mode {
                    OpenMode::Truncate => Seq::<u8>::empty(),
                    OpenMode::Append => old(self).entries@[i as int].content@ + Seq::<u8>::empty(),
                });
                Some(i)
            },
        }
    }

    /// Writes `data` at the end of the content of the entry at `index`.
    pub fn write_stream(&mut self, index: usize, data: Vec<u8>)
        requires
            old(self).wf(),
            index < old(self).entries@.len(),
        ensures
            final(self).wf(),
            final(self).calls@ == old(self).calls@,
            written_at(*old(self), *final(self), index as int, OpenMode::Append, data@),
    {
        let mut data = data;
        let mut e = self.entries.remove(index);
        e.content.append(&mut data);
        self.entries.insert(index, e);
    }

    /// Sets the pending flag of entry `uri`; the number of entries changed.
    pub fn update_pending(&mut self, uri: &String, pending: bool) -> (r: usize)
        requires
            old(self).wf(),
        ensures
            final(self).wf(),
            final(self).calls@ == old(self).calls@.push(ProviderCall::Update),
            final(self).next_id == old(self).next_id,
            r == 0 <==> !old(self).has_handle(uri@),
            r == 0 ==> final(self).entries@ == old(self).entries@,
            r != 0 ==> r == 1 && exists|i: int| #![auto] old(self).entries@[i].uri@ == uri@
                && final(self).entries@[i].record.pending == pending,
            !pending && r != 0 ==> forall|i: int| 0 <= i < old(self).entries@.len() && #[trigger] old(self).entries@[i].uri@ == uri@
                ==> published_at(*old(self), *final(self), i),
    {
        self.calls.push(ProviderCall::Update);
        match self.find(uri) {
            None => 0,
            Some(i) => {
                let mut e = self.entries.remove(i);
                e.record.pending = pending;
                self.entries.insert(i, e);
                assert forall|k: int| 0 <= k < old(self).entries@.len() && #[trigger] old(self).entries@[k].uri@ == uri@
                    implies k == i as int by {
                    old(self).lemma_handles_unique(k, i as int);
                }
                1
            },
        }
    }
}

} // verus!
