//! The in-memory store of transaction records, keyed by a caller-chosen identifier.
use vstd::prelude::*;
use crate::field_reader::{parse_sequence_number, sequence_field_of_text};

verus! {

/// A stored record as the contracts see it.
pub struct RecordView {
    pub raw_bcs_hex: Seq<char>,
    pub sequence_number: Option<u64>,
    pub secondary_signature_hex: Option<Seq<char>>,
    pub stored_at: u64,
}

/// A stored transaction: its hexadecimal bytes as given, the sequence number
/// read from them when stored, the secondary signer's signature once attached,
/// and when it was stored (Unix seconds).
pub struct StoredTransaction {
    pub raw_bcs_hex: String,
    pub sequence_number: Option<u64>,
    pub secondary_signature_hex: Option<String>,
    pub stored_at: u64,
}

pub open spec fn opt_text_view(s: Option<String>) -> Option<Seq<char>> {
    match s {
        Some(t) => Some(t@),
        None => None,
    }
}

impl View for StoredTransaction {
    type V = RecordView;

    open spec fn view(&self) -> RecordView {
        RecordView {
            raw_bcs_hex: self.raw_bcs_hex@,
            sequence_number: self.sequence_number,
            secondary_signature_hex: opt_text_view(self.secondary_signature_hex),
            stored_at: self.stored_at,
        }
    }
}

/// A copy of an optional text that shares nothing with it.
pub fn copy_opt_text(s: &Option<String>) -> (r: Option<String>)
    ensures
        opt_text_view(r) == opt_text_view(*s),
{
    match s {
        Some(t) => Some(t.clone()),
        None => None,
    }
}

impl StoredTransaction {
    /// A copy that shares nothing with `self`.
    pub fn snapshot(&self) -> (r: StoredTransaction)
        ensures
            r@ == self@,
    {
        StoredTransaction {
            raw_bcs_hex: self.raw_bcs_hex.clone(),
            sequence_number: self.sequence_number,
            secondary_signature_hex: copy_opt_text(&self.secondary_signature_hex),
            stored_at: self.stored_at,
        }
    }
}

/// The sequence number recorded for hexadecimal text when it is stored.
pub open spec fn recorded_sequence_number(raw: Seq<char>) -> Option<u64> {
    match sequence_field_of_text(raw) {
        Some(x) => Some(x as u64),
        None => None,
    }
}

/// The record that storing `raw` at time `now` creates: no signature yet.
pub open spec fn fresh_record(raw: Seq<char>, now: u64) -> RecordView {
    RecordView {
        raw_bcs_hex: raw,
        sequence_number: recorded_sequence_number(raw),
        secondary_signature_hex: None,
        stored_at: now,
    }
}

/// The records after storing `raw` under `id`: any earlier record there is replaced whole.
pub open spec fn after_store(
    m: Map<Seq<char>, RecordView>,
    id: Seq<char>,
    raw: Seq<char>,
    now: u64,
) -> Map<Seq<char>, RecordView> {
    m.insert(id, fresh_record(raw, now))
}

/// `r` with its signature set to `sig`, all else kept.
pub open spec fn with_signature(r: RecordView, sig: Seq<char>) -> RecordView {
    RecordView {
        raw_bcs_hex: r.raw_bcs_hex,
        sequence_number: r.sequence_number,
        secondary_signature_hex: Some(sig),
        stored_at: r.stored_at,
    }
}

/// The records after attaching `sig` to `id`: unchanged where `id` is unknown.
pub open spec fn after_attach(
    m: Map<Seq<char>, RecordView>,
    id: Seq<char>,
    sig: Seq<char>,
) -> Map<Seq<char>, RecordView> {
    if m.contains_key(id) {
        m.insert(id, with_signature(m[id], sig))
    } else {
        m
    }
}

/// No record is stored under the identifier.
#[derive(Debug, Clone, Copy, PartialEq, Eq)]
pub struct NotFound;

/// The records, at most one per identifier.
///
/// They are held in a `Vec` of (identifier, record) pairs with unique
/// identifiers rather than in a `HashMap<String, _>`: vstd models a
/// `HashMap`'s contents only for keys whose hashing it knows to agree with
/// equality (integers and `bool`), and `String` is not among them.
pub struct TransactionStore {
    entries: Vec<(String, StoredTransaction)>,
    model: Ghost<Map<Seq<char>, RecordView>>,
}

impl View for TransactionStore {
    type V = Map<Seq<char>, RecordView>;

    closed spec fn view(&self) -> Map<Seq<char>, RecordView> {
        self.model@
    }
}

impl TransactionStore {
    /// The entries hold each identifier once and agree with the model.
    pub closed spec fn wf(&self) -> bool {
        &&& forall|i: int, j: int|
            0 <= i < j < self.entries@.len() ==> self.entries@[i].0@ != self.entries@[j].0@
        &&& forall|i: int|
            0 <= i < self.entries@.len() ==> self.model@.contains_key(#[trigger] self.entries@[i].0@)
                && self.model@[self.entries@[i].0@] == self.entries@[i].1@
        &&& forall|k: Seq<char>|
            #[trigger] self.model@.contains_key(k) ==> exists|i: int|
                0 <= i < self.entries@.len() && #[trigger] self.entries@[i].0@ == k
    }

    /// An empty store.
    pub fn new() -> (r: TransactionStore)
        ensures
            r.wf(),
            r@ == Map::<Seq<char>, RecordView>::empty(),
    {
        TransactionStore { entries: Vec::new(), model: Ghost(Map::empty()) }
    }

    fn find(&self, id: &String) -> (r: Option<usize>)
        requires
            self.wf(),
        ensures
            match r {
                Some(i) => i < self.entries@.len() && self.entries@[i as int].0@ == id@,
                None => !self@.contains_key(id@),
            },
    {
        let mut i: usize = 0;
        while i < self.entries.len()
            invariant
                self.wf(),
                i <= self.entries@.len(),
                forall|j: int| 0 <= j < i ==> self.entries@[j].0@ != id@,
            decreases self.entries@.len() - i,
        {
            if self.entries[i].0 == *id {
                return Some(i);
            }
            i = i + 1;
        }
        None
    }

    /// Stores `raw_bcs_hex` under `id` at time `now`, replacing any record there,
    /// and gives the sequence number read from it (`None` if the text is not
    /// valid hexadecimal or too short).
    pub fn store(&mut self, id: String, raw_bcs_hex: String, now: u64) -> (r: Option<u64>)
        requires
            old(self).wf(),
        ensures
            final(self).wf(),
            final(self)@ == after_store(old(self)@, id@, raw_bcs_hex@, now),
            r == recorded_sequence_number(raw_bcs_hex@),
    {
        let seq = parse_sequence_number(raw_bcs_hex.as_str());
        let ghost key = id@;
        let ghost rv = fresh_record(raw_bcs_hex@, now);
        let rec = StoredTransaction {
            raw_bcs_hex,
            sequence_number: seq,
            secondary_signature_hex: None,
            stored_at: now,
        };
        assert(rec@ == rv);
        let ghost old_entries = self.entries@;
        match self.find(&id) {
            Some(i) => {
                self.entries.set(i, (id, rec));
                self.model = Ghost(self.model@.insert(key, rv));
                assert forall|k: Seq<char>| #[trigger] self.model@.contains_key(k) implies exists|j: int|
                    0 <= j < self.entries@.len() && #[trigger] self.entries@[j].0@ == k by {
                    if k != key {
                        let j = choose|j: int| 0 <= j < old_entries.len() && #[trigger] old_entries[j].0@ == k;
                        assert(self.entries@[j].0@ == k);
                    } else {
                        assert(self.entries@[i as int].0@ == k);
                    }
                }
            },
            None => {
                self.entries.push((id, rec));
                self.model = Ghost(self.model@.insert(key, rv));
                assert forall|k: Seq<char>| #[trigger] self.model@.contains_key(k) implies exists|j: int|
                    0 <= j < self.entries@.len() && #[trigger] self.entries@[j].0@ == k by {
                    if k != key {
                        let j = choose|j: int| 0 <= j < old_entries.len() && #[trigger] old_entries[j].0@ == k;
                        assert(self.entries@[j].0@ == k);
                    } else {
                        assert(self.entries@[old_entries.len() as int].0@ == k);
                    }
                }
            },
        }
        seq
    }

    /// Attaches the secondary signer's signature to the record under `id`,
    /// replacing any earlier one; `NotFound` if there is no such record.
    pub fn attach_signature(&mut self, id: &String, signature_hex: String) -> (r: Result<(), NotFound>)
        requires
            old(self).wf(),
        ensures
            final(self).wf(),
            r is Ok <==> old(self)@.contains_key(id@),
            final(self)@ == after_attach(old(self)@, id@, signature_hex@),
    {
        match self.find(id) {
            Some(i) => {
                let ghost old_entries = self.entries@;
                let ghost key = id@;
                let ghost rv = with_signature(self.model@[key], signature_hex@);
                let cur = &self.entries[i].1;
                let rec = StoredTransaction {
                    raw_bcs_hex: cur.raw_bcs_hex.clone(),
                    sequence_number: cur.sequence_number,
                    secondary_signature_hex: Some(signature_hex),
                    stored_at: cur.stored_at,
                };
                assert(rec@ == rv);
                let k = self.entries[i].0.clone();
                self.entries.set(i, (k, rec));
                self.model = Ghost(self.model@.insert(key, rv));
                assert forall|k: Seq<char>| #[trigger] self.model@.contains_key(k) implies exists|j: int|
                    0 <= j < self.entries@.len() && #[trigger] self.entries@[j].0@ == k by {
                    let j = choose|j: int| 0 <= j < old_entries.len() && #[trigger] old_entries[j].0@ == k;
                    assert(self.entries@[j].0@ == k);
                }
                Ok(())
            },
            None => Err(NotFound),
        }
    }

    /// A copy of the record under `id`, or `None` if there is none.
    pub fn get(&self, id: &String) -> (r: Option<StoredTransaction>)
        requires
            self.wf(),
        ensures
            r is Some <==> self@.contains_key(id@),
            r matches Some(t) ==> t@ == self@[id@],
    {
        match self.find(id) {
            Some(i) => Some(self.entries[i].1.snapshot()),
            None => None,
        }
    }
}

} // verus!
