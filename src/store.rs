use vstd::prelude::*;

use crate::classify::{classification_of, classify, label_of, Category};
use crate::event::{tags_of, NostrEvent};
use crate::wire::{encode_tags, json_tag_list};

verus! {

/// An event together with the category and reference it was filed under.
pub struct ClassifiedRecord {
    pub event: NostrEvent,
    pub category: Category,
    pub reference: Option<String>,
}

/// A record in the shape it is persisted in: the tag list as JSON text and
/// the category as its folder name.
pub struct StoredRow {
    pub event_id: String,
    pub pubkey: String,
    pub created_at: u64,
    pub kind: u64,
    pub content: String,
    pub sig: String,
    pub tags: String,
    pub folder: String,
    pub ref_event: Option<String>,
}

impl ClassifiedRecord {
    /// The persisted shape of this record.
    pub fn to_row(&self) -> (row: StoredRow)
        ensures
            row.event_id == self.event.id,
            row.pubkey == self.event.pubkey,
            row.created_at == self.event.created_at,
            row.kind == self.event.kind,
            row.content == self.event.content,
            row.sig == self.event.sig,
            row.tags@ == json_tag_list(self.event.tags.deep_view()),
            row.folder@ == label_of(self.category),
            row.ref_event == self.reference,
    {
        let tags = encode_tags(&self.event.tags);
        let ref_event = match &self.reference {
            Some(x) => Some(x.clone()),
            None => None,
        };
        StoredRow {
            event_id: self.event.id.clone(),
            pubkey: self.event.pubkey.clone(),
            created_at: self.event.created_at,
            kind: self.event.kind,
            content: self.event.content.clone(),
            sig: self.event.sig.clone(),
            tags,
            folder: String::from_str(self.category.label()),
            ref_event,
        }
    }
}

/// `r` is the record that classifying `event` yields.
pub open spec fn is_record_of(r: ClassifiedRecord, event: NostrEvent) -> bool {
    &&& r.event == event
    &&& classification_of(event.kind, tags_of(event)) == Some(
        (r.category, r.reference.deep_view()),
    )
}

/// Classifies `event` and, unless it is dropped, makes the record to store.
pub fn make_record(event: NostrEvent) -> (r: Option<ClassifiedRecord>)
    ensures
        classification_of(event.kind, tags_of(event)) is None <==> r is None,
        r matches Some(rec) ==> is_record_of(rec, event),
{
    match classify(&event) {
        Some(c) => Some(ClassifiedRecord { event, category: c.category, reference: c.reference }),
        None => None,
    }
}

/// The key a record is looked up by within `category`: the author for user
/// metadata, the event identifier otherwise.
pub open spec fn identity_key(r: ClassifiedRecord) -> Seq<char> {
    if r.category == Category::UserMetadata {
        r.event.pubkey@
    } else {
        r.event.id@
    }
}

pub open spec fn identity_matches(r: ClassifiedRecord, category: Category, key: Seq<char>) -> bool {
    r.category == category && identity_key(r) == key
}

pub open spec fn reference_matches(
    r: ClassifiedRecord,
    category: Category,
    reference: Seq<char>,
) -> bool {
    r.category == category && r.reference.deep_view() == Some(reference)
}

/// The records of `rs` filed under `category` that refer to `reference`, in order.
pub open spec fn referring(rs: Seq<ClassifiedRecord>, category: Category, reference: Seq<char>) -> Seq<
    ClassifiedRecord,
>
    decreases rs.len(),
{
    if rs.len() == 0 {
        Seq::empty()
    } else {
        let rest = referring(rs.drop_last(), category, reference);
        if reference_matches(rs.last(), category, reference) {
            rest.push(rs.last())
        } else {
            rest
        }
    }
}

/// Some record of `rs` has identifier `id`.
pub open spec fn has_id(rs: Seq<ClassifiedRecord>, id: Seq<char>) -> bool {
    exists|i: int| 0 <= i < rs.len() && (#[trigger] rs[i]).event.id@ == id
}

/// No two records of `rs` share an identifier.
pub open spec fn unique_ids(rs: Seq<ClassifiedRecord>) -> bool {
    forall|i: int, j: int|
        0 <= i < j < rs.len() ==> (#[trigger] rs[i]).event.id@ != (#[trigger] rs[j]).event.id@
}

/// The records after `rec` is put: unchanged when its identifier is there already.
pub open spec fn after_put(rs: Seq<ClassifiedRecord>, rec: ClassifiedRecord) -> Seq<ClassifiedRecord> {
    if has_id(rs, rec.event.id@) {
        rs
    } else {
        rs.push(rec)
    }
}

proof fn lemma_put_keeps_unique(rs: Seq<ClassifiedRecord>, rec: ClassifiedRecord)
    requires
        unique_ids(rs),
    ensures
        unique_ids(after_put(rs, rec)),
        has_id(after_put(rs, rec), rec.event.id@),
{
    let out = after_put(rs, rec);
    if !has_id(rs, rec.event.id@) {
        assert forall|i: int, j: int|
            0 <= i < j < out.len() implies (#[trigger] out[i]).event.id@
                != (#[trigger] out[j]).event.id@ by {
            if j == out.len() - 1 {
                assert(rs[i] == out[i]);
            }
        }
        assert(out[rs.len() as int] == rec);
    }
}

/// Putting a record and then another with the same identifier stores it once:
/// the second put finds the identifier, changes nothing, and so reports false;
/// when the identifier was new, the first put stored the first record, and it
/// is the only record under that identifier.
pub proof fn put_twice_keeps_first(rs: Seq<ClassifiedRecord>, a: ClassifiedRecord, b: ClassifiedRecord)
    requires
        unique_ids(rs),
        a.event.id@ == b.event.id@,
    ensures
        has_id(after_put(rs, a), b.event.id@),
        after_put(after_put(rs, a), b) == after_put(rs, a),
        unique_ids(after_put(after_put(rs, a), b)),
        !has_id(rs, a.event.id@) ==> {
            &&& after_put(rs, a) == rs.push(a)
            &&& forall|i: int|
                0 <= i < after_put(rs, a).len() && (#[trigger] after_put(rs, a)[i]).event.id@
                    == a.event.id@ ==> after_put(rs, a)[i] == a
        },
{
    lemma_put_keeps_unique(rs, a);
    let once = after_put(rs, a);
    if !has_id(rs, a.event.id@) {
        assert forall|i: int|
            0 <= i < once.len() && (#[trigger] once[i]).event.id@ == a.event.id@ implies once[i]
                == a by {
            if i < rs.len() {
                assert(rs[i] == once[i]);
            }
        }
    }
}

/// Stored records, each identifier at most once; the first record stored
/// under an identifier is kept. This is the model of the persisted event
/// table, whose identifier column is its primary key and whose inserts ignore
/// a row whose identifier is already there.
pub struct RecordStore {
    records: Vec<ClassifiedRecord>,
}

impl View for RecordStore {
    type V = Seq<ClassifiedRecord>;

    closed spec fn view(&self) -> Seq<ClassifiedRecord> {
        self.records@
    }
}

impl RecordStore {
    /// No two stored records share an identifier.
    pub open spec fn wf(&self) -> bool {
        unique_ids(self@)
    }

    pub fn new() -> (r: RecordStore)
        ensures
            r.wf(),
            r@ == Seq::<ClassifiedRecord>::empty(),
    {
        RecordStore { records: Vec::new() }
    }

    pub fn len(&self) -> (r: usize)
        ensures
            r == self@.len(),
    {
        self.records.len()
    }

    /// Whether a record with identifier `id` is stored.
    pub fn contains_id(&self, id: &String) -> (r: bool)
        ensures
            r == has_id(self@, id@),
    {
        let mut i: usize = 0;
        while i < self.records.len()
            invariant
                0 <= i <= self.records.len(),
                forall|j: int| 0 <= j < i ==> (#[trigger] self@[j]).event.id@ != id@,
            decreases self.records.len() - i,
        {
            if self.records[i].event.id == *id {
                return true;
            }
            i += 1;
        }
        false
    }

    /// Stores `record` unless a record with its identifier is already there.
    /// Returns whether it was stored.
    pub fn put(&mut self, record: ClassifiedRecord) -> (inserted: bool)
        requires
            old(self).wf(),
        ensures
            final(self).wf(),
            inserted == !has_id(old(self)@, record.event.id@),
            final(self)@ == after_put(old(self)@, record),
    {
        proof {
            lemma_put_keeps_unique(self@, record);
        }
        if self.contains_id(&record.event.id) {
            false
        } else {
            self.records.push(record);
            true
        }
    }

    /// The first stored record of `category` whose key (see `identity_key`) is `key`.
    pub fn get_by_identity(&self, category: Category, key: &String) -> (r: Option<
        &ClassifiedRecord,
    >)
        ensures
            r matches Some(rec) ==> exists|i: int|
                0 <= i < self@.len() && self@[i] == *rec && identity_matches(*rec, category, key@)
                    && forall|j: int|
                    0 <= j < i ==> !identity_matches(#[trigger] self@[j], category, key@),
            r is None ==> forall|i: int|
                0 <= i < self@.len() ==> !identity_matches(#[trigger] self@[i], category, key@),
    {
        let mut i: usize = 0;
        while i < self.records.len()
            invariant
                0 <= i <= self.records.len(),
                forall|j: int| 0 <= j < i ==> !identity_matches(#[trigger] self@[j], category, key@),
            decreases self.records.len() - i,
        {
            let rec = &self.records[i];
            let matches = if rec.category == category {
                match category {
                    Category::UserMetadata => rec.event.pubkey == *key,
                    _ => rec.event.id == *key,
                }
            } else {
                false
            };
            if matches {
                return Some(rec);
            }
            i += 1;
        }
        None
    }

    /// The stored records of `category` that refer to `reference`, in the order
    /// they were stored.
    pub fn list_by_reference(&self, category: Category, reference: &String) -> (r: Vec<
        &ClassifiedRecord,
    >)
        ensures
            r@.len() == referring(self@, category, reference@).len(),
            forall|i: int|
                0 <= i < r@.len() ==> *r@[i] == #[trigger] referring(
                    self@,
                    category,
                    reference@,
                )[i],
    {
        let mut out: Vec<&ClassifiedRecord> = Vec::new();
        let mut i: usize = 0;
        while i < self.records.len()
            invariant
                0 <= i <= self.records.len(),
                out@.len() == referring(self@.subrange(0, i as int), category, reference@).len(),
                forall|k: int|
                    0 <= k < out@.len() ==> *out@[k] == #[trigger] referring(
                        self@.subrange(0, i as int),
                        category,
                        reference@,
                    )[k],
            decreases self.records.len() - i,
        {
            let ghost after = self@.subrange(0, i + 1);
            assert(after.drop_last() =~= self@.subrange(0, i as int));
            let rec = &self.records[i];
            let matches = rec.category == category && match &rec.reference {
                Some(x) => *x == *reference,
                None => false,
            };
            if matches {
                out.push(rec);
            }
            i += 1;
        }
        assert(self@.subrange(0, self.records.len() as int) =~= self@);
        out
    }
}

} // verus!
