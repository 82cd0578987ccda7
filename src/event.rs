use vstd::prelude::*;

verus! {

/// A signed, typed event as delivered by a relay.
pub struct NostrEvent {
    pub id: String,
    pub pubkey: String,
    pub created_at: u64,
    pub kind: u64,
    pub tags: Vec<Vec<String>>,
    pub content: String,
    pub sig: String,
}

/// The tag list of an event as sequences of character sequences.
pub open spec fn tags_of(e: NostrEvent) -> Seq<Seq<Seq<char>>> {
    e.tags.deep_view()
}

impl NostrEvent {
    pub fn new(
        id: String,
        pubkey: String,
        created_at: u64,
        kind: u64,
        tags: Vec<Vec<String>>,
        content: String,
        sig: String,
    ) -> (r: NostrEvent)
        ensures
            r.id == id,
            r.pubkey == pubkey,
            r.created_at == created_at,
            r.kind == kind,
            r.tags == tags,
            r.content == content,
            r.sig == sig,
    {
        NostrEvent { id, pubkey, created_at, kind, tags, content, sig }
    }
}

} // verus!
