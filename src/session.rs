use vstd::prelude::*;

use crate::classify::{classification_of, e_reference, KIND_NOTE};
use crate::event::{tags_of, NostrEvent};
use crate::filter::{kind_filter, scoped_filter, scoped_kinds, SubscriptionFilter};
use crate::store::{
    after_put, is_record_of, make_record, put_twice_keeps_first, unique_ids, ClassifiedRecord,
};

verus! {

/// Where a relay session stands in its life.
#[derive(Clone, Copy, Debug, PartialEq, Eq, Structural)]
pub enum SessionState {
    Disconnected,
    Connecting,
    Subscribed,
    Streaming,
    Closed,
}

/// What happened on a session's connection, as reported by whoever drives it.
pub enum SessionInput {
    /// The session is asked to open its connection.
    Start,
    /// The connection was established.
    Connected,
    /// The connection could not be established.
    ConnectFailed,
    /// One filter went out on the connection.
    FilterSent,
    /// A filter could not be sent.
    SendFailed,
    /// An `["EVENT", <subscription>, <event>]` frame arrived, holding `event`.
    Received(NostrEvent),
    /// A frame of another shape arrived.
    Ignored,
    /// A frame that is not valid JSON, or whose event does not decode, arrived.
    Malformed,
    /// The peer closed the connection, or reading from it failed.
    Ended,
    /// One more filter is to be sent on the open connection.
    AddFilter(SubscriptionFilter),
}

/// What the driver of a session is asked to do.
pub enum SessionAction {
    /// Open the connection to the session's relay.
    Open,
    /// Send the session's filter at this position.
    SendFilter(usize),
    /// Store this record, unless its identifier is stored already.
    Store(ClassifiedRecord),
    /// The event with this identifier is dropped: it fits no category.
    Dropped(String),
    /// Open a further session to the same relay with this reference-scoped filter.
    Expand(SubscriptionFilter),
}

/// One connection to one relay and the filters submitted on it.
pub struct RelaySession {
    pub relay_url: String,
    pub state: SessionState,
    pub filters: Vec<SubscriptionFilter>,
    /// Whether primary entities seen here open further sessions.
    pub expands: bool,
}

/// The state a session moves to from `s` on `input`.
pub open spec fn next_state(s: SessionState, input: SessionInput) -> SessionState {
    match input {
        SessionInput::Start => if s == SessionState::Disconnected {
            SessionState::Connecting
        } else {
            s
        },
        SessionInput::FilterSent => if s == SessionState::Connecting {
            SessionState::Subscribed
        } else {
            s
        },
        SessionInput::Received(_) | SessionInput::Ignored => if s == SessionState::Subscribed
            || s == SessionState::Streaming {
            SessionState::Streaming
        } else {
            s
        },
        SessionInput::ConnectFailed
        | SessionInput::SendFailed
        | SessionInput::Malformed
        | SessionInput::Ended => SessionState::Closed,
        SessionInput::Connected | SessionInput::AddFilter(_) => s,
    }
}

/// A session in this state is open for subscriptions and reads.
pub open spec fn is_live(s: SessionState) -> bool {
    s == SessionState::Subscribed || s == SessionState::Streaming
}

/// `acts` is what a session that may expand (`expands`) does with `event`
/// while live: drop it, or store its record and, for a primary entity of an
/// expanding session, ask for exactly one reference-scoped session for it.
pub open spec fn event_actions(expands: bool, event: NostrEvent, acts: Seq<SessionAction>) -> bool {
    match classification_of(event.kind, tags_of(event)) {
        None => acts == seq![SessionAction::Dropped(event.id)],
        Some((category, _)) => {
            &&& acts.len() == (if expands && category.spec_is_primary() {
                2int
            } else {
                1int
            })
            &&& stores_record_of(acts[0], event)
            &&& acts.len() == 2 ==> expands_for(acts[1], event.id)
        },
    }
}

/// `a` stores the record of `event`.
pub open spec fn stores_record_of(a: SessionAction, event: NostrEvent) -> bool {
    match a {
        SessionAction::Store(rec) => is_record_of(rec, event),
        _ => false,
    }
}

/// `a` asks for a session scoped to reactions and zaps that reference `target`.
pub open spec fn expands_for(a: SessionAction, target: String) -> bool {
    match a {
        SessionAction::Expand(f) => f.target == Some(target) && f.kinds@ == scoped_kinds(),
        _ => false,
    }
}

/// An expanding session that sees a note (a kind-1 event that references no
/// other event) stores it and asks for exactly one further session, scoped to
/// the reactions and zaps that reference that note.
pub proof fn note_expands_once(event: NostrEvent, acts: Seq<SessionAction>)
    requires
        event.kind == KIND_NOTE,
        e_reference(tags_of(event)) is None,
        event_actions(true, event, acts),
    ensures
        acts.len() == 2,
        stores_record_of(acts[0], event),
        expands_for(acts[1], event.id),
        forall|i: int| 0 <= i < acts.len() && (#[trigger] acts[i]) is Expand ==> i == 1,
{
}

/// Coverage is not deduplicated across sessions: each expanding session that
/// sees the same note (say, one per relay) asks on its own for exactly one
/// session scoped to that note; and a reaction that two such sessions both
/// deliver is stored once, the first copy kept.
pub proof fn every_observer_expands(
    note: NostrEvent,
    acts_a: Seq<SessionAction>,
    acts_b: Seq<SessionAction>,
    stored: Seq<ClassifiedRecord>,
    first: ClassifiedRecord,
    second: ClassifiedRecord,
)
    requires
        note.kind == KIND_NOTE,
        e_reference(tags_of(note)) is None,
        event_actions(true, note, acts_a),
        event_actions(true, note, acts_b),
        unique_ids(stored),
        first.event.id@ == second.event.id@,
    ensures
        acts_a.len() == 2 && expands_for(acts_a[1], note.id),
        acts_b.len() == 2 && expands_for(acts_b[1], note.id),
        forall|i: int| 0 <= i < acts_a.len() && (#[trigger] acts_a[i]) is Expand ==> i == 1,
        forall|i: int| 0 <= i < acts_b.len() && (#[trigger] acts_b[i]) is Expand ==> i == 1,
        after_put(after_put(stored, first), second) == after_put(stored, first),
{
    note_expands_once(note, acts_a);
    note_expands_once(note, acts_b);
    put_twice_keeps_first(stored, first, second);
}

impl RelaySession {
    /// A session that subscribes to each of `kinds` with a filter of its own
    /// and widens coverage for the primary entities it sees.
    pub fn primary(relay_url: String, kinds: &Vec<u64>) -> (r: RelaySession)
        ensures
            r.relay_url == relay_url,
            r.state == SessionState::Disconnected,
            r.expands,
            r.filters@.len() == kinds@.len(),
            forall|j: int|
                0 <= j < kinds@.len() ==> (#[trigger] r.filters@[j]).target is None
                    && r.filters@[j].kinds@ == seq![kinds@[j]],
    {
        let mut filters: Vec<SubscriptionFilter> = Vec::new();
        let mut j: usize = 0;
        while j < kinds.len()
            invariant
                0 <= j <= kinds.len(),
                filters@.len() == j,
                forall|k: int|
                    0 <= k < j ==> (#[trigger] filters@[k]).target is None
                        && filters@[k].kinds@ == seq![kinds@[k]],
            decreases kinds.len() - j,
        {
            filters.push(kind_filter(kinds[j]));
            j += 1;
        }
        RelaySession { relay_url, state: SessionState::Disconnected, filters, expands: true }
    }

    /// A session that submits the single `filter` and widens nothing.
    pub fn secondary(relay_url: String, filter: SubscriptionFilter) -> (r: RelaySession)
        ensures
            r.relay_url == relay_url,
            r.state == SessionState::Disconnected,
            !r.expands,
            r.filters@ == seq![filter],
    {
        let filters = vec![filter];
        RelaySession { relay_url, state: SessionState::Disconnected, filters, expands: false }
    }

    /// What a live session does with an inbound event.
    fn on_event(&self, event: NostrEvent) -> (acts: Vec<SessionAction>)
        ensures
            event_actions(self.expands, event, acts@),
    {
        let ghost e = event;
        let id = event.id.clone();
        match make_record(event) {
            None => {
                let acts = vec![SessionAction::Dropped(id)];
                assert(acts@ =~= seq![SessionAction::Dropped(e.id)]);
                acts
            },
            Some(rec) => {
                let primary = rec.category.is_primary();
                let mut acts = vec![SessionAction::Store(rec)];
                assert(stores_record_of(acts@[0], e));
                if self.expands && primary {
                    acts.push(SessionAction::Expand(scoped_filter(id)));
                    assert(expands_for(acts@[1], e.id));
                }
                acts
            },
        }
    }

    /// Moves the session on `input` and says what its driver must do.
    pub fn step(&mut self, input: SessionInput) -> (acts: Vec<SessionAction>)
        ensures
            final(self).state == next_state(old(self).state, input),
            final(self).relay_url == old(self).relay_url,
            final(self).expands == old(self).expands,
            match input {
                SessionInput::Start => if old(self).state == SessionState::Disconnected {
                    acts@ == seq![SessionAction::Open]
                } else {
                    acts@.len() == 0
                },
                SessionInput::Connected => if old(self).state == SessionState::Connecting {
                    &&& acts@.len() == old(self).filters@.len()
                    &&& forall|j: int|
                        0 <= j < acts@.len() ==> (#[trigger] acts@[j]) == SessionAction::SendFilter(
                            j as usize,
                        )
                } else {
                    acts@.len() == 0
                },
                SessionInput::Received(event) => if is_live(old(self).state) {
                    event_actions(old(self).expands, event, acts@)
                } else {
                    acts@.len() == 0
                },
                SessionInput::AddFilter(f) => if is_live(old(self).state) {
                    &&& final(self).filters@ == old(self).filters@.push(f)
                    &&& acts@ == seq![SessionAction::SendFilter(old(self).filters@.len() as usize)]
                } else {
                    acts@.len() == 0
                },
                _ => acts@.len() == 0,
            },
            !(input is AddFilter && is_live(old(self).state)) ==> final(self).filters
                == old(self).filters,
    {
        let s = self.state;
        match input {
            SessionInput::Start => {
                if s == SessionState::Disconnected {
                    self.state = SessionState::Connecting;
                    vec![SessionAction::Open]
                } else {
                    Vec::new()
                }
            },
            SessionInput::Connected => {
                let mut acts: Vec<SessionAction> = Vec::new();
                if s == SessionState::Connecting {
                    let mut j: usize = 0;
                    while j < self.filters.len()
                        invariant
                            0 <= j <= self.filters@.len(),
                            acts@.len() == j,
                            forall|k: int|
                                0 <= k < j ==> (#[trigger] acts@[k]) == SessionAction::SendFilter(
                                    k as usize,
                                ),
                        decreases self.filters@.len() - j,
                    {
                        acts.push(SessionAction::SendFilter(j));
                        j += 1;
                    }
                }
                acts
            },
            SessionInput::FilterSent => {
                if s == SessionState::Connecting {
                    self.state = SessionState::Subscribed;
                }
                Vec::new()
            },
            SessionInput::Received(event) => {
                if s == SessionState::Subscribed || s == SessionState::Streaming {
                    self.state = SessionState::Streaming;
                    self.on_event(event)
                } else {
                    Vec::new()
                }
            },
            SessionInput::Ignored => {
                if s == SessionState::Subscribed || s == SessionState::Streaming {
                    self.state = SessionState::Streaming;
                }
                Vec::new()
            },
            SessionInput::AddFilter(f) => {
                if s == SessionState::Subscribed || s == SessionState::Streaming {
                    let at = self.filters.len();
                    self.filters.push(f);
                    vec![SessionAction::SendFilter(at)]
                } else {
                    Vec::new()
                }
            },
            SessionInput::ConnectFailed
            | SessionInput::SendFailed
            | SessionInput::Malformed
            | SessionInput::Ended => {
                self.state = SessionState::Closed;
                Vec::new()
            },
        }
    }
}

} // verus!
