use vstd::prelude::*;

use crate::filter::SubscriptionFilter;
use crate::session::{RelaySession, SessionState};

verus! {

/// What the ingestion needs from configuration: the relays to read and the
/// kinds of event to subscribe to on each.
pub struct IngestConfig {
    pub relay_urls: Vec<String>,
    pub kinds: Vec<u64>,
}

/// One expanding session per configured relay, in order, each with one filter
/// per configured kind.
pub fn initial_sessions(config: &IngestConfig) -> (r: Vec<RelaySession>)
    ensures
        r@.len() == config.relay_urls@.len(),
        forall|i: int|
            0 <= i < r@.len() ==> {
                &&& (#[trigger] r@[i]).relay_url == config.relay_urls@[i]
                &&& r@[i].state == SessionState::Disconnected
                &&& r@[i].expands
                &&& r@[i].filters@.len() == config.kinds@.len()
                &&& forall|j: int|
                    0 <= j < config.kinds@.len() ==> (#[trigger] r@[i].filters@[j]).target is None
                        && r@[i].filters@[j].kinds@ == seq![config.kinds@[j]]
            },
{
    let mut sessions: Vec<RelaySession> = Vec::new();
    let mut i: usize = 0;
    while i < config.relay_urls.len()
        invariant
            0 <= i <= config.relay_urls@.len(),
            sessions@.len() == i,
            forall|k: int|
                0 <= k < i ==> {
                    &&& (#[trigger] sessions@[k]).relay_url == config.relay_urls@[k]
                    &&& sessions@[k].state == SessionState::Disconnected
                    &&& sessions@[k].expands
                    &&& sessions@[k].filters@.len() == config.kinds@.len()
                    &&& forall|j: int|
                        0 <= j < config.kinds@.len() ==> (
                        #[trigger] sessions@[k].filters@[j]).target is None
                            && sessions@[k].filters@[j].kinds@ == seq![config.kinds@[j]]
                },
        decreases config.relay_urls@.len() - i,
    {
        let url = config.relay_urls[i].clone();
        sessions.push(RelaySession::primary(url, &config.kinds));
        i += 1;
    }
    sessions
}

/// The session that an expansion asks for: the same relay, the scoped filter,
/// and no further expansion of its own.
pub fn expansion_session(origin: &RelaySession, filter: SubscriptionFilter) -> (r: RelaySession)
    ensures
        r.relay_url == origin.relay_url,
        r.state == SessionState::Disconnected,
        !r.expands,
        r.filters@ == seq![filter],
{
    RelaySession::secondary(origin.relay_url.clone(), filter)
}

} // verus!
