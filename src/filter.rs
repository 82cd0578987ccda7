use vstd::prelude::*;

use crate::classify::{KIND_REACTION, KIND_ZAP_RECEIPT, KIND_ZAP_REQUEST};

verus! {

/// A subscription request: which kinds a relay should forward, optionally
/// only those events whose `"e"` tags reference `target`.
pub struct SubscriptionFilter {
    pub subscription_id: String,
    pub kinds: Vec<u64>,
    pub target: Option<String>,
}

/// The kinds a reference-scoped filter asks for: reactions, zap requests and
/// zap receipts.
pub open spec fn scoped_kinds() -> Seq<u64> {
    seq![KIND_REACTION, KIND_ZAP_REQUEST, KIND_ZAP_RECEIPT]
}

/// The kinds a filter built from `kinds` and `target` asks for.
pub open spec fn filter_kinds(kinds: Seq<u64>, target: Option<Seq<char>>) -> Seq<u64> {
    if target is Some {
        scoped_kinds()
    } else {
        kinds
    }
}

/// Relies on uuid's `Uuid::new_v4` and its hyphenated `Display` form: a fresh
/// random identifier, of which nothing further is assumed.
#[verifier::external_body]
fn fresh_subscription_id() -> (r: String) {
    uuid::Uuid::new_v4().to_string()
}

/// Builds a filter under a given subscription identifier.
pub fn filter_with_id(subscription_id: String, kinds: Vec<u64>, target: Option<String>) -> (r:
    SubscriptionFilter)
    ensures
        r.subscription_id == subscription_id,
        r.target == target,
        r.kinds@ == filter_kinds(kinds@, target.deep_view()),
{
    let kinds = if target.is_some() {
        vec![KIND_REACTION, KIND_ZAP_REQUEST, KIND_ZAP_RECEIPT]
    } else {
        kinds
    };
    assert(target.is_some() ==> kinds@ =~= scoped_kinds());
    SubscriptionFilter { subscription_id, kinds, target }
}

/// Builds a filter under a freshly drawn random subscription identifier.
pub fn build_filter(kinds: Vec<u64>, target: Option<String>) -> (r: SubscriptionFilter)
    ensures
        r.target == target,
        r.kinds@ == filter_kinds(kinds@, target.deep_view()),
{
    let id = fresh_subscription_id();
    filter_with_id(id, kinds, target)
}

/// A filter for the single kind `kind`.
pub fn kind_filter(kind: u64) -> (r: SubscriptionFilter)
    ensures
        r.target is None,
        r.kinds@ == seq![kind],
{
    let r = build_filter(vec![kind], None);
    assert(r.kinds@ =~= seq![kind]);
    r
}

/// A filter for the reactions and zaps that reference event `target`.
pub fn scoped_filter(target: String) -> (r: SubscriptionFilter)
    ensures
        r.target == Some(target),
        r.kinds@ == scoped_kinds(),
{
    build_filter(Vec::new(), Some(target))
}

} // verus!
