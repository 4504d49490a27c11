use vstd::prelude::*;
use crate::storage::{
    equal_rule_for, first_from, is_substring, opt_seq, MatchItemView, MatchType, Storage,
    StorageView,
};

verus! {

/// Where a URL goes: a browser and, optionally, one of its profiles.
#[derive(Debug)]
pub struct Decision {
    pub browser_path: String,
    pub profile: Option<String>,
}

pub struct DecisionView {
    pub browser_path: Seq<char>,
    pub profile: Option<Seq<char>>,
}

impl View for Decision {
    type V = DecisionView;

    open spec fn view(&self) -> DecisionView {
        DecisionView { browser_path: self.browser_path@, profile: opt_seq(self.profile) }
    }
}

pub open spec fn decision_of(rule: MatchItemView) -> DecisionView {
    DecisionView { browser_path: rule.browser_path, profile: rule.profile }
}

/// The decision that the store's rules give for `url`: the `Equal` rule whose
/// value is `url` if there is one, else the first `Contain` rule whose value
/// occurs in `url`, else none.
pub open spec fn decide(s: StorageView, url: Seq<char>) -> Option<DecisionView> {
    match s.resolve(url) {
        Some(r) => Some(decision_of(r)),
        None => None,
    }
}

pub open spec fn opt_decision(d: Option<Decision>) -> Option<DecisionView> {
    match d {
        Some(x) => Some(x@),
        None => None,
    }
}

/// Looks `url` up in the store: `Equal` rules first, then `Contain` rules.
pub fn resolve(storage: &Storage, url: &String) -> (r: Option<Decision>)
    ensures
        opt_decision(r) == decide(storage@, url@),
{
    match storage.find_equal_matches_by_url(url.clone()) {
        Some(item) => Some(Decision { browser_path: item.browser_path, profile: item.profile }),
        None => match storage.find_contain_matches_by_url(url.clone()) {
            Some(item) => Some(Decision { browser_path: item.browser_path, profile: item.profile }),
            None => None,
        },
    }
}

/// If index `k` is the only one from `i` on whose rule satisfies `pred`, the
/// search from `i` finds that rule.
proof fn lemma_first_from_unique(rs: Seq<MatchItemView>, pred: spec_fn(MatchItemView) -> bool, i: int, k: int)
    requires
        0 <= i <= k < rs.len(),
        pred(rs[k]),
        forall|j: int| i <= j < rs.len() && j != k ==> !pred(#[trigger] rs[j]),
    ensures
        first_from(rs, pred, i) == Some(rs[k]),
    decreases k - i,
{
    if i < k {
        lemma_first_from_unique(rs, pred, i + 1, k);
    }
}

/// When an `Equal` rule and a `Contain` rule both match a URL, the URL goes
/// where the `Equal` rule says.
pub proof fn lemma_equal_rule_wins(s: StorageView, url: Seq<char>, e: int, c: int)
    requires
        s.wf(),
        0 <= e < s.rules.len(),
        s.rules[e].match_type == MatchType::Equal,
        s.rules[e].match_value == url,
        0 <= c < s.rules.len(),
        s.rules[c].match_type == MatchType::Contain,
        is_substring(s.rules[c].match_value, url),
    ensures
        decide(s, url) == Some(decision_of(s.rules[e])),
{
    let pred = equal_rule_for(url);
    assert forall|j: int| 0 <= j < s.rules.len() && j != e implies !pred(#[trigger] s.rules[j]) by {
        if j < e {
            assert(s.rules[j].match_value != s.rules[e].match_value);
        } else {
            assert(s.rules[e].match_value != s.rules[j].match_value);
        }
    }
    lemma_first_from_unique(s.rules, pred, 0, e);
}

} // verus!
