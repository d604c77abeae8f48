//! The rule-matching capability and its concrete matchers.
//!
//! A router holds an ordered matcher sequence; dispatch evaluates it
//! in order and the first match's target is the outbound name used.
use vstd::prelude::*;

use crate::session::Session;

verus! {

/// One routing rule: a pure predicate on sessions plus the outbound
/// name it routes matches to.
pub trait RuleMatcher {
    /// What the rule matches, as a pure predicate.
    spec fn matches_spec(&self, sess: &Session) -> bool;

    /// The outbound name a match routes to.
    spec fn target_spec(&self) -> Seq<char>;

    /// The rule's own payload description.
    spec fn payload_spec(&self) -> Seq<char>;

    /// The rule kind's label.
    spec fn kind_name_spec(&self) -> Seq<char>;

    /// Does this rule match the session?  Pure: no state changes.
    fn apply(&self, sess: &Session) -> (r: bool)
        ensures
            r == self.matches_spec(sess),
    ;

    /// The outbound name used when this rule matches.
    fn target(&self) -> (r: &str)
        ensures
            r@ == self.target_spec(),
    ;

    /// A description of the rule's payload.
    fn payload(&self) -> (r: String)
        ensures
            r@ == self.payload_spec(),
    ;

    /// The rule kind's label.
    fn kind_name(&self) -> (r: &str)
        ensures
            r@ == self.kind_name_spec(),
    ;
}

/// A rule-set-reference matcher.  Until an external rule-set
/// membership index is wired in it matches nothing; that placeholder
/// behaviour is not final.
#[derive(Clone, Debug)]
pub struct RuleSet {
    /// Name of the referenced rule set.
    pub rule_set: String,
    /// The outbound name a match routes to.
    pub target: String,
}

impl RuleMatcher for RuleSet {
    open spec fn matches_spec(&self, sess: &Session) -> bool {
        false
    }

    open spec fn target_spec(&self) -> Seq<char> {
        self.target@
    }

    open spec fn payload_spec(&self) -> Seq<char> {
        self.rule_set@
    }

    open spec fn kind_name_spec(&self) -> Seq<char> {
        "RuleSet"@
    }

    fn apply(&self, sess: &Session) -> (r: bool) {
        false
    }

    fn target(&self) -> (r: &str) {
        self.target.as_str()
    }

    fn payload(&self) -> (r: String) {
        self.rule_set.clone()
    }

    fn kind_name(&self) -> (r: &str) {
        "RuleSet"
    }
}

/// First match wins: the index of the first rule that matches the
/// session, or nothing when none does.
pub fn route_match<M: RuleMatcher>(rules: &Vec<M>, sess: &Session) -> (r: Option<usize>)
    ensures
        match r {
            Some(i) => i < rules@.len() && rules@[i as int].matches_spec(sess) && (forall|j: int|
                0 <= j < i ==> !rules@[j].matches_spec(sess)),
            None => forall|j: int| 0 <= j < rules@.len() ==> !rules@[j].matches_spec(sess),
        },
{
    let mut i: usize = 0;
    while i < rules.len()
        invariant
            i <= rules@.len(),
            forall|j: int| 0 <= j < i ==> !rules@[j].matches_spec(sess),
        decreases rules@.len() - i,
    {
        if rules[i].apply(sess) {
            return Some(i);
        }
        i += 1;
    }
    None
}

/// The outbound name the ordered rule list routes this session to:
/// the first matching rule's target.
pub fn route_target<'a, M: RuleMatcher>(rules: &'a Vec<M>, sess: &Session) -> (r: Option<&'a str>)
    ensures
        match r {
            Some(t) => exists|i: int|
                0 <= i < rules@.len() && rules@[i].matches_spec(sess) && t@ == rules@[
                    i
                ].target_spec() && (forall|j: int| 0 <= j < i ==> !rules@[j].matches_spec(sess)),
            None => forall|j: int| 0 <= j < rules@.len() ==> !rules@[j].matches_spec(sess),
        },
{
    match route_match(rules, sess) {
        Some(i) => Some(rules[i].target()),
        None => None,
    }
}

} // verus!
