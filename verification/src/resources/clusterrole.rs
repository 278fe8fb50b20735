//! Cluster roles: their policy rules.
use vstd::prelude::*;

use crate::model::{clone_strings, opt_texts, strings_or_empty, texts, ObjectMetaInfo};

verus! {

/// A policy rule of a role.
#[derive(Clone, Debug, Default)]
pub struct PolicyRuleInfo {
    pub api_groups: Option<Vec<String>>,
    pub resources: Option<Vec<String>>,
    pub verbs: Vec<String>,
}

/// A cluster role.
#[derive(Clone, Debug, Default)]
pub struct ClusterRoleInfo {
    pub metadata: ObjectMetaInfo,
    pub rules: Option<Vec<PolicyRuleInfo>>,
}

/// A policy rule: which verbs it allows on which resources of which API groups.
#[derive(Clone, Debug)]
pub struct PolicyRuleSummary {
    pub api_groups: Vec<String>,
    pub resources: Vec<String>,
    pub verbs: Vec<String>,
}

/// The rules of a role.
pub open spec fn rules_of(cr: ClusterRoleInfo) -> Seq<PolicyRuleInfo> {
    match cr.rules {
        Some(r) => r@,
        None => Seq::empty(),
    }
}

/// `out` copies rule `r`; absent groups or resources become empty lists.
pub open spec fn is_rule_summary(out: PolicyRuleSummary, r: PolicyRuleInfo) -> bool {
    &&& texts(out.api_groups@) == opt_texts(r.api_groups)
    &&& texts(out.resources@) == opt_texts(r.resources)
    &&& texts(out.verbs@) == texts(r.verbs@)
}

/// The number of rules of a role.
pub fn rules_count(cr: &ClusterRoleInfo) -> (r: usize)
    ensures
        r == rules_of(*cr).len(),
{
    match &cr.rules {
        Some(r) => r.len(),
        None => 0,
    }
}

/// The rules of a role, in order.
pub fn extract_rules(cr: &ClusterRoleInfo) -> (out: Vec<PolicyRuleSummary>)
    ensures
        out@.len() == rules_of(*cr).len(),
        forall|j: int| 0 <= j < out@.len() ==> is_rule_summary(#[trigger] out@[j], rules_of(*cr)[j]),
{
    let mut out: Vec<PolicyRuleSummary> = Vec::new();
    if let Some(rules) = &cr.rules {
        let n = rules.len();
        for i in 0..n
            invariant
                n == rules@.len(),
                rules@ == rules_of(*cr),
                out@.len() == i,
                forall|j: int| 0 <= j < i ==> is_rule_summary(#[trigger] out@[j], rules@[j]),
        {
            let r = &rules[i];
            out.push(
                PolicyRuleSummary {
                    api_groups: strings_or_empty(&r.api_groups),
                    resources: strings_or_empty(&r.resources),
                    verbs: clone_strings(&r.verbs),
                },
            );
        }
    }
    out
}

/// A rule as given to the create and update tools: each list is present when
/// the field is given as a list of text.
#[derive(Clone, Debug, Default)]
pub struct PolicyRuleArg {
    pub api_groups: Option<Vec<String>>,
    pub resources: Option<Vec<String>>,
    pub verbs: Option<Vec<String>>,
}

/// The rules the tools write: groups and resources default to empty lists;
/// every rule needs its verbs; a value that is not a list is refused.
pub open spec fn parsed_rules_ok(out: Seq<PolicyRuleInfo>, rules: Seq<PolicyRuleArg>) -> bool {
    &&& out.len() == rules.len()
    &&& forall|i: int|
        0 <= i < rules.len() ==> {
            &&& (#[trigger] out[i]).api_groups matches Some(g) && texts(g@) == opt_texts(rules[i].api_groups)
            &&& out[i].resources matches Some(r) && texts(r@) == opt_texts(rules[i].resources)
            &&& rules[i].verbs matches Some(v) && texts(out[i].verbs@) == texts(v@)
        }
}

/// Reads the `rules` argument of the cluster role tools (`None` when it is not a list).
pub fn parse_policy_rules(rules: &Option<Vec<PolicyRuleArg>>) -> (r: Result<Vec<PolicyRuleInfo>, String>)
    ensures
        match r {
            Ok(out) => rules matches Some(list) && parsed_rules_ok(out@, list@),
            Err(e) => match rules {
                None => e@ == "rules must be an array"@,
                Some(list) => (exists|i: int| 0 <= i < list@.len() && (#[trigger] list@[i]).verbs is None)
                    && e@ == "each rule must have verbs"@,
            },
        },
{
    proof {
        reveal_strlit("rules must be an array");
        reveal_strlit("each rule must have verbs");
    }
    let list = match rules {
        Some(l) => l,
        None => return Err(String::from_str("rules must be an array")),
    };
    let mut out: Vec<PolicyRuleInfo> = Vec::new();
    let n = list.len();
    for i in 0..n
        invariant
            n == list@.len(),
            rules matches Some(l) && l@ == list@,
            out@.len() == i,
            forall|j: int|
                0 <= j < i ==> {
                    &&& (#[trigger] out@[j]).api_groups matches Some(g) && texts(g@) == opt_texts(list@[j].api_groups)
                    &&& out@[j].resources matches Some(r) && texts(r@) == opt_texts(list@[j].resources)
                    &&& list@[j].verbs matches Some(v) && texts(out@[j].verbs@) == texts(v@)
                },
    {
        let rule = &list[i];
        let verbs = match &rule.verbs {
            Some(v) => clone_strings(v),
            None => {
                proof {
                    assert(list@[i as int].verbs is None);
                }
                return Err(String::from_str("each rule must have verbs"));
            },
        };
        out.push(
            PolicyRuleInfo {
                api_groups: Some(strings_or_empty(&rule.api_groups)),
                resources: Some(strings_or_empty(&rule.resources)),
                verbs,
            },
        );
    }
    Ok(out)
}

} // verus!
