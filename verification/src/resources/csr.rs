//! Certificate signing requests: status labels, summaries, conditions and the
//! check made before approving or denying one.
use vstd::prelude::*;

use crate::model::{clone_opt, opt_text, opt_view, text_or_empty, ObjectMetaInfo};
use crate::text::str_eq;

verus! {

/// A condition of a certificate signing request.
#[derive(Clone, Debug, Default)]
pub struct CsrConditionInfo {
    pub type_: String,
    pub status: String,
    pub reason: Option<String>,
    pub message: Option<String>,
    pub last_update_time: Option<String>,
}

/// A certificate signing request; `conditions` is absent when it has no status
/// or its status lists none.
#[derive(Clone, Debug, Default)]
pub struct CsrInfo {
    pub metadata: ObjectMetaInfo,
    pub signer_name: String,
    pub username: Option<String>,
    pub usages: Option<Vec<String>>,
    pub conditions: Option<Vec<CsrConditionInfo>>,
}

/// A condition of a certificate signing request, as reported.
#[derive(Clone, Debug)]
pub struct CsrConditionSummary {
    pub condition_type: String,
    pub status: String,
    pub reason: Option<String>,
    pub message: Option<String>,
    pub last_update_time: Option<String>,
}

/// A certificate signing request at a glance.
#[derive(Clone, Debug)]
pub struct CsrSummary {
    pub name: String,
    pub signer_name: String,
    pub requestor: Option<String>,
    pub status: String,
    pub created_at: Option<String>,
}

/// The conditions of a request.
pub open spec fn conditions_of(csr: CsrInfo) -> Seq<CsrConditionInfo> {
    match csr.conditions {
        Some(c) => c@,
        None => Seq::empty(),
    }
}

/// The label of the first decisive condition: a true `Approved` means
/// `Approved`, a true `Denied` means `Denied`; with none the request is `Pending`.
pub open spec fn label_of(conds: Seq<CsrConditionInfo>) -> Seq<char>
    decreases conds.len(),
{
    if conds.len() == 0 {
        "Pending"@
    } else if conds[0].type_@ == "Approved"@ && conds[0].status@ == "True"@ {
        "Approved"@
    } else if conds[0].type_@ == "Denied"@ && conds[0].status@ == "True"@ {
        "Denied"@
    } else {
        label_of(conds.drop_first())
    }
}

/// `out` summarises `csr`.
pub open spec fn is_csr_summary(out: CsrSummary, csr: CsrInfo) -> bool {
    &&& out.name@ == opt_text(csr.metadata.name)
    &&& out.signer_name@ == csr.signer_name@
    &&& opt_view(out.requestor) == opt_view(csr.username)
    &&& out.status@ == label_of(conditions_of(csr))
    &&& opt_view(out.created_at) == opt_view(csr.metadata.creation_timestamp)
}

/// `out` copies condition `c`.
pub open spec fn is_condition_summary(out: CsrConditionSummary, c: CsrConditionInfo) -> bool {
    &&& out.condition_type@ == c.type_@
    &&& out.status@ == c.status@
    &&& opt_view(out.reason) == opt_view(c.reason)
    &&& opt_view(out.message) == opt_view(c.message)
    &&& opt_view(out.last_update_time) == opt_view(c.last_update_time)
}

fn string_of(s: &str) -> (r: String)
    ensures
        r@ == s@,
{
    String::from_str(s)
}

/// The status label of a request: `Approved`, `Denied` or `Pending`.
pub fn csr_status_label(csr: &CsrInfo) -> (r: String)
    ensures
        r@ == label_of(conditions_of(*csr)),
{
    proof {
        reveal_strlit("Pending");
        reveal_strlit("Approved");
        reveal_strlit("Denied");
    }
    if let Some(conds) = &csr.conditions {
        let n = conds.len();
        let mut i: usize = 0;
        proof {
            assert(conds@.skip(0) =~= conds@);
        }
        while i < n
            invariant
                n == conds@.len(),
                i <= n,
                conds@ == conditions_of(*csr),
                label_of(conds@) == label_of(conds@.skip(i as int)),
            decreases n - i,
        {
            proof {
                assert(conds@.skip(i as int).drop_first() =~= conds@.skip(i + 1));
                assert(conds@.skip(i as int)[0] == conds@[i as int]);
            }
            let c = &conds[i];
            if str_eq(c.type_.as_str(), "Approved") && str_eq(c.status.as_str(), "True") {
                return string_of("Approved");
            }
            if str_eq(c.type_.as_str(), "Denied") && str_eq(c.status.as_str(), "True") {
                return string_of("Denied");
            }
            i = i + 1;
        }
    }
    string_of("Pending")
}

/// A request at a glance: signer, requestor and status label.
pub fn extract_summary(csr: &CsrInfo) -> (r: CsrSummary)
    ensures
        is_csr_summary(r, *csr),
{
    CsrSummary {
        name: text_or_empty(&csr.metadata.name),
        signer_name: csr.signer_name.clone(),
        requestor: clone_opt(&csr.username),
        status: csr_status_label(csr),
        created_at: clone_opt(&csr.metadata.creation_timestamp),
    }
}

/// The conditions of a request, as reported.
pub fn condition_summaries(csr: &CsrInfo) -> (out: Vec<CsrConditionSummary>)
    ensures
        out@.len() == conditions_of(*csr).len(),
        forall|j: int|
            0 <= j < out@.len() ==> is_condition_summary(#[trigger] out@[j], conditions_of(*csr)[j]),
{
    let mut out: Vec<CsrConditionSummary> = Vec::new();
    if let Some(conds) = &csr.conditions {
        let n = conds.len();
        for i in 0..n
            invariant
                n == conds@.len(),
                conds@ == conditions_of(*csr),
                out@.len() == i,
                forall|j: int| 0 <= j < i ==> is_condition_summary(#[trigger] out@[j], conds@[j]),
        {
            let c = &conds[i];
            out.push(
                CsrConditionSummary {
                    condition_type: c.type_.clone(),
                    status: c.status.clone(),
                    reason: clone_opt(&c.reason),
                    message: clone_opt(&c.message),
                    last_update_time: clone_opt(&c.last_update_time),
                },
            );
        }
    }
    out
}

/// The refusal to approve or deny a request that is no longer pending.
pub open spec fn already_decided_message(name: Seq<char>, label: Seq<char>) -> Seq<char> {
    "CSR '"@ + name + "' is already "@ + label
}

/// A request can be approved or denied only while it is pending; otherwise
/// the error names it and its current status.
pub fn check_pending(name: &str, csr: &CsrInfo) -> (r: Result<(), String>)
    ensures
        label_of(conditions_of(*csr)) == "Pending"@ ==> r is Ok,
        label_of(conditions_of(*csr)) != "Pending"@ ==> (r matches Err(e) && e@
            == already_decided_message(name@, label_of(conditions_of(*csr)))),
{
    let label = csr_status_label(csr);
    if str_eq(label.as_str(), "Pending") {
        Ok(())
    } else {
        let mut msg = String::from_str("CSR '");
        msg.append(name);
        msg.append("' is already ");
        msg.append(label.as_str());
        proof {
            reveal_strlit("CSR '");
            reveal_strlit("' is already ");
            assert(msg@ =~= already_decided_message(name@, label@));
        }
        Err(msg)
    }
}

} // verus!
