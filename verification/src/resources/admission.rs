//! Admission control: webhook configurations and validating admission policies.
use vstd::prelude::*;

use crate::model::{clone_opt, opt_text, opt_view, text_or_empty, texts, ObjectMetaInfo};

verus! {

/// A mutating or validating webhook configuration: the names of its webhooks
/// (absent when it lists none).
#[derive(Clone, Debug, Default)]
pub struct WebhookConfigInfo {
    pub metadata: ObjectMetaInfo,
    pub webhooks: Option<Vec<String>>,
}

/// A validating admission policy; `failure_policy` is that of its spec.
#[derive(Clone, Debug, Default)]
pub struct PolicyInfo {
    pub metadata: ObjectMetaInfo,
    pub failure_policy: Option<String>,
}

/// A webhook configuration at a glance.
#[derive(Clone, Debug)]
pub struct WebhookConfigSummary {
    pub name: String,
    pub webhooks_count: usize,
    pub created_at: Option<String>,
}

/// A validating admission policy at a glance.
#[derive(Clone, Debug)]
pub struct PolicySummary {
    pub name: String,
    pub validation_actions: Vec<String>,
    pub created_at: Option<String>,
}

/// `out` summarises `cfg`.
pub open spec fn is_webhook_summary(out: WebhookConfigSummary, cfg: WebhookConfigInfo) -> bool {
    &&& out.name@ == opt_text(cfg.metadata.name)
    &&& out.webhooks_count == (match cfg.webhooks {
        Some(w) => w@.len(),
        None => 0,
    })
    &&& opt_view(out.created_at) == opt_view(cfg.metadata.creation_timestamp)
}

/// `out` summarises `p`: its actions are its failure policy, if it has one.
pub open spec fn is_policy_summary(out: PolicySummary, p: PolicyInfo) -> bool {
    &&& out.name@ == opt_text(p.metadata.name)
    &&& texts(out.validation_actions@) == (match p.failure_policy {
        Some(f) => seq![f@],
        None => Seq::empty(),
    })
    &&& opt_view(out.created_at) == opt_view(p.metadata.creation_timestamp)
}

/// A webhook configuration at a glance: how many webhooks it holds.
pub fn webhook_config_summary(cfg: &WebhookConfigInfo) -> (r: WebhookConfigSummary)
    ensures
        is_webhook_summary(r, *cfg),
{
    let webhooks_count = match &cfg.webhooks {
        Some(w) => w.len(),
        None => 0,
    };
    WebhookConfigSummary {
        name: text_or_empty(&cfg.metadata.name),
        webhooks_count,
        created_at: clone_opt(&cfg.metadata.creation_timestamp),
    }
}

/// A validating admission policy at a glance.
pub fn policy_summary(p: &PolicyInfo) -> (r: PolicySummary)
    ensures
        is_policy_summary(r, *p),
{
    let mut validation_actions: Vec<String> = Vec::new();
    if let Some(f) = &p.failure_policy {
        validation_actions.push(f.clone());
    }
    proof {
        assert(texts(validation_actions@) =~= (match p.failure_policy {
            Some(f) => seq![f@],
            None => Seq::<Seq<char>>::empty(),
        }));
    }
    PolicySummary {
        name: text_or_empty(&p.metadata.name),
        validation_actions,
        created_at: clone_opt(&p.metadata.creation_timestamp),
    }
}

} // verus!
