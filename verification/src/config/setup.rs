//! Editing the `[upstream]` section: read-only views and patches.
use vstd::prelude::*;

use super::{ConfigFile, UpstreamEndpoint, UpstreamSection};
use crate::text::{lemma_trim_idempotent, trim, trim_seq};

verus! {

pub const CLOUD_MODEL_AUTO: &'static str = "auto";

/// What the setup page shows of both upstreams.
#[derive(Debug, Clone)]
pub struct UpstreamSetupView {
    pub edge: Option<UpstreamEndpointView>,
    pub cloud: Option<UpstreamEndpointView>,
}

/// What the setup page shows of one upstream; the key itself is never shown.
#[derive(Debug, Clone)]
pub struct UpstreamEndpointView {
    pub configured: bool,
    pub base_url: String,
    pub model: Option<String>,
    pub api_key_set: bool,
}

/// A requested change to both upstreams.
#[derive(Debug, Clone)]
pub struct UpstreamSetupUpdate {
    pub edge: Option<UpstreamEndpointPatch>,
    pub cloud: Option<UpstreamEndpointPatch>,
}

impl Default for UpstreamSetupUpdate {
    fn default() -> (r: UpstreamSetupUpdate)
        ensures
            r.edge is None,
            r.cloud is None,
    {
        UpstreamSetupUpdate { edge: None, cloud: None }
    }
}

/// A requested change to one upstream.
#[derive(Debug, Clone)]
pub struct UpstreamEndpointPatch {
    /// Set to empty string to clear `base_url`.
    pub base_url: Option<String>,
    /// Omit to keep existing; empty string clears the key.
    pub api_key: Option<String>,
    pub model: Option<String>,
    /// When true, remove this tier entirely (edge only).
    pub clear: bool,
}

impl Default for UpstreamEndpointPatch {
    fn default() -> (r: UpstreamEndpointPatch)
        ensures
            r.base_url is None,
            r.api_key is None,
            r.model is None,
            !r.clear,
    {
        UpstreamEndpointPatch { base_url: None, api_key: None, model: None, clear: false }
    }
}

pub open spec fn opt_str(o: Option<String>) -> Option<Seq<char>> {
    match o {
        Some(s) => Some(s@),
        None => None,
    }
}

/// An endpoint as plain text values: (base URL, API key, model).
pub type EndpointModel = (Seq<char>, Option<Seq<char>>, Option<Seq<char>>);

pub open spec fn endpoint_model(ep: UpstreamEndpoint) -> EndpointModel {
    (ep.base_url@, opt_str(ep.api_key), opt_str(ep.model))
}

pub open spec fn slot_model(slot: Option<UpstreamEndpoint>) -> Option<EndpointModel> {
    match slot {
        Some(ep) => Some(endpoint_model(ep)),
        None => None,
    }
}

/// A base URL counts once it is not blank.
pub open spec fn url_configured(url: Seq<char>) -> bool {
    trim_seq(url).len() > 0
}

/// An endpoint is configured when its base URL is not blank.
pub fn endpoint_configured(ep: &UpstreamEndpoint) -> (r: bool)
    ensures
        r == url_configured(ep.base_url@),
{
    !trim(ep.base_url.as_str()).is_empty()
}

pub open spec fn key_set(k: Option<String>) -> bool {
    k matches Some(s) && trim_seq(s@).len() > 0
}

/// `v` shows `ep` faithfully.
pub open spec fn shows(v: UpstreamEndpointView, ep: UpstreamEndpoint) -> bool {
    &&& v.configured == url_configured(ep.base_url@)
    &&& v.base_url@ == ep.base_url@
    &&& opt_str(v.model) == opt_str(ep.model)
    &&& v.api_key_set == key_set(ep.api_key)
}

pub open spec fn shows_slot(v: Option<UpstreamEndpointView>, slot: Option<UpstreamEndpoint>) -> bool {
    match slot {
        Some(ep) => v matches Some(w) && shows(w, ep),
        None => v is None,
    }
}

fn copy_opt(o: &Option<String>) -> (r: Option<String>)
    ensures
        opt_str(r) == opt_str(*o),
{
    match o {
        Some(s) => Some(s.clone()),
        None => None,
    }
}

fn endpoint_view(ep: &UpstreamEndpoint) -> (r: UpstreamEndpointView)
    ensures
        shows(r, *ep),
{
    UpstreamEndpointView {
        configured: endpoint_configured(ep),
        base_url: ep.base_url.clone(),
        model: copy_opt(&ep.model),
        api_key_set: match &ep.api_key {
            Some(k) => !trim(k.as_str()).is_empty(),
            None => false,
        },
    }
}

fn slot_view(slot: &Option<UpstreamEndpoint>) -> (r: Option<UpstreamEndpointView>)
    ensures
        shows_slot(r, *slot),
{
    match slot {
        Some(ep) => Some(endpoint_view(ep)),
        None => None,
    }
}

/// The setup view of a configuration file.
pub fn view_from_config(file: &ConfigFile) -> (r: UpstreamSetupView)
    ensures
        shows_slot(r.edge, file.upstream.edge),
        shows_slot(r.cloud, file.upstream.cloud),
{
    UpstreamSetupView { edge: slot_view(&file.upstream.edge), cloud: slot_view(&file.upstream.cloud) }
}

/// Default upstream block: cloud model `auto`, edge unset.
pub fn apply_default_upstream(file: &mut ConfigFile)
    ensures
        final(file).upstream.edge is None,
        slot_model(final(file).upstream.cloud) == Some(
            (Seq::<char>::empty(), None::<Seq<char>>, Some("auto"@)),
        ),
{
    file.upstream = UpstreamSection {
        cloud: Some(
            UpstreamEndpoint {
                base_url: String::new(),
                api_key: None,
                model: Some(CLOUD_MODEL_AUTO.to_owned()),
            },
        ),
        edge: None,
    };
}

/// A patched optional text: blank clears it, anything else is kept trimmed.
pub open spec fn patched_opt(p: Option<String>, cur: Option<Seq<char>>) -> Option<Seq<char>> {
    match p {
        Some(v) => if trim_seq(v@).len() == 0 {
            None
        } else {
            Some(trim_seq(v@))
        },
        None => cur,
    }
}

/// The slot after a patch: cleared on request; otherwise each given field is
/// replaced (trimmed), and a slot left with no URL, key or model is dropped.
pub open spec fn patched_slot(slot: Option<EndpointModel>, p: UpstreamEndpointPatch) -> Option<
    EndpointModel,
> {
    if p.clear {
        None
    } else {
        let e: EndpointModel = match slot {
            Some(e) => e,
            None => (Seq::empty(), None, None),
        };
        let url = match p.base_url {
            Some(u) => trim_seq(u@),
            None => e.0,
        };
        let model = patched_opt(p.model, e.2);
        let key = patched_opt(p.api_key, e.1);
        if !url_configured(url) && key is None && model is None {
            None
        } else {
            Some((url, key, model))
        }
    }
}

fn patched_text(v: &String) -> (r: Option<String>)
    ensures
        opt_str(r) == patched_opt(Some(*v), None),
{
    let t = trim(v.as_str());
    if t.is_empty() {
        None
    } else {
        Some(t.to_owned())
    }
}

/// The same patch with its `clear` flag off.
pub open spec fn without_clear(p: UpstreamEndpointPatch) -> UpstreamEndpointPatch {
    UpstreamEndpointPatch { clear: false, ..p }
}

/// Applies a patch to one upstream slot.
pub fn apply_tier_patch(slot: &mut Option<UpstreamEndpoint>, patch: &UpstreamEndpointPatch)
    ensures
        slot_model(*final(slot)) == patched_slot(slot_model(*old(slot)), *patch),
{
    patch_slot(slot, patch, true);
}

/// Applies a patch to one slot; `clearable` says whether its `clear` flag counts.
fn patch_slot(slot: &mut Option<UpstreamEndpoint>, patch: &UpstreamEndpointPatch, clearable: bool)
    ensures
        slot_model(*final(slot)) == patched_slot(
            slot_model(*old(slot)),
            if clearable {
                *patch
            } else {
                without_clear(*patch)
            },
        ),
{
    if clearable && patch.clear {
        *slot = None;
        return;
    }
    let mut entry = match slot.take() {
        Some(e) => e,
        None => UpstreamEndpoint { base_url: String::new(), api_key: None, model: None },
    };
    if let Some(url) = &patch.base_url {
        entry.base_url = trim(url.as_str()).to_owned();
    }
    if let Some(model) = &patch.model {
        entry.model = patched_text(model);
    }
    if let Some(key) = &patch.api_key {
        entry.api_key = patched_text(key);
    }
    if !endpoint_configured(&entry) && entry.api_key.is_none() && entry.model.is_none() {
        *slot = None;
    } else {
        *slot = Some(entry);
    }
}

/// Applies a setup update to both upstream slots; a tier without a patch is
/// kept. `clear` removes the edge tier only: a cloud patch is applied as if its
/// `clear` flag were off.
pub fn apply_upstream_patch(file: &mut ConfigFile, patch: &UpstreamSetupUpdate)
    ensures
        slot_model(final(file).upstream.edge) == match patch.edge {
            Some(p) => patched_slot(slot_model(old(file).upstream.edge), p),
            None => slot_model(old(file).upstream.edge),
        },
        slot_model(final(file).upstream.cloud) == match patch.cloud {
            Some(p) => patched_slot(slot_model(old(file).upstream.cloud), without_clear(p)),
            None => slot_model(old(file).upstream.cloud),
        },
{
    if let Some(edge) = &patch.edge {
        patch_slot(&mut file.upstream.edge, edge, true);
    }
    if let Some(cloud) = &patch.cloud {
        patch_slot(&mut file.upstream.cloud, cloud, false);
    }
}

/// A slot that survives a patch always carries something: a non-blank URL, a
/// key or a model.
pub proof fn lemma_patched_slot_not_empty(slot: Option<EndpointModel>, p: UpstreamEndpointPatch)
    ensures
        patched_slot(slot, p) matches Some(e) ==> (url_configured(e.0) || e.1 is Some || e.2 is Some),
{
}

/// Clearing the edge tier removes it, whatever else the patch says (the cloud
/// tier ignores `clear`: `apply_upstream_patch` applies it as `without_clear`).
pub proof fn lemma_clear_removes(slot: Option<EndpointModel>, p: UpstreamEndpointPatch)
    requires
        p.clear,
    ensures
        patched_slot(slot, p) is None,
{
}

/// Patching a tier with a non-blank base URL leaves it configured with that URL,
/// trimmed.
pub proof fn lemma_url_patch_configures(slot: Option<EndpointModel>, p: UpstreamEndpointPatch)
    requires
        !p.clear,
        p.base_url matches Some(u) && url_configured(u@),
    ensures
        patched_slot(slot, p) matches Some(e) && url_configured(e.0) && e.0 == trim_seq(
            p.base_url.unwrap()@,
        ),
{
    lemma_trim_idempotent(p.base_url.unwrap()@);
}

/// A patch that sets nothing leaves a configured slot as it was.
pub proof fn lemma_empty_patch_keeps(e: EndpointModel, p: UpstreamEndpointPatch)
    requires
        !p.clear,
        p.base_url is None,
        p.api_key is None,
        p.model is None,
        url_configured(e.0),
    ensures
        patched_slot(Some(e), p) == Some(e),
{
}

} // verus!
