use flowy_router::config::setup::{
    apply_default_upstream, apply_tier_patch, apply_upstream_patch, endpoint_configured, view_from_config,
    UpstreamEndpointPatch, UpstreamSetupUpdate,
};
use flowy_router::config::{ConfigFile, UpstreamEndpoint};

#[test]
fn default_setup_cloud_auto_edge_empty() {
    let mut file = ConfigFile::default();
    apply_default_upstream(&mut file);
    assert!(file.upstream.edge.is_none());
    let cloud = file.upstream.cloud.as_ref().unwrap();
    assert_eq!(cloud.model.as_deref(), Some("auto"));
    assert!(cloud.base_url.is_empty());
    let view = view_from_config(&file);
    assert!(!view.cloud.as_ref().unwrap().configured);
    assert_eq!(view.cloud.as_ref().unwrap().model.as_deref(), Some("auto"));
}

#[test]
fn patch_cloud_url() {
    let mut file = ConfigFile::default();
    apply_default_upstream(&mut file);
    apply_upstream_patch(
        &mut file,
        &UpstreamSetupUpdate {
            cloud: Some(UpstreamEndpointPatch {
                base_url: Some("https://api.deepseek.com/v1".into()),
                ..Default::default()
            }),
            ..Default::default()
        },
    );
    assert!(endpoint_configured(file.upstream.cloud.as_ref().unwrap()));
}

fn endpoint(url: &str, key: Option<&str>, model: Option<&str>) -> UpstreamEndpoint {
    UpstreamEndpoint {
        base_url: url.to_string(),
        api_key: key.map(|k| k.to_string()),
        model: model.map(|m| m.to_string()),
    }
}

#[test]
fn blank_url_is_not_configured() {
    assert!(!endpoint_configured(&endpoint("   \t", None, None)));
    assert!(!endpoint_configured(&endpoint("\u{3000}", None, None)));
    assert!(endpoint_configured(&endpoint(" http://x/v1 ", None, None)));
}

#[test]
fn patch_trims_and_clears_fields() {
    let mut slot = Some(endpoint("http://old/v1", Some("k"), Some("m")));
    apply_tier_patch(
        &mut slot,
        &UpstreamEndpointPatch {
            base_url: Some("  http://new/v1  ".into()),
            api_key: Some("   ".into()),
            model: Some(" qwen ".into()),
            clear: false,
        },
    );
    let e = slot.unwrap();
    assert_eq!(e.base_url, "http://new/v1");
    assert_eq!(e.api_key, None);
    assert_eq!(e.model.as_deref(), Some("qwen"));
}

#[test]
fn patch_clear_removes_tier() {
    let mut slot = Some(endpoint("http://old/v1", None, None));
    apply_tier_patch(
        &mut slot,
        &UpstreamEndpointPatch { base_url: Some("http://x/v1".into()), clear: true, ..Default::default() },
    );
    assert!(slot.is_none());
}

#[test]
fn patch_leaving_nothing_drops_tier() {
    let mut slot = Some(endpoint("http://old/v1", None, None));
    apply_tier_patch(&mut slot, &UpstreamEndpointPatch { base_url: Some("  ".into()), ..Default::default() });
    assert!(slot.is_none());
}

#[test]
fn patch_on_empty_slot_creates_endpoint() {
    let mut slot = None;
    apply_tier_patch(&mut slot, &UpstreamEndpointPatch { api_key: Some(" sk ".into()), ..Default::default() });
    let e = slot.unwrap();
    assert_eq!(e.base_url, "");
    assert_eq!(e.api_key.as_deref(), Some("sk"));
    assert_eq!(e.model, None);
}

#[test]
fn view_reports_key_presence_only() {
    let mut file = ConfigFile::default();
    file.upstream.edge = Some(endpoint("http://127.0.0.1:11434/v1", Some("secret"), None));
    let view = view_from_config(&file);
    let edge = view.edge.unwrap();
    assert!(edge.configured);
    assert!(edge.api_key_set);
    assert_eq!(edge.base_url, "http://127.0.0.1:11434/v1");
    assert!(view.cloud.is_none());
}

#[test]
fn clear_applies_to_edge_only() {
    let mut file = ConfigFile::default();
    apply_default_upstream(&mut file);
    apply_upstream_patch(
        &mut file,
        &UpstreamSetupUpdate {
            edge: Some(UpstreamEndpointPatch { base_url: Some("http://e/v1".into()), ..Default::default() }),
            cloud: None,
        },
    );
    assert!(file.upstream.edge.is_some());
    apply_upstream_patch(
        &mut file,
        &UpstreamSetupUpdate {
            edge: Some(UpstreamEndpointPatch { clear: true, ..Default::default() }),
            cloud: Some(UpstreamEndpointPatch {
                base_url: Some(" https://api.deepseek.com/v1 ".into()),
                clear: true,
                ..Default::default()
            }),
        },
    );
    assert!(file.upstream.edge.is_none());
    let cloud = file.upstream.cloud.as_ref().unwrap();
    assert_eq!(cloud.base_url, "https://api.deepseek.com/v1");
    assert_eq!(cloud.model.as_deref(), Some("auto"));
}
