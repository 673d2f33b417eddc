use mihomo_tui::config::profile::{
    Profile, ProfileManager, ProfileRemote, ProfileTraffics, RefreshOutcome,
};
use mihomo_tui::config::tui::{TuiConfig, TuiConfigMode};

#[test]
fn default_configuration_points_at_the_local_controller() {
    let config = TuiConfig::default();
    assert_eq!(config.controller_api, "http://localhost:9090");
    assert_eq!(config.controller_api_secret, None);
    assert_eq!(config.mihomo_data_dir, None);
    assert_eq!(config.mode, TuiConfigMode::Direct);
}

#[test]
fn mode_wire_spellings() {
    assert_eq!(TuiConfigMode::Direct.as_str(), "direct");
    assert_eq!(TuiConfigMode::Global.as_str(), "global");
    assert_eq!(TuiConfigMode::Rule.as_str(), "rule");
}

#[test]
fn api_client_carries_the_configured_endpoint_and_secret() {
    let mut config = TuiConfig::default();
    config.controller_api = "http://127.0.0.1:9091".to_string();
    config.controller_api_secret = Some("a-bearer-secret".to_string());
    let api = config.get_mihomo_api();
    assert_eq!(api.endpoint("/configs"), "http://127.0.0.1:9091/configs");
    assert_eq!(api.token().as_deref(), Some("a-bearer-secret"));

    config.controller_api_secret = None;
    let api = config.get_mihomo_api();
    assert_eq!(api.endpoint("/restart"), "http://127.0.0.1:9091/restart");
    assert_eq!(api.token(), &None);
}

#[test]
fn new_profiles_are_local_and_idle_with_fresh_ids() {
    let p = Profile::default();
    assert_eq!(p.uuid.len(), 36);
    assert_eq!(p.name, "New Profile");
    assert!(p.remote.is_none());
    assert!(p.updated_at.is_none());
    assert!(p.expired_at.is_none());
    assert!(p.traffics.is_none());
    assert!(!p.updating);

    // Two fresh profiles get different ids.
    let q = Profile::default();
    assert_ne!(p.uuid, q.uuid);

    let remote = ProfileRemote::default();
    assert_eq!(remote.url, "");
    assert!(!remote.use_system_proxy);
    assert!(!remote.use_mihomo_proxy);
    assert!(!remote.allow_invalid_certificates);
    assert!(!remote.user_agent.is_empty());
}

#[test]
fn updating_marker_is_cleared_on_every_refresh_outcome() {
    let mut p = Profile::default();
    p.remote = Some(ProfileRemote::default());

    // Failure path: nothing but the marker changes.
    p.begin_update();
    assert!(p.updating);
    p.finish_update(RefreshOutcome::Failed, 1000);
    assert!(!p.updating);
    assert_eq!(p.updated_at, None);
    assert_eq!(p.traffics, None);

    // Success without a header: only the refresh time is recorded.
    p.begin_update();
    p.finish_update(RefreshOutcome::Fetched { userinfo: None }, 2000);
    assert!(!p.updating);
    assert_eq!(p.updated_at, Some(2000));
    assert_eq!(p.traffics, None);

    // Success with a header: traffic and expiry follow the header.
    p.begin_update();
    p.finish_update(
        RefreshOutcome::Fetched {
            userinfo: Some("upload=100;download=50;total=1000;expire=1700000000".to_string()),
        },
        3000,
    );
    assert!(!p.updating);
    assert_eq!(p.updated_at, Some(3000));
    assert_eq!(
        p.traffics,
        Some(ProfileTraffics { used: Some(150), total: Some(1000) })
    );
    assert_eq!(p.expired_at, Some(1700000000));
}

#[test]
fn registry_hands_out_its_profiles_for_mutation() {
    let mut manager = ProfileManager::new();
    assert_eq!(manager.len(), 0);

    let mut named = Profile::default();
    named.name = "home".to_string();
    manager.get_all().push(named);
    assert_eq!(manager.len(), 1);
    assert_eq!(manager.get_all()[0].name, "home");

    let loaded = ProfileManager::from_profiles(vec![Profile::default(), Profile::default()]);
    assert_eq!(loaded.len(), 2);
}
