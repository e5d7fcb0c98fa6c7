use zenoh_sandbox::sandbox::{ConfigStep, ZenohConfigEdit, ZenohMode};
use zenoh_sandbox::ts::config::ZenohConfigJson;

#[test]
fn mode_names() {
    assert_eq!(ZenohMode::Peer.as_str(), "peer");
    assert_eq!(ZenohMode::Router.as_str(), "router");
    assert_eq!(ZenohMode::Client.as_str(), "client");
}

#[test]
fn mode_from_name() {
    assert_eq!(ZenohMode::from_str("peer"), Ok(ZenohMode::Peer));
    assert_eq!(ZenohMode::from_str("router"), Ok(ZenohMode::Router));
    assert_eq!(ZenohMode::from_str("client"), Ok(ZenohMode::Client));
}

#[test]
fn mode_from_unknown_name() {
    assert_eq!(
        ZenohMode::from_str("broker"),
        Err("Invalid mode: broker. Must be 'peer', 'router', or 'client'".to_string())
    );
    assert_eq!(
        ZenohMode::from_str("Peer"),
        Err("Invalid mode: Peer. Must be 'peer', 'router', or 'client'".to_string())
    );
    assert_eq!(
        ZenohMode::from_str(""),
        Err("Invalid mode: . Must be 'peer', 'router', or 'client'".to_string())
    );
}

#[test]
fn mode_name_round_trip() {
    for mode in [ZenohMode::Peer, ZenohMode::Router, ZenohMode::Client] {
        assert_eq!(ZenohMode::from_str(mode.as_str()), Ok(mode));
    }
}

#[test]
fn mode_default_is_peer() {
    assert_eq!(ZenohMode::default(), ZenohMode::Peer);
}

#[test]
fn edit_new() {
    assert_eq!(
        ZenohConfigEdit::new("router"),
        Ok(ZenohConfigEdit { mode: ZenohMode::Router })
    );
    assert_eq!(
        ZenohConfigEdit::new("x"),
        Err("Invalid mode: x. Must be 'peer', 'router', or 'client'".to_string())
    );
}

#[test]
fn edit_from_config_and_back() {
    assert_eq!(ZenohConfigEdit::from_config(None).mode, ZenohMode::Peer);
    assert_eq!(
        ZenohConfigEdit::from_config(Some(ZenohMode::Client)).mode,
        ZenohMode::Client
    );
    assert_eq!(
        ZenohConfigEdit { mode: ZenohMode::Router }.to_what_am_i(),
        ZenohMode::Router
    );
}

#[test]
fn overrides_of_a_start() {
    assert_eq!(
        ZenohConfigJson::runtime_overrides(10000),
        vec![
            ConfigStep::EnableAdminspace,
            ConfigStep::EnablePluginsLoading,
            ConfigStep::InsertJson5 {
                key: "plugins/remote_api".to_string(),
                value: "{}".to_string()
            },
            ConfigStep::InsertJson5 {
                key: "plugins/remote_api/websocket_port".to_string(),
                value: "\"10000\"".to_string()
            },
        ]
    );
}

#[test]
fn default_configuration_steps() {
    assert_eq!(
        ZenohConfigJson::create_default("client", "7447"),
        Ok(vec![
            ConfigStep::SetMode(ZenohMode::Client),
            ConfigStep::EnableAdminspace,
            ConfigStep::EnablePluginsLoading,
            ConfigStep::InsertJson5 {
                key: "plugins/remote_api".to_string(),
                value: "{}".to_string()
            },
            ConfigStep::InsertJson5 {
                key: "plugins/remote_api/websocket_port".to_string(),
                value: "\"7447\"".to_string()
            },
        ])
    );
    assert_eq!(
        ZenohConfigJson::create_default("server", "7447"),
        Err("Invalid mode: server. Must be 'peer', 'router', or 'client'".to_string())
    );
}

#[test]
fn step_failure_messages() {
    assert_eq!(
        ConfigStep::SetMode(ZenohMode::Peer).failure_message("no"),
        "Failed to set mode: no"
    );
    assert_eq!(
        ConfigStep::EnableAdminspace.failure_message("no"),
        "Failed to enable adminspace: no"
    );
    assert_eq!(
        ConfigStep::EnablePluginsLoading.failure_message("no"),
        "Failed to enable plugins loading: no"
    );
    let steps = ZenohConfigJson::runtime_overrides(1);
    assert_eq!(
        steps[2].failure_message("no"),
        "Failed to add remote_api plugin config: no"
    );
    assert_eq!(steps[3].failure_message("no"), "Failed to set websocket_port: no");
}
