use gputools_replay::replay::config::ReplayerConfig;

#[test]
fn default_sets_nothing() {
    let c = ReplayerConfig::default();
    assert!(!c.force_load_unused_resources);
    assert_eq!(c.device_registry_id, None);
}

fn plan(c: &ReplayerConfig) -> Vec<(&'static str, Option<String>)> {
    c.env_plan().into_iter().map(|s| (s.name, s.value)).collect()
}

#[test]
fn env_plan_owns_all_three_variables() {
    assert_eq!(
        plan(&ReplayerConfig::default()),
        vec![
            ("MTLREPLAYER_FORCE_LOAD_UNUSED_RESOURCE", None),
            ("MTLREPLAYER_IGNORE_UNUSED_RESOURCE", None),
            ("MTLREPLAYER_OVERRIDE_DEVICE_REGISTRY_ID", None),
        ]
    );
    let cfg = ReplayerConfig {
        force_load_unused_resources: true,
        ignore_unused_resources: false,
        device_registry_id: Some(4294968325),
    };
    assert_eq!(
        plan(&cfg),
        vec![
            ("MTLREPLAYER_FORCE_LOAD_UNUSED_RESOURCE", Some("1".to_string())),
            ("MTLREPLAYER_IGNORE_UNUSED_RESOURCE", None),
            (
                "MTLREPLAYER_OVERRIDE_DEVICE_REGISTRY_ID",
                Some("4294968325".to_string())
            ),
        ]
    );
}
