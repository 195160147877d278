use deploy_notify::detector::{
    detect_changes, extract_deployment_state, is_deployment_complete, is_replicas_ready,
    resource_key, DeploymentEvent, RawSnapshot,
};
use deploy_notify::state::StateManager;

fn snap(
    gen: i64,
    replicas: i32,
    ready: i32,
    avail: i32,
    upd: i32,
    obs_gen: i64,
    hash: &str,
) -> RawSnapshot {
    RawSnapshot {
        namespace: Some("default".to_string()),
        name: Some("app".to_string()),
        generation: Some(gen),
        replicas: Some(replicas),
        ready_replicas: Some(ready),
        available_replicas: Some(avail),
        updated_replicas: Some(upd),
        observed_generation: Some(obs_gen),
        pod_template: Some(hash.to_string()),
    }
}

#[test]
fn bootstrap_emits_nothing_and_records_bookkeeping() {
    let mut mgr = StateManager::new();
    let events = detect_changes(&snap(7, 4, 2, 1, 0, 5, "H1"), &mut mgr);
    assert!(events.is_empty());
    let st = mgr.get("default/app").expect("state stored on first sight");
    assert_eq!(st.last_completed_generation, 7);
    assert_eq!(st.last_scaled_replicas, 4);
    assert_eq!(st.generation, 7);
    assert_eq!(st.replicas, 4);
}

#[test]
fn identical_snapshot_twice_emits_nothing() {
    let mut mgr = StateManager::new();
    detect_changes(&snap(1, 3, 3, 3, 3, 1, "H1"), &mut mgr);
    let before = mgr.get("default/app").unwrap();
    let events = detect_changes(&snap(1, 3, 3, 3, 3, 1, "H1"), &mut mgr);
    assert!(events.is_empty());
    let events_again = detect_changes(&snap(1, 3, 3, 3, 3, 1, "H1"), &mut mgr);
    assert!(events_again.is_empty());
    let after = mgr.get("default/app").unwrap();
    assert_eq!(before, after);
}

#[test]
fn stable_state_without_generation_bump_emits_nothing() {
    let mut mgr = StateManager::new();
    detect_changes(&snap(1, 3, 3, 3, 3, 1, "H1"), &mut mgr);
    let events = detect_changes(&snap(1, 3, 3, 3, 3, 1, "H1"), &mut mgr);
    assert_eq!(events, vec![]);
}

#[test]
fn rollout_start_emits_deployment_started() {
    let mut mgr = StateManager::new();
    detect_changes(&snap(1, 3, 3, 3, 3, 1, "H1"), &mut mgr);
    let events = detect_changes(&snap(2, 3, 0, 0, 0, 1, "H2"), &mut mgr);
    assert_eq!(
        events,
        vec![DeploymentEvent::DeploymentStarted {
            namespace: "default".to_string(),
            name: "app".to_string(),
            old_generation: 1,
            new_generation: 2,
            old_replicas: None,
            new_replicas: None,
        }]
    );
}

#[test]
fn rollout_completion_emits_deployment_completed() {
    let mut mgr = StateManager::new();
    detect_changes(&snap(1, 3, 3, 3, 3, 1, "H1"), &mut mgr);
    detect_changes(&snap(2, 3, 0, 0, 0, 1, "H2"), &mut mgr);
    let events = detect_changes(&snap(2, 3, 3, 3, 3, 2, "H2"), &mut mgr);
    assert_eq!(
        events,
        vec![DeploymentEvent::DeploymentCompleted {
            namespace: "default".to_string(),
            name: "app".to_string(),
            generation: 2,
            replicas: 3,
            replica_changed: None,
        }]
    );
    let st = mgr.get("default/app").unwrap();
    assert_eq!(st.last_completed_generation, 2);
}

#[test]
fn pure_scale_via_generation_bump_emits_scale_started() {
    let mut mgr = StateManager::new();
    detect_changes(&snap(2, 3, 3, 3, 3, 2, "H2"), &mut mgr);
    let events = detect_changes(&snap(3, 5, 0, 0, 0, 2, "H2"), &mut mgr);
    assert_eq!(
        events,
        vec![DeploymentEvent::ReplicaScaleStarted {
            namespace: "default".to_string(),
            name: "app".to_string(),
            old_replicas: 3,
            new_replicas: 5,
        }]
    );
    let st = mgr.get("default/app").unwrap();
    assert_eq!(st.last_completed_generation, 3);
    assert_eq!(st.last_scaled_replicas, 3);
}

#[test]
fn scale_completion_emits_scale_completed_without_rollout_refire() {
    let mut mgr = StateManager::new();
    detect_changes(&snap(2, 3, 3, 3, 3, 2, "H2"), &mut mgr);
    detect_changes(&snap(3, 5, 0, 0, 0, 2, "H2"), &mut mgr);
    let events = detect_changes(&snap(3, 5, 5, 5, 5, 3, "H2"), &mut mgr);
    assert_eq!(
        events,
        vec![DeploymentEvent::ReplicaScaleCompleted {
            namespace: "default".to_string(),
            name: "app".to_string(),
            replicas: 5,
        }]
    );
    let st = mgr.get("default/app").unwrap();
    assert_eq!(st.last_scaled_replicas, 5);
}

#[test]
fn rollout_with_replica_change_absorbs_the_scale() {
    let mut mgr = StateManager::new();
    detect_changes(&snap(1, 3, 3, 3, 3, 1, "H1"), &mut mgr);
    let events = detect_changes(&snap(2, 5, 0, 0, 0, 1, "H2"), &mut mgr);
    assert_eq!(
        events,
        vec![DeploymentEvent::DeploymentStarted {
            namespace: "default".to_string(),
            name: "app".to_string(),
            old_generation: 1,
            new_generation: 2,
            old_replicas: Some(3),
            new_replicas: Some(5),
        }]
    );
    let st = mgr.get("default/app").unwrap();
    assert_eq!(st.last_scaled_replicas, 5);
    // The absorbed replica change must not fire a scale completion later.
    let done = detect_changes(&snap(2, 5, 5, 5, 5, 2, "H2"), &mut mgr);
    assert_eq!(
        done,
        vec![DeploymentEvent::DeploymentCompleted {
            namespace: "default".to_string(),
            name: "app".to_string(),
            generation: 2,
            replicas: 5,
            replica_changed: None,
        }]
    );
}

#[test]
fn instant_rollout_emits_started_then_completed_in_order() {
    let mut mgr = StateManager::new();
    detect_changes(&snap(1, 3, 3, 3, 3, 1, "H1"), &mut mgr);
    let events = detect_changes(&snap(2, 5, 5, 5, 5, 2, "H2"), &mut mgr);
    assert_eq!(
        events,
        vec![
            DeploymentEvent::DeploymentStarted {
                namespace: "default".to_string(),
                name: "app".to_string(),
                old_generation: 1,
                new_generation: 2,
                old_replicas: Some(3),
                new_replicas: Some(5),
            },
            DeploymentEvent::DeploymentCompleted {
                namespace: "default".to_string(),
                name: "app".to_string(),
                generation: 2,
                replicas: 5,
                replica_changed: Some((3, 5)),
            },
        ]
    );
}

#[test]
fn instant_scale_bump_completes_against_the_incoming_bookkeeping() {
    // A scale-only generation bump whose snapshot is already fully ready:
    // rollout completion is judged against the bookkeeping as it stood at
    // the start of the observation, so it fires for the new generation,
    // and the scale start and completion follow it in order.
    let mut mgr = StateManager::new();
    detect_changes(&snap(2, 3, 3, 3, 3, 2, "H2"), &mut mgr);
    let events = detect_changes(&snap(3, 5, 5, 5, 5, 3, "H2"), &mut mgr);
    assert_eq!(
        events,
        vec![
            DeploymentEvent::DeploymentCompleted {
                namespace: "default".to_string(),
                name: "app".to_string(),
                generation: 3,
                replicas: 5,
                replica_changed: Some((3, 5)),
            },
            DeploymentEvent::ReplicaScaleStarted {
                namespace: "default".to_string(),
                name: "app".to_string(),
                old_replicas: 3,
                new_replicas: 5,
            },
            DeploymentEvent::ReplicaScaleCompleted {
                namespace: "default".to_string(),
                name: "app".to_string(),
                replicas: 5,
            },
        ]
    );
    let st = mgr.get("default/app").unwrap();
    assert_eq!(st.last_completed_generation, 3);
    assert_eq!(st.last_scaled_replicas, 5);
}

#[test]
fn replica_change_without_generation_bump_emits_scale_started() {
    let mut mgr = StateManager::new();
    detect_changes(&snap(1, 3, 3, 3, 3, 1, "H1"), &mut mgr);
    let events = detect_changes(&snap(1, 5, 0, 0, 0, 1, "H1"), &mut mgr);
    assert_eq!(
        events,
        vec![DeploymentEvent::ReplicaScaleStarted {
            namespace: "default".to_string(),
            name: "app".to_string(),
            old_replicas: 3,
            new_replicas: 5,
        }]
    );
}

#[test]
fn normalizer_defaults_every_missing_field() {
    let raw = RawSnapshot {
        namespace: None,
        name: None,
        generation: None,
        replicas: None,
        ready_replicas: None,
        available_replicas: None,
        updated_replicas: None,
        observed_generation: None,
        pod_template: None,
    };
    let st = extract_deployment_state(&raw);
    assert_eq!(st.namespace, "");
    assert_eq!(st.name, "");
    assert_eq!(st.generation, 0);
    assert_eq!(st.replicas, 1);
    assert_eq!(st.ready_replicas, 0);
    assert_eq!(st.available_replicas, 0);
    assert_eq!(st.updated_replicas, 0);
    assert_eq!(st.observed_generation, 0);
    assert_eq!(st.pod_template_hash, "");
}

#[test]
fn resource_key_defaults_namespace_and_name() {
    let raw = RawSnapshot {
        namespace: None,
        name: None,
        generation: Some(1),
        replicas: Some(1),
        ready_replicas: Some(1),
        available_replicas: Some(1),
        updated_replicas: Some(1),
        observed_generation: Some(1),
        pod_template: Some("T".to_string()),
    };
    assert_eq!(resource_key(&raw), "default/unknown");
    let named = RawSnapshot {
        namespace: Some("prod".to_string()),
        name: Some("web".to_string()),
        ..raw
    };
    assert_eq!(resource_key(&named), "prod/web");
}

#[test]
fn completion_predicates_compare_counters() {
    let st = extract_deployment_state(&snap(2, 3, 3, 3, 3, 2, "H"));
    assert!(is_deployment_complete(&st));
    assert!(is_replicas_ready(&st));
    let lagging = extract_deployment_state(&snap(2, 3, 3, 3, 2, 2, "H"));
    assert!(!is_deployment_complete(&lagging));
    assert!(is_replicas_ready(&lagging));
    let behind = extract_deployment_state(&snap(2, 3, 2, 3, 3, 2, "H"));
    assert!(!is_deployment_complete(&behind));
    assert!(!is_replicas_ready(&behind));
}

#[test]
fn interleaved_keys_end_as_if_processed_alone() {
    let web = |gen: i64, replicas: i32, ready: i32, obs: i64| RawSnapshot {
        namespace: Some("prod".to_string()),
        name: Some("web".to_string()),
        generation: Some(gen),
        replicas: Some(replicas),
        ready_replicas: Some(ready),
        available_replicas: Some(ready),
        updated_replicas: Some(ready),
        observed_generation: Some(obs),
        pod_template: Some("W".to_string()),
    };
    let api = |gen: i64, replicas: i32, ready: i32, obs: i64| RawSnapshot {
        namespace: Some("prod".to_string()),
        name: Some("api".to_string()),
        generation: Some(gen),
        replicas: Some(replicas),
        ready_replicas: Some(ready),
        available_replicas: Some(ready),
        updated_replicas: Some(ready),
        observed_generation: Some(obs),
        pod_template: Some("A".to_string()),
    };

    let mut mixed = StateManager::new();
    detect_changes(&web(1, 3, 3, 1), &mut mixed);
    detect_changes(&api(4, 2, 2, 4), &mut mixed);
    detect_changes(&web(1, 5, 3, 1), &mut mixed);
    detect_changes(&api(4, 2, 2, 4), &mut mixed);
    detect_changes(&web(1, 5, 5, 1), &mut mixed);

    let mut web_alone = StateManager::new();
    detect_changes(&web(1, 3, 3, 1), &mut web_alone);
    detect_changes(&web(1, 5, 3, 1), &mut web_alone);
    detect_changes(&web(1, 5, 5, 1), &mut web_alone);

    let mut api_alone = StateManager::new();
    detect_changes(&api(4, 2, 2, 4), &mut api_alone);
    detect_changes(&api(4, 2, 2, 4), &mut api_alone);

    assert_eq!(mixed.get("prod/web"), web_alone.get("prod/web"));
    assert_eq!(mixed.get("prod/api"), api_alone.get("prod/api"));
}
