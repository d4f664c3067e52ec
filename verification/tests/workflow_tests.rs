use bosca_server::workflow::{
    apply_transition, can_wait_for_plan, collection_ready_workflow, enqueue_error_message, enqueue_target, find_override,
    merge_configuration, metadata_ready_plan, plan_complete, ready_error_message, transition_record, ConfigValue,
    copy_config, job_storage_systems, plan_configurations,
    EnqueueError, EnqueueTarget, ReadyError, WorkflowStatus, COLLECTION_PROCESS, METADATA_PROCESS, MAX_PLAN_FAILURES,
};

fn status(state: &str) -> WorkflowStatus {
    WorkflowStatus { state_id: state.to_string(), pending_id: None, valid: None }
}

#[test]
fn completed_transition_moves_to_the_target() {
    let s = apply_transition(&status("draft"), "published", Some(99), true, true);
    assert_eq!(s.state_id, "published");
    assert!(s.pending_id.is_none());
    assert!(s.valid.is_none());
}

#[test]
fn transition_under_way_is_pending() {
    let s = apply_transition(&status("draft"), "published", Some(99), true, false);
    assert_eq!(s.state_id, "draft");
    assert_eq!(s.pending_id.as_deref(), Some("published"));
    assert_eq!(s.valid, Some(99));
}

#[test]
fn failed_transition_keeps_the_state_and_clears_pending() {
    let mut before = status("draft");
    before.pending_id = Some("review".to_string());
    before.valid = Some(5);
    for complete in [true, false] {
        let s = apply_transition(&before, "published", Some(99), false, complete);
        assert_eq!(s.state_id, "draft");
        assert!(s.pending_id.is_none());
        assert!(s.valid.is_none());
    }
}

#[test]
fn reporting_a_transition_twice_changes_nothing_more() {
    for (success, complete) in [(true, true), (true, false), (false, true), (false, false)] {
        let once = apply_transition(&status("draft"), "published", Some(7), success, complete);
        let twice = apply_transition(&once, "published", Some(7), success, complete);
        assert_eq!(once.state_id, twice.state_id);
        assert_eq!(once.pending_id, twice.pending_id);
        assert_eq!(once.valid, twice.valid);
    }
}

#[test]
fn transition_history_row() {
    let r = transition_record(4, &status("draft"), "published", 8, "move", true, false);
    assert_eq!((r.entity_id, r.principal, r.success, r.complete), (4, 8, true, false));
    assert_eq!((r.from_state_id.as_str(), r.to_state_id.as_str(), r.status.as_str()), ("draft", "published", "move"));
}

#[test]
fn ready_plans() {
    assert!(metadata_ready_plan(Some(1), &"text/plain".to_string()).is_none());
    let p = metadata_ready_plan(None, &"bosca/v-guide".to_string()).unwrap();
    assert_eq!(p.workflow_id, METADATA_PROCESS);
    assert!(p.include_guide_steps);
    let p = metadata_ready_plan(None, &"text/plain".to_string()).unwrap();
    assert_eq!(p.workflow_id, "metadata.process");
    assert!(!p.include_guide_steps);
    assert_eq!(collection_ready_workflow(Some(3)), Err(ReadyError::AlreadyReady));
    assert_eq!(collection_ready_workflow(None), Ok(COLLECTION_PROCESS.to_string()));
    assert_eq!(ready_error_message(ReadyError::AlreadyReady), "collection already ready");
}

#[test]
fn enqueue_targets() {
    assert_eq!(enqueue_target(true, false, true), Err(EnqueueError::WorkflowAndTrait));
    assert_eq!(enqueue_target(false, true, true), Err(EnqueueError::WorkflowAndTrait));
    assert_eq!(enqueue_target(false, false, true), Ok(EnqueueTarget::Trait));
    assert_eq!(enqueue_target(true, true, false), Ok(EnqueueTarget::Workflow));
    assert_eq!(enqueue_target(false, true, false), Ok(EnqueueTarget::WorkflowId));
    assert_eq!(enqueue_target(false, false, false), Err(EnqueueError::NothingToEnqueue));
    assert_eq!(enqueue_error_message(EnqueueError::WorkflowAndTrait), "cannot enqueue workflow and trait");
    assert_eq!(enqueue_error_message(EnqueueError::NothingToEnqueue), "must enqueue workflow or trait");
}

#[test]
fn plan_waiting_and_completion() {
    assert!(can_wait_for_plan(None, 100));
    assert!(can_wait_for_plan(Some(101), 100));
    assert!(!can_wait_for_plan(Some(100), 100));
    assert!(plan_complete(3, 3));
    assert!(!plan_complete(2, 3));
    assert_eq!(MAX_PLAN_FAILURES, 10);
}

fn object(entries: &[(&str, &str)]) -> ConfigValue {
    ConfigValue::Object(entries.iter().map(|(k, v)| (k.to_string(), v.to_string())).collect())
}

fn lookup(v: &ConfigValue, key: &str) -> Option<String> {
    match v {
        ConfigValue::Object(e) => e.iter().rev().find(|(k, _)| k == key).map(|(_, v)| v.clone()),
        _ => None,
    }
}

#[test]
fn object_override_merges_key_by_key() {
    let current = object(&[("a", "1"), ("b", "2")]);
    let over = object(&[("b", "3"), ("c", "4")]);
    let merged = merge_configuration(Some(current), Some(&over)).unwrap();
    assert_eq!(lookup(&merged, "a").as_deref(), Some("1"));
    assert_eq!(lookup(&merged, "b").as_deref(), Some("3"));
    assert_eq!(lookup(&merged, "c").as_deref(), Some("4"));
}

#[test]
fn override_replaces_missing_or_null_and_leaves_other_values() {
    let over = object(&[("x", "\"y\"")]);
    let merged = merge_configuration(None, Some(&over)).unwrap();
    assert_eq!(lookup(&merged, "x").as_deref(), Some("\"y\""));
    let merged = merge_configuration(Some(ConfigValue::Null), Some(&over)).unwrap();
    assert_eq!(lookup(&merged, "x").as_deref(), Some("\"y\""));
    match merge_configuration(Some(ConfigValue::Other("[1]".to_string())), Some(&over)) {
        Some(ConfigValue::Other(t)) => assert_eq!(t, "[1]"),
        other => panic!("unexpected {:?}", other),
    }
    match merge_configuration(Some(object(&[("a", "1")])), Some(&ConfigValue::Other("5".to_string()))) {
        Some(v) => assert_eq!(lookup(&v, "a").as_deref(), Some("1")),
        None => panic!("configuration lost"),
    }
    assert!(merge_configuration(None, None).is_none());
}

#[test]
fn last_override_for_an_activity_wins() {
    let overrides = vec![
        ("a".to_string(), object(&[("k", "1")])),
        ("b".to_string(), object(&[("k", "2")])),
        ("a".to_string(), object(&[("k", "3")])),
    ];
    let found = find_override(&overrides, &"a".to_string()).unwrap();
    assert_eq!(lookup(found, "k").as_deref(), Some("3"));
    assert!(find_override(&overrides, &"c".to_string()).is_none());
}

#[test]
fn plan_configurations_apply_each_activitys_override() {
    let activities = vec![
        ("a".to_string(), Some(object(&[("x", "1")]))),
        ("b".to_string(), None),
        ("c".to_string(), Some(ConfigValue::Null)),
    ];
    let overrides = vec![("a".to_string(), object(&[("y", "2")])), ("b".to_string(), object(&[("z", "3")]))];
    let planned = plan_configurations(&activities, &overrides);
    assert_eq!(planned.len(), 3);
    let a = planned[0].as_ref().unwrap();
    assert_eq!((lookup(a, "x").as_deref(), lookup(a, "y").as_deref()), (Some("1"), Some("2")));
    assert_eq!(lookup(planned[1].as_ref().unwrap(), "z").as_deref(), Some("3"));
    assert!(matches!(planned[2], Some(ConfigValue::Null)));
}

#[test]
fn copies_and_storage_systems() {
    match copy_config(&ConfigValue::Other("[1]".to_string())) {
        ConfigValue::Other(t) => assert_eq!(t, "[1]"),
        other => panic!("unexpected {:?}", other),
    }
    assert_eq!(job_storage_systems(&vec![1, 2], &Some(vec![3])), vec![1, 2, 3]);
    assert_eq!(job_storage_systems(&vec![1], &None), vec![1]);
    assert_eq!(job_storage_systems(&vec![], &Some(vec![])), Vec::<u128>::new());
}
