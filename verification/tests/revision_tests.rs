use bosca_server::caching_headers::{caching_header_values, CachingHeaderManager};
use bosca_server::collection_batch::{
    batch_entry, batch_outcome, batch_parent_admits, batch_permissions, nested_batch, BatchEntry, BatchItem,
};
use bosca_server::collection_files::{
    collection_download_decision, collection_upload_decision, download_headers, Params as CollectionParams,
};
use bosca_server::content::{content_error_message, ContentError, ROOT_COLLECTION_ID};
use bosca_server::context::{resolve_collection, resolve_metadata_version, CheckError};
use bosca_server::files::{metadata_download_decision, metadata_upload_decision, Params};
use bosca_server::metadata_input::{metadata_write_plan, MetadataProfileInput};
use bosca_server::models::{Collection, Metadata, Permission, PermissionAction};
use bosca_server::templates::{check_template_parts, guide_step_plans, guide_step_row, new_document_item, new_guide_item, GuideStepRow};
use bosca_server::workflow::{
    assemble_plan, enqueue_places_plans, enqueue_plan_workflows, looked_up_workflow, new_execution_plan, plan_error_message,
    plan_workflow_source, ConfigValue, EnqueueRequest, EnqueueTarget, PlanActivity, PlanError, PlanWorkflow,
    PlanWorkflowSource,
};

const A: &str = "67e55044-10b1-426f-9247-bb680e5fe0c8";
const A_ID: u128 = 0x67e5504410b1426f9247bb680e5fe0c8;

fn metadata(id: u128, version: i32) -> Metadata {
    Metadata {
        id,
        name: "n".to_string(),
        content_type: "text/plain".to_string(),
        version,
        active_version: version,
        deleted: false,
        public: false,
        public_content: false,
        public_supplementary: false,
        workflow_state_id: "draft".to_string(),
        ready: None,
    }
}

#[test]
fn version_and_collection_resolution() {
    assert_eq!(resolve_metadata_version(5, 2, None).unwrap_err(), CheckError::MetadataNotFound(5));
    let m = resolve_metadata_version(5, 2, Some(metadata(5, 2))).unwrap();
    assert_eq!((m.id, m.version), (5, 2));
    assert_eq!(resolve_collection(7, None).unwrap_err(), CheckError::CollectionNotFound(7));
    let c = Collection {
        id: 7,
        name: "c".to_string(),
        deleted: false,
        public: false,
        public_list: false,
        public_supplementary: false,
        workflow_state_id: "draft".to_string(),
        ready: None,
    };
    assert_eq!(resolve_collection(7, Some(c)).unwrap().id, 7);
    assert_eq!(CheckError::CollectionNotFound(7).message(), "collection not found: 00000000-0000-0000-0000-000000000007");
}

fn reject(r: Result<u128, bosca_server::files::Rejection>) -> (u16, String) {
    let e = r.unwrap_err();
    (e.status, e.message)
}

#[test]
fn collection_download_decisions() {
    let good = CollectionParams { supplementary_id: A.to_string(), redirect: None };
    let bad = CollectionParams { supplementary_id: "x".to_string(), redirect: None };
    assert_eq!(reject(collection_download_decision(false, &good, true, true, true, false, false, true)), (401, "Unauthorized".to_string()));
    assert_eq!(reject(collection_download_decision(true, &bad, true, true, true, false, false, true)), (500, "Internal Server Error".to_string()));
    assert_eq!(reject(collection_download_decision(true, &good, true, false, true, false, false, true)), (403, "Forbidden".to_string()));
    assert_eq!(reject(collection_download_decision(true, &good, false, true, false, false, false, true)), (403, "Forbidden".to_string()));
    assert_eq!(reject(collection_download_decision(true, &good, false, false, true, true, false, true)), (404, "Not Found".to_string()));
    assert_eq!(collection_download_decision(true, &good, false, false, true, true, true, true).unwrap(), A_ID);
    assert_eq!(collection_download_decision(true, &good, true, true, false, false, false, true).unwrap(), A_ID);
    assert_eq!(reject(collection_download_decision(true, &good, true, true, false, false, false, false)).0, 500);
    assert_eq!(reject(collection_upload_decision(false, &good, true)).0, 401);
    assert_eq!(reject(collection_upload_decision(true, &bad, true)), (400, "Bad Request".to_string()));
    assert_eq!(reject(collection_upload_decision(true, &good, false)), (403, "Forbidden".to_string()));
    assert_eq!(collection_upload_decision(true, &good, true).unwrap(), A_ID);
    assert_eq!(download_headers("audio/mp3".to_string()), vec![("Content-Type".to_string(), "audio/mp3".to_string())]);
}

#[test]
fn metadata_download_decisions() {
    let p = Params { id: Some(A.to_string()), supplementary_id: None, ready: None, redirect: None };
    let none = Params { id: None, supplementary_id: None, ready: None, redirect: None };
    assert_eq!(reject(metadata_download_decision(false, &p, false, false, true, true, true)).0, 401);
    assert_eq!(reject(metadata_download_decision(true, &none, false, false, true, true, true)), (400, "Bad Request".to_string()));
    assert_eq!(reject(metadata_download_decision(true, &p, false, true, false, true, true)).0, 403);
    assert_eq!(reject(metadata_download_decision(true, &p, true, true, false, false, true)).0, 500);
    assert_eq!(metadata_download_decision(true, &p, true, true, false, true, true).unwrap(), A_ID);
    assert_eq!(reject(metadata_upload_decision(true, &p, false)).0, 403);
    assert_eq!(metadata_upload_decision(true, &p, true).unwrap(), A_ID);
}

#[test]
fn caching_header_texts() {
    let mut m = CachingHeaderManager::new();
    let u = m.apply(1_000_000_000, &Some("e".to_string())).unwrap();
    let (etag, date) = caching_header_values(&u);
    assert_eq!(etag.as_deref(), Some("e"));
    assert_eq!(date, "Sun, 9 Sep 2001 01:46:40 +0000");
    let u = CachingHeaderManager::new().apply(1, &None).unwrap();
    assert_eq!(caching_header_values(&u), (None, "Thu, 1 Jan 1970 00:00:01 +0000".to_string()));
}

fn perm(g: u128) -> Permission {
    Permission { entity_id: 1, group_id: g, action: PermissionAction::View }
}

#[test]
fn collection_batches() {
    assert_eq!(batch_entry(&None, false), Ok(BatchEntry { parent_id: ROOT_COLLECTION_ID, link_to_parent: false, check_parent: true }));
    assert_eq!(batch_entry(&Some(A.to_string()), true), Ok(BatchEntry { parent_id: A_ID, link_to_parent: true, check_parent: false }));
    assert_eq!(batch_entry(&Some("x".to_string()), true), Err(ContentError::InvalidId));
    let checked = BatchEntry { parent_id: 1, link_to_parent: true, check_parent: true };
    let nested = BatchEntry { parent_id: 1, link_to_parent: true, check_parent: false };
    assert_eq!(batch_parent_admits(&checked, true, false), Err(ContentError::Locked));
    assert_eq!(batch_parent_admits(&checked, true, true), Ok(()));
    assert_eq!(batch_parent_admits(&nested, true, false), Ok(()));
    assert_eq!(batch_permissions(Some(vec![perm(1)]), vec![perm(2)]), vec![perm(1)]);
    assert_eq!(batch_permissions(None, vec![perm(2)]), vec![perm(2)]);
    let n = nested_batch(A_ID, &vec![perm(3)]);
    assert_eq!(n.parent_collection_id, A);
    assert!(n.ignore_permission_check);
    assert_eq!(n.permissions, vec![perm(3)]);
}

fn item(parent: Option<&str>, id: u128, parent_perms: Vec<Permission>, collections: Vec<BatchItem>) -> BatchItem {
    BatchItem {
        parent_collection_id: parent.map(|p| p.to_string()),
        id,
        parent_permissions: parent_perms,
        metadata: vec![(id + 100, 1, 1)],
        collections,
    }
}

#[test]
fn batch_outcomes_nest_children_first() {
    // a top-level collection under A with one child that has a grandchild,
    // then a second top-level collection under the root
    let grandchild = item(Some("ignored"), 4, vec![perm(9)], vec![]);
    let child = item(None, 3, vec![perm(8)], vec![grandchild]);
    let first = item(Some(A), 2, vec![perm(1)], vec![child]);
    let second = item(None, 5, vec![perm(2)], vec![]);
    let rows = batch_outcome(&vec![first, second]).unwrap();
    let ids: Vec<u128> = rows.iter().map(|r| r.id).collect();
    assert_eq!(ids, vec![4, 3, 2, 5]);
    let parents: Vec<u128> = rows.iter().map(|r| r.parent_id).collect();
    assert_eq!(parents, vec![3, 2, A_ID, ROOT_COLLECTION_ID]);
    // nested levels reuse the grants of the top-level collection
    assert_eq!(rows[0].permissions, vec![perm(1)]);
    assert_eq!(rows[1].permissions, vec![perm(1)]);
    assert_eq!(rows[2].permissions, vec![perm(1)]);
    assert_eq!(rows[3].permissions, vec![perm(2)]);
    assert_eq!(rows[0].metadata, vec![(104, 1, 1)]);
}

#[test]
fn batch_outcome_refuses_bad_parent() {
    let good = item(None, 2, vec![], vec![]);
    let bad = item(Some("not-a-uuid"), 3, vec![], vec![]);
    assert_eq!(batch_outcome(&vec![good, bad]).err(), Some(ContentError::InvalidId));
    assert!(batch_outcome(&vec![]).unwrap().is_empty());
}

#[test]
fn templates_and_guides() {
    assert_eq!(check_template_parts(false, true, true), Err(ContentError::MissingTemplate));
    assert_eq!(check_template_parts(true, true, false), Err(ContentError::MissingGuide));
    assert_eq!(check_template_parts(true, false, false), Ok(()));
    assert_eq!(content_error_message(ContentError::MissingTemplate), "missing template");
    assert_eq!(content_error_message(ContentError::MissingGuide), "missing guide");
    let g = new_guide_item(1, &vec![2, 3], 4, 5, &None, Some(6));
    assert_eq!((g.name.as_str(), g.document_title.as_str(), g.content_type.as_str()), ("New Guide", "New Guide", "bosca/v-guide"));
    assert_eq!(g.parent_collection_id.as_deref(), Some("00000000-0000-0000-0000-000000000001"));
    assert_eq!(g.category_ids, vec!["00000000-0000-0000-0000-000000000002", "00000000-0000-0000-0000-000000000003"]);
    assert_eq!((g.template_metadata_id.as_str(), g.template_metadata_version), ("00000000-0000-0000-0000-000000000004", 5));
    assert_eq!(g.profiles.as_ref().unwrap()[0].relationship, "author");
    match &g.attributes {
        ConfigValue::Object(e) => assert_eq!(e, &vec![("editor.type".to_string(), "\"Guide\"".to_string())]),
        other => panic!("unexpected {:?}", other),
    }
    let d = new_document_item(None, "Step", "bosca/v-guide-step", "Document", &vec![], 4, 5, &None, None);
    assert!(d.parent_collection_id.is_none() && d.profiles.is_none());
    assert_eq!((d.name.as_str(), d.content_type.as_str()), ("Step", "bosca/v-guide-step"));
    let steps = guide_step_plans(&vec![(10, 1), (11, 2)]);
    assert_eq!(steps.len(), 2);
    assert_eq!((steps[0].title.as_str(), steps[0].sort, steps[0].template_metadata_id), ("New Step", 0, 10));
    assert_eq!((steps[1].title.as_str(), steps[1].sort, steps[1].template_metadata_version), ("New Step 2", 1, 2));
    assert_eq!(steps[1].content_type, "bosca/v-guide-step");
    assert_eq!(
        guide_step_row(1, 2, 3, (4, 5)),
        GuideStepRow { metadata_id: 1, metadata_version: 2, step_metadata_id: 4, step_metadata_version: 5, sort: 3 }
    );
}

fn request() -> EnqueueRequest {
    EnqueueRequest {
        workflow: None,
        workflow_id: None,
        trait_id: None,
        metadata_id: Some(1),
        metadata_version: Some(2),
        collection_id: None,
        profile_id: Some(3),
        delay_until: Some(99),
        storage_system_ids: Some(vec![7]),
        configurations: Some(vec![("a".to_string(), ConfigValue::Object(vec![("k".to_string(), "1".to_string())]))]),
        wait_for_completion: false,
    }
}

fn wf(id: &str) -> PlanWorkflow {
    PlanWorkflow { id: id.to_string(), queue: "q".to_string() }
}

#[test]
fn plan_sources() {
    let mut r = request();
    assert!(matches!(plan_workflow_source(&mut r), Err(PlanError::WorkflowRequired)));
    r.workflow_id = Some("w".to_string());
    match plan_workflow_source(&mut r) {
        Ok(PlanWorkflowSource::Lookup(id)) => assert_eq!(id, "w"),
        other => panic!("unexpected {:?}", other),
    }
    r.workflow = Some(wf("given"));
    match plan_workflow_source(&mut r) {
        Ok(PlanWorkflowSource::Given(w)) => assert_eq!(w.id, "given"),
        other => panic!("unexpected {:?}", other),
    }
    assert!(r.workflow.is_none());
    assert_eq!(r.workflow_id.as_deref(), Some("w"));
    assert_eq!(r.delay_until, Some(99));
    match looked_up_workflow(&"w".to_string(), None) {
        Err(e) => assert_eq!(plan_error_message(&e), "missing workflow: w"),
        Ok(_) => panic!("expected a refusal"),
    }
    assert_eq!(looked_up_workflow(&"w".to_string(), Some(wf("w"))).unwrap().id, "w");
    assert_eq!(plan_error_message(&PlanError::WorkflowRequired), "workflow or workflow_id is required");
}

#[test]
fn plans_have_one_job_per_activity() {
    let activities = vec![
        PlanActivity { activity_id: "a".to_string(), queue: "qa".to_string(), configuration: None, storage_systems: vec![5] },
        PlanActivity { activity_id: "b".to_string(), queue: "qb".to_string(), configuration: None, storage_systems: vec![] },
    ];
    let plan = assemble_plan(42, &wf("w"), &activities, &request());
    assert_eq!((plan.id, plan.queue.as_str(), plan.workflow_id.as_str()), (42, "q", "w"));
    assert_eq!(plan.jobs.len(), 2);
    assert_eq!((plan.jobs[0].index, plan.jobs[1].index), (0, 1));
    assert_eq!((plan.jobs[0].queue.as_str(), plan.jobs[1].activity_id.as_str()), ("qa", "b"));
    assert_eq!(plan.jobs[0].storage_systems, vec![5, 7]);
    assert_eq!(plan.jobs[1].storage_systems, vec![7]);
    assert!(matches!(plan.jobs[0].configuration, Some(ConfigValue::Object(_))));
    assert!(plan.jobs[1].configuration.is_none());
    assert_eq!(plan.jobs[0].metadata_id.as_deref(), Some("00000000-0000-0000-0000-000000000001"));
    assert_eq!((plan.jobs[0].plan_id, plan.jobs[0].failures, plan.jobs[0].complete), (42, 0, false));
    assert!(plan.active.is_empty() && plan.complete.is_empty() && plan.failed.is_empty() && !plan.cancelled);
    assert_eq!((plan.max_failures, plan.delay_until, plan.profile_id), (10, Some(99), Some(3)));
    let a = new_execution_plan(&wf("w"), &activities, &request());
    let b = new_execution_plan(&wf("w"), &activities, &request());
    assert_ne!(a.id, b.id);
    assert_eq!(a.jobs[1].plan_id, a.id);
}

#[test]
fn enqueue_runs() {
    let runs = enqueue_plan_workflows(EnqueueTarget::Trait, &vec![wf("x"), wf("y")], None);
    assert_eq!(runs.iter().map(|w| w.as_ref().unwrap().id.clone()).collect::<Vec<_>>(), vec!["x", "y"]);
    let runs = enqueue_plan_workflows(EnqueueTarget::WorkflowId, &vec![wf("x")], Some(wf("z")));
    assert_eq!(runs.len(), 1);
    assert_eq!(runs[0].as_ref().unwrap().id, "z");
    assert!(!enqueue_places_plans(EnqueueTarget::Trait));
    assert!(enqueue_places_plans(EnqueueTarget::Workflow));
}

#[test]
fn metadata_write_plans() {
    let traits = Some(vec!["t1".to_string(), "t2".to_string()]);
    let profiles = Some(vec![MetadataProfileInput { profile_id: A.to_string(), relationship: "author".to_string() }]);
    let p = metadata_write_plan(false, &traits, &None, &profiles, &Some(A.to_string())).unwrap();
    assert!(!p.delete_traits && !p.delete_categories && !p.delete_profiles);
    assert_eq!(p.add_traits, vec!["t1", "t2"]);
    assert_eq!(p.parent_collection_id, Some(A_ID));
    assert_eq!(p.profiles[0].sort, 0);
    let e = metadata_write_plan(true, &traits, &Some(vec![A.to_string()]), &None, &Some("ignored".to_string())).unwrap();
    assert!(e.delete_traits && e.delete_categories && !e.delete_profiles);
    assert_eq!(e.category_ids, vec![A_ID]);
    assert!(e.parent_collection_id.is_none());
    let none = metadata_write_plan(true, &None, &None, &None, &None).unwrap();
    assert!(!none.delete_traits && none.add_traits.is_empty());
    assert_eq!(metadata_write_plan(false, &None, &Some(vec!["bad".to_string()]), &None, &None).unwrap_err(), ContentError::InvalidId);
}

#[test]
fn caching_manager_ignores_older_items_after_newer() {
    let mut m = CachingHeaderManager::new();
    assert!(m.apply(100, &Some("a".to_string())).is_some());
    assert!(m.apply(100, &Some("b".to_string())).is_none());
    assert!(m.apply(90, &None).is_none());
    assert_eq!(m.last_modified(), 100);
    assert!(m.apply(101, &None).is_some());
    assert_eq!(m.last_modified(), 101);
}
