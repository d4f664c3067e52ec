use vstd::prelude::*;
use crate::text::append_str;
use crate::ids::{id_from_bytes, uuid_text, uuid_to_string};
use crate::security::random_id_bytes;

verus! {

/// The workflow state of a metadata record or collection.
#[derive(Debug)]
pub struct WorkflowStatus {
    /// The state the entity is in.
    pub state_id: String,
    /// The state a transition in progress leads to.
    pub pending_id: Option<String>,
    /// Until when (seconds since the epoch) the pending state is valid.
    pub valid: Option<i64>,
}

/// A row of the transition history.
#[derive(Debug)]
pub struct TransitionRecord {
    pub entity_id: u128,
    pub from_state_id: String,
    pub to_state_id: String,
    pub principal: u128,
    pub status: String,
    pub success: bool,
    pub complete: bool,
}

/// The status after a transition to `to` was reported: a failed transition
/// clears what was pending and keeps the state; a completed one moves to
/// `to` and clears what was pending; one still under way becomes pending,
/// valid until `valid`.
pub open spec fn transition_spec(
    status: WorkflowStatus,
    to: Seq<char>,
    valid: Option<i64>,
    success: bool,
    complete: bool,
) -> (Seq<char>, Option<Seq<char>>, Option<i64>) {
    if !success {
        (status.state_id@, None, None)
    } else if complete {
        (to, None, None)
    } else {
        (status.state_id@, Some(to), valid)
    }
}

/// The view of a workflow status: state, pending state and validity.
pub open spec fn status_view(s: WorkflowStatus) -> (Seq<char>, Option<Seq<char>>, Option<i64>) {
    (
        s.state_id@,
        match s.pending_id {
            Some(p) => Some(p@),
            None => None,
        },
        s.valid,
    )
}

/// Applies a reported transition to the workflow status of metadata or of a
/// collection.
pub fn apply_transition(status: &WorkflowStatus, to_state_id: &str, valid: Option<i64>, success: bool, complete: bool) -> (r: WorkflowStatus)
    ensures
        status_view(r) == transition_spec(*status, to_state_id@, valid, success, complete),
{
    if !success {
        WorkflowStatus { state_id: status.state_id.clone(), pending_id: None, valid: None }
    } else if complete {
        WorkflowStatus { state_id: String::from_str(to_state_id), pending_id: None, valid: None }
    } else {
        WorkflowStatus { state_id: status.state_id.clone(), pending_id: Some(String::from_str(to_state_id)), valid }
    }
}

/// The history row of a transition: from the entity's current state.
pub fn transition_record(
    entity_id: u128,
    status: &WorkflowStatus,
    to_state_id: &str,
    principal: u128,
    message: &str,
    success: bool,
    complete: bool,
) -> (r: TransitionRecord)
    ensures
        r.entity_id == entity_id,
        r.from_state_id@ == status.state_id@,
        r.to_state_id@ == to_state_id@,
        r.principal == principal,
        r.status@ == message@,
        r.success == success,
        r.complete == complete,
{
    TransitionRecord {
        entity_id,
        from_state_id: status.state_id.clone(),
        to_state_id: String::from_str(to_state_id),
        principal,
        status: String::from_str(message),
        success,
        complete,
    }
}

/// A completed successful transition puts the entity in the target state
/// with nothing pending.
pub proof fn law_completed_transition_sets_state(status: WorkflowStatus, to: Seq<char>, valid: Option<i64>)
    ensures
        transition_spec(status, to, valid, true, true) == (to, Option::<Seq<char>>::None, Option::<i64>::None),
{
}

/// A failed transition never changes the state and always clears what was pending.
pub proof fn law_failed_transition_keeps_state(status: WorkflowStatus, to: Seq<char>, valid: Option<i64>, complete: bool)
    ensures
        transition_spec(status, to, valid, false, complete).0 == status.state_id@,
        transition_spec(status, to, valid, false, complete).1 is None,
        transition_spec(status, to, valid, false, complete).2 is None,
{
}

/// Reporting the same transition twice leaves the entity as reporting it once.
pub proof fn law_transition_idempotent(
    status: WorkflowStatus,
    after: WorkflowStatus,
    to: Seq<char>,
    valid: Option<i64>,
    success: bool,
    complete: bool,
)
    requires
        status_view(after) == transition_spec(status, to, valid, success, complete),
    ensures
        transition_spec(after, to, valid, success, complete) == status_view(after),
{
}

/// The workflow that processes metadata once it is ready.
pub const METADATA_PROCESS: &'static str = "metadata.process";

/// The workflow that processes a collection once it is ready.
pub const COLLECTION_PROCESS: &'static str = "collection.process";

/// The state an entity is moved towards while it is set ready.
pub const DRAFT: &'static str = "draft";

/// The status message of the transition made while setting an entity ready.
pub const READY_TRANSITION_MESSAGE: &'static str = "move to draft during set to ready";

/// The content type of guides, whose steps are set ready with them.
pub const GUIDE_CONTENT_TYPE: &'static str = "bosca/v-guide";

/// What setting metadata ready involves once its documents validated.
#[derive(Debug)]
pub struct ReadyPlan {
    /// The workflow to enqueue for the metadata.
    pub workflow_id: String,
    /// Whether the steps of the guide are set ready too.
    pub include_guide_steps: bool,
}

/// Plans setting metadata ready: metadata that is already ready is left
/// alone (`None`); otherwise the draft transition is reported, the metadata
/// marked ready, the processing workflow enqueued, and for a guide the same
/// is done for each of its steps.
pub fn metadata_ready_plan(ready: Option<i64>, content_type: &String) -> (r: Option<ReadyPlan>)
    ensures
        ready is Some ==> r is None,
        ready is None ==> (r matches Some(p) && p.workflow_id@ == METADATA_PROCESS@
            && p.include_guide_steps == (content_type@ == GUIDE_CONTENT_TYPE@)),
{
    if ready.is_some() {
        return None;
    }
    let guide = String::from_str(GUIDE_CONTENT_TYPE);
    Some(ReadyPlan { workflow_id: String::from_str(METADATA_PROCESS), include_guide_steps: *content_type == guide })
}

/// Why a collection could not be set ready.
#[derive(Clone, Copy, PartialEq, Eq, Structural, Debug)]
pub enum ReadyError {
    AlreadyReady,
}

/// The message of a refusal to set a collection ready.
pub fn ready_error_message(e: ReadyError) -> (m: String)
    ensures
        m@ == "collection already ready"@,
{
    String::from_str("collection already ready")
}

/// Setting a collection ready is refused when it already is; otherwise the
/// collection processing workflow is enqueued.
pub fn collection_ready_workflow(ready: Option<i64>) -> (r: Result<String, ReadyError>)
    ensures
        ready is Some ==> r == Err::<String, ReadyError>(ReadyError::AlreadyReady),
        ready is None ==> (r matches Ok(w) && w@ == COLLECTION_PROCESS@),
{
    if ready.is_some() {
        Err(ReadyError::AlreadyReady)
    } else {
        Ok(String::from_str(COLLECTION_PROCESS))
    }
}

/// How an enqueue request is served.
#[derive(Clone, Copy, PartialEq, Eq, Structural, Debug)]
pub enum EnqueueTarget {
    /// One plan per workflow of the trait.
    Trait,
    /// One plan for the workflow the request carries.
    Workflow,
    /// One plan for the workflow with the request's workflow id.
    WorkflowId,
}

/// Why an enqueue request was refused.
#[derive(Clone, Copy, PartialEq, Eq, Structural, Debug)]
pub enum EnqueueError {
    WorkflowAndTrait,
    NothingToEnqueue,
}

/// The message of a refused enqueue request.
pub open spec fn enqueue_error_text(e: EnqueueError) -> Seq<char> {
    match e {
        EnqueueError::WorkflowAndTrait => "cannot enqueue workflow and trait"@,
        EnqueueError::NothingToEnqueue => "must enqueue workflow or trait"@,
    }
}

/// The message of a refused enqueue request.
pub fn enqueue_error_message(e: EnqueueError) -> (m: String)
    ensures
        m@ == enqueue_error_text(e),
{
    match e {
        EnqueueError::WorkflowAndTrait => String::from_str("cannot enqueue workflow and trait"),
        EnqueueError::NothingToEnqueue => String::from_str("must enqueue workflow or trait"),
    }
}

/// Decides how an enqueue request is served: a request may name a workflow
/// (carried or by id) or a trait but not both, and must name one of them.
pub fn enqueue_target(has_workflow: bool, has_workflow_id: bool, has_trait_id: bool) -> (r: Result<EnqueueTarget, EnqueueError>)
    ensures
        (has_workflow || has_workflow_id) && has_trait_id ==> r == Err::<EnqueueTarget, EnqueueError>(EnqueueError::WorkflowAndTrait),
        !(has_workflow || has_workflow_id) && has_trait_id ==> r == Ok::<EnqueueTarget, EnqueueError>(EnqueueTarget::Trait),
        !has_trait_id && has_workflow ==> r == Ok::<EnqueueTarget, EnqueueError>(EnqueueTarget::Workflow),
        !has_trait_id && !has_workflow && has_workflow_id ==> r == Ok::<EnqueueTarget, EnqueueError>(EnqueueTarget::WorkflowId),
        !has_trait_id && !has_workflow && !has_workflow_id ==> r == Err::<EnqueueTarget, EnqueueError>(EnqueueError::NothingToEnqueue),
{
    if (has_workflow || has_workflow_id) && has_trait_id {
        Err(EnqueueError::WorkflowAndTrait)
    } else if has_trait_id {
        Ok(EnqueueTarget::Trait)
    } else if has_workflow {
        Ok(EnqueueTarget::Workflow)
    } else if has_workflow_id {
        Ok(EnqueueTarget::WorkflowId)
    } else {
        Err(EnqueueError::NothingToEnqueue)
    }
}

/// Whether the caller waits for a plan to complete: it does for a plan
/// without a delay and for one delayed until a time still in the future;
/// a plan whose delay has already passed is not waited for.
pub fn can_wait_for_plan(delay_until: Option<i64>, now: i64) -> (r: bool)
    ensures
        r == (match delay_until {
            Some(d) => d > now,
            None => true,
        }),
{
    match delay_until {
        Some(d) => d > now,
        None => true,
    }
}

/// Whether every job of a plan has completed.
pub fn plan_complete(completed: usize, jobs: usize) -> (r: bool)
    ensures
        r == (completed == jobs),
{
    completed == jobs
}

/// The number of failures after which a plan is given up.
pub const MAX_PLAN_FAILURES: i32 = 10;

/// An activity configuration: JSON null, an object (keys to JSON texts), or
/// any other JSON value (its text).
#[derive(Clone, Debug)]
pub enum ConfigValue {
    Null,
    Object(Vec<(String, String)>),
    Other(String),
}

/// The object that a list of entries denotes: a later entry for a key
/// replaces an earlier one.
pub open spec fn entries_map(entries: Seq<(String, String)>) -> Map<Seq<char>, Seq<char>>
    decreases entries.len(),
{
    if entries.len() == 0 {
        Map::empty()
    } else {
        entries_map(entries.drop_last()).insert(entries.last().0@, entries.last().1@)
    }
}

/// The view of a configuration value.
pub enum ConfigView {
    Null,
    Object(Map<Seq<char>, Seq<char>>),
    Other(Seq<char>),
}

/// The view of a configuration value.
pub open spec fn config_view(v: ConfigValue) -> ConfigView {
    match v {
        ConfigValue::Null => ConfigView::Null,
        ConfigValue::Object(e) => ConfigView::Object(entries_map(e@)),
        ConfigValue::Other(t) => ConfigView::Other(t@),
    }
}

pub(crate) fn clone_entries(entries: &Vec<(String, String)>) -> (r: Vec<(String, String)>)
    ensures
        r@ == entries@,
{
    let mut r: Vec<(String, String)> = Vec::new();
    let mut i: usize = 0;
    while i < entries.len()
        invariant
            i <= entries@.len(),
            r@ == entries@.take(i as int),
        decreases entries@.len() - i,
    {
        let k = entries[i].0.clone();
        let v = entries[i].1.clone();
        r.push((k, v));
        proof {
            assert(r@ =~= entries@.take(i + 1));
        }
        i += 1;
    }
    proof {
        assert(entries@.take(i as int) =~= entries@);
    }
    r
}

pub(crate) proof fn lemma_entries_map_append(a: Seq<(String, String)>, b: Seq<(String, String)>)
    ensures
        entries_map(a + b) == entries_map(a).union_prefer_right(entries_map(b)),
    decreases b.len(),
{
    if b.len() == 0 {
        assert(a + b =~= a);
        assert(entries_map(a).union_prefer_right(entries_map(b)) =~= entries_map(a));
    } else {
        lemma_entries_map_append(a, b.drop_last());
        assert((a + b).drop_last() =~= a + b.drop_last());
        assert(entries_map(a + b) =~= entries_map(a).union_prefer_right(entries_map(b)));
    }
}

/// The configuration of an activity after an override for it was applied:
/// an object override replaces a missing or null configuration and is
/// merged key by key into an object configuration (the override's keys
/// winning); any other configuration, and any override that is no object,
/// leave it as it is.
pub open spec fn merged_config(current: Option<ConfigView>, over: Option<ConfigView>) -> Option<ConfigView> {
    match over {
        Some(ConfigView::Object(o)) => match current {
            None => Some(ConfigView::Object(o)),
            Some(ConfigView::Null) => Some(ConfigView::Object(o)),
            Some(ConfigView::Object(c)) => Some(ConfigView::Object(c.union_prefer_right(o))),
            Some(other) => Some(other),
        },
        _ => current,
    }
}

/// The view of an optional configuration.
pub open spec fn opt_config_view(v: Option<ConfigValue>) -> Option<ConfigView> {
    match v {
        Some(c) => Some(config_view(c)),
        None => None,
    }
}

/// Applies a configuration override to an activity's configuration.
pub fn merge_configuration(current: Option<ConfigValue>, over: Option<&ConfigValue>) -> (r: Option<ConfigValue>)
    ensures
        opt_config_view(r) == merged_config(
            opt_config_view(current),
            match over {
                Some(o) => Some(config_view(*o)),
                None => None,
            },
        ),
{
    match over {
        Some(ConfigValue::Object(o)) => match current {
            None => Some(ConfigValue::Object(clone_entries(o))),
            Some(ConfigValue::Null) => Some(ConfigValue::Object(clone_entries(o))),
            Some(ConfigValue::Object(c)) => {
                let mut merged = c;
                let extra = clone_entries(o);
                let ghost before = merged@;
                let mut extra_mut = extra;
                merged.append(&mut extra_mut);
                proof {
                    lemma_entries_map_append(before, o@);
                }
                Some(ConfigValue::Object(merged))
            },
            Some(other) => Some(other),
        },
        _ => current,
    }
}

/// The override for an activity: the last override given for its id.
pub open spec fn override_for(overrides: Seq<(String, ConfigValue)>, activity_id: Seq<char>) -> Option<ConfigValue>
    decreases overrides.len(),
{
    if overrides.len() == 0 {
        None
    } else if overrides.last().0@ == activity_id {
        Some(overrides.last().1)
    } else {
        override_for(overrides.drop_last(), activity_id)
    }
}

/// Finds the override for an activity among the request's overrides; a
/// later override for the same activity replaces an earlier one.
pub fn find_override<'a>(overrides: &'a Vec<(String, ConfigValue)>, activity_id: &String) -> (r: Option<&'a ConfigValue>)
    ensures
        match r {
            Some(c) => override_for(overrides@, activity_id@) == Some(*c),
            None => override_for(overrides@, activity_id@) is None,
        },
{
    let mut i: usize = overrides.len();
    proof {
        assert(overrides@.take(i as int) =~= overrides@);
    }
    while i > 0
        invariant
            i <= overrides@.len(),
            override_for(overrides@, activity_id@) == override_for(overrides@.take(i as int), activity_id@),
        decreases i,
    {
        proof {
            assert(overrides@.take(i as int).drop_last() =~= overrides@.take(i - 1));
            assert(overrides@.take(i as int).last() == overrides@[i - 1]);
        }
        if overrides[i - 1].0 == *activity_id {
            return Some(&overrides[i - 1].1);
        }
        i -= 1;
    }
    None
}

/// A copy of a configuration value.
pub fn copy_config(v: &ConfigValue) -> (r: ConfigValue)
    ensures
        config_view(r) == config_view(*v),
{
    match v {
        ConfigValue::Null => ConfigValue::Null,
        ConfigValue::Object(e) => ConfigValue::Object(clone_entries(e)),
        ConfigValue::Other(t) => ConfigValue::Other(t.clone()),
    }
}

/// The configuration an activity of a new plan runs with: its own, with the
/// last override given for it applied.
pub open spec fn planned_config(current: Option<ConfigValue>, activity_id: Seq<char>, overrides: Seq<(String, ConfigValue)>) -> Option<ConfigView> {
    merged_config(
        opt_config_view(current),
        match override_for(overrides, activity_id) {
            Some(o) => Some(config_view(o)),
            None => None,
        },
    )
}

/// The configurations the activities of a new plan run with, in the order of
/// the activities, each given as its id and its own configuration.
pub fn plan_configurations(activities: &Vec<(String, Option<ConfigValue>)>, overrides: &Vec<(String, ConfigValue)>) -> (r: Vec<Option<ConfigValue>>)
    ensures
        r@.len() == activities@.len(),
        forall|i: int| 0 <= i < activities@.len() ==> opt_config_view(#[trigger] r@[i]) == planned_config(
            activities@[i].1,
            activities@[i].0@,
            overrides@,
        ),
{
    let mut r: Vec<Option<ConfigValue>> = Vec::new();
    let mut i: usize = 0;
    while i < activities.len()
        invariant
            i <= activities@.len(),
            r@.len() == i,
            forall|k: int| 0 <= k < i ==> opt_config_view(#[trigger] r@[k]) == planned_config(
                activities@[k].1,
                activities@[k].0@,
                overrides@,
            ),
        decreases activities@.len() - i,
    {
        let current = match &activities[i].1 {
            Some(c) => Some(copy_config(c)),
            None => None,
        };
        let over = find_override(overrides, &activities[i].0);
        r.push(merge_configuration(current, over));
        i += 1;
    }
    r
}

/// An activity without an override keeps the configuration it has.
pub proof fn law_activity_without_override_keeps_configuration(
    current: Option<ConfigValue>,
    activity_id: Seq<char>,
    overrides: Seq<(String, ConfigValue)>,
)
    requires
        override_for(overrides, activity_id) is None,
    ensures
        planned_config(current, activity_id, overrides) == opt_config_view(current),
{
}

/// The storage systems a job of a new plan may use: those of its activity,
/// then those the request names.
pub fn job_storage_systems(activity_systems: &Vec<u128>, requested: &Option<Vec<u128>>) -> (r: Vec<u128>)
    ensures
        r@ == activity_systems@ + (match requested {
            Some(s) => s@,
            None => Seq::empty(),
        }),
{
    let mut r: Vec<u128> = Vec::new();
    let mut i: usize = 0;
    while i < activity_systems.len()
        invariant
            i <= activity_systems@.len(),
            r@ == activity_systems@.take(i as int),
        decreases activity_systems@.len() - i,
    {
        r.push(activity_systems[i]);
        proof {
            assert(r@ =~= activity_systems@.take(i + 1));
        }
        i += 1;
    }
    proof {
        assert(activity_systems@.take(i as int) =~= activity_systems@);
    }
    if let Some(s) = requested {
        let mut j: usize = 0;
        while j < s.len()
            invariant
                j <= s@.len(),
                r@ == activity_systems@ + s@.take(j as int),
            decreases s@.len() - j,
        {
            r.push(s[j]);
            proof {
                assert(r@ =~= activity_systems@ + s@.take(j + 1));
            }
            j += 1;
        }
        proof {
            assert(s@.take(j as int) =~= s@);
        }
    } else {
        proof {
            assert(r@ =~= activity_systems@ + Seq::<u128>::empty());
        }
    }
    r
}

/// A workflow as a plan needs it: its id and the queue its plans go to.
#[derive(Debug)]
pub struct PlanWorkflow {
    pub id: String,
    pub queue: String,
}

/// A copy of a workflow.
pub fn copy_workflow(w: &PlanWorkflow) -> (r: PlanWorkflow)
    ensures
        r == *w,
{
    PlanWorkflow { id: w.id.clone(), queue: w.queue.clone() }
}

/// A request to run workflows.
#[derive(Debug)]
pub struct EnqueueRequest {
    /// The workflow itself, when the caller has it.
    pub workflow: Option<PlanWorkflow>,
    pub workflow_id: Option<String>,
    pub trait_id: Option<String>,
    pub metadata_id: Option<u128>,
    pub metadata_version: Option<i32>,
    pub collection_id: Option<u128>,
    pub profile_id: Option<u128>,
    /// Until when (seconds since the epoch) the plan waits before it runs.
    pub delay_until: Option<i64>,
    /// Storage systems every job may use besides its activity's own.
    pub storage_system_ids: Option<Vec<u128>>,
    /// Configuration overrides by activity id.
    pub configurations: Option<Vec<(String, ConfigValue)>>,
    pub wait_for_completion: bool,
}

/// Where the workflow of a new plan comes from.
#[derive(Debug)]
pub enum PlanWorkflowSource {
    /// The workflow the request carried.
    Given(PlanWorkflow),
    /// The workflow with this id, to be read.
    Lookup(String),
}

/// Why a plan could not be made.
#[derive(Debug)]
pub enum PlanError {
    WorkflowRequired,
    MissingWorkflow(String),
}

/// The message of a refused plan.
pub open spec fn plan_error_text(e: PlanError) -> Seq<char> {
    match e {
        PlanError::WorkflowRequired => "workflow or workflow_id is required"@,
        PlanError::MissingWorkflow(id) => "missing workflow: "@ + id@,
    }
}

/// The message of a refused plan.
pub fn plan_error_message(e: &PlanError) -> (m: String)
    ensures
        m@ == plan_error_text(*e),
{
    match e {
        PlanError::WorkflowRequired => String::from_str("workflow or workflow_id is required"),
        PlanError::MissingWorkflow(id) => {
            let mut m = String::from_str("missing workflow: ");
            append_str(&mut m, id.as_str());
            m
        },
    }
}

/// Takes the workflow of a new plan out of the request: the carried one,
/// else the one named by id; a request with neither is refused. The request
/// keeps everything else and carries no workflow afterwards.
pub fn plan_workflow_source(request: &mut EnqueueRequest) -> (r: Result<PlanWorkflowSource, PlanError>)
    ensures
        final(request).workflow is None,
        final(request).workflow_id == old(request).workflow_id,
        final(request).trait_id == old(request).trait_id,
        final(request).metadata_id == old(request).metadata_id,
        final(request).metadata_version == old(request).metadata_version,
        final(request).collection_id == old(request).collection_id,
        final(request).profile_id == old(request).profile_id,
        final(request).delay_until == old(request).delay_until,
        final(request).storage_system_ids == old(request).storage_system_ids,
        final(request).configurations == old(request).configurations,
        final(request).wait_for_completion == old(request).wait_for_completion,
        match old(request).workflow {
            Some(w) => r matches Ok(PlanWorkflowSource::Given(g)) && g == w,
            None => match old(request).workflow_id {
                Some(id) => r matches Ok(PlanWorkflowSource::Lookup(l)) && l@ == id@,
                None => r matches Err(PlanError::WorkflowRequired),
            },
        },
{
    match request.workflow.take() {
        Some(w) => Ok(PlanWorkflowSource::Given(w)),
        None => match &request.workflow_id {
            Some(id) => Ok(PlanWorkflowSource::Lookup(id.clone())),
            None => Err(PlanError::WorkflowRequired),
        },
    }
}

/// The workflow read by id for a new plan: a workflow that does not exist
/// refuses the plan.
pub fn looked_up_workflow(workflow_id: &String, found: Option<PlanWorkflow>) -> (r: Result<PlanWorkflow, PlanError>)
    ensures
        match found {
            Some(w) => r matches Ok(x) && x == w,
            None => r matches Err(PlanError::MissingWorkflow(id)) && id@ == workflow_id@,
        },
{
    match found {
        Some(w) => Ok(w),
        None => Err(PlanError::MissingWorkflow(workflow_id.clone())),
    }
}

/// An activity of the workflow as a new plan reads it.
#[derive(Debug)]
pub struct PlanActivity {
    pub activity_id: String,
    /// The queue the activity's jobs go to.
    pub queue: String,
    pub configuration: Option<ConfigValue>,
    /// The storage systems configured for the activity.
    pub storage_systems: Vec<u128>,
}

/// A job of a new plan.
#[derive(Debug)]
pub struct PlanJob {
    /// The queue the job goes to, and its place in the plan.
    pub queue: String,
    pub index: i32,
    /// The plan it belongs to: its id and queue.
    pub plan_id: u128,
    pub plan_queue: String,
    pub workflow_id: String,
    pub activity_id: String,
    pub configuration: Option<ConfigValue>,
    pub storage_systems: Vec<u128>,
    pub metadata_id: Option<String>,
    pub metadata_version: Option<i32>,
    pub collection_id: Option<String>,
    pub profile_id: Option<String>,
    pub complete: bool,
    pub failures: i32,
}

/// A new plan.
#[derive(Debug)]
pub struct ExecutionPlan {
    pub id: u128,
    pub queue: String,
    pub workflow_id: String,
    pub jobs: Vec<PlanJob>,
    pub delay_until: Option<i64>,
    pub active: Vec<i32>,
    pub complete: Vec<i32>,
    pub failed: Vec<i32>,
    pub cancelled: bool,
    pub metadata_id: Option<u128>,
    pub metadata_version: Option<i32>,
    pub collection_id: Option<u128>,
    pub profile_id: Option<u128>,
    pub max_failures: i32,
}

/// The text of an optional id.
pub open spec fn id_text_of(id: Option<u128>) -> Option<Seq<char>> {
    match id {
        Some(i) => Some(uuid_text(i)),
        None => None,
    }
}

/// The view of an optional text.
pub open spec fn opt_text(t: Option<String>) -> Option<Seq<char>> {
    match t {
        Some(s) => Some(s@),
        None => None,
    }
}

/// The overrides of a request, none when it gives none.
pub open spec fn request_overrides(request: EnqueueRequest) -> Seq<(String, ConfigValue)> {
    match request.configurations {
        Some(c) => c@,
        None => Seq::empty(),
    }
}

/// Whether `job` is the job of plan `plan_id` made from activity `a` at
/// place `i` of the workflow.
pub open spec fn planned_job(job: PlanJob, i: int, a: PlanActivity, plan_id: u128, w: PlanWorkflow, request: EnqueueRequest) -> bool {
    &&& job.queue == a.queue
    &&& job.index == i as i32
    &&& job.plan_id == plan_id
    &&& job.plan_queue == w.queue
    &&& job.workflow_id == w.id
    &&& job.activity_id == a.activity_id
    &&& opt_config_view(job.configuration) == planned_config(a.configuration, a.activity_id@, request_overrides(request))
    &&& job.storage_systems@ == a.storage_systems@ + (match request.storage_system_ids {
        Some(s) => s@,
        None => Seq::empty(),
    })
    &&& opt_text(job.metadata_id) == id_text_of(request.metadata_id)
    &&& job.metadata_version == request.metadata_version
    &&& opt_text(job.collection_id) == id_text_of(request.collection_id)
    &&& opt_text(job.profile_id) == id_text_of(request.profile_id)
    &&& !job.complete
    &&& job.failures == 0
}

fn opt_id_text(id: Option<u128>) -> (r: Option<String>)
    ensures
        opt_text(r) == id_text_of(id),
{
    match id {
        Some(i) => Some(uuid_to_string(i)),
        None => None,
    }
}

/// Assembles a new plan with id `plan_id` for a workflow: one job per
/// activity, in the activities' order, each numbered by its place and run
/// with its configuration after the request's override and its storage
/// systems followed by the request's; the request's subject and delay are
/// copied; nothing is active, complete or failed; the plan is not cancelled
/// and is given up after ten failures.
pub fn assemble_plan(plan_id: u128, workflow: &PlanWorkflow, activities: &Vec<PlanActivity>, request: &EnqueueRequest) -> (r: ExecutionPlan)
    ensures
        r.id == plan_id,
        r.queue == workflow.queue,
        r.workflow_id == workflow.id,
        r.jobs@.len() == activities@.len(),
        forall|i: int| 0 <= i < activities@.len() ==> planned_job(#[trigger] r.jobs@[i], i, activities@[i], plan_id, *workflow, *request),
        r.delay_until == request.delay_until,
        r.active@.len() == 0,
        r.complete@.len() == 0,
        r.failed@.len() == 0,
        !r.cancelled,
        r.metadata_id == request.metadata_id,
        r.metadata_version == request.metadata_version,
        r.collection_id == request.collection_id,
        r.profile_id == request.profile_id,
        r.max_failures == MAX_PLAN_FAILURES,
{
    let empty: Vec<(String, ConfigValue)> = Vec::new();
    let overrides = match &request.configurations {
        Some(c) => c,
        None => &empty,
    };
    proof {
        assert(overrides@ == request_overrides(*request));
    }
    let mut jobs: Vec<PlanJob> = Vec::new();
    let mut i: usize = 0;
    while i < activities.len()
        invariant
            i <= activities@.len(),
            jobs@.len() == i,
            overrides@ == request_overrides(*request),
            forall|k: int| 0 <= k < i ==> planned_job(#[trigger] jobs@[k], k, activities@[k], plan_id, *workflow, *request),
        decreases activities@.len() - i,
    {
        let a = &activities[i];
        let current = match &a.configuration {
            Some(c) => Some(copy_config(c)),
            None => None,
        };
        let configuration = merge_configuration(current, find_override(overrides, &a.activity_id));
        let job = PlanJob {
            queue: a.queue.clone(),
            index: i as i32,
            plan_id,
            plan_queue: workflow.queue.clone(),
            workflow_id: workflow.id.clone(),
            activity_id: a.activity_id.clone(),
            configuration,
            storage_systems: job_storage_systems(&a.storage_systems, &request.storage_system_ids),
            metadata_id: opt_id_text(request.metadata_id),
            metadata_version: request.metadata_version,
            collection_id: opt_id_text(request.collection_id),
            profile_id: opt_id_text(request.profile_id),
            complete: false,
            failures: 0,
        };
        jobs.push(job);
        i += 1;
    }
    ExecutionPlan {
        id: plan_id,
        queue: workflow.queue.clone(),
        workflow_id: workflow.id.clone(),
        jobs,
        delay_until: request.delay_until,
        active: Vec::new(),
        complete: Vec::new(),
        failed: Vec::new(),
        cancelled: false,
        metadata_id: request.metadata_id,
        metadata_version: request.metadata_version,
        collection_id: request.collection_id,
        profile_id: request.profile_id,
        max_failures: MAX_PLAN_FAILURES,
    }
}

/// Whether an enqueue request's plans are placed on their queues: those of
/// a workflow (carried or named by id) are; those made for a trait are only
/// made.
pub fn enqueue_places_plans(target: EnqueueTarget) -> (r: bool)
    ensures
        r == (target != EnqueueTarget::Trait),
{
    match target {
        EnqueueTarget::Trait => false,
        _ => true,
    }
}

/// The workflows an enqueue request makes plans for, one plan each: every
/// workflow of the trait, in order, for a trait request; otherwise the one
/// workflow, carried or read by id (possibly none, which the plan refuses).
pub fn enqueue_plan_workflows(
    target: EnqueueTarget,
    trait_workflows: &Vec<PlanWorkflow>,
    single: Option<PlanWorkflow>,
) -> (r: Vec<Option<PlanWorkflow>>)
    ensures
        target == EnqueueTarget::Trait ==> {
            &&& r@.len() == trait_workflows@.len()
            &&& forall|i: int| 0 <= i < r@.len() ==> #[trigger] r@[i] == Some(trait_workflows@[i])
        },
        target != EnqueueTarget::Trait ==> r@ == seq![single],
{
    let mut r: Vec<Option<PlanWorkflow>> = Vec::new();
    if target == EnqueueTarget::Trait {
        let mut i: usize = 0;
        while i < trait_workflows.len()
            invariant
                i <= trait_workflows@.len(),
                r@.len() == i,
                forall|k: int| 0 <= k < i ==> #[trigger] r@[k] == Some(trait_workflows@[k]),
            decreases trait_workflows@.len() - i,
        {
            r.push(Some(copy_workflow(&trait_workflows[i])));
            i += 1;
        }
    } else {
        r.push(single);
        proof {
            assert(r@ =~= seq![single]);
        }
    }
    r
}

/// Makes a new plan for a workflow under a fresh random id, as
/// `assemble_plan` assembles it.
pub fn new_execution_plan(workflow: &PlanWorkflow, activities: &Vec<PlanActivity>, request: &EnqueueRequest) -> (r: ExecutionPlan)
    ensures
        r.queue == workflow.queue,
        r.workflow_id == workflow.id,
        r.jobs@.len() == activities@.len(),
        forall|i: int| 0 <= i < activities@.len() ==> planned_job(#[trigger] r.jobs@[i], i, activities@[i], r.id, *workflow, *request),
        r.delay_until == request.delay_until,
        r.active@.len() == 0,
        r.complete@.len() == 0,
        r.failed@.len() == 0,
        !r.cancelled,
        r.metadata_id == request.metadata_id,
        r.metadata_version == request.metadata_version,
        r.collection_id == request.collection_id,
        r.profile_id == request.profile_id,
        r.max_failures == MAX_PLAN_FAILURES,
{
    let bytes = random_id_bytes();
    let plan_id = id_from_bytes(&bytes);
    assemble_plan(plan_id, workflow, activities, request)
}

} // verus!
