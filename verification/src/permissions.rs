use vstd::prelude::*;
use crate::models::{Collection, Metadata, PermissionAction, Permission};

verus! {

/// The workflow state in which public content is visible to everyone.
pub const PUBLISHED: &'static str = "published";

/// The workflow state in which metadata may be advertised before publication.
pub const ADVERTISED: &'static str = "advertised";

/// The outcome of the checks that come before the group grants are read.
#[derive(Clone, Copy, PartialEq, Eq, Structural, Debug)]
pub enum PermissionDecision {
    /// The entity's own state grants the action.
    Granted,
    /// The entity's own state refuses the action.
    Denied,
    /// The entity's grants decide.
    Evaluate,
}

/// Whether a workflow state is the published state.
pub open spec fn is_published(state: Seq<char>) -> bool {
    state == PUBLISHED@
}

fn state_is(state: &String, expected: &str) -> (r: bool)
    ensures
        r == (state@ == expected@),
{
    let e = String::from_str(expected);
    *state == e
}

/// The decision for an action on a collection: nothing on a deleted
/// collection; viewing a public published collection and listing a published
/// collection with a public list are granted; otherwise the grants decide.
pub open spec fn collection_decision_spec(c: Collection, action: PermissionAction) -> PermissionDecision {
    if c.deleted {
        PermissionDecision::Denied
    } else if action == PermissionAction::View && c.public && is_published(c.workflow_state_id@) {
        PermissionDecision::Granted
    } else if action == PermissionAction::List && c.public_list && is_published(c.workflow_state_id@) {
        PermissionDecision::Granted
    } else {
        PermissionDecision::Evaluate
    }
}

/// Decides an action on a collection before its grants are read.
pub fn collection_decision(collection: &Collection, action: PermissionAction) -> (d: PermissionDecision)
    ensures
        d == collection_decision_spec(*collection, action),
{
    if collection.deleted {
        return PermissionDecision::Denied;
    }
    let published = state_is(&collection.workflow_state_id, PUBLISHED);
    if action == PermissionAction::View && collection.public && published {
        return PermissionDecision::Granted;
    }
    if action == PermissionAction::List && collection.public_list && published {
        return PermissionDecision::Granted;
    }
    PermissionDecision::Evaluate
}

/// The decision for an action on a collection's supplementary files: nothing
/// on a deleted collection; viewing and listing are granted when the
/// collection's supplementary files are public and it is published.
pub open spec fn collection_supplementary_decision_spec(c: Collection, action: PermissionAction) -> PermissionDecision {
    if c.deleted {
        PermissionDecision::Denied
    } else if (action == PermissionAction::List || action == PermissionAction::View) && c.public_supplementary
        && is_published(c.workflow_state_id@) {
        PermissionDecision::Granted
    } else {
        PermissionDecision::Evaluate
    }
}

/// Decides an action on a collection's supplementary files before the grants are read.
pub fn collection_supplementary_decision(collection: &Collection, action: PermissionAction) -> (d: PermissionDecision)
    ensures
        d == collection_supplementary_decision_spec(*collection, action),
{
    if collection.deleted {
        return PermissionDecision::Denied;
    }
    if (action == PermissionAction::List || action == PermissionAction::View) && collection.public_supplementary
        && state_is(&collection.workflow_state_id, PUBLISHED) {
        return PermissionDecision::Granted;
    }
    PermissionDecision::Evaluate
}

/// The decision for an action on metadata: nothing on deleted metadata;
/// viewing public metadata is granted when it is published, or advertised
/// and advertised metadata is admitted.
pub open spec fn metadata_decision_spec(m: Metadata, action: PermissionAction, enable_advertised: bool) -> PermissionDecision {
    if m.deleted {
        PermissionDecision::Denied
    } else if action == PermissionAction::View && m.public && (is_published(m.workflow_state_id@) || (
    enable_advertised && m.workflow_state_id@ == ADVERTISED@)) {
        PermissionDecision::Granted
    } else {
        PermissionDecision::Evaluate
    }
}

/// Decides an action on metadata before its grants are read.
pub fn metadata_decision(metadata: &Metadata, action: PermissionAction, enable_advertised: bool) -> (d: PermissionDecision)
    ensures
        d == metadata_decision_spec(*metadata, action, enable_advertised),
{
    if metadata.deleted {
        return PermissionDecision::Denied;
    }
    if action == PermissionAction::View && metadata.public {
        if state_is(&metadata.workflow_state_id, PUBLISHED) {
            return PermissionDecision::Granted;
        }
        if enable_advertised && state_is(&metadata.workflow_state_id, ADVERTISED) {
            return PermissionDecision::Granted;
        }
    }
    PermissionDecision::Evaluate
}

/// The decision for an action on metadata content: viewing is granted when
/// the content is public and the metadata published.
pub open spec fn metadata_content_decision_spec(m: Metadata, action: PermissionAction) -> PermissionDecision {
    if m.deleted {
        PermissionDecision::Denied
    } else if action == PermissionAction::View && m.public_content && is_published(m.workflow_state_id@) {
        PermissionDecision::Granted
    } else {
        PermissionDecision::Evaluate
    }
}

/// Decides an action on metadata content before the grants are read.
pub fn metadata_content_decision(metadata: &Metadata, action: PermissionAction) -> (d: PermissionDecision)
    ensures
        d == metadata_content_decision_spec(*metadata, action),
{
    if metadata.deleted {
        return PermissionDecision::Denied;
    }
    if action == PermissionAction::View && metadata.public_content && state_is(&metadata.workflow_state_id, PUBLISHED) {
        return PermissionDecision::Granted;
    }
    PermissionDecision::Evaluate
}

/// The decision for an action on metadata supplementary files: viewing and
/// listing are granted when they are public and the metadata published.
pub open spec fn metadata_supplementary_decision_spec(m: Metadata, action: PermissionAction) -> PermissionDecision {
    if m.deleted {
        PermissionDecision::Denied
    } else if (action == PermissionAction::View || action == PermissionAction::List) && m.public_supplementary
        && is_published(m.workflow_state_id@) {
        PermissionDecision::Granted
    } else {
        PermissionDecision::Evaluate
    }
}

/// Decides an action on metadata supplementary files before the grants are read.
pub fn metadata_supplementary_decision(metadata: &Metadata, action: PermissionAction) -> (d: PermissionDecision)
    ensures
        d == metadata_supplementary_decision_spec(*metadata, action),
{
    if metadata.deleted {
        return PermissionDecision::Denied;
    }
    if (action == PermissionAction::View || action == PermissionAction::List) && metadata.public_supplementary
        && state_is(&metadata.workflow_state_id, PUBLISHED) {
        return PermissionDecision::Granted;
    }
    PermissionDecision::Evaluate
}

/// Whether access is held: the decision, or the evaluation of the grants
/// when the decision leaves it to them.
pub open spec fn access_held(d: PermissionDecision, evaluated: bool) -> bool {
    match d {
        PermissionDecision::Granted => true,
        PermissionDecision::Denied => false,
        PermissionDecision::Evaluate => evaluated,
    }
}

/// Resolves a decision: the evaluation of the entity's grants counts only
/// when the decision leaves the answer to them.
pub fn resolve_access(d: PermissionDecision, evaluated: bool) -> (r: bool)
    ensures
        r == access_held(d, evaluated),
{
    match d {
        PermissionDecision::Granted => true,
        PermissionDecision::Denied => false,
        PermissionDecision::Evaluate => evaluated,
    }
}

/// Whether a list of group ids holds a group.
pub open spec fn in_groups(groups: Seq<u128>, group: u128) -> bool {
    groups.contains(group)
}

/// Whether `groups` holds `group`.
pub fn groups_contain(groups: &[u128], group: u128) -> (r: bool)
    ensures
        r == in_groups(groups@, group),
{
    let mut i: usize = 0;
    while i < groups.len()
        invariant
            i <= groups@.len(),
            forall|j: int| 0 <= j < i ==> groups@[j] != group,
        decreases groups@.len() - i,
    {
        if groups[i] == group {
            proof {
                assert(groups@[i as int] == group);
            }
            return true;
        }
        i += 1;
    }
    false
}

/// Membership of the service account group or the administrators group
/// overrides a missing grant.
pub open spec fn principal_groups_privileged(groups: Seq<u128>, service_account_group: u128, administrators_group: u128) -> bool {
    in_groups(groups, service_account_group) || in_groups(groups, administrators_group)
}

/// Whether the groups of a principal hold the service account group or the
/// administrators group.
pub fn check_principal_groups(groups: &[u128], service_account_group: u128, administrators_group: u128) -> (r: bool)
    ensures
        r == principal_groups_privileged(groups@, service_account_group, administrators_group),
{
    if groups_contain(groups, service_account_group) {
        true
    } else {
        groups_contain(groups, administrators_group)
    }
}

/// Whether a grant for the same group and action is already in the list.
pub open spec fn has_grant(perms: Seq<Permission>, group_id: u128, action: PermissionAction) -> bool {
    exists|i: int| 0 <= i < perms.len() && perms[i].group_id == group_id && perms[i].action == action
}

/// Whether `permissions` already grants `action` to `group_id`.
pub fn permission_exists(permissions: &[Permission], group_id: u128, action: PermissionAction) -> (r: bool)
    ensures
        r == has_grant(permissions@, group_id, action),
{
    let mut i: usize = 0;
    while i < permissions.len()
        invariant
            i <= permissions@.len(),
            forall|j: int| 0 <= j < i ==> !(permissions@[j].group_id == group_id && permissions@[j].action == action),
        decreases permissions@.len() - i,
    {
        if permissions[i].group_id == group_id && permissions[i].action == action {
            return true;
        }
        i += 1;
    }
    false
}

/// The grants of a parent copied onto a child entity: same groups and
/// actions, in the same order, for the child's id.
pub fn inherit_permissions(entity_id: u128, permissions: &[Permission]) -> (r: Vec<Permission>)
    ensures
        r@.len() == permissions@.len(),
        forall|i: int|
            0 <= i < r@.len() ==> r@[i] == (Permission {
                entity_id: entity_id,
                group_id: permissions@[i].group_id,
                action: permissions@[i].action,
            }),
{
    let mut r: Vec<Permission> = Vec::new();
    let mut i: usize = 0;
    while i < permissions.len()
        invariant
            i <= permissions@.len(),
            r@.len() == i,
            forall|k: int|
                0 <= k < i ==> r@[k] == (Permission {
                    entity_id: entity_id,
                    group_id: permissions@[k].group_id,
                    action: permissions@[k].action,
                }),
        decreases permissions@.len() - i,
    {
        r.push(Permission { entity_id, group_id: permissions[i].group_id, action: permissions[i].action });
        i += 1;
    }
    r
}

/// Each kind of metadata check reads its own public flag: viewing the
/// content is granted before the grants are read exactly when the metadata
/// is not deleted, published and its content public, whatever the metadata
/// itself or its supplementary files are; private content of live metadata
/// is left to the grants; deleted metadata is refused. Likewise the
/// metadata check ignores the content and supplementary flags, and the
/// supplementary check ignores the metadata and content flags.
pub proof fn law_checks_read_their_own_public_flag(
    m: Metadata,
    action: PermissionAction,
    enable_advertised: bool,
    public: bool,
    public_content: bool,
    public_supplementary: bool,
)
    ensures
        (metadata_content_decision_spec(m, action) == PermissionDecision::Granted) == (action == PermissionAction::View
            && m.public_content && !m.deleted && m.workflow_state_id@ == PUBLISHED@),
        !m.deleted && !m.public_content ==> metadata_content_decision_spec(m, action) == PermissionDecision::Evaluate,
        m.deleted ==> metadata_content_decision_spec(m, action) == PermissionDecision::Denied,
        metadata_content_decision_spec(Metadata { public: public, public_supplementary: public_supplementary, ..m }, action)
            == metadata_content_decision_spec(m, action),
        metadata_supplementary_decision_spec(Metadata { public: public, public_content: public_content, ..m }, action)
            == metadata_supplementary_decision_spec(m, action),
        metadata_decision_spec(
            Metadata { public_content: public_content, public_supplementary: public_supplementary, ..m },
            action,
            enable_advertised,
        ) == metadata_decision_spec(m, action, enable_advertised),
        !m.deleted && !m.public_supplementary ==> metadata_supplementary_decision_spec(m, action)
            == PermissionDecision::Evaluate,
        !m.deleted && !m.public ==> metadata_decision_spec(m, action, enable_advertised) == PermissionDecision::Evaluate,
{
}

/// Collection checks read their own flags: viewing is granted before the
/// grants are read only through `public`, listing only through
/// `public_list`, supplementary files only through `public_supplementary`,
/// each for a published collection that is not deleted; no other action is
/// ever granted without the grants, and a deleted collection is refused.
pub proof fn law_collection_checks_read_their_own_flag(
    c: Collection,
    action: PermissionAction,
    public: bool,
    public_list: bool,
    public_supplementary: bool,
)
    ensures
        c.deleted ==> collection_decision_spec(c, action) == PermissionDecision::Denied
            && collection_supplementary_decision_spec(c, action) == PermissionDecision::Denied,
        (collection_decision_spec(c, action) == PermissionDecision::Granted) == (!c.deleted
            && c.workflow_state_id@ == PUBLISHED@ && ((action == PermissionAction::View && c.public) || (action
            == PermissionAction::List && c.public_list))),
        (collection_supplementary_decision_spec(c, action) == PermissionDecision::Granted) == (!c.deleted
            && c.workflow_state_id@ == PUBLISHED@ && c.public_supplementary && (action == PermissionAction::View
            || action == PermissionAction::List)),
        action == PermissionAction::View ==> collection_decision_spec(Collection { public_list: public_list, public_supplementary: public_supplementary, ..c }, action)
            == collection_decision_spec(c, action),
        action == PermissionAction::List ==> collection_decision_spec(Collection { public: public, public_supplementary: public_supplementary, ..c }, action)
            == collection_decision_spec(c, action),
        collection_supplementary_decision_spec(Collection { public: public, public_list: public_list, ..c }, action)
            == collection_supplementary_decision_spec(c, action),
{
}

} // verus!
