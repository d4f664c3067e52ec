use vstd::prelude::*;
use crate::ids::{append_uuid, uuid_text};
use crate::models::{Collection, Metadata, PermissionAction, Profile, ProfileVisibility};
use crate::permissions::{PermissionDecision, metadata_decision, metadata_content_decision, metadata_supplementary_decision, collection_decision, collection_supplementary_decision, metadata_decision_spec, metadata_content_decision_spec, metadata_supplementary_decision_spec, collection_decision_spec, collection_supplementary_decision_spec, in_groups, groups_contain, access_held, PUBLISHED};
use crate::text::append_str;

verus! {

/// What a permission check is about, and how it is to be judged.
#[derive(Debug)]
pub struct PermissionCheck {
    /// The principal to judge; the request's principal when absent.
    pub principal: Option<u128>,
    /// The principal's groups; the request's groups when absent.
    pub groups: Option<Vec<u128>>,
    pub collection_id: Option<u128>,
    pub collection: Option<Collection>,
    pub supplementary_id: Option<u128>,
    pub metadata_id: Option<u128>,
    pub version: Option<i32>,
    pub metadata: Option<Metadata>,
    pub action: PermissionAction,
    /// Judge access to supplementary files.
    pub supplementary: bool,
    /// Judge access to metadata content.
    pub content: bool,
    /// Admit advertised metadata for viewing.
    pub enable_advertised: bool,
}

/// A check with nothing named but the action.
pub open spec fn empty_check(action: PermissionAction) -> PermissionCheck {
    PermissionCheck {
        principal: None,
        groups: None,
        collection_id: None,
        collection: None,
        supplementary_id: None,
        metadata_id: None,
        version: None,
        metadata: None,
        action: action,
        supplementary: false,
        content: false,
        enable_advertised: false,
    }
}

fn empty(action: PermissionAction) -> (c: PermissionCheck)
    ensures
        c == empty_check(action),
{
    PermissionCheck {
        principal: None,
        groups: None,
        collection_id: None,
        collection: None,
        supplementary_id: None,
        metadata_id: None,
        version: None,
        metadata: None,
        action,
        supplementary: false,
        content: false,
        enable_advertised: false,
    }
}

impl PermissionCheck {
    /// A check of an action on the given metadata.
    pub fn new_with_metadata(metadata: Metadata, action: PermissionAction) -> (c: Self)
        ensures
            c == (PermissionCheck { metadata: Some(metadata), ..empty_check(action) }),
    {
        PermissionCheck { metadata: Some(metadata), ..empty(action) }
    }

    /// A check of an action on the supplementary files of the given metadata.
    pub fn new_with_metadata_supplementary(metadata: Metadata, action: PermissionAction) -> (c: Self)
        ensures
            c == (PermissionCheck { metadata: Some(metadata), supplementary: true, ..empty_check(action) }),
    {
        PermissionCheck { metadata: Some(metadata), supplementary: true, ..empty(action) }
    }

    /// A check of an action on the content of the given metadata.
    pub fn new_with_metadata_content(metadata: Metadata, action: PermissionAction) -> (c: Self)
        ensures
            c == (PermissionCheck { metadata: Some(metadata), content: true, ..empty_check(action) }),
    {
        PermissionCheck { metadata: Some(metadata), content: true, ..empty(action) }
    }

    /// A check of an action on the metadata with this id.
    pub fn new_with_metadata_id(metadata_id: u128, action: PermissionAction) -> (c: Self)
        ensures
            c == (PermissionCheck { metadata_id: Some(metadata_id), ..empty_check(action) }),
    {
        PermissionCheck { metadata_id: Some(metadata_id), ..empty(action) }
    }

    /// A check of an action on a version of the metadata with this id.
    pub fn new_with_metadata_id_with_version(metadata_id: u128, version: i32, action: PermissionAction) -> (c: Self)
        ensures
            c == (PermissionCheck { metadata_id: Some(metadata_id), version: Some(version), ..empty_check(action) }),
    {
        PermissionCheck { metadata_id: Some(metadata_id), version: Some(version), ..empty(action) }
    }

    /// A check of an action on the metadata supplementary file with this id.
    pub fn new_with_metadata_supplementary_id(supplementary_id: u128, action: PermissionAction) -> (c: Self)
        ensures
            c == (PermissionCheck {
                supplementary_id: Some(supplementary_id),
                supplementary: true,
                ..empty_check(action)
            }),
    {
        PermissionCheck { supplementary_id: Some(supplementary_id), supplementary: true, ..empty(action) }
    }

    /// A check of an action on the given metadata that admits advertised metadata.
    pub fn new_with_metadata_advertised(metadata: Metadata, action: PermissionAction) -> (c: Self)
        ensures
            c == (PermissionCheck { metadata: Some(metadata), enable_advertised: true, ..empty_check(action) }),
    {
        PermissionCheck { metadata: Some(metadata), enable_advertised: true, ..empty(action) }
    }

    /// A check of an action on the metadata with this id that admits advertised metadata.
    pub fn new_with_metadata_id_advertised(metadata_id: u128, action: PermissionAction) -> (c: Self)
        ensures
            c == (PermissionCheck { metadata_id: Some(metadata_id), enable_advertised: true, ..empty_check(action) }),
    {
        PermissionCheck { metadata_id: Some(metadata_id), enable_advertised: true, ..empty(action) }
    }

    /// A check of an action by a given principal on the metadata with this id.
    pub fn new_with_principal_and_metadata_id(
        principal: u128,
        groups: Vec<u128>,
        metadata_id: u128,
        action: PermissionAction,
    ) -> (c: Self)
        ensures
            c == (PermissionCheck {
                metadata_id: Some(metadata_id),
                principal: Some(principal),
                groups: Some(groups),
                ..empty_check(action)
            }),
    {
        PermissionCheck { metadata_id: Some(metadata_id), principal: Some(principal), groups: Some(groups), ..empty(action) }
    }

    /// A check of an action by a given principal on a metadata supplementary file.
    pub fn new_with_principal_and_metadata_supplementary_id(
        principal: u128,
        groups: Vec<u128>,
        metadata_id: u128,
        supplementary_id: u128,
        action: PermissionAction,
    ) -> (c: Self)
        ensures
            c == (PermissionCheck {
                metadata_id: Some(metadata_id),
                supplementary_id: Some(supplementary_id),
                principal: Some(principal),
                groups: Some(groups),
                supplementary: true,
                ..empty_check(action)
            }),
    {
        PermissionCheck {
            metadata_id: Some(metadata_id),
            supplementary_id: Some(supplementary_id),
            principal: Some(principal),
            groups: Some(groups),
            supplementary: true,
            ..empty(action)
        }
    }

    /// A check of an action by a given principal on a version of the metadata with this id.
    pub fn new_with_principal_and_metadata_id_with_version(
        principal: u128,
        groups: Vec<u128>,
        metadata_id: u128,
        version: i32,
        action: PermissionAction,
    ) -> (c: Self)
        ensures
            c == (PermissionCheck {
                metadata_id: Some(metadata_id),
                version: Some(version),
                principal: Some(principal),
                groups: Some(groups),
                ..empty_check(action)
            }),
    {
        PermissionCheck {
            metadata_id: Some(metadata_id),
            version: Some(version),
            principal: Some(principal),
            groups: Some(groups),
            ..empty(action)
        }
    }

    /// A check of an action by a given principal on a collection supplementary file.
    pub fn new_with_principal_and_collection_supplementary_id(
        principal: u128,
        groups: Vec<u128>,
        supplementary_id: u128,
        action: PermissionAction,
    ) -> (c: Self)
        ensures
            c == (PermissionCheck {
                supplementary_id: Some(supplementary_id),
                principal: Some(principal),
                groups: Some(groups),
                ..empty_check(action)
            }),
    {
        PermissionCheck {
            supplementary_id: Some(supplementary_id),
            principal: Some(principal),
            groups: Some(groups),
            ..empty(action)
        }
    }

    /// A check of an action on the given collection.
    pub fn new_with_collection(collection: Collection, action: PermissionAction) -> (c: Self)
        ensures
            c == (PermissionCheck { collection: Some(collection), ..empty_check(action) }),
    {
        PermissionCheck { collection: Some(collection), ..empty(action) }
    }

    /// A check of an action on the collection with this id.
    pub fn new_with_collection_id(collection_id: u128, action: PermissionAction) -> (c: Self)
        ensures
            c == (PermissionCheck { collection_id: Some(collection_id), ..empty_check(action) }),
    {
        PermissionCheck { collection_id: Some(collection_id), ..empty(action) }
    }

    /// A check of an action on the supplementary files of the collection with this id.
    pub fn new_with_collection_id_supplementary(collection_id: u128, action: PermissionAction) -> (c: Self)
        ensures
            c == (PermissionCheck { collection_id: Some(collection_id), supplementary: true, ..empty_check(action) }),
    {
        PermissionCheck { collection_id: Some(collection_id), supplementary: true, ..empty(action) }
    }

    /// A check of an action on the collection supplementary file with this id.
    pub fn new_with_collection_supplementary_id(supplementary_id: u128, action: PermissionAction) -> (c: Self)
        ensures
            c == (PermissionCheck {
                supplementary_id: Some(supplementary_id),
                supplementary: true,
                ..empty_check(action)
            }),
    {
        PermissionCheck { supplementary_id: Some(supplementary_id), supplementary: true, ..empty(action) }
    }
}

/// Why a permission check failed.
#[derive(Clone, Copy, PartialEq, Eq, Structural, Debug)]
pub enum CheckError {
    /// The check names nothing to check.
    InvalidPermissionCheck,
    MetadataNotFound(u128),
    SupplementaryNotFound(u128),
    CollectionNotFound(u128),
    ProfileNotFound(u128),
    /// Neither a grant nor a privileged group allows the action.
    InvalidPermissions,
}

/// The message that the server answers a failed check with.
pub open spec fn check_error_text(e: CheckError) -> Seq<char> {
    match e {
        CheckError::InvalidPermissionCheck => "invalid permission check"@,
        CheckError::MetadataNotFound(id) => "metadata not found: "@ + uuid_text(id),
        CheckError::SupplementaryNotFound(id) => "supplementary not found: "@ + uuid_text(id),
        CheckError::CollectionNotFound(id) => "collection not found: "@ + uuid_text(id),
        CheckError::ProfileNotFound(id) => "profile not found: "@ + uuid_text(id),
        CheckError::InvalidPermissions => "invalid permissions"@,
    }
}

impl CheckError {
    /// The message that the server answers this failure with.
    pub fn message(&self) -> (m: String)
        ensures
            m@ == check_error_text(*self),
    {
        let mut m = String::new();
        match self {
            CheckError::InvalidPermissionCheck => append_str(&mut m, "invalid permission check"),
            CheckError::MetadataNotFound(id) => {
                append_str(&mut m, "metadata not found: ");
                append_uuid(&mut m, *id);
            },
            CheckError::SupplementaryNotFound(id) => {
                append_str(&mut m, "supplementary not found: ");
                append_uuid(&mut m, *id);
            },
            CheckError::CollectionNotFound(id) => {
                append_str(&mut m, "collection not found: ");
                append_uuid(&mut m, *id);
            },
            CheckError::ProfileNotFound(id) => {
                append_str(&mut m, "profile not found: ");
                append_uuid(&mut m, *id);
            },
            CheckError::InvalidPermissions => append_str(&mut m, "invalid permissions"),
        }
        proof {
            assert(m@ =~= check_error_text(*self));
        }
        m
    }
}

/// Where the entity of a check comes from.
#[derive(Clone, Copy, PartialEq, Eq, Structural, Debug)]
pub enum EntityLookup {
    /// The check carries the entity itself.
    Provided,
    /// The entity is to be read by this id.
    ById(u128),
}

/// How the metadata of a check is found: given, else by id, else the check is invalid.
pub open spec fn metadata_lookup_spec(check: PermissionCheck) -> Result<EntityLookup, CheckError> {
    if check.metadata is Some {
        Ok(EntityLookup::Provided)
    } else if let Some(id) = check.metadata_id {
        Ok(EntityLookup::ById(id))
    } else {
        Err(CheckError::InvalidPermissionCheck)
    }
}

/// Decides where the metadata of a check comes from.
pub fn metadata_lookup(check: &PermissionCheck) -> (r: Result<EntityLookup, CheckError>)
    ensures
        r == metadata_lookup_spec(*check),
{
    if check.metadata.is_some() {
        Ok(EntityLookup::Provided)
    } else if let Some(id) = check.metadata_id {
        Ok(EntityLookup::ById(id))
    } else {
        Err(CheckError::InvalidPermissionCheck)
    }
}

/// How the collection of a check is found: given, else by id, else the check is invalid.
pub open spec fn collection_lookup_spec(check: PermissionCheck) -> Result<EntityLookup, CheckError> {
    if check.collection is Some {
        Ok(EntityLookup::Provided)
    } else if let Some(id) = check.collection_id {
        Ok(EntityLookup::ById(id))
    } else {
        Err(CheckError::InvalidPermissionCheck)
    }
}

/// Decides where the collection of a check comes from.
pub fn collection_lookup(check: &PermissionCheck) -> (r: Result<EntityLookup, CheckError>)
    ensures
        r == collection_lookup_spec(*check),
{
    if check.collection.is_some() {
        Ok(EntityLookup::Provided)
    } else if let Some(id) = check.collection_id {
        Ok(EntityLookup::ById(id))
    } else {
        Err(CheckError::InvalidPermissionCheck)
    }
}

/// The supplementary file that a supplementary check reads.
pub fn supplementary_lookup(check: &PermissionCheck) -> (r: Result<u128, CheckError>)
    ensures
        r == (match check.supplementary_id {
            Some(id) => Ok::<u128, CheckError>(id),
            None => Err(CheckError::InvalidPermissionCheck),
        }),
{
    match check.supplementary_id {
        Some(id) => Ok(id),
        None => Err(CheckError::InvalidPermissionCheck),
    }
}

/// What comes of metadata read by id for a check that may ask for a version.
#[derive(Debug)]
pub enum MetadataResolution {
    /// This is the metadata to judge.
    Resolved(Metadata),
    /// The requested version of this id is to be read.
    FetchVersion(u128, i32),
    /// The check fails: no such metadata.
    NotFound(CheckError),
}

/// Resolves metadata read by id: missing metadata fails the check; without
/// a requested version, or when the current version is the requested one,
/// it is judged as read; otherwise the requested version is to be read.
pub fn resolve_metadata(metadata_id: u128, fetched: Option<Metadata>, version: Option<i32>) -> (r: MetadataResolution)
    requires
        fetched matches Some(m) ==> m.id == metadata_id,
    ensures
        r matches MetadataResolution::Resolved(m) ==> m.id == metadata_id && (version matches Some(v) ==> m.version == v),
        r matches MetadataResolution::FetchVersion(id, v) ==> id == metadata_id && version == Some(v),
        match fetched {
            None => r == MetadataResolution::NotFound(CheckError::MetadataNotFound(metadata_id)),
            Some(m) => match version {
                None => r == MetadataResolution::Resolved(m),
                Some(v) => if m.version == v {
                    r == MetadataResolution::Resolved(m)
                } else {
                    r == MetadataResolution::FetchVersion(m.id, v)
                },
            },
        },
{
    match fetched {
        None => MetadataResolution::NotFound(CheckError::MetadataNotFound(metadata_id)),
        Some(m) => match version {
            None => MetadataResolution::Resolved(m),
            Some(v) => {
                if m.version == v {
                    MetadataResolution::Resolved(m)
                } else {
                    let id = m.id;
                    MetadataResolution::FetchVersion(id, v)
                }
            },
        },
    }
}

/// The decision of a metadata check: supplementary files, then content, then
/// the metadata itself (admitting advertised metadata when the check does).
pub open spec fn metadata_check_decision_spec(check: PermissionCheck, m: Metadata) -> PermissionDecision {
    if check.supplementary {
        metadata_supplementary_decision_spec(m, check.action)
    } else if check.content {
        metadata_content_decision_spec(m, check.action)
    } else {
        metadata_decision_spec(m, check.action, check.enable_advertised)
    }
}

/// Decides a metadata check on the resolved metadata before the grants are read.
pub fn metadata_check_decision(check: &PermissionCheck, metadata: &Metadata) -> (d: PermissionDecision)
    ensures
        d == metadata_check_decision_spec(*check, *metadata),
{
    if check.supplementary {
        metadata_supplementary_decision(metadata, check.action)
    } else if check.content {
        metadata_content_decision(metadata, check.action)
    } else {
        metadata_decision(metadata, check.action, check.enable_advertised)
    }
}

/// The decision of a collection check: supplementary files, or the collection itself.
pub open spec fn collection_check_decision_spec(check: PermissionCheck, c: Collection) -> PermissionDecision {
    if check.supplementary {
        collection_supplementary_decision_spec(c, check.action)
    } else {
        collection_decision_spec(c, check.action)
    }
}

/// Decides a collection check on the resolved collection before the grants are read.
pub fn collection_check_decision(check: &PermissionCheck, collection: &Collection) -> (d: PermissionDecision)
    ensures
        d == collection_check_decision_spec(*check, *collection),
{
    if check.supplementary {
        collection_supplementary_decision(collection, check.action)
    } else {
        collection_decision(collection, check.action)
    }
}

/// The principal that a check judges: its own, else the request's.
pub fn check_principal(check: &PermissionCheck, request_principal: u128) -> (p: u128)
    ensures
        p == (match check.principal {
            Some(p) => p,
            None => request_principal,
        }),
{
    match check.principal {
        Some(p) => p,
        None => request_principal,
    }
}

/// The groups that a check judges: its own, else the request's.
pub fn check_groups<'a>(check: &'a PermissionCheck, request_groups: &'a Vec<u128>) -> (g: &'a Vec<u128>)
    ensures
        *g == (match check.groups {
            Some(g) => g,
            None => *request_groups,
        }),
{
    match &check.groups {
        Some(g) => g,
        None => request_groups,
    }
}

/// The end of a check: access held, or a privileged group, lets it pass.
pub open spec fn check_outcome_spec(held: bool, privileged: bool) -> Result<(), CheckError> {
    if held || privileged {
        Ok(())
    } else {
        Err(CheckError::InvalidPermissions)
    }
}

/// Ends a check: it passes when access is held; otherwise it passes only for
/// a principal in the service account or administrators group.
pub fn check_outcome(held: bool, privileged: bool) -> (r: Result<(), CheckError>)
    ensures
        r == check_outcome_spec(held, privileged),
{
    if held || privileged {
        Ok(())
    } else {
        Err(CheckError::InvalidPermissions)
    }
}

/// How a request for a profile is judged.
#[derive(Clone, Copy, PartialEq, Eq, Structural, Debug)]
pub enum ProfileAccess {
    /// The profile is returned.
    Allowed,
    /// The profile is returned only to a privileged principal.
    RequiresPrivilege,
}

/// Judges an action on a profile: a missing profile fails; its owner and any
/// action but viewing pass; viewing a profile that is not public needs a
/// privileged principal.
pub fn profile_access(profile_id: u128, profile: &Option<Profile>, principal: u128, action: PermissionAction) -> (r: Result<ProfileAccess, CheckError>)
    ensures
        match *profile {
            None => r == Err::<ProfileAccess, CheckError>(CheckError::ProfileNotFound(profile_id)),
            Some(p) => if p.principal == Some(principal) {
                r == Ok::<ProfileAccess, CheckError>(ProfileAccess::Allowed)
            } else if action == PermissionAction::View && p.visibility != ProfileVisibility::Public {
                r == Ok::<ProfileAccess, CheckError>(ProfileAccess::RequiresPrivilege)
            } else {
                r == Ok::<ProfileAccess, CheckError>(ProfileAccess::Allowed)
            },
        },
{
    match profile {
        None => Err(CheckError::ProfileNotFound(profile_id)),
        Some(p) => {
            let owner = match p.principal {
                Some(o) => o == principal,
                None => false,
            };
            if owner {
                Ok(ProfileAccess::Allowed)
            } else if action == PermissionAction::View && p.visibility != ProfileVisibility::Public {
                Ok(ProfileAccess::RequiresPrivilege)
            } else {
                Ok(ProfileAccess::Allowed)
            }
        },
    }
}

/// Whether the request's principal is an administrator.
pub fn has_admin_account(groups: &[u128], administrators_group: u128) -> (r: bool)
    ensures
        r == in_groups(groups@, administrators_group),
{
    groups_contain(groups, administrators_group)
}

/// Whether the request's principal is a service account or an administrator.
pub fn has_service_account(groups: &[u128], service_account_group: u128, administrators_group: u128) -> (r: bool)
    ensures
        r == (in_groups(groups@, service_account_group) || in_groups(groups@, administrators_group)),
{
    if groups_contain(groups, service_account_group) {
        true
    } else {
        has_admin_account(groups, administrators_group)
    }
}

/// Fails unless the request's principal is an administrator.
pub fn check_has_admin_account(groups: &[u128], administrators_group: u128) -> (r: Result<(), CheckError>)
    ensures
        r is Ok <==> in_groups(groups@, administrators_group),
        r is Err ==> r == Err::<(), CheckError>(CheckError::InvalidPermissions),
{
    if has_admin_account(groups, administrators_group) {
        Ok(())
    } else {
        Err(CheckError::InvalidPermissions)
    }
}

/// Fails unless the request's principal is a service account or an administrator.
pub fn check_has_service_account(groups: &[u128], service_account_group: u128, administrators_group: u128) -> (r: Result<(), CheckError>)
    ensures
        r is Ok <==> (in_groups(groups@, service_account_group) || in_groups(groups@, administrators_group)),
        r is Err ==> r == Err::<(), CheckError>(CheckError::InvalidPermissions),
{
    if has_service_account(groups, service_account_group, administrators_group) {
        Ok(())
    } else {
        Err(CheckError::InvalidPermissions)
    }
}

/// A deleted entity is open to privileged principals only: whatever its
/// grants say, a check on deleted metadata (itself, its content or its
/// supplementary files) or on a deleted collection passes exactly when the
/// principal is in the service account or administrators group.
pub proof fn law_deleted_entities_need_privilege(
    check: PermissionCheck,
    m: Metadata,
    c: Collection,
    evaluated: bool,
    privileged: bool,
)
    requires
        m.deleted,
        c.deleted,
    ensures
        check_outcome_spec(access_held(metadata_check_decision_spec(check, m), evaluated), privileged) is Ok <==> privileged,
        check_outcome_spec(access_held(collection_check_decision_spec(check, c), evaluated), privileged) is Ok <==> privileged,
{
}

/// Anyone may view public metadata once it is published, and list or view
/// a published collection that is public (for viewing) or has a public list
/// (for listing), whatever the grants and groups.
pub proof fn law_published_public_entities_are_open(
    check: PermissionCheck,
    m: Metadata,
    c: Collection,
    evaluated: bool,
    privileged: bool,
)
    requires
        !check.supplementary,
        !check.content,
        check.action == PermissionAction::View || check.action == PermissionAction::List,
    ensures
        !m.deleted && m.public && m.workflow_state_id@ == PUBLISHED@ && check.action == PermissionAction::View
            ==> check_outcome_spec(access_held(metadata_check_decision_spec(check, m), evaluated), privileged) is Ok,
        !c.deleted && c.workflow_state_id@ == PUBLISHED@ && (if check.action == PermissionAction::View {
            c.public
        } else {
            c.public_list
        }) ==> check_outcome_spec(access_held(collection_check_decision_spec(check, c), evaluated), privileged) is Ok,
{
}

/// Resolves the requested version of metadata after it was read again: a
/// missing version fails the check with the metadata's id; a found one is
/// judged, and it is that id and version, as the read asked for both.
pub fn resolve_metadata_version(metadata_id: u128, version: i32, reread: Option<Metadata>) -> (r: Result<Metadata, CheckError>)
    requires
        reread matches Some(m) ==> m.id == metadata_id && m.version == version,
    ensures
        match reread {
            None => r == Err::<Metadata, CheckError>(CheckError::MetadataNotFound(metadata_id)),
            Some(m) => r == Ok::<Metadata, CheckError>(m),
        },
        r matches Ok(m) ==> m.id == metadata_id && m.version == version,
{
    match reread {
        None => Err(CheckError::MetadataNotFound(metadata_id)),
        Some(m) => Ok(m),
    }
}

/// Resolves the collection of a check read by id: a missing collection
/// fails the check with its id; a found one is judged.
pub fn resolve_collection(collection_id: u128, fetched: Option<Collection>) -> (r: Result<Collection, CheckError>)
    requires
        fetched matches Some(c) ==> c.id == collection_id,
    ensures
        match fetched {
            None => r == Err::<Collection, CheckError>(CheckError::CollectionNotFound(collection_id)),
            Some(c) => r == Ok::<Collection, CheckError>(c),
        },
        r matches Ok(c) ==> c.id == collection_id,
{
    match fetched {
        None => Err(CheckError::CollectionNotFound(collection_id)),
        Some(c) => Ok(c),
    }
}

} // verus!
