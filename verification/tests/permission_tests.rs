use bosca_server::context::{
    check_groups, check_has_admin_account, check_has_service_account, check_outcome, check_principal,
    collection_check_decision, collection_lookup, has_admin_account, has_service_account, metadata_check_decision,
    metadata_lookup, profile_access, resolve_metadata, supplementary_lookup, CheckError, EntityLookup,
    MetadataResolution, PermissionCheck, ProfileAccess,
};
use bosca_server::models::{Collection, Metadata, Permission, PermissionAction, Profile, ProfileVisibility};
use bosca_server::permissions::{
    check_principal_groups, collection_decision, collection_supplementary_decision, groups_contain, inherit_permissions,
    metadata_content_decision, metadata_decision, metadata_supplementary_decision, permission_exists, resolve_access,
    PermissionDecision, ADVERTISED, PUBLISHED,
};

fn metadata(state: &str) -> Metadata {
    Metadata {
        id: 10,
        name: "song.mp3".to_string(),
        content_type: "audio/mpeg".to_string(),
        version: 2,
        active_version: 2,
        deleted: false,
        public: true,
        public_content: true,
        public_supplementary: true,
        workflow_state_id: state.to_string(),
        ready: None,
    }
}

fn collection(state: &str) -> Collection {
    Collection {
        id: 20,
        name: "c".to_string(),
        deleted: false,
        public: true,
        public_list: true,
        public_supplementary: true,
        workflow_state_id: state.to_string(),
        ready: None,
    }
}

#[test]
fn published_public_metadata_is_viewable() {
    let m = metadata(PUBLISHED);
    assert_eq!(metadata_decision(&m, PermissionAction::View, false), PermissionDecision::Granted);
    assert_eq!(metadata_decision(&m, PermissionAction::Edit, false), PermissionDecision::Evaluate);
    let mut private = metadata(PUBLISHED);
    private.public = false;
    assert_eq!(metadata_decision(&private, PermissionAction::View, false), PermissionDecision::Evaluate);
}

#[test]
fn advertised_metadata_needs_the_flag() {
    let m = metadata(ADVERTISED);
    assert_eq!(metadata_decision(&m, PermissionAction::View, false), PermissionDecision::Evaluate);
    assert_eq!(metadata_decision(&m, PermissionAction::View, true), PermissionDecision::Granted);
    assert_eq!(metadata_decision(&metadata("draft"), PermissionAction::View, true), PermissionDecision::Evaluate);
}

#[test]
fn deleted_entities_are_denied() {
    let mut m = metadata(PUBLISHED);
    m.deleted = true;
    assert_eq!(metadata_decision(&m, PermissionAction::View, true), PermissionDecision::Denied);
    assert_eq!(metadata_content_decision(&m, PermissionAction::View), PermissionDecision::Denied);
    assert_eq!(metadata_supplementary_decision(&m, PermissionAction::List), PermissionDecision::Denied);
    let mut c = collection(PUBLISHED);
    c.deleted = true;
    assert_eq!(collection_decision(&c, PermissionAction::View), PermissionDecision::Denied);
    assert_eq!(collection_supplementary_decision(&c, PermissionAction::View), PermissionDecision::Denied);
    assert!(!resolve_access(PermissionDecision::Denied, true));
    // Only a privileged principal passes a check on a deleted entity.
    let check = PermissionCheck::new_with_metadata(m, PermissionAction::View);
    let held = resolve_access(metadata_check_decision(&check, check.metadata.as_ref().unwrap()), true);
    assert_eq!(check_outcome(held, false), Err(CheckError::InvalidPermissions));
    assert_eq!(check_outcome(held, true), Ok(()));
}

#[test]
fn content_and_supplementary_decisions() {
    let m = metadata(PUBLISHED);
    assert_eq!(metadata_content_decision(&m, PermissionAction::View), PermissionDecision::Granted);
    assert_eq!(metadata_content_decision(&m, PermissionAction::List), PermissionDecision::Evaluate);
    assert_eq!(metadata_supplementary_decision(&m, PermissionAction::List), PermissionDecision::Granted);
    assert_eq!(metadata_supplementary_decision(&metadata("draft"), PermissionAction::View), PermissionDecision::Evaluate);
}

#[test]
fn collection_decisions() {
    let c = collection(PUBLISHED);
    assert_eq!(collection_decision(&c, PermissionAction::View), PermissionDecision::Granted);
    assert_eq!(collection_decision(&c, PermissionAction::List), PermissionDecision::Granted);
    assert_eq!(collection_decision(&c, PermissionAction::Delete), PermissionDecision::Evaluate);
    let mut closed = collection(PUBLISHED);
    closed.public_list = false;
    assert_eq!(collection_decision(&closed, PermissionAction::List), PermissionDecision::Evaluate);
    assert_eq!(collection_supplementary_decision(&c, PermissionAction::View), PermissionDecision::Granted);
    assert_eq!(collection_supplementary_decision(&collection("draft"), PermissionAction::View), PermissionDecision::Evaluate);
}

#[test]
fn access_resolution() {
    assert!(resolve_access(PermissionDecision::Granted, false));
    assert!(resolve_access(PermissionDecision::Evaluate, true));
    assert!(!resolve_access(PermissionDecision::Evaluate, false));
}

#[test]
fn group_membership_and_grants() {
    let groups = [1u128, 2, 3];
    assert!(groups_contain(&groups, 2));
    assert!(!groups_contain(&groups, 4));
    assert!(check_principal_groups(&groups, 3, 9));
    assert!(check_principal_groups(&groups, 8, 1));
    assert!(!check_principal_groups(&groups, 8, 9));
    let perms = [
        Permission { entity_id: 5, group_id: 1, action: PermissionAction::View },
        Permission { entity_id: 5, group_id: 2, action: PermissionAction::Edit },
    ];
    assert!(permission_exists(&perms, 2, PermissionAction::Edit));
    assert!(!permission_exists(&perms, 1, PermissionAction::Edit));
    let inherited = inherit_permissions(7, &perms);
    assert_eq!(
        inherited,
        vec![
            Permission { entity_id: 7, group_id: 1, action: PermissionAction::View },
            Permission { entity_id: 7, group_id: 2, action: PermissionAction::Edit },
        ]
    );
}

#[test]
fn check_builders_name_what_they_check() {
    let c = PermissionCheck::new_with_metadata_id(5, PermissionAction::Edit);
    assert_eq!(c.metadata_id, Some(5));
    assert!(!c.supplementary && !c.content && !c.enable_advertised);
    let c = PermissionCheck::new_with_metadata_id_with_version(5, 3, PermissionAction::View);
    assert_eq!((c.metadata_id, c.version), (Some(5), Some(3)));
    let c = PermissionCheck::new_with_metadata_supplementary_id(6, PermissionAction::View);
    assert_eq!(c.supplementary_id, Some(6));
    assert!(c.supplementary);
    let c = PermissionCheck::new_with_metadata_id_advertised(5, PermissionAction::View);
    assert!(c.enable_advertised);
    let c = PermissionCheck::new_with_metadata_content(metadata(PUBLISHED), PermissionAction::View);
    assert!(c.content);
    let c = PermissionCheck::new_with_principal_and_metadata_id(9, vec![1, 2], 5, PermissionAction::Manage);
    assert_eq!((c.principal, c.groups.clone()), (Some(9), Some(vec![1, 2])));
    let c = PermissionCheck::new_with_principal_and_collection_supplementary_id(9, vec![], 8, PermissionAction::View);
    assert_eq!(c.supplementary_id, Some(8));
    assert!(!c.supplementary);
    let c = PermissionCheck::new_with_collection_id_supplementary(4, PermissionAction::List);
    assert_eq!(c.collection_id, Some(4));
    assert!(c.supplementary);
    let c = PermissionCheck::new_with_collection_supplementary_id(4, PermissionAction::List);
    assert!(c.supplementary);
}

#[test]
fn lookups() {
    let by_id = PermissionCheck::new_with_metadata_id(5, PermissionAction::View);
    assert_eq!(metadata_lookup(&by_id), Ok(EntityLookup::ById(5)));
    let given = PermissionCheck::new_with_metadata(metadata(PUBLISHED), PermissionAction::View);
    assert_eq!(metadata_lookup(&given), Ok(EntityLookup::Provided));
    let nothing = PermissionCheck::new_with_collection_id(3, PermissionAction::View);
    assert_eq!(metadata_lookup(&nothing), Err(CheckError::InvalidPermissionCheck));
    assert_eq!(collection_lookup(&nothing), Ok(EntityLookup::ById(3)));
    assert_eq!(collection_lookup(&by_id), Err(CheckError::InvalidPermissionCheck));
    let with_collection = PermissionCheck::new_with_collection(collection(PUBLISHED), PermissionAction::View);
    assert_eq!(collection_lookup(&with_collection), Ok(EntityLookup::Provided));
    assert_eq!(supplementary_lookup(&PermissionCheck::new_with_metadata_supplementary_id(6, PermissionAction::View)), Ok(6));
    assert_eq!(supplementary_lookup(&by_id), Err(CheckError::InvalidPermissionCheck));
}

#[test]
fn metadata_resolution() {
    match resolve_metadata(10, None, None) {
        MetadataResolution::NotFound(e) => assert_eq!(e, CheckError::MetadataNotFound(10)),
        other => panic!("unexpected {:?}", other),
    }
    match resolve_metadata(10, Some(metadata(PUBLISHED)), Some(2)) {
        MetadataResolution::Resolved(m) => assert_eq!(m.version, 2),
        other => panic!("unexpected {:?}", other),
    }
    match resolve_metadata(10, Some(metadata(PUBLISHED)), Some(1)) {
        MetadataResolution::FetchVersion(id, v) => assert_eq!((id, v), (10, 1)),
        other => panic!("unexpected {:?}", other),
    }
    assert!(matches!(resolve_metadata(10, Some(metadata(PUBLISHED)), None), MetadataResolution::Resolved(_)));
}

#[test]
fn check_decisions_follow_the_check_kind() {
    let m = metadata(ADVERTISED);
    let plain = PermissionCheck::new_with_metadata(metadata(ADVERTISED), PermissionAction::View);
    assert_eq!(metadata_check_decision(&plain, &m), PermissionDecision::Evaluate);
    let advertised = PermissionCheck::new_with_metadata_advertised(metadata(ADVERTISED), PermissionAction::View);
    assert_eq!(metadata_check_decision(&advertised, &m), PermissionDecision::Granted);
    let supplementary = PermissionCheck::new_with_metadata_supplementary(metadata(PUBLISHED), PermissionAction::View);
    assert_eq!(metadata_check_decision(&supplementary, &metadata(PUBLISHED)), PermissionDecision::Granted);
    let mut c = collection(PUBLISHED);
    c.public_supplementary = false;
    let coll = PermissionCheck::new_with_collection_id_supplementary(20, PermissionAction::View);
    assert_eq!(collection_check_decision(&coll, &c), PermissionDecision::Evaluate);
    let coll = PermissionCheck::new_with_collection_id(20, PermissionAction::View);
    assert_eq!(collection_check_decision(&coll, &c), PermissionDecision::Granted);
}

#[test]
fn principal_and_groups_default_to_the_request() {
    let anonymous = PermissionCheck::new_with_metadata_id(5, PermissionAction::View);
    assert_eq!(check_principal(&anonymous, 77), 77);
    let request_groups = vec![1u128];
    assert_eq!(check_groups(&anonymous, &request_groups), &vec![1u128]);
    let named = PermissionCheck::new_with_principal_and_metadata_id(9, vec![4, 5], 5, PermissionAction::View);
    assert_eq!(check_principal(&named, 77), 9);
    assert_eq!(check_groups(&named, &request_groups), &vec![4u128, 5]);
}

#[test]
fn error_messages() {
    assert_eq!(CheckError::InvalidPermissionCheck.message(), "invalid permission check");
    assert_eq!(CheckError::MetadataNotFound(1).message(), "metadata not found: 00000000-0000-0000-0000-000000000001");
    assert_eq!(CheckError::CollectionNotFound(2).message(), "collection not found: 00000000-0000-0000-0000-000000000002");
    assert_eq!(CheckError::SupplementaryNotFound(3).message(), "supplementary not found: 00000000-0000-0000-0000-000000000003");
    assert_eq!(CheckError::ProfileNotFound(4).message(), "profile not found: 00000000-0000-0000-0000-000000000004");
    assert_eq!(CheckError::InvalidPermissions.message(), "invalid permissions");
}

#[test]
fn profile_access_rules() {
    let private = Some(Profile { id: 1, principal: Some(9), visibility: ProfileVisibility::User });
    assert_eq!(profile_access(1, &None, 9, PermissionAction::View), Err(CheckError::ProfileNotFound(1)));
    assert_eq!(profile_access(1, &private, 9, PermissionAction::View), Ok(ProfileAccess::Allowed));
    assert_eq!(profile_access(1, &private, 8, PermissionAction::View), Ok(ProfileAccess::RequiresPrivilege));
    assert_eq!(profile_access(1, &private, 8, PermissionAction::Edit), Ok(ProfileAccess::Allowed));
    let public = Some(Profile { id: 1, principal: None, visibility: ProfileVisibility::Public });
    assert_eq!(profile_access(1, &public, 8, PermissionAction::View), Ok(ProfileAccess::Allowed));
}

#[test]
fn admin_and_service_accounts() {
    let groups = [1u128, 2];
    assert!(has_admin_account(&groups, 2));
    assert!(!has_admin_account(&groups, 3));
    assert!(has_service_account(&groups, 1, 3));
    assert!(has_service_account(&groups, 4, 2));
    assert!(!has_service_account(&groups, 4, 3));
    assert_eq!(check_has_admin_account(&groups, 3), Err(CheckError::InvalidPermissions));
    assert_eq!(check_has_admin_account(&groups, 1), Ok(()));
    assert_eq!(check_has_service_account(&groups, 5, 6), Err(CheckError::InvalidPermissions));
    assert_eq!(check_has_service_account(&groups, 5, 2), Ok(()));
}
