use bosca_server::templates::{author_profiles, id_texts, template_item_attributes};
use bosca_server::workflow::ConfigValue;
use bosca_server::content::{
    uploaded_system_attributes,
    check_items_unlocked, collections_to_notify,
    check_template, collection_child, content_error_message, document_source, guide_completed, guide_module_title,
    guide_step_title, guide_steps_page, inherited_permissions_source, parent_collection, parse_ids, profile_mark_target,
    progress_records_step, shift_sorts_for_insert, uploaded_file_name, CollectionChild, ContentError, DocumentSource,
    MarkTarget, GUIDE_TEMPLATE_CONTENT_TYPE, ROOT_COLLECTION_ID,
};
use bosca_server::metadata_input::{
    content_type_traits_to_add,
    checked_metadata_source, metadata_links, metadata_source, profile_links, supplementary_ids, MetadataProfileInput,
    MetadataSourceInput,
};

const A: &str = "67e55044-10b1-426f-9247-bb680e5fe0c8";
const A_ID: u128 = 0x67e5504410b1426f9247bb680e5fe0c8;
const B: &str = "00000000-0000-0000-0000-000000000002";

#[test]
fn templates_must_have_the_expected_type() {
    assert_eq!(check_template(&"bosca/v-guide-template".to_string(), GUIDE_TEMPLATE_CONTENT_TYPE), Ok(()));
    assert_eq!(check_template(&"text/plain".to_string(), GUIDE_TEMPLATE_CONTENT_TYPE), Err(ContentError::InvalidTemplate));
    assert_eq!(content_error_message(ContentError::InvalidTemplate), "invalid template");
    assert_eq!(content_error_message(ContentError::InvalidId), "invalid id");
    assert_eq!(content_error_message(ContentError::MissingMetadata), "missing metadata or metadata id and version");
    assert_eq!(
        content_error_message(ContentError::MissingChild),
        "you must supply either a child collection id or child metadata id"
    );
    assert_eq!(
        content_error_message(ContentError::AmbiguousChild),
        "you can only supply either a child collection id or child metadata id"
    );
}

#[test]
fn numbered_titles() {
    assert_eq!(guide_step_title(0), "New Step");
    assert_eq!(guide_step_title(1), "New Step 2");
    assert_eq!(guide_step_title(9), "New Step 10");
    assert_eq!(guide_module_title(0), "New Module");
    assert_eq!(guide_module_title(2), "New Module 3");
}

#[test]
fn inserting_a_step_frees_its_position() {
    let shifted = shift_sorts_for_insert(&[0, 1, 2, 3], 2);
    assert_eq!(shifted, vec![0, 1, 3, 4]);
    assert!(!shifted.contains(&2));
    assert_eq!(shift_sorts_for_insert(&[5, 1], 0), vec![6, 2]);
    assert_eq!(shift_sorts_for_insert(&[], 0), Vec::<i32>::new());
}

#[test]
fn steps_page_needs_offset_and_limit() {
    assert_eq!(guide_steps_page(Some(1), Some(2)), Some((1, 2)));
    assert_eq!(guide_steps_page(Some(1), None), None);
    assert_eq!(guide_steps_page(None, Some(2)), None);
}

#[test]
fn document_sources() {
    assert!(matches!(document_source(true, &None, None), Ok(DocumentSource::New)));
    match document_source(false, &Some(A.to_string()), Some(4)) {
        Ok(DocumentSource::Existing(id, v)) => assert_eq!((id, v), (A_ID, 4)),
        _ => panic!("expected an existing document"),
    }
    assert!(matches!(document_source(false, &Some("nope".to_string()), Some(4)), Err(ContentError::InvalidId)));
    assert!(matches!(document_source(false, &Some(A.to_string()), None), Err(ContentError::MissingMetadata)));
    assert!(matches!(document_source(false, &None, Some(1)), Err(ContentError::MissingMetadata)));
}

#[test]
fn inherited_permissions_come_from_the_parent_or_the_root() {
    assert_eq!(inherited_permissions_source(Some(5), true), Some(5));
    assert_eq!(inherited_permissions_source(None, true), Some(ROOT_COLLECTION_ID));
    assert_eq!(inherited_permissions_source(Some(5), false), None);
}

#[test]
fn parent_collection_defaults_to_the_root() {
    assert_eq!(parent_collection(&None), Ok((ROOT_COLLECTION_ID, true)));
    assert_eq!(parent_collection(&Some(A.to_string())), Ok((A_ID, false)));
    assert_eq!(parent_collection(&Some("x".to_string())), Err(ContentError::InvalidId));
}

#[test]
fn id_lists_parse_in_order_or_not_at_all() {
    assert_eq!(parse_ids(&vec![A.to_string(), B.to_string()]), Ok(vec![A_ID, 2]));
    assert_eq!(parse_ids(&vec![]), Ok(vec![]));
    assert_eq!(parse_ids(&vec![A.to_string(), "bad".to_string()]), Err(ContentError::InvalidId));
    let simple = "67e5504410b1426f9247bb680e5fe0c8".to_string();
    assert_eq!(parse_ids(&vec![simple]), Ok(vec![A_ID]));
}

#[test]
fn collection_children() {
    assert!(matches!(collection_child(Some(1), None), Ok(CollectionChild::Collection(1))));
    assert!(matches!(collection_child(None, Some(2)), Ok(CollectionChild::Metadata(2))));
    assert!(matches!(collection_child(None, None), Err(ContentError::MissingChild)));
    assert!(matches!(collection_child(Some(1), Some(2)), Err(ContentError::AmbiguousChild)));
}

#[test]
fn uploaded_file_names() {
    assert_eq!(uploaded_file_name(&Some("a.txt".to_string())), "a.txt");
    assert_eq!(uploaded_file_name(&None), "--");
}

#[test]
fn mark_targets() {
    assert_eq!(profile_mark_target(Some(1), Some(2), Some(3)), MarkTarget::Metadata(1, 2));
    assert_eq!(profile_mark_target(Some(1), None, Some(3)), MarkTarget::Collection(Some(3)));
    assert_eq!(profile_mark_target(None, Some(2), None), MarkTarget::Collection(None));
}

#[test]
fn guide_progress() {
    assert!(progress_records_step(&vec![3, 5, 8], 5));
    assert!(!progress_records_step(&vec![3, 5, 8], 4));
    assert!(!progress_records_step(&vec![], 4));
    assert!(guide_completed(Some(3), 3));
    assert!(!guide_completed(Some(2), 3));
    assert!(guide_completed(None, 0));
    assert!(!guide_completed(None, 1));
}

#[test]
fn metadata_sources() {
    assert!(metadata_source(&None).id.is_none());
    let source = Some(MetadataSourceInput {
        id: Some(A.to_string()),
        identifier: Some("ext-1".to_string()),
        source_url: Some("https://example.org/1".to_string()),
    });
    let stored = metadata_source(&source);
    assert_eq!(stored.id, Some(A_ID));
    assert_eq!(stored.identifier.as_deref(), Some("ext-1"));
    assert_eq!(stored.source_url.as_deref(), Some("https://example.org/1"));
    let no_id = Some(MetadataSourceInput { id: None, identifier: None, source_url: None });
    assert!(checked_metadata_source(&no_id).unwrap().id.is_none());
    let bad = Some(MetadataSourceInput { id: Some("bad".to_string()), identifier: None, source_url: None });
    assert!(checked_metadata_source(&bad).is_none());
    assert_eq!(checked_metadata_source(&source).unwrap().id, Some(A_ID));
}

fn profile(id: &str, relationship: &str) -> MetadataProfileInput {
    MetadataProfileInput { profile_id: id.to_string(), relationship: relationship.to_string() }
}

#[test]
fn profile_links_keep_order_and_number_it() {
    let links = profile_links(&vec![profile(A, "author"), profile(B, "editor")]).unwrap();
    assert_eq!(links.len(), 2);
    assert_eq!((links[0].profile_id, links[0].relationship.as_str(), links[0].sort), (A_ID, "author", 0));
    assert_eq!((links[1].profile_id, links[1].relationship.as_str(), links[1].sort), (2, "editor", 1));
    assert_eq!(profile_links(&vec![profile(A, "author"), profile("x", "editor")]).unwrap_err(), ContentError::InvalidId);
}

#[test]
fn metadata_links_parse_what_is_named() {
    let links = metadata_links(&Some(vec![B.to_string()]), &None, &Some(A.to_string())).unwrap();
    assert_eq!(links.category_ids, Some(vec![2]));
    assert!(links.profiles.is_none());
    assert_eq!(links.parent_collection_id, Some(A_ID));
    let links = metadata_links(&None, &Some(vec![profile(B, "author")]), &None).unwrap();
    assert!(links.category_ids.is_none());
    assert_eq!(links.profiles.unwrap()[0].profile_id, 2);
    assert!(links.parent_collection_id.is_none());
    assert_eq!(metadata_links(&Some(vec!["bad".to_string()]), &None, &None).unwrap_err(), ContentError::InvalidId);
    assert_eq!(metadata_links(&None, &None, &Some("bad".to_string())).unwrap_err(), ContentError::InvalidId);
    assert_eq!(
        metadata_links(&None, &Some(vec![profile("bad", "author")]), &None).unwrap_err(),
        ContentError::InvalidId
    );
}

#[test]
fn supplementary_id_parsing() {
    assert_eq!(supplementary_ids(A, B, &None), Ok((A_ID, 2, None)));
    assert_eq!(supplementary_ids(A, B, &Some(A.to_string())), Ok((A_ID, 2, Some(A_ID))));
    assert_eq!(supplementary_ids("x", B, &None), Err(ContentError::InvalidId));
    assert_eq!(supplementary_ids(A, "x", &None), Err(ContentError::InvalidId));
    assert_eq!(supplementary_ids(A, B, &Some("ext".to_string())), Err(ContentError::InvalidId));
}

#[test]
fn template_items() {
    let attrs = template_item_attributes("Guide", &None);
    match attrs {
        ConfigValue::Object(e) => assert_eq!(e, vec![("editor.type".to_string(), "\"Guide\"".to_string())]),
        other => panic!("unexpected {:?}", other),
    }
    let defaults = Some(ConfigValue::Object(vec![
        ("editor.type".to_string(), "\"Custom\"".to_string()),
        ("color".to_string(), "1".to_string()),
    ]));
    match template_item_attributes("Say \"hi\"\n\u{1}", &defaults) {
        ConfigValue::Object(e) => {
            assert_eq!(e[0], ("editor.type".to_string(), "\"Say \\\"hi\\\"\\n\\u0001\"".to_string()));
            let last = e.iter().rev().find(|(k, _)| k == "editor.type").unwrap();
            assert_eq!(last.1, "\"Custom\"");
            assert!(e.iter().any(|(k, v)| k == "color" && v == "1"));
        },
        other => panic!("unexpected {:?}", other),
    }
    for text in ["plain", "tab\there", "back\\slash", "\u{7f}\u{e9}", "\u{8}\u{c}\r"] {
        match template_item_attributes(text, &Some(ConfigValue::Null)) {
            ConfigValue::Object(e) => assert_eq!(e[0].1, serde_json::to_string(text).unwrap()),
            other => panic!("unexpected {:?}", other),
        }
    }
    let authors = author_profiles(Some(1)).unwrap();
    assert_eq!(authors.len(), 1);
    assert_eq!(authors[0].profile_id, "00000000-0000-0000-0000-000000000001");
    assert_eq!(authors[0].relationship, "author");
    assert!(author_profiles(None).is_none());
    assert_eq!(id_texts(&vec![1, 2]), vec!["00000000-0000-0000-0000-000000000001", "00000000-0000-0000-0000-000000000002"]);
}

#[test]
fn content_type_traits() {
    let current = vec!["a".to_string(), "b".to_string()];
    let for_type = vec!["b".to_string(), "c".to_string(), "a".to_string(), "d".to_string()];
    assert_eq!(content_type_traits_to_add(&current, &for_type), vec!["c", "d"]);
    assert!(content_type_traits_to_add(&current, &vec![]).is_empty());
    assert_eq!(content_type_traits_to_add(&vec![], &vec!["x".to_string()]), vec!["x"]);
}

#[test]
fn locked_collections() {
    assert_eq!(check_items_unlocked(true, false), Err(ContentError::Locked));
    assert_eq!(check_items_unlocked(true, true), Ok(()));
    assert_eq!(check_items_unlocked(false, false), Ok(()));
    assert_eq!(content_error_message(ContentError::Locked), "locked");
}

#[test]
fn added_collections_are_announced_once() {
    assert_eq!(collections_to_notify(&vec![(10, 0), (11, 0), (12, 10)]), vec![10, 0, 11, 12]);
    assert_eq!(collections_to_notify(&vec![]), Vec::<u128>::new());
    assert_eq!(collections_to_notify(&vec![(5, 5)]), vec![5, 5]);
}

#[test]
fn upload_system_attributes() {
    match uploaded_system_attributes(&Some("a \"b\".txt".to_string())) {
        ConfigValue::Object(e) => {
            assert_eq!(e, vec![("original_file_name".to_string(), "\"a \\\"b\\\".txt\"".to_string())])
        },
        other => panic!("unexpected {:?}", other),
    }
    match uploaded_system_attributes(&None) {
        ConfigValue::Object(e) => assert_eq!(e, vec![("original_file_name".to_string(), "\"--\"".to_string())]),
        other => panic!("unexpected {:?}", other),
    }
}

#[test]
fn id_forms() {
    let forms = [
        "67E55044-10B1-426F-9247-BB680E5FE0C8",
        "{67e55044-10b1-426f-9247-bb680e5fe0c8}",
        "urn:uuid:67e55044-10b1-426f-9247-bb680e5fe0c8",
        "URN:UUID:67e55044-10b1-426f-9247-bb680e5fe0c8",
        "67e5504410b1426f9247bb680e5fe0c8",
    ];
    for f in forms {
        assert_eq!(parse_ids(&vec![f.to_string()]), Ok(vec![A_ID]), "{}", f);
    }
    let bad = [
        "67e55044-10b1-426f-9247-bb680e5fe0c",
        "67e5504-410b1-426f-9247-bb680e5fe0c8",
        "(67e55044-10b1-426f-9247-bb680e5fe0c8)",
        "urn:uuix:67e55044-10b1-426f-9247-bb680e5fe0c8",
        "67e55044-10b1-426f-9247-bb680e5fe0cg",
        "67e55044-10b1-426f-9247-bb680e5fe0é",
        "",
    ];
    for b in bad {
        assert_eq!(parse_ids(&vec![b.to_string()]), Err(ContentError::InvalidId), "{}", b);
        assert!(uuid::Uuid::parse_str(b).is_err());
    }
}
