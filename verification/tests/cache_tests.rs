use bosca_server::bible_cache::{bible_eviction_keys, bible_key, chapter_read_key, chapter_write_key, variant_key};
use bosca_server::cache::{
    bosca_cache_key, cached_metadata_version, collection_slug, metadata_slug, should_cache_metadata, slug_from_ids,
    transition_key, CacheRegistry, RedisCache,
};
use bosca_server::models::{Metadata, Slug, SlugType};

fn metadata(version: i32, active_version: i32) -> Metadata {
    Metadata {
        id: 1,
        name: "n".to_string(),
        content_type: "text/plain".to_string(),
        version,
        active_version,
        deleted: false,
        public: false,
        public_content: false,
        public_supplementary: false,
        workflow_state_id: "draft".to_string(),
        ready: None,
    }
}

#[test]
fn cache_names() {
    assert_eq!(bosca_cache_key("slugs"), "bosca:cache:slugs");
    assert_eq!(RedisCache::new("metadata".to_string()).name(), "cache::metadata");
}

#[test]
fn only_active_versions_are_cached() {
    assert!(should_cache_metadata(&metadata(2, 2)));
    assert!(!should_cache_metadata(&metadata(1, 2)));
    assert_eq!(cached_metadata_version(Some(metadata(2, 2)), 2).map(|m| m.version), Some(2));
    assert!(cached_metadata_version(Some(metadata(2, 2)), 1).is_none());
    assert!(cached_metadata_version(None, 1).is_none());
}

#[test]
fn slugs() {
    assert_eq!(slug_from_ids(Some(1), Some(2), Some(3)), Slug { id: 1, slug_type: SlugType::Metadata });
    assert_eq!(slug_from_ids(None, Some(2), Some(3)), Slug { id: 2, slug_type: SlugType::Collection });
    assert_eq!(slug_from_ids(None, None, Some(3)), Slug { id: 3, slug_type: SlugType::Profile });
    assert_eq!(metadata_slug(4), Slug { id: 4, slug_type: SlugType::Metadata });
    assert_eq!(collection_slug(5), Slug { id: 5, slug_type: SlugType::Collection });
}

#[test]
fn cache_registry_keeps_each_name_once() {
    let mut r = CacheRegistry::new();
    assert!(r.get_cache_names().is_empty());
    r.register("slugs");
    r.register("metadata");
    r.register("slugs");
    let mut names = r.get_cache_names();
    names.sort();
    assert_eq!(names, vec!["metadata", "slugs"]);
}

#[test]
fn bible_keys() {
    assert_eq!(bible_key(1, 2, &Some("kjv".to_string())), "00000000-0000-0000-0000-000000000001::2::kjv");
    assert_eq!(bible_key(1, 2, &None), "00000000-0000-0000-0000-000000000001::2::__default__");
    assert_eq!(variant_key(1, -3, "kjv"), "00000000-0000-0000-0000-000000000001::-3::kjv");
    assert_eq!(chapter_read_key(1, 2, "kjv", "GEN.1"), "00000000-0000-0000-0000-000000000001::2::kjv::GEN.1");
    assert_eq!(chapter_write_key(1, 2, "kjv", "GEN.1"), "00000000-0000-0000-0000-000000000001::2::GEN.1::kjv");
}

#[test]
fn evicting_a_variant_drops_its_reads_and_the_default() {
    let (own, fallback) = bible_eviction_keys(1, 2, "kjv");
    assert_eq!(own, bible_key(1, 2, &Some("kjv".to_string())));
    assert_eq!(fallback, bible_key(1, 2, &None));
    assert_eq!(own, variant_key(1, 2, "kjv"));
}

#[test]
fn chapter_reads_find_writes_only_when_variant_and_chapter_coincide() {
    assert_eq!(chapter_read_key(1, 2, "x", "x"), chapter_write_key(1, 2, "x", "x"));
    assert_ne!(chapter_read_key(1, 2, "kjv", "GEN.1"), chapter_write_key(1, 2, "kjv", "GEN.1"));
}

#[test]
fn transition_keys() {
    assert_eq!(transition_key("draft", "published"), "draft-published");
    assert_ne!(transition_key("draft", "published"), transition_key("published", "draft"));
    // State ids that hold hyphens can share a key.
    assert_eq!(transition_key("a-b", "c"), transition_key("a", "b-c"));
}
