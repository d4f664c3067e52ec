use vstd::prelude::*;
use crate::ids::{append_uuid, uuid_text};
use crate::text::{append_decimal, append_str, decimal};

verus! {

/// The variant a bible is cached under when none is named.
pub const DEFAULT_VARIANT: &'static str = "__default__";

/// The variant a bible is cached under: the named one, or the default.
pub open spec fn variant_text(variant: Option<String>) -> Seq<char> {
    match variant {
        Some(v) => v@,
        None => "__default__"@,
    }
}

/// A cache key made of a metadata id, a version and one more part.
pub open spec fn version_key(metadata_id: u128, version: i32, part: Seq<char>) -> Seq<char> {
    uuid_text(metadata_id) + "::"@ + decimal(version as int) + "::"@ + part
}

/// A cache key made of a metadata id, a version and two more parts.
pub open spec fn version_key2(metadata_id: u128, version: i32, first: Seq<char>, second: Seq<char>) -> Seq<char> {
    version_key(metadata_id, version, first) + "::"@ + second
}

fn append_version_prefix(s: &mut String, metadata_id: u128, version: i32)
    ensures
        final(s)@ == old(s)@ + uuid_text(metadata_id) + "::"@ + decimal(version as int) + "::"@,
{
    let ghost s0 = s@;
    append_uuid(s, metadata_id);
    append_str(s, "::");
    append_decimal(s, version as i64);
    append_str(s, "::");
    proof {
        assert(s@ =~= s0 + uuid_text(metadata_id) + "::"@ + decimal(version as int) + "::"@);
    }
}

/// The key a bible is read and written under: its metadata, version and
/// variant (the default variant where none is named).
pub fn bible_key(metadata_id: u128, version: i32, variant: &Option<String>) -> (k: String)
    ensures
        k@ == version_key(metadata_id, version, variant_text(*variant)),
{
    let mut k = String::new();
    append_version_prefix(&mut k, metadata_id, version);
    match variant {
        Some(v) => append_str(&mut k, v.as_str()),
        None => append_str(&mut k, DEFAULT_VARIANT),
    }
    proof {
        reveal_strlit("__default__");
        assert(k@ =~= version_key(metadata_id, version, variant_text(*variant)));
    }
    k
}

/// The key a bible variant's languages, or its books, are read and written
/// under.
pub fn variant_key(metadata_id: u128, version: i32, variant: &str) -> (k: String)
    ensures
        k@ == version_key(metadata_id, version, variant@),
{
    let mut k = String::new();
    append_version_prefix(&mut k, metadata_id, version);
    append_str(&mut k, variant);
    proof {
        assert(k@ =~= version_key(metadata_id, version, variant@));
    }
    k
}

/// The key a chapter is looked up under: the variant, then the chapter.
pub fn chapter_read_key(metadata_id: u128, version: i32, variant: &str, usfm: &str) -> (k: String)
    ensures
        k@ == version_key2(metadata_id, version, variant@, usfm@),
{
    let mut k = variant_key(metadata_id, version, variant);
    append_str(&mut k, "::");
    append_str(&mut k, usfm);
    proof {
        assert(k@ =~= version_key2(metadata_id, version, variant@, usfm@));
    }
    k
}

/// The key a chapter is stored under: the chapter, then the variant.
pub fn chapter_write_key(metadata_id: u128, version: i32, variant: &str, usfm: &str) -> (k: String)
    ensures
        k@ == version_key2(metadata_id, version, usfm@, variant@),
{
    let mut k = variant_key(metadata_id, version, usfm);
    append_str(&mut k, "::");
    append_str(&mut k, variant);
    proof {
        assert(k@ =~= version_key2(metadata_id, version, usfm@, variant@));
    }
    k
}

/// The keys dropped when a bible variant changes: the variant's own, and
/// the default variant's.
pub fn bible_eviction_keys(metadata_id: u128, version: i32, variant: &str) -> (r: (String, String))
    ensures
        r.0@ == version_key(metadata_id, version, variant@),
        r.1@ == version_key(metadata_id, version, "__default__"@),
{
    let own = variant_key(metadata_id, version, variant);
    let fallback = variant_key(metadata_id, version, DEFAULT_VARIANT);
    proof {
        reveal_strlit("__default__");
    }
    (own, fallback)
}

/// Changing a bible variant drops what a read of that variant finds, and
/// what a read that names no variant finds.
pub proof fn law_eviction_covers_reads(metadata_id: u128, version: i32, variant: String)
    ensures
        version_key(metadata_id, version, variant_text(Some(variant))) == version_key(metadata_id, version, variant@),
        version_key(metadata_id, version, variant_text(None)) == version_key(metadata_id, version, "__default__"@),
{
}

/// A chapter read looks where the chapter was written only when its variant
/// and its chapter reference are the same text: the two keys name the
/// parts in opposite orders.
pub proof fn law_chapter_read_finds_write(metadata_id: u128, version: i32, variant: Seq<char>, usfm: Seq<char>)
    requires
        variant == usfm,
    ensures
        version_key2(metadata_id, version, variant, usfm) == version_key2(metadata_id, version, usfm, variant),
{
}

} // verus!
