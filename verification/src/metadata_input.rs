use vstd::prelude::*;
use crate::content::{ids_parse, ids_parsed_as, parse_ids, parent_collection, ContentError};
use crate::ids::{parse_uuid, parsed_uuid};
use crate::text::texts;

verus! {

/// Where a piece of metadata was taken from, as a client sends it.
#[derive(Debug)]
pub struct MetadataSourceInput {
    /// The id of the source, as text.
    pub id: Option<String>,
    /// The item's identifier within the source.
    pub identifier: Option<String>,
    /// The item's address within the source.
    pub source_url: Option<String>,
}

/// Where a piece of metadata was taken from, as it is stored.
#[derive(Debug)]
pub struct MetadataSource {
    pub id: Option<u128>,
    pub identifier: Option<String>,
    pub source_url: Option<String>,
}

/// Whether the source's id, where one is given, is an id.
pub open spec fn source_id_parses(source: Option<MetadataSourceInput>) -> bool {
    source matches Some(s) ==> (s.id matches Some(t) ==> parsed_uuid(t@) is Some)
}

/// The stored form of a source: nothing where none was given, else its
/// parsed id and its other fields as given.
pub open spec fn stored_source(source: Option<MetadataSourceInput>, r: MetadataSource) -> bool {
    match source {
        None => r.id is None && r.identifier is None && r.source_url is None,
        Some(s) => {
            &&& r.identifier == s.identifier
            &&& r.source_url == s.source_url
            &&& match s.id {
                None => r.id is None,
                Some(t) => parsed_uuid(t@) == Some(r.id->0) && r.id is Some,
            }
        },
    }
}

/// The stored form of the source of metadata that is added or edited. A
/// source id that is no id is not accepted.
pub fn metadata_source(source: &Option<MetadataSourceInput>) -> (r: MetadataSource)
    requires
        source_id_parses(*source),
    ensures
        stored_source(*source, r),
{
    match source {
        None => MetadataSource { id: None, identifier: None, source_url: None },
        Some(s) => {
            let id = match &s.id {
                None => None,
                Some(t) => match parse_uuid(t.as_str()) {
                    Some(u) => Some(u),
                    None => None,
                },
            };
            MetadataSource { id, identifier: s.identifier.clone(), source_url: s.source_url.clone() }
        },
    }
}

/// The stored form of a source, or `None` where its id is no id.
pub fn checked_metadata_source(source: &Option<MetadataSourceInput>) -> (r: Option<MetadataSource>)
    ensures
        match r {
            Some(m) => source_id_parses(*source) && stored_source(*source, m),
            None => !source_id_parses(*source),
        },
{
    let parses = match source {
        None => true,
        Some(s) => match &s.id {
            None => true,
            Some(t) => parse_uuid(t.as_str()).is_some(),
        },
    };
    if parses {
        Some(metadata_source(source))
    } else {
        None
    }
}

/// A profile linked to metadata, as a client sends it.
#[derive(Debug)]
pub struct MetadataProfileInput {
    pub profile_id: String,
    pub relationship: String,
}

/// A profile link as it is stored: the profile, its relationship, and its
/// place among the metadata's profiles.
#[derive(Debug)]
pub struct ProfileLink {
    pub profile_id: u128,
    pub relationship: String,
    pub sort: i32,
}

/// Whether every profile id of the list is an id.
pub open spec fn profiles_parse(profiles: Seq<MetadataProfileInput>) -> bool {
    forall|i: int| 0 <= i < profiles.len() ==> (#[trigger] parsed_uuid(profiles[i].profile_id@)) is Some
}

/// Whether `links` are the stored forms of `profiles`, in the same order,
/// each numbered by its place.
pub open spec fn profile_links_of(profiles: Seq<MetadataProfileInput>, links: Seq<ProfileLink>) -> bool {
    &&& links.len() == profiles.len()
    &&& forall|i: int| 0 <= i < profiles.len() ==> {
        &&& #[trigger] parsed_uuid(profiles[i].profile_id@) == Some(links[i].profile_id)
        &&& links[i].relationship == profiles[i].relationship
        &&& links[i].sort == i as i32
    }
}

/// The stored links of a list of profiles; a profile id that is no id
/// refuses the list.
pub fn profile_links(profiles: &Vec<MetadataProfileInput>) -> (r: Result<Vec<ProfileLink>, ContentError>)
    ensures
        match r {
            Ok(links) => profile_links_of(profiles@, links@),
            Err(e) => e == ContentError::InvalidId && !profiles_parse(profiles@),
        },
{
    let mut links: Vec<ProfileLink> = Vec::new();
    let mut i: usize = 0;
    while i < profiles.len()
        invariant
            i <= profiles@.len(),
            profile_links_of(profiles@.take(i as int), links@),
        decreases profiles@.len() - i,
    {
        match parse_uuid(profiles[i].profile_id.as_str()) {
            Some(u) => {
                let ghost before = links@;
                links.push(ProfileLink { profile_id: u, relationship: profiles[i].relationship.clone(), sort: i as i32 });
                proof {
                    assert forall|k: int| 0 <= k < i + 1 implies {
                        &&& #[trigger] parsed_uuid(profiles@.take(i + 1)[k].profile_id@) == Some(links@[k].profile_id)
                        &&& links@[k].relationship == profiles@.take(i + 1)[k].relationship
                        &&& links@[k].sort == k as i32
                    } by {
                        if k < i {
                            assert(profiles@.take(i + 1)[k] == profiles@.take(i as int)[k]);
                            assert(links@[k] == before[k]);
                        }
                    }
                }
            },
            None => {
                proof {
                    assert(parsed_uuid(profiles@[i as int].profile_id@) is None);
                }
                return Err(ContentError::InvalidId);
            },
        }
        i += 1;
    }
    proof {
        assert(profiles@.take(i as int) =~= profiles@);
    }
    Ok(links)
}

/// What metadata that is added or edited links to, besides its own row.
#[derive(Debug)]
pub struct MetadataLinks {
    /// Its categories, where the input names them.
    pub category_ids: Option<Vec<u128>>,
    /// Its profiles, where the input names them.
    pub profiles: Option<Vec<ProfileLink>>,
    /// The collection it is added to, where the input names one.
    pub parent_collection_id: Option<u128>,
}

/// Whether every id that the input names is an id.
pub open spec fn links_parse(
    category_ids: Option<Vec<String>>,
    profiles: Option<Vec<MetadataProfileInput>>,
    parent_collection_id: Option<String>,
) -> bool {
    &&& (category_ids matches Some(c) ==> ids_parse(c@))
    &&& (profiles matches Some(p) ==> profiles_parse(p@))
    &&& (parent_collection_id matches Some(t) ==> parsed_uuid(t@) is Some)
}

/// Parses what metadata that is added or edited links to: its categories,
/// its profiles and its parent collection, each only where the input names
/// it. An id that does not parse refuses the whole input, as it rolls back
/// the write that reads it.
pub fn metadata_links(
    category_ids: &Option<Vec<String>>,
    profiles: &Option<Vec<MetadataProfileInput>>,
    parent_collection_id: &Option<String>,
) -> (r: Result<MetadataLinks, ContentError>)
    ensures
        match r {
            Ok(links) => {
                &&& links_parse(*category_ids, *profiles, *parent_collection_id)
                &&& match category_ids {
                    None => links.category_ids is None,
                    Some(c) => links.category_ids matches Some(v) && ids_parsed_as(c@, v@),
                }
                &&& match profiles {
                    None => links.profiles is None,
                    Some(p) => links.profiles matches Some(v) && profile_links_of(p@, v@),
                }
                &&& match parent_collection_id {
                    None => links.parent_collection_id is None,
                    Some(t) => links.parent_collection_id == parsed_uuid(t@),
                }
            },
            Err(e) => e == ContentError::InvalidId && !links_parse(*category_ids, *profiles, *parent_collection_id),
        },
{
    let categories = match category_ids {
        None => None,
        Some(c) => match parse_ids(c) {
            Ok(v) => Some(v),
            Err(e) => {
                return Err(e);
            },
        },
    };
    let links = match profiles {
        None => None,
        Some(p) => match profile_links(p) {
            Ok(v) => Some(v),
            Err(e) => {
                return Err(e);
            },
        },
    };
    let parent = match parent_collection_id {
        None => None,
        Some(_) => match parent_collection(parent_collection_id) {
            Ok((u, _)) => Some(u),
            Err(e) => {
                return Err(e);
            },
        },
    };
    Ok(MetadataLinks { category_ids: categories, profiles: links, parent_collection_id: parent })
}

/// The ids a new supplementary file is stored under: its owner's, its
/// plan's, and its source's where a source identifier is given.
pub fn supplementary_ids(content_id: &str, plan_id: &str, source_identifier: &Option<String>) -> (r: Result<(u128, u128, Option<u128>), ContentError>)
    ensures
        match (parsed_uuid(content_id@), parsed_uuid(plan_id@)) {
            (Some(c), Some(p)) => match source_identifier {
                None => r == Ok::<(u128, u128, Option<u128>), ContentError>((c, p, None)),
                Some(s) => match parsed_uuid(s@) {
                    Some(u) => r == Ok::<(u128, u128, Option<u128>), ContentError>((c, p, Some(u))),
                    None => r == Err::<(u128, u128, Option<u128>), ContentError>(ContentError::InvalidId),
                },
            },
            _ => r == Err::<(u128, u128, Option<u128>), ContentError>(ContentError::InvalidId),
        },
{
    let c = match parse_uuid(content_id) {
        Some(c) => c,
        None => {
            return Err(ContentError::InvalidId);
        },
    };
    let p = match parse_uuid(plan_id) {
        Some(p) => p,
        None => {
            return Err(ContentError::InvalidId);
        },
    };
    match source_identifier {
        None => Ok((c, p, None)),
        Some(s) => match parse_uuid(s.as_str()) {
            Some(u) => Ok((c, p, Some(u))),
            None => Err(ContentError::InvalidId),
        },
    }
}

/// The traits of a content type that metadata does not carry yet, in the
/// order the content type lists them.
pub open spec fn traits_to_add(current: Seq<Seq<char>>, for_type: Seq<Seq<char>>) -> Seq<Seq<char>>
    decreases for_type.len(),
{
    if for_type.len() == 0 {
        Seq::empty()
    } else {
        let prev = traits_to_add(current, for_type.drop_last());
        if current.contains(for_type.last()) {
            prev
        } else {
            prev.push(for_type.last())
        }
    }
}

proof fn lemma_traits_to_add(current: Seq<Seq<char>>, for_type: Seq<Seq<char>>)
    ensures
        forall|t: Seq<char>| #[trigger] for_type.contains(t) ==> current.contains(t) || traits_to_add(current, for_type).contains(t),
        forall|t: Seq<char>| #[trigger] traits_to_add(current, for_type).contains(t) ==> !current.contains(t) && for_type.contains(t),
    decreases for_type.len(),
{
    if for_type.len() > 0 {
        let d = for_type.drop_last();
        lemma_traits_to_add(current, d);
        let prev = traits_to_add(current, d);
        assert forall|t: Seq<char>| #[trigger] for_type.contains(t) implies current.contains(t) || traits_to_add(current, for_type).contains(t) by {
            let j = choose|j: int| 0 <= j < for_type.len() && for_type[j] == t;
            if j < for_type.len() - 1 {
                assert(d[j] == t);
                assert(d.contains(t));
                if prev.contains(t) && !current.contains(for_type.last()) {
                    let k = choose|k: int| 0 <= k < prev.len() && prev[k] == t;
                    assert(prev.push(for_type.last())[k] == t);
                }
            } else if !current.contains(t) {
                assert(prev.push(for_type.last())[prev.len() as int] == t);
            }
        }
        assert forall|t: Seq<char>| #[trigger] traits_to_add(current, for_type).contains(t) implies !current.contains(t) && for_type.contains(t) by {
            let r = traits_to_add(current, for_type);
            let k = choose|k: int| 0 <= k < r.len() && r[k] == t;
            if k < prev.len() {
                assert(prev[k] == t);
                assert(prev.contains(t));
                let j = choose|j: int| 0 <= j < d.len() && d[j] == t;
                assert(for_type[j] == t);
            } else {
                assert(t == for_type.last());
                assert(for_type[for_type.len() - 1] == t);
            }
        }
    }
}

fn holds_text(list: &Vec<String>, t: &String) -> (r: bool)
    ensures
        r == texts(list@).contains(t@),
{
    let mut i: usize = 0;
    while i < list.len()
        invariant
            i <= list@.len(),
            forall|k: int| 0 <= k < i ==> list@[k]@ != t@,
        decreases list@.len() - i,
    {
        if list[i] == *t {
            proof {
                assert(texts(list@)[i as int] == t@);
            }
            return true;
        }
        i += 1;
    }
    proof {
        if texts(list@).contains(t@) {
            let k = choose|k: int| 0 <= k < texts(list@).len() && texts(list@)[k] == t@;
            assert(list@[k]@ == t@);
        }
    }
    false
}

/// The traits to add so that metadata carries every trait of its content
/// type: those it does not carry yet. Afterwards each trait of the content
/// type is carried, and none is added that was carried already.
pub fn content_type_traits_to_add(current: &Vec<String>, for_type: &Vec<String>) -> (r: Vec<String>)
    ensures
        texts(r@) == traits_to_add(texts(current@), texts(for_type@)),
        forall|t: Seq<char>| #[trigger] texts(for_type@).contains(t) ==> texts(current@).contains(t) || texts(r@).contains(t),
        forall|t: Seq<char>| #[trigger] texts(r@).contains(t) ==> !texts(current@).contains(t),
{
    let mut r: Vec<String> = Vec::new();
    let mut i: usize = 0;
    while i < for_type.len()
        invariant
            i <= for_type@.len(),
            texts(r@) == traits_to_add(texts(current@), texts(for_type@).take(i as int)),
        decreases for_type@.len() - i,
    {
        proof {
            assert(texts(for_type@).take(i + 1).drop_last() =~= texts(for_type@).take(i as int));
            assert(texts(for_type@).take(i + 1).last() == for_type@[i as int]@);
        }
        if !holds_text(current, &for_type[i]) {
            r.push(for_type[i].clone());
            proof {
                assert(texts(r@) =~= traits_to_add(texts(current@), texts(for_type@).take(i as int)).push(for_type@[i as int]@));
            }
        }
        i += 1;
    }
    proof {
        assert(texts(for_type@).take(i as int) =~= texts(for_type@));
        lemma_traits_to_add(texts(current@), texts(for_type@));
    }
    r
}

/// The links written for metadata that is added (`editing` false) or edited.
#[derive(Debug)]
pub struct MetadataWritePlan {
    /// Whether the existing traits are removed first.
    pub delete_traits: bool,
    /// The traits added, in the order given.
    pub add_traits: Vec<String>,
    /// Whether the existing categories are removed first.
    pub delete_categories: bool,
    pub category_ids: Vec<u128>,
    /// Whether the existing profile links are removed first.
    pub delete_profiles: bool,
    pub profiles: Vec<ProfileLink>,
    /// The collection new metadata is added to (never for an edit).
    pub parent_collection_id: Option<u128>,
}

/// The texts of an optional list, none when it is absent.
pub open spec fn given_texts(list: Option<Vec<String>>) -> Seq<Seq<char>> {
    match list {
        Some(l) => texts(l@),
        None => Seq::empty(),
    }
}

/// Plans the links of metadata that is added or edited. Every trait,
/// category and profile given is written, in order. When editing, each kind
/// that is given replaces the old links of that kind and a kind that is not
/// given keeps them; adding removes nothing. Only added metadata is placed
/// in a parent collection. An id that does not parse refuses the write.
pub fn metadata_write_plan(
    editing: bool,
    trait_ids: &Option<Vec<String>>,
    category_ids: &Option<Vec<String>>,
    profiles: &Option<Vec<MetadataProfileInput>>,
    parent_collection_id: &Option<String>,
) -> (r: Result<MetadataWritePlan, ContentError>)
    ensures
        ({
            let parent = if editing { None } else { *parent_collection_id };
            match r {
                Ok(p) => {
                    &&& links_parse(*category_ids, *profiles, parent)
                    &&& p.delete_traits == (editing && trait_ids is Some)
                    &&& texts(p.add_traits@) == given_texts(*trait_ids)
                    &&& p.delete_categories == (editing && category_ids is Some)
                    &&& match category_ids {
                        Some(c) => ids_parsed_as(c@, p.category_ids@),
                        None => p.category_ids@.len() == 0,
                    }
                    &&& p.delete_profiles == (editing && profiles is Some)
                    &&& match profiles {
                        Some(l) => profile_links_of(l@, p.profiles@),
                        None => p.profiles@.len() == 0,
                    }
                    &&& match parent {
                        Some(t) => p.parent_collection_id == parsed_uuid(t@),
                        None => p.parent_collection_id is None,
                    }
                },
                Err(e) => e == ContentError::InvalidId && !links_parse(*category_ids, *profiles, parent),
            }
        }),
{
    let none: Option<String> = None;
    let parent = if editing { &none } else { parent_collection_id };
    let links = match metadata_links(category_ids, profiles, parent) {
        Ok(l) => l,
        Err(e) => {
            return Err(e);
        },
    };
    let add_traits = match trait_ids {
        Some(t) => clone_texts(t),
        None => Vec::new(),
    };
    proof {
        if trait_ids is None {
            assert(texts(add_traits@) =~= Seq::<Seq<char>>::empty());
        }
    }
    let category_list = match links.category_ids {
        Some(c) => c,
        None => Vec::new(),
    };
    let profile_list = match links.profiles {
        Some(p) => p,
        None => Vec::new(),
    };
    Ok(MetadataWritePlan {
        delete_traits: editing && trait_ids.is_some(),
        add_traits,
        delete_categories: editing && category_ids.is_some(),
        category_ids: category_list,
        delete_profiles: editing && profiles.is_some(),
        profiles: profile_list,
        parent_collection_id: links.parent_collection_id,
    })
}

fn clone_texts(v: &Vec<String>) -> (r: Vec<String>)
    ensures
        texts(r@) == texts(v@),
{
    let mut r: Vec<String> = Vec::new();
    let mut i: usize = 0;
    while i < v.len()
        invariant
            i <= v@.len(),
            r@.len() == i,
            forall|k: int| 0 <= k < i ==> (#[trigger] r@[k])@ == v@[k]@,
        decreases v@.len() - i,
    {
        r.push(v[i].clone());
        i += 1;
    }
    proof {
        assert(texts(r@) =~= texts(v@));
    }
    r
}

} // verus!
