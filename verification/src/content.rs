use vstd::prelude::*;
use crate::ids::{parse_uuid, parsed_uuid};
use crate::text::{append_decimal, append_str, decimal};
use crate::json::{json_string, json_string_text};
use crate::workflow::{config_view, entries_map, ConfigValue, ConfigView};

verus! {

/// The id of the root collection, to which metadata without a parent belongs.
pub const ROOT_COLLECTION_ID: u128 = 0;

/// The content type of guide templates.
pub const GUIDE_TEMPLATE_CONTENT_TYPE: &'static str = "bosca/v-guide-template";

/// The content type of document templates.
pub const DOCUMENT_TEMPLATE_CONTENT_TYPE: &'static str = "bosca/v-document-template";

/// The content type of guide steps.
pub const GUIDE_STEP_CONTENT_TYPE: &'static str = "bosca/v-guide-step";

/// The content type of guide modules.
pub const GUIDE_MODULE_CONTENT_TYPE: &'static str = "bosca/v-guide-module";

/// The relationship of a creator's profile to what it created.
pub const AUTHOR_RELATIONSHIP: &'static str = "author";

/// Why a content operation was refused.
#[derive(Clone, Copy, PartialEq, Eq, Structural, Debug)]
pub enum ContentError {
    /// The template is not of the kind the operation needs.
    InvalidTemplate,
    /// An id did not parse.
    InvalidId,
    /// Neither new metadata nor an existing id and version were given.
    MissingMetadata,
    /// Neither a child collection nor child metadata was named.
    MissingChild,
    /// Both a child collection and child metadata were named.
    AmbiguousChild,
    /// The collection's items are locked.
    Locked,
    /// The template has no document template.
    MissingTemplate,
    /// The template has no guide template.
    MissingGuide,
}

/// The message the server answers a refused content operation with.
pub open spec fn content_error_text(e: ContentError) -> Seq<char> {
    match e {
        ContentError::InvalidTemplate => "invalid template"@,
        ContentError::InvalidId => "invalid id"@,
        ContentError::MissingMetadata => "missing metadata or metadata id and version"@,
        ContentError::MissingChild => "you must supply either a child collection id or child metadata id"@,
        ContentError::AmbiguousChild => "you can only supply either a child collection id or child metadata id"@,
        ContentError::Locked => "locked"@,
        ContentError::MissingTemplate => "missing template"@,
        ContentError::MissingGuide => "missing guide"@,
    }
}

/// The message the server answers a refused content operation with.
pub fn content_error_message(e: ContentError) -> (m: String)
    ensures
        m@ == content_error_text(e),
{
    match e {
        ContentError::InvalidTemplate => String::from_str("invalid template"),
        ContentError::InvalidId => String::from_str("invalid id"),
        ContentError::MissingMetadata => String::from_str("missing metadata or metadata id and version"),
        ContentError::MissingChild => String::from_str("you must supply either a child collection id or child metadata id"),
        ContentError::AmbiguousChild => String::from_str("you can only supply either a child collection id or child metadata id"),
        ContentError::Locked => String::from_str("locked"),
        ContentError::MissingTemplate => String::from_str("missing template"),
        ContentError::MissingGuide => String::from_str("missing guide"),
    }
}

/// A template must have the content type the operation expects.
pub fn check_template(content_type: &String, expected: &str) -> (r: Result<(), ContentError>)
    ensures
        r is Ok <==> content_type@ == expected@,
        r is Err ==> r == Err::<(), ContentError>(ContentError::InvalidTemplate),
{
    if *content_type == String::from_str(expected) {
        Ok(())
    } else {
        Err(ContentError::InvalidTemplate)
    }
}

/// The title of a new item made from a template at position `index`: the
/// first is `base`, the others `base` followed by their number from 1.
pub open spec fn numbered_title(base: Seq<char>, index: int) -> Seq<char> {
    if index == 0 {
        base
    } else {
        base + " "@ + decimal(index + 1)
    }
}

fn numbered(base: &str, index: usize) -> (t: String)
    requires
        index < i64::MAX,
    ensures
        t@ == numbered_title(base@, index as int),
{
    let mut t = String::new();
    append_str(&mut t, base);
    if index > 0 {
        append_str(&mut t, " ");
        append_decimal(&mut t, index as i64 + 1);
    }
    proof {
        assert(t@ =~= numbered_title(base@, index as int));
    }
    t
}

/// The title of the guide step made from the template step at `index`.
pub fn guide_step_title(index: usize) -> (t: String)
    requires
        index < i64::MAX,
    ensures
        t@ == numbered_title("New Step"@, index as int),
{
    numbered("New Step", index)
}

/// The title of the guide module made from the template module at `index`.
pub fn guide_module_title(index: usize) -> (t: String)
    requires
        index < i64::MAX,
    ensures
        t@ == numbered_title("New Module"@, index as int),
{
    numbered("New Module", index)
}

/// The sort positions after a step is inserted at `at`: every step at or
/// after that position moves one further.
pub open spec fn shifted_sorts(sorts: Seq<i32>, at: i32) -> Seq<int> {
    Seq::new(sorts.len(), |i: int| if sorts[i] >= at { sorts[i] + 1 } else { sorts[i] as int })
}

/// Makes room for a step inserted at position `at`.
pub fn shift_sorts_for_insert(sorts: &[i32], at: i32) -> (r: Vec<i32>)
    requires
        forall|i: int| 0 <= i < sorts@.len() ==> sorts@[i] < i32::MAX,
    ensures
        r@.len() == sorts@.len(),
        forall|i: int| 0 <= i < r@.len() ==> r@[i] == shifted_sorts(sorts@, at)[i],
{
    let mut r: Vec<i32> = Vec::new();
    let mut i: usize = 0;
    while i < sorts.len()
        invariant
            i <= sorts@.len(),
            r@.len() == i,
            forall|k: int| 0 <= k < sorts@.len() ==> sorts@[k] < i32::MAX,
            forall|k: int| 0 <= k < i ==> r@[k] == shifted_sorts(sorts@, at)[k],
        decreases sorts@.len() - i,
    {
        let s = sorts[i];
        if s >= at {
            r.push(s + 1);
        } else {
            r.push(s);
        }
        i += 1;
    }
    r
}

/// After the shift the inserted step's position is free, and the steps keep
/// their order.
pub proof fn law_inserted_step_position_is_free(sorts: Seq<i32>, at: i32)
    ensures
        forall|i: int| 0 <= i < sorts.len() ==> shifted_sorts(sorts, at)[i] != at,
        forall|i: int, j: int| 0 <= i < sorts.len() && 0 <= j < sorts.len() && sorts[i] < sorts[j]
            ==> shifted_sorts(sorts, at)[i] < shifted_sorts(sorts, at)[j],
{
}

/// Where the steps of a guide are read: a page when both offset and limit
/// are given, all of them otherwise.
pub fn guide_steps_page(offset: Option<i64>, limit: Option<i64>) -> (r: Option<(i64, i64)>)
    ensures
        r == (match (offset, limit) {
            (Some(o), Some(l)) => Some((o, l)),
            _ => None,
        }),
{
    match (offset, limit) {
        (Some(o), Some(l)) => Some((o, l)),
        _ => None,
    }
}

/// What a guide step or module document is made from: new metadata, or an
/// existing id and version.
pub enum DocumentSource {
    /// New metadata is added.
    New,
    /// The existing document with this id and version is used.
    Existing(u128, i32),
}

/// Decides what a guide step or module refers to: new metadata when given;
/// else an existing id (which must parse) and version; refused otherwise.
pub fn document_source(has_metadata: bool, metadata_id: &Option<String>, metadata_version: Option<i32>) -> (r: Result<DocumentSource, ContentError>)
    ensures
        has_metadata ==> r matches Ok(DocumentSource::New),
        !has_metadata ==> match (metadata_id, metadata_version) {
            (Some(id), Some(v)) => match parsed_uuid(id@) {
                Some(u) => r matches Ok(DocumentSource::Existing(a, b)) && a == u && b == v,
                None => r matches Err(ContentError::InvalidId),
            },
            _ => r matches Err(ContentError::MissingMetadata),
        },
{
    if has_metadata {
        return Ok(DocumentSource::New);
    }
    match metadata_id {
        Some(id) => match metadata_version {
            Some(v) => match parse_uuid(id.as_str()) {
                Some(u) => Ok(DocumentSource::Existing(u, v)),
                None => Err(ContentError::InvalidId),
            },
            None => Err(ContentError::MissingMetadata),
        },
        None => Err(ContentError::MissingMetadata),
    }
}

/// The collection whose grants new metadata inherits: its parent's, or the
/// root collection's when it has no parent; none when nothing is inherited.
pub fn inherited_permissions_source(parent_collection_id: Option<u128>, inherit_permissions: bool) -> (r: Option<u128>)
    ensures
        r == (if inherit_permissions {
            match parent_collection_id {
                Some(p) => Some(p),
                None => Some(ROOT_COLLECTION_ID),
            }
        } else {
            None
        }),
{
    if !inherit_permissions {
        return None;
    }
    match parent_collection_id {
        Some(p) => Some(p),
        None => Some(ROOT_COLLECTION_ID),
    }
}

/// Parses the parent collection id of a new item: no parent means the root
/// collection.
pub fn parent_collection(parent_collection_id: &Option<String>) -> (r: Result<(u128, bool), ContentError>)
    ensures
        match parent_collection_id {
            None => r == Ok::<(u128, bool), ContentError>((ROOT_COLLECTION_ID, true)),
            Some(t) => match parsed_uuid(t@) {
                Some(u) => r == Ok::<(u128, bool), ContentError>((u, false)),
                None => r == Err::<(u128, bool), ContentError>(ContentError::InvalidId),
            },
        },
{
    match parent_collection_id {
        None => Ok((ROOT_COLLECTION_ID, true)),
        Some(t) => match parse_uuid(t.as_str()) {
            Some(u) => Ok((u, false)),
            None => Err(ContentError::InvalidId),
        },
    }
}

/// Whether every text of the list is an id.
pub open spec fn ids_parse(ids: Seq<String>) -> bool {
    forall|i: int| 0 <= i < ids.len() ==> (#[trigger] parsed_uuid(ids[i]@)) is Some
}

/// Whether `v` holds, in order, the ids that the texts of the list parse to.
pub open spec fn ids_parsed_as(ids: Seq<String>, v: Seq<u128>) -> bool {
    &&& v.len() == ids.len()
    &&& forall|i: int| 0 <= i < ids.len() ==> #[trigger] parsed_uuid(ids[i]@) == Some(v[i])
}

/// Parses a list of ids; the first that does not parse refuses the list.
pub fn parse_ids(ids: &Vec<String>) -> (r: Result<Vec<u128>, ContentError>)
    ensures
        match r {
            Ok(v) => ids_parsed_as(ids@, v@),
            Err(e) => e == ContentError::InvalidId && !ids_parse(ids@),
        },
{
    let mut v: Vec<u128> = Vec::new();
    let mut i: usize = 0;
    while i < ids.len()
        invariant
            i <= ids@.len(),
            v@.len() == i,
            forall|k: int| 0 <= k < i ==> parsed_uuid(ids@[k]@) == Some(v@[k]),
        decreases ids@.len() - i,
    {
        match parse_uuid(ids[i].as_str()) {
            Some(u) => v.push(u),
            None => {
                return Err(ContentError::InvalidId);
            },
        }
        i += 1;
    }
    Ok(v)
}

/// Which child of a collection an item-attribute update names.
pub enum CollectionChild {
    Collection(u128),
    Metadata(u128),
}

/// Exactly one child, a collection or metadata, must be named.
pub fn collection_child(child_collection_id: Option<u128>, child_metadata_id: Option<u128>) -> (r: Result<CollectionChild, ContentError>)
    ensures
        match (child_collection_id, child_metadata_id) {
            (None, None) => r matches Err(ContentError::MissingChild),
            (Some(_), Some(_)) => r matches Err(ContentError::AmbiguousChild),
            (Some(c), None) => r matches Ok(CollectionChild::Collection(x)) && x == c,
            (None, Some(m)) => r matches Ok(CollectionChild::Metadata(x)) && x == m,
        },
{
    match (child_collection_id, child_metadata_id) {
        (None, None) => Err(ContentError::MissingChild),
        (Some(_), Some(_)) => Err(ContentError::AmbiguousChild),
        (Some(c), None) => Ok(CollectionChild::Collection(c)),
        (None, Some(m)) => Ok(CollectionChild::Metadata(m)),
    }
}

/// The original file name recorded for an upload: `--` when none was sent.
pub fn uploaded_file_name(original_file_name: &Option<String>) -> (r: String)
    ensures
        r@ == (match original_file_name {
            Some(n) => n@,
            None => "--"@,
        }),
{
    match original_file_name {
        Some(n) => n.clone(),
        None => String::from_str("--"),
    }
}

/// What a profile mark refers to.
#[derive(Clone, Copy, PartialEq, Eq, Structural, Debug)]
pub enum MarkTarget {
    /// A version of metadata.
    Metadata(u128, i32),
    /// A collection (possibly none).
    Collection(Option<u128>),
}

/// A mark refers to a metadata version when both the id and the version are
/// given, and to the collection otherwise.
pub fn profile_mark_target(metadata_id: Option<u128>, metadata_version: Option<i32>, collection_id: Option<u128>) -> (r: MarkTarget)
    ensures
        r == (match (metadata_id, metadata_version) {
            (Some(m), Some(v)) => MarkTarget::Metadata(m, v),
            _ => MarkTarget::Collection(collection_id),
        }),
{
    match (metadata_id, metadata_version) {
        (Some(m), Some(v)) => MarkTarget::Metadata(m, v),
        _ => MarkTarget::Collection(collection_id),
    }
}

/// Whether a progress update records a step of a guide: only the guide's
/// own steps are recorded; other updates only merge attributes.
pub fn progress_records_step(steps: &Vec<i64>, step_id: i64) -> (r: bool)
    ensures
        r == steps@.contains(step_id),
{
    let mut i: usize = 0;
    while i < steps.len()
        invariant
            i <= steps@.len(),
            forall|k: int| 0 <= k < i ==> steps@[k] != step_id,
        decreases steps@.len() - i,
    {
        if steps[i] == step_id {
            proof {
                assert(steps@[i as int] == step_id);
            }
            return true;
        }
        i += 1;
    }
    false
}

/// A guide is complete once the number of completed steps (none recorded
/// counts as zero) equals its number of steps; its progress then moves to
/// the history.
pub fn guide_completed(completed: Option<i32>, step_count: usize) -> (r: bool)
    ensures
        r == ((match completed {
            Some(c) => c,
            None => 0i32,
        }) == step_count as i32),
{
    let done: i32 = match completed {
        Some(c) => c,
        None => 0,
    };
    done == step_count as i32
}

/// Adding items to a collection whose items are locked is refused, except
/// to service accounts.
pub fn check_items_unlocked(items_locked: bool, service_account: bool) -> (r: Result<(), ContentError>)
    ensures
        r == (if items_locked && !service_account {
            Err::<(), ContentError>(ContentError::Locked)
        } else {
            Ok::<(), ContentError>(())
        }),
{
    if items_locked && !service_account {
        Err(ContentError::Locked)
    } else {
        Ok(())
    }
}

/// The collections announced after a batch of collections was added, each
/// added one listed with its parent: for every pair in turn, the new
/// collection and then its parent, each unless announced before.
pub open spec fn notify_order(pairs: Seq<(u128, u128)>) -> Seq<u128>
    decreases pairs.len(),
{
    if pairs.len() == 0 {
        Seq::empty()
    } else {
        let prev = notify_order(pairs.drop_last());
        let (a, b) = pairs.last();
        let seen = pairs.drop_last();
        let with_a = if seen_in(seen, a) { prev } else { prev.push(a) };
        if seen_in(seen, b) { with_a } else { with_a.push(b) }
    }
}

/// Whether an id occurs in a list of pairs.
pub open spec fn seen_in(pairs: Seq<(u128, u128)>, id: u128) -> bool {
    exists|i: int| 0 <= i < pairs.len() && (pairs[i].0 == id || pairs[i].1 == id)
}

fn pairs_hold(pairs: &Vec<(u128, u128)>, upto: usize, id: u128) -> (r: bool)
    requires
        upto <= pairs@.len(),
    ensures
        r == seen_in(pairs@.take(upto as int), id),
{
    let mut i: usize = 0;
    while i < upto
        invariant
            upto <= pairs@.len(),
            i <= upto,
            forall|k: int| 0 <= k < i ==> pairs@[k].0 != id && pairs@[k].1 != id,
        decreases upto - i,
    {
        if pairs[i].0 == id || pairs[i].1 == id {
            proof {
                assert(pairs@.take(upto as int)[i as int] == pairs@[i as int]);
            }
            return true;
        }
        i += 1;
    }
    proof {
        if seen_in(pairs@.take(upto as int), id) {
            let k = choose|k: int| 0 <= k < upto && (pairs@.take(upto as int)[k].0 == id || pairs@.take(upto as int)[k].1 == id);
            assert(pairs@.take(upto as int)[k] == pairs@[k]);
        }
    }
    false
}

/// The collections to announce after a batch of collections was added.
pub fn collections_to_notify(pairs: &Vec<(u128, u128)>) -> (r: Vec<u128>)
    ensures
        r@ == notify_order(pairs@),
{
    let mut r: Vec<u128> = Vec::new();
    let mut i: usize = 0;
    while i < pairs.len()
        invariant
            i <= pairs@.len(),
            r@ == notify_order(pairs@.take(i as int)),
        decreases pairs@.len() - i,
    {
        let (a, b) = pairs[i];
        let seen_a = pairs_hold(pairs, i, a);
        let seen_b = pairs_hold(pairs, i, b);
        proof {
            assert(pairs@.take(i + 1).drop_last() =~= pairs@.take(i as int));
        }
        if !seen_a {
            r.push(a);
        }
        if !seen_b {
            r.push(b);
        }
        i += 1;
    }
    proof {
        assert(pairs@.take(i as int) =~= pairs@);
    }
    r
}

proof fn lemma_notify_order(pairs: Seq<(u128, u128)>)
    requires
        forall|i: int| 0 <= i < pairs.len() ==> (#[trigger] pairs[i]).0 != pairs[i].1,
    ensures
        notify_order(pairs).no_duplicates(),
        forall|id: u128| #[trigger] notify_order(pairs).contains(id) <==> seen_in(pairs, id),
    decreases pairs.len(),
{
    if pairs.len() > 0 {
        let seen = pairs.drop_last();
        lemma_notify_order(seen);
        let prev = notify_order(seen);
        let (a, b) = pairs.last();
        assert forall|id: u128| #[trigger] seen_in(seen, id) implies seen_in(pairs, id) by {
            let i = choose|i: int| 0 <= i < seen.len() && (seen[i].0 == id || seen[i].1 == id);
            assert(pairs[i] == seen[i]);
        }
        assert forall|id: u128| seen_in(pairs, id) implies #[trigger] seen_in(seen, id) || id == a || id == b by {
            let i = choose|i: int| 0 <= i < pairs.len() && (pairs[i].0 == id || pairs[i].1 == id);
            if i < seen.len() {
                assert(seen[i] == pairs[i]);
            }
        }
        assert(pairs[pairs.len() - 1] == (a, b));
        assert(seen_in(pairs, a));
        assert(seen_in(pairs, b));
        let with_a = if seen_in(seen, a) { prev } else { prev.push(a) };
        assert(with_a.no_duplicates()) by {
            if !seen_in(seen, a) {
                assert(!prev.contains(a));
                assert forall|x: int, y: int| 0 <= x < with_a.len() && 0 <= y < with_a.len() && x != y implies with_a[x] != with_a[y] by {
                    if x < prev.len() && y < prev.len() {
                    } else if x == prev.len() {
                        assert(with_a[y] == prev[y]);
                    } else {
                        assert(with_a[x] == prev[x]);
                    }
                }
            }
        }
        assert forall|id: u128| #[trigger] with_a.contains(id) <==> (prev.contains(id) || (id == a && !seen_in(seen, a))) by {
            if !seen_in(seen, a) {
                if with_a.contains(id) {
                    let k = choose|k: int| 0 <= k < with_a.len() && with_a[k] == id;
                    if k < prev.len() {
                        assert(prev[k] == id);
                    }
                }
                if prev.contains(id) {
                    let k = choose|k: int| 0 <= k < prev.len() && prev[k] == id;
                    assert(with_a[k] == id);
                }
                if id == a {
                    assert(with_a[prev.len() as int] == a);
                }
            }
        }
        let result = notify_order(pairs);
        if !seen_in(seen, b) {
            assert(!with_a.contains(b));
            assert forall|x: int, y: int| 0 <= x < result.len() && 0 <= y < result.len() && x != y implies result[x] != result[y] by {
                if x < with_a.len() && y < with_a.len() {
                    assert(result[x] == with_a[x]);
                    assert(result[y] == with_a[y]);
                } else if x == with_a.len() {
                    assert(result[y] == with_a[y]);
                } else {
                    assert(result[x] == with_a[x]);
                }
            }
            assert forall|id: u128| #[trigger] result.contains(id) <==> (with_a.contains(id) || id == b) by {
                if result.contains(id) {
                    let k = choose|k: int| 0 <= k < result.len() && result[k] == id;
                    if k < with_a.len() {
                        assert(with_a[k] == id);
                    }
                }
                if with_a.contains(id) {
                    let k = choose|k: int| 0 <= k < with_a.len() && with_a[k] == id;
                    assert(result[k] == id);
                }
                if id == b {
                    assert(result[with_a.len() as int] == b);
                }
            }
        }
    }
}

/// After a batch of collections was added (no collection being its own
/// parent), every collection of the batch and every parent is announced,
/// and none twice.
pub proof fn law_added_collections_announced_once(pairs: Seq<(u128, u128)>)
    requires
        forall|i: int| 0 <= i < pairs.len() ==> (#[trigger] pairs[i]).0 != pairs[i].1,
    ensures
        notify_order(pairs).no_duplicates(),
        forall|i: int| 0 <= i < pairs.len() ==> notify_order(pairs).contains((#[trigger] pairs[i]).0)
            && notify_order(pairs).contains(pairs[i].1),
        forall|id: u128| #[trigger] notify_order(pairs).contains(id) ==> seen_in(pairs, id),
{
    lemma_notify_order(pairs);
    assert forall|i: int| 0 <= i < pairs.len() implies notify_order(pairs).contains((#[trigger] pairs[i]).0)
        && notify_order(pairs).contains(pairs[i].1) by {
        assert(seen_in(pairs, pairs[i].0));
        assert(seen_in(pairs, pairs[i].1));
    }
}

/// The system attributes recorded for an upload: the original file name,
/// `--` when none was sent, as a JSON string.
pub fn uploaded_system_attributes(original_file_name: &Option<String>) -> (r: ConfigValue)
    ensures
        config_view(r) == ConfigView::Object(map![
            "original_file_name"@ => json_string_text(match original_file_name {
                Some(n) => n@,
                None => "--"@,
            }),
        ]),
{
    let name = uploaded_file_name(original_file_name);
    let value = json_string(name.as_str());
    let mut entries: Vec<(String, String)> = Vec::new();
    entries.push((String::from_str("original_file_name"), value));
    proof {
        assert(entries@.drop_last() =~= Seq::<(String, String)>::empty());
        assert(entries_map(entries@.drop_last()) == Map::<Seq<char>, Seq<char>>::empty());
        assert(entries_map(entries@) =~= map![
            "original_file_name"@ => json_string_text(match original_file_name {
                Some(n) => n@,
                None => "--"@,
            }),
        ]);
    }
    ConfigValue::Object(entries)
}

} // verus!
