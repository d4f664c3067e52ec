use vstd::prelude::*;
use crate::content::{check_items_unlocked, parent_collection, ContentError, ROOT_COLLECTION_ID};
use crate::ids::{parsed_uuid, uuid_text, uuid_to_string};
use crate::models::Permission;

verus! {

/// How one collection of a batch is added under its parent.
#[derive(Clone, Copy, PartialEq, Eq, Structural, Debug)]
pub struct BatchEntry {
    /// The parent collection: the given one, or the root collection.
    pub parent_id: u128,
    /// Whether the new collection is linked as a child of the parent (only
    /// when a parent was given).
    pub link_to_parent: bool,
    /// Whether the right to edit the parent is checked first.
    pub check_parent: bool,
}

/// Decides how a collection of a batch is added: under the given parent
/// (which must parse) or the root collection, linked only to a given parent,
/// with the parent's edit right checked unless the batch is nested.
pub fn batch_entry(parent_collection_id: &Option<String>, ignore_permission_check: bool) -> (r: Result<BatchEntry, ContentError>)
    ensures
        match parent_collection_id {
            None => r == Ok::<BatchEntry, ContentError>(
                BatchEntry { parent_id: ROOT_COLLECTION_ID, link_to_parent: false, check_parent: !ignore_permission_check },
            ),
            Some(t) => match parsed_uuid(t@) {
                Some(p) => r == Ok::<BatchEntry, ContentError>(
                    BatchEntry { parent_id: p, link_to_parent: true, check_parent: !ignore_permission_check },
                ),
                None => r == Err::<BatchEntry, ContentError>(ContentError::InvalidId),
            },
        },
{
    match parent_collection(parent_collection_id) {
        Ok((p, root)) => Ok(BatchEntry { parent_id: p, link_to_parent: !root, check_parent: !ignore_permission_check }),
        Err(e) => Err(e),
    }
}

/// After the parent's edit right was checked: a parent whose items are
/// locked takes new collections from service accounts only.
pub fn batch_parent_admits(entry: &BatchEntry, items_locked: bool, service_account: bool) -> (r: Result<(), ContentError>)
    ensures
        r == (if entry.check_parent && items_locked && !service_account {
            Err::<(), ContentError>(ContentError::Locked)
        } else {
            Ok::<(), ContentError>(())
        }),
{
    if entry.check_parent {
        check_items_unlocked(items_locked, service_account)
    } else {
        Ok(())
    }
}

/// The grants a new collection of a batch receives: those handed down by
/// the enclosing collection of the batch, or else those of its parent.
pub fn batch_permissions(given: Option<Vec<Permission>>, parent_permissions: Vec<Permission>) -> (r: Vec<Permission>)
    ensures
        r@ == (match given {
            Some(g) => g@,
            None => parent_permissions@,
        }),
{
    match given {
        Some(g) => g,
        None => parent_permissions,
    }
}

fn copy_permissions(p: &Vec<Permission>) -> (r: Vec<Permission>)
    ensures
        r@ == p@,
{
    let mut r: Vec<Permission> = Vec::new();
    let mut i: usize = 0;
    while i < p.len()
        invariant
            i <= p@.len(),
            r@ == p@.take(i as int),
        decreases p@.len() - i,
    {
        r.push(p[i]);
        proof {
            assert(r@ =~= p@.take(i + 1));
        }
        i += 1;
    }
    proof {
        assert(p@.take(i as int) =~= p@);
    }
    r
}

/// What the collections and metadata nested in a new collection are added
/// with.
#[derive(Debug)]
pub struct NestedBatch {
    /// Their parent: the new collection, by the text of its id.
    pub parent_collection_id: String,
    /// Nested collections skip the parent check.
    pub ignore_permission_check: bool,
    /// Nested collections, and nested metadata, get the same grants.
    pub permissions: Vec<Permission>,
}

/// The batch nested in a new collection: placed under it, unchecked, and
/// granted exactly what it was granted.
pub fn nested_batch(new_id: u128, permissions: &Vec<Permission>) -> (r: NestedBatch)
    ensures
        r.parent_collection_id@ == uuid_text(new_id),
        r.ignore_permission_check,
        r.permissions@ == permissions@,
{
    NestedBatch {
        parent_collection_id: uuid_to_string(new_id),
        ignore_permission_check: true,
        permissions: copy_permissions(permissions),
    }
}

/// A collection of a batch, with what adding it gave: the parent named in
/// its input, the id the new collection received, the grants its parent had
/// (read where the batch hands down none), the metadata added in it (id,
/// version, active version) and the collections nested in it.
#[derive(Debug)]
pub struct BatchItem {
    pub parent_collection_id: Option<String>,
    pub id: u128,
    pub parent_permissions: Vec<Permission>,
    pub metadata: Vec<(u128, i32, i32)>,
    pub collections: Vec<BatchItem>,
}

/// A collection added by a batch: its id, its parent, the grants it
/// received and the metadata added in it.
#[derive(Debug)]
pub struct AddedCollection {
    pub id: u128,
    pub parent_id: u128,
    pub permissions: Vec<Permission>,
    pub metadata: Vec<(u128, i32, i32)>,
}

impl AddedCollection {
    pub open spec fn row(self) -> (u128, u128, Seq<Permission>, Seq<(u128, i32, i32)>) {
        (self.id, self.parent_id, self.permissions@, self.metadata@)
    }
}

/// The rows of a list of added collections.
pub open spec fn rows_of(v: Seq<AddedCollection>) -> Seq<(u128, u128, Seq<Permission>, Seq<(u128, i32, i32)>)> {
    v.map_values(|a: AddedCollection| a.row())
}

/// The parent a collection of a batch is added under: the enclosing
/// collection for a nested one; else the parent named in its input, which
/// must parse, or the root collection.
pub open spec fn item_parent(item: BatchItem, enclosing: Option<u128>) -> Option<u128> {
    match enclosing {
        Some(p) => Some(p),
        None => match item.parent_collection_id {
            None => Some(ROOT_COLLECTION_ID),
            Some(t) => parsed_uuid(t@),
        },
    }
}

/// The grants a collection of a batch receives: those handed down, or else
/// those of its parent.
pub open spec fn item_grants(item: BatchItem, given: Option<Seq<Permission>>) -> Seq<Permission> {
    match given {
        Some(g) => g,
        None => item.parent_permissions@,
    }
}

/// What adding one collection of a batch gives: the rows of the
/// collections nested in it (placed under it and granted what it was
/// granted), then its own row; nothing where a parent does not parse.
pub open spec fn item_outcome(item: BatchItem, enclosing: Option<u128>, given: Option<Seq<Permission>>) -> Option<
    Seq<(u128, u128, Seq<Permission>, Seq<(u128, i32, i32)>)>,
>
    decreases item,
{
    match item_parent(item, enclosing) {
        None => None,
        Some(p) => {
            let g = item_grants(item, given);
            match items_outcome(item.collections@, Some(item.id), Some(g)) {
                None => None,
                Some(nested) => Some(nested.push((item.id, p, g, item.metadata@))),
            }
        },
    }
}

/// What adding a list of collections of a batch gives: their outcomes one
/// after the other; nothing where one of them fails.
pub open spec fn items_outcome(items: Seq<BatchItem>, enclosing: Option<u128>, given: Option<Seq<Permission>>) -> Option<
    Seq<(u128, u128, Seq<Permission>, Seq<(u128, i32, i32)>)>,
>
    decreases items,
{
    if items.len() == 0 {
        Some(Seq::empty())
    } else {
        match items_outcome(items.drop_last(), enclosing, given) {
            None => None,
            Some(before) => match item_outcome(items.last(), enclosing, given) {
                None => None,
                Some(own) => Some(before + own),
            },
        }
    }
}

/// The grants handed down to a call, as a sequence.
pub open spec fn given_view(given: Option<&Vec<Permission>>) -> Option<Seq<Permission>> {
    match given {
        Some(g) => Some(g@),
        None => None,
    }
}

fn copy_metadata_rows(m: &Vec<(u128, i32, i32)>) -> (r: Vec<(u128, i32, i32)>)
    ensures
        r@ == m@,
{
    let mut r: Vec<(u128, i32, i32)> = Vec::new();
    let mut i: usize = 0;
    while i < m.len()
        invariant
            i <= m@.len(),
            r@ == m@.take(i as int),
        decreases m@.len() - i,
    {
        r.push(m[i]);
        proof {
            assert(r@ =~= m@.take(i + 1));
        }
        i += 1;
    }
    proof {
        assert(m@.take(i as int) =~= m@);
    }
    r
}

proof fn lemma_rows_concat(a: Seq<AddedCollection>, b: Seq<AddedCollection>)
    ensures
        rows_of(a + b) == rows_of(a) + rows_of(b),
        rows_of(a).len() == a.len(),
{
    assert(rows_of(a + b) =~= rows_of(a) + rows_of(b));
}

proof fn lemma_prefix_fails(s: Seq<BatchItem>, k: int, enclosing: Option<u128>, given: Option<Seq<Permission>>)
    requires
        0 <= k <= s.len(),
        items_outcome(s.take(k), enclosing, given) is None,
    ensures
        items_outcome(s, enclosing, given) is None,
    decreases s.len() - k,
{
    if k == s.len() {
        assert(s.take(k) =~= s);
    } else {
        assert(s.take(k + 1).drop_last() =~= s.take(k));
        lemma_prefix_fails(s, k + 1, enclosing, given);
    }
}

fn item_rows(item: &BatchItem, enclosing: Option<u128>, given: Option<&Vec<Permission>>) -> (r: Result<
    Vec<AddedCollection>,
    ContentError,
>)
    ensures
        match item_outcome(*item, enclosing, given_view(given)) {
            Some(s) => r matches Ok(v) && rows_of(v@) == s,
            None => r == Err::<Vec<AddedCollection>, ContentError>(ContentError::InvalidId),
        },
    decreases *item,
{
    let p: u128 = match enclosing {
        Some(p) => p,
        None => match batch_entry(&item.parent_collection_id, false) {
            Ok(e) => e.parent_id,
            Err(e) => {
                return Err(e);
            },
        },
    };
    let g: Vec<Permission> = match given {
        Some(g) => copy_permissions(g),
        None => copy_permissions(&item.parent_permissions),
    };
    let nested = items_rows(&item.collections, Some(item.id), Some(&g));
    match nested {
        Ok(v) => {
            let mut v = v;
            let own = AddedCollection {
                id: item.id,
                parent_id: p,
                permissions: g,
                metadata: copy_metadata_rows(&item.metadata),
            };
            let ghost before = v@;
            v.push(own);
            proof {
                assert(rows_of(v@) =~= rows_of(before).push(own.row()));
            }
            Ok(v)
        },
        Err(e) => Err(e),
    }
}

fn items_rows(items: &Vec<BatchItem>, enclosing: Option<u128>, given: Option<&Vec<Permission>>) -> (r: Result<
    Vec<AddedCollection>,
    ContentError,
>)
    ensures
        match items_outcome(items@, enclosing, given_view(given)) {
            Some(s) => r matches Ok(v) && rows_of(v@) == s,
            None => r == Err::<Vec<AddedCollection>, ContentError>(ContentError::InvalidId),
        },
    decreases items@,
{
    let mut out: Vec<AddedCollection> = Vec::new();
    let mut i: usize = 0;
    proof {
        assert(items@.take(0) =~= Seq::<BatchItem>::empty());
        assert(rows_of(out@) =~= Seq::empty());
    }
    while i < items.len()
        invariant
            i <= items@.len(),
            items_outcome(items@.take(i as int), enclosing, given_view(given)) == Some(rows_of(out@)),
        decreases items@.len() - i,
    {
        proof {
            assert(items@.take(i + 1).drop_last() =~= items@.take(i as int));
            assert(items@.take(i + 1).last() == items@[i as int]);
        }
        match item_rows(&items[i], enclosing, given) {
            Ok(v) => {
                let ghost before = out@;
                let mut v = v;
                out.append(&mut v);
                proof {
                    lemma_rows_concat(before, v@);
                }
            },
            Err(e) => {
                proof {
                    lemma_prefix_fails(items@, i + 1, enclosing, given_view(given));
                }
                return Err(e);
            },
        }
        i += 1;
    }
    proof {
        assert(items@.take(i as int) =~= items@);
    }
    Ok(out)
}

/// Adds up a batch, given what adding each of its collections gave: for
/// each collection, in order, the collections nested in it (at any depth)
/// and then the collection itself, each with its parent and its grants.
/// A batch where a parent named in the input does not parse is refused.
pub fn batch_outcome(items: &Vec<BatchItem>) -> (r: Result<Vec<AddedCollection>, ContentError>)
    ensures
        match items_outcome(items@, None, None) {
            Some(s) => r matches Ok(v) && rows_of(v@) == s,
            None => r == Err::<Vec<AddedCollection>, ContentError>(ContentError::InvalidId),
        },
{
    items_rows(items, None, None)
}

proof fn lemma_item_under(item: BatchItem, p: u128, g: Seq<Permission>)
    ensures
        item_outcome(item, Some(p), Some(g)) matches Some(s) && s.len() > 0 && s.last() == (
            item.id,
            p,
            g,
            item.metadata@,
        ) && (forall|i: int| 0 <= i < s.len() ==> (#[trigger] s[i]).2 == g),
    decreases item,
{
    lemma_items_under(item.collections@, item.id, g);
}

proof fn lemma_items_under(items: Seq<BatchItem>, p: u128, g: Seq<Permission>)
    ensures
        items_outcome(items, Some(p), Some(g)) matches Some(s) && (forall|i: int|
            0 <= i < s.len() ==> (#[trigger] s[i]).2 == g),
    decreases items,
{
    if items.len() > 0 {
        lemma_items_under(items.drop_last(), p, g);
        lemma_item_under(items.last(), p, g);
    }
}

/// Whatever is nested in a collection of a batch, at any depth, is added
/// (no parent can fail to parse there) and receives exactly the grants that
/// were handed down.
pub proof fn law_nested_levels_share_grants(items: Seq<BatchItem>, p: u128, g: Seq<Permission>)
    ensures
        items_outcome(items, Some(p), Some(g)) is Some,
        forall|i: int|
            0 <= i < items_outcome(items, Some(p), Some(g))->0.len() ==> (#[trigger] items_outcome(
                items,
                Some(p),
                Some(g),
            )->0[i]).2 == g,
{
    lemma_items_under(items, p, g);
}

/// A collection nested in a batch is added under the collection that
/// encloses it: its own row, the last of its outcome, names that parent.
pub proof fn law_nested_under_enclosing(item: BatchItem, p: u128, g: Seq<Permission>)
    ensures
        item_outcome(item, Some(p), Some(g)) is Some,
        item_outcome(item, Some(p), Some(g))->0.last() == (item.id, p, g, item.metadata@),
{
    lemma_item_under(item, p, g);
}

/// In what adding a collection gives, the rows of everything nested in it
/// come first and its own row is last.
pub proof fn law_nested_rows_come_first(item: BatchItem, enclosing: Option<u128>, given: Option<Seq<Permission>>)
    requires
        item_outcome(item, enclosing, given) is Some,
    ensures
        item_outcome(item, enclosing, given)->0.len() > 0,
        item_outcome(item, enclosing, given)->0.last().0 == item.id,
        items_outcome(item.collections@, Some(item.id), Some(item_grants(item, given))) == Some(
            item_outcome(item, enclosing, given)->0.drop_last(),
        ),
{
    let s = item_outcome(item, enclosing, given)->0;
    let nested = items_outcome(item.collections@, Some(item.id), Some(item_grants(item, given)))->0;
    lemma_items_under(item.collections@, item.id, item_grants(item, given));
    assert(nested.push(s.last()).drop_last() =~= nested);
}

} // verus!
