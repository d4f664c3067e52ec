use vstd::prelude::*;
use crate::text::{append_decimal, append_str, decimal, texts};

verus! {

/// How an attribute that a query orders by is typed in the database.
#[derive(Clone, Copy, PartialEq, Eq, Structural, Debug)]
pub enum AttributeType {
    String,
    Int,
    Float,
    Date,
    DateTime,
    Profile,
    Metadata,
    Collection,
}

/// Whether an ordering attribute lives on the item itself or on the
/// relationship (the collection item) that links it to its parent.
#[derive(Clone, Copy, PartialEq, Eq, Structural, Debug)]
pub enum AttributeLocation {
    Item,
    Relationship,
}

/// Sort direction.
#[derive(Clone, Copy, PartialEq, Eq, Structural, Debug)]
pub enum Order {
    Ascending,
    Descending,
}

/// One ordering criterion of a query: either a column of the table (`field`)
/// or a path into a JSON attribute column (`path`).
#[derive(Clone, Debug)]
pub struct ContentOrdering {
    pub field: Option<String>,
    pub path: Option<Vec<String>>,
    pub order: Order,
    pub attribute_type: Option<AttributeType>,
    pub attribute_location: Option<AttributeLocation>,
}

/// A parameter of a generated statement, named by where its value comes from.
/// The statement's `$k` placeholder binds the `k`-th parameter of the list.
#[derive(Clone, Copy, PartialEq, Eq, Structural, Debug)]
pub enum SqlParam {
    /// The category id at this position of the category id list.
    CategoryId(usize),
    /// The collection type filter of the find query.
    CollectionType,
    /// The key of attribute `.1` of attribute group `.0`.
    AttributeKey(usize, usize),
    /// The value of attribute `.1` of attribute group `.0`.
    AttributeValue(usize, usize),
    /// The content type at this position of the content type filter.
    ContentType(usize),
    /// The name at this position of the ordering names list.
    OrderingName(usize),
    /// The offset of the find query.
    Offset,
    /// The limit of the find query.
    Limit,
}

/// The names that one ordering criterion contributes: the elements of its path.
pub open spec fn path_names(o: ContentOrdering) -> Seq<Seq<char>> {
    match o.path {
        Some(p) => texts(p@),
        None => Seq::empty(),
    }
}

/// The number of path elements of one ordering criterion.
pub open spec fn path_len(o: ContentOrdering) -> nat {
    match o.path {
        Some(p) => p@.len(),
        None => 0,
    }
}

/// All path elements of an ordering, criterion after criterion.
pub open spec fn ordering_names(s: Seq<ContentOrdering>) -> Seq<Seq<char>>
    decreases s.len(),
{
    if s.len() == 0 {
        Seq::empty()
    } else {
        ordering_names(s.drop_last()) + path_names(s.last())
    }
}

proof fn lemma_ordering_names_len(s: Seq<ContentOrdering>)
    ensures
        ordering_names(s).len() == ordering_total(s),
    decreases s.len(),
{
    if s.len() > 0 {
        lemma_ordering_names_len(s.drop_last());
    }
}

/// The total number of path elements of an ordering.
pub open spec fn ordering_total(s: Seq<ContentOrdering>) -> nat
    decreases s.len(),
{
    if s.len() == 0 {
        0
    } else {
        ordering_total(s.drop_last()) + path_len(s.last())
    }
}

proof fn lemma_ordering_total_prefix(s: Seq<ContentOrdering>, i: int, j: int)
    requires
        0 <= i <= j <= s.len(),
    ensures
        ordering_total(s.take(i)) <= ordering_total(s.take(j)),
    decreases j - i,
{
    if i < j {
        lemma_ordering_total_prefix(s, i, j - 1);
        assert(s.take(j).drop_last() =~= s.take(j - 1));
    }
}

/// Appends the path elements of every ordering criterion to `names`, in order.
pub fn build_ordering_names(ordering: &[ContentOrdering], names: &mut Vec<String>)
    ensures
        texts(final(names)@) == texts(old(names)@) + ordering_names(ordering@),
{
    let ghost start = texts(names@);
    let mut i: usize = 0;
    while i < ordering.len()
        invariant
            i <= ordering@.len(),
            texts(names@) == start + ordering_names(ordering@.take(i as int)),
        decreases ordering@.len() - i,
    {
        let attr = &ordering[i];
        let ghost before = names@;
        if let Some(path) = &attr.path {
            let mut j: usize = 0;
            while j < path.len()
                invariant
                    j <= path@.len(),
                    texts(names@) == texts(before) + texts(path@.take(j as int)),
                decreases path@.len() - j,
            {
                let ghost prev = names@;
                let c = path[j].clone();
                names.push(c);
                proof {
                    assert(texts(names@) =~= texts(prev).push(c@));
                    assert(path@.take(j + 1) =~= path@.take(j as int).push(path@[j as int]));
                    assert(texts(path@.take(j + 1)) =~= texts(path@.take(j as int)).push(path@[j as int]@));
                    assert(texts(names@) =~= texts(before) + texts(path@.take(j + 1)));
                }
                j += 1;
            }
            proof {
                assert(path@.take(j as int) =~= path@);
            }
        }
        proof {
            assert(ordering@.take(i + 1).drop_last() =~= ordering@.take(i as int));
            assert(ordering@.take(i + 1).last() == ordering@[i as int]);
            assert(texts(names@) == texts(before) + path_names(ordering@[i as int]));
            assert(texts(names@) =~= start + ordering_names(ordering@.take(i + 1)));
        }
        i += 1;
    }
    proof {
        assert(ordering@.take(i as int) =~= ordering@);
    }
}

/// The SQL cast target for an attribute type.
pub open spec fn attribute_type_sql(t: AttributeType) -> Seq<char> {
    match t {
        AttributeType::String => "varchar"@,
        AttributeType::Int => "bigint"@,
        AttributeType::Float => "double precision"@,
        AttributeType::Date => "int"@,
        AttributeType::DateTime => "bigint"@,
        AttributeType::Profile => "uuid"@,
        AttributeType::Metadata => "uuid"@,
        AttributeType::Collection => "uuid"@,
    }
}

/// The attribute type of a criterion; a string when it names none.
pub open spec fn effective_attribute_type(o: ContentOrdering) -> AttributeType {
    match o.attribute_type {
        Some(t) => t,
        None => AttributeType::String,
    }
}

/// The JSON column that an attribute path reads: the relationship column
/// unless the criterion places the attribute on the item.
pub open spec fn location_column(o: ContentOrdering, item_col: Seq<char>, rel_col: Seq<char>) -> Seq<char> {
    match o.attribute_location {
        Some(AttributeLocation::Item) => item_col,
        _ => rel_col,
    }
}

/// `->>$index ->>$(index+1) ...`, one step per path element.
pub open spec fn arrows_sql(index: int, k: nat) -> Seq<char>
    decreases k,
{
    if k == 0 {
        Seq::empty()
    } else {
        arrows_sql(index, (k - 1) as nat) + "->>$"@ + decimal(index + k - 1)
    }
}

/// The parameters bound by `k` path steps whose names start at position `n`.
pub open spec fn name_params(n: int, k: nat) -> Seq<SqlParam> {
    Seq::new(k, |j: int| SqlParam::OrderingName((n + j) as usize))
}

/// The sort direction keyword.
pub open spec fn order_sql(o: Order) -> Seq<char> {
    if o == Order::Ascending {
        "asc"@
    } else {
        "desc"@
    }
}

/// A criterion contributes nothing when it names neither a path nor a field.
pub open spec fn ordering_skipped(o: ContentOrdering) -> bool {
    o.path is None && o.field is None
}

/// The expression a criterion sorts by, its placeholders starting at `index`.
pub open spec fn ordering_expr_sql(
    o: ContentOrdering,
    alias: Seq<char>,
    item_col: Seq<char>,
    rel_col: Seq<char>,
    index: int,
) -> Seq<char> {
    match o.path {
        Some(p) => "("@ + location_column(o, item_col, rel_col) + arrows_sql(index, p@.len())
            + ")::"@ + attribute_type_sql(effective_attribute_type(o)),
        None => alias + "."@ + o.field.unwrap()@,
    }
}

/// The state reached after an `order by` clause has taken in `items`: its
/// text, the next placeholder index, the number of names used, the
/// parameters bound, and whether any criterion was written.
pub open spec fn ordering_acc(
    items: Seq<ContentOrdering>,
    alias: Seq<char>,
    item_col: Seq<char>,
    rel_col: Seq<char>,
    start: int,
) -> (Seq<char>, int, int, Seq<SqlParam>, bool)
    decreases items.len(),
{
    if items.len() == 0 {
        ("order by "@, start, 0, Seq::empty(), false)
    } else {
        let prev = ordering_acc(items.drop_last(), alias, item_col, rel_col, start);
        let i = items.len() - 1;
        let o = items.last();
        if ordering_skipped(o) {
            prev
        } else {
            let k = path_len(o);
            (
                prev.0 + (if i > 0 { ", "@ } else { Seq::empty() }) + ordering_expr_sql(
                    o,
                    alias,
                    item_col,
                    rel_col,
                    prev.1,
                ) + " "@ + order_sql(o.order),
                prev.1 + k,
                prev.2 + k,
                prev.3 + name_params(prev.2, k),
                true,
            )
        }
    }
}

proof fn lemma_ordering_acc_counts(
    items: Seq<ContentOrdering>,
    alias: Seq<char>,
    item_col: Seq<char>,
    rel_col: Seq<char>,
    start: int,
)
    ensures
        ordering_acc(items, alias, item_col, rel_col, start).2 == ordering_total(items),
        ordering_acc(items, alias, item_col, rel_col, start).1 == start + ordering_total(items),
        ordering_acc(items, alias, item_col, rel_col, start).3.len() == ordering_total(items),
        !ordering_acc(items, alias, item_col, rel_col, start).4 ==> ordering_acc(
            items,
            alias,
            item_col,
            rel_col,
            start,
        ).0 == "order by "@,
    decreases items.len(),
{
    if items.len() > 0 {
        lemma_ordering_acc_counts(items.drop_last(), alias, item_col, rel_col, start);
        if ordering_skipped(items.last()) {
            assert(path_len(items.last()) == 0);
        }
    }
}

/// Builds the `order by` clause for `ordering`. Column criteria are written as
/// `alias.field`; path criteria read the item or relationship JSON column
/// with one `->>$k` step per path element, cast to the criterion's type, and
/// bind the next name of `names` for each step, numbering placeholders from
/// `start_index`. The bound names are appended to `values`. The clause is
/// empty when no criterion names a path or a field; the returned index is the
/// next free placeholder number.
#[verifier::spinoff_prover]
pub fn build_ordering(
    table_alias: &str,
    item_attributes_column: &str,
    relationship_attributes_column: &str,
    start_index: i32,
    ordering: &[ContentOrdering],
    values: &mut Vec<SqlParam>,
    names: &[String],
) -> (res: (String, i32))
    requires
        ordering_total(ordering@) <= names@.len(),
        start_index + ordering_total(ordering@) <= i32::MAX,
    ensures
        ({
            let acc = ordering_acc(
                ordering@,
                table_alias@,
                item_attributes_column@,
                relationship_attributes_column@,
                start_index as int,
            );
            &&& res.0@ == (if acc.4 { acc.0 } else { Seq::empty() })
            &&& res.1 == acc.1
            &&& final(values)@ == old(values)@ + acc.3
        }),
{
    let ghost alias = table_alias@;
    let ghost item_col = item_attributes_column@;
    let ghost rel_col = relationship_attributes_column@;
    let ghost start = start_index as int;
    let ghost initial = values@;
    let names_len = names.len();
    let mut index: i32 = start_index;
    let mut buf = String::new();
    append_str(&mut buf, "order by ");
    let mut n: usize = 0;
    let mut emitted = false;
    let mut i: usize = 0;
    proof {
        assert(buf@ =~= "order by "@);
    }
    while i < ordering.len()
        invariant
            i <= ordering@.len(),
            ordering_total(ordering@) <= names@.len(),
            names_len == names@.len(),
            start + ordering_total(ordering@) <= i32::MAX,
            alias == table_alias@,
            item_col == item_attributes_column@,
            rel_col == relationship_attributes_column@,
            start == start_index as int,
            ({
                let acc = ordering_acc(ordering@.take(i as int), alias, item_col, rel_col, start);
                &&& buf@ == acc.0
                &&& index == acc.1
                &&& n == acc.2
                &&& values@ == initial + acc.3
                &&& emitted == acc.4
            }),
        decreases ordering@.len() - i,
    {
        let attr = &ordering[i];
        proof {
            lemma_ordering_acc_counts(ordering@.take(i as int), alias, item_col, rel_col, start);
            lemma_ordering_total_prefix(ordering@, i + 1, ordering@.len() as int);
            assert(ordering@.take(i + 1).drop_last() =~= ordering@.take(i as int));
            assert(ordering@.take(i + 1).last() == ordering@[i as int]);
            assert(ordering@.take(ordering@.len() as int) =~= ordering@);
        }
        if attr.path.is_none() && attr.field.is_none() {
            i += 1;
            continue;
        }
        let ghost buf0 = buf@;
        let ghost index0 = index as int;
        let ghost n0 = n as int;
        let ghost values0 = values@;
        if i > 0 {
            append_str(&mut buf, ", ");
        }
        let ghost buf1 = buf@;
        if let Some(path) = &attr.path {
            append_str(&mut buf, "(");
            let use_item = match attr.attribute_location {
                Some(AttributeLocation::Item) => true,
                _ => false,
            };
            if use_item {
                append_str(&mut buf, item_attributes_column);
            } else {
                append_str(&mut buf, relationship_attributes_column);
            }
            let ghost buf2 = buf@;
            let mut j: usize = 0;
            while j < path.len()
                invariant
                    j <= path@.len(),
                    n0 + path@.len() <= names_len,
                    names_len == names@.len(),
                    index0 + path@.len() <= i32::MAX,
                    buf@ == buf2 + arrows_sql(index0, j as nat),
                    index == index0 + j,
                    n == n0 + j,
                    values@ == values0 + name_params(n0, j as nat),
                decreases path@.len() - j,
            {
                values.push(SqlParam::OrderingName(n));
                n += 1;
                append_str(&mut buf, "->>$");
                append_decimal(&mut buf, index as i64);
                index += 1;
                proof {
                    assert(name_params(n0, (j + 1) as nat) =~= name_params(n0, j as nat).push(
                        SqlParam::OrderingName((n0 + j) as usize),
                    ));
                    assert(buf@ =~= buf2 + arrows_sql(index0, (j + 1) as nat));
                }
                j += 1;
            }
            append_str(&mut buf, ")::");
            let t = match attr.attribute_type {
                Some(t) => t,
                None => AttributeType::String,
            };
            match t {
                AttributeType::String => append_str(&mut buf, "varchar"),
                AttributeType::Int => append_str(&mut buf, "bigint"),
                AttributeType::Float => append_str(&mut buf, "double precision"),
                AttributeType::Date => append_str(&mut buf, "int"),
                AttributeType::DateTime => append_str(&mut buf, "bigint"),
                AttributeType::Profile => append_str(&mut buf, "uuid"),
                AttributeType::Metadata => append_str(&mut buf, "uuid"),
                AttributeType::Collection => append_str(&mut buf, "uuid"),
            }
            proof {
                assert(buf@ =~= buf1 + ordering_expr_sql(*attr, alias, item_col, rel_col, index0));
            }
        } else if let Some(field) = &attr.field {
            append_str(&mut buf, table_alias);
            append_str(&mut buf, ".");
            append_str(&mut buf, field.as_str());
            proof {
                assert(buf@ =~= buf1 + ordering_expr_sql(*attr, alias, item_col, rel_col, index0));
            }
        }
        append_str(&mut buf, " ");
        if attr.order == Order::Ascending {
            append_str(&mut buf, "asc");
        } else {
            append_str(&mut buf, "desc");
        }
        emitted = true;
        proof {
            let acc = ordering_acc(ordering@.take(i + 1), alias, item_col, rel_col, start);
            assert(buf@ =~= acc.0);
            assert(values@ =~= initial + acc.3);
        }
        i += 1;
    }
    proof {
        assert(ordering@.take(i as int) =~= ordering@);
        lemma_ordering_acc_counts(ordering@, alias, item_col, rel_col, start);
    }
    if !emitted {
        return (String::new(), index);
    }
    (buf, index)
}

/// The kind of collection a find query can be restricted to.
#[derive(Clone, Copy, PartialEq, Eq, Structural, Debug)]
pub enum CollectionType {
    Root,
    Folder,
    System,
}

/// Restricts a find query to items that carry a given content extension.
#[derive(Clone, Copy, PartialEq, Eq, Structural, Debug)]
pub enum ExtensionFilterType {
    Document,
    DocumentTemplate,
    Guide,
    GuideTemplate,
    CollectionTemplate,
}

/// An attribute that a found item must carry with exactly this value.
#[derive(Debug)]
pub struct FindAttribute {
    pub key: String,
    pub value: String,
}

/// A conjunction of attribute conditions.
#[derive(Debug)]
pub struct FindAttributes {
    pub attributes: Vec<FindAttribute>,
}

/// The filters, ordering and paging of a find query.
#[derive(Debug)]
pub struct FindQueryInput {
    /// Alternatives (joined by `or`), each a conjunction of attributes.
    pub attributes: Vec<FindAttributes>,
    pub content_types: Option<Vec<String>>,
    pub collection_type: Option<CollectionType>,
    pub extension_filter: Option<ExtensionFilterType>,
    pub ordering: Option<Vec<ContentOrdering>>,
    pub offset: Option<i64>,
    pub limit: Option<i64>,
}

/// The text of a statement under construction, the next placeholder number,
/// and the parameters bound so far.
pub type SqlState = (Seq<char>, int, Seq<SqlParam>);

/// One `inner join` on the category table per category id.
pub open spec fn category_joins_sql(base: Seq<char>, alias: Seq<char>, pos: int, k: nat) -> Seq<char>
    decreases k,
{
    if k == 0 {
        Seq::empty()
    } else {
        category_joins_sql(base, alias, pos, (k - 1) as nat) + " inner join "@ + base
            + "_categories as cid on (cid."@ + base + "_id = "@ + alias
            + ".id and cid.category_id = $"@ + decimal(pos + k - 1) + ") "@
    }
}

/// The category ids bound by the category joins.
pub open spec fn category_params(k: nat) -> Seq<SqlParam> {
    Seq::new(k, |j: int| SqlParam::CategoryId(j as usize))
}

/// Adds the category joins: one per category id, none when there are none.
pub open spec fn st_categories(st: SqlState, base: Seq<char>, alias: Seq<char>, category_ids: Option<Vec<u128>>) -> SqlState {
    match category_ids {
        Some(ids) if ids@.len() > 0 => (
            st.0 + category_joins_sql(base, alias, st.1, ids@.len()),
            st.1 + ids@.len(),
            st.2 + category_params(ids@.len()),
        ),
        _ => st,
    }
}

/// The join that restricts the query to items with a content extension.
pub open spec fn extension_join_sql(filter: Option<ExtensionFilterType>, alias: Seq<char>) -> Seq<char> {
    match filter {
        Some(ExtensionFilterType::Document) => " inner join documents d on ("@ + alias
            + ".id = d.metadata_id and "@ + alias + ".version = d.version) "@,
        Some(ExtensionFilterType::DocumentTemplate) => " inner join document_templates dt on ("@
            + alias + ".id = dt.metadata_id and "@ + alias + ".version = dt.version) "@,
        Some(ExtensionFilterType::Guide) => " inner join guides g on ("@ + alias
            + ".id = g.metadata_id and "@ + alias + ".version = g.version) "@,
        Some(ExtensionFilterType::GuideTemplate) => " inner join guide_templates gt on ("@ + alias
            + ".id = gt.metadata_id and "@ + alias + ".version = gt.version) "@,
        Some(ExtensionFilterType::CollectionTemplate) => " inner join collection_templates ct on ("@
            + alias + ".id = ct.metadata_id and "@ + alias + ".version = ct.version) "@,
        None => Seq::empty(),
    }
}

/// The condition that excludes deleted items.
pub open spec fn where_sql(alias: Seq<char>) -> Seq<char> {
    " where "@ + alias + ".deleted = false "@
}

/// Adds the collection type condition: only for collections, only when asked.
pub open spec fn st_collection_type(st: SqlState, base: Seq<char>, alias: Seq<char>, collection_type: Option<CollectionType>) -> SqlState {
    if base == "collection"@ && collection_type is Some {
        (st.0 + " and "@ + alias + ".type = $"@ + decimal(st.1) + " "@, st.1 + 1, st.2.push(SqlParam::CollectionType))
    } else {
        st
    }
}

/// One attribute condition, its key at placeholder `pos` and its value at `pos + 1`.
pub open spec fn attribute_condition_sql(alias: Seq<char>, pos: int) -> Seq<char> {
    " "@ + alias + ".attributes->>($"@ + decimal(pos) + "::varchar) = $"@ + decimal(pos + 1) + "::varchar "@
}

/// The first `k` attribute conditions of a group, joined by `and`.
pub open spec fn attribute_group_sql(alias: Seq<char>, pos: int, k: nat) -> Seq<char>
    decreases k,
{
    if k == 0 {
        Seq::empty()
    } else {
        attribute_group_sql(alias, pos, (k - 1) as nat) + (if k > 1 { " and "@ } else { Seq::empty() })
            + attribute_condition_sql(alias, pos + 2 * (k - 1))
    }
}

/// The keys and values that the first `k` conditions of group `i` bind.
pub open spec fn attribute_group_params(i: int, k: nat) -> Seq<SqlParam>
    decreases k,
{
    if k == 0 {
        Seq::empty()
    } else {
        attribute_group_params(i, (k - 1) as nat) + seq![
            SqlParam::AttributeKey(i as usize, (k - 1) as usize),
            SqlParam::AttributeValue(i as usize, (k - 1) as usize),
        ]
    }
}

/// The attribute groups folded into text, next placeholder and parameters.
/// Empty groups contribute nothing; a group other than the first is
/// preceded by `or`.
pub open spec fn attribute_groups_acc(alias: Seq<char>, groups: Seq<FindAttributes>, pos: int) -> SqlState
    decreases groups.len(),
{
    if groups.len() == 0 {
        (Seq::empty(), pos, Seq::empty())
    } else {
        let prev = attribute_groups_acc(alias, groups.drop_last(), pos);
        let i = groups.len() - 1;
        let k = groups.last().attributes@.len();
        if k == 0 {
            prev
        } else {
            (
                prev.0 + (if i > 0 { " or "@ } else { Seq::empty() }) + " ( "@ + attribute_group_sql(alias, prev.1, k)
                    + " ) "@,
                prev.1 + 2 * k,
                prev.2 + attribute_group_params(i, k),
            )
        }
    }
}

/// Whether some attribute group holds a condition.
pub open spec fn some_attribute_group(groups: Seq<FindAttributes>) -> bool {
    exists|i: int| 0 <= i < groups.len() && groups[i].attributes@.len() > 0
}

/// Adds the attribute conditions, when some group holds one.
pub open spec fn st_attributes(st: SqlState, alias: Seq<char>, groups: Seq<FindAttributes>) -> SqlState {
    if some_attribute_group(groups) {
        let acc = attribute_groups_acc(alias, groups, st.1);
        (st.0 + " and "@ + acc.0, acc.1, st.2 + acc.2)
    } else {
        st
    }
}

/// `$pos, $(pos+1), ...` for `k` content types.
pub open spec fn content_type_list_sql(pos: int, k: nat) -> Seq<char>
    decreases k,
{
    if k == 0 {
        Seq::empty()
    } else {
        content_type_list_sql(pos, (k - 1) as nat) + (if k > 1 { ", "@ } else { Seq::empty() }) + "$"@
            + decimal(pos + k - 1)
    }
}

/// Adds the content type condition, when content types are given.
pub open spec fn st_content_types(st: SqlState, alias: Seq<char>, content_types: Option<Vec<String>>) -> SqlState {
    match content_types {
        Some(cts) if cts@.len() > 0 => (
            st.0 + " and "@ + alias + ".content_type in ("@ + content_type_list_sql(st.1, cts@.len()) + ") "@,
            st.1 + cts@.len(),
            st.2 + Seq::new(cts@.len(), |j: int| SqlParam::ContentType(j as usize)),
        ),
        _ => st,
    }
}

/// Adds the ordering: the criteria when given, by name otherwise.
pub open spec fn st_ordering(st: SqlState, alias: Seq<char>, item_col: Seq<char>, rel_col: Seq<char>, ordering: Option<Vec<ContentOrdering>>) -> SqlState {
    match ordering {
        Some(o) => {
            let acc = ordering_acc(o@, alias, item_col, rel_col, st.1);
            (st.0 + (if acc.4 { acc.0 } else { Seq::empty() }), acc.1, st.2 + acc.3)
        },
        None => (st.0 + " order by lower("@ + alias + ".name) asc "@, st.1, st.2),
    }
}

/// Adds the offset and the limit, each when given.
pub open spec fn st_paging(st: SqlState, offset: Option<i64>, limit: Option<i64>) -> SqlState {
    let st1 = if offset is Some {
        (st.0 + " offset $"@ + decimal(st.1), st.1 + 1, st.2.push(SqlParam::Offset))
    } else {
        st
    };
    if limit is Some {
        (st1.0 + " limit $"@ + decimal(st1.1), st1.1, st1.2.push(SqlParam::Limit))
    } else {
        st1
    }
}

/// The statement, next placeholder and parameters of a find query, up to the
/// filters (no ordering or paging).
pub open spec fn find_filter_state(
    base: Seq<char>,
    query: Seq<char>,
    alias: Seq<char>,
    fq: FindQueryInput,
    category_ids: Option<Vec<u128>>,
) -> SqlState {
    let st0 = (query, 1int, Seq::<SqlParam>::empty());
    let st1 = st_categories(st0, base, alias, category_ids);
    let st2 = (st1.0 + extension_join_sql(fq.extension_filter, alias) + where_sql(alias), st1.1, st1.2);
    let st3 = st_collection_type(st2, base, alias, fq.collection_type);
    let st4 = st_attributes(st3, alias, fq.attributes@);
    st_content_types(st4, alias, fq.content_types)
}

/// The statement, next placeholder and parameters of a find query.
pub open spec fn find_state(
    base: Seq<char>,
    query: Seq<char>,
    alias: Seq<char>,
    item_col: Seq<char>,
    rel_col: Seq<char>,
    fq: FindQueryInput,
    category_ids: Option<Vec<u128>>,
    count: bool,
) -> SqlState {
    let st = find_filter_state(base, query, alias, fq, category_ids);
    if count {
        st
    } else {
        st_paging(st_ordering(st, alias, item_col, rel_col, fq.ordering), fq.offset, fq.limit)
    }
}

proof fn lemma_group_params_len(i: int, k: nat)
    ensures
        attribute_group_params(i, k).len() == 2 * k,
    decreases k,
{
    if k > 0 {
        lemma_group_params_len(i, (k - 1) as nat);
    }
}

proof fn lemma_groups_acc_pos(alias: Seq<char>, groups: Seq<FindAttributes>, pos: int)
    ensures
        attribute_groups_acc(alias, groups, pos).1 >= pos,
    decreases groups.len(),
{
    if groups.len() > 0 {
        lemma_groups_acc_pos(alias, groups.drop_last(), pos);
    }
}

fn str_eq(a: &str, b: &str) -> (r: bool)
    ensures
        r == (a@ == b@),
{
    let x = String::from_str(a);
    let y = String::from_str(b);
    x == y
}

fn push_category_joins(
    q: &mut String,
    values: &mut Vec<SqlParam>,
    pos: &mut i32,
    base_type: &str,
    table_alias: &str,
    category_ids: &Option<Vec<u128>>,
)
    requires
        st_categories((old(q)@, *old(pos) as int, old(values)@), base_type@, table_alias@, *category_ids).1 <= i32::MAX,
    ensures
        (final(q)@, *final(pos) as int, final(values)@) == st_categories(
            (old(q)@, *old(pos) as int, old(values)@),
            base_type@,
            table_alias@,
            *category_ids,
        ),
{
    if let Some(ids) = category_ids {
        if ids.len() > 0 {
            let ghost q0 = q@;
            let ghost p0 = *pos as int;
            let ghost v0 = values@;
            let mut k: usize = 0;
            while k < ids.len()
                invariant
                    k <= ids@.len(),
                    p0 + ids@.len() <= i32::MAX,
                    q@ == q0 + category_joins_sql(base_type@, table_alias@, p0, k as nat),
                    *pos as int == p0 + k,
                    values@ == v0 + category_params(k as nat),
                decreases ids@.len() - k,
            {
                append_str(q, " inner join ");
                append_str(q, base_type);
                append_str(q, "_categories as cid on (cid.");
                append_str(q, base_type);
                append_str(q, "_id = ");
                append_str(q, table_alias);
                append_str(q, ".id and cid.category_id = $");
                append_decimal(q, *pos as i64);
                append_str(q, ") ");
                *pos = *pos + 1;
                values.push(SqlParam::CategoryId(k));
                proof {
                    assert(q@ =~= q0 + category_joins_sql(base_type@, table_alias@, p0, (k + 1) as nat));
                    assert(values@ =~= v0 + category_params((k + 1) as nat));
                }
                k += 1;
            }
        }
    }
}

fn push_extension_join(q: &mut String, table_alias: &str, filter: Option<ExtensionFilterType>)
    ensures
        final(q)@ == old(q)@ + extension_join_sql(filter, table_alias@),
{
    let ghost q0 = q@;
    match filter {
        Some(ExtensionFilterType::Document) => {
            append_str(q, " inner join documents d on (");
            append_str(q, table_alias);
            append_str(q, ".id = d.metadata_id and ");
            append_str(q, table_alias);
            append_str(q, ".version = d.version) ");
        },
        Some(ExtensionFilterType::DocumentTemplate) => {
            append_str(q, " inner join document_templates dt on (");
            append_str(q, table_alias);
            append_str(q, ".id = dt.metadata_id and ");
            append_str(q, table_alias);
            append_str(q, ".version = dt.version) ");
        },
        Some(ExtensionFilterType::Guide) => {
            append_str(q, " inner join guides g on (");
            append_str(q, table_alias);
            append_str(q, ".id = g.metadata_id and ");
            append_str(q, table_alias);
            append_str(q, ".version = g.version) ");
        },
        Some(ExtensionFilterType::GuideTemplate) => {
            append_str(q, " inner join guide_templates gt on (");
            append_str(q, table_alias);
            append_str(q, ".id = gt.metadata_id and ");
            append_str(q, table_alias);
            append_str(q, ".version = gt.version) ");
        },
        Some(ExtensionFilterType::CollectionTemplate) => {
            append_str(q, " inner join collection_templates ct on (");
            append_str(q, table_alias);
            append_str(q, ".id = ct.metadata_id and ");
            append_str(q, table_alias);
            append_str(q, ".version = ct.version) ");
        },
        None => {},
    }
    proof {
        assert(q@ =~= q0 + extension_join_sql(filter, table_alias@));
    }
}

fn has_attribute_condition(groups: &Vec<FindAttributes>) -> (r: bool)
    ensures
        r == some_attribute_group(groups@),
{
    let mut i: usize = 0;
    while i < groups.len()
        invariant
            i <= groups@.len(),
            forall|j: int| 0 <= j < i ==> groups@[j].attributes@.len() == 0,
        decreases groups@.len() - i,
    {
        if groups[i].attributes.len() > 0 {
            return true;
        }
        i += 1;
    }
    false
}

fn push_attribute_groups(q: &mut String, values: &mut Vec<SqlParam>, pos: &mut i32, table_alias: &str, groups: &Vec<FindAttributes>)
    requires
        attribute_groups_acc(table_alias@, groups@, *old(pos) as int).1 <= i32::MAX,
    ensures
        ({
            let acc = attribute_groups_acc(table_alias@, groups@, *old(pos) as int);
            &&& final(q)@ == old(q)@ + acc.0
            &&& *final(pos) as int == acc.1
            &&& final(values)@ == old(values)@ + acc.2
        }),
{
    let ghost alias = table_alias@;
    let ghost q0 = q@;
    let ghost p0 = *pos as int;
    let ghost v0 = values@;
    let mut i: usize = 0;
    proof {
        lemma_groups_acc_pos(alias, groups@, p0);
    }
    while i < groups.len()
        invariant
            i <= groups@.len(),
            alias == table_alias@,
            attribute_groups_acc(alias, groups@, p0).1 <= i32::MAX,
            ({
                let acc = attribute_groups_acc(alias, groups@.take(i as int), p0);
                &&& q@ == q0 + acc.0
                &&& *pos as int == acc.1
                &&& values@ == v0 + acc.2
            }),
        decreases groups@.len() - i,
    {
        proof {
            assert(groups@.take(i + 1).drop_last() =~= groups@.take(i as int));
            assert(groups@.take(i + 1).last() == groups@[i as int]);
            lemma_groups_prefix_pos(alias, groups@, p0, i + 1);
        }
        let attrs = &groups[i].attributes;
        if attrs.len() == 0 {
            i += 1;
            continue;
        }
        let ghost qa = q@;
        if i > 0 {
            append_str(q, " or ");
        }
        append_str(q, " ( ");
        let ghost qb = q@;
        let ghost pb = *pos as int;
        let ghost vb = values@;
        let mut j: usize = 0;
        while j < attrs.len()
            invariant
                j <= attrs@.len(),
                pb + 2 * attrs@.len() <= i32::MAX,
                q@ == qb + attribute_group_sql(alias, pb, j as nat),
                *pos as int == pb + 2 * j,
                values@ == vb + attribute_group_params(i as int, j as nat),
                alias == table_alias@,
            decreases attrs@.len() - j,
        {
            if j > 0 {
                append_str(q, " and ");
            }
            append_str(q, " ");
            append_str(q, table_alias);
            append_str(q, ".attributes->>($");
            append_decimal(q, *pos as i64);
            append_str(q, "::varchar) = $");
            append_decimal(q, (*pos + 1) as i64);
            append_str(q, "::varchar ");
            *pos = *pos + 2;
            values.push(SqlParam::AttributeKey(i, j));
            values.push(SqlParam::AttributeValue(i, j));
            proof {
                assert(q@ =~= qb + attribute_group_sql(alias, pb, (j + 1) as nat));
                assert(values@ =~= vb + attribute_group_params(i as int, (j + 1) as nat));
            }
            j += 1;
        }
        append_str(q, " ) ");
        proof {
            let acc = attribute_groups_acc(alias, groups@.take(i + 1), p0);
            assert(q@ =~= q0 + acc.0);
            assert(values@ =~= v0 + acc.2);
        }
        i += 1;
    }
    proof {
        assert(groups@.take(i as int) =~= groups@);
    }
}

proof fn lemma_groups_prefix_pos(alias: Seq<char>, groups: Seq<FindAttributes>, pos: int, i: int)
    requires
        0 <= i <= groups.len(),
    ensures
        attribute_groups_acc(alias, groups.take(i), pos).1 <= attribute_groups_acc(alias, groups, pos).1,
    decreases groups.len() - i,
{
    if i < groups.len() {
        lemma_groups_prefix_pos(alias, groups, pos, i + 1);
        assert(groups.take(i + 1).drop_last() =~= groups.take(i));
    } else {
        assert(groups.take(i) =~= groups);
    }
}

fn push_content_types(q: &mut String, values: &mut Vec<SqlParam>, pos: &mut i32, table_alias: &str, content_types: &Option<Vec<String>>)
    requires
        st_content_types((old(q)@, *old(pos) as int, old(values)@), table_alias@, *content_types).1 <= i32::MAX,
    ensures
        (final(q)@, *final(pos) as int, final(values)@) == st_content_types(
            (old(q)@, *old(pos) as int, old(values)@),
            table_alias@,
            *content_types,
        ),
{
    if let Some(cts) = content_types {
        if cts.len() > 0 {
            let ghost q0 = q@;
            let ghost p0 = *pos as int;
            let ghost v0 = values@;
            append_str(q, " and ");
            append_str(q, table_alias);
            append_str(q, ".content_type in (");
            let ghost q1 = q@;
            let mut ix: usize = 0;
            while ix < cts.len()
                invariant
                    ix <= cts@.len(),
                    p0 + cts@.len() <= i32::MAX,
                    q@ == q1 + content_type_list_sql(p0, ix as nat),
                    *pos as int == p0 + ix,
                    values@ == v0 + Seq::new(ix as nat, |j: int| SqlParam::ContentType(j as usize)),
                decreases cts@.len() - ix,
            {
                if ix > 0 {
                    append_str(q, ", ");
                }
                append_str(q, "$");
                append_decimal(q, *pos as i64);
                *pos = *pos + 1;
                values.push(SqlParam::ContentType(ix));
                proof {
                    assert(q@ =~= q1 + content_type_list_sql(p0, (ix + 1) as nat));
                    assert(values@ =~= v0 + Seq::new((ix + 1) as nat, |j: int| SqlParam::ContentType(j as usize)));
                }
                ix += 1;
            }
            append_str(q, ") ");
            proof {
                assert(q@ =~= q0 + " and "@ + table_alias@ + ".content_type in ("@ + content_type_list_sql(p0, cts@.len()) + ") "@);
            }
        }
    }
}

/// Builds a find statement and its parameters. After `query` come one join
/// per category id, the join of the extension filter, the exclusion of
/// deleted items, the collection type condition (for collections), the
/// attribute conditions (a group per `or` alternative), the content type
/// condition and, unless only a count is asked for, the ordering (the given
/// criteria, or by lower-cased name) followed by offset and limit.
/// Placeholders are numbered from 1 in the order in which the parameters are
/// bound. The path elements of the ordering criteria are appended to `names`;
/// the ordering parameters refer to positions of that list.
pub fn build_find_args(
    base_type: &str,
    query: &str,
    table_alias: &str,
    item_attributes_column: &str,
    relationship_attributes_column: &str,
    find_query: &FindQueryInput,
    category_ids: &Option<Vec<u128>>,
    count: bool,
    names: &mut Vec<String>,
) -> (res: (String, Vec<SqlParam>))
    requires
        find_state(
            base_type@,
            query@,
            table_alias@,
            item_attributes_column@,
            relationship_attributes_column@,
            *find_query,
            *category_ids,
            count,
        ).1 <= i32::MAX,
    ensures
        ({
            let st = find_state(
                base_type@,
                query@,
                table_alias@,
                item_attributes_column@,
                relationship_attributes_column@,
                *find_query,
                *category_ids,
                count,
            );
            &&& res.0@ == st.0
            &&& res.1@ == st.2
        }),
        texts(final(names)@) == texts(old(names)@) + (match find_query.ordering {
            Some(o) if !count => ordering_names(o@),
            _ => Seq::empty(),
        }),
{
    let ghost base = base_type@;
    let ghost alias = table_alias@;
    let ghost fq = *find_query;
    let ghost final_pos = find_state(
        base_type@,
        query@,
        table_alias@,
        item_attributes_column@,
        relationship_attributes_column@,
        *find_query,
        *category_ids,
        count,
    ).1;
    let mut q = String::from_str(query);
    let mut values: Vec<SqlParam> = Vec::new();
    let mut pos: i32 = 1;
    let ghost st0 = (q@, 1int, values@);
    assert(values@ =~= Seq::<SqlParam>::empty());
    let ghost st1 = st_categories(st0, base, alias, *category_ids);
    let ghost st2 = (st1.0 + extension_join_sql(fq.extension_filter, alias) + where_sql(alias), st1.1, st1.2);
    let ghost st3 = st_collection_type(st2, base, alias, fq.collection_type);
    let ghost st4 = st_attributes(st3, alias, fq.attributes@);
    let ghost st5 = st_content_types(st4, alias, fq.content_types);
    proof {
        lemma_groups_acc_pos(alias, fq.attributes@, st3.1);
        assert(st1.1 <= st2.1 <= st3.1 <= st4.1 <= st5.1);
        if !count {
            match fq.ordering {
                Some(o) => {
                    lemma_ordering_acc_counts(o@, alias, item_attributes_column@, relationship_attributes_column@, st5.1);
                    assert(st5.1 + ordering_total(o@) <= final_pos);
                },
                None => {},
            }
        }
        assert(st5.1 <= final_pos);
    }
    push_category_joins(&mut q, &mut values, &mut pos, base_type, table_alias, category_ids);
    push_extension_join(&mut q, table_alias, find_query.extension_filter);
    append_str(&mut q, " where ");
    append_str(&mut q, table_alias);
    append_str(&mut q, ".deleted = false ");
    proof {
        assert((q@, pos as int, values@) =~= st2);
    }
    if str_eq(base_type, "collection") {
        if find_query.collection_type.is_some() {
            append_str(&mut q, " and ");
            append_str(&mut q, table_alias);
            append_str(&mut q, ".type = $");
            append_decimal(&mut q, pos as i64);
            append_str(&mut q, " ");
            pos = pos + 1;
            values.push(SqlParam::CollectionType);
        }
    }
    proof {
        assert((q@, pos as int, values@) =~= st3);
    }
    if has_attribute_condition(&find_query.attributes) {
        append_str(&mut q, " and ");
        push_attribute_groups(&mut q, &mut values, &mut pos, table_alias, &find_query.attributes);
    }
    proof {
        assert((q@, pos as int, values@) =~= st4);
    }
    push_content_types(&mut q, &mut values, &mut pos, table_alias, &find_query.content_types);
    if !count {
        let ghost q5 = q@;
        let ghost v5 = values@;
        if let Some(ordering) = &find_query.ordering {
            let ghost names0 = names@;
            build_ordering_names(ordering.as_slice(), names);
            proof {
                lemma_ordering_names_len(ordering@);
                assert(texts(names@).len() == names@.len());
                assert(texts(names0).len() == names0.len());
            }
            let (ordering_sql, index) = build_ordering(
                table_alias,
                item_attributes_column,
                relationship_attributes_column,
                pos,
                ordering.as_slice(),
                &mut values,
                names.as_slice(),
            );
            pos = index;
            append_str(&mut q, ordering_sql.as_str());
        } else {
            append_str(&mut q, " order by lower(");
            append_str(&mut q, table_alias);
            append_str(&mut q, ".name) asc ");
        }
        let ghost st6 = st_ordering(st5, alias, item_attributes_column@, relationship_attributes_column@, fq.ordering);
        proof {
            assert((q@, pos as int, values@) =~= st6);
        }
        if let Some(offset) = &find_query.offset {
            append_str(&mut q, " offset $");
            append_decimal(&mut q, pos as i64);
            values.push(SqlParam::Offset);
            pos = pos + 1;
        }
        if let Some(limit) = &find_query.limit {
            append_str(&mut q, " limit $");
            append_decimal(&mut q, pos as i64);
            values.push(SqlParam::Limit);
        }
        proof {
            assert(q@ =~= st_paging(st6, fq.offset, fq.limit).0);
            assert(values@ =~= st_paging(st6, fq.offset, fq.limit).2);
        }
    } else {
        proof {
            assert(names@ =~= old(names)@);
        }
    }
    (q, values)
}

proof fn lemma_groups_acc_params(alias: Seq<char>, groups: Seq<FindAttributes>, pos: int)
    ensures
        attribute_groups_acc(alias, groups, pos).2.len() == attribute_groups_acc(alias, groups, pos).1 - pos,
    decreases groups.len(),
{
    if groups.len() > 0 {
        lemma_groups_acc_params(alias, groups.drop_last(), pos);
        lemma_group_params_len(groups.len() - 1, groups.last().attributes@.len());
    }
}

/// Every placeholder of a find statement binds one parameter: the filters
/// number their placeholders from `$1` up with one parameter each, and the
/// full statement adds one parameter per ordering name, one for the offset
/// and one for the limit, whose placeholder is the last.
pub proof fn law_placeholders_bind_parameters(
    base: Seq<char>,
    query: Seq<char>,
    alias: Seq<char>,
    item_col: Seq<char>,
    rel_col: Seq<char>,
    fq: FindQueryInput,
    category_ids: Option<Vec<u128>>,
)
    ensures
        find_filter_state(base, query, alias, fq, category_ids).2.len() == find_filter_state(base, query, alias, fq, category_ids).1 - 1,
        find_state(base, query, alias, item_col, rel_col, fq, category_ids, false).2.len() == find_state(
            base,
            query,
            alias,
            item_col,
            rel_col,
            fq,
            category_ids,
            false,
        ).1 - 1 + (if fq.limit is Some { 1int } else { 0int }),
{
    let st0 = (query, 1int, Seq::<SqlParam>::empty());
    let st1 = st_categories(st0, base, alias, category_ids);
    let st2 = (st1.0 + extension_join_sql(fq.extension_filter, alias) + where_sql(alias), st1.1, st1.2);
    let st3 = st_collection_type(st2, base, alias, fq.collection_type);
    lemma_groups_acc_params(alias, fq.attributes@, st3.1);
    let st4 = st_attributes(st3, alias, fq.attributes@);
    let st5 = st_content_types(st4, alias, fq.content_types);
    assert(st5 == find_filter_state(base, query, alias, fq, category_ids));
    match fq.ordering {
        Some(o) => lemma_ordering_acc_counts(o@, alias, item_col, rel_col, st5.1),
        None => {},
    }
}

proof fn lemma_prefix_of_append(a: Seq<char>, b: Seq<char>, c: Seq<char>)
    requires
        a.is_prefix_of(b),
    ensures
        a.is_prefix_of(b + c),
{
    assert((b + c).subrange(0, a.len() as int) =~= b.subrange(0, a.len() as int));
}

proof fn lemma_params_prefix_of_append(a: Seq<SqlParam>, b: Seq<SqlParam>, c: Seq<SqlParam>)
    requires
        a.is_prefix_of(b),
    ensures
        a.is_prefix_of(b + c),
{
    assert((b + c).subrange(0, a.len() as int) =~= b.subrange(0, a.len() as int));
}

/// A count statement counts what the listing statement of the same query
/// selects: its text and its parameters begin the listing's, which only
/// adds the ordering and the paging.
pub proof fn law_count_query_shares_filters(
    base: Seq<char>,
    query: Seq<char>,
    alias: Seq<char>,
    item_col: Seq<char>,
    rel_col: Seq<char>,
    fq: FindQueryInput,
    category_ids: Option<Vec<u128>>,
)
    ensures
        find_state(base, query, alias, item_col, rel_col, fq, category_ids, true).0.is_prefix_of(
            find_state(base, query, alias, item_col, rel_col, fq, category_ids, false).0,
        ),
        find_state(base, query, alias, item_col, rel_col, fq, category_ids, true).2.is_prefix_of(
            find_state(base, query, alias, item_col, rel_col, fq, category_ids, false).2,
        ),
{
    let st = find_filter_state(base, query, alias, fq, category_ids);
    let so = st_ordering(st, alias, item_col, rel_col, fq.ordering);
    assert(st.0.is_prefix_of(st.0)) by {
        assert(st.0.subrange(0, st.0.len() as int) =~= st.0);
    }
    assert(st.2.is_prefix_of(st.2)) by {
        assert(st.2.subrange(0, st.2.len() as int) =~= st.2);
    }
    match fq.ordering {
        Some(o) => {
            let acc = ordering_acc(o@, alias, item_col, rel_col, st.1);
            lemma_prefix_of_append(st.0, st.0, if acc.4 { acc.0 } else { Seq::empty() });
            lemma_params_prefix_of_append(st.2, st.2, acc.3);
        },
        None => {
            lemma_prefix_of_append(st.0, st.0, " order by lower("@ + alias + ".name) asc "@);
            assert(so.2 == st.2);
        },
    }
    let st1 = if fq.offset is Some {
        (so.0 + " offset $"@ + decimal(so.1), so.1 + 1, so.2.push(SqlParam::Offset))
    } else {
        so
    };
    if fq.offset is Some {
        lemma_prefix_of_append(st.0, so.0, " offset $"@ + decimal(so.1));
        assert(so.2.push(SqlParam::Offset) =~= so.2 + seq![SqlParam::Offset]);
        lemma_params_prefix_of_append(st.2, so.2, seq![SqlParam::Offset]);
        assert(st1.0 =~= so.0 + (" offset $"@ + decimal(so.1)));
    }
    if fq.limit is Some {
        lemma_prefix_of_append(st.0, st1.0, " limit $"@ + decimal(st1.1));
        assert(st1.2.push(SqlParam::Limit) =~= st1.2 + seq![SqlParam::Limit]);
        lemma_params_prefix_of_append(st.2, st1.2, seq![SqlParam::Limit]);
        assert(st1.0 + " limit $"@ + decimal(st1.1) =~= st1.0 + (" limit $"@ + decimal(st1.1)));
    }
}

/// An ordering binds its names in order: it binds one parameter per path
/// element, and its `k`-th parameter is the `k`-th name that
/// `build_ordering_names` collects.
pub proof fn law_ordering_binds_its_names(
    items: Seq<ContentOrdering>,
    alias: Seq<char>,
    item_col: Seq<char>,
    rel_col: Seq<char>,
    start: int,
)
    ensures
        ordering_acc(items, alias, item_col, rel_col, start).3.len() == ordering_names(items).len(),
        forall|k: int| 0 <= k < ordering_acc(items, alias, item_col, rel_col, start).3.len()
            ==> #[trigger] ordering_acc(items, alias, item_col, rel_col, start).3[k] == SqlParam::OrderingName(k as usize),
    decreases items.len(),
{
    lemma_ordering_acc_counts(items, alias, item_col, rel_col, start);
    lemma_ordering_names_len(items);
    if items.len() > 0 {
        let d = items.drop_last();
        law_ordering_binds_its_names(d, alias, item_col, rel_col, start);
        lemma_ordering_acc_counts(d, alias, item_col, rel_col, start);
        let prev = ordering_acc(d, alias, item_col, rel_col, start);
        let acc = ordering_acc(items, alias, item_col, rel_col, start);
        if !ordering_skipped(items.last()) {
            let k = path_len(items.last());
            assert(acc.3 == prev.3 + name_params(prev.2, k));
            assert forall|j: int| 0 <= j < acc.3.len() implies #[trigger] acc.3[j] == SqlParam::OrderingName(j as usize) by {
                if j < prev.3.len() {
                    assert(acc.3[j] == prev.3[j]);
                } else {
                    assert(acc.3[j] == name_params(prev.2, k)[j - prev.3.len()]);
                }
            }
        }
    }
}

/// The number of attribute conditions over all groups.
pub open spec fn attribute_total(groups: Seq<FindAttributes>) -> nat
    decreases groups.len(),
{
    if groups.len() == 0 {
        0
    } else {
        attribute_total(groups.drop_last()) + groups.last().attributes@.len()
    }
}

proof fn lemma_groups_acc_count(alias: Seq<char>, groups: Seq<FindAttributes>, pos: int)
    ensures
        attribute_groups_acc(alias, groups, pos).1 == pos + 2 * attribute_total(groups),
        !some_attribute_group(groups) ==> attribute_total(groups) == 0,
    decreases groups.len(),
{
    if groups.len() > 0 {
        lemma_groups_acc_count(alias, groups.drop_last(), pos);
        if !some_attribute_group(groups) {
            assert(groups[groups.len() - 1].attributes@.len() == 0);
            assert(!some_attribute_group(groups.drop_last())) by {
                if some_attribute_group(groups.drop_last()) {
                    let i = choose|i: int| 0 <= i < groups.drop_last().len() && groups.drop_last()[i].attributes@.len() > 0;
                    assert(groups[i] == groups.drop_last()[i]);
                }
            }
        }
    }
}

/// The number of parameters a find statement binds, from its inputs: one
/// per category id, one for the collection type (collections only), two per
/// attribute condition, one per content type and, unless the statement
/// counts, one per ordering path element, one for the offset and one for
/// the limit.
pub open spec fn find_param_count(base: Seq<char>, fq: FindQueryInput, category_ids: Option<Vec<u128>>, count: bool) -> int {
    (match category_ids {
        Some(ids) => ids@.len() as int,
        None => 0int,
    }) + (if base == "collection"@ && fq.collection_type is Some { 1int } else { 0int }) + 2 * attribute_total(
        fq.attributes@,
    ) + (match fq.content_types {
        Some(c) => c@.len() as int,
        None => 0int,
    }) + (if count {
        0int
    } else {
        (match fq.ordering {
            Some(o) => ordering_total(o@) as int,
            None => 0int,
        }) + (if fq.offset is Some { 1int } else { 0int }) + (if fq.limit is Some { 1int } else { 0int })
    })
}

/// A find statement binds exactly `find_param_count` parameters, one per
/// placeholder.
pub proof fn law_parameter_count(
    base: Seq<char>,
    query: Seq<char>,
    alias: Seq<char>,
    item_col: Seq<char>,
    rel_col: Seq<char>,
    fq: FindQueryInput,
    category_ids: Option<Vec<u128>>,
    count: bool,
)
    ensures
        find_state(base, query, alias, item_col, rel_col, fq, category_ids, count).2.len() == find_param_count(
            base,
            fq,
            category_ids,
            count,
        ),
{
    let st0 = (query, 1int, Seq::<SqlParam>::empty());
    let st1 = st_categories(st0, base, alias, category_ids);
    let st2 = (st1.0 + extension_join_sql(fq.extension_filter, alias) + where_sql(alias), st1.1, st1.2);
    let st3 = st_collection_type(st2, base, alias, fq.collection_type);
    lemma_groups_acc_params(alias, fq.attributes@, st3.1);
    lemma_groups_acc_count(alias, fq.attributes@, st3.1);
    let st4 = st_attributes(st3, alias, fq.attributes@);
    let st5 = st_content_types(st4, alias, fq.content_types);
    assert(st5 == find_filter_state(base, query, alias, fq, category_ids));
    match fq.ordering {
        Some(o) => lemma_ordering_acc_counts(o@, alias, item_col, rel_col, st5.1),
        None => {},
    }
}

/// A count statement stops after the filters: it is the listing statement's
/// filter part, with no ordering, offset or limit, and binds only the
/// filters' parameters.
pub proof fn law_count_query_stops_at_filters(
    base: Seq<char>,
    query: Seq<char>,
    alias: Seq<char>,
    item_col: Seq<char>,
    rel_col: Seq<char>,
    fq: FindQueryInput,
    category_ids: Option<Vec<u128>>,
)
    ensures
        find_state(base, query, alias, item_col, rel_col, fq, category_ids, true) == find_filter_state(
            base,
            query,
            alias,
            fq,
            category_ids,
        ),
        find_state(base, query, alias, item_col, rel_col, fq, category_ids, false) == st_paging(
            st_ordering(find_filter_state(base, query, alias, fq, category_ids), alias, item_col, rel_col, fq.ordering),
            fq.offset,
            fq.limit,
        ),
{
}

/// An empty category list gives the same statement and parameters as no
/// list: no category join is written.
pub proof fn law_empty_categories_like_none(
    base: Seq<char>,
    query: Seq<char>,
    alias: Seq<char>,
    item_col: Seq<char>,
    rel_col: Seq<char>,
    fq: FindQueryInput,
    ids: Vec<u128>,
    count: bool,
)
    requires
        ids@.len() == 0,
    ensures
        find_state(base, query, alias, item_col, rel_col, fq, Some(ids), count) == find_state(
            base,
            query,
            alias,
            item_col,
            rel_col,
            fq,
            None,
            count,
        ),
{
    let st0 = (query, 1int, Seq::<SqlParam>::empty());
    assert(st_categories(st0, base, alias, Some(ids)) == st_categories(st0, base, alias, None));
}

/// Parameters none of which is the offset or the limit.
pub open spec fn no_paging(s: Seq<SqlParam>) -> bool {
    forall|i: int| 0 <= i < s.len() ==> !((#[trigger] s[i]) is Offset) && !(s[i] is Limit)
}

proof fn lemma_no_paging_concat(a: Seq<SqlParam>, b: Seq<SqlParam>)
    requires
        no_paging(a),
        no_paging(b),
    ensures
        no_paging(a + b),
{
    assert forall|i: int| 0 <= i < (a + b).len() implies !(#[trigger] (a + b)[i] is Offset) && !((a + b)[i] is Limit) by {
        if i < a.len() {
            assert((a + b)[i] == a[i]);
        } else {
            assert((a + b)[i] == b[i - a.len()]);
        }
    }
}

proof fn lemma_group_params_no_paging(i: int, k: nat)
    ensures
        no_paging(attribute_group_params(i, k)),
    decreases k,
{
    if k > 0 {
        lemma_group_params_no_paging(i, (k - 1) as nat);
        let pair = seq![
            SqlParam::AttributeKey(i as usize, (k - 1) as usize),
            SqlParam::AttributeValue(i as usize, (k - 1) as usize),
        ];
        assert(no_paging(pair));
        lemma_no_paging_concat(attribute_group_params(i, (k - 1) as nat), pair);
    }
}

proof fn lemma_groups_acc_no_paging(alias: Seq<char>, groups: Seq<FindAttributes>, pos: int)
    ensures
        no_paging(attribute_groups_acc(alias, groups, pos).2),
    decreases groups.len(),
{
    if groups.len() > 0 {
        lemma_groups_acc_no_paging(alias, groups.drop_last(), pos);
        let k = groups.last().attributes@.len();
        lemma_group_params_no_paging(groups.len() - 1, k);
        lemma_no_paging_concat(
            attribute_groups_acc(alias, groups.drop_last(), pos).2,
            attribute_group_params(groups.len() - 1, k),
        );
    }
}

proof fn lemma_ordering_no_paging(items: Seq<ContentOrdering>, alias: Seq<char>, item_col: Seq<char>, rel_col: Seq<char>, start: int)
    ensures
        no_paging(ordering_acc(items, alias, item_col, rel_col, start).3),
    decreases items.len(),
{
    if items.len() > 0 {
        lemma_ordering_no_paging(items.drop_last(), alias, item_col, rel_col, start);
        let prev = ordering_acc(items.drop_last(), alias, item_col, rel_col, start);
        let k = path_len(items.last());
        assert(no_paging(name_params(prev.2, k)));
        lemma_no_paging_concat(prev.3, name_params(prev.2, k));
    }
}

proof fn lemma_filters_no_paging(base: Seq<char>, query: Seq<char>, alias: Seq<char>, fq: FindQueryInput, category_ids: Option<Vec<u128>>)
    ensures
        no_paging(find_filter_state(base, query, alias, fq, category_ids).2),
{
    let st0 = (query, 1int, Seq::<SqlParam>::empty());
    let st1 = st_categories(st0, base, alias, category_ids);
    match category_ids {
        Some(ids) => {
            assert(no_paging(category_params(ids@.len())));
            lemma_no_paging_concat(Seq::<SqlParam>::empty(), category_params(ids@.len()));
        },
        None => {},
    }
    let st2 = (st1.0 + extension_join_sql(fq.extension_filter, alias) + where_sql(alias), st1.1, st1.2);
    let st3 = st_collection_type(st2, base, alias, fq.collection_type);
    assert(no_paging(st3.2)) by {
        assert forall|i: int| 0 <= i < st3.2.len() implies !(#[trigger] st3.2[i] is Offset) && !(st3.2[i] is Limit) by {
            if i < st2.2.len() {
                assert(st3.2[i] == st2.2[i]);
            }
        }
    }
    lemma_groups_acc_no_paging(alias, fq.attributes@, st3.1);
    lemma_no_paging_concat(st3.2, attribute_groups_acc(alias, fq.attributes@, st3.1).2);
    let st4 = st_attributes(st3, alias, fq.attributes@);
    match fq.content_types {
        Some(cts) => {
            let c = Seq::new(cts@.len(), |j: int| SqlParam::ContentType(j as usize));
            assert(no_paging(c));
            lemma_no_paging_concat(st4.2, c);
        },
        None => {},
    }
    assert(st_content_types(st4, alias, fq.content_types) == find_filter_state(base, query, alias, fq, category_ids));
}

/// The ` limit $n` clause that ends a statement with a limit, or nothing.
pub open spec fn limit_clause(limit: Option<i64>, n: int) -> Seq<char> {
    if limit is Some {
        " limit $"@ + decimal(n)
    } else {
        Seq::empty()
    }
}

/// Where a statement binds its offset and limit: a count statement neither;
/// a listing statement its limit last, at the ` limit $n` that ends it, and
/// its offset once, at the ` offset $k` just before.
pub open spec fn paging_bound(st: SqlState, fq: FindQueryInput, count: bool) -> bool {
    &&& limit_bound(st.2, fq.limit is Some && !count)
    &&& offset_bound(st.2, fq.offset is Some && !count, limit_count(fq.limit))
    &&& !count && fq.limit is Some ==> exists|t: Seq<char>| #[trigger] (t + " limit $"@ + decimal(st.2.len() as int))
        == st.0
    &&& !count && fq.offset is Some ==> offset_text_ends(st.0, st.2.len() - limit_count(fq.limit), limit_clause(fq.limit, st.2.len() as int))
}

/// One parameter for a limit, none without.
pub open spec fn limit_count(limit: Option<i64>) -> int {
    if limit is Some { 1 } else { 0 }
}

/// The text ends with ` offset $k` followed by `rest`.
pub open spec fn offset_text_ends(text: Seq<char>, k: int, rest: Seq<char>) -> bool {
    exists|t: Seq<char>| #[trigger] (t + " offset $"@ + decimal(k) + rest) == text
}

/// The limit is bound exactly when there is one, as the last parameter.
pub open spec fn limit_bound(ps: Seq<SqlParam>, has_limit: bool) -> bool {
    &&& forall|i: int| 0 <= i && i < ps.len() && (#[trigger] ps[i]) is Limit ==> has_limit && i == ps.len() - 1
    &&& has_limit ==> ps.len() >= 1 && ps[ps.len() - 1] is Limit
}

/// The offset is bound exactly when there is one, just before the `after`
/// last parameters.
pub open spec fn offset_bound(ps: Seq<SqlParam>, has_offset: bool, after: int) -> bool {
    &&& forall|i: int| 0 <= i && i < ps.len() && (#[trigger] ps[i]) is Offset ==> has_offset && i == ps.len() - after - 1
    &&& has_offset ==> ps.len() - after >= 1 && ps[ps.len() - after - 1] is Offset
}

/// The offset and the limit are bound where their placeholders stand, and
/// nowhere else. A count statement binds neither. In a listing statement
/// with a limit, the limit is the last parameter and ` limit $n` (with `n`
/// the number of parameters) ends the statement; with an offset, the
/// offset is bound exactly once, by the ` offset $k` placeholder that comes
/// just before the limit, or last; without an offset or a limit, neither is
/// bound.
pub proof fn law_paging_parameters(
    base: Seq<char>,
    query: Seq<char>,
    alias: Seq<char>,
    item_col: Seq<char>,
    rel_col: Seq<char>,
    fq: FindQueryInput,
    category_ids: Option<Vec<u128>>,
    count: bool,
)
    ensures
        paging_bound(find_state(base, query, alias, item_col, rel_col, fq, category_ids, count), fq, count),
{
    lemma_filters_no_paging(base, query, alias, fq, category_ids);
    law_placeholders_bind_parameters(base, query, alias, item_col, rel_col, fq, category_ids);
    let f = find_filter_state(base, query, alias, fq, category_ids);
    if !count {
        let so = st_ordering(f, alias, item_col, rel_col, fq.ordering);
        match fq.ordering {
            Some(o) => {
                let acc = ordering_acc(o@, alias, item_col, rel_col, f.1);
                lemma_ordering_no_paging(o@, alias, item_col, rel_col, f.1);
                lemma_no_paging_concat(f.2, acc.3);
            },
            None => {},
        }
        assert(no_paging(so.2));
        let st1 = if fq.offset is Some {
            (so.0 + " offset $"@ + decimal(so.1), so.1 + 1, so.2.push(SqlParam::Offset))
        } else {
            so
        };
        let st = find_state(base, query, alias, item_col, rel_col, fq, category_ids, count);
        let n = st.2.len() as int;
        let k = n - (if fq.limit is Some { 1int } else { 0int });
        assert(st1.2.len() == k);
        assert forall|i: int| #![trigger st.2[i]] 0 <= i < n && st.2[i] is Limit implies !count && fq.limit is Some && i == n - 1 by {
            if i < so.2.len() {
                assert(st.2[i] == so.2[i]);
            } else if i < st1.2.len() {
                assert(st.2[i] == st1.2[i]);
            }
        }
        assert forall|i: int| #![trigger st.2[i]] 0 <= i < n && st.2[i] is Offset implies !count && fq.offset is Some && i == k - 1 by {
            if i < so.2.len() {
                assert(st.2[i] == so.2[i]);
            } else if i < st1.2.len() {
                assert(st.2[i] == st1.2[i]);
            }
        }
        if fq.offset is Some {
            assert(st.2[k - 1] == st1.2[k - 1]);
            assert(so.1 == k);
            assert(so.0 + " offset $"@ + decimal(k) + limit_clause(fq.limit, n) =~= st.0);
        }
        if fq.limit is Some {
            assert(st1.1 == n);
            assert(st1.0 + " limit $"@ + decimal(n) == st.0);
        }
    } else {
        let st = find_state(base, query, alias, item_col, rel_col, fq, category_ids, count);
        assert(st == f);
        assert forall|i: int| 0 <= i < st.2.len() implies !((#[trigger] st.2[i]) is Offset) && !(st.2[i] is Limit) by {
            assert(st.2[i] == f.2[i]);
        }
    }
}

} // verus!
