use bosca_server::query::{
    build_find_args, build_ordering, build_ordering_names, AttributeLocation, AttributeType, CollectionType,
    ContentOrdering, ExtensionFilterType, FindAttribute, FindAttributes, FindQueryInput, Order, SqlParam,
};

fn path_ordering(path: &[&str], order: Order, t: Option<AttributeType>, loc: Option<AttributeLocation>) -> ContentOrdering {
    ContentOrdering {
        field: None,
        path: Some(path.iter().map(|p| p.to_string()).collect()),
        order,
        attribute_type: t,
        attribute_location: loc,
    }
}

fn field_ordering(field: &str, order: Order) -> ContentOrdering {
    ContentOrdering { field: Some(field.to_string()), path: None, order, attribute_type: None, attribute_location: None }
}

fn empty_query() -> FindQueryInput {
    FindQueryInput {
        attributes: vec![],
        content_types: None,
        collection_type: None,
        extension_filter: None,
        ordering: None,
        offset: None,
        limit: None,
    }
}

fn attrs(pairs: &[(&str, &str)]) -> FindAttributes {
    FindAttributes {
        attributes: pairs.iter().map(|(k, v)| FindAttribute { key: k.to_string(), value: v.to_string() }).collect(),
    }
}

#[test]
fn ordering_names_collect_every_path_element_in_order() {
    let ordering = vec![
        path_ordering(&["a", "b"], Order::Ascending, None, None),
        field_ordering("name", Order::Ascending),
        path_ordering(&["c"], Order::Descending, None, None),
    ];
    let mut names = vec!["existing".to_string()];
    build_ordering_names(&ordering, &mut names);
    assert_eq!(names, vec!["existing", "a", "b", "c"]);
}

#[test]
fn ordering_with_field_and_item_path() {
    let ordering = vec![
        field_ordering("name", Order::Ascending),
        path_ordering(&["x", "y"], Order::Descending, Some(AttributeType::Int), Some(AttributeLocation::Item)),
    ];
    let names = vec!["x".to_string(), "y".to_string()];
    let mut values = Vec::new();
    let (sql, next) = build_ordering("m", "m.attributes", "ci.attributes", 3, &ordering, &mut values, &names);
    assert_eq!(sql, "order by m.name asc, (m.attributes->>$3->>$4)::bigint desc");
    assert_eq!(next, 5);
    assert_eq!(values, vec![SqlParam::OrderingName(0), SqlParam::OrderingName(1)]);
}

#[test]
fn ordering_path_defaults_to_relationship_column_and_varchar() {
    let ordering = vec![path_ordering(&["p"], Order::Ascending, None, None)];
    let names = vec!["p".to_string()];
    let mut values = Vec::new();
    let (sql, next) = build_ordering("m", "m.attributes", "ci.attributes", 1, &ordering, &mut values, &names);
    assert_eq!(sql, "order by (ci.attributes->>$1)::varchar asc");
    assert_eq!(next, 2);
    assert_eq!(values, vec![SqlParam::OrderingName(0)]);
}

#[test]
fn ordering_attribute_types_cast_as_documented() {
    let cases = [
        (AttributeType::String, "varchar"),
        (AttributeType::Int, "bigint"),
        (AttributeType::Float, "double precision"),
        (AttributeType::Date, "int"),
        (AttributeType::DateTime, "bigint"),
        (AttributeType::Profile, "uuid"),
        (AttributeType::Metadata, "uuid"),
        (AttributeType::Collection, "uuid"),
    ];
    for (t, cast) in cases {
        let ordering = vec![path_ordering(&["k"], Order::Descending, Some(t), Some(AttributeLocation::Relationship))];
        let names = vec!["k".to_string()];
        let mut values = Vec::new();
        let (sql, _) = build_ordering("c", "c.attributes", "ci.attributes", 7, &ordering, &mut values, &names);
        assert_eq!(sql, format!("order by (ci.attributes->>$7)::{} desc", cast));
    }
}

#[test]
fn ordering_without_fields_or_paths_is_empty() {
    let ordering = vec![ContentOrdering {
        field: None,
        path: None,
        order: Order::Ascending,
        attribute_type: None,
        attribute_location: None,
    }];
    let mut values = Vec::new();
    let (sql, next) = build_ordering("m", "a", "b", 4, &ordering, &mut values, &[]);
    assert_eq!(sql, "");
    assert_eq!(next, 4);
    assert!(values.is_empty());
    let (sql, next) = build_ordering("m", "a", "b", 4, &[], &mut values, &[]);
    assert_eq!(sql, "");
    assert_eq!(next, 4);
}

#[test]
fn ordering_separator_follows_the_criterion_position() {
    let ordering = vec![
        ContentOrdering { field: None, path: None, order: Order::Ascending, attribute_type: None, attribute_location: None },
        field_ordering("created", Order::Descending),
    ];
    let mut values = Vec::new();
    let (sql, _) = build_ordering("m", "a", "b", 1, &ordering, &mut values, &[]);
    assert_eq!(sql, "order by , m.created desc");
}

#[test]
fn find_args_with_every_filter() {
    let mut fq = empty_query();
    fq.attributes = vec![attrs(&[("k1", "v1"), ("k2", "v2")]), attrs(&[]), attrs(&[("k3", "v3")])];
    fq.content_types = Some(vec!["text/plain".to_string(), "audio/mpeg".to_string()]);
    fq.extension_filter = Some(ExtensionFilterType::Document);
    fq.offset = Some(10);
    fq.limit = Some(20);
    let categories = Some(vec![1u128, 2u128]);
    let mut names = Vec::new();
    let (sql, values) = build_find_args(
        "metadata",
        "select m.* from metadata m",
        "m",
        "m.attributes",
        "ci.attributes",
        &fq,
        &categories,
        false,
        &mut names,
    );
    let expected = String::new()
        + "select m.* from metadata m"
        + " inner join metadata_categories as cid on (cid.metadata_id = m.id and cid.category_id = $1) "
        + " inner join metadata_categories as cid on (cid.metadata_id = m.id and cid.category_id = $2) "
        + " inner join documents d on (m.id = d.metadata_id and m.version = d.version) "
        + " where m.deleted = false "
        + " and "
        + " ( "
        + " m.attributes->>($3::varchar) = $4::varchar "
        + " and "
        + " m.attributes->>($5::varchar) = $6::varchar "
        + " ) "
        + " or "
        + " ( "
        + " m.attributes->>($7::varchar) = $8::varchar "
        + " ) "
        + " and m.content_type in ($9, $10) "
        + " order by lower(m.name) asc "
        + " offset $11"
        + " limit $12";
    assert_eq!(sql, expected);
    assert_eq!(
        values,
        vec![
            SqlParam::CategoryId(0),
            SqlParam::CategoryId(1),
            SqlParam::AttributeKey(0, 0),
            SqlParam::AttributeValue(0, 0),
            SqlParam::AttributeKey(0, 1),
            SqlParam::AttributeValue(0, 1),
            SqlParam::AttributeKey(2, 0),
            SqlParam::AttributeValue(2, 0),
            SqlParam::ContentType(0),
            SqlParam::ContentType(1),
            SqlParam::Offset,
            SqlParam::Limit,
        ]
    );
    assert!(names.is_empty());
}

#[test]
fn find_args_count_stops_before_ordering_and_paging() {
    let mut fq = empty_query();
    fq.content_types = Some(vec!["a".to_string()]);
    fq.ordering = Some(vec![path_ordering(&["x"], Order::Ascending, None, None)]);
    fq.offset = Some(1);
    fq.limit = Some(2);
    let mut names = Vec::new();
    let (count_sql, count_values) =
        build_find_args("metadata", "select count(*) from metadata m", "m", "m.attributes", "ci.attributes", &fq, &None, true, &mut names);
    assert_eq!(count_sql, "select count(*) from metadata m where m.deleted = false  and m.content_type in ($1) ");
    assert_eq!(count_values, vec![SqlParam::ContentType(0)]);
    assert!(names.is_empty());

    let (list_sql, list_values) =
        build_find_args("metadata", "select count(*) from metadata m", "m", "m.attributes", "ci.attributes", &fq, &None, false, &mut names);
    assert!(list_sql.starts_with(&count_sql));
    assert!(list_values.starts_with(&count_values));
    assert_eq!(
        list_sql,
        "select count(*) from metadata m where m.deleted = false  and m.content_type in ($1) order by (ci.attributes->>$2)::varchar asc offset $3 limit $4"
    );
    assert_eq!(list_values, vec![SqlParam::ContentType(0), SqlParam::OrderingName(0), SqlParam::Offset, SqlParam::Limit]);
    assert_eq!(names, vec!["x"]);
}

#[test]
fn find_args_collection_type_only_for_collections() {
    let mut fq = empty_query();
    fq.collection_type = Some(CollectionType::Folder);
    fq.extension_filter = Some(ExtensionFilterType::CollectionTemplate);
    let mut names = Vec::new();
    let (sql, values) = build_find_args("collection", "q", "c", "c.attributes", "ci.attributes", &fq, &Some(vec![]), true, &mut names);
    assert_eq!(
        sql,
        "q inner join collection_templates ct on (c.id = ct.metadata_id and c.version = ct.version)  where c.deleted = false  and c.type = $1 "
    );
    assert_eq!(values, vec![SqlParam::CollectionType]);
    let (sql, values) = build_find_args("metadata", "q", "c", "c.attributes", "ci.attributes", &fq, &None, true, &mut names);
    assert_eq!(
        sql,
        "q inner join collection_templates ct on (c.id = ct.metadata_id and c.version = ct.version)  where c.deleted = false "
    );
    assert!(values.is_empty());
}

#[test]
fn find_args_extension_joins() {
    let cases = [
        (ExtensionFilterType::DocumentTemplate, " inner join document_templates dt on (m.id = dt.metadata_id and m.version = dt.version) "),
        (ExtensionFilterType::Guide, " inner join guides g on (m.id = g.metadata_id and m.version = g.version) "),
        (ExtensionFilterType::GuideTemplate, " inner join guide_templates gt on (m.id = gt.metadata_id and m.version = gt.version) "),
    ];
    for (filter, join) in cases {
        let mut fq = empty_query();
        fq.extension_filter = Some(filter);
        let mut names = Vec::new();
        let (sql, _) = build_find_args("metadata", "q", "m", "a", "b", &fq, &None, true, &mut names);
        assert_eq!(sql, format!("q{} where m.deleted = false ", join));
    }
}

#[test]
fn find_args_skip_empty_attribute_groups_and_content_types() {
    let mut fq = empty_query();
    fq.attributes = vec![attrs(&[]), attrs(&[])];
    fq.content_types = Some(vec![]);
    let mut names = Vec::new();
    let (sql, values) = build_find_args("metadata", "q", "m", "a", "b", &fq, &None, false, &mut names);
    assert_eq!(sql, "q where m.deleted = false  order by lower(m.name) asc ");
    assert!(values.is_empty());
}

#[test]
fn find_args_or_follows_group_position() {
    let mut fq = empty_query();
    fq.attributes = vec![attrs(&[]), attrs(&[("k", "v")])];
    let mut names = Vec::new();
    let (sql, values) = build_find_args("metadata", "q", "m", "a", "b", &fq, &None, true, &mut names);
    assert_eq!(sql, "q where m.deleted = false  and  or  (  m.attributes->>($1::varchar) = $2::varchar  ) ");
    assert_eq!(values, vec![SqlParam::AttributeKey(1, 0), SqlParam::AttributeValue(1, 0)]);
}

fn placeholder_numbers(sql: &str) -> Vec<usize> {
    let chars: Vec<char> = sql.chars().collect();
    let mut out = Vec::new();
    let mut i = 0;
    while i < chars.len() {
        if chars[i] == '$' {
            let mut j = i + 1;
            let mut n = 0usize;
            while j < chars.len() && chars[j].is_ascii_digit() {
                n = n * 10 + chars[j].to_digit(10).unwrap() as usize;
                j += 1;
            }
            out.push(n);
            i = j;
        } else {
            i += 1;
        }
    }
    out
}

#[test]
fn placeholders_run_in_order_of_appearance() {
    let mut fq = empty_query();
    fq.attributes = vec![attrs(&[("k1", "v1")])];
    fq.content_types = Some(vec!["a".to_string(), "b".to_string()]);
    fq.ordering = Some(vec![
        path_ordering(&["x", "y"], Order::Ascending, None, None),
        field_ordering("created", Order::Descending),
        path_ordering(&["z"], Order::Descending, None, None),
    ]);
    fq.offset = Some(5);
    fq.limit = Some(6);
    let categories = Some(vec![7u128; 10]);
    let mut names = Vec::new();
    let (sql, values) = build_find_args(
        "metadata",
        "select m.* from metadata m",
        "m",
        "m.attributes",
        "ci.attributes",
        &fq,
        &categories,
        false,
        &mut names,
    );
    let expected: Vec<usize> = (1..=values.len()).collect();
    assert_eq!(values.len(), 19);
    assert_eq!(placeholder_numbers(&sql), expected);
    let (count_sql, count_values) = build_find_args(
        "metadata",
        "select count(*) from metadata m",
        "m",
        "m.attributes",
        "ci.attributes",
        &fq,
        &categories,
        true,
        &mut names,
    );
    let expected: Vec<usize> = (1..=count_values.len()).collect();
    assert_eq!(placeholder_numbers(&count_sql), expected);
}

#[test]
fn empty_category_list_is_like_none() {
    let mut fq = empty_query();
    fq.content_types = Some(vec!["a".to_string()]);
    fq.limit = Some(3);
    let mut names = Vec::new();
    let with_empty = build_find_args("metadata", "select m.* from metadata m", "m", "m.attributes", "ci.attributes", &fq, &Some(vec![]), false, &mut names);
    let with_none = build_find_args("metadata", "select m.* from metadata m", "m", "m.attributes", "ci.attributes", &fq, &None, false, &mut names);
    assert_eq!(with_empty, with_none);
    assert!(!with_empty.0.contains("_categories as cid"));
    // one content type and a limit: two parameters
    assert_eq!(with_empty.1.len(), 2);
}
