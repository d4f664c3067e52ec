use vstd::prelude::*;
use crate::query::{
    arrows_sql, attribute_condition_sql, attribute_group_sql, attribute_groups_acc, attribute_type_sql,
    category_joins_sql, content_type_list_sql, extension_join_sql, location_column, order_sql, ordering_acc,
    ordering_expr_sql, ordering_skipped, where_sql, AttributeType, ContentOrdering, ExtensionFilterType,
    FindAttributes, find_filter_state, find_state, st_attributes, st_categories, st_collection_type,
    st_content_types, st_ordering, st_paging, law_placeholders_bind_parameters, SqlParam,
    FindQueryInput, SqlState, CollectionType,
};
use crate::text::decimal;

verus! {

/// Whether a character is a decimal digit.
pub open spec fn is_digit(c: char) -> bool {
    '0' <= c && c <= '9'
}

/// Text without a `$`.
pub open spec fn dollar_free(t: Seq<char>) -> bool {
    forall|i: int| 0 <= i < t.len() ==> #[trigger] t[i] != '$'
}

/// Text that can follow a placeholder without changing it: no `$`, and no
/// digit first.
pub open spec fn plain(t: Seq<char>) -> bool {
    dollar_free(t) && (t.len() == 0 || !is_digit(t[0]))
}

/// The pieces of text between placeholders joined by `$start`,
/// `$(start+1)`, ... in order.
pub open spec fn render(segs: Seq<Seq<char>>, start: int) -> Seq<char>
    decreases segs.len(),
{
    if segs.len() == 0 {
        Seq::empty()
    } else if segs.len() == 1 {
        segs[0]
    } else {
        render(segs.drop_last(), start) + "$"@ + decimal(start + segs.len() - 2) + segs.last()
    }
}

/// Pieces that hold no `$`, each after the first starting with no digit, so
/// that the placeholders between them read as written.
pub open spec fn segs_ok(segs: Seq<Seq<char>>) -> bool {
    &&& segs.len() >= 1
    &&& forall|j: int| 0 <= j < segs.len() ==> dollar_free(#[trigger] segs[j])
    &&& forall|j: int| 1 <= j < segs.len() ==> plain(#[trigger] segs[j])
}

/// The placeholders of `t` are `$start`, `$(start+1)`, ..., `$(end-1)`, each
/// once and in this order, and no other `$` occurs in it.
#[verifier::opaque]
pub open spec fn numbered(t: Seq<char>, start: int, end: int) -> bool {
    exists|segs: Seq<Seq<char>>| segs.len() == end - start + 1 && segs_ok(segs) && #[trigger] render(segs, start) == t
}

proof fn lemma_dollar_char()
    ensures
        "$"@ == seq!['$'],
{
    reveal_strlit("$");
}

proof fn lemma_render_extend_last(segs: Seq<Seq<char>>, start: int, x: Seq<char>)
    requires
        segs.len() >= 1,
    ensures
        render(segs.update(segs.len() - 1, segs.last() + x), start) == render(segs, start) + x,
{
    let u = segs.update(segs.len() - 1, segs.last() + x);
    if segs.len() == 1 {
        assert(u[0] == segs[0] + x);
    } else {
        assert(u.drop_last() =~= segs.drop_last());
        assert(render(u, start) =~= render(segs, start) + x);
    }
}

proof fn lemma_render_first(segs: Seq<Seq<char>>, start: int)
    requires
        segs.len() >= 1,
    ensures
        segs[0].is_prefix_of(render(segs, start)),
    decreases segs.len(),
{
    if segs.len() > 1 {
        lemma_render_first(segs.drop_last(), start);
        let r = render(segs.drop_last(), start);
        assert(render(segs, start) =~= r + ("$"@ + decimal(start + segs.len() - 2) + segs.last()));
        assert(render(segs, start).subrange(0, segs[0].len() as int) =~= r.subrange(0, segs[0].len() as int));
    }
}

/// Joining `a`, numbered from `s` to `m`, and `b`, numbered from `m` to
/// `e`, where `b` does not start with a digit.
proof fn lemma_join(a: Seq<Seq<char>>, b: Seq<Seq<char>>, s: int)
    requires
        segs_ok(a),
        segs_ok(b),
        render(b, s + a.len() - 1).len() == 0 || !is_digit(render(b, s + a.len() - 1)[0]),
    ensures
        segs_ok(a.drop_last().push(a.last() + b[0]) + b.drop_first()),
        render(a.drop_last().push(a.last() + b[0]) + b.drop_first(), s) == render(a, s) + render(b, s + a.len() - 1),
    decreases b.len(),
{
    let c = a.drop_last().push(a.last() + b[0]) + b.drop_first();
    let m = s + a.len() - 1;
    lemma_render_first(b, m);
    if b[0].len() > 0 {
        assert(render(b, m)[0] == b[0][0]);
    }
    assert(dollar_free(a.last() + b[0]));
    if a.len() >= 2 {
        assert(plain(a.last()));
        assert(plain(a.last() + b[0]));
    }
    assert forall|j: int| 0 <= j < c.len() implies dollar_free(#[trigger] c[j]) by {
        if j < a.len() - 1 {
            assert(c[j] == a[j]);
        } else if j > a.len() - 1 {
            assert(c[j] == b[j - a.len() + 1]);
        }
    }
    assert forall|j: int| 1 <= j < c.len() implies plain(#[trigger] c[j]) by {
        if j < a.len() - 1 {
            assert(c[j] == a[j]);
        } else if j > a.len() - 1 {
            assert(c[j] == b[j - a.len() + 1]);
        }
    }
    if b.len() == 1 {
        assert(c =~= a.update(a.len() - 1, a.last() + b[0]));
        lemma_render_extend_last(a, s, b[0]);
    } else {
        let b1 = b.drop_last();
        assert(segs_ok(b1)) by {
            assert forall|j: int| 0 <= j < b1.len() implies dollar_free(#[trigger] b1[j]) by {
                assert(b1[j] == b[j]);
            }
            assert forall|j: int| 1 <= j < b1.len() implies plain(#[trigger] b1[j]) by {
                assert(b1[j] == b[j]);
            }
        }
        lemma_render_first(b1, m);
        if b1[0].len() > 0 {
            assert(render(b1, m)[0] == b1[0][0]);
            assert(b1[0][0] == b[0][0]);
        }
        lemma_join(a, b1, s);
        let c1 = a.drop_last().push(a.last() + b1[0]) + b1.drop_first();
        assert(c =~= c1.push(b.last()));
        assert(c.drop_last() =~= c1);
        assert(render(c, s) =~= render(c1, s) + "$"@ + decimal(s + c.len() - 2) + c.last());
        assert(render(b, m) =~= render(b1, m) + "$"@ + decimal(m + b.len() - 2) + b.last());
        assert(render(c, s) =~= render(a, s) + render(b, m));
    }
}

/// Text without `$` holds no placeholder.
pub proof fn lemma_numbered_plain(t: Seq<char>, s: int)
    requires
        dollar_free(t),
    ensures
        numbered(t, s, s),
{
    reveal(numbered);
    let segs = seq![t];
    assert(render(segs, s) == t);
    assert(segs_ok(segs));
}

/// `$m` alone is the placeholder numbered `m`.
pub proof fn lemma_numbered_mark(m: int)
    ensures
        numbered("$"@ + decimal(m), m, m + 1),
{
    reveal(numbered);
    let segs = seq![Seq::<char>::empty(), Seq::<char>::empty()];
    assert(segs.drop_last() =~= seq![Seq::<char>::empty()]);
    assert(render(segs.drop_last(), m) == Seq::<char>::empty());
    assert(render(segs, m) =~= "$"@ + decimal(m));
    assert(segs_ok(segs));
}

/// Numbered text followed by numbered text that starts with no digit.
pub proof fn lemma_numbered_concat(a: Seq<char>, b: Seq<char>, s: int, m: int, e: int)
    requires
        numbered(a, s, m),
        numbered(b, m, e),
        b.len() == 0 || !is_digit(b[0]),
    ensures
        numbered(a + b, s, e),
{
    reveal(numbered);
    let sa = choose|segs: Seq<Seq<char>>| segs.len() == m - s + 1 && segs_ok(segs) && #[trigger] render(segs, s) == a;
    let sb = choose|segs: Seq<Seq<char>>| segs.len() == e - m + 1 && segs_ok(segs) && #[trigger] render(segs, m) == b;
    lemma_join(sa, sb, s);
    let c = sa.drop_last().push(sa.last() + sb[0]) + sb.drop_first();
    assert(render(c, s) == a + b);
}

/// Numbered text followed by plain text.
pub proof fn lemma_numbered_then_plain(a: Seq<char>, t: Seq<char>, s: int, m: int)
    requires
        numbered(a, s, m),
        plain(t),
    ensures
        numbered(a + t, s, m),
{
    lemma_numbered_plain(t, m);
    lemma_numbered_concat(a, t, s, m, m);
}

/// Numbered text followed by the next placeholder.
pub proof fn lemma_numbered_then_mark(a: Seq<char>, s: int, m: int)
    requires
        numbered(a, s, m),
    ensures
        numbered(a + ("$"@ + decimal(m)), s, m + 1),
        starts_plain("$"@ + decimal(m)),
{
    lemma_numbered_mark(m);
    lemma_dollar_char();
    assert(("$"@ + decimal(m))[0] == '$');
    lemma_numbered_concat(a, "$"@ + decimal(m), s, m, m + 1);
}

/// Plain text followed by text without `$` is plain.
pub proof fn lemma_plain_concat(a: Seq<char>, b: Seq<char>)
    requires
        plain(a),
        dollar_free(b),
        a.len() > 0 || plain(b),
    ensures
        plain(a + b),
{
    assert forall|i: int| 0 <= i < (a + b).len() implies #[trigger] (a + b)[i] != '$' by {
        if i < a.len() {
            assert((a + b)[i] == a[i]);
        } else {
            assert((a + b)[i] == b[i - a.len()]);
        }
    }
    if a.len() > 0 {
        assert((a + b)[0] == a[0]);
    }
}

/// Text that starts with no digit.
pub open spec fn starts_plain(t: Seq<char>) -> bool {
    t.len() == 0 || !is_digit(t[0])
}

proof fn lemma_starts_concat(a: Seq<char>, b: Seq<char>)
    requires
        starts_plain(a),
        starts_plain(b),
    ensures
        starts_plain(a + b),
{
    if a.len() > 0 {
        assert((a + b)[0] == a[0]);
    } else {
        assert(a + b =~= b);
    }
}

proof fn lemma_plain2(a: Seq<char>, b: Seq<char>)
    requires
        plain(a),
        plain(b),
    ensures
        plain(a + b),
{
    if a.len() == 0 {
        assert(a + b =~= b);
    } else {
        lemma_plain_concat(a, b);
    }
}

proof fn lemma_plain3(a: Seq<char>, b: Seq<char>, c: Seq<char>)
    requires
        plain(a),
        plain(b),
        plain(c),
    ensures
        plain(a + b + c),
{
    lemma_plain2(a, b);
    lemma_plain2(a + b, c);
}

proof fn lemma_category_lits()
    ensures
        plain(" inner join "@),
        plain("_categories as cid on (cid."@),
        plain("_id = "@),
        plain(".id and cid.category_id = "@),
        ".id and cid.category_id = $"@ == ".id and cid.category_id = "@ + "$"@,
        plain(") "@),
        " inner join "@[0] == ' ',
{
    reveal_strlit(" inner join ");
    reveal_strlit("_categories as cid on (cid.");
    reveal_strlit("_id = ");
    reveal_strlit(".id and cid.category_id = ");
    reveal_strlit(".id and cid.category_id = $");
    reveal_strlit(") ");
    reveal_strlit("$");
    assert(".id and cid.category_id = $"@ =~= ".id and cid.category_id = "@ + "$"@);
}

/// The category joins number their placeholders from `pos`, one per join.
pub proof fn lemma_category_joins_numbered(base: Seq<char>, alias: Seq<char>, pos: int, k: nat)
    requires
        plain(base),
        plain(alias),
    ensures
        numbered(category_joins_sql(base, alias, pos, k), pos, pos + k),
        starts_plain(category_joins_sql(base, alias, pos, k)),
    decreases k,
{
    if k == 0 {
        lemma_numbered_plain(Seq::empty(), pos);
    } else {
        lemma_category_joins_numbered(base, alias, pos, (k - 1) as nat);
        let prev = category_joins_sql(base, alias, pos, (k - 1) as nat);
        lemma_category_lits();
        let t1 = " inner join "@ + base + "_categories as cid on (cid."@;
        let t2 = base + "_id = "@ + alias;
        let t = t1 + t2 + ".id and cid.category_id = "@;
        lemma_plain3(" inner join "@, base, "_categories as cid on (cid."@);
        lemma_plain3(base, "_id = "@, alias);
        lemma_plain3(t1, t2, ".id and cid.category_id = "@);
        lemma_numbered_then_plain(prev, t, pos, pos + k - 1);
        lemma_numbered_then_mark(prev + t, pos, pos + k - 1);
        lemma_numbered_then_plain(prev + t + ("$"@ + decimal(pos + k - 1)), ") "@, pos, pos + k);
        assert(category_joins_sql(base, alias, pos, k) =~= prev + t + ("$"@ + decimal(pos + k - 1)) + ") "@);
        let rest = t + ("$"@ + decimal(pos + k - 1)) + ") "@;
        lemma_starts_concat(t, "$"@ + decimal(pos + k - 1));
        lemma_starts_concat(t + ("$"@ + decimal(pos + k - 1)), ") "@);
        assert(category_joins_sql(base, alias, pos, k) =~= prev + rest);
        lemma_starts_concat(prev, rest);
    }
}

proof fn lemma_attribute_lits()
    ensures
        plain(" "@),
        plain(".attributes->>("@),
        ".attributes->>($"@ == ".attributes->>("@ + "$"@,
        plain("::varchar) = "@),
        "::varchar) = $"@ == "::varchar) = "@ + "$"@,
        plain("::varchar "@),
        plain(" and "@),
        plain(" or "@),
        plain(" ( "@),
        plain(" ) "@),
        " "@[0] == ' ',
        " and "@[0] == ' ',
        " or "@[0] == ' ',
        " ( "@[0] == ' ',
{
    reveal_strlit(" ");
    reveal_strlit(".attributes->>(");
    reveal_strlit(".attributes->>($");
    reveal_strlit("::varchar) = ");
    reveal_strlit("::varchar) = $");
    reveal_strlit("::varchar ");
    reveal_strlit(" and ");
    reveal_strlit(" or ");
    reveal_strlit(" ( ");
    reveal_strlit(" ) ");
    reveal_strlit("$");
    assert(".attributes->>($"@ =~= ".attributes->>("@ + "$"@);
    assert("::varchar) = $"@ =~= "::varchar) = "@ + "$"@);
}

/// One attribute condition holds the placeholders `pos` and `pos + 1`.
proof fn lemma_attribute_condition_numbered(alias: Seq<char>, pos: int)
    requires
        plain(alias),
    ensures
        numbered(attribute_condition_sql(alias, pos), pos, pos + 2),
        starts_plain(attribute_condition_sql(alias, pos)),
{
    lemma_attribute_lits();
    let t = " "@ + alias + ".attributes->>("@;
    lemma_plain3(" "@, alias, ".attributes->>("@);
    lemma_numbered_plain(t, pos);
    lemma_numbered_then_mark(t, pos, pos);
    let a = t + ("$"@ + decimal(pos));
    lemma_numbered_then_plain(a, "::varchar) = "@, pos, pos + 1);
    lemma_numbered_then_mark(a + "::varchar) = "@, pos, pos + 1);
    let b = a + "::varchar) = "@ + ("$"@ + decimal(pos + 1));
    lemma_numbered_then_plain(b, "::varchar "@, pos, pos + 2);
    assert(attribute_condition_sql(alias, pos) =~= b + "::varchar "@);
    lemma_starts_concat(t, "$"@ + decimal(pos));
    lemma_starts_concat(a, "::varchar) = "@);
    lemma_starts_concat(a + "::varchar) = "@, "$"@ + decimal(pos + 1));
    lemma_starts_concat(b, "::varchar "@);
}

/// The conditions of an attribute group number their placeholders from
/// `pos`, two per condition.
proof fn lemma_attribute_group_numbered(alias: Seq<char>, pos: int, k: nat)
    requires
        plain(alias),
    ensures
        numbered(attribute_group_sql(alias, pos, k), pos, pos + 2 * k),
        starts_plain(attribute_group_sql(alias, pos, k)),
    decreases k,
{
    if k == 0 {
        lemma_numbered_plain(Seq::empty(), pos);
    } else {
        lemma_attribute_group_numbered(alias, pos, (k - 1) as nat);
        lemma_attribute_lits();
        let prev = attribute_group_sql(alias, pos, (k - 1) as nat);
        let sep = if k > 1 { " and "@ } else { Seq::<char>::empty() };
        let c = attribute_condition_sql(alias, pos + 2 * (k - 1));
        lemma_attribute_condition_numbered(alias, pos + 2 * (k - 1));
        lemma_numbered_then_plain(prev, sep, pos, pos + 2 * (k - 1));
        lemma_numbered_concat(prev + sep, c, pos, pos + 2 * (k - 1), pos + 2 * k);
        lemma_starts_concat(prev, sep);
        lemma_starts_concat(prev + sep, c);
    }
}

/// The attribute groups number their placeholders from `pos` on, up to the
/// next free number.
proof fn lemma_attribute_groups_numbered(alias: Seq<char>, groups: Seq<FindAttributes>, pos: int)
    requires
        plain(alias),
    ensures
        numbered(attribute_groups_acc(alias, groups, pos).0, pos, attribute_groups_acc(alias, groups, pos).1),
        starts_plain(attribute_groups_acc(alias, groups, pos).0),
    decreases groups.len(),
{
    if groups.len() == 0 {
        lemma_numbered_plain(Seq::empty(), pos);
    } else {
        lemma_attribute_groups_numbered(alias, groups.drop_last(), pos);
        let prev = attribute_groups_acc(alias, groups.drop_last(), pos);
        let i = groups.len() - 1;
        let k = groups.last().attributes@.len();
        if k > 0 {
            lemma_attribute_lits();
            let sep = if i > 0 { " or "@ } else { Seq::<char>::empty() };
            lemma_plain2(sep, " ( "@);
            let open = sep + " ( "@;
            lemma_numbered_then_plain(prev.0, open, pos, prev.1);
            lemma_attribute_group_numbered(alias, prev.1, k);
            let g = attribute_group_sql(alias, prev.1, k);
            lemma_numbered_concat(prev.0 + open, g, pos, prev.1, prev.1 + 2 * k);
            lemma_numbered_then_plain(prev.0 + open + g, " ) "@, pos, prev.1 + 2 * k);
            assert(attribute_groups_acc(alias, groups, pos).0 =~= prev.0 + open + g + " ) "@);
            assert(open[0] == ' ');
            lemma_starts_concat(prev.0, open);
            lemma_starts_concat(prev.0 + open, g);
            lemma_starts_concat(prev.0 + open + g, " ) "@);
        }
    }
}

proof fn lemma_content_type_lits()
    ensures
        plain(", "@),
        ", "@[0] == ',',
{
    reveal_strlit(", ");
}

/// The content type list numbers its placeholders from `pos`, one per type.
proof fn lemma_content_type_list_numbered(pos: int, k: nat)
    ensures
        numbered(content_type_list_sql(pos, k), pos, pos + k),
        starts_plain(content_type_list_sql(pos, k)),
    decreases k,
{
    if k == 0 {
        lemma_numbered_plain(Seq::empty(), pos);
    } else {
        lemma_content_type_list_numbered(pos, (k - 1) as nat);
        lemma_content_type_lits();
        lemma_dollar_char();
        let prev = content_type_list_sql(pos, (k - 1) as nat);
        let sep = if k > 1 { ", "@ } else { Seq::<char>::empty() };
        lemma_numbered_then_plain(prev, sep, pos, pos + k - 1);
        lemma_numbered_then_mark(prev + sep, pos, pos + k - 1);
        assert(content_type_list_sql(pos, k) =~= prev + sep + ("$"@ + decimal(pos + k - 1)));
        assert(("$"@ + decimal(pos + k - 1))[0] == '$');
        lemma_starts_concat(prev, sep);
        lemma_starts_concat(prev + sep, "$"@ + decimal(pos + k - 1));
    }
}

proof fn lemma_ordering_lits()
    ensures
        plain("order by "@),
        "order by "@.len() > 0,
        plain(", "@),
        plain("("@),
        "("@.len() > 0,
        plain("->>"@),
        "->>$"@ == "->>"@ + "$"@,
        plain(")::"@),
        plain("."@),
        plain(" "@),
        plain("asc"@),
        plain("desc"@),
        plain("varchar"@),
        plain("bigint"@),
        plain("double precision"@),
        plain("int"@),
        plain("uuid"@),
{
    reveal_strlit("order by ");
    reveal_strlit(", ");
    reveal_strlit("(");
    reveal_strlit("->>");
    reveal_strlit("->>$");
    reveal_strlit("$");
    reveal_strlit(")::");
    reveal_strlit(".");
    reveal_strlit(" ");
    reveal_strlit("asc");
    reveal_strlit("desc");
    reveal_strlit("varchar");
    reveal_strlit("bigint");
    reveal_strlit("double precision");
    reveal_strlit("int");
    reveal_strlit("uuid");
    assert("->>$"@ =~= "->>"@ + "$"@);
}

proof fn lemma_arrows_numbered(index: int, k: nat)
    ensures
        numbered(arrows_sql(index, k), index, index + k),
        starts_plain(arrows_sql(index, k)),
    decreases k,
{
    lemma_ordering_lits();
    if k == 0 {
        lemma_numbered_plain(Seq::empty(), index);
    } else {
        lemma_arrows_numbered(index, (k - 1) as nat);
        let prev = arrows_sql(index, (k - 1) as nat);
        lemma_numbered_then_plain(prev, "->>"@, index, index + k - 1);
        lemma_numbered_then_mark(prev + "->>"@, index, index + k - 1);
        assert(arrows_sql(index, k) =~= prev + "->>"@ + ("$"@ + decimal(index + k - 1)));
        lemma_starts_concat(prev, "->>"@);
        lemma_starts_concat(prev + "->>"@, "$"@ + decimal(index + k - 1));
    }
}

/// The criteria of an ordering whose field names hold no `$` and start
/// with no digit.
pub open spec fn fields_plain(items: Seq<ContentOrdering>) -> bool {
    forall|i: int| 0 <= i < items.len() ==> ((#[trigger] items[i]).field matches Some(f) ==> plain(f@))
}

proof fn lemma_attribute_type_plain(t: AttributeType)
    ensures
        plain(attribute_type_sql(t)),
{
    lemma_ordering_lits();
}

proof fn lemma_expr_numbered(o: ContentOrdering, alias: Seq<char>, item_col: Seq<char>, rel_col: Seq<char>, index: int)
    requires
        plain(alias),
        plain(item_col),
        plain(rel_col),
        !ordering_skipped(o),
        o.field matches Some(f) ==> plain(f@),
    ensures
        numbered(
            ordering_expr_sql(o, alias, item_col, rel_col, index),
            index,
            index + (match o.path {
                Some(p) => p@.len() as int,
                None => 0int,
            }),
        ),
        starts_plain(ordering_expr_sql(o, alias, item_col, rel_col, index)),
{
    lemma_ordering_lits();
    match o.path {
        Some(p) => {
            let loc = location_column(o, item_col, rel_col);
            lemma_plain2("("@, loc);
            let a = "("@ + loc;
            lemma_numbered_plain(a, index);
            lemma_arrows_numbered(index, p@.len());
            let arrows = arrows_sql(index, p@.len());
            lemma_numbered_concat(a, arrows, index, index, index + p@.len());
            lemma_attribute_type_plain(if o.attribute_type is Some { o.attribute_type->0 } else { AttributeType::String });
            let ty = attribute_type_sql(
                if o.attribute_type is Some { o.attribute_type->0 } else { AttributeType::String },
            );
            lemma_plain2(")::"@, ty);
            lemma_numbered_then_plain(a + arrows, ")::"@ + ty, index, index + p@.len());
            assert(ordering_expr_sql(o, alias, item_col, rel_col, index) =~= a + arrows + (")::"@ + ty));
            lemma_starts_concat(a, arrows);
            lemma_starts_concat(a + arrows, ")::"@ + ty);
        },
        None => {
            let f = o.field->0;
            lemma_plain3(alias, "."@, f@);
            lemma_numbered_plain(alias + "."@ + f@, index);
        },
    }
}

/// An ordering numbers its placeholders from `start` up to the next free
/// number.
pub proof fn lemma_ordering_numbered(
    items: Seq<ContentOrdering>,
    alias: Seq<char>,
    item_col: Seq<char>,
    rel_col: Seq<char>,
    start: int,
)
    requires
        plain(alias),
        plain(item_col),
        plain(rel_col),
        fields_plain(items),
    ensures
        numbered(
            ordering_acc(items, alias, item_col, rel_col, start).0,
            start,
            ordering_acc(items, alias, item_col, rel_col, start).1,
        ),
        starts_plain(ordering_acc(items, alias, item_col, rel_col, start).0),
        !ordering_acc(items, alias, item_col, rel_col, start).4 ==> ordering_acc(items, alias, item_col, rel_col, start).1
            == start,
    decreases items.len(),
{
    lemma_ordering_lits();
    if items.len() == 0 {
        lemma_numbered_plain("order by "@, start);
    } else {
        let d = items.drop_last();
        assert(fields_plain(d)) by {
            assert forall|i: int| 0 <= i < d.len() implies ((#[trigger] d[i]).field matches Some(f) ==> plain(f@)) by {
                assert(d[i] == items[i]);
            }
        }
        lemma_ordering_numbered(d, alias, item_col, rel_col, start);
        let prev = ordering_acc(d, alias, item_col, rel_col, start);
        let o = items.last();
        assert(items[items.len() - 1] == o);
        if !ordering_skipped(o) {
            let i = items.len() - 1;
            let sep = if i > 0 { ", "@ } else { Seq::<char>::empty() };
            lemma_numbered_then_plain(prev.0, sep, start, prev.1);
            lemma_expr_numbered(o, alias, item_col, rel_col, prev.1);
            let e = ordering_expr_sql(o, alias, item_col, rel_col, prev.1);
            let k: int = match o.path {
                Some(p) => p@.len() as int,
                None => 0int,
            };
            lemma_numbered_concat(prev.0 + sep, e, start, prev.1, prev.1 + k);
            lemma_plain2(" "@, order_sql(o.order));
            lemma_numbered_then_plain(prev.0 + sep + e, " "@ + order_sql(o.order), start, prev.1 + k);
            assert(ordering_acc(items, alias, item_col, rel_col, start).0 =~= prev.0 + sep + e + (" "@ + order_sql(
                o.order,
            )));
            lemma_starts_concat(prev.0, sep);
            lemma_starts_concat(prev.0 + sep, e);
            lemma_starts_concat(prev.0 + sep + e, " "@ + order_sql(o.order));
        }
    }
}

proof fn lemma_extension_lits()
    ensures
        plain(" inner join documents d on ("@),
        plain(".id = d.metadata_id and "@),
        plain(".version = d.version) "@),
        plain(" inner join document_templates dt on ("@),
        plain(".id = dt.metadata_id and "@),
        plain(".version = dt.version) "@),
        plain(" inner join guides g on ("@),
        plain(".id = g.metadata_id and "@),
        plain(".version = g.version) "@),
        plain(" inner join guide_templates gt on ("@),
        plain(".id = gt.metadata_id and "@),
        plain(".version = gt.version) "@),
        plain(" inner join collection_templates ct on ("@),
        plain(".id = ct.metadata_id and "@),
        plain(".version = ct.version) "@),
        plain(" where "@),
        plain(".deleted = false "@),
{
    reveal_strlit(" inner join documents d on (");
    reveal_strlit(".id = d.metadata_id and ");
    reveal_strlit(".version = d.version) ");
    reveal_strlit(" inner join document_templates dt on (");
    reveal_strlit(".id = dt.metadata_id and ");
    reveal_strlit(".version = dt.version) ");
    reveal_strlit(" inner join guides g on (");
    reveal_strlit(".id = g.metadata_id and ");
    reveal_strlit(".version = g.version) ");
    reveal_strlit(" inner join guide_templates gt on (");
    reveal_strlit(".id = gt.metadata_id and ");
    reveal_strlit(".version = gt.version) ");
    reveal_strlit(" inner join collection_templates ct on (");
    reveal_strlit(".id = ct.metadata_id and ");
    reveal_strlit(".version = ct.version) ");
    reveal_strlit(" where ");
    reveal_strlit(".deleted = false ");
}

proof fn lemma_plain5(a: Seq<char>, b: Seq<char>, c: Seq<char>, d: Seq<char>, e: Seq<char>)
    requires
        plain(a),
        plain(b),
        plain(c),
        plain(d),
        plain(e),
    ensures
        plain(a + b + c + d + e),
{
    lemma_plain3(a, b, c);
    lemma_plain3(a + b + c, d, e);
}

/// The extension join and the deleted condition hold no placeholder.
pub proof fn lemma_joins_plain(filter: Option<ExtensionFilterType>, alias: Seq<char>)
    requires
        plain(alias),
    ensures
        plain(extension_join_sql(filter, alias)),
        plain(where_sql(alias)),
{
    lemma_extension_lits();
    lemma_plain3(" where "@, alias, ".deleted = false "@);
    match filter {
        Some(ExtensionFilterType::Document) => lemma_plain5(
            " inner join documents d on ("@,
            alias,
            ".id = d.metadata_id and "@,
            alias,
            ".version = d.version) "@,
        ),
        Some(ExtensionFilterType::DocumentTemplate) => lemma_plain5(
            " inner join document_templates dt on ("@,
            alias,
            ".id = dt.metadata_id and "@,
            alias,
            ".version = dt.version) "@,
        ),
        Some(ExtensionFilterType::Guide) => lemma_plain5(
            " inner join guides g on ("@,
            alias,
            ".id = g.metadata_id and "@,
            alias,
            ".version = g.version) "@,
        ),
        Some(ExtensionFilterType::GuideTemplate) => lemma_plain5(
            " inner join guide_templates gt on ("@,
            alias,
            ".id = gt.metadata_id and "@,
            alias,
            ".version = gt.version) "@,
        ),
        Some(ExtensionFilterType::CollectionTemplate) => lemma_plain5(
            " inner join collection_templates ct on ("@,
            alias,
            ".id = ct.metadata_id and "@,
            alias,
            ".version = ct.version) "@,
        ),
        None => {},
    }
}

proof fn lemma_filter_lits()
    ensures
        plain(" and "@),
        plain(".type = "@),
        ".type = $"@ == ".type = "@ + "$"@,
        plain(" "@),
        plain(".content_type in ("@),
        plain(") "@),
        plain(" order by lower("@),
        plain(".name) asc "@),
        plain(" offset "@),
        " offset $"@ == " offset "@ + "$"@,
        plain(" limit "@),
        " limit $"@ == " limit "@ + "$"@,
{
    reveal_strlit(" and ");
    reveal_strlit(".type = ");
    reveal_strlit(".type = $");
    reveal_strlit(" ");
    reveal_strlit(".content_type in (");
    reveal_strlit(") ");
    reveal_strlit(" order by lower(");
    reveal_strlit(".name) asc ");
    reveal_strlit(" offset ");
    reveal_strlit(" offset $");
    reveal_strlit(" limit ");
    reveal_strlit(" limit $");
    reveal_strlit("$");
    assert(".type = $"@ =~= ".type = "@ + "$"@);
    assert(" offset $"@ =~= " offset "@ + "$"@);
    assert(" limit $"@ =~= " limit "@ + "$"@);
}

proof fn lemma_st_collection_type(st: SqlState, base: Seq<char>, alias: Seq<char>, ct: Option<CollectionType>)
    requires
        numbered(st.0, 1, st.1),
        plain(alias),
    ensures
        numbered(st_collection_type(st, base, alias, ct).0, 1, st_collection_type(st, base, alias, ct).1),
{
    if base == "collection"@ && ct is Some {
        lemma_filter_lits();
        lemma_attribute_lits();
        let t = " and "@ + alias + ".type = "@;
        lemma_plain3(" and "@, alias, ".type = "@);
        lemma_numbered_then_plain(st.0, t, 1, st.1);
        lemma_numbered_then_mark(st.0 + t, 1, st.1);
        lemma_numbered_then_plain(st.0 + t + ("$"@ + decimal(st.1)), " "@, 1, st.1 + 1);
        assert(st_collection_type(st, base, alias, ct).0 =~= st.0 + t + ("$"@ + decimal(st.1)) + " "@);
    }
}

proof fn lemma_st_attributes(st: SqlState, alias: Seq<char>, groups: Seq<FindAttributes>)
    requires
        numbered(st.0, 1, st.1),
        plain(alias),
    ensures
        numbered(st_attributes(st, alias, groups).0, 1, st_attributes(st, alias, groups).1),
{
    if st_attributes(st, alias, groups) != st {
        lemma_attribute_lits();
        let acc = attribute_groups_acc(alias, groups, st.1);
        lemma_attribute_groups_numbered(alias, groups, st.1);
        lemma_numbered_then_plain(st.0, " and "@, 1, st.1);
        lemma_numbered_concat(st.0 + " and "@, acc.0, 1, st.1, acc.1);
    }
}

proof fn lemma_st_content_types(st: SqlState, alias: Seq<char>, cts: Option<Vec<String>>)
    requires
        numbered(st.0, 1, st.1),
        plain(alias),
    ensures
        numbered(st_content_types(st, alias, cts).0, 1, st_content_types(st, alias, cts).1),
{
    match cts {
        Some(c) => {
            if c@.len() > 0 {
                lemma_filter_lits();
                lemma_attribute_lits();
                let t = " and "@ + alias + ".content_type in ("@;
                lemma_plain3(" and "@, alias, ".content_type in ("@);
                lemma_numbered_then_plain(st.0, t, 1, st.1);
                lemma_content_type_list_numbered(st.1, c@.len());
                let l = content_type_list_sql(st.1, c@.len());
                lemma_numbered_concat(st.0 + t, l, 1, st.1, st.1 + c@.len());
                lemma_numbered_then_plain(st.0 + t + l, ") "@, 1, st.1 + c@.len());
                assert(st_content_types(st, alias, cts).0 =~= st.0 + t + l + ") "@);
            }
        },
        None => {},
    }
}

/// The filters of a find statement number its placeholders from `$1` up to
/// the next free number.
proof fn lemma_filters_numbered(
    base: Seq<char>,
    query: Seq<char>,
    alias: Seq<char>,
    fq: FindQueryInput,
    category_ids: Option<Vec<u128>>,
)
    requires
        dollar_free(query),
        plain(base),
        plain(alias),
    ensures
        numbered(find_filter_state(base, query, alias, fq, category_ids).0, 1, find_filter_state(base, query, alias, fq, category_ids).1),
{
    let st0: SqlState = (query, 1int, Seq::<SqlParam>::empty());
    lemma_numbered_plain(query, 1);
    let st1 = st_categories(st0, base, alias, category_ids);
    match category_ids {
        Some(ids) => {
            if ids@.len() > 0 {
                lemma_category_joins_numbered(base, alias, 1, ids@.len());
                lemma_numbered_concat(query, category_joins_sql(base, alias, 1, ids@.len()), 1, 1, 1 + ids@.len() as int);
            }
        },
        None => {},
    }
    lemma_joins_plain(fq.extension_filter, alias);
    lemma_numbered_then_plain(st1.0, extension_join_sql(fq.extension_filter, alias), 1, st1.1);
    lemma_numbered_then_plain(st1.0 + extension_join_sql(fq.extension_filter, alias), where_sql(alias), 1, st1.1);
    let st2 = (st1.0 + extension_join_sql(fq.extension_filter, alias) + where_sql(alias), st1.1, st1.2);
    lemma_st_collection_type(st2, base, alias, fq.collection_type);
    let st3 = st_collection_type(st2, base, alias, fq.collection_type);
    lemma_st_attributes(st3, alias, fq.attributes@);
    let st4 = st_attributes(st3, alias, fq.attributes@);
    lemma_st_content_types(st4, alias, fq.content_types);
}

proof fn lemma_st_ordering(
    st: SqlState,
    alias: Seq<char>,
    item_col: Seq<char>,
    rel_col: Seq<char>,
    ordering: Option<Vec<ContentOrdering>>,
)
    requires
        numbered(st.0, 1, st.1),
        plain(alias),
        plain(item_col),
        plain(rel_col),
        ordering matches Some(o) ==> fields_plain(o@),
    ensures
        numbered(
            st_ordering(st, alias, item_col, rel_col, ordering).0,
            1,
            st_ordering(st, alias, item_col, rel_col, ordering).1,
        ),
{
    let so = st_ordering(st, alias, item_col, rel_col, ordering);
    match ordering {
        Some(o) => {
            let acc = ordering_acc(o@, alias, item_col, rel_col, st.1);
            lemma_ordering_numbered(o@, alias, item_col, rel_col, st.1);
            if acc.4 {
                lemma_numbered_concat(st.0, acc.0, 1, st.1, acc.1);
            } else {
                assert(so.0 =~= st.0);
            }
        },
        None => {
            lemma_filter_lits();
            lemma_plain3(" order by lower("@, alias, ".name) asc "@);
            lemma_numbered_then_plain(st.0, " order by lower("@ + alias + ".name) asc "@, 1, st.1);
            assert(so.0 =~= st.0 + (" order by lower("@ + alias + ".name) asc "@));
        },
    }
}

proof fn lemma_st_paging(st: SqlState, offset: Option<i64>, limit: Option<i64>)
    requires
        numbered(st.0, 1, st.1),
    ensures
        numbered(
            st_paging(st, offset, limit).0,
            1,
            st_paging(st, offset, limit).1 + (if limit is Some { 1int } else { 0int }),
        ),
{
    lemma_filter_lits();
    let st1 = if offset is Some {
        (st.0 + " offset $"@ + decimal(st.1), st.1 + 1, st.2.push(SqlParam::Offset))
    } else {
        st
    };
    if offset is Some {
        lemma_numbered_then_plain(st.0, " offset "@, 1, st.1);
        lemma_numbered_then_mark(st.0 + " offset "@, 1, st.1);
        assert(st1.0 =~= st.0 + " offset "@ + ("$"@ + decimal(st.1)));
    }
    if limit is Some {
        lemma_numbered_then_plain(st1.0, " limit "@, 1, st1.1);
        lemma_numbered_then_mark(st1.0 + " limit "@, 1, st1.1);
        assert(st1.0 + " limit $"@ + decimal(st1.1) =~= st1.0 + " limit "@ + ("$"@ + decimal(st1.1)));
    }
}

/// The placeholders of a find statement, and of its count statement, are
/// `$1`, `$2`, ... in the order in which they appear, each once, one per
/// parameter: no other `$` occurs and no digit follows one, so the `k`-th
/// placeholder binds the `k`-th parameter. This holds where the names spliced
/// into the statement (the statement's start, table, alias, columns and
/// ordering fields) hold no `$` and do not start with a digit.
pub proof fn law_placeholders_in_order(
    base: Seq<char>,
    query: Seq<char>,
    alias: Seq<char>,
    item_col: Seq<char>,
    rel_col: Seq<char>,
    fq: FindQueryInput,
    category_ids: Option<Vec<u128>>,
    count: bool,
)
    requires
        dollar_free(query),
        plain(base),
        plain(alias),
        plain(item_col),
        plain(rel_col),
        fq.ordering matches Some(o) ==> fields_plain(o@),
    ensures
        numbered(
            find_state(base, query, alias, item_col, rel_col, fq, category_ids, count).0,
            1,
            find_state(base, query, alias, item_col, rel_col, fq, category_ids, count).2.len() + 1int,
        ),
{
    law_placeholders_bind_parameters(base, query, alias, item_col, rel_col, fq, category_ids);
    lemma_filters_numbered(base, query, alias, fq, category_ids);
    if !count {
        let st = find_filter_state(base, query, alias, fq, category_ids);
        lemma_st_ordering(st, alias, item_col, rel_col, fq.ordering);
        lemma_st_paging(st_ordering(st, alias, item_col, rel_col, fq.ordering), fq.offset, fq.limit);
    }
}

} // verus!
