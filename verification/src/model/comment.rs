use vstd::prelude::*;

use crate::ctx::Ctx;
use crate::error::{EntityKind, Error};
use crate::model::base::{
    apply_fields, insert, delete_row, get_row, lemma_apply_fields_preserves_shape,
    lemma_ups_fit_concat, lemma_ups_fit_empty, lemma_ups_fit_single, now_utc_ts,
    prep_fields_for_create, prep_fields_for_update, shape_ok, stamp_fields_create,
    stamp_fields_update, up_fits, update_row, ups_fit_shape, value_type_ok, FieldType,
};
use crate::model::field::{
    fields_view, int_of, opt_int_of, text_of, Field, FieldV, FieldValue, FieldValueV,
};
use crate::model::filter::{
    apply_list_options, eval_int64_ops, eval_opt_int64_ops, eval_string_ops, int64_ops_match,
    opt_int64_ops_match, paginate, string_ops_match, ListOptions, OpValsInt64, OpValsString,
};
use crate::model::store::{
    find_index, lemma_find_index, row_with_id, table_has_id, ModelManager, Row, RowV,
    same_tables_except,
};

verus! {

// region: comment types

/// A stored comment row, as callers see it.
#[derive(Clone, Debug)]
pub struct Comment {
    pub id: i64,
    pub article_id: i64,
    pub user_id: i64,
    pub content: String,
    pub replay_to: Option<i64>,
    pub creation_time: i64,
    pub updated_time: i64,
}

/// The mathematical value of a `Comment`.
pub struct CommentV {
    pub id: i64,
    pub article_id: i64,
    pub user_id: i64,
    pub content: Seq<char>,
    pub replay_to: Option<i64>,
    pub creation_time: i64,
    pub updated_time: i64,
}

impl View for Comment {
    type V = CommentV;

    open spec fn view(&self) -> CommentV {
        CommentV {
            id: self.id,
            article_id: self.article_id,
            user_id: self.user_id,
            content: self.content@,
            replay_to: self.replay_to,
            creation_time: self.creation_time,
            updated_time: self.updated_time,
        }
    }
}

impl DeepView for Comment {
    type V = CommentV;

    open spec fn deep_view(&self) -> CommentV {
        self.view()
    }
}

/// What a caller provides to create a comment.
#[derive(Clone, Debug, Default)]
pub struct CommentForCreate {
    pub article_id: i64,
    pub user_id: i64,
    pub content: String,
    pub replay_to: Option<i64>,
}

/// What a caller provides to update a comment; only present fields change.
#[derive(Clone, Debug, Default)]
pub struct CommentForUpdate {
    pub content: Option<String>,
}

/// One filter group over comments: the conjunction of its present members.
#[derive(Clone, Debug, Default)]
pub struct CommentFilter {
    pub id: Option<OpValsInt64>,
    pub article_id: Option<OpValsInt64>,
    pub user_id: Option<OpValsInt64>,
    pub content: Option<OpValsString>,
    pub replay_to: Option<OpValsInt64>,
    pub creation_time: Option<OpValsInt64>,
}

// endregion

// region: the comment row shape

pub open spec fn comment_shape() -> Seq<(Seq<char>, FieldType)> {
    seq![
        ("article_id"@, FieldType::IntT),
        ("user_id"@, FieldType::IntT),
        ("content"@, FieldType::TextT),
        ("replay_to"@, FieldType::NullableIntT),
        ("creator_id"@, FieldType::IntT),
        ("creation_time"@, FieldType::IntT),
        ("updater_id"@, FieldType::IntT),
        ("updated_time"@, FieldType::IntT),
    ]
}

proof fn lemma_comment_name_facts()
    ensures
        "article_id"@.len() == 10,
        "user_id"@.len() == 7,
        "content"@.len() == 7,
        "replay_to"@.len() == 9,
        "creator_id"@.len() == 10,
        "creation_time"@.len() == 13,
        "updater_id"@.len() == 10,
        "updated_time"@.len() == 12,
        "content"@[0] == 'c',
        "user_id"@[0] == 'u',
{
    reveal_strlit("article_id");
    reveal_strlit("user_id");
    reveal_strlit("content");
    reveal_strlit("replay_to");
    reveal_strlit("creator_id");
    reveal_strlit("creation_time");
    reveal_strlit("updater_id");
    reveal_strlit("updated_time");
}

/// Every row of the comment table is comment-shaped.
pub open spec fn comment_rows_ok(t: Seq<RowV>) -> bool {
    forall|i: int| 0 <= i < t.len() ==> shape_ok(#[trigger] t[i].fields, comment_shape())
}

/// The comment a shaped row denotes.
pub open spec fn comment_of_row(r: RowV) -> CommentV {
    CommentV {
        id: r.id,
        article_id: int_of(r.fields[0].value),
        user_id: int_of(r.fields[1].value),
        content: text_of(r.fields[2].value),
        replay_to: opt_int_of(r.fields[3].value),
        creation_time: int_of(r.fields[5].value),
        updated_time: int_of(r.fields[7].value),
    }
}

fn comment_from_row(row: &Row) -> (a: Comment)
    requires
        shape_ok(row@.fields, comment_shape()),
    ensures
        a@ == comment_of_row(row@),
{
    proof {
        let fs = row@.fields;
        let sh = comment_shape();
        assert(fs[0].name == sh[0].0);
        assert(value_type_ok(fs[0].value, sh[0].1));
        assert(fs[1].name == sh[1].0);
        assert(value_type_ok(fs[1].value, sh[1].1));
        assert(fs[2].name == sh[2].0);
        assert(value_type_ok(fs[2].value, sh[2].1));
        assert(fs[3].name == sh[3].0);
        assert(value_type_ok(fs[3].value, sh[3].1));
        assert(fs[4].name == sh[4].0);
        assert(value_type_ok(fs[4].value, sh[4].1));
        assert(fs[5].name == sh[5].0);
        assert(value_type_ok(fs[5].value, sh[5].1));
        assert(fs[6].name == sh[6].0);
        assert(value_type_ok(fs[6].value, sh[6].1));
        assert(fs[7].name == sh[7].0);
        assert(value_type_ok(fs[7].value, sh[7].1));
    }
    Comment {
        id: row.id,
        article_id: row.fields[0].value.as_int(),
        user_id: row.fields[1].value.as_int(),
        content: row.fields[2].value.as_text(),
        replay_to: row.fields[3].value.as_opt_int(),
        creation_time: row.fields[5].value.as_int(),
        updated_time: row.fields[7].value.as_int(),
    }
}

// endregion

// region: create and update field lists

/// The columns a create writes, in table order; absent optional inputs take
/// the store's defaults.
pub open spec fn comment_fields_of_create(fc: CommentForCreate) -> Seq<FieldV> {
    seq![
        FieldV { name: "article_id"@, value: FieldValueV::Int(fc.article_id) },
        FieldV { name: "user_id"@, value: FieldValueV::Int(fc.user_id) },
        FieldV { name: "content"@, value: FieldValueV::Text(fc.content@) },
        FieldV { name: "replay_to"@, value: match fc.replay_to {
                Some(p) => FieldValueV::Int(p),
                None => FieldValueV::Null,
            } },
    ]
}

/// The row a create inserts, stamps included.
pub open spec fn comment_create_row(fc: CommentForCreate, id: i64, user: i64, ts: i64) -> RowV {
    RowV { id, fields: comment_fields_of_create(fc) + stamp_fields_create(user, ts) }
}

fn comment_create_fields(fc: CommentForCreate) -> (r: Vec<Field>)
    ensures
        fields_view(r@) =~= comment_fields_of_create(fc),
{
    let mut v: Vec<Field> = Vec::new();
    v.push(Field::new("article_id", FieldValue::Int(fc.article_id)));
    v.push(Field::new("user_id", FieldValue::Int(fc.user_id)));
    v.push(Field::new("content", FieldValue::Text(fc.content)));
    v.push(Field::new("replay_to", match fc.replay_to {
            Some(p) => FieldValue::Int(p),
            None => FieldValue::Null,
        }));
    v
}

/// The columns an update writes: each present input field, in declaration
/// order.
pub open spec fn comment_fields_of_update(fu: CommentForUpdate) -> Seq<FieldV> {
    (match fu.content {
        Some(u) => seq![FieldV { name: "content"@, value: FieldValueV::Text(u@) }],
        None => Seq::<FieldV>::empty(),
    })
}

fn comment_update_fields(fu: CommentForUpdate) -> (r: Vec<Field>)
    ensures
        fields_view(r@) =~= comment_fields_of_update(fu),
{
    let mut v: Vec<Field> = Vec::new();
    match fu.content {
        Some(u) => v.push(Field::new("content", FieldValue::Text(u))),
        None => (),
    }
    v
}

/// The fields an update writes, stamps included, are admissible for the
/// comment columns that carry their names.
proof fn lemma_comment_update_fits(fu: CommentForUpdate, user: i64, ts: i64)
    ensures
        ups_fit_shape(
            comment_fields_of_update(fu) + stamp_fields_update(user, ts),
            comment_shape(),
        ),
{
    lemma_comment_name_facts();
    let sh = comment_shape();
    let p1 = match fu.content {
        Some(u) => seq![FieldV { name: "content"@, value: FieldValueV::Text(u@) }],
        None => Seq::<FieldV>::empty(),
    };
    match fu.content {
        Some(u) => {
            assert(up_fits(p1[0], sh)) by {
                reveal_with_fuel(up_fits, 16);
            }
            lemma_ups_fit_single(p1[0], sh);
            assert(p1 =~= seq![p1[0]]);
        },
        None => lemma_ups_fit_empty(sh),
    }
    let stamps = stamp_fields_update(user, ts);
    assert(up_fits(stamps[0], sh)) by {
        reveal_with_fuel(up_fits, 16);
    }
    assert(up_fits(stamps[1], sh)) by {
        reveal_with_fuel(up_fits, 16);
    }
    assert forall|i: int| 0 <= i < stamps.len() implies up_fits(#[trigger] stamps[i], sh) by {
        if i == 0 {
            assert(up_fits(stamps[0], sh));
        } else {
            assert(up_fits(stamps[1], sh));
        }
    }
    lemma_ups_fit_concat(p1, stamps, sh);
    assert(comment_fields_of_update(fu) + stamps =~= p1 + stamps);
}

// endregion

// region: filters

/// Whether a comment matches one filter group: every present member holds.
pub open spec fn comment_matches(a: CommentV, f: CommentFilter) -> bool {
    &&& match f.id {
        Some(ops) => int64_ops_match(a.id, ops),
        None => true,
    }
    &&& match f.article_id {
        Some(ops) => int64_ops_match(a.article_id, ops),
        None => true,
    }
    &&& match f.user_id {
        Some(ops) => int64_ops_match(a.user_id, ops),
        None => true,
    }
    &&& match f.content {
        Some(ops) => string_ops_match(a.content, ops),
        None => true,
    }
    &&& match f.replay_to {
        Some(ops) => opt_int64_ops_match(a.replay_to, ops),
        None => true,
    }
    &&& match f.creation_time {
        Some(ops) => int64_ops_match(a.creation_time, ops),
        None => true,
    }
}

/// Whether a comment matches some group of the disjunction.
pub open spec fn comment_matches_any(a: CommentV, fs: Seq<CommentFilter>) -> bool {
    exists|i: int| 0 <= i < fs.len() && comment_matches(a, #[trigger] fs[i])
}

/// No filters at all, or an empty group list, admits every row.
pub open spec fn comment_filters_match(a: CommentV, filters: Option<Vec<CommentFilter>>) -> bool {
    match filters {
        Some(fs) => fs@.len() == 0 || comment_matches_any(a, fs@),
        None => true,
    }
}

fn comment_matches_exec(a: &Comment, f: &CommentFilter) -> (r: bool)
    ensures
        r == comment_matches(a@, *f),
{
    let mut ok = true;
    match &f.id {
        Some(ops) => ok = ok && eval_int64_ops(a.id, ops),
        None => (),
    }
    match &f.article_id {
        Some(ops) => ok = ok && eval_int64_ops(a.article_id, ops),
        None => (),
    }
    match &f.user_id {
        Some(ops) => ok = ok && eval_int64_ops(a.user_id, ops),
        None => (),
    }
    match &f.content {
        Some(ops) => ok = ok && eval_string_ops(&a.content, ops),
        None => (),
    }
    match &f.replay_to {
        Some(ops) => ok = ok && eval_opt_int64_ops(&a.replay_to, ops),
        None => (),
    }
    match &f.creation_time {
        Some(ops) => ok = ok && eval_int64_ops(a.creation_time, ops),
        None => (),
    }
    ok
}

#[verifier::loop_isolation(false)]
fn comment_filters_match_exec(a: &Comment, filters: &Option<Vec<CommentFilter>>) -> (r: bool)
    ensures
        r == comment_filters_match(a@, *filters),
{
    match filters {
        None => true,
        Some(fs) => {
            let n = fs.len();
            if n == 0 {
                return true;
            }
            let mut i: usize = 0;
            while i < n
                invariant
                    i <= n,
                    forall|p: int| 0 <= p < i ==> !comment_matches(a@, #[trigger] fs@[p]),
                decreases n - i,
            {
                if comment_matches_exec(a, &fs[i]) {
                    return true;
                }
                i = i + 1;
            }
            false
        },
    }
}

/// The comments of the table's rows, kept in store order, that match the
/// filters.
pub open spec fn filtered_comments(t: Seq<RowV>, filters: Option<Vec<CommentFilter>>) -> Seq<
    CommentV,
>
    decreases t.len(),
{
    if t.len() == 0 {
        Seq::<CommentV>::empty()
    } else {
        let rest = filtered_comments(t.drop_last(), filters);
        if comment_filters_match(comment_of_row(t.last()), filters) {
            rest.push(comment_of_row(t.last()))
        } else {
            rest
        }
    }
}

// endregion

// region: the comment model controller

/// The comment table's create/get/first/list/update/delete, on the shared
/// store.
pub struct CommentBmc;

impl CommentBmc {
    /// Inserts a new row: the caller's columns plus audit stamps, under a
    /// fresh id, which it returns. Fails only when the id space is exhausted.
    pub fn create(ctx: &Ctx, mm: &mut ModelManager, data: CommentForCreate) -> (r: Result<
        i64,
        Error,
    >)
        requires
            old(mm).wf(),
            comment_rows_ok(old(mm).comment@),
        ensures
            final(mm).wf(),
            comment_rows_ok(final(mm).comment@),
            same_tables_except(*old(mm), *final(mm), EntityKind::Comment),
            r is Ok <==> old(mm).comment.next_id < i64::MAX,
            r matches Ok(id) ==> {
                &&& id == old(mm).comment.next_id
                &&& final(mm).comment.next_id == old(mm).comment.next_id + 1
                &&& exists|ts: i64|
                    final(mm).comment@ =~= old(mm).comment@.push(
                        #[trigger] comment_create_row(data, id, ctx.user_id, ts),
                    )
            },
            r is Err ==> *final(mm) == *old(mm) && r == Err::<i64, Error>(Error::Store),
    {
        let now = now_utc_ts();
        let mut fields = comment_create_fields(data);
        prep_fields_for_create(&mut fields, ctx.user_id(), now, false, true);
        let ghost fsv = fields_view(fields@);
        let r = insert(&mut mm.comment, fields);
        proof {
            assert(fsv =~= comment_fields_of_create(data) + stamp_fields_create(
                ctx.user_id,
                now,
            ));
            if r is Ok {
                let id = old(mm).comment.next_id;
                assert(comment_create_row(data, id, ctx.user_id, now) == RowV {
                    id,
                    fields: fsv,
                });
                assert(final(mm).comment@ =~= old(mm).comment@.push(
                    comment_create_row(data, id, ctx.user_id, now),
                ));
                assert(shape_ok(fsv, comment_shape()));
                assert forall|i: int| 0 <= i < final(mm).comment@.len() implies shape_ok(
                    #[trigger] final(mm).comment@[i].fields,
                    comment_shape(),
                ) by {
                    if i < old(mm).comment@.len() {
                        assert(shape_ok(old(mm).comment@[i].fields, comment_shape()));
                    }
                }
            }
        }
        r
    }

    /// Fetches the row with the id; fails with `EntityNotFound` when the
    /// table has none.
    pub fn get(ctx: &Ctx, mm: &ModelManager, id: i64) -> (r: Result<Comment, Error>)
        requires
            mm.wf(),
            comment_rows_ok(mm.comment@),
        ensures
            r is Ok <==> table_has_id(mm.comment@, id),
            r matches Ok(a) ==> a@ == comment_of_row(row_with_id(mm.comment@, id)),
            r is Err ==> r == Err::<Comment, Error>(
                Error::EntityNotFound { entity: EntityKind::Comment, id },
            ),
    {
        match get_row(&mm.comment, id) {
            Some(row) => {
                proof {
                    lemma_find_index(mm.comment@, id);
                    assert(shape_ok(
                        mm.comment@[find_index(mm.comment@, id)].fields,
                        comment_shape(),
                    ));
                }
                Ok(comment_from_row(row))
            },
            None => Err(Error::EntityNotFound { entity: EntityKind::Comment, id }),
        }
    }

    /// Lists the rows that match the filters (all of them when there are
    /// none), in store order, windowed by the list options.
    #[verifier::loop_isolation(false)]
    pub fn list(
        ctx: &Ctx,
        mm: &ModelManager,
        filters: Option<Vec<CommentFilter>>,
        list_options: Option<ListOptions>,
    ) -> (r: Result<Vec<Comment>, Error>)
        requires
            mm.wf(),
            comment_rows_ok(mm.comment@),
        ensures
            r matches Ok(v) && v.deep_view() == apply_list_options(
                filtered_comments(mm.comment@, filters),
                list_options,
            ),
    {
        let t = &mm.comment;
        let n = t.rows.len();
        let mut acc: Vec<Comment> = Vec::new();
        let mut i: usize = 0;
        while i < n
            invariant
                i <= n,
                acc.deep_view() =~= filtered_comments(t@.subrange(0, i as int), filters),
            decreases n - i,
        {
            proof {
                assert(shape_ok(t@[i as int].fields, comment_shape()));
                assert(t@.subrange(0, i as int + 1).drop_last() =~= t@.subrange(0, i as int));
                assert(t@.subrange(0, i as int + 1).last() == t@[i as int]);
            }
            let a = comment_from_row(&t.rows[i]);
            if comment_filters_match_exec(&a, &filters) {
                acc.push(a);
            }
            i = i + 1;
        }
        proof {
            assert(t@.subrange(0, n as int) =~= t@);
        }
        let res = paginate(acc, &list_options);
        proof {
            assert(res.deep_view() =~= apply_list_options(
                filtered_comments(mm.comment@, filters),
                list_options,
            ));
        }
        Ok(res)
    }

    /// The first row of `list`, or nothing when the list is empty.
    pub fn first(
        ctx: &Ctx,
        mm: &ModelManager,
        filters: Option<Vec<CommentFilter>>,
        list_options: Option<ListOptions>,
    ) -> (r: Result<Option<Comment>, Error>)
        requires
            mm.wf(),
            comment_rows_ok(mm.comment@),
        ensures
            ({
                let l = apply_list_options(filtered_comments(mm.comment@, filters), list_options);
                match r {
                    Ok(Some(a)) => l.len() > 0 && a@ == l[0],
                    Ok(None) => l.len() == 0,
                    Err(e) => false,
                }
            }),
    {
        let mut v = Self::list(ctx, mm, filters, list_options)?;
        let ghost l = v.deep_view();
        if v.len() > 0 {
            let a = v.remove(0);
            proof {
                assert(a.deep_view() == l[0]);
            }
            Ok(Some(a))
        } else {
            proof {
                assert(l.len() == 0);
            }
            Ok(None)
        }
    }

    /// Rewrites the present fields of the row with the id and restamps the
    /// updater columns; fails with `EntityNotFound` when the id is absent.
    pub fn update(ctx: &Ctx, mm: &mut ModelManager, id: i64, data: CommentForUpdate) -> (r:
        Result<(), Error>)
        requires
            old(mm).wf(),
            comment_rows_ok(old(mm).comment@),
        ensures
            final(mm).wf(),
            comment_rows_ok(final(mm).comment@),
            same_tables_except(*old(mm), *final(mm), EntityKind::Comment),
            final(mm).comment.next_id == old(mm).comment.next_id,
            r is Ok <==> table_has_id(old(mm).comment@, id),
            r matches Ok(u) ==> exists|ts: i64|
                final(mm).comment@ =~= old(mm).comment@.update(
                    find_index(old(mm).comment@, id),
                    RowV {
                        id,
                        fields: #[trigger] apply_fields(
                            row_with_id(old(mm).comment@, id).fields,
                            comment_fields_of_update(data) + stamp_fields_update(
                                ctx.user_id,
                                ts,
                            ),
                        ),
                    },
                ),
            r is Err ==> *final(mm) == *old(mm) && r == Err::<(), Error>(
                Error::EntityNotFound { entity: EntityKind::Comment, id },
            ),
    {
        let now = now_utc_ts();
        let mut fields = comment_update_fields(data);
        prep_fields_for_update(&mut fields, ctx.user_id(), now, true);
        let ghost fsv = fields_view(fields@);
        let r = update_row(&mut mm.comment, id, fields, EntityKind::Comment);
        proof {
            assert(fsv =~= comment_fields_of_update(data) + stamp_fields_update(
                ctx.user_id,
                now,
            ));
            if r is Ok {
                lemma_find_index(old(mm).comment@, id);
                let fi = find_index(old(mm).comment@, id);
                assert(final(mm).comment@ =~= old(mm).comment@.update(
                    fi,
                    RowV {
                        id,
                        fields: apply_fields(
                            row_with_id(old(mm).comment@, id).fields,
                            comment_fields_of_update(data) + stamp_fields_update(
                                ctx.user_id,
                                now,
                            ),
                        ),
                    },
                ));
                // shape preservation
                assert(shape_ok(old(mm).comment@[fi].fields, comment_shape()));
                lemma_comment_update_fits(data, ctx.user_id, now);
                assert(ups_fit_shape(fsv, comment_shape()));
                lemma_apply_fields_preserves_shape(
                    old(mm).comment@[fi].fields,
                    fsv,
                    comment_shape(),
                );
                assert forall|i: int| 0 <= i < final(mm).comment@.len() implies shape_ok(
                    #[trigger] final(mm).comment@[i].fields,
                    comment_shape(),
                ) by {
                    if i != fi {
                        assert(shape_ok(old(mm).comment@[i].fields, comment_shape()));
                    }
                }
            }
        }
        r
    }

    /// Removes the row with the id; fails with `EntityNotFound` when the
    /// id is absent.
    pub fn delete(ctx: &Ctx, mm: &mut ModelManager, id: i64) -> (r: Result<(), Error>)
        requires
            old(mm).wf(),
            comment_rows_ok(old(mm).comment@),
        ensures
            final(mm).wf(),
            comment_rows_ok(final(mm).comment@),
            same_tables_except(*old(mm), *final(mm), EntityKind::Comment),
            final(mm).comment.next_id == old(mm).comment.next_id,
            r is Ok <==> table_has_id(old(mm).comment@, id),
            r matches Ok(u) ==> final(mm).comment@ =~= old(mm).comment@.remove(
                find_index(old(mm).comment@, id),
            ) && !table_has_id(final(mm).comment@, id),
            r is Err ==> *final(mm) == *old(mm) && r == Err::<(), Error>(
                Error::EntityNotFound { entity: EntityKind::Comment, id },
            ),
    {
        let r = delete_row(&mut mm.comment, id, EntityKind::Comment);
        proof {
            if r is Ok {
                lemma_find_index(old(mm).comment@, id);
                let fi = find_index(old(mm).comment@, id);
                assert forall|i: int| 0 <= i < final(mm).comment@.len() implies shape_ok(
                    #[trigger] final(mm).comment@[i].fields,
                    comment_shape(),
                ) by {
                    if i < fi {
                        assert(final(mm).comment@[i] == old(mm).comment@[i]);
                        assert(shape_ok(old(mm).comment@[i].fields, comment_shape()));
                    } else {
                        assert(final(mm).comment@[i] == old(mm).comment@[i + 1]);
                        assert(shape_ok(old(mm).comment@[i + 1].fields, comment_shape()));
                    }
                }
            }
        }
        r
    }
}

// endregion

// region: laws

/// Law: reading back a created row yields the created input's fields; the
/// id and the audit stamps are the server-assigned values.
pub proof fn lemma_comment_create_then_get(fc: CommentForCreate, id: i64, user: i64, ts: i64)
    ensures
        ({
            let a = comment_of_row(comment_create_row(fc, id, user, ts));
            &&& a.id == id
            &&& a.article_id == fc.article_id
            &&& a.user_id == fc.user_id
            &&& a.content == fc.content@
            &&& a.replay_to == fc.replay_to
            &&& a.creation_time == ts
            &&& a.updated_time == ts
        }),
{
}

// endregion

} // verus!
