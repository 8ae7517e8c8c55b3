use vstd::prelude::*;

use crate::ctx::Ctx;
use crate::error::{EntityKind, Error};
use crate::model::base::{
    apply_fields, insert, delete_row, get_row, lemma_apply_fields_preserves_shape,
    lemma_ups_fit_concat, lemma_ups_fit_empty, lemma_ups_fit_single, now_utc_ts,
    prep_fields_for_create, prep_fields_for_update, shape_ok, stamp_fields_create,
    stamp_fields_update, up_fits, update_row, ups_fit_shape, value_type_ok, FieldType,
};
use crate::model::field::{bool_of, fields_view, int_of, Field, FieldV, FieldValue, FieldValueV};
use crate::model::filter::{
    apply_list_options, eval_int32_ops, eval_int64_ops, int32_ops_match, int64_ops_match,
    paginate, ListOptions, OpValsInt32, OpValsInt64,
};
use crate::model::store::{
    find_index, lemma_find_index, row_with_id, table_has_id, ModelManager, Row, RowV,
    same_tables_except,
};

verus! {

// region: article_view types

/// A stored article view row, as callers see it.
#[derive(Clone, Debug)]
pub struct ArticleView {
    pub id: i64,
    pub article_id: i64,
    pub viewer_id: i64,
    pub view_count: i32,
    pub likes: bool,
    pub dislikes: bool,
    pub share: bool,
    pub creation_time: i64,
    pub updated_time: i64,
}

/// The mathematical value of a `ArticleView`.
pub struct ArticleViewV {
    pub id: i64,
    pub article_id: i64,
    pub viewer_id: i64,
    pub view_count: i32,
    pub likes: bool,
    pub dislikes: bool,
    pub share: bool,
    pub creation_time: i64,
    pub updated_time: i64,
}

impl View for ArticleView {
    type V = ArticleViewV;

    open spec fn view(&self) -> ArticleViewV {
        ArticleViewV {
            id: self.id,
            article_id: self.article_id,
            viewer_id: self.viewer_id,
            view_count: self.view_count,
            likes: self.likes,
            dislikes: self.dislikes,
            share: self.share,
            creation_time: self.creation_time,
            updated_time: self.updated_time,
        }
    }
}

impl DeepView for ArticleView {
    type V = ArticleViewV;

    open spec fn deep_view(&self) -> ArticleViewV {
        self.view()
    }
}

/// What a caller provides to create an article view; absent optional columns
/// take the store's defaults (a zero count, all flags off).
#[derive(Clone, Debug, Default)]
pub struct ArticleViewForCreate {
    pub article_id: i64,
    pub viewer_id: i64,
    pub view_count: Option<i32>,
    pub likes: Option<bool>,
    pub dislikes: Option<bool>,
    pub share: Option<bool>,
}

/// What a caller provides to update an article view; only present fields
/// change.
#[derive(Clone, Debug, Default)]
pub struct ArticleViewForUpdate {
    pub view_count: Option<i32>,
    pub likes: Option<bool>,
    pub dislikes: Option<bool>,
    pub share: Option<bool>,
}

/// One filter group over article views: the conjunction of its present
/// members.
#[derive(Clone, Debug, Default)]
pub struct ArticleViewFilter {
    pub id: Option<OpValsInt64>,
    pub article_id: Option<OpValsInt64>,
    pub viewer_id: Option<OpValsInt64>,
    pub view_count: Option<OpValsInt32>,
    pub likes: Option<bool>,
    pub dislikes: Option<bool>,
    pub share: Option<bool>,
    pub creation_time: Option<OpValsInt64>,
    pub updated_time: Option<OpValsInt64>,
}

// endregion

// region: the article_view row shape

pub open spec fn article_view_shape() -> Seq<(Seq<char>, FieldType)> {
    seq![
        ("article_id"@, FieldType::IntT),
        ("viewer_id"@, FieldType::IntT),
        ("view_count"@, FieldType::IntT),
        ("likes"@, FieldType::BoolT),
        ("dislikes"@, FieldType::BoolT),
        ("share"@, FieldType::BoolT),
        ("creator_id"@, FieldType::IntT),
        ("creation_time"@, FieldType::IntT),
        ("updater_id"@, FieldType::IntT),
        ("updated_time"@, FieldType::IntT),
    ]
}

proof fn lemma_article_view_name_facts()
    ensures
        "article_id"@.len() == 10,
        "viewer_id"@.len() == 9,
        "view_count"@.len() == 10,
        "likes"@.len() == 5,
        "dislikes"@.len() == 8,
        "share"@.len() == 5,
        "creator_id"@.len() == 10,
        "creation_time"@.len() == 13,
        "updater_id"@.len() == 10,
        "updated_time"@.len() == 12,
{
    reveal_strlit("article_id");
    reveal_strlit("viewer_id");
    reveal_strlit("view_count");
    reveal_strlit("likes");
    reveal_strlit("dislikes");
    reveal_strlit("share");
    reveal_strlit("creator_id");
    reveal_strlit("creation_time");
    reveal_strlit("updater_id");
    reveal_strlit("updated_time");
}

/// Every row of the article_view table is article_view-shaped.
pub open spec fn article_view_rows_ok(t: Seq<RowV>) -> bool {
    forall|i: int| 0 <= i < t.len() ==> shape_ok(#[trigger] t[i].fields, article_view_shape())
}

/// The article view a shaped row denotes.
pub open spec fn article_view_of_row(r: RowV) -> ArticleViewV {
    ArticleViewV {
        id: r.id,
        article_id: int_of(r.fields[0].value),
        viewer_id: int_of(r.fields[1].value),
        view_count: int_of(r.fields[2].value) as i32,
        likes: bool_of(r.fields[3].value),
        dislikes: bool_of(r.fields[4].value),
        share: bool_of(r.fields[5].value),
        creation_time: int_of(r.fields[7].value),
        updated_time: int_of(r.fields[9].value),
    }
}

fn article_view_from_row(row: &Row) -> (a: ArticleView)
    requires
        shape_ok(row@.fields, article_view_shape()),
    ensures
        a@ == article_view_of_row(row@),
{
    proof {
        let fs = row@.fields;
        let sh = article_view_shape();
        assert(fs[0].name == sh[0].0);
        assert(value_type_ok(fs[0].value, sh[0].1));
        assert(fs[1].name == sh[1].0);
        assert(value_type_ok(fs[1].value, sh[1].1));
        assert(fs[2].name == sh[2].0);
        assert(value_type_ok(fs[2].value, sh[2].1));
        assert(fs[3].name == sh[3].0);
        assert(value_type_ok(fs[3].value, sh[3].1));
        assert(fs[4].name == sh[4].0);
        assert(value_type_ok(fs[4].value, sh[4].1));
        assert(fs[5].name == sh[5].0);
        assert(value_type_ok(fs[5].value, sh[5].1));
        assert(fs[6].name == sh[6].0);
        assert(value_type_ok(fs[6].value, sh[6].1));
        assert(fs[7].name == sh[7].0);
        assert(value_type_ok(fs[7].value, sh[7].1));
        assert(fs[8].name == sh[8].0);
        assert(value_type_ok(fs[8].value, sh[8].1));
        assert(fs[9].name == sh[9].0);
        assert(value_type_ok(fs[9].value, sh[9].1));
    }
    ArticleView {
        id: row.id,
        article_id: row.fields[0].value.as_int(),
        viewer_id: row.fields[1].value.as_int(),
        view_count: #[verifier::truncate] (row.fields[2].value.as_int() as i32),
        likes: row.fields[3].value.as_bool(),
        dislikes: row.fields[4].value.as_bool(),
        share: row.fields[5].value.as_bool(),
        creation_time: row.fields[7].value.as_int(),
        updated_time: row.fields[9].value.as_int(),
    }
}

// endregion

// region: create and update field lists

/// The columns a create writes, in table order; absent optional inputs take
/// the store's defaults.
pub open spec fn article_view_fields_of_create(fc: ArticleViewForCreate) -> Seq<FieldV> {
    seq![
        FieldV { name: "article_id"@, value: FieldValueV::Int(fc.article_id) },
        FieldV { name: "viewer_id"@, value: FieldValueV::Int(fc.viewer_id) },
        FieldV { name: "view_count"@, value: FieldValueV::Int(
                match fc.view_count {
                    Some(c) => c as i64,
                    None => 0,
                },
            ) },
        FieldV { name: "likes"@, value: FieldValueV::Bool(
                match fc.likes {
                    Some(b) => b,
                    None => false,
                },
            ) },
        FieldV { name: "dislikes"@, value: FieldValueV::Bool(
                match fc.dislikes {
                    Some(b) => b,
                    None => false,
                },
            ) },
        FieldV { name: "share"@, value: FieldValueV::Bool(
                match fc.share {
                    Some(b) => b,
                    None => false,
                },
            ) },
    ]
}

/// The row a create inserts, stamps included.
pub open spec fn article_view_create_row(fc: ArticleViewForCreate, id: i64, user: i64, ts: i64) -> RowV {
    RowV { id, fields: article_view_fields_of_create(fc) + stamp_fields_create(user, ts) }
}

fn article_view_create_fields(fc: ArticleViewForCreate) -> (r: Vec<Field>)
    ensures
        fields_view(r@) =~= article_view_fields_of_create(fc),
{
    let mut v: Vec<Field> = Vec::new();
    v.push(Field::new("article_id", FieldValue::Int(fc.article_id)));
    v.push(Field::new("viewer_id", FieldValue::Int(fc.viewer_id)));
    v.push(Field::new("view_count", FieldValue::Int(
            match fc.view_count {
                Some(c) => c as i64,
                None => 0,
            },
        )));
    v.push(Field::new("likes", FieldValue::Bool(
            match fc.likes {
                Some(b) => b,
                None => false,
            },
        )));
    v.push(Field::new("dislikes", FieldValue::Bool(
            match fc.dislikes {
                Some(b) => b,
                None => false,
            },
        )));
    v.push(Field::new("share", FieldValue::Bool(
            match fc.share {
                Some(b) => b,
                None => false,
            },
        )));
    v
}

/// The columns an update writes: each present input field, in declaration
/// order.
pub open spec fn article_view_fields_of_update(fu: ArticleViewForUpdate) -> Seq<FieldV> {
    (match fu.view_count {
        Some(c) => seq![FieldV { name: "view_count"@, value: FieldValueV::Int(c as i64) }],
        None => Seq::<FieldV>::empty(),
    }) + (match fu.likes {
        Some(b) => seq![FieldV { name: "likes"@, value: FieldValueV::Bool(b) }],
        None => Seq::<FieldV>::empty(),
    }) + (match fu.dislikes {
        Some(b) => seq![FieldV { name: "dislikes"@, value: FieldValueV::Bool(b) }],
        None => Seq::<FieldV>::empty(),
    }) + (match fu.share {
        Some(b) => seq![FieldV { name: "share"@, value: FieldValueV::Bool(b) }],
        None => Seq::<FieldV>::empty(),
    })
}

fn article_view_update_fields(fu: ArticleViewForUpdate) -> (r: Vec<Field>)
    ensures
        fields_view(r@) =~= article_view_fields_of_update(fu),
{
    let mut v: Vec<Field> = Vec::new();
    match fu.view_count {
        Some(c) => v.push(Field::new("view_count", FieldValue::Int(c as i64))),
        None => (),
    }
    match fu.likes {
        Some(b) => v.push(Field::new("likes", FieldValue::Bool(b))),
        None => (),
    }
    match fu.dislikes {
        Some(b) => v.push(Field::new("dislikes", FieldValue::Bool(b))),
        None => (),
    }
    match fu.share {
        Some(b) => v.push(Field::new("share", FieldValue::Bool(b))),
        None => (),
    }
    v
}

/// The fields an update writes, stamps included, are admissible for the
/// article view columns that carry their names.
proof fn lemma_article_view_update_fits(fu: ArticleViewForUpdate, user: i64, ts: i64)
    ensures
        ups_fit_shape(
            article_view_fields_of_update(fu) + stamp_fields_update(user, ts),
            article_view_shape(),
        ),
{
    lemma_article_view_name_facts();
    let sh = article_view_shape();
    let p1 = match fu.view_count {
        Some(c) => seq![FieldV { name: "view_count"@, value: FieldValueV::Int(c as i64) }],
        None => Seq::<FieldV>::empty(),
    };
    let p2 = match fu.likes {
        Some(b) => seq![FieldV { name: "likes"@, value: FieldValueV::Bool(b) }],
        None => Seq::<FieldV>::empty(),
    };
    let p3 = match fu.dislikes {
        Some(b) => seq![FieldV { name: "dislikes"@, value: FieldValueV::Bool(b) }],
        None => Seq::<FieldV>::empty(),
    };
    let p4 = match fu.share {
        Some(b) => seq![FieldV { name: "share"@, value: FieldValueV::Bool(b) }],
        None => Seq::<FieldV>::empty(),
    };
    match fu.view_count {
        Some(c) => {
            assert(up_fits(p1[0], sh)) by {
                reveal_with_fuel(up_fits, 16);
            }
            lemma_ups_fit_single(p1[0], sh);
            assert(p1 =~= seq![p1[0]]);
        },
        None => lemma_ups_fit_empty(sh),
    }
    match fu.likes {
        Some(b) => {
            assert(up_fits(p2[0], sh)) by {
                reveal_with_fuel(up_fits, 16);
            }
            lemma_ups_fit_single(p2[0], sh);
            assert(p2 =~= seq![p2[0]]);
        },
        None => lemma_ups_fit_empty(sh),
    }
    match fu.dislikes {
        Some(b) => {
            assert(up_fits(p3[0], sh)) by {
                reveal_with_fuel(up_fits, 16);
            }
            lemma_ups_fit_single(p3[0], sh);
            assert(p3 =~= seq![p3[0]]);
        },
        None => lemma_ups_fit_empty(sh),
    }
    match fu.share {
        Some(b) => {
            assert(up_fits(p4[0], sh)) by {
                reveal_with_fuel(up_fits, 16);
            }
            lemma_ups_fit_single(p4[0], sh);
            assert(p4 =~= seq![p4[0]]);
        },
        None => lemma_ups_fit_empty(sh),
    }
    let stamps = stamp_fields_update(user, ts);
    assert(up_fits(stamps[0], sh)) by {
        reveal_with_fuel(up_fits, 16);
    }
    assert(up_fits(stamps[1], sh)) by {
        reveal_with_fuel(up_fits, 16);
    }
    assert forall|i: int| 0 <= i < stamps.len() implies up_fits(#[trigger] stamps[i], sh) by {
        if i == 0 {
            assert(up_fits(stamps[0], sh));
        } else {
            assert(up_fits(stamps[1], sh));
        }
    }
    lemma_ups_fit_concat(p1, p2, sh);
    lemma_ups_fit_concat(p1 + p2, p3, sh);
    lemma_ups_fit_concat(p1 + p2 + p3, p4, sh);
    lemma_ups_fit_concat(p1 + p2 + p3 + p4, stamps, sh);
    assert(article_view_fields_of_update(fu) + stamps =~= p1 + p2 + p3 + p4 + stamps);
}

// endregion

// region: filters

/// Whether a article view matches one filter group: every present member holds.
pub open spec fn article_view_matches(a: ArticleViewV, f: ArticleViewFilter) -> bool {
    &&& match f.id {
        Some(ops) => int64_ops_match(a.id, ops),
        None => true,
    }
    &&& match f.article_id {
        Some(ops) => int64_ops_match(a.article_id, ops),
        None => true,
    }
    &&& match f.viewer_id {
        Some(ops) => int64_ops_match(a.viewer_id, ops),
        None => true,
    }
    &&& match f.view_count {
        Some(ops) => int32_ops_match(a.view_count, ops),
        None => true,
    }
    &&& match f.likes {
        Some(ops) => a.likes == ops,
        None => true,
    }
    &&& match f.dislikes {
        Some(ops) => a.dislikes == ops,
        None => true,
    }
    &&& match f.share {
        Some(ops) => a.share == ops,
        None => true,
    }
    &&& match f.creation_time {
        Some(ops) => int64_ops_match(a.creation_time, ops),
        None => true,
    }
    &&& match f.updated_time {
        Some(ops) => int64_ops_match(a.updated_time, ops),
        None => true,
    }
}

/// Whether a article view matches some group of the disjunction.
pub open spec fn article_view_matches_any(a: ArticleViewV, fs: Seq<ArticleViewFilter>) -> bool {
    exists|i: int| 0 <= i < fs.len() && article_view_matches(a, #[trigger] fs[i])
}

/// No filters at all, or an empty group list, admits every row.
pub open spec fn article_view_filters_match(a: ArticleViewV, filters: Option<Vec<ArticleViewFilter>>) -> bool {
    match filters {
        Some(fs) => fs@.len() == 0 || article_view_matches_any(a, fs@),
        None => true,
    }
}

fn article_view_matches_exec(a: &ArticleView, f: &ArticleViewFilter) -> (r: bool)
    ensures
        r == article_view_matches(a@, *f),
{
    let mut ok = true;
    match &f.id {
        Some(ops) => ok = ok && eval_int64_ops(a.id, ops),
        None => (),
    }
    match &f.article_id {
        Some(ops) => ok = ok && eval_int64_ops(a.article_id, ops),
        None => (),
    }
    match &f.viewer_id {
        Some(ops) => ok = ok && eval_int64_ops(a.viewer_id, ops),
        None => (),
    }
    match &f.view_count {
        Some(ops) => ok = ok && eval_int32_ops(a.view_count, ops),
        None => (),
    }
    match &f.likes {
        Some(ops) => ok = ok && a.likes == *ops,
        None => (),
    }
    match &f.dislikes {
        Some(ops) => ok = ok && a.dislikes == *ops,
        None => (),
    }
    match &f.share {
        Some(ops) => ok = ok && a.share == *ops,
        None => (),
    }
    match &f.creation_time {
        Some(ops) => ok = ok && eval_int64_ops(a.creation_time, ops),
        None => (),
    }
    match &f.updated_time {
        Some(ops) => ok = ok && eval_int64_ops(a.updated_time, ops),
        None => (),
    }
    ok
}

#[verifier::loop_isolation(false)]
fn article_view_filters_match_exec(a: &ArticleView, filters: &Option<Vec<ArticleViewFilter>>) -> (r: bool)
    ensures
        r == article_view_filters_match(a@, *filters),
{
    match filters {
        None => true,
        Some(fs) => {
            let n = fs.len();
            if n == 0 {
                return true;
            }
            let mut i: usize = 0;
            while i < n
                invariant
                    i <= n,
                    forall|p: int| 0 <= p < i ==> !article_view_matches(a@, #[trigger] fs@[p]),
                decreases n - i,
            {
                if article_view_matches_exec(a, &fs[i]) {
                    return true;
                }
                i = i + 1;
            }
            false
        },
    }
}

/// The article views of the table's rows, kept in store order, that match the
/// filters.
pub open spec fn filtered_article_views(t: Seq<RowV>, filters: Option<Vec<ArticleViewFilter>>) -> Seq<
    ArticleViewV,
>
    decreases t.len(),
{
    if t.len() == 0 {
        Seq::<ArticleViewV>::empty()
    } else {
        let rest = filtered_article_views(t.drop_last(), filters);
        if article_view_filters_match(article_view_of_row(t.last()), filters) {
            rest.push(article_view_of_row(t.last()))
        } else {
            rest
        }
    }
}

// endregion

// region: the article_view model controller

/// The article_view table's create/get/first/list/update/delete, on the shared
/// store.
pub struct ArticleViewBmc;

impl ArticleViewBmc {
    /// Inserts a new row: the caller's columns plus audit stamps, under a
    /// fresh id, which it returns. Fails only when the id space is exhausted.
    pub fn create(ctx: &Ctx, mm: &mut ModelManager, data: ArticleViewForCreate) -> (r: Result<
        i64,
        Error,
    >)
        requires
            old(mm).wf(),
            article_view_rows_ok(old(mm).article_view@),
        ensures
            final(mm).wf(),
            article_view_rows_ok(final(mm).article_view@),
            same_tables_except(*old(mm), *final(mm), EntityKind::ArticleView),
            r is Ok <==> old(mm).article_view.next_id < i64::MAX,
            r matches Ok(id) ==> {
                &&& id == old(mm).article_view.next_id
                &&& final(mm).article_view.next_id == old(mm).article_view.next_id + 1
                &&& exists|ts: i64|
                    final(mm).article_view@ =~= old(mm).article_view@.push(
                        #[trigger] article_view_create_row(data, id, ctx.user_id, ts),
                    )
            },
            r is Err ==> *final(mm) == *old(mm) && r == Err::<i64, Error>(Error::Store),
    {
        let now = now_utc_ts();
        let mut fields = article_view_create_fields(data);
        prep_fields_for_create(&mut fields, ctx.user_id(), now, false, true);
        let ghost fsv = fields_view(fields@);
        let r = insert(&mut mm.article_view, fields);
        proof {
            assert(fsv =~= article_view_fields_of_create(data) + stamp_fields_create(
                ctx.user_id,
                now,
            ));
            if r is Ok {
                let id = old(mm).article_view.next_id;
                assert(article_view_create_row(data, id, ctx.user_id, now) == RowV {
                    id,
                    fields: fsv,
                });
                assert(final(mm).article_view@ =~= old(mm).article_view@.push(
                    article_view_create_row(data, id, ctx.user_id, now),
                ));
                assert(shape_ok(fsv, article_view_shape()));
                assert forall|i: int| 0 <= i < final(mm).article_view@.len() implies shape_ok(
                    #[trigger] final(mm).article_view@[i].fields,
                    article_view_shape(),
                ) by {
                    if i < old(mm).article_view@.len() {
                        assert(shape_ok(old(mm).article_view@[i].fields, article_view_shape()));
                    }
                }
            }
        }
        r
    }

    /// Fetches the row with the id; fails with `EntityNotFound` when the
    /// table has none.
    pub fn get(ctx: &Ctx, mm: &ModelManager, id: i64) -> (r: Result<ArticleView, Error>)
        requires
            mm.wf(),
            article_view_rows_ok(mm.article_view@),
        ensures
            r is Ok <==> table_has_id(mm.article_view@, id),
            r matches Ok(a) ==> a@ == article_view_of_row(row_with_id(mm.article_view@, id)),
            r is Err ==> r == Err::<ArticleView, Error>(
                Error::EntityNotFound { entity: EntityKind::ArticleView, id },
            ),
    {
        match get_row(&mm.article_view, id) {
            Some(row) => {
                proof {
                    lemma_find_index(mm.article_view@, id);
                    assert(shape_ok(
                        mm.article_view@[find_index(mm.article_view@, id)].fields,
                        article_view_shape(),
                    ));
                }
                Ok(article_view_from_row(row))
            },
            None => Err(Error::EntityNotFound { entity: EntityKind::ArticleView, id }),
        }
    }

    /// Lists the rows that match the filters (all of them when there are
    /// none), in store order, windowed by the list options.
    #[verifier::loop_isolation(false)]
    pub fn list(
        ctx: &Ctx,
        mm: &ModelManager,
        filters: Option<Vec<ArticleViewFilter>>,
        list_options: Option<ListOptions>,
    ) -> (r: Result<Vec<ArticleView>, Error>)
        requires
            mm.wf(),
            article_view_rows_ok(mm.article_view@),
        ensures
            r matches Ok(v) && v.deep_view() == apply_list_options(
                filtered_article_views(mm.article_view@, filters),
                list_options,
            ),
    {
        let t = &mm.article_view;
        let n = t.rows.len();
        let mut acc: Vec<ArticleView> = Vec::new();
        let mut i: usize = 0;
        while i < n
            invariant
                i <= n,
                acc.deep_view() =~= filtered_article_views(t@.subrange(0, i as int), filters),
            decreases n - i,
        {
            proof {
                assert(shape_ok(t@[i as int].fields, article_view_shape()));
                assert(t@.subrange(0, i as int + 1).drop_last() =~= t@.subrange(0, i as int));
                assert(t@.subrange(0, i as int + 1).last() == t@[i as int]);
            }
            let a = article_view_from_row(&t.rows[i]);
            if article_view_filters_match_exec(&a, &filters) {
                acc.push(a);
            }
            i = i + 1;
        }
        proof {
            assert(t@.subrange(0, n as int) =~= t@);
        }
        let res = paginate(acc, &list_options);
        proof {
            assert(res.deep_view() =~= apply_list_options(
                filtered_article_views(mm.article_view@, filters),
                list_options,
            ));
        }
        Ok(res)
    }

    /// The first row of `list`, or nothing when the list is empty.
    pub fn first(
        ctx: &Ctx,
        mm: &ModelManager,
        filters: Option<Vec<ArticleViewFilter>>,
        list_options: Option<ListOptions>,
    ) -> (r: Result<Option<ArticleView>, Error>)
        requires
            mm.wf(),
            article_view_rows_ok(mm.article_view@),
        ensures
            ({
                let l = apply_list_options(filtered_article_views(mm.article_view@, filters), list_options);
                match r {
                    Ok(Some(a)) => l.len() > 0 && a@ == l[0],
                    Ok(None) => l.len() == 0,
                    Err(e) => false,
                }
            }),
    {
        let mut v = Self::list(ctx, mm, filters, list_options)?;
        let ghost l = v.deep_view();
        if v.len() > 0 {
            let a = v.remove(0);
            proof {
                assert(a.deep_view() == l[0]);
            }
            Ok(Some(a))
        } else {
            proof {
                assert(l.len() == 0);
            }
            Ok(None)
        }
    }

    /// Rewrites the present fields of the row with the id and restamps the
    /// updater columns; fails with `EntityNotFound` when the id is absent.
    pub fn update(ctx: &Ctx, mm: &mut ModelManager, id: i64, data: ArticleViewForUpdate) -> (r:
        Result<(), Error>)
        requires
            old(mm).wf(),
            article_view_rows_ok(old(mm).article_view@),
        ensures
            final(mm).wf(),
            article_view_rows_ok(final(mm).article_view@),
            same_tables_except(*old(mm), *final(mm), EntityKind::ArticleView),
            final(mm).article_view.next_id == old(mm).article_view.next_id,
            r is Ok <==> table_has_id(old(mm).article_view@, id),
            r matches Ok(u) ==> exists|ts: i64|
                final(mm).article_view@ =~= old(mm).article_view@.update(
                    find_index(old(mm).article_view@, id),
                    RowV {
                        id,
                        fields: #[trigger] apply_fields(
                            row_with_id(old(mm).article_view@, id).fields,
                            article_view_fields_of_update(data) + stamp_fields_update(
                                ctx.user_id,
                                ts,
                            ),
                        ),
                    },
                ),
            r is Err ==> *final(mm) == *old(mm) && r == Err::<(), Error>(
                Error::EntityNotFound { entity: EntityKind::ArticleView, id },
            ),
    {
        let now = now_utc_ts();
        let mut fields = article_view_update_fields(data);
        prep_fields_for_update(&mut fields, ctx.user_id(), now, true);
        let ghost fsv = fields_view(fields@);
        let r = update_row(&mut mm.article_view, id, fields, EntityKind::ArticleView);
        proof {
            assert(fsv =~= article_view_fields_of_update(data) + stamp_fields_update(
                ctx.user_id,
                now,
            ));
            if r is Ok {
                lemma_find_index(old(mm).article_view@, id);
                let fi = find_index(old(mm).article_view@, id);
                assert(final(mm).article_view@ =~= old(mm).article_view@.update(
                    fi,
                    RowV {
                        id,
                        fields: apply_fields(
                            row_with_id(old(mm).article_view@, id).fields,
                            article_view_fields_of_update(data) + stamp_fields_update(
                                ctx.user_id,
                                now,
                            ),
                        ),
                    },
                ));
                // shape preservation
                assert(shape_ok(old(mm).article_view@[fi].fields, article_view_shape()));
                lemma_article_view_update_fits(data, ctx.user_id, now);
                assert(ups_fit_shape(fsv, article_view_shape()));
                lemma_apply_fields_preserves_shape(
                    old(mm).article_view@[fi].fields,
                    fsv,
                    article_view_shape(),
                );
                assert forall|i: int| 0 <= i < final(mm).article_view@.len() implies shape_ok(
                    #[trigger] final(mm).article_view@[i].fields,
                    article_view_shape(),
                ) by {
                    if i != fi {
                        assert(shape_ok(old(mm).article_view@[i].fields, article_view_shape()));
                    }
                }
            }
        }
        r
    }

    /// Removes the row with the id; fails with `EntityNotFound` when the
    /// id is absent.
    pub fn delete(ctx: &Ctx, mm: &mut ModelManager, id: i64) -> (r: Result<(), Error>)
        requires
            old(mm).wf(),
            article_view_rows_ok(old(mm).article_view@),
        ensures
            final(mm).wf(),
            article_view_rows_ok(final(mm).article_view@),
            same_tables_except(*old(mm), *final(mm), EntityKind::ArticleView),
            final(mm).article_view.next_id == old(mm).article_view.next_id,
            r is Ok <==> table_has_id(old(mm).article_view@, id),
            r matches Ok(u) ==> final(mm).article_view@ =~= old(mm).article_view@.remove(
                find_index(old(mm).article_view@, id),
            ) && !table_has_id(final(mm).article_view@, id),
            r is Err ==> *final(mm) == *old(mm) && r == Err::<(), Error>(
                Error::EntityNotFound { entity: EntityKind::ArticleView, id },
            ),
    {
        let r = delete_row(&mut mm.article_view, id, EntityKind::ArticleView);
        proof {
            if r is Ok {
                lemma_find_index(old(mm).article_view@, id);
                let fi = find_index(old(mm).article_view@, id);
                assert forall|i: int| 0 <= i < final(mm).article_view@.len() implies shape_ok(
                    #[trigger] final(mm).article_view@[i].fields,
                    article_view_shape(),
                ) by {
                    if i < fi {
                        assert(final(mm).article_view@[i] == old(mm).article_view@[i]);
                        assert(shape_ok(old(mm).article_view@[i].fields, article_view_shape()));
                    } else {
                        assert(final(mm).article_view@[i] == old(mm).article_view@[i + 1]);
                        assert(shape_ok(old(mm).article_view@[i + 1].fields, article_view_shape()));
                    }
                }
            }
        }
        r
    }
}

// endregion

// region: laws

/// Law: reading back a created row yields the created input's fields; the
/// id and the audit stamps are the server-assigned values.
pub proof fn lemma_article_view_create_then_get(fc: ArticleViewForCreate, id: i64, user: i64, ts: i64)
    ensures
        ({
            let a = article_view_of_row(article_view_create_row(fc, id, user, ts));
            &&& a.id == id
            &&& a.article_id == fc.article_id
            &&& a.viewer_id == fc.viewer_id
            &&& (fc.view_count matches Some(c) ==> a.view_count == c)
            &&& (fc.view_count is None ==> a.view_count == 0)
            &&& (fc.likes matches Some(b) ==> a.likes == b)
            &&& (fc.likes is None ==> a.likes == false)
            &&& (fc.dislikes matches Some(b) ==> a.dislikes == b)
            &&& (fc.dislikes is None ==> a.dislikes == false)
            &&& (fc.share matches Some(b) ==> a.share == b)
            &&& (fc.share is None ==> a.share == false)
            &&& a.creation_time == ts
            &&& a.updated_time == ts
        }),
{
}

// endregion

} // verus!
