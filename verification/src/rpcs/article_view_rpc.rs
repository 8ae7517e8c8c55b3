use vstd::prelude::*;

use crate::ctx::Ctx;
use crate::error::{EntityKind, Error};
use crate::model::article_view::{
    article_view_create_row, article_view_fields_of_update, article_view_of_row,
    article_view_rows_ok, filtered_article_views, ArticleView, ArticleViewBmc,
    ArticleViewFilter, ArticleViewForCreate, ArticleViewForUpdate, ArticleViewV,
};
use crate::model::base::{apply_fields, stamp_fields_update};
use crate::model::filter::{apply_list_options, ListOptions};
use crate::model::store::{
    find_index, lemma_find_index, lemma_find_index_unique, row_with_id, table_has_id,
    ModelManager, RowV, same_tables_except,
};
use crate::rpcs::value::{
    enc_bool, enc_i32, enc_i64, get_exec, get_of, obj_get, opt_bool, opt_bool_exec, opt_i32,
    opt_i32_exec, opt_int32_opvals_exec, opt_int32_opvals_ok, opt_int32_opvals_parsed,
    opt_int64_opvals_exec, opt_int64_opvals_ok, opt_int64_opvals_parsed, opt_list_options_exec,
    opt_list_options_ok, opt_list_options_parsed, req_i64, req_i64_exec, Value,
};
use crate::rpcs::RpcRouter;

verus! {

// region: parameter shapes

pub open spec fn article_view_fc_of(v: Value) -> Result<ArticleViewForCreate, Error> {
    match (
        req_i64(v, "article_id"@),
        req_i64(v, "viewer_id"@),
        opt_i32(v, "view_count"@),
        opt_bool(v, "likes"@),
        opt_bool(v, "dislikes"@),
        opt_bool(v, "share"@),
    ) {
        (Ok(article_id), Ok(viewer_id), Ok(view_count), Ok(likes), Ok(dislikes), Ok(share)) => Ok(
            ArticleViewForCreate { article_id, viewer_id, view_count, likes, dislikes, share },
        ),
        _ => Err(Error::InvalidParams),
    }
}

fn parse_article_view_fc(v: &Value) -> (r: Result<ArticleViewForCreate, Error>)
    ensures
        r == article_view_fc_of(*v),
{
    let article_id = match req_i64_exec(v, "article_id") {
        Ok(x) => x,
        Err(e) => {
            return Err(Error::InvalidParams);
        },
    };
    let viewer_id = match req_i64_exec(v, "viewer_id") {
        Ok(x) => x,
        Err(e) => {
            return Err(Error::InvalidParams);
        },
    };
    let view_count = match opt_i32_exec(v, "view_count") {
        Ok(x) => x,
        Err(e) => {
            return Err(Error::InvalidParams);
        },
    };
    let likes = match opt_bool_exec(v, "likes") {
        Ok(x) => x,
        Err(e) => {
            return Err(Error::InvalidParams);
        },
    };
    let dislikes = match opt_bool_exec(v, "dislikes") {
        Ok(x) => x,
        Err(e) => {
            return Err(Error::InvalidParams);
        },
    };
    let share = match opt_bool_exec(v, "share") {
        Ok(x) => x,
        Err(e) => {
            return Err(Error::InvalidParams);
        },
    };
    Ok(ArticleViewForCreate { article_id, viewer_id, view_count, likes, dislikes, share })
}

pub open spec fn article_view_fu_of(v: Value) -> Result<ArticleViewForUpdate, Error> {
    match (
        opt_i32(v, "view_count"@),
        opt_bool(v, "likes"@),
        opt_bool(v, "dislikes"@),
        opt_bool(v, "share"@),
    ) {
        (Ok(view_count), Ok(likes), Ok(dislikes), Ok(share)) => Ok(
            ArticleViewForUpdate { view_count, likes, dislikes, share },
        ),
        _ => Err(Error::InvalidParams),
    }
}

fn parse_article_view_fu(v: &Value) -> (r: Result<ArticleViewForUpdate, Error>)
    ensures
        r == article_view_fu_of(*v),
{
    let view_count = match opt_i32_exec(v, "view_count") {
        Ok(x) => x,
        Err(e) => {
            return Err(Error::InvalidParams);
        },
    };
    let likes = match opt_bool_exec(v, "likes") {
        Ok(x) => x,
        Err(e) => {
            return Err(Error::InvalidParams);
        },
    };
    let dislikes = match opt_bool_exec(v, "dislikes") {
        Ok(x) => x,
        Err(e) => {
            return Err(Error::InvalidParams);
        },
    };
    let share = match opt_bool_exec(v, "share") {
        Ok(x) => x,
        Err(e) => {
            return Err(Error::InvalidParams);
        },
    };
    Ok(ArticleViewForUpdate { view_count, likes, dislikes, share })
}

/// How one filter group reads from a value, member by member.
pub open spec fn article_view_filter_parsed(v: Value, f: ArticleViewFilter) -> bool {
    &&& v is Obj
    &&& opt_int64_opvals_parsed(v, "id"@, Ok(f.id))
    &&& opt_int64_opvals_parsed(v, "article_id"@, Ok(f.article_id))
    &&& opt_int64_opvals_parsed(v, "viewer_id"@, Ok(f.viewer_id))
    &&& opt_int32_opvals_parsed(v, "view_count"@, Ok(f.view_count))
    &&& opt_bool(v, "likes"@) == Ok::<Option<bool>, Error>(f.likes)
    &&& opt_bool(v, "dislikes"@) == Ok::<Option<bool>, Error>(f.dislikes)
    &&& opt_bool(v, "share"@) == Ok::<Option<bool>, Error>(f.share)
    &&& opt_int64_opvals_parsed(v, "creation_time"@, Ok(f.creation_time))
    &&& opt_int64_opvals_parsed(v, "updated_time"@, Ok(f.updated_time))
}

pub open spec fn article_view_filter_ok(v: Value) -> bool {
    &&& v is Obj
    &&& opt_int64_opvals_ok(v, "id"@)
    &&& opt_int64_opvals_ok(v, "article_id"@)
    &&& opt_int64_opvals_ok(v, "viewer_id"@)
    &&& opt_int32_opvals_ok(v, "view_count"@)
    &&& opt_bool(v, "likes"@) is Ok
    &&& opt_bool(v, "dislikes"@) is Ok
    &&& opt_bool(v, "share"@) is Ok
    &&& opt_int64_opvals_ok(v, "creation_time"@)
    &&& opt_int64_opvals_ok(v, "updated_time"@)
}

fn parse_article_view_filter(v: &Value) -> (r: Result<ArticleViewFilter, Error>)
    ensures
        r matches Ok(f) ==> article_view_filter_parsed(*v, f),
        r is Ok <==> article_view_filter_ok(*v),
        r is Err ==> r == Err::<ArticleViewFilter, Error>(Error::InvalidParams),
{
    match v {
        Value::Obj(_) => (),
        _ => {
            return Err(Error::InvalidParams);
        },
    }
    let id = match opt_int64_opvals_exec(v, "id") {
        Ok(x) => x,
        Err(e) => {
            return Err(Error::InvalidParams);
        },
    };
    let article_id = match opt_int64_opvals_exec(v, "article_id") {
        Ok(x) => x,
        Err(e) => {
            return Err(Error::InvalidParams);
        },
    };
    let viewer_id = match opt_int64_opvals_exec(v, "viewer_id") {
        Ok(x) => x,
        Err(e) => {
            return Err(Error::InvalidParams);
        },
    };
    let view_count = match opt_int32_opvals_exec(v, "view_count") {
        Ok(x) => x,
        Err(e) => {
            return Err(Error::InvalidParams);
        },
    };
    let likes = match opt_bool_exec(v, "likes") {
        Ok(x) => x,
        Err(e) => {
            return Err(Error::InvalidParams);
        },
    };
    let dislikes = match opt_bool_exec(v, "dislikes") {
        Ok(x) => x,
        Err(e) => {
            return Err(Error::InvalidParams);
        },
    };
    let share = match opt_bool_exec(v, "share") {
        Ok(x) => x,
        Err(e) => {
            return Err(Error::InvalidParams);
        },
    };
    let creation_time = match opt_int64_opvals_exec(v, "creation_time") {
        Ok(x) => x,
        Err(e) => {
            return Err(Error::InvalidParams);
        },
    };
    let updated_time = match opt_int64_opvals_exec(v, "updated_time") {
        Ok(x) => x,
        Err(e) => {
            return Err(Error::InvalidParams);
        },
    };
    Ok(
        ArticleViewFilter { id, article_id, viewer_id, view_count, likes, dislikes, share, creation_time, updated_time },
    )
}

/// How the optional `filters` member reads: an array of filter groups.
pub open spec fn article_view_filters_member_parsed(
    v: Value,
    filters: Option<Vec<ArticleViewFilter>>,
) -> bool {
    match get_of(v, "filters"@) {
        None => filters is None,
        Some(Value::Null) => filters is None,
        Some(Value::Arr(fvs)) => filters matches Some(fv) && fv@.len() == fvs@.len() && (forall|
            j: int,
        |
            0 <= j < fvs@.len() ==> article_view_filter_parsed(fvs@[j], #[trigger] fv@[j])),
        Some(_) => false,
    }
}

pub open spec fn article_view_filters_member_ok(v: Value) -> bool {
    match get_of(v, "filters"@) {
        None => true,
        Some(Value::Null) => true,
        Some(Value::Arr(fvs)) => forall|j: int|
            0 <= j < fvs@.len() ==> article_view_filter_ok(#[trigger] fvs@[j]),
        Some(_) => false,
    }
}

#[verifier::loop_isolation(false)]
fn parse_article_view_filters(v: &Value) -> (r: Result<Option<Vec<ArticleViewFilter>>, Error>)
    ensures
        r matches Ok(filters) ==> article_view_filters_member_parsed(*v, filters),
        r is Ok <==> article_view_filters_member_ok(*v),
        r is Err ==> r == Err::<Option<Vec<ArticleViewFilter>>, Error>(Error::InvalidParams),
{
    match get_exec(v, "filters") {
        None => Ok(None),
        Some(Value::Null) => Ok(None),
        Some(Value::Arr(fvs)) => {
            let n = fvs.len();
            let mut out: Vec<ArticleViewFilter> = Vec::new();
            let mut i: usize = 0;
            while i < n
                invariant
                    i <= n,
                    out@.len() == i as int,
                    forall|j: int|
                        0 <= j < i ==> article_view_filter_parsed(fvs@[j], #[trigger] out@[j])
                            && article_view_filter_ok(fvs@[j]),
                decreases n - i,
            {
                match parse_article_view_filter(&fvs[i]) {
                    Ok(f) => {
                        out.push(f);
                        proof {
                            assert(article_view_filter_parsed(fvs@[i as int], out@[i as int]));
                            assert(article_view_filter_ok(fvs@[i as int]));
                        }
                    },
                    Err(e) => {
                        proof {
                            assert(!article_view_filter_ok(fvs@[i as int]));
                            assert(!article_view_filters_member_ok(*v));
                        }
                        return Err(Error::InvalidParams);
                    },
                }
                i = i + 1;
            }
            proof {
                assert forall|j: int| 0 <= j < fvs@.len() implies article_view_filter_ok(
                    #[trigger] fvs@[j],
                ) by {
                    assert(article_view_filter_parsed(fvs@[j], out@[j]));
                }
                assert(article_view_filters_member_ok(*v));
                assert(article_view_filters_member_parsed(*v, Some(out)));
            }
            Ok(Some(out))
        },
        Some(_) => Err(Error::InvalidParams),
    }
}

// endregion

// region: the result shape

/// The object encoding of one article view row.
pub open spec fn article_view_encoded(v: Value, a: ArticleViewV) -> bool {
    &&& v matches Value::Obj(es) && es@.len() == 9
    &&& enc_i64(v, "id"@, a.id)
    &&& enc_i64(v, "article_id"@, a.article_id)
    &&& enc_i64(v, "viewer_id"@, a.viewer_id)
    &&& enc_i32(v, "view_count"@, a.view_count)
    &&& enc_bool(v, "likes"@, a.likes)
    &&& enc_bool(v, "dislikes"@, a.dislikes)
    &&& enc_bool(v, "share"@, a.share)
    &&& enc_i64(v, "creation_time"@, a.creation_time)
    &&& enc_i64(v, "updated_time"@, a.updated_time)
}

proof fn lemma_article_view_value_keys()
    ensures
        "id"@.len() == 2,
        "article_id"@.len() == 10,
        "viewer_id"@.len() == 9,
        "view_count"@.len() == 10,
        "likes"@.len() == 5,
        "dislikes"@.len() == 8,
        "share"@.len() == 5,
        "creation_time"@.len() == 13,
        "updated_time"@.len() == 12,
        "article_id"@[0] == 'a',
        "view_count"@[0] == 'v',
        "likes"@[0] == 'l',
        "share"@[0] == 's',
{
    reveal_strlit("id");
    reveal_strlit("article_id");
    reveal_strlit("viewer_id");
    reveal_strlit("view_count");
    reveal_strlit("likes");
    reveal_strlit("dislikes");
    reveal_strlit("share");
    reveal_strlit("creation_time");
    reveal_strlit("updated_time");
}

fn article_view_to_value(a: &ArticleView) -> (r: Value)
    ensures
        article_view_encoded(r, a@),
{
    let mut es: Vec<(String, Value)> = Vec::new();
    es.push(("id".to_owned(), Value::Int(a.id)));
    es.push(("article_id".to_owned(), Value::Int(a.article_id)));
    es.push(("viewer_id".to_owned(), Value::Int(a.viewer_id)));
    es.push(("view_count".to_owned(), Value::Int(a.view_count as i64)));
    es.push(("likes".to_owned(), Value::Bool(a.likes)));
    es.push(("dislikes".to_owned(), Value::Bool(a.dislikes)));
    es.push(("share".to_owned(), Value::Bool(a.share)));
    es.push(("creation_time".to_owned(), Value::Int(a.creation_time)));
    es.push(("updated_time".to_owned(), Value::Int(a.updated_time)));
    let r = Value::Obj(es);
    proof {
        lemma_article_view_value_keys();
        reveal_with_fuel(obj_get, 10);
        assert(enc_i64(r, "id"@, a@.id));
        assert(enc_i64(r, "article_id"@, a@.article_id));
        assert(enc_i64(r, "viewer_id"@, a@.viewer_id));
        assert(enc_i32(r, "view_count"@, a@.view_count));
        assert(enc_bool(r, "likes"@, a@.likes));
        assert(enc_bool(r, "dislikes"@, a@.dislikes));
        assert(enc_bool(r, "share"@, a@.share));
        assert(enc_i64(r, "creation_time"@, a@.creation_time));
        assert(enc_i64(r, "updated_time"@, a@.updated_time));
    }
    r
}

/// The `{ data: <article_view> }` result envelope.
pub open spec fn article_view_data_wrapped(v: Value, a: ArticleViewV) -> bool {
    &&& v matches Value::Obj(es) && es@.len() == 1
    &&& match get_of(v, "data"@) {
        Some(d) => article_view_encoded(d, a),
        None => false,
    }
}

/// The `{ data: [<article_view>...] }` result envelope.
pub open spec fn article_view_list_wrapped(v: Value, l: Seq<ArticleViewV>) -> bool {
    &&& v matches Value::Obj(es) && es@.len() == 1
    &&& match get_of(v, "data"@) {
        Some(Value::Arr(vs)) => vs@.len() == l.len() && (forall|j: int|
            0 <= j < l.len() ==> article_view_encoded(#[trigger] vs@[j], l[j])),
        _ => false,
    }
}

fn wrap_data(v: Value) -> (r: Value)
    ensures
        r matches Value::Obj(es) && es@.len() == 1,
        get_of(r, "data"@) == Some(v),
{
    let mut es: Vec<(String, Value)> = Vec::new();
    es.push(("data".to_owned(), v));
    Value::Obj(es)
}

// endregion

// region: handlers

/// The create input under the `data` member of the parameters.
pub open spec fn data_fc_of(params: Value) -> Result<ArticleViewForCreate, Error> {
    match get_of(params, "data"@) {
        Some(d) => article_view_fc_of(d),
        None => Err(Error::InvalidParams),
    }
}

/// The update input under the `data` member of the parameters.
pub open spec fn data_fu_of(params: Value) -> Result<ArticleViewForUpdate, Error> {
    match get_of(params, "data"@) {
        Some(d) => article_view_fu_of(d),
        None => Err(Error::InvalidParams),
    }
}

/// What the create handler did: parsed input, fresh row, entity result.
pub open spec fn create_article_view_post(
    params: Value,
    pre: ModelManager,
    post: ModelManager,
    user: i64,
    r: Result<Value, Error>,
) -> bool {
    match data_fc_of(params) {
        Err(e) => r == Err::<Value, Error>(Error::InvalidParams) && post == pre,
        Ok(fc) => {
            &&& (pre.article_view.next_id == i64::MAX ==> r == Err::<Value, Error>(Error::Store)
                && post == pre)
            &&& (pre.article_view.next_id < i64::MAX ==> {
                &&& post.article_view.next_id == pre.article_view.next_id + 1
                &&& exists|ts: i64|
                    post.article_view@ == pre.article_view@.push(
                        #[trigger] article_view_create_row(fc, pre.article_view.next_id, user, ts),
                    )
                &&& match r {
                    Ok(v) => article_view_data_wrapped(v, article_view_of_row(post.article_view@.last())),
                    Err(e) => false,
                }
            })
        },
    }
}

#[verifier::rlimit(100)]
pub fn create_article_view(ctx: &Ctx, mm: &mut ModelManager, params: &Value) -> (r: Result<
    Value,
    Error,
>)
    requires
        old(mm).wf(),
        article_view_rows_ok(old(mm).article_view@),
    ensures
        final(mm).wf(),
        article_view_rows_ok(final(mm).article_view@),
        same_tables_except(*old(mm), *final(mm), EntityKind::ArticleView),
        create_article_view_post(*params, *old(mm), *final(mm), ctx.user_id, r),
{
    let data = match get_exec(params, "data") {
        Some(d) => d,
        None => {
            return Err(Error::InvalidParams);
        },
    };
    let fc = match parse_article_view_fc(data) {
        Ok(fc) => fc,
        Err(e) => {
            return Err(Error::InvalidParams);
        },
    };
    let ghost gfc = fc;
    let id = match ArticleViewBmc::create(ctx, mm, fc) {
        Ok(id) => id,
        Err(e) => {
            return Err(e);
        },
    };
    proof {
        let ts = choose|ts: i64|
            mm.article_view@ =~= old(mm).article_view@.push(
                #[trigger] article_view_create_row(gfc, id, ctx.user_id, ts),
            );
        assert(mm.article_view@ =~= old(mm).article_view@.push(
            article_view_create_row(gfc, old(mm).article_view.next_id, ctx.user_id, ts),
        ));
        assert(mm.article_view@.last().id == id);
        assert(table_has_id(mm.article_view@, id));
        lemma_find_index_unique(mm.article_view@, id, mm.article_view@.len() - 1);
    }
    let a = match ArticleViewBmc::get(ctx, mm, id) {
        Ok(a) => a,
        Err(e) => vstd::pervasive::unreached(),
    };
    let v = article_view_to_value(&a);
    let r = wrap_data(v);
    let res: Result<Value, Error> = Ok(r);
    proof {
        assert(row_with_id(mm.article_view@, id) == mm.article_view@.last());
        assert(get_of(*params, "data"@) == Some(*data));
        assert(data_fc_of(*params) == Ok::<ArticleViewForCreate, Error>(gfc));
        assert(article_view_data_wrapped(r, article_view_of_row(mm.article_view@.last())));
        assert(id == old(mm).article_view.next_id);
        assert(create_article_view_post(*params, *old(mm), *mm, ctx.user_id, res));
    }
    res
}

/// What the get handler returned for each parameter shape.
pub open spec fn get_article_view_post(params: Value, mm: ModelManager, r: Result<Value, Error>) -> bool {
    match req_i64(params, "id"@) {
        Err(e) => r == Err::<Value, Error>(Error::InvalidParams),
        Ok(id) => {
            &&& table_has_id(mm.article_view@, id) ==> match r {
                Ok(v) => article_view_data_wrapped(v, article_view_of_row(row_with_id(mm.article_view@, id))),
                Err(e) => false,
            }
            &&& !table_has_id(mm.article_view@, id) ==> r == Err::<Value, Error>(
                Error::EntityNotFound { entity: EntityKind::ArticleView, id },
            )
        },
    }
}

pub fn get_article_view(ctx: &Ctx, mm: &ModelManager, params: &Value) -> (r: Result<Value, Error>)
    requires
        mm.wf(),
        article_view_rows_ok(mm.article_view@),
    ensures
        get_article_view_post(*params, *mm, r),
{
    let id = match req_i64_exec(params, "id") {
        Ok(x) => x,
        Err(e) => {
            return Err(Error::InvalidParams);
        },
    };
    let a = match ArticleViewBmc::get(ctx, mm, id) {
        Ok(a) => a,
        Err(e) => {
            return Err(e);
        },
    };
    let v = article_view_to_value(&a);
    Ok(wrap_data(v))
}

/// What the list handler returned: the filtered window, encoded.
pub open spec fn list_article_views_post(params: Value, mm: ModelManager, r: Result<
    Value,
    Error,
>) -> bool {
    let ok = article_view_filters_member_ok(params) && opt_list_options_ok(params);
    &&& !ok ==> r == Err::<Value, Error>(Error::InvalidParams)
    &&& ok ==> exists|filters: Option<Vec<ArticleViewFilter>>, opts: Option<ListOptions>|
        #![trigger article_view_filters_member_parsed(params, filters), opt_list_options_parsed(params, opts)]
        {
            &&& article_view_filters_member_parsed(params, filters)
            &&& opt_list_options_parsed(params, opts)
            &&& match r {
                Ok(v) => article_view_list_wrapped(
                    v,
                    apply_list_options(filtered_article_views(mm.article_view@, filters), opts),
                ),
                Err(e) => false,
            }
        }
}

#[verifier::loop_isolation(false)]
pub fn list_article_views(ctx: &Ctx, mm: &ModelManager, params: &Value) -> (r: Result<Value, Error>)
    requires
        mm.wf(),
        article_view_rows_ok(mm.article_view@),
    ensures
        list_article_views_post(*params, *mm, r),
{
    let filters = match parse_article_view_filters(params) {
        Ok(f) => f,
        Err(e) => {
            return Err(Error::InvalidParams);
        },
    };
    let opts = match opt_list_options_exec(params) {
        Ok(o) => o,
        Err(e) => {
            return Err(Error::InvalidParams);
        },
    };
    let ghost gf = filters;
    let ghost go = opts;
    let rows = match ArticleViewBmc::list(ctx, mm, filters, opts) {
        Ok(v) => v,
        Err(e) => vstd::pervasive::unreached(),
    };
    let ghost l = apply_list_options(filtered_article_views(mm.article_view@, gf), go);
    let n = rows.len();
    let mut vs: Vec<Value> = Vec::new();
    let mut i: usize = 0;
    while i < n
        invariant
            i <= n,
            vs@.len() == i as int,
            forall|j: int| 0 <= j < i ==> article_view_encoded(#[trigger] vs@[j], l[j]),
        decreases n - i,
    {
        proof {
            assert(rows.deep_view()[i as int] == rows@[i as int]@);
        }
        vs.push(article_view_to_value(&rows[i]));
        i = i + 1;
    }
    let v = wrap_data(Value::Arr(vs));
    proof {
        assert(article_view_list_wrapped(v, l));
        assert(article_view_filters_member_parsed(*params, gf));
    }
    Ok(v)
}

/// What the update handler did: parsed input, rewritten row, entity result.
pub open spec fn update_article_view_post(
    params: Value,
    pre: ModelManager,
    post: ModelManager,
    user: i64,
    r: Result<Value, Error>,
) -> bool {
    match (req_i64(params, "id"@), data_fu_of(params)) {
        (Ok(id), Ok(fu)) => {
            &&& !table_has_id(pre.article_view@, id) ==> r == Err::<Value, Error>(
                Error::EntityNotFound { entity: EntityKind::ArticleView, id },
            ) && post == pre
            &&& table_has_id(pre.article_view@, id) ==> {
                &&& exists|ts: i64|
                    post.article_view@ == pre.article_view@.update(
                        find_index(pre.article_view@, id),
                        RowV {
                            id,
                            fields: #[trigger] apply_fields(
                                row_with_id(pre.article_view@, id).fields,
                                article_view_fields_of_update(fu) + stamp_fields_update(user, ts),
                            ),
                        },
                    )
                &&& match r {
                    Ok(v) => article_view_data_wrapped(
                        v,
                        article_view_of_row(post.article_view@[find_index(pre.article_view@, id)]),
                    ),
                    Err(e) => false,
                }
            }
        },
        _ => r == Err::<Value, Error>(Error::InvalidParams) && post == pre,
    }
}

#[verifier::rlimit(100)]
pub fn update_article_view(ctx: &Ctx, mm: &mut ModelManager, params: &Value) -> (r: Result<
    Value,
    Error,
>)
    requires
        old(mm).wf(),
        article_view_rows_ok(old(mm).article_view@),
    ensures
        final(mm).wf(),
        article_view_rows_ok(final(mm).article_view@),
        same_tables_except(*old(mm), *final(mm), EntityKind::ArticleView),
        update_article_view_post(*params, *old(mm), *final(mm), ctx.user_id, r),
{
    let id = match req_i64_exec(params, "id") {
        Ok(x) => x,
        Err(e) => {
            return Err(Error::InvalidParams);
        },
    };
    let data = match get_exec(params, "data") {
        Some(d) => d,
        None => {
            return Err(Error::InvalidParams);
        },
    };
    let fu = match parse_article_view_fu(data) {
        Ok(fu) => fu,
        Err(e) => {
            return Err(Error::InvalidParams);
        },
    };
    let ghost gfu = fu;
    match ArticleViewBmc::update(ctx, mm, id, fu) {
        Ok(u) => (),
        Err(e) => {
            return Err(e);
        },
    }
    proof {
        lemma_find_index(old(mm).article_view@, id);
        let fi = find_index(old(mm).article_view@, id);
        let ts = choose|ts: i64|
            mm.article_view@ =~= old(mm).article_view@.update(
                fi,
                RowV {
                    id,
                    fields: #[trigger] apply_fields(
                        row_with_id(old(mm).article_view@, id).fields,
                        article_view_fields_of_update(gfu) + stamp_fields_update(ctx.user_id, ts),
                    ),
                },
            );
        assert(mm.article_view@[fi].id == id);
        lemma_find_index_unique(mm.article_view@, id, fi);
        assert(table_has_id(mm.article_view@, id));
    }
    let a = match ArticleViewBmc::get(ctx, mm, id) {
        Ok(a) => a,
        Err(e) => vstd::pervasive::unreached(),
    };
    let v = article_view_to_value(&a);
    let r = wrap_data(v);
    let res: Result<Value, Error> = Ok(r);
    proof {
        let fi = find_index(old(mm).article_view@, id);
        assert(row_with_id(mm.article_view@, id) == mm.article_view@[fi]);
        assert(get_of(*params, "data"@) == Some(*data));
        assert(data_fu_of(*params) == Ok::<ArticleViewForUpdate, Error>(gfu));
        assert(req_i64(*params, "id"@) == Ok::<i64, Error>(id));
        assert(article_view_data_wrapped(r, article_view_of_row(mm.article_view@[fi])));
        assert(update_article_view_post(*params, *old(mm), *mm, ctx.user_id, res));
    }
    res
}

/// What the delete handler did: removed row, entity result as it stood.
pub open spec fn delete_article_view_post(
    params: Value,
    pre: ModelManager,
    post: ModelManager,
    r: Result<Value, Error>,
) -> bool {
    match req_i64(params, "id"@) {
        Err(e) => r == Err::<Value, Error>(Error::InvalidParams) && post == pre,
        Ok(id) => {
            &&& !table_has_id(pre.article_view@, id) ==> r == Err::<Value, Error>(
                Error::EntityNotFound { entity: EntityKind::ArticleView, id },
            ) && post == pre
            &&& table_has_id(pre.article_view@, id) ==> {
                &&& post.article_view@ =~= pre.article_view@.remove(find_index(pre.article_view@, id))
                &&& !table_has_id(post.article_view@, id)
                &&& match r {
                    Ok(v) => article_view_data_wrapped(
                        v,
                        article_view_of_row(row_with_id(pre.article_view@, id)),
                    ),
                    Err(e) => false,
                }
            }
        },
    }
}

pub fn delete_article_view(ctx: &Ctx, mm: &mut ModelManager, params: &Value) -> (r: Result<
    Value,
    Error,
>)
    requires
        old(mm).wf(),
        article_view_rows_ok(old(mm).article_view@),
    ensures
        final(mm).wf(),
        article_view_rows_ok(final(mm).article_view@),
        same_tables_except(*old(mm), *final(mm), EntityKind::ArticleView),
        delete_article_view_post(*params, *old(mm), *final(mm), r),
{
    let id = match req_i64_exec(params, "id") {
        Ok(x) => x,
        Err(e) => {
            return Err(Error::InvalidParams);
        },
    };
    let a = match ArticleViewBmc::get(ctx, mm, id) {
        Ok(a) => a,
        Err(e) => {
            return Err(e);
        },
    };
    match ArticleViewBmc::delete(ctx, mm, id) {
        Ok(u) => (),
        Err(e) => vstd::pervasive::unreached(),
    }
    let v = article_view_to_value(&a);
    Ok(wrap_data(v))
}

// endregion

// region: the router

/// The five article view method names, in registration order.
pub open spec fn article_view_methods() -> Seq<Seq<char>> {
    seq![
        "create_article_view"@,
        "get_article_view"@,
        "list_article_views"@,
        "update_article_view"@,
        "delete_article_view"@,
    ]
}

/// The router entry for this entity: its five method names.
pub fn rpc_router() -> (r: RpcRouter)
    ensures
        r@ =~= article_view_methods(),
{
    let mut methods: Vec<String> = Vec::new();
    methods.push("create_article_view".to_owned());
    methods.push("get_article_view".to_owned());
    methods.push("list_article_views".to_owned());
    methods.push("update_article_view".to_owned());
    methods.push("delete_article_view".to_owned());
    let r = RpcRouter { methods };
    proof {
        assert(r@ =~= article_view_methods());
    }
    r
}

/// What a dispatched article view method guarantees, by name.
pub open spec fn article_view_rpc_post(
    method: Seq<char>,
    params: Value,
    pre: ModelManager,
    post: ModelManager,
    user: i64,
    r: Result<Value, Error>,
) -> bool {
    &&& method == "create_article_view"@ ==> create_article_view_post(params, pre, post, user, r)
    &&& method == "get_article_view"@ ==> post == pre && get_article_view_post(params, pre, r)
    &&& method == "list_article_views"@ ==> post == pre && list_article_views_post(params, pre, r)
    &&& method == "update_article_view"@ ==> update_article_view_post(params, pre, post, user, r)
    &&& method == "delete_article_view"@ ==> delete_article_view_post(params, pre, post, r)
}

// endregion

} // verus!
