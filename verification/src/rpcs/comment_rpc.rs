use vstd::prelude::*;

use crate::ctx::Ctx;
use crate::error::{EntityKind, Error};
use crate::model::comment::{
    comment_create_row, comment_fields_of_update, comment_of_row, comment_rows_ok,
    filtered_comments, Comment, CommentBmc, CommentFilter, CommentForCreate, CommentForUpdate,
    CommentV,
};
use crate::model::base::{apply_fields, stamp_fields_update};
use crate::model::filter::{apply_list_options, ListOptions};
use crate::model::store::{
    find_index, lemma_find_index, lemma_find_index_unique, row_with_id, table_has_id,
    ModelManager, RowV, same_tables_except,
};
use crate::rpcs::value::{
    enc_i64, enc_opt_i64, enc_str, get_exec, get_of, obj_get, opt_i64, opt_i64_exec,
    opt_int64_opvals_exec, opt_int64_opvals_ok, opt_int64_opvals_parsed, opt_list_options_exec,
    opt_list_options_ok, opt_list_options_parsed, opt_str, opt_str_exec,
    opt_string_opvals_exec, opt_string_opvals_ok, opt_string_opvals_parsed, req_i64,
    req_i64_exec, req_str, req_str_exec, Value,
};
use crate::rpcs::RpcRouter;

verus! {

// region: parameter shapes

pub open spec fn comment_fc_of(v: Value) -> Result<CommentForCreate, Error> {
    match (
        req_i64(v, "article_id"@),
        req_i64(v, "user_id"@),
        req_str(v, "content"@),
        opt_i64(v, "replay_to"@),
    ) {
        (Ok(article_id), Ok(user_id), Ok(content), Ok(replay_to)) => Ok(
            CommentForCreate { article_id, user_id, content, replay_to },
        ),
        _ => Err(Error::InvalidParams),
    }
}

fn parse_comment_fc(v: &Value) -> (r: Result<CommentForCreate, Error>)
    ensures
        r == comment_fc_of(*v),
{
    let article_id = match req_i64_exec(v, "article_id") {
        Ok(x) => x,
        Err(e) => {
            return Err(Error::InvalidParams);
        },
    };
    let user_id = match req_i64_exec(v, "user_id") {
        Ok(x) => x,
        Err(e) => {
            return Err(Error::InvalidParams);
        },
    };
    let content = match req_str_exec(v, "content") {
        Ok(x) => x,
        Err(e) => {
            return Err(Error::InvalidParams);
        },
    };
    let replay_to = match opt_i64_exec(v, "replay_to") {
        Ok(x) => x,
        Err(e) => {
            return Err(Error::InvalidParams);
        },
    };
    Ok(CommentForCreate { article_id, user_id, content, replay_to })
}

pub open spec fn comment_fu_of(v: Value) -> Result<CommentForUpdate, Error> {
    match opt_str(v, "content"@) {
        Ok(content) => Ok(
            CommentForUpdate { content },
        ),
        _ => Err(Error::InvalidParams),
    }
}

fn parse_comment_fu(v: &Value) -> (r: Result<CommentForUpdate, Error>)
    ensures
        r == comment_fu_of(*v),
{
    let content = match opt_str_exec(v, "content") {
        Ok(x) => x,
        Err(e) => {
            return Err(Error::InvalidParams);
        },
    };
    Ok(CommentForUpdate { content })
}

/// How one filter group reads from a value, member by member.
pub open spec fn comment_filter_parsed(v: Value, f: CommentFilter) -> bool {
    &&& v is Obj
    &&& opt_int64_opvals_parsed(v, "id"@, Ok(f.id))
    &&& opt_int64_opvals_parsed(v, "article_id"@, Ok(f.article_id))
    &&& opt_int64_opvals_parsed(v, "user_id"@, Ok(f.user_id))
    &&& opt_string_opvals_parsed(v, "content"@, Ok(f.content))
    &&& opt_int64_opvals_parsed(v, "replay_to"@, Ok(f.replay_to))
    &&& opt_int64_opvals_parsed(v, "creation_time"@, Ok(f.creation_time))
}

pub open spec fn comment_filter_ok(v: Value) -> bool {
    &&& v is Obj
    &&& opt_int64_opvals_ok(v, "id"@)
    &&& opt_int64_opvals_ok(v, "article_id"@)
    &&& opt_int64_opvals_ok(v, "user_id"@)
    &&& opt_string_opvals_ok(v, "content"@)
    &&& opt_int64_opvals_ok(v, "replay_to"@)
    &&& opt_int64_opvals_ok(v, "creation_time"@)
}

fn parse_comment_filter(v: &Value) -> (r: Result<CommentFilter, Error>)
    ensures
        r matches Ok(f) ==> comment_filter_parsed(*v, f),
        r is Ok <==> comment_filter_ok(*v),
        r is Err ==> r == Err::<CommentFilter, Error>(Error::InvalidParams),
{
    match v {
        Value::Obj(_) => (),
        _ => {
            return Err(Error::InvalidParams);
        },
    }
    let id = match opt_int64_opvals_exec(v, "id") {
        Ok(x) => x,
        Err(e) => {
            return Err(Error::InvalidParams);
        },
    };
    let article_id = match opt_int64_opvals_exec(v, "article_id") {
        Ok(x) => x,
        Err(e) => {
            return Err(Error::InvalidParams);
        },
    };
    let user_id = match opt_int64_opvals_exec(v, "user_id") {
        Ok(x) => x,
        Err(e) => {
            return Err(Error::InvalidParams);
        },
    };
    let content = match opt_string_opvals_exec(v, "content") {
        Ok(x) => x,
        Err(e) => {
            return Err(Error::InvalidParams);
        },
    };
    let replay_to = match opt_int64_opvals_exec(v, "replay_to") {
        Ok(x) => x,
        Err(e) => {
            return Err(Error::InvalidParams);
        },
    };
    let creation_time = match opt_int64_opvals_exec(v, "creation_time") {
        Ok(x) => x,
        Err(e) => {
            return Err(Error::InvalidParams);
        },
    };
    Ok(
        CommentFilter { id, article_id, user_id, content, replay_to, creation_time },
    )
}

/// How the optional `filters` member reads: an array of filter groups.
pub open spec fn comment_filters_member_parsed(
    v: Value,
    filters: Option<Vec<CommentFilter>>,
) -> bool {
    match get_of(v, "filters"@) {
        None => filters is None,
        Some(Value::Null) => filters is None,
        Some(Value::Arr(fvs)) => filters matches Some(fv) && fv@.len() == fvs@.len() && (forall|
            j: int,
        |
            0 <= j < fvs@.len() ==> comment_filter_parsed(fvs@[j], #[trigger] fv@[j])),
        Some(_) => false,
    }
}

pub open spec fn comment_filters_member_ok(v: Value) -> bool {
    match get_of(v, "filters"@) {
        None => true,
        Some(Value::Null) => true,
        Some(Value::Arr(fvs)) => forall|j: int|
            0 <= j < fvs@.len() ==> comment_filter_ok(#[trigger] fvs@[j]),
        Some(_) => false,
    }
}

#[verifier::loop_isolation(false)]
fn parse_comment_filters(v: &Value) -> (r: Result<Option<Vec<CommentFilter>>, Error>)
    ensures
        r matches Ok(filters) ==> comment_filters_member_parsed(*v, filters),
        r is Ok <==> comment_filters_member_ok(*v),
        r is Err ==> r == Err::<Option<Vec<CommentFilter>>, Error>(Error::InvalidParams),
{
    match get_exec(v, "filters") {
        None => Ok(None),
        Some(Value::Null) => Ok(None),
        Some(Value::Arr(fvs)) => {
            let n = fvs.len();
            let mut out: Vec<CommentFilter> = Vec::new();
            let mut i: usize = 0;
            while i < n
                invariant
                    i <= n,
                    out@.len() == i as int,
                    forall|j: int|
                        0 <= j < i ==> comment_filter_parsed(fvs@[j], #[trigger] out@[j])
                            && comment_filter_ok(fvs@[j]),
                decreases n - i,
            {
                match parse_comment_filter(&fvs[i]) {
                    Ok(f) => {
                        out.push(f);
                        proof {
                            assert(comment_filter_parsed(fvs@[i as int], out@[i as int]));
                            assert(comment_filter_ok(fvs@[i as int]));
                        }
                    },
                    Err(e) => {
                        proof {
                            assert(!comment_filter_ok(fvs@[i as int]));
                            assert(!comment_filters_member_ok(*v));
                        }
                        return Err(Error::InvalidParams);
                    },
                }
                i = i + 1;
            }
            proof {
                assert forall|j: int| 0 <= j < fvs@.len() implies comment_filter_ok(
                    #[trigger] fvs@[j],
                ) by {
                    assert(comment_filter_parsed(fvs@[j], out@[j]));
                }
                assert(comment_filters_member_ok(*v));
                assert(comment_filters_member_parsed(*v, Some(out)));
            }
            Ok(Some(out))
        },
        Some(_) => Err(Error::InvalidParams),
    }
}

// endregion

// region: the result shape

fn opt_i64_value(x: &Option<i64>) -> (r: Value)
    ensures
        match x {
            Some(y) => r == Value::Int(*y),
            None => r == Value::Null,
        },
{
    match x {
        Some(y) => Value::Int(*y),
        None => Value::Null,
    }
}

/// The object encoding of one comment row.
pub open spec fn comment_encoded(v: Value, a: CommentV) -> bool {
    &&& v matches Value::Obj(es) && es@.len() == 7
    &&& enc_i64(v, "id"@, a.id)
    &&& enc_i64(v, "article_id"@, a.article_id)
    &&& enc_i64(v, "user_id"@, a.user_id)
    &&& enc_str(v, "content"@, a.content)
    &&& enc_opt_i64(v, "replay_to"@, a.replay_to)
    &&& enc_i64(v, "creation_time"@, a.creation_time)
    &&& enc_i64(v, "updated_time"@, a.updated_time)
}

proof fn lemma_comment_value_keys()
    ensures
        "id"@.len() == 2,
        "article_id"@.len() == 10,
        "user_id"@.len() == 7,
        "content"@.len() == 7,
        "replay_to"@.len() == 9,
        "creation_time"@.len() == 13,
        "updated_time"@.len() == 12,
        "user_id"@[0] == 'u',
        "content"@[0] == 'c',
{
    reveal_strlit("id");
    reveal_strlit("article_id");
    reveal_strlit("user_id");
    reveal_strlit("content");
    reveal_strlit("replay_to");
    reveal_strlit("creation_time");
    reveal_strlit("updated_time");
}

fn comment_to_value(a: &Comment) -> (r: Value)
    ensures
        comment_encoded(r, a@),
{
    let mut es: Vec<(String, Value)> = Vec::new();
    es.push(("id".to_owned(), Value::Int(a.id)));
    es.push(("article_id".to_owned(), Value::Int(a.article_id)));
    es.push(("user_id".to_owned(), Value::Int(a.user_id)));
    es.push(("content".to_owned(), Value::Str(a.content.clone())));
    es.push(("replay_to".to_owned(), opt_i64_value(&a.replay_to)));
    es.push(("creation_time".to_owned(), Value::Int(a.creation_time)));
    es.push(("updated_time".to_owned(), Value::Int(a.updated_time)));
    let r = Value::Obj(es);
    proof {
        lemma_comment_value_keys();
        reveal_with_fuel(obj_get, 8);
        assert(enc_i64(r, "id"@, a@.id));
        assert(enc_i64(r, "article_id"@, a@.article_id));
        assert(enc_i64(r, "user_id"@, a@.user_id));
        assert(enc_str(r, "content"@, a@.content));
        assert(enc_opt_i64(r, "replay_to"@, a@.replay_to));
        assert(enc_i64(r, "creation_time"@, a@.creation_time));
        assert(enc_i64(r, "updated_time"@, a@.updated_time));
    }
    r
}

/// The `{ data: <comment> }` result envelope.
pub open spec fn comment_data_wrapped(v: Value, a: CommentV) -> bool {
    &&& v matches Value::Obj(es) && es@.len() == 1
    &&& match get_of(v, "data"@) {
        Some(d) => comment_encoded(d, a),
        None => false,
    }
}

/// The `{ data: [<comment>...] }` result envelope.
pub open spec fn comment_list_wrapped(v: Value, l: Seq<CommentV>) -> bool {
    &&& v matches Value::Obj(es) && es@.len() == 1
    &&& match get_of(v, "data"@) {
        Some(Value::Arr(vs)) => vs@.len() == l.len() && (forall|j: int|
            0 <= j < l.len() ==> comment_encoded(#[trigger] vs@[j], l[j])),
        _ => false,
    }
}

fn wrap_data(v: Value) -> (r: Value)
    ensures
        r matches Value::Obj(es) && es@.len() == 1,
        get_of(r, "data"@) == Some(v),
{
    let mut es: Vec<(String, Value)> = Vec::new();
    es.push(("data".to_owned(), v));
    Value::Obj(es)
}

// endregion

// region: handlers

/// The create input under the `data` member of the parameters.
pub open spec fn data_fc_of(params: Value) -> Result<CommentForCreate, Error> {
    match get_of(params, "data"@) {
        Some(d) => comment_fc_of(d),
        None => Err(Error::InvalidParams),
    }
}

/// The update input under the `data` member of the parameters.
pub open spec fn data_fu_of(params: Value) -> Result<CommentForUpdate, Error> {
    match get_of(params, "data"@) {
        Some(d) => comment_fu_of(d),
        None => Err(Error::InvalidParams),
    }
}

/// What the create handler did: parsed input, fresh row, entity result.
pub open spec fn create_comment_post(
    params: Value,
    pre: ModelManager,
    post: ModelManager,
    user: i64,
    r: Result<Value, Error>,
) -> bool {
    match data_fc_of(params) {
        Err(e) => r == Err::<Value, Error>(Error::InvalidParams) && post == pre,
        Ok(fc) => {
            &&& (pre.comment.next_id == i64::MAX ==> r == Err::<Value, Error>(Error::Store)
                && post == pre)
            &&& (pre.comment.next_id < i64::MAX ==> {
                &&& post.comment.next_id == pre.comment.next_id + 1
                &&& exists|ts: i64|
                    post.comment@ == pre.comment@.push(
                        #[trigger] comment_create_row(fc, pre.comment.next_id, user, ts),
                    )
                &&& match r {
                    Ok(v) => comment_data_wrapped(v, comment_of_row(post.comment@.last())),
                    Err(e) => false,
                }
            })
        },
    }
}

#[verifier::rlimit(100)]
pub fn create_comment(ctx: &Ctx, mm: &mut ModelManager, params: &Value) -> (r: Result<
    Value,
    Error,
>)
    requires
        old(mm).wf(),
        comment_rows_ok(old(mm).comment@),
    ensures
        final(mm).wf(),
        comment_rows_ok(final(mm).comment@),
        same_tables_except(*old(mm), *final(mm), EntityKind::Comment),
        create_comment_post(*params, *old(mm), *final(mm), ctx.user_id, r),
{
    let data = match get_exec(params, "data") {
        Some(d) => d,
        None => {
            return Err(Error::InvalidParams);
        },
    };
    let fc = match parse_comment_fc(data) {
        Ok(fc) => fc,
        Err(e) => {
            return Err(Error::InvalidParams);
        },
    };
    let ghost gfc = fc;
    let id = match CommentBmc::create(ctx, mm, fc) {
        Ok(id) => id,
        Err(e) => {
            return Err(e);
        },
    };
    proof {
        let ts = choose|ts: i64|
            mm.comment@ =~= old(mm).comment@.push(
                #[trigger] comment_create_row(gfc, id, ctx.user_id, ts),
            );
        assert(mm.comment@ =~= old(mm).comment@.push(
            comment_create_row(gfc, old(mm).comment.next_id, ctx.user_id, ts),
        ));
        assert(mm.comment@.last().id == id);
        assert(table_has_id(mm.comment@, id));
        lemma_find_index_unique(mm.comment@, id, mm.comment@.len() - 1);
    }
    let a = match CommentBmc::get(ctx, mm, id) {
        Ok(a) => a,
        Err(e) => vstd::pervasive::unreached(),
    };
    let v = comment_to_value(&a);
    let r = wrap_data(v);
    let res: Result<Value, Error> = Ok(r);
    proof {
        assert(row_with_id(mm.comment@, id) == mm.comment@.last());
        assert(get_of(*params, "data"@) == Some(*data));
        assert(data_fc_of(*params) == Ok::<CommentForCreate, Error>(gfc));
        assert(comment_data_wrapped(r, comment_of_row(mm.comment@.last())));
        assert(id == old(mm).comment.next_id);
        assert(create_comment_post(*params, *old(mm), *mm, ctx.user_id, res));
    }
    res
}

/// What the get handler returned for each parameter shape.
pub open spec fn get_comment_post(params: Value, mm: ModelManager, r: Result<Value, Error>) -> bool {
    match req_i64(params, "id"@) {
        Err(e) => r == Err::<Value, Error>(Error::InvalidParams),
        Ok(id) => {
            &&& table_has_id(mm.comment@, id) ==> match r {
                Ok(v) => comment_data_wrapped(v, comment_of_row(row_with_id(mm.comment@, id))),
                Err(e) => false,
            }
            &&& !table_has_id(mm.comment@, id) ==> r == Err::<Value, Error>(
                Error::EntityNotFound { entity: EntityKind::Comment, id },
            )
        },
    }
}

pub fn get_comment(ctx: &Ctx, mm: &ModelManager, params: &Value) -> (r: Result<Value, Error>)
    requires
        mm.wf(),
        comment_rows_ok(mm.comment@),
    ensures
        get_comment_post(*params, *mm, r),
{
    let id = match req_i64_exec(params, "id") {
        Ok(x) => x,
        Err(e) => {
            return Err(Error::InvalidParams);
        },
    };
    let a = match CommentBmc::get(ctx, mm, id) {
        Ok(a) => a,
        Err(e) => {
            return Err(e);
        },
    };
    let v = comment_to_value(&a);
    Ok(wrap_data(v))
}

/// What the list handler returned: the filtered window, encoded.
pub open spec fn list_comments_post(params: Value, mm: ModelManager, r: Result<
    Value,
    Error,
>) -> bool {
    let ok = comment_filters_member_ok(params) && opt_list_options_ok(params);
    &&& !ok ==> r == Err::<Value, Error>(Error::InvalidParams)
    &&& ok ==> exists|filters: Option<Vec<CommentFilter>>, opts: Option<ListOptions>|
        #![trigger comment_filters_member_parsed(params, filters), opt_list_options_parsed(params, opts)]
        {
            &&& comment_filters_member_parsed(params, filters)
            &&& opt_list_options_parsed(params, opts)
            &&& match r {
                Ok(v) => comment_list_wrapped(
                    v,
                    apply_list_options(filtered_comments(mm.comment@, filters), opts),
                ),
                Err(e) => false,
            }
        }
}

#[verifier::loop_isolation(false)]
pub fn list_comments(ctx: &Ctx, mm: &ModelManager, params: &Value) -> (r: Result<Value, Error>)
    requires
        mm.wf(),
        comment_rows_ok(mm.comment@),
    ensures
        list_comments_post(*params, *mm, r),
{
    let filters = match parse_comment_filters(params) {
        Ok(f) => f,
        Err(e) => {
            return Err(Error::InvalidParams);
        },
    };
    let opts = match opt_list_options_exec(params) {
        Ok(o) => o,
        Err(e) => {
            return Err(Error::InvalidParams);
        },
    };
    let ghost gf = filters;
    let ghost go = opts;
    let rows = match CommentBmc::list(ctx, mm, filters, opts) {
        Ok(v) => v,
        Err(e) => vstd::pervasive::unreached(),
    };
    let ghost l = apply_list_options(filtered_comments(mm.comment@, gf), go);
    let n = rows.len();
    let mut vs: Vec<Value> = Vec::new();
    let mut i: usize = 0;
    while i < n
        invariant
            i <= n,
            vs@.len() == i as int,
            forall|j: int| 0 <= j < i ==> comment_encoded(#[trigger] vs@[j], l[j]),
        decreases n - i,
    {
        proof {
            assert(rows.deep_view()[i as int] == rows@[i as int]@);
        }
        vs.push(comment_to_value(&rows[i]));
        i = i + 1;
    }
    let v = wrap_data(Value::Arr(vs));
    proof {
        assert(comment_list_wrapped(v, l));
        assert(comment_filters_member_parsed(*params, gf));
    }
    Ok(v)
}

/// What the update handler did: parsed input, rewritten row, entity result.
pub open spec fn update_comment_post(
    params: Value,
    pre: ModelManager,
    post: ModelManager,
    user: i64,
    r: Result<Value, Error>,
) -> bool {
    match (req_i64(params, "id"@), data_fu_of(params)) {
        (Ok(id), Ok(fu)) => {
            &&& !table_has_id(pre.comment@, id) ==> r == Err::<Value, Error>(
                Error::EntityNotFound { entity: EntityKind::Comment, id },
            ) && post == pre
            &&& table_has_id(pre.comment@, id) ==> {
                &&& exists|ts: i64|
                    post.comment@ == pre.comment@.update(
                        find_index(pre.comment@, id),
                        RowV {
                            id,
                            fields: #[trigger] apply_fields(
                                row_with_id(pre.comment@, id).fields,
                                comment_fields_of_update(fu) + stamp_fields_update(user, ts),
                            ),
                        },
                    )
                &&& match r {
                    Ok(v) => comment_data_wrapped(
                        v,
                        comment_of_row(post.comment@[find_index(pre.comment@, id)]),
                    ),
                    Err(e) => false,
                }
            }
        },
        _ => r == Err::<Value, Error>(Error::InvalidParams) && post == pre,
    }
}

#[verifier::rlimit(100)]
pub fn update_comment(ctx: &Ctx, mm: &mut ModelManager, params: &Value) -> (r: Result<
    Value,
    Error,
>)
    requires
        old(mm).wf(),
        comment_rows_ok(old(mm).comment@),
    ensures
        final(mm).wf(),
        comment_rows_ok(final(mm).comment@),
        same_tables_except(*old(mm), *final(mm), EntityKind::Comment),
        update_comment_post(*params, *old(mm), *final(mm), ctx.user_id, r),
{
    let id = match req_i64_exec(params, "id") {
        Ok(x) => x,
        Err(e) => {
            return Err(Error::InvalidParams);
        },
    };
    let data = match get_exec(params, "data") {
        Some(d) => d,
        None => {
            return Err(Error::InvalidParams);
        },
    };
    let fu = match parse_comment_fu(data) {
        Ok(fu) => fu,
        Err(e) => {
            return Err(Error::InvalidParams);
        },
    };
    let ghost gfu = fu;
    match CommentBmc::update(ctx, mm, id, fu) {
        Ok(u) => (),
        Err(e) => {
            return Err(e);
        },
    }
    proof {
        lemma_find_index(old(mm).comment@, id);
        let fi = find_index(old(mm).comment@, id);
        let ts = choose|ts: i64|
            mm.comment@ =~= old(mm).comment@.update(
                fi,
                RowV {
                    id,
                    fields: #[trigger] apply_fields(
                        row_with_id(old(mm).comment@, id).fields,
                        comment_fields_of_update(gfu) + stamp_fields_update(ctx.user_id, ts),
                    ),
                },
            );
        assert(mm.comment@[fi].id == id);
        lemma_find_index_unique(mm.comment@, id, fi);
        assert(table_has_id(mm.comment@, id));
    }
    let a = match CommentBmc::get(ctx, mm, id) {
        Ok(a) => a,
        Err(e) => vstd::pervasive::unreached(),
    };
    let v = comment_to_value(&a);
    let r = wrap_data(v);
    let res: Result<Value, Error> = Ok(r);
    proof {
        let fi = find_index(old(mm).comment@, id);
        assert(row_with_id(mm.comment@, id) == mm.comment@[fi]);
        assert(get_of(*params, "data"@) == Some(*data));
        assert(data_fu_of(*params) == Ok::<CommentForUpdate, Error>(gfu));
        assert(req_i64(*params, "id"@) == Ok::<i64, Error>(id));
        assert(comment_data_wrapped(r, comment_of_row(mm.comment@[fi])));
        assert(update_comment_post(*params, *old(mm), *mm, ctx.user_id, res));
    }
    res
}

/// What the delete handler did: removed row, entity result as it stood.
pub open spec fn delete_comment_post(
    params: Value,
    pre: ModelManager,
    post: ModelManager,
    r: Result<Value, Error>,
) -> bool {
    match req_i64(params, "id"@) {
        Err(e) => r == Err::<Value, Error>(Error::InvalidParams) && post == pre,
        Ok(id) => {
            &&& !table_has_id(pre.comment@, id) ==> r == Err::<Value, Error>(
                Error::EntityNotFound { entity: EntityKind::Comment, id },
            ) && post == pre
            &&& table_has_id(pre.comment@, id) ==> {
                &&& post.comment@ =~= pre.comment@.remove(find_index(pre.comment@, id))
                &&& !table_has_id(post.comment@, id)
                &&& match r {
                    Ok(v) => comment_data_wrapped(
                        v,
                        comment_of_row(row_with_id(pre.comment@, id)),
                    ),
                    Err(e) => false,
                }
            }
        },
    }
}

pub fn delete_comment(ctx: &Ctx, mm: &mut ModelManager, params: &Value) -> (r: Result<
    Value,
    Error,
>)
    requires
        old(mm).wf(),
        comment_rows_ok(old(mm).comment@),
    ensures
        final(mm).wf(),
        comment_rows_ok(final(mm).comment@),
        same_tables_except(*old(mm), *final(mm), EntityKind::Comment),
        delete_comment_post(*params, *old(mm), *final(mm), r),
{
    let id = match req_i64_exec(params, "id") {
        Ok(x) => x,
        Err(e) => {
            return Err(Error::InvalidParams);
        },
    };
    let a = match CommentBmc::get(ctx, mm, id) {
        Ok(a) => a,
        Err(e) => {
            return Err(e);
        },
    };
    match CommentBmc::delete(ctx, mm, id) {
        Ok(u) => (),
        Err(e) => vstd::pervasive::unreached(),
    }
    let v = comment_to_value(&a);
    Ok(wrap_data(v))
}

// endregion

// region: the router

/// The five comment method names, in registration order.
pub open spec fn comment_methods() -> Seq<Seq<char>> {
    seq![
        "create_comment"@,
        "get_comment"@,
        "list_comments"@,
        "update_comment"@,
        "delete_comment"@,
    ]
}

/// The router entry for this entity: its five method names.
pub fn rpc_router() -> (r: RpcRouter)
    ensures
        r@ =~= comment_methods(),
{
    let mut methods: Vec<String> = Vec::new();
    methods.push("create_comment".to_owned());
    methods.push("get_comment".to_owned());
    methods.push("list_comments".to_owned());
    methods.push("update_comment".to_owned());
    methods.push("delete_comment".to_owned());
    let r = RpcRouter { methods };
    proof {
        assert(r@ =~= comment_methods());
    }
    r
}

/// What a dispatched comment method guarantees, by name.
pub open spec fn comment_rpc_post(
    method: Seq<char>,
    params: Value,
    pre: ModelManager,
    post: ModelManager,
    user: i64,
    r: Result<Value, Error>,
) -> bool {
    &&& method == "create_comment"@ ==> create_comment_post(params, pre, post, user, r)
    &&& method == "get_comment"@ ==> post == pre && get_comment_post(params, pre, r)
    &&& method == "list_comments"@ ==> post == pre && list_comments_post(params, pre, r)
    &&& method == "update_comment"@ ==> update_comment_post(params, pre, post, user, r)
    &&& method == "delete_comment"@ ==> delete_comment_post(params, pre, post, r)
}

// endregion

} // verus!
