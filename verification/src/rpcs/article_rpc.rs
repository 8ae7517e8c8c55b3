use vstd::prelude::*;

use crate::ctx::Ctx;
use crate::error::{EntityKind, Error};
use crate::model::article::{
    approval_state_name, approval_state_text, approval_state_try_of_text,
    approval_state_try_parse, article_create_row, article_fields_of_update, article_of_row,
    article_rows_ok, filtered_articles, Article, ArticleBmc, ArticleFilter, ArticleForCreate,
    ArticleForUpdate, ArticleV,
};
use crate::model::base::{apply_fields, stamp_fields_update};
use crate::model::field::opt_text_view;
use crate::model::filter::{apply_list_options, ListOptions};
use crate::model::store::{
    find_index, lemma_find_index, lemma_find_index_unique, row_with_id, table_has_id,
    ModelManager, RowV, same_tables_except,
};
use crate::rpcs::value::{
    enc_i32, enc_i64, enc_opt_i64, enc_opt_str, enc_str, get_exec, get_of, obj_get, opt_i32,
    opt_i32_exec, opt_int32_opvals_exec, opt_int32_opvals_ok, opt_int32_opvals_parsed,
    opt_int64_opvals_exec, opt_int64_opvals_ok, opt_int64_opvals_parsed, opt_list_options_exec,
    opt_list_options_ok, opt_list_options_parsed, opt_str, opt_str_exec,
    opt_string_opvals_exec, opt_string_opvals_ok, opt_string_opvals_parsed, req_i64,
    req_i64_exec, req_str, req_str_exec, Value,
};
use crate::rpcs::RpcRouter;

verus! {

// region: parameter shapes

/// The create input a `data` member denotes.
pub open spec fn article_fc_of(v: Value) -> Result<ArticleForCreate, Error> {
    match (
        req_str(v, "title"@),
        req_str(v, "content"@),
        opt_i32(v, "category_id"@),
        req_i64(v, "author_id"@),
        req_approval_state(v),
        opt_str(v, "image_url"@),
    ) {
        (
            Ok(title),
            Ok(content),
            Ok(category_id),
            Ok(author_id),
            Ok(approval_state),
            Ok(image_url),
        ) => Ok(
            ArticleForCreate { title, content, category_id, author_id, approval_state, image_url },
        ),
        _ => Err(Error::InvalidParams),
    }
}

/// A required approval-state member: a string naming a known state.
pub open spec fn req_approval_state(v: Value) -> Result<
    crate::model::article::ApprovalState,
    Error,
> {
    match req_str(v, "approval_state"@) {
        Ok(s) => match approval_state_try_of_text(s@) {
            Some(st) => Ok(st),
            None => Err(Error::InvalidParams),
        },
        Err(e) => Err(e),
    }
}

/// The update input a `data` member denotes.
pub open spec fn article_fu_of(v: Value) -> Result<ArticleForUpdate, Error> {
    match (
        opt_str(v, "title"@),
        opt_str(v, "content"@),
        opt_i32(v, "category_id"@),
        opt_i32(v, "views"@),
        req_approval_state(v),
        opt_str(v, "image_url"@),
        opt_i32(v, "likes"@),
    ) {
        (Ok(title), Ok(content), Ok(category_id), Ok(views), Ok(approval_state), Ok(image_url), Ok(
            likes,
        )) => Ok(
            ArticleForUpdate {
                title,
                content,
                category_id,
                views,
                approval_state,
                image_url,
                likes,
            },
        ),
        _ => Err(Error::InvalidParams),
    }
}

fn parse_article_fc(v: &Value) -> (r: Result<ArticleForCreate, Error>)
    ensures
        r == article_fc_of(*v),
{
    let title = match req_str_exec(v, "title") {
        Ok(x) => x,
        Err(e) => {
            return Err(Error::InvalidParams);
        },
    };
    let content = match req_str_exec(v, "content") {
        Ok(x) => x,
        Err(e) => {
            return Err(Error::InvalidParams);
        },
    };
    let category_id = match opt_i32_exec(v, "category_id") {
        Ok(x) => x,
        Err(e) => {
            return Err(Error::InvalidParams);
        },
    };
    let author_id = match req_i64_exec(v, "author_id") {
        Ok(x) => x,
        Err(e) => {
            return Err(Error::InvalidParams);
        },
    };
    let st_name = match req_str_exec(v, "approval_state") {
        Ok(x) => x,
        Err(e) => {
            return Err(Error::InvalidParams);
        },
    };
    let approval_state = match approval_state_try_parse(&st_name) {
        Some(st) => st,
        None => {
            return Err(Error::InvalidParams);
        },
    };
    let image_url = match opt_str_exec(v, "image_url") {
        Ok(x) => x,
        Err(e) => {
            return Err(Error::InvalidParams);
        },
    };
    Ok(ArticleForCreate { title, content, category_id, author_id, approval_state, image_url })
}

fn parse_article_fu(v: &Value) -> (r: Result<ArticleForUpdate, Error>)
    ensures
        r == article_fu_of(*v),
{
    let title = match opt_str_exec(v, "title") {
        Ok(x) => x,
        Err(e) => {
            return Err(Error::InvalidParams);
        },
    };
    let content = match opt_str_exec(v, "content") {
        Ok(x) => x,
        Err(e) => {
            return Err(Error::InvalidParams);
        },
    };
    let category_id = match opt_i32_exec(v, "category_id") {
        Ok(x) => x,
        Err(e) => {
            return Err(Error::InvalidParams);
        },
    };
    let views = match opt_i32_exec(v, "views") {
        Ok(x) => x,
        Err(e) => {
            return Err(Error::InvalidParams);
        },
    };
    let st_name = match req_str_exec(v, "approval_state") {
        Ok(x) => x,
        Err(e) => {
            return Err(Error::InvalidParams);
        },
    };
    let approval_state = match approval_state_try_parse(&st_name) {
        Some(st) => st,
        None => {
            return Err(Error::InvalidParams);
        },
    };
    let image_url = match opt_str_exec(v, "image_url") {
        Ok(x) => x,
        Err(e) => {
            return Err(Error::InvalidParams);
        },
    };
    let likes = match opt_i32_exec(v, "likes") {
        Ok(x) => x,
        Err(e) => {
            return Err(Error::InvalidParams);
        },
    };
    Ok(ArticleForUpdate { title, content, category_id, views, approval_state, image_url, likes })
}

/// How one filter group reads from a value, member by member.
pub open spec fn article_filter_parsed(v: Value, f: ArticleFilter) -> bool {
    &&& v is Obj
    &&& opt_int64_opvals_parsed(v, "id"@, Ok(f.id))
    &&& opt_string_opvals_parsed(v, "title"@, Ok(f.title))
    &&& opt_string_opvals_parsed(v, "content"@, Ok(f.content))
    &&& opt_int32_opvals_parsed(v, "category_id"@, Ok(f.category_id))
    &&& opt_int64_opvals_parsed(v, "author_id"@, Ok(f.author_id))
    &&& opt_string_opvals_parsed(v, "approval_state"@, Ok(f.approval_state))
    &&& opt_int64_opvals_parsed(v, "approver_id"@, Ok(f.approver_id))
    &&& opt_int64_opvals_parsed(v, "approval_time"@, Ok(f.approval_time))
}

pub open spec fn article_filter_ok(v: Value) -> bool {
    &&& v is Obj
    &&& opt_int64_opvals_ok(v, "id"@)
    &&& opt_string_opvals_ok(v, "title"@)
    &&& opt_string_opvals_ok(v, "content"@)
    &&& opt_int32_opvals_ok(v, "category_id"@)
    &&& opt_int64_opvals_ok(v, "author_id"@)
    &&& opt_string_opvals_ok(v, "approval_state"@)
    &&& opt_int64_opvals_ok(v, "approver_id"@)
    &&& opt_int64_opvals_ok(v, "approval_time"@)
}

fn parse_article_filter(v: &Value) -> (r: Result<ArticleFilter, Error>)
    ensures
        r matches Ok(f) ==> article_filter_parsed(*v, f),
        r is Ok <==> article_filter_ok(*v),
        r is Err ==> r == Err::<ArticleFilter, Error>(Error::InvalidParams),
{
    match v {
        Value::Obj(_) => (),
        _ => {
            return Err(Error::InvalidParams);
        },
    }
    let id = match opt_int64_opvals_exec(v, "id") {
        Ok(x) => x,
        Err(e) => {
            return Err(Error::InvalidParams);
        },
    };
    let title = match opt_string_opvals_exec(v, "title") {
        Ok(x) => x,
        Err(e) => {
            return Err(Error::InvalidParams);
        },
    };
    let content = match opt_string_opvals_exec(v, "content") {
        Ok(x) => x,
        Err(e) => {
            return Err(Error::InvalidParams);
        },
    };
    let category_id = match opt_int32_opvals_exec(v, "category_id") {
        Ok(x) => x,
        Err(e) => {
            return Err(Error::InvalidParams);
        },
    };
    let author_id = match opt_int64_opvals_exec(v, "author_id") {
        Ok(x) => x,
        Err(e) => {
            return Err(Error::InvalidParams);
        },
    };
    let approval_state = match opt_string_opvals_exec(v, "approval_state") {
        Ok(x) => x,
        Err(e) => {
            return Err(Error::InvalidParams);
        },
    };
    let approver_id = match opt_int64_opvals_exec(v, "approver_id") {
        Ok(x) => x,
        Err(e) => {
            return Err(Error::InvalidParams);
        },
    };
    let approval_time = match opt_int64_opvals_exec(v, "approval_time") {
        Ok(x) => x,
        Err(e) => {
            return Err(Error::InvalidParams);
        },
    };
    Ok(
        ArticleFilter {
            id,
            title,
            content,
            category_id,
            author_id,
            approval_state,
            approver_id,
            approval_time,
        },
    )
}

/// How the optional `filters` member reads: an array of filter groups.
pub open spec fn article_filters_member_parsed(
    v: Value,
    filters: Option<Vec<ArticleFilter>>,
) -> bool {
    match get_of(v, "filters"@) {
        None => filters is None,
        Some(Value::Null) => filters is None,
        Some(Value::Arr(fvs)) => filters matches Some(fv) && fv@.len() == fvs@.len() && (forall|
            j: int,
        |
            0 <= j < fvs@.len() ==> article_filter_parsed(fvs@[j], #[trigger] fv@[j])),
        Some(_) => false,
    }
}

pub open spec fn article_filters_member_ok(v: Value) -> bool {
    match get_of(v, "filters"@) {
        None => true,
        Some(Value::Null) => true,
        Some(Value::Arr(fvs)) => forall|j: int|
            0 <= j < fvs@.len() ==> article_filter_ok(#[trigger] fvs@[j]),
        Some(_) => false,
    }
}

#[verifier::loop_isolation(false)]
fn parse_article_filters(v: &Value) -> (r: Result<Option<Vec<ArticleFilter>>, Error>)
    ensures
        r matches Ok(filters) ==> article_filters_member_parsed(*v, filters),
        r is Ok <==> article_filters_member_ok(*v),
        r is Err ==> r == Err::<Option<Vec<ArticleFilter>>, Error>(Error::InvalidParams),
{
    match get_exec(v, "filters") {
        None => Ok(None),
        Some(Value::Null) => Ok(None),
        Some(Value::Arr(fvs)) => {
            let n = fvs.len();
            let mut out: Vec<ArticleFilter> = Vec::new();
            let mut i: usize = 0;
            while i < n
                invariant
                    i <= n,
                    out@.len() == i as int,
                    forall|j: int|
                        0 <= j < i ==> article_filter_parsed(fvs@[j], #[trigger] out@[j])
                            && article_filter_ok(fvs@[j]),
                decreases n - i,
            {
                match parse_article_filter(&fvs[i]) {
                    Ok(f) => {
                        out.push(f);
                        proof {
                            assert(article_filter_parsed(fvs@[i as int], out@[i as int]));
                            assert(article_filter_ok(fvs@[i as int]));
                        }
                    },
                    Err(e) => {
                        proof {
                            assert(!article_filter_ok(fvs@[i as int]));
                            assert(!article_filters_member_ok(*v));
                        }
                        return Err(Error::InvalidParams);
                    },
                }
                i = i + 1;
            }
            proof {
                assert forall|j: int| 0 <= j < fvs@.len() implies article_filter_ok(
                    #[trigger] fvs@[j],
                ) by {
                    assert(article_filter_parsed(fvs@[j], out@[j]));
                }
                assert(article_filters_member_ok(*v));
                assert(article_filters_member_parsed(*v, Some(out)));
            }
            Ok(Some(out))
        },
        Some(_) => Err(Error::InvalidParams),
    }
}

// endregion

// region: the result shape

/// The object encoding of one article row.
pub open spec fn article_encoded(v: Value, a: ArticleV) -> bool {
    &&& v matches Value::Obj(es) && es@.len() == 15
    &&& enc_i64(v, "id"@, a.id)
    &&& enc_str(v, "title"@, a.title)
    &&& enc_str(v, "content"@, a.content)
    &&& enc_i32(v, "category_id"@, a.category_id)
    &&& enc_i64(v, "author_id"@, a.author_id)
    &&& enc_str(v, "approval_state"@, approval_state_text(a.approval_state))
    &&& enc_opt_i64(v, "approver_id"@, a.approver_id)
    &&& enc_opt_i64(v, "approval_time"@, a.approval_time)
    &&& enc_i32(v, "views"@, a.views)
    &&& enc_opt_str(v, "image_url"@, a.image_url)
    &&& enc_i32(v, "likes"@, a.likes)
    &&& enc_i64(v, "creator_id"@, a.creator_id)
    &&& enc_i64(v, "creation_time"@, a.creation_time)
    &&& enc_i64(v, "updater_id"@, a.updater_id)
    &&& enc_i64(v, "updated_time"@, a.updated_time)
}

proof fn lemma_article_value_keys()
    ensures
        "id"@.len() == 2,
        "title"@.len() == 5,
        "content"@.len() == 7,
        "category_id"@.len() == 11,
        "author_id"@.len() == 9,
        "approval_state"@.len() == 14,
        "approver_id"@.len() == 11,
        "approval_time"@.len() == 13,
        "views"@.len() == 5,
        "image_url"@.len() == 9,
        "likes"@.len() == 5,
        "creator_id"@.len() == 10,
        "creation_time"@.len() == 13,
        "updater_id"@.len() == 10,
        "updated_time"@.len() == 12,
        "title"@[0] == 't',
        "views"@[0] == 'v',
        "likes"@[0] == 'l',
        "author_id"@[0] == 'a',
        "image_url"@[0] == 'i',
        "category_id"@[0] == 'c',
        "approver_id"@[0] == 'a',
        "approval_time"@[0] == 'a',
        "creation_time"@[0] == 'c',
        "creator_id"@[0] == 'c',
        "updater_id"@[0] == 'u',
{
    reveal_strlit("id");
    reveal_strlit("title");
    reveal_strlit("content");
    reveal_strlit("category_id");
    reveal_strlit("author_id");
    reveal_strlit("approval_state");
    reveal_strlit("approver_id");
    reveal_strlit("approval_time");
    reveal_strlit("views");
    reveal_strlit("image_url");
    reveal_strlit("likes");
    reveal_strlit("creator_id");
    reveal_strlit("creation_time");
    reveal_strlit("updater_id");
    reveal_strlit("updated_time");
}

fn opt_i64_value(x: &Option<i64>) -> (r: Value)
    ensures
        match x {
            Some(y) => r == Value::Int(*y),
            None => r == Value::Null,
        },
{
    match x {
        Some(y) => Value::Int(*y),
        None => Value::Null,
    }
}

fn opt_str_value(x: &Option<String>) -> (r: Value)
    ensures
        match r {
            Value::Str(t) => opt_text_view(*x) matches Some(u) && t@ == u,
            Value::Null => opt_text_view(*x) is None,
            _ => false,
        },
{
    match x {
        Some(y) => Value::Str(y.clone()),
        None => Value::Null,
    }
}

fn article_to_value(a: &Article) -> (r: Value)
    ensures
        article_encoded(r, a@),
{
    let mut es: Vec<(String, Value)> = Vec::new();
    es.push(("id".to_owned(), Value::Int(a.id)));
    es.push(("title".to_owned(), Value::Str(a.title.clone())));
    es.push(("content".to_owned(), Value::Str(a.content.clone())));
    es.push(("category_id".to_owned(), Value::Int(a.category_id as i64)));
    es.push(("author_id".to_owned(), Value::Int(a.author_id)));
    es.push(("approval_state".to_owned(), Value::Str(approval_state_name(&a.approval_state))));
    es.push(("approver_id".to_owned(), opt_i64_value(&a.approver_id)));
    es.push(("approval_time".to_owned(), opt_i64_value(&a.approval_time)));
    es.push(("views".to_owned(), Value::Int(a.views as i64)));
    es.push(("image_url".to_owned(), opt_str_value(&a.image_url)));
    es.push(("likes".to_owned(), Value::Int(a.likes as i64)));
    es.push(("creator_id".to_owned(), Value::Int(a.creator_id)));
    es.push(("creation_time".to_owned(), Value::Int(a.creation_time)));
    es.push(("updater_id".to_owned(), Value::Int(a.updater_id)));
    es.push(("updated_time".to_owned(), Value::Int(a.updated_time)));
    let r = Value::Obj(es);
    proof {
        lemma_article_value_keys();
        reveal_with_fuel(obj_get, 16);
        assert(enc_i64(r, "id"@, a@.id));
        assert(enc_str(r, "title"@, a@.title));
        assert(enc_str(r, "content"@, a@.content));
        assert(enc_i32(r, "category_id"@, a@.category_id));
        assert(enc_i64(r, "author_id"@, a@.author_id));
        assert(enc_str(r, "approval_state"@, approval_state_text(a@.approval_state)));
        assert(enc_opt_i64(r, "approver_id"@, a@.approver_id));
        assert(enc_opt_i64(r, "approval_time"@, a@.approval_time));
        assert(enc_i32(r, "views"@, a@.views));
        assert(enc_opt_str(r, "image_url"@, a@.image_url));
        assert(enc_i32(r, "likes"@, a@.likes));
        assert(enc_i64(r, "creator_id"@, a@.creator_id));
        assert(enc_i64(r, "creation_time"@, a@.creation_time));
        assert(enc_i64(r, "updater_id"@, a@.updater_id));
        assert(enc_i64(r, "updated_time"@, a@.updated_time));
    }
    r
}

/// The `{ data: <article> }` result envelope.
pub open spec fn article_data_wrapped(v: Value, a: ArticleV) -> bool {
    &&& v matches Value::Obj(es) && es@.len() == 1
    &&& match get_of(v, "data"@) {
        Some(d) => article_encoded(d, a),
        None => false,
    }
}

/// The `{ data: [<article>...] }` result envelope.
pub open spec fn article_list_wrapped(v: Value, l: Seq<ArticleV>) -> bool {
    &&& v matches Value::Obj(es) && es@.len() == 1
    &&& match get_of(v, "data"@) {
        Some(Value::Arr(vs)) => vs@.len() == l.len() && (forall|j: int|
            0 <= j < l.len() ==> article_encoded(#[trigger] vs@[j], l[j])),
        _ => false,
    }
}

fn wrap_data(v: Value) -> (r: Value)
    ensures
        r matches Value::Obj(es) && es@.len() == 1,
        get_of(r, "data"@) == Some(v),
{
    let mut es: Vec<(String, Value)> = Vec::new();
    es.push(("data".to_owned(), v));
    Value::Obj(es)
}

// endregion

// region: handlers

/// The create input under the `data` member of the parameters.
pub open spec fn data_fc_of(params: Value) -> Result<ArticleForCreate, Error> {
    match get_of(params, "data"@) {
        Some(d) => article_fc_of(d),
        None => Err(Error::InvalidParams),
    }
}

/// The update input under the `data` member of the parameters.
pub open spec fn data_fu_of(params: Value) -> Result<ArticleForUpdate, Error> {
    match get_of(params, "data"@) {
        Some(d) => article_fu_of(d),
        None => Err(Error::InvalidParams),
    }
}

/// What the create handler did: parsed input, fresh row, entity result.
pub open spec fn create_article_post(
    params: Value,
    pre: ModelManager,
    post: ModelManager,
    user: i64,
    r: Result<Value, Error>,
) -> bool {
    match data_fc_of(params) {
        Err(e) => r == Err::<Value, Error>(Error::InvalidParams) && post == pre,
        Ok(fc) => {
            &&& (pre.article.next_id == i64::MAX ==> r == Err::<Value, Error>(Error::Store)
                && post == pre)
            &&& (pre.article.next_id < i64::MAX ==> {
                &&& post.article.next_id == pre.article.next_id + 1
                &&& exists|ts: i64|
                    post.article@ == pre.article@.push(
                        #[trigger] article_create_row(fc, pre.article.next_id, user, ts),
                    )
                &&& match r {
                    Ok(v) => article_data_wrapped(v, article_of_row(post.article@.last())),
                    Err(e) => false,
                }
            })
        },
    }
}

#[verifier::rlimit(100)]
pub fn create_article(ctx: &Ctx, mm: &mut ModelManager, params: &Value) -> (r: Result<
    Value,
    Error,
>)
    requires
        old(mm).wf(),
        article_rows_ok(old(mm).article@),
    ensures
        final(mm).wf(),
        article_rows_ok(final(mm).article@),
        same_tables_except(*old(mm), *final(mm), EntityKind::Article),
        create_article_post(*params, *old(mm), *final(mm), ctx.user_id, r),
{
    let data = match get_exec(params, "data") {
        Some(d) => d,
        None => {
            return Err(Error::InvalidParams);
        },
    };
    let fc = match parse_article_fc(data) {
        Ok(fc) => fc,
        Err(e) => {
            return Err(Error::InvalidParams);
        },
    };
    let ghost gfc = fc;
    let id = match ArticleBmc::create(ctx, mm, fc) {
        Ok(id) => id,
        Err(e) => {
            return Err(e);
        },
    };
    proof {
        let ts = choose|ts: i64|
            mm.article@ =~= old(mm).article@.push(
                #[trigger] article_create_row(gfc, id, ctx.user_id, ts),
            );
        assert(mm.article@ =~= old(mm).article@.push(
            article_create_row(gfc, old(mm).article.next_id, ctx.user_id, ts),
        ));
        assert(mm.article@.last().id == id);
        assert(table_has_id(mm.article@, id));
        lemma_find_index_unique(mm.article@, id, mm.article@.len() - 1);
    }
    let a = match ArticleBmc::get(ctx, mm, id) {
        Ok(a) => a,
        Err(e) => vstd::pervasive::unreached(),
    };
    let v = article_to_value(&a);
    let r = wrap_data(v);
    let res: Result<Value, Error> = Ok(r);
    proof {
        assert(row_with_id(mm.article@, id) == mm.article@.last());
        assert(get_of(*params, "data"@) == Some(*data));
        assert(data_fc_of(*params) == Ok::<ArticleForCreate, Error>(gfc));
        assert(article_data_wrapped(r, article_of_row(mm.article@.last())));
        assert(id == old(mm).article.next_id);
        assert(create_article_post(*params, *old(mm), *mm, ctx.user_id, res));
    }
    res
}

/// What the get handler returned for each parameter shape.
pub open spec fn get_article_post(params: Value, mm: ModelManager, r: Result<Value, Error>) -> bool {
    match req_i64(params, "id"@) {
        Err(e) => r == Err::<Value, Error>(Error::InvalidParams),
        Ok(id) => {
            &&& table_has_id(mm.article@, id) ==> match r {
                Ok(v) => article_data_wrapped(v, article_of_row(row_with_id(mm.article@, id))),
                Err(e) => false,
            }
            &&& !table_has_id(mm.article@, id) ==> r == Err::<Value, Error>(
                Error::EntityNotFound { entity: EntityKind::Article, id },
            )
        },
    }
}

pub fn get_article(ctx: &Ctx, mm: &ModelManager, params: &Value) -> (r: Result<Value, Error>)
    requires
        mm.wf(),
        article_rows_ok(mm.article@),
    ensures
        get_article_post(*params, *mm, r),
{
    let id = match req_i64_exec(params, "id") {
        Ok(x) => x,
        Err(e) => {
            return Err(Error::InvalidParams);
        },
    };
    let a = match ArticleBmc::get(ctx, mm, id) {
        Ok(a) => a,
        Err(e) => {
            return Err(e);
        },
    };
    let v = article_to_value(&a);
    Ok(wrap_data(v))
}

/// What the list handler returned: the filtered window, encoded.
pub open spec fn list_articles_post(params: Value, mm: ModelManager, r: Result<
    Value,
    Error,
>) -> bool {
    let ok = article_filters_member_ok(params) && opt_list_options_ok(params);
    &&& !ok ==> r == Err::<Value, Error>(Error::InvalidParams)
    &&& ok ==> exists|filters: Option<Vec<ArticleFilter>>, opts: Option<ListOptions>|
        #![trigger article_filters_member_parsed(params, filters), opt_list_options_parsed(params, opts)]
        {
            &&& article_filters_member_parsed(params, filters)
            &&& opt_list_options_parsed(params, opts)
            &&& match r {
                Ok(v) => article_list_wrapped(
                    v,
                    apply_list_options(filtered_articles(mm.article@, filters), opts),
                ),
                Err(e) => false,
            }
        }
}

#[verifier::loop_isolation(false)]
pub fn list_articles(ctx: &Ctx, mm: &ModelManager, params: &Value) -> (r: Result<Value, Error>)
    requires
        mm.wf(),
        article_rows_ok(mm.article@),
    ensures
        list_articles_post(*params, *mm, r),
{
    let filters = match parse_article_filters(params) {
        Ok(f) => f,
        Err(e) => {
            return Err(Error::InvalidParams);
        },
    };
    let opts = match opt_list_options_exec(params) {
        Ok(o) => o,
        Err(e) => {
            return Err(Error::InvalidParams);
        },
    };
    let ghost gf = filters;
    let ghost go = opts;
    let rows = match ArticleBmc::list(ctx, mm, filters, opts) {
        Ok(v) => v,
        Err(e) => vstd::pervasive::unreached(),
    };
    let ghost l = apply_list_options(filtered_articles(mm.article@, gf), go);
    let n = rows.len();
    let mut vs: Vec<Value> = Vec::new();
    let mut i: usize = 0;
    while i < n
        invariant
            i <= n,
            vs@.len() == i as int,
            forall|j: int| 0 <= j < i ==> article_encoded(#[trigger] vs@[j], l[j]),
        decreases n - i,
    {
        proof {
            assert(rows.deep_view()[i as int] == rows@[i as int]@);
        }
        vs.push(article_to_value(&rows[i]));
        i = i + 1;
    }
    let v = wrap_data(Value::Arr(vs));
    proof {
        assert(article_list_wrapped(v, l));
        assert(article_filters_member_parsed(*params, gf));
    }
    Ok(v)
}

/// What the update handler did: parsed input, rewritten row, entity result.
pub open spec fn update_article_post(
    params: Value,
    pre: ModelManager,
    post: ModelManager,
    user: i64,
    r: Result<Value, Error>,
) -> bool {
    match (req_i64(params, "id"@), data_fu_of(params)) {
        (Ok(id), Ok(fu)) => {
            &&& !table_has_id(pre.article@, id) ==> r == Err::<Value, Error>(
                Error::EntityNotFound { entity: EntityKind::Article, id },
            ) && post == pre
            &&& table_has_id(pre.article@, id) ==> {
                &&& exists|ts: i64|
                    post.article@ == pre.article@.update(
                        find_index(pre.article@, id),
                        RowV {
                            id,
                            fields: #[trigger] apply_fields(
                                row_with_id(pre.article@, id).fields,
                                article_fields_of_update(fu) + stamp_fields_update(user, ts),
                            ),
                        },
                    )
                &&& match r {
                    Ok(v) => article_data_wrapped(
                        v,
                        article_of_row(post.article@[find_index(pre.article@, id)]),
                    ),
                    Err(e) => false,
                }
            }
        },
        _ => r == Err::<Value, Error>(Error::InvalidParams) && post == pre,
    }
}

#[verifier::rlimit(100)]
pub fn update_article(ctx: &Ctx, mm: &mut ModelManager, params: &Value) -> (r: Result<
    Value,
    Error,
>)
    requires
        old(mm).wf(),
        article_rows_ok(old(mm).article@),
    ensures
        final(mm).wf(),
        article_rows_ok(final(mm).article@),
        same_tables_except(*old(mm), *final(mm), EntityKind::Article),
        update_article_post(*params, *old(mm), *final(mm), ctx.user_id, r),
{
    let id = match req_i64_exec(params, "id") {
        Ok(x) => x,
        Err(e) => {
            return Err(Error::InvalidParams);
        },
    };
    let data = match get_exec(params, "data") {
        Some(d) => d,
        None => {
            return Err(Error::InvalidParams);
        },
    };
    let fu = match parse_article_fu(data) {
        Ok(fu) => fu,
        Err(e) => {
            return Err(Error::InvalidParams);
        },
    };
    let ghost gfu = fu;
    match ArticleBmc::update(ctx, mm, id, fu) {
        Ok(u) => (),
        Err(e) => {
            return Err(e);
        },
    }
    proof {
        lemma_find_index(old(mm).article@, id);
        let fi = find_index(old(mm).article@, id);
        let ts = choose|ts: i64|
            mm.article@ =~= old(mm).article@.update(
                fi,
                RowV {
                    id,
                    fields: #[trigger] apply_fields(
                        row_with_id(old(mm).article@, id).fields,
                        article_fields_of_update(gfu) + stamp_fields_update(ctx.user_id, ts),
                    ),
                },
            );
        assert(mm.article@[fi].id == id);
        lemma_find_index_unique(mm.article@, id, fi);
        assert(table_has_id(mm.article@, id));
    }
    let a = match ArticleBmc::get(ctx, mm, id) {
        Ok(a) => a,
        Err(e) => vstd::pervasive::unreached(),
    };
    let v = article_to_value(&a);
    let r = wrap_data(v);
    let res: Result<Value, Error> = Ok(r);
    proof {
        let fi = find_index(old(mm).article@, id);
        assert(row_with_id(mm.article@, id) == mm.article@[fi]);
        assert(get_of(*params, "data"@) == Some(*data));
        assert(data_fu_of(*params) == Ok::<ArticleForUpdate, Error>(gfu));
        assert(req_i64(*params, "id"@) == Ok::<i64, Error>(id));
        assert(article_data_wrapped(r, article_of_row(mm.article@[fi])));
        assert(update_article_post(*params, *old(mm), *mm, ctx.user_id, res));
    }
    res
}

/// What the delete handler did: removed row, entity result as it stood.
pub open spec fn delete_article_post(
    params: Value,
    pre: ModelManager,
    post: ModelManager,
    r: Result<Value, Error>,
) -> bool {
    match req_i64(params, "id"@) {
        Err(e) => r == Err::<Value, Error>(Error::InvalidParams) && post == pre,
        Ok(id) => {
            &&& !table_has_id(pre.article@, id) ==> r == Err::<Value, Error>(
                Error::EntityNotFound { entity: EntityKind::Article, id },
            ) && post == pre
            &&& table_has_id(pre.article@, id) ==> {
                &&& post.article@ =~= pre.article@.remove(find_index(pre.article@, id))
                &&& !table_has_id(post.article@, id)
                &&& match r {
                    Ok(v) => article_data_wrapped(
                        v,
                        article_of_row(row_with_id(pre.article@, id)),
                    ),
                    Err(e) => false,
                }
            }
        },
    }
}

pub fn delete_article(ctx: &Ctx, mm: &mut ModelManager, params: &Value) -> (r: Result<
    Value,
    Error,
>)
    requires
        old(mm).wf(),
        article_rows_ok(old(mm).article@),
    ensures
        final(mm).wf(),
        article_rows_ok(final(mm).article@),
        same_tables_except(*old(mm), *final(mm), EntityKind::Article),
        delete_article_post(*params, *old(mm), *final(mm), r),
{
    let id = match req_i64_exec(params, "id") {
        Ok(x) => x,
        Err(e) => {
            return Err(Error::InvalidParams);
        },
    };
    let a = match ArticleBmc::get(ctx, mm, id) {
        Ok(a) => a,
        Err(e) => {
            return Err(e);
        },
    };
    match ArticleBmc::delete(ctx, mm, id) {
        Ok(u) => (),
        Err(e) => vstd::pervasive::unreached(),
    }
    let v = article_to_value(&a);
    Ok(wrap_data(v))
}

// endregion

// region: the router

/// The five article method names, in registration order.
pub open spec fn article_methods() -> Seq<Seq<char>> {
    seq![
        "create_article"@,
        "get_article"@,
        "list_articles"@,
        "update_article"@,
        "delete_article"@,
    ]
}

/// The router entry for articles: its five method names.
pub fn rpc_router() -> (r: RpcRouter)
    ensures
        r@ =~= article_methods(),
{
    let mut methods: Vec<String> = Vec::new();
    methods.push("create_article".to_owned());
    methods.push("get_article".to_owned());
    methods.push("list_articles".to_owned());
    methods.push("update_article".to_owned());
    methods.push("delete_article".to_owned());
    let r = RpcRouter { methods };
    proof {
        assert(r@ =~= article_methods());
    }
    r
}

/// What a dispatched article method guarantees, by name.
pub open spec fn article_rpc_post(
    method: Seq<char>,
    params: Value,
    pre: ModelManager,
    post: ModelManager,
    user: i64,
    r: Result<Value, Error>,
) -> bool {
    &&& method == "create_article"@ ==> create_article_post(params, pre, post, user, r)
    &&& method == "get_article"@ ==> post == pre && get_article_post(params, pre, r)
    &&& method == "list_articles"@ ==> post == pre && list_articles_post(params, pre, r)
    &&& method == "update_article"@ ==> update_article_post(params, pre, post, user, r)
    &&& method == "delete_article"@ ==> delete_article_post(params, pre, post, r)
}

// endregion

} // verus!
