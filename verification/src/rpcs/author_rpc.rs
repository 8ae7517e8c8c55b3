use vstd::prelude::*;

use crate::ctx::Ctx;
use crate::error::{EntityKind, Error};
use crate::model::author::{
    author_create_row, author_fields_of_update, author_of_row, author_rows_ok,
    author_type_name, author_type_text, author_type_try_of_text, author_type_try_parse,
    filtered_authors, Author, AuthorBmc, AuthorFilter, AuthorForCreate, AuthorForUpdate,
    AuthorType, AuthorV,
};
use crate::model::base::{apply_fields, stamp_fields_update};
use crate::model::field::opt_text_view;
use crate::model::filter::{apply_list_options, ListOptions};
use crate::model::store::{
    find_index, lemma_find_index, lemma_find_index_unique, row_with_id, table_has_id,
    ModelManager, RowV, same_tables_except,
};
use crate::rpcs::value::{
    enc_i64, enc_opt_str, enc_str, get_exec, get_of, obj_get, opt_int64_opvals_exec, opt_int64_opvals_ok, opt_int64_opvals_parsed, opt_list_options_exec,
    opt_list_options_ok, opt_list_options_parsed, opt_str, opt_str_exec,
    opt_string_opvals_exec, opt_string_opvals_ok, opt_string_opvals_parsed, req_i64,
    req_i64_exec, req_str, req_str_exec, Value,
};
use crate::rpcs::RpcRouter;

verus! {

// region: parameter shapes

/// A required author-type member: a string naming a known kind.
pub open spec fn req_author_type(v: Value) -> Result<AuthorType, Error> {
    match req_str(v, "author_type"@) {
        Ok(s) => match author_type_try_of_text(s@) {
            Some(t) => Ok(t),
            None => Err(Error::InvalidParams),
        },
        Err(e) => Err(e),
    }
}

pub open spec fn author_fc_of(v: Value) -> Result<AuthorForCreate, Error> {
    match (
        req_i64(v, "user_id"@),
        req_author_type(v),
        req_str(v, "pen_name"@),
        opt_str(v, "bio"@),
        opt_str(v, "website"@),
        opt_str(v, "avatar_url"@),
    ) {
        (Ok(user_id), Ok(author_type), Ok(pen_name), Ok(bio), Ok(website), Ok(avatar_url)) => Ok(
            AuthorForCreate { user_id, author_type, pen_name, bio, website, avatar_url },
        ),
        _ => Err(Error::InvalidParams),
    }
}

fn parse_author_fc(v: &Value) -> (r: Result<AuthorForCreate, Error>)
    ensures
        r == author_fc_of(*v),
{
    let user_id = match req_i64_exec(v, "user_id") {
        Ok(x) => x,
        Err(e) => {
            return Err(Error::InvalidParams);
        },
    };
    let at_name = match req_str_exec(v, "author_type") {
        Ok(x) => x,
        Err(e) => {
            return Err(Error::InvalidParams);
        },
    };
    let author_type = match author_type_try_parse(&at_name) {
        Some(t) => t,
        None => {
            return Err(Error::InvalidParams);
        },
    };
    let pen_name = match req_str_exec(v, "pen_name") {
        Ok(x) => x,
        Err(e) => {
            return Err(Error::InvalidParams);
        },
    };
    let bio = match opt_str_exec(v, "bio") {
        Ok(x) => x,
        Err(e) => {
            return Err(Error::InvalidParams);
        },
    };
    let website = match opt_str_exec(v, "website") {
        Ok(x) => x,
        Err(e) => {
            return Err(Error::InvalidParams);
        },
    };
    let avatar_url = match opt_str_exec(v, "avatar_url") {
        Ok(x) => x,
        Err(e) => {
            return Err(Error::InvalidParams);
        },
    };
    Ok(AuthorForCreate { user_id, author_type, pen_name, bio, website, avatar_url })
}

pub open spec fn author_fu_of(v: Value) -> Result<AuthorForUpdate, Error> {
    match (
        req_i64(v, "user_id"@),
        req_author_type(v),
        req_str(v, "pen_name"@),
        opt_str(v, "bio"@),
        opt_str(v, "website"@),
        opt_str(v, "avatar_url"@),
    ) {
        (Ok(user_id), Ok(author_type), Ok(pen_name), Ok(bio), Ok(website), Ok(avatar_url)) => Ok(
            AuthorForUpdate { user_id, author_type, pen_name, bio, website, avatar_url },
        ),
        _ => Err(Error::InvalidParams),
    }
}

fn parse_author_fu(v: &Value) -> (r: Result<AuthorForUpdate, Error>)
    ensures
        r == author_fu_of(*v),
{
    let user_id = match req_i64_exec(v, "user_id") {
        Ok(x) => x,
        Err(e) => {
            return Err(Error::InvalidParams);
        },
    };
    let at_name = match req_str_exec(v, "author_type") {
        Ok(x) => x,
        Err(e) => {
            return Err(Error::InvalidParams);
        },
    };
    let author_type = match author_type_try_parse(&at_name) {
        Some(t) => t,
        None => {
            return Err(Error::InvalidParams);
        },
    };
    let pen_name = match req_str_exec(v, "pen_name") {
        Ok(x) => x,
        Err(e) => {
            return Err(Error::InvalidParams);
        },
    };
    let bio = match opt_str_exec(v, "bio") {
        Ok(x) => x,
        Err(e) => {
            return Err(Error::InvalidParams);
        },
    };
    let website = match opt_str_exec(v, "website") {
        Ok(x) => x,
        Err(e) => {
            return Err(Error::InvalidParams);
        },
    };
    let avatar_url = match opt_str_exec(v, "avatar_url") {
        Ok(x) => x,
        Err(e) => {
            return Err(Error::InvalidParams);
        },
    };
    Ok(AuthorForUpdate { user_id, author_type, pen_name, bio, website, avatar_url })
}

/// How one filter group reads from a value, member by member.
pub open spec fn author_filter_parsed(v: Value, f: AuthorFilter) -> bool {
    &&& v is Obj
    &&& opt_int64_opvals_parsed(v, "user_id"@, Ok(f.user_id))
    &&& opt_string_opvals_parsed(v, "author_type"@, Ok(f.author_type))
    &&& opt_string_opvals_parsed(v, "pen_name"@, Ok(f.pen_name))
}

pub open spec fn author_filter_ok(v: Value) -> bool {
    &&& v is Obj
    &&& opt_int64_opvals_ok(v, "user_id"@)
    &&& opt_string_opvals_ok(v, "author_type"@)
    &&& opt_string_opvals_ok(v, "pen_name"@)
}

fn parse_author_filter(v: &Value) -> (r: Result<AuthorFilter, Error>)
    ensures
        r matches Ok(f) ==> author_filter_parsed(*v, f),
        r is Ok <==> author_filter_ok(*v),
        r is Err ==> r == Err::<AuthorFilter, Error>(Error::InvalidParams),
{
    match v {
        Value::Obj(_) => (),
        _ => {
            return Err(Error::InvalidParams);
        },
    }
    let user_id = match opt_int64_opvals_exec(v, "user_id") {
        Ok(x) => x,
        Err(e) => {
            return Err(Error::InvalidParams);
        },
    };
    let author_type = match opt_string_opvals_exec(v, "author_type") {
        Ok(x) => x,
        Err(e) => {
            return Err(Error::InvalidParams);
        },
    };
    let pen_name = match opt_string_opvals_exec(v, "pen_name") {
        Ok(x) => x,
        Err(e) => {
            return Err(Error::InvalidParams);
        },
    };
    Ok(
        AuthorFilter { user_id, author_type, pen_name },
    )
}

/// How the optional `filters` member reads: an array of filter groups.
pub open spec fn author_filters_member_parsed(
    v: Value,
    filters: Option<Vec<AuthorFilter>>,
) -> bool {
    match get_of(v, "filters"@) {
        None => filters is None,
        Some(Value::Null) => filters is None,
        Some(Value::Arr(fvs)) => filters matches Some(fv) && fv@.len() == fvs@.len() && (forall|
            j: int,
        |
            0 <= j < fvs@.len() ==> author_filter_parsed(fvs@[j], #[trigger] fv@[j])),
        Some(_) => false,
    }
}

pub open spec fn author_filters_member_ok(v: Value) -> bool {
    match get_of(v, "filters"@) {
        None => true,
        Some(Value::Null) => true,
        Some(Value::Arr(fvs)) => forall|j: int|
            0 <= j < fvs@.len() ==> author_filter_ok(#[trigger] fvs@[j]),
        Some(_) => false,
    }
}

#[verifier::loop_isolation(false)]
fn parse_author_filters(v: &Value) -> (r: Result<Option<Vec<AuthorFilter>>, Error>)
    ensures
        r matches Ok(filters) ==> author_filters_member_parsed(*v, filters),
        r is Ok <==> author_filters_member_ok(*v),
        r is Err ==> r == Err::<Option<Vec<AuthorFilter>>, Error>(Error::InvalidParams),
{
    match get_exec(v, "filters") {
        None => Ok(None),
        Some(Value::Null) => Ok(None),
        Some(Value::Arr(fvs)) => {
            let n = fvs.len();
            let mut out: Vec<AuthorFilter> = Vec::new();
            let mut i: usize = 0;
            while i < n
                invariant
                    i <= n,
                    out@.len() == i as int,
                    forall|j: int|
                        0 <= j < i ==> author_filter_parsed(fvs@[j], #[trigger] out@[j])
                            && author_filter_ok(fvs@[j]),
                decreases n - i,
            {
                match parse_author_filter(&fvs[i]) {
                    Ok(f) => out.push(f),
                    Err(e) => {
                        proof {
                            assert(!author_filter_ok(fvs@[i as int]));
                            assert(!author_filters_member_ok(*v));
                        }
                        return Err(Error::InvalidParams);
                    },
                }
                i = i + 1;
            }
            proof {
                assert forall|j: int| 0 <= j < fvs@.len() implies author_filter_ok(
                    #[trigger] fvs@[j],
                ) by {
                    assert(author_filter_parsed(fvs@[j], out@[j]));
                }
                assert(author_filters_member_ok(*v));
                assert(author_filters_member_parsed(*v, Some(out)));
            }
            Ok(Some(out))
        },
        Some(_) => Err(Error::InvalidParams),
    }
}

// endregion

// region: the result shape

fn opt_str_value(x: &Option<String>) -> (r: Value)
    ensures
        match r {
            Value::Str(t) => opt_text_view(*x) matches Some(u) && t@ == u,
            Value::Null => opt_text_view(*x) is None,
            _ => false,
        },
{
    match x {
        Some(y) => Value::Str(y.clone()),
        None => Value::Null,
    }
}

/// The object encoding of one author row.
pub open spec fn author_encoded(v: Value, a: AuthorV) -> bool {
    &&& v matches Value::Obj(es) && es@.len() == 11
    &&& enc_i64(v, "id"@, a.id)
    &&& enc_i64(v, "user_id"@, a.user_id)
    &&& enc_str(v, "author_type"@, author_type_text(a.author_type))
    &&& enc_str(v, "pen_name"@, a.pen_name)
    &&& enc_opt_str(v, "bio"@, a.bio)
    &&& enc_opt_str(v, "website"@, a.website)
    &&& enc_opt_str(v, "avatar_url"@, a.avatar_url)
    &&& enc_i64(v, "creator_id"@, a.creator_id)
    &&& enc_i64(v, "creation_time"@, a.creation_time)
    &&& enc_i64(v, "updater_id"@, a.updater_id)
    &&& enc_i64(v, "updated_time"@, a.updated_time)
}

proof fn lemma_author_value_keys()
    ensures
        "id"@.len() == 2,
        "user_id"@.len() == 7,
        "author_type"@.len() == 11,
        "pen_name"@.len() == 8,
        "bio"@.len() == 3,
        "website"@.len() == 7,
        "avatar_url"@.len() == 10,
        "creator_id"@.len() == 10,
        "creation_time"@.len() == 13,
        "updater_id"@.len() == 10,
        "updated_time"@.len() == 12,
        "user_id"@[0] == 'u',
        "website"@[0] == 'w',
        "avatar_url"@[0] == 'a',
        "creator_id"@[0] == 'c',
        "updater_id"@[0] == 'u',
{
    reveal_strlit("id");
    reveal_strlit("user_id");
    reveal_strlit("author_type");
    reveal_strlit("pen_name");
    reveal_strlit("bio");
    reveal_strlit("website");
    reveal_strlit("avatar_url");
    reveal_strlit("creator_id");
    reveal_strlit("creation_time");
    reveal_strlit("updater_id");
    reveal_strlit("updated_time");
}

fn author_to_value(a: &Author) -> (r: Value)
    ensures
        author_encoded(r, a@),
{
    let mut es: Vec<(String, Value)> = Vec::new();
    es.push(("id".to_owned(), Value::Int(a.id)));
    es.push(("user_id".to_owned(), Value::Int(a.user_id)));
    es.push(("author_type".to_owned(), Value::Str(author_type_name(&a.author_type))));
    es.push(("pen_name".to_owned(), Value::Str(a.pen_name.clone())));
    es.push(("bio".to_owned(), opt_str_value(&a.bio)));
    es.push(("website".to_owned(), opt_str_value(&a.website)));
    es.push(("avatar_url".to_owned(), opt_str_value(&a.avatar_url)));
    es.push(("creator_id".to_owned(), Value::Int(a.creator_id)));
    es.push(("creation_time".to_owned(), Value::Int(a.creation_time)));
    es.push(("updater_id".to_owned(), Value::Int(a.updater_id)));
    es.push(("updated_time".to_owned(), Value::Int(a.updated_time)));
    let r = Value::Obj(es);
    proof {
        lemma_author_value_keys();
        reveal_with_fuel(obj_get, 12);
        assert(enc_i64(r, "id"@, a@.id));
        assert(enc_i64(r, "user_id"@, a@.user_id));
        assert(enc_str(r, "author_type"@, author_type_text(a@.author_type)));
        assert(enc_str(r, "pen_name"@, a@.pen_name));
        assert(enc_opt_str(r, "bio"@, a@.bio));
        assert(enc_opt_str(r, "website"@, a@.website));
        assert(enc_opt_str(r, "avatar_url"@, a@.avatar_url));
        assert(enc_i64(r, "creator_id"@, a@.creator_id));
        assert(enc_i64(r, "creation_time"@, a@.creation_time));
        assert(enc_i64(r, "updater_id"@, a@.updater_id));
        assert(enc_i64(r, "updated_time"@, a@.updated_time));
    }
    r
}

/// The `{ data: <author> }` result envelope.
pub open spec fn author_data_wrapped(v: Value, a: AuthorV) -> bool {
    &&& v matches Value::Obj(es) && es@.len() == 1
    &&& match get_of(v, "data"@) {
        Some(d) => author_encoded(d, a),
        None => false,
    }
}

/// The `{ data: [<author>...] }` result envelope.
pub open spec fn author_list_wrapped(v: Value, l: Seq<AuthorV>) -> bool {
    &&& v matches Value::Obj(es) && es@.len() == 1
    &&& match get_of(v, "data"@) {
        Some(Value::Arr(vs)) => vs@.len() == l.len() && (forall|j: int|
            0 <= j < l.len() ==> author_encoded(#[trigger] vs@[j], l[j])),
        _ => false,
    }
}

fn wrap_data(v: Value) -> (r: Value)
    ensures
        r matches Value::Obj(es) && es@.len() == 1,
        get_of(r, "data"@) == Some(v),
{
    let mut es: Vec<(String, Value)> = Vec::new();
    es.push(("data".to_owned(), v));
    Value::Obj(es)
}

// endregion

// region: handlers

/// The create input under the `data` member of the parameters.
pub open spec fn data_fc_of(params: Value) -> Result<AuthorForCreate, Error> {
    match get_of(params, "data"@) {
        Some(d) => author_fc_of(d),
        None => Err(Error::InvalidParams),
    }
}

/// The update input under the `data` member of the parameters.
pub open spec fn data_fu_of(params: Value) -> Result<AuthorForUpdate, Error> {
    match get_of(params, "data"@) {
        Some(d) => author_fu_of(d),
        None => Err(Error::InvalidParams),
    }
}

/// What the create handler did: parsed input, fresh row, entity result.
pub open spec fn create_author_post(
    params: Value,
    pre: ModelManager,
    post: ModelManager,
    user: i64,
    r: Result<Value, Error>,
) -> bool {
    match data_fc_of(params) {
        Err(e) => r == Err::<Value, Error>(Error::InvalidParams) && post == pre,
        Ok(fc) => {
            &&& (pre.author.next_id == i64::MAX ==> r == Err::<Value, Error>(Error::Store)
                && post == pre)
            &&& (pre.author.next_id < i64::MAX ==> {
                &&& post.author.next_id == pre.author.next_id + 1
                &&& exists|ts: i64|
                    post.author@ == pre.author@.push(
                        #[trigger] author_create_row(fc, pre.author.next_id, user, ts),
                    )
                &&& match r {
                    Ok(v) => author_data_wrapped(v, author_of_row(post.author@.last())),
                    Err(e) => false,
                }
            })
        },
    }
}

#[verifier::rlimit(100)]
pub fn create_author(ctx: &Ctx, mm: &mut ModelManager, params: &Value) -> (r: Result<
    Value,
    Error,
>)
    requires
        old(mm).wf(),
        author_rows_ok(old(mm).author@),
    ensures
        final(mm).wf(),
        author_rows_ok(final(mm).author@),
        same_tables_except(*old(mm), *final(mm), EntityKind::Author),
        create_author_post(*params, *old(mm), *final(mm), ctx.user_id, r),
{
    let data = match get_exec(params, "data") {
        Some(d) => d,
        None => {
            return Err(Error::InvalidParams);
        },
    };
    let fc = match parse_author_fc(data) {
        Ok(fc) => fc,
        Err(e) => {
            return Err(Error::InvalidParams);
        },
    };
    let ghost gfc = fc;
    let id = match AuthorBmc::create(ctx, mm, fc) {
        Ok(id) => id,
        Err(e) => {
            return Err(e);
        },
    };
    proof {
        let ts = choose|ts: i64|
            mm.author@ =~= old(mm).author@.push(
                #[trigger] author_create_row(gfc, id, ctx.user_id, ts),
            );
        assert(mm.author@ =~= old(mm).author@.push(
            author_create_row(gfc, old(mm).author.next_id, ctx.user_id, ts),
        ));
        assert(mm.author@.last().id == id);
        assert(table_has_id(mm.author@, id));
        lemma_find_index_unique(mm.author@, id, mm.author@.len() - 1);
    }
    let a = match AuthorBmc::get(ctx, mm, id) {
        Ok(a) => a,
        Err(e) => vstd::pervasive::unreached(),
    };
    let v = author_to_value(&a);
    let r = wrap_data(v);
    let res: Result<Value, Error> = Ok(r);
    proof {
        assert(row_with_id(mm.author@, id) == mm.author@.last());
        assert(get_of(*params, "data"@) == Some(*data));
        assert(data_fc_of(*params) == Ok::<AuthorForCreate, Error>(gfc));
        assert(author_data_wrapped(r, author_of_row(mm.author@.last())));
        assert(id == old(mm).author.next_id);
        assert(create_author_post(*params, *old(mm), *mm, ctx.user_id, res));
    }
    res
}

/// What the get handler returned for each parameter shape.
pub open spec fn get_author_post(params: Value, mm: ModelManager, r: Result<Value, Error>) -> bool {
    match req_i64(params, "id"@) {
        Err(e) => r == Err::<Value, Error>(Error::InvalidParams),
        Ok(id) => {
            &&& table_has_id(mm.author@, id) ==> match r {
                Ok(v) => author_data_wrapped(v, author_of_row(row_with_id(mm.author@, id))),
                Err(e) => false,
            }
            &&& !table_has_id(mm.author@, id) ==> r == Err::<Value, Error>(
                Error::EntityNotFound { entity: EntityKind::Author, id },
            )
        },
    }
}

pub fn get_author(ctx: &Ctx, mm: &ModelManager, params: &Value) -> (r: Result<Value, Error>)
    requires
        mm.wf(),
        author_rows_ok(mm.author@),
    ensures
        get_author_post(*params, *mm, r),
{
    let id = match req_i64_exec(params, "id") {
        Ok(x) => x,
        Err(e) => {
            return Err(Error::InvalidParams);
        },
    };
    let a = match AuthorBmc::get(ctx, mm, id) {
        Ok(a) => a,
        Err(e) => {
            return Err(e);
        },
    };
    let v = author_to_value(&a);
    Ok(wrap_data(v))
}

/// What the list handler returned: the filtered window, encoded.
pub open spec fn list_authors_post(params: Value, mm: ModelManager, r: Result<
    Value,
    Error,
>) -> bool {
    let ok = author_filters_member_ok(params) && opt_list_options_ok(params);
    &&& !ok ==> r == Err::<Value, Error>(Error::InvalidParams)
    &&& ok ==> exists|filters: Option<Vec<AuthorFilter>>, opts: Option<ListOptions>|
        #![trigger author_filters_member_parsed(params, filters), opt_list_options_parsed(params, opts)]
        {
            &&& author_filters_member_parsed(params, filters)
            &&& opt_list_options_parsed(params, opts)
            &&& match r {
                Ok(v) => author_list_wrapped(
                    v,
                    apply_list_options(filtered_authors(mm.author@, filters), opts),
                ),
                Err(e) => false,
            }
        }
}

#[verifier::loop_isolation(false)]
pub fn list_authors(ctx: &Ctx, mm: &ModelManager, params: &Value) -> (r: Result<Value, Error>)
    requires
        mm.wf(),
        author_rows_ok(mm.author@),
    ensures
        list_authors_post(*params, *mm, r),
{
    let filters = match parse_author_filters(params) {
        Ok(f) => f,
        Err(e) => {
            return Err(Error::InvalidParams);
        },
    };
    let opts = match opt_list_options_exec(params) {
        Ok(o) => o,
        Err(e) => {
            return Err(Error::InvalidParams);
        },
    };
    let ghost gf = filters;
    let ghost go = opts;
    let rows = match AuthorBmc::list(ctx, mm, filters, opts) {
        Ok(v) => v,
        Err(e) => vstd::pervasive::unreached(),
    };
    let ghost l = apply_list_options(filtered_authors(mm.author@, gf), go);
    let n = rows.len();
    let mut vs: Vec<Value> = Vec::new();
    let mut i: usize = 0;
    while i < n
        invariant
            i <= n,
            vs@.len() == i as int,
            forall|j: int| 0 <= j < i ==> author_encoded(#[trigger] vs@[j], l[j]),
        decreases n - i,
    {
        proof {
            assert(rows.deep_view()[i as int] == rows@[i as int]@);
        }
        vs.push(author_to_value(&rows[i]));
        i = i + 1;
    }
    let v = wrap_data(Value::Arr(vs));
    proof {
        assert(author_list_wrapped(v, l));
        assert(author_filters_member_parsed(*params, gf));
    }
    Ok(v)
}

/// What the update handler did: parsed input, rewritten row, entity result.
pub open spec fn update_author_post(
    params: Value,
    pre: ModelManager,
    post: ModelManager,
    user: i64,
    r: Result<Value, Error>,
) -> bool {
    match (req_i64(params, "id"@), data_fu_of(params)) {
        (Ok(id), Ok(fu)) => {
            &&& !table_has_id(pre.author@, id) ==> r == Err::<Value, Error>(
                Error::EntityNotFound { entity: EntityKind::Author, id },
            ) && post == pre
            &&& table_has_id(pre.author@, id) ==> {
                &&& exists|ts: i64|
                    post.author@ == pre.author@.update(
                        find_index(pre.author@, id),
                        RowV {
                            id,
                            fields: #[trigger] apply_fields(
                                row_with_id(pre.author@, id).fields,
                                author_fields_of_update(fu) + stamp_fields_update(user, ts),
                            ),
                        },
                    )
                &&& match r {
                    Ok(v) => author_data_wrapped(
                        v,
                        author_of_row(post.author@[find_index(pre.author@, id)]),
                    ),
                    Err(e) => false,
                }
            }
        },
        _ => r == Err::<Value, Error>(Error::InvalidParams) && post == pre,
    }
}

#[verifier::rlimit(100)]
pub fn update_author(ctx: &Ctx, mm: &mut ModelManager, params: &Value) -> (r: Result<
    Value,
    Error,
>)
    requires
        old(mm).wf(),
        author_rows_ok(old(mm).author@),
    ensures
        final(mm).wf(),
        author_rows_ok(final(mm).author@),
        same_tables_except(*old(mm), *final(mm), EntityKind::Author),
        update_author_post(*params, *old(mm), *final(mm), ctx.user_id, r),
{
    let id = match req_i64_exec(params, "id") {
        Ok(x) => x,
        Err(e) => {
            return Err(Error::InvalidParams);
        },
    };
    let data = match get_exec(params, "data") {
        Some(d) => d,
        None => {
            return Err(Error::InvalidParams);
        },
    };
    let fu = match parse_author_fu(data) {
        Ok(fu) => fu,
        Err(e) => {
            return Err(Error::InvalidParams);
        },
    };
    let ghost gfu = fu;
    match AuthorBmc::update(ctx, mm, id, fu) {
        Ok(u) => (),
        Err(e) => {
            return Err(e);
        },
    }
    proof {
        lemma_find_index(old(mm).author@, id);
        let fi = find_index(old(mm).author@, id);
        let ts = choose|ts: i64|
            mm.author@ =~= old(mm).author@.update(
                fi,
                RowV {
                    id,
                    fields: #[trigger] apply_fields(
                        row_with_id(old(mm).author@, id).fields,
                        author_fields_of_update(gfu) + stamp_fields_update(ctx.user_id, ts),
                    ),
                },
            );
        assert(mm.author@[fi].id == id);
        lemma_find_index_unique(mm.author@, id, fi);
        assert(table_has_id(mm.author@, id));
    }
    let a = match AuthorBmc::get(ctx, mm, id) {
        Ok(a) => a,
        Err(e) => vstd::pervasive::unreached(),
    };
    let v = author_to_value(&a);
    let r = wrap_data(v);
    let res: Result<Value, Error> = Ok(r);
    proof {
        let fi = find_index(old(mm).author@, id);
        assert(row_with_id(mm.author@, id) == mm.author@[fi]);
        assert(get_of(*params, "data"@) == Some(*data));
        assert(data_fu_of(*params) == Ok::<AuthorForUpdate, Error>(gfu));
        assert(req_i64(*params, "id"@) == Ok::<i64, Error>(id));
        assert(author_data_wrapped(r, author_of_row(mm.author@[fi])));
        assert(update_author_post(*params, *old(mm), *mm, ctx.user_id, res));
    }
    res
}

/// What the delete handler did: removed row, entity result as it stood.
pub open spec fn delete_author_post(
    params: Value,
    pre: ModelManager,
    post: ModelManager,
    r: Result<Value, Error>,
) -> bool {
    match req_i64(params, "id"@) {
        Err(e) => r == Err::<Value, Error>(Error::InvalidParams) && post == pre,
        Ok(id) => {
            &&& !table_has_id(pre.author@, id) ==> r == Err::<Value, Error>(
                Error::EntityNotFound { entity: EntityKind::Author, id },
            ) && post == pre
            &&& table_has_id(pre.author@, id) ==> {
                &&& post.author@ =~= pre.author@.remove(find_index(pre.author@, id))
                &&& !table_has_id(post.author@, id)
                &&& match r {
                    Ok(v) => author_data_wrapped(
                        v,
                        author_of_row(row_with_id(pre.author@, id)),
                    ),
                    Err(e) => false,
                }
            }
        },
    }
}

pub fn delete_author(ctx: &Ctx, mm: &mut ModelManager, params: &Value) -> (r: Result<
    Value,
    Error,
>)
    requires
        old(mm).wf(),
        author_rows_ok(old(mm).author@),
    ensures
        final(mm).wf(),
        author_rows_ok(final(mm).author@),
        same_tables_except(*old(mm), *final(mm), EntityKind::Author),
        delete_author_post(*params, *old(mm), *final(mm), r),
{
    let id = match req_i64_exec(params, "id") {
        Ok(x) => x,
        Err(e) => {
            return Err(Error::InvalidParams);
        },
    };
    let a = match AuthorBmc::get(ctx, mm, id) {
        Ok(a) => a,
        Err(e) => {
            return Err(e);
        },
    };
    match AuthorBmc::delete(ctx, mm, id) {
        Ok(u) => (),
        Err(e) => vstd::pervasive::unreached(),
    }
    let v = author_to_value(&a);
    Ok(wrap_data(v))
}

// endregion

// region: the router

/// The five author method names, in registration order.
pub open spec fn author_methods() -> Seq<Seq<char>> {
    seq![
        "create_author"@,
        "get_author"@,
        "list_authors"@,
        "update_author"@,
        "delete_author"@,
    ]
}

/// The router entry for this entity: its five method names.
pub fn rpc_router() -> (r: RpcRouter)
    ensures
        r@ =~= author_methods(),
{
    let mut methods: Vec<String> = Vec::new();
    methods.push("create_author".to_owned());
    methods.push("get_author".to_owned());
    methods.push("list_authors".to_owned());
    methods.push("update_author".to_owned());
    methods.push("delete_author".to_owned());
    let r = RpcRouter { methods };
    proof {
        assert(r@ =~= author_methods());
    }
    r
}

/// What a dispatched author method guarantees, by name.
pub open spec fn author_rpc_post(
    method: Seq<char>,
    params: Value,
    pre: ModelManager,
    post: ModelManager,
    user: i64,
    r: Result<Value, Error>,
) -> bool {
    &&& method == "create_author"@ ==> create_author_post(params, pre, post, user, r)
    &&& method == "get_author"@ ==> post == pre && get_author_post(params, pre, r)
    &&& method == "list_authors"@ ==> post == pre && list_authors_post(params, pre, r)
    &&& method == "update_author"@ ==> update_author_post(params, pre, post, user, r)
    &&& method == "delete_author"@ ==> delete_author_post(params, pre, post, r)
}

// endregion

} // verus!
