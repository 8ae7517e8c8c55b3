use vstd::prelude::*;

use crate::ctx::Ctx;
use crate::error::{EntityKind, Error};
use crate::model::category::{
    category_create_row, category_fields_of_update, category_of_row,
    category_rows_ok, filtered_categorys, Category, CategoryBmc, CategoryFilter,
    CategoryForCreate, CategoryForUpdate, CategoryV,
};
use crate::model::base::{apply_fields, stamp_fields_update};
use crate::model::field::opt_text_view;
use crate::model::filter::{apply_list_options, ListOptions};
use crate::model::store::{
    find_index, lemma_find_index, lemma_find_index_unique, row_with_id, table_has_id,
    ModelManager, RowV, same_tables_except,
};
use crate::rpcs::value::{
    enc_bool, enc_i64, enc_opt_i64, enc_opt_str, enc_str, get_exec, get_of, obj_get,
    opt_bool, opt_bool_exec, opt_i64, opt_i64_exec, opt_list_options_exec, opt_list_options_ok,
    opt_list_options_parsed, opt_str, opt_str_exec, opt_string_opvals_exec,
    opt_string_opvals_ok, opt_string_opvals_parsed, req_bool, req_bool_exec, req_i64,
    req_i64_exec, req_str, req_str_exec, Value,
};
use crate::rpcs::RpcRouter;

verus! {

// region: parameter shapes

pub open spec fn category_fc_of(v: Value) -> Result<CategoryForCreate, Error> {
    match (
        req_str(v, "name"@),
        opt_str(v, "description"@),
        opt_i64(v, "parent_id"@),
        req_bool(v, "is_featured"@),
    ) {
        (Ok(name), Ok(description), Ok(parent_id), Ok(is_featured)) => Ok(
            CategoryForCreate { name, description, parent_id, is_featured },
        ),
        _ => Err(Error::InvalidParams),
    }
}

fn parse_category_fc(v: &Value) -> (r: Result<CategoryForCreate, Error>)
    ensures
        r == category_fc_of(*v),
{
    let name = match req_str_exec(v, "name") {
        Ok(x) => x,
        Err(e) => {
            return Err(Error::InvalidParams);
        },
    };
    let description = match opt_str_exec(v, "description") {
        Ok(x) => x,
        Err(e) => {
            return Err(Error::InvalidParams);
        },
    };
    let parent_id = match opt_i64_exec(v, "parent_id") {
        Ok(x) => x,
        Err(e) => {
            return Err(Error::InvalidParams);
        },
    };
    let is_featured = match req_bool_exec(v, "is_featured") {
        Ok(x) => x,
        Err(e) => {
            return Err(Error::InvalidParams);
        },
    };
    Ok(CategoryForCreate { name, description, parent_id, is_featured })
}

pub open spec fn category_fu_of(v: Value) -> Result<CategoryForUpdate, Error> {
    match (
        req_str(v, "name"@),
        opt_str(v, "description"@),
        opt_i64(v, "parent_id"@),
        req_bool(v, "is_featured"@),
    ) {
        (Ok(name), Ok(description), Ok(parent_id), Ok(is_featured)) => Ok(
            CategoryForUpdate { name, description, parent_id, is_featured },
        ),
        _ => Err(Error::InvalidParams),
    }
}

fn parse_category_fu(v: &Value) -> (r: Result<CategoryForUpdate, Error>)
    ensures
        r == category_fu_of(*v),
{
    let name = match req_str_exec(v, "name") {
        Ok(x) => x,
        Err(e) => {
            return Err(Error::InvalidParams);
        },
    };
    let description = match opt_str_exec(v, "description") {
        Ok(x) => x,
        Err(e) => {
            return Err(Error::InvalidParams);
        },
    };
    let parent_id = match opt_i64_exec(v, "parent_id") {
        Ok(x) => x,
        Err(e) => {
            return Err(Error::InvalidParams);
        },
    };
    let is_featured = match req_bool_exec(v, "is_featured") {
        Ok(x) => x,
        Err(e) => {
            return Err(Error::InvalidParams);
        },
    };
    Ok(CategoryForUpdate { name, description, parent_id, is_featured })
}

/// How one filter group reads from a value, member by member.
pub open spec fn category_filter_parsed(v: Value, f: CategoryFilter) -> bool {
    &&& v is Obj
    &&& opt_string_opvals_parsed(v, "name"@, Ok(f.name))
    &&& opt_bool(v, "is_featured"@) == Ok::<Option<bool>, Error>(f.is_featured)
}

pub open spec fn category_filter_ok(v: Value) -> bool {
    &&& v is Obj
    &&& opt_string_opvals_ok(v, "name"@)
    &&& opt_bool(v, "is_featured"@) is Ok
}

fn parse_category_filter(v: &Value) -> (r: Result<CategoryFilter, Error>)
    ensures
        r matches Ok(f) ==> category_filter_parsed(*v, f),
        r is Ok <==> category_filter_ok(*v),
        r is Err ==> r == Err::<CategoryFilter, Error>(Error::InvalidParams),
{
    match v {
        Value::Obj(_) => (),
        _ => {
            return Err(Error::InvalidParams);
        },
    }
    let name = match opt_string_opvals_exec(v, "name") {
        Ok(x) => x,
        Err(e) => {
            return Err(Error::InvalidParams);
        },
    };
    let is_featured = match opt_bool_exec(v, "is_featured") {
        Ok(x) => x,
        Err(e) => {
            return Err(Error::InvalidParams);
        },
    };
    Ok(
        CategoryFilter { name, is_featured },
    )
}

/// How the optional `filters` member reads: an array of filter groups.
pub open spec fn category_filters_member_parsed(
    v: Value,
    filters: Option<Vec<CategoryFilter>>,
) -> bool {
    match get_of(v, "filters"@) {
        None => filters is None,
        Some(Value::Null) => filters is None,
        Some(Value::Arr(fvs)) => filters matches Some(fv) && fv@.len() == fvs@.len() && (forall|
            j: int,
        |
            0 <= j < fvs@.len() ==> category_filter_parsed(fvs@[j], #[trigger] fv@[j])),
        Some(_) => false,
    }
}

pub open spec fn category_filters_member_ok(v: Value) -> bool {
    match get_of(v, "filters"@) {
        None => true,
        Some(Value::Null) => true,
        Some(Value::Arr(fvs)) => forall|j: int|
            0 <= j < fvs@.len() ==> category_filter_ok(#[trigger] fvs@[j]),
        Some(_) => false,
    }
}

#[verifier::loop_isolation(false)]
fn parse_category_filters(v: &Value) -> (r: Result<Option<Vec<CategoryFilter>>, Error>)
    ensures
        r matches Ok(filters) ==> category_filters_member_parsed(*v, filters),
        r is Ok <==> category_filters_member_ok(*v),
        r is Err ==> r == Err::<Option<Vec<CategoryFilter>>, Error>(Error::InvalidParams),
{
    match get_exec(v, "filters") {
        None => Ok(None),
        Some(Value::Null) => Ok(None),
        Some(Value::Arr(fvs)) => {
            let n = fvs.len();
            let mut out: Vec<CategoryFilter> = Vec::new();
            let mut i: usize = 0;
            while i < n
                invariant
                    i <= n,
                    out@.len() == i as int,
                    forall|j: int|
                        0 <= j < i ==> category_filter_parsed(fvs@[j], #[trigger] out@[j])
                            && category_filter_ok(fvs@[j]),
                decreases n - i,
            {
                match parse_category_filter(&fvs[i]) {
                    Ok(f) => {
                        out.push(f);
                        proof {
                            assert(category_filter_parsed(fvs@[i as int], out@[i as int]));
                            assert(category_filter_ok(fvs@[i as int]));
                        }
                    },
                    Err(e) => {
                        proof {
                            assert(!category_filter_ok(fvs@[i as int]));
                            assert(!category_filters_member_ok(*v));
                        }
                        return Err(Error::InvalidParams);
                    },
                }
                i = i + 1;
            }
            proof {
                assert forall|j: int| 0 <= j < fvs@.len() implies category_filter_ok(
                    #[trigger] fvs@[j],
                ) by {
                    assert(category_filter_parsed(fvs@[j], out@[j]));
                }
                assert(category_filters_member_ok(*v));
                assert(category_filters_member_parsed(*v, Some(out)));
            }
            Ok(Some(out))
        },
        Some(_) => Err(Error::InvalidParams),
    }
}

// endregion

// region: the result shape

fn opt_i64_value(x: &Option<i64>) -> (r: Value)
    ensures
        match x {
            Some(y) => r == Value::Int(*y),
            None => r == Value::Null,
        },
{
    match x {
        Some(y) => Value::Int(*y),
        None => Value::Null,
    }
}

fn opt_str_value(x: &Option<String>) -> (r: Value)
    ensures
        match r {
            Value::Str(t) => opt_text_view(*x) matches Some(u) && t@ == u,
            Value::Null => opt_text_view(*x) is None,
            _ => false,
        },
{
    match x {
        Some(y) => Value::Str(y.clone()),
        None => Value::Null,
    }
}

/// The object encoding of one category row.
pub open spec fn category_encoded(v: Value, a: CategoryV) -> bool {
    &&& v matches Value::Obj(es) && es@.len() == 9
    &&& enc_i64(v, "id"@, a.id)
    &&& enc_str(v, "name"@, a.name)
    &&& enc_opt_str(v, "description"@, a.description)
    &&& enc_opt_i64(v, "parent_id"@, a.parent_id)
    &&& enc_bool(v, "is_featured"@, a.is_featured)
    &&& enc_i64(v, "creator_id"@, a.creator_id)
    &&& enc_i64(v, "creation_time"@, a.creation_time)
    &&& enc_i64(v, "updater_id"@, a.updater_id)
    &&& enc_i64(v, "updated_time"@, a.updated_time)
}

proof fn lemma_category_value_keys()
    ensures
        "id"@.len() == 2,
        "name"@.len() == 4,
        "description"@.len() == 11,
        "parent_id"@.len() == 9,
        "is_featured"@.len() == 11,
        "creator_id"@.len() == 10,
        "creation_time"@.len() == 13,
        "updater_id"@.len() == 10,
        "updated_time"@.len() == 12,
        "description"@[0] == 'd',
        "is_featured"@[0] == 'i',
        "creator_id"@[0] == 'c',
        "updater_id"@[0] == 'u',
{
    reveal_strlit("id");
    reveal_strlit("name");
    reveal_strlit("description");
    reveal_strlit("parent_id");
    reveal_strlit("is_featured");
    reveal_strlit("creator_id");
    reveal_strlit("creation_time");
    reveal_strlit("updater_id");
    reveal_strlit("updated_time");
}

fn category_to_value(a: &Category) -> (r: Value)
    ensures
        category_encoded(r, a@),
{
    let mut es: Vec<(String, Value)> = Vec::new();
    es.push(("id".to_owned(), Value::Int(a.id)));
    es.push(("name".to_owned(), Value::Str(a.name.clone())));
    es.push(("description".to_owned(), opt_str_value(&a.description)));
    es.push(("parent_id".to_owned(), opt_i64_value(&a.parent_id)));
    es.push(("is_featured".to_owned(), Value::Bool(a.is_featured)));
    es.push(("creator_id".to_owned(), Value::Int(a.creator_id)));
    es.push(("creation_time".to_owned(), Value::Int(a.creation_time)));
    es.push(("updater_id".to_owned(), Value::Int(a.updater_id)));
    es.push(("updated_time".to_owned(), Value::Int(a.updated_time)));
    let r = Value::Obj(es);
    proof {
        lemma_category_value_keys();
        reveal_with_fuel(obj_get, 10);
        assert(enc_i64(r, "id"@, a@.id));
        assert(enc_str(r, "name"@, a@.name));
        assert(enc_opt_str(r, "description"@, a@.description));
        assert(enc_opt_i64(r, "parent_id"@, a@.parent_id));
        assert(enc_bool(r, "is_featured"@, a@.is_featured));
        assert(enc_i64(r, "creator_id"@, a@.creator_id));
        assert(enc_i64(r, "creation_time"@, a@.creation_time));
        assert(enc_i64(r, "updater_id"@, a@.updater_id));
        assert(enc_i64(r, "updated_time"@, a@.updated_time));
    }
    r
}

/// The `{ data: <category> }` result envelope.
pub open spec fn category_data_wrapped(v: Value, a: CategoryV) -> bool {
    &&& v matches Value::Obj(es) && es@.len() == 1
    &&& match get_of(v, "data"@) {
        Some(d) => category_encoded(d, a),
        None => false,
    }
}

/// The `{ data: [<category>...] }` result envelope.
pub open spec fn category_list_wrapped(v: Value, l: Seq<CategoryV>) -> bool {
    &&& v matches Value::Obj(es) && es@.len() == 1
    &&& match get_of(v, "data"@) {
        Some(Value::Arr(vs)) => vs@.len() == l.len() && (forall|j: int|
            0 <= j < l.len() ==> category_encoded(#[trigger] vs@[j], l[j])),
        _ => false,
    }
}

fn wrap_data(v: Value) -> (r: Value)
    ensures
        r matches Value::Obj(es) && es@.len() == 1,
        get_of(r, "data"@) == Some(v),
{
    let mut es: Vec<(String, Value)> = Vec::new();
    es.push(("data".to_owned(), v));
    Value::Obj(es)
}

// endregion

// region: handlers

/// The create input under the `data` member of the parameters.
pub open spec fn data_fc_of(params: Value) -> Result<CategoryForCreate, Error> {
    match get_of(params, "data"@) {
        Some(d) => category_fc_of(d),
        None => Err(Error::InvalidParams),
    }
}

/// The update input under the `data` member of the parameters.
pub open spec fn data_fu_of(params: Value) -> Result<CategoryForUpdate, Error> {
    match get_of(params, "data"@) {
        Some(d) => category_fu_of(d),
        None => Err(Error::InvalidParams),
    }
}

/// What the create handler did: parsed input, fresh row, entity result.
pub open spec fn create_category_post(
    params: Value,
    pre: ModelManager,
    post: ModelManager,
    user: i64,
    r: Result<Value, Error>,
) -> bool {
    match data_fc_of(params) {
        Err(e) => r == Err::<Value, Error>(Error::InvalidParams) && post == pre,
        Ok(fc) => {
            &&& (pre.category.next_id == i64::MAX ==> r == Err::<Value, Error>(Error::Store)
                && post == pre)
            &&& (pre.category.next_id < i64::MAX ==> {
                &&& post.category.next_id == pre.category.next_id + 1
                &&& exists|ts: i64|
                    post.category@ == pre.category@.push(
                        #[trigger] category_create_row(fc, pre.category.next_id, user, ts),
                    )
                &&& match r {
                    Ok(v) => category_data_wrapped(v, category_of_row(post.category@.last())),
                    Err(e) => false,
                }
            })
        },
    }
}

#[verifier::rlimit(100)]
pub fn create_category(ctx: &Ctx, mm: &mut ModelManager, params: &Value) -> (r: Result<
    Value,
    Error,
>)
    requires
        old(mm).wf(),
        category_rows_ok(old(mm).category@),
    ensures
        final(mm).wf(),
        category_rows_ok(final(mm).category@),
        same_tables_except(*old(mm), *final(mm), EntityKind::Category),
        create_category_post(*params, *old(mm), *final(mm), ctx.user_id, r),
{
    let data = match get_exec(params, "data") {
        Some(d) => d,
        None => {
            return Err(Error::InvalidParams);
        },
    };
    let fc = match parse_category_fc(data) {
        Ok(fc) => fc,
        Err(e) => {
            return Err(Error::InvalidParams);
        },
    };
    let ghost gfc = fc;
    let id = match CategoryBmc::create(ctx, mm, fc) {
        Ok(id) => id,
        Err(e) => {
            return Err(e);
        },
    };
    proof {
        let ts = choose|ts: i64|
            mm.category@ =~= old(mm).category@.push(
                #[trigger] category_create_row(gfc, id, ctx.user_id, ts),
            );
        assert(mm.category@ =~= old(mm).category@.push(
            category_create_row(gfc, old(mm).category.next_id, ctx.user_id, ts),
        ));
        assert(mm.category@.last().id == id);
        assert(table_has_id(mm.category@, id));
        lemma_find_index_unique(mm.category@, id, mm.category@.len() - 1);
    }
    let a = match CategoryBmc::get(ctx, mm, id) {
        Ok(a) => a,
        Err(e) => vstd::pervasive::unreached(),
    };
    let v = category_to_value(&a);
    let r = wrap_data(v);
    let res: Result<Value, Error> = Ok(r);
    proof {
        assert(row_with_id(mm.category@, id) == mm.category@.last());
        assert(get_of(*params, "data"@) == Some(*data));
        assert(data_fc_of(*params) == Ok::<CategoryForCreate, Error>(gfc));
        assert(category_data_wrapped(r, category_of_row(mm.category@.last())));
        assert(id == old(mm).category.next_id);
        assert(create_category_post(*params, *old(mm), *mm, ctx.user_id, res));
    }
    res
}

/// What the get handler returned for each parameter shape.
pub open spec fn get_category_post(params: Value, mm: ModelManager, r: Result<Value, Error>) -> bool {
    match req_i64(params, "id"@) {
        Err(e) => r == Err::<Value, Error>(Error::InvalidParams),
        Ok(id) => {
            &&& table_has_id(mm.category@, id) ==> match r {
                Ok(v) => category_data_wrapped(v, category_of_row(row_with_id(mm.category@, id))),
                Err(e) => false,
            }
            &&& !table_has_id(mm.category@, id) ==> r == Err::<Value, Error>(
                Error::EntityNotFound { entity: EntityKind::Category, id },
            )
        },
    }
}

pub fn get_category(ctx: &Ctx, mm: &ModelManager, params: &Value) -> (r: Result<Value, Error>)
    requires
        mm.wf(),
        category_rows_ok(mm.category@),
    ensures
        get_category_post(*params, *mm, r),
{
    let id = match req_i64_exec(params, "id") {
        Ok(x) => x,
        Err(e) => {
            return Err(Error::InvalidParams);
        },
    };
    let a = match CategoryBmc::get(ctx, mm, id) {
        Ok(a) => a,
        Err(e) => {
            return Err(e);
        },
    };
    let v = category_to_value(&a);
    Ok(wrap_data(v))
}

/// What the list handler returned: the filtered window, encoded.
pub open spec fn list_categorys_post(params: Value, mm: ModelManager, r: Result<
    Value,
    Error,
>) -> bool {
    let ok = category_filters_member_ok(params) && opt_list_options_ok(params);
    &&& !ok ==> r == Err::<Value, Error>(Error::InvalidParams)
    &&& ok ==> exists|filters: Option<Vec<CategoryFilter>>, opts: Option<ListOptions>|
        #![trigger category_filters_member_parsed(params, filters), opt_list_options_parsed(params, opts)]
        {
            &&& category_filters_member_parsed(params, filters)
            &&& opt_list_options_parsed(params, opts)
            &&& match r {
                Ok(v) => category_list_wrapped(
                    v,
                    apply_list_options(filtered_categorys(mm.category@, filters), opts),
                ),
                Err(e) => false,
            }
        }
}

#[verifier::loop_isolation(false)]
pub fn list_categorys(ctx: &Ctx, mm: &ModelManager, params: &Value) -> (r: Result<Value, Error>)
    requires
        mm.wf(),
        category_rows_ok(mm.category@),
    ensures
        list_categorys_post(*params, *mm, r),
{
    let filters = match parse_category_filters(params) {
        Ok(f) => f,
        Err(e) => {
            return Err(Error::InvalidParams);
        },
    };
    let opts = match opt_list_options_exec(params) {
        Ok(o) => o,
        Err(e) => {
            return Err(Error::InvalidParams);
        },
    };
    let ghost gf = filters;
    let ghost go = opts;
    let rows = match CategoryBmc::list(ctx, mm, filters, opts) {
        Ok(v) => v,
        Err(e) => vstd::pervasive::unreached(),
    };
    let ghost l = apply_list_options(filtered_categorys(mm.category@, gf), go);
    let n = rows.len();
    let mut vs: Vec<Value> = Vec::new();
    let mut i: usize = 0;
    while i < n
        invariant
            i <= n,
            vs@.len() == i as int,
            forall|j: int| 0 <= j < i ==> category_encoded(#[trigger] vs@[j], l[j]),
        decreases n - i,
    {
        proof {
            assert(rows.deep_view()[i as int] == rows@[i as int]@);
        }
        vs.push(category_to_value(&rows[i]));
        i = i + 1;
    }
    let v = wrap_data(Value::Arr(vs));
    proof {
        assert(category_list_wrapped(v, l));
        assert(category_filters_member_parsed(*params, gf));
    }
    Ok(v)
}

/// What the update handler did: parsed input, rewritten row, entity result.
pub open spec fn update_category_post(
    params: Value,
    pre: ModelManager,
    post: ModelManager,
    user: i64,
    r: Result<Value, Error>,
) -> bool {
    match (req_i64(params, "id"@), data_fu_of(params)) {
        (Ok(id), Ok(fu)) => {
            &&& !table_has_id(pre.category@, id) ==> r == Err::<Value, Error>(
                Error::EntityNotFound { entity: EntityKind::Category, id },
            ) && post == pre
            &&& table_has_id(pre.category@, id) ==> {
                &&& exists|ts: i64|
                    post.category@ == pre.category@.update(
                        find_index(pre.category@, id),
                        RowV {
                            id,
                            fields: #[trigger] apply_fields(
                                row_with_id(pre.category@, id).fields,
                                category_fields_of_update(fu) + stamp_fields_update(user, ts),
                            ),
                        },
                    )
                &&& match r {
                    Ok(v) => category_data_wrapped(
                        v,
                        category_of_row(post.category@[find_index(pre.category@, id)]),
                    ),
                    Err(e) => false,
                }
            }
        },
        _ => r == Err::<Value, Error>(Error::InvalidParams) && post == pre,
    }
}

#[verifier::rlimit(100)]
pub fn update_category(ctx: &Ctx, mm: &mut ModelManager, params: &Value) -> (r: Result<
    Value,
    Error,
>)
    requires
        old(mm).wf(),
        category_rows_ok(old(mm).category@),
    ensures
        final(mm).wf(),
        category_rows_ok(final(mm).category@),
        same_tables_except(*old(mm), *final(mm), EntityKind::Category),
        update_category_post(*params, *old(mm), *final(mm), ctx.user_id, r),
{
    let id = match req_i64_exec(params, "id") {
        Ok(x) => x,
        Err(e) => {
            return Err(Error::InvalidParams);
        },
    };
    let data = match get_exec(params, "data") {
        Some(d) => d,
        None => {
            return Err(Error::InvalidParams);
        },
    };
    let fu = match parse_category_fu(data) {
        Ok(fu) => fu,
        Err(e) => {
            return Err(Error::InvalidParams);
        },
    };
    let ghost gfu = fu;
    match CategoryBmc::update(ctx, mm, id, fu) {
        Ok(u) => (),
        Err(e) => {
            return Err(e);
        },
    }
    proof {
        lemma_find_index(old(mm).category@, id);
        let fi = find_index(old(mm).category@, id);
        let ts = choose|ts: i64|
            mm.category@ =~= old(mm).category@.update(
                fi,
                RowV {
                    id,
                    fields: #[trigger] apply_fields(
                        row_with_id(old(mm).category@, id).fields,
                        category_fields_of_update(gfu) + stamp_fields_update(ctx.user_id, ts),
                    ),
                },
            );
        assert(mm.category@[fi].id == id);
        lemma_find_index_unique(mm.category@, id, fi);
        assert(table_has_id(mm.category@, id));
    }
    let a = match CategoryBmc::get(ctx, mm, id) {
        Ok(a) => a,
        Err(e) => vstd::pervasive::unreached(),
    };
    let v = category_to_value(&a);
    let r = wrap_data(v);
    let res: Result<Value, Error> = Ok(r);
    proof {
        let fi = find_index(old(mm).category@, id);
        assert(row_with_id(mm.category@, id) == mm.category@[fi]);
        assert(get_of(*params, "data"@) == Some(*data));
        assert(data_fu_of(*params) == Ok::<CategoryForUpdate, Error>(gfu));
        assert(req_i64(*params, "id"@) == Ok::<i64, Error>(id));
        assert(category_data_wrapped(r, category_of_row(mm.category@[fi])));
        assert(update_category_post(*params, *old(mm), *mm, ctx.user_id, res));
    }
    res
}

/// What the delete handler did: removed row, entity result as it stood.
pub open spec fn delete_category_post(
    params: Value,
    pre: ModelManager,
    post: ModelManager,
    r: Result<Value, Error>,
) -> bool {
    match req_i64(params, "id"@) {
        Err(e) => r == Err::<Value, Error>(Error::InvalidParams) && post == pre,
        Ok(id) => {
            &&& !table_has_id(pre.category@, id) ==> r == Err::<Value, Error>(
                Error::EntityNotFound { entity: EntityKind::Category, id },
            ) && post == pre
            &&& table_has_id(pre.category@, id) ==> {
                &&& post.category@ =~= pre.category@.remove(find_index(pre.category@, id))
                &&& !table_has_id(post.category@, id)
                &&& match r {
                    Ok(v) => category_data_wrapped(
                        v,
                        category_of_row(row_with_id(pre.category@, id)),
                    ),
                    Err(e) => false,
                }
            }
        },
    }
}

pub fn delete_category(ctx: &Ctx, mm: &mut ModelManager, params: &Value) -> (r: Result<
    Value,
    Error,
>)
    requires
        old(mm).wf(),
        category_rows_ok(old(mm).category@),
    ensures
        final(mm).wf(),
        category_rows_ok(final(mm).category@),
        same_tables_except(*old(mm), *final(mm), EntityKind::Category),
        delete_category_post(*params, *old(mm), *final(mm), r),
{
    let id = match req_i64_exec(params, "id") {
        Ok(x) => x,
        Err(e) => {
            return Err(Error::InvalidParams);
        },
    };
    let a = match CategoryBmc::get(ctx, mm, id) {
        Ok(a) => a,
        Err(e) => {
            return Err(e);
        },
    };
    match CategoryBmc::delete(ctx, mm, id) {
        Ok(u) => (),
        Err(e) => vstd::pervasive::unreached(),
    }
    let v = category_to_value(&a);
    Ok(wrap_data(v))
}

// endregion

// region: the router

/// The five category method names, in registration order.
pub open spec fn category_methods() -> Seq<Seq<char>> {
    seq![
        "create_category"@,
        "get_category"@,
        "list_categorys"@,
        "update_category"@,
        "delete_category"@,
    ]
}

/// The router entry for this entity: its five method names.
pub fn rpc_router() -> (r: RpcRouter)
    ensures
        r@ =~= category_methods(),
{
    let mut methods: Vec<String> = Vec::new();
    methods.push("create_category".to_owned());
    methods.push("get_category".to_owned());
    methods.push("list_categorys".to_owned());
    methods.push("update_category".to_owned());
    methods.push("delete_category".to_owned());
    let r = RpcRouter { methods };
    proof {
        assert(r@ =~= category_methods());
    }
    r
}

/// What a dispatched category method guarantees, by name.
pub open spec fn category_rpc_post(
    method: Seq<char>,
    params: Value,
    pre: ModelManager,
    post: ModelManager,
    user: i64,
    r: Result<Value, Error>,
) -> bool {
    &&& method == "create_category"@ ==> create_category_post(params, pre, post, user, r)
    &&& method == "get_category"@ ==> post == pre && get_category_post(params, pre, r)
    &&& method == "list_categorys"@ ==> post == pre && list_categorys_post(params, pre, r)
    &&& method == "update_category"@ ==> update_category_post(params, pre, post, user, r)
    &&& method == "delete_category"@ ==> delete_category_post(params, pre, post, r)
}

// endregion

} // verus!
