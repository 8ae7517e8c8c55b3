use vstd::prelude::*;

use crate::ctx::Ctx;
use crate::error::{EntityKind, Error};
use crate::model::subscription::{
    filtered_subscriptions, subscription_create_row, subscription_fields_of_update,
    subscription_of_row, subscription_rows_ok, Subscription, SubscriptionBmc,
    SubscriptionFilter, SubscriptionForCreate, SubscriptionForUpdate, SubscriptionV,
};
use crate::model::base::{apply_fields, stamp_fields_update};
use crate::model::filter::{apply_list_options, ListOptions};
use crate::model::store::{
    find_index, lemma_find_index, lemma_find_index_unique, row_with_id, table_has_id,
    ModelManager, RowV, same_tables_except,
};
use crate::rpcs::value::{
    enc_i64, get_exec, get_of, obj_get, opt_i64, opt_i64_exec, opt_int64_opvals_exec,
    opt_int64_opvals_ok, opt_int64_opvals_parsed, opt_list_options_exec, opt_list_options_ok,
    opt_list_options_parsed, req_i64, req_i64_exec, Value,
};
use crate::rpcs::RpcRouter;

verus! {

// region: parameter shapes

pub open spec fn subscription_fc_of(v: Value) -> Result<SubscriptionForCreate, Error> {
    match (
        req_i64(v, "subscriber"@),
        req_i64(v, "author_id"@),
        opt_i64(v, "subscription_start_time"@),
        opt_i64(v, "subscription_end_time"@),
    ) {
        (Ok(subscriber), Ok(author_id), Ok(subscription_start_time), Ok(subscription_end_time)) => Ok(
            SubscriptionForCreate { subscriber, author_id, subscription_start_time, subscription_end_time },
        ),
        _ => Err(Error::InvalidParams),
    }
}

fn parse_subscription_fc(v: &Value) -> (r: Result<SubscriptionForCreate, Error>)
    ensures
        r == subscription_fc_of(*v),
{
    let subscriber = match req_i64_exec(v, "subscriber") {
        Ok(x) => x,
        Err(e) => {
            return Err(Error::InvalidParams);
        },
    };
    let author_id = match req_i64_exec(v, "author_id") {
        Ok(x) => x,
        Err(e) => {
            return Err(Error::InvalidParams);
        },
    };
    let subscription_start_time = match opt_i64_exec(v, "subscription_start_time") {
        Ok(x) => x,
        Err(e) => {
            return Err(Error::InvalidParams);
        },
    };
    let subscription_end_time = match opt_i64_exec(v, "subscription_end_time") {
        Ok(x) => x,
        Err(e) => {
            return Err(Error::InvalidParams);
        },
    };
    Ok(SubscriptionForCreate { subscriber, author_id, subscription_start_time, subscription_end_time })
}

pub open spec fn subscription_fu_of(v: Value) -> Result<SubscriptionForUpdate, Error> {
    match (
        opt_i64(v, "subscriber"@),
        opt_i64(v, "author_id"@),
        opt_i64(v, "subscription_start_time"@),
        opt_i64(v, "subscription_end_time"@),
    ) {
        (Ok(subscriber), Ok(author_id), Ok(subscription_start_time), Ok(subscription_end_time)) => Ok(
            SubscriptionForUpdate { subscriber, author_id, subscription_start_time, subscription_end_time },
        ),
        _ => Err(Error::InvalidParams),
    }
}

fn parse_subscription_fu(v: &Value) -> (r: Result<SubscriptionForUpdate, Error>)
    ensures
        r == subscription_fu_of(*v),
{
    let subscriber = match opt_i64_exec(v, "subscriber") {
        Ok(x) => x,
        Err(e) => {
            return Err(Error::InvalidParams);
        },
    };
    let author_id = match opt_i64_exec(v, "author_id") {
        Ok(x) => x,
        Err(e) => {
            return Err(Error::InvalidParams);
        },
    };
    let subscription_start_time = match opt_i64_exec(v, "subscription_start_time") {
        Ok(x) => x,
        Err(e) => {
            return Err(Error::InvalidParams);
        },
    };
    let subscription_end_time = match opt_i64_exec(v, "subscription_end_time") {
        Ok(x) => x,
        Err(e) => {
            return Err(Error::InvalidParams);
        },
    };
    Ok(SubscriptionForUpdate { subscriber, author_id, subscription_start_time, subscription_end_time })
}

/// How one filter group reads from a value, member by member.
pub open spec fn subscription_filter_parsed(v: Value, f: SubscriptionFilter) -> bool {
    &&& v is Obj
    &&& opt_int64_opvals_parsed(v, "id"@, Ok(f.id))
    &&& opt_int64_opvals_parsed(v, "subscriber"@, Ok(f.subscriber))
    &&& opt_int64_opvals_parsed(v, "author_id"@, Ok(f.author_id))
}

pub open spec fn subscription_filter_ok(v: Value) -> bool {
    &&& v is Obj
    &&& opt_int64_opvals_ok(v, "id"@)
    &&& opt_int64_opvals_ok(v, "subscriber"@)
    &&& opt_int64_opvals_ok(v, "author_id"@)
}

fn parse_subscription_filter(v: &Value) -> (r: Result<SubscriptionFilter, Error>)
    ensures
        r matches Ok(f) ==> subscription_filter_parsed(*v, f),
        r is Ok <==> subscription_filter_ok(*v),
        r is Err ==> r == Err::<SubscriptionFilter, Error>(Error::InvalidParams),
{
    match v {
        Value::Obj(_) => (),
        _ => {
            return Err(Error::InvalidParams);
        },
    }
    let id = match opt_int64_opvals_exec(v, "id") {
        Ok(x) => x,
        Err(e) => {
            return Err(Error::InvalidParams);
        },
    };
    let subscriber = match opt_int64_opvals_exec(v, "subscriber") {
        Ok(x) => x,
        Err(e) => {
            return Err(Error::InvalidParams);
        },
    };
    let author_id = match opt_int64_opvals_exec(v, "author_id") {
        Ok(x) => x,
        Err(e) => {
            return Err(Error::InvalidParams);
        },
    };
    Ok(
        SubscriptionFilter { id, subscriber, author_id },
    )
}

/// How the optional `filters` member reads: an array of filter groups.
pub open spec fn subscription_filters_member_parsed(
    v: Value,
    filters: Option<Vec<SubscriptionFilter>>,
) -> bool {
    match get_of(v, "filters"@) {
        None => filters is None,
        Some(Value::Null) => filters is None,
        Some(Value::Arr(fvs)) => filters matches Some(fv) && fv@.len() == fvs@.len() && (forall|
            j: int,
        |
            0 <= j < fvs@.len() ==> subscription_filter_parsed(fvs@[j], #[trigger] fv@[j])),
        Some(_) => false,
    }
}

pub open spec fn subscription_filters_member_ok(v: Value) -> bool {
    match get_of(v, "filters"@) {
        None => true,
        Some(Value::Null) => true,
        Some(Value::Arr(fvs)) => forall|j: int|
            0 <= j < fvs@.len() ==> subscription_filter_ok(#[trigger] fvs@[j]),
        Some(_) => false,
    }
}

#[verifier::loop_isolation(false)]
fn parse_subscription_filters(v: &Value) -> (r: Result<Option<Vec<SubscriptionFilter>>, Error>)
    ensures
        r matches Ok(filters) ==> subscription_filters_member_parsed(*v, filters),
        r is Ok <==> subscription_filters_member_ok(*v),
        r is Err ==> r == Err::<Option<Vec<SubscriptionFilter>>, Error>(Error::InvalidParams),
{
    match get_exec(v, "filters") {
        None => Ok(None),
        Some(Value::Null) => Ok(None),
        Some(Value::Arr(fvs)) => {
            let n = fvs.len();
            let mut out: Vec<SubscriptionFilter> = Vec::new();
            let mut i: usize = 0;
            while i < n
                invariant
                    i <= n,
                    out@.len() == i as int,
                    forall|j: int|
                        0 <= j < i ==> subscription_filter_parsed(fvs@[j], #[trigger] out@[j])
                            && subscription_filter_ok(fvs@[j]),
                decreases n - i,
            {
                match parse_subscription_filter(&fvs[i]) {
                    Ok(f) => {
                        out.push(f);
                        proof {
                            assert(subscription_filter_parsed(fvs@[i as int], out@[i as int]));
                            assert(subscription_filter_ok(fvs@[i as int]));
                        }
                    },
                    Err(e) => {
                        proof {
                            assert(!subscription_filter_ok(fvs@[i as int]));
                            assert(!subscription_filters_member_ok(*v));
                        }
                        return Err(Error::InvalidParams);
                    },
                }
                i = i + 1;
            }
            proof {
                assert forall|j: int| 0 <= j < fvs@.len() implies subscription_filter_ok(
                    #[trigger] fvs@[j],
                ) by {
                    assert(subscription_filter_parsed(fvs@[j], out@[j]));
                }
                assert(subscription_filters_member_ok(*v));
                assert(subscription_filters_member_parsed(*v, Some(out)));
            }
            Ok(Some(out))
        },
        Some(_) => Err(Error::InvalidParams),
    }
}

// endregion

// region: the result shape

/// The object encoding of one subscription row.
pub open spec fn subscription_encoded(v: Value, a: SubscriptionV) -> bool {
    &&& v matches Value::Obj(es) && es@.len() == 9
    &&& enc_i64(v, "id"@, a.id)
    &&& enc_i64(v, "subscriber"@, a.subscriber)
    &&& enc_i64(v, "author_id"@, a.author_id)
    &&& enc_i64(v, "subscription_start_time"@, a.subscription_start_time)
    &&& enc_i64(v, "subscription_end_time"@, a.subscription_end_time)
    &&& enc_i64(v, "creator_id"@, a.creator_id)
    &&& enc_i64(v, "creation_time"@, a.creation_time)
    &&& enc_i64(v, "updater_id"@, a.updater_id)
    &&& enc_i64(v, "updated_time"@, a.updated_time)
}

proof fn lemma_subscription_value_keys()
    ensures
        "id"@.len() == 2,
        "subscriber"@.len() == 10,
        "author_id"@.len() == 9,
        "subscription_start_time"@.len() == 23,
        "subscription_end_time"@.len() == 21,
        "creator_id"@.len() == 10,
        "creation_time"@.len() == 13,
        "updater_id"@.len() == 10,
        "updated_time"@.len() == 12,
        "subscriber"@[0] == 's',
        "creator_id"@[0] == 'c',
        "updater_id"@[0] == 'u',
{
    reveal_strlit("id");
    reveal_strlit("subscriber");
    reveal_strlit("author_id");
    reveal_strlit("subscription_start_time");
    reveal_strlit("subscription_end_time");
    reveal_strlit("creator_id");
    reveal_strlit("creation_time");
    reveal_strlit("updater_id");
    reveal_strlit("updated_time");
}

fn subscription_to_value(a: &Subscription) -> (r: Value)
    ensures
        subscription_encoded(r, a@),
{
    let mut es: Vec<(String, Value)> = Vec::new();
    es.push(("id".to_owned(), Value::Int(a.id)));
    es.push(("subscriber".to_owned(), Value::Int(a.subscriber)));
    es.push(("author_id".to_owned(), Value::Int(a.author_id)));
    es.push(("subscription_start_time".to_owned(), Value::Int(a.subscription_start_time)));
    es.push(("subscription_end_time".to_owned(), Value::Int(a.subscription_end_time)));
    es.push(("creator_id".to_owned(), Value::Int(a.creator_id)));
    es.push(("creation_time".to_owned(), Value::Int(a.creation_time)));
    es.push(("updater_id".to_owned(), Value::Int(a.updater_id)));
    es.push(("updated_time".to_owned(), Value::Int(a.updated_time)));
    let r = Value::Obj(es);
    proof {
        lemma_subscription_value_keys();
        reveal_with_fuel(obj_get, 10);
        assert(enc_i64(r, "id"@, a@.id));
        assert(enc_i64(r, "subscriber"@, a@.subscriber));
        assert(enc_i64(r, "author_id"@, a@.author_id));
        assert(enc_i64(r, "subscription_start_time"@, a@.subscription_start_time));
        assert(enc_i64(r, "subscription_end_time"@, a@.subscription_end_time));
        assert(enc_i64(r, "creator_id"@, a@.creator_id));
        assert(enc_i64(r, "creation_time"@, a@.creation_time));
        assert(enc_i64(r, "updater_id"@, a@.updater_id));
        assert(enc_i64(r, "updated_time"@, a@.updated_time));
    }
    r
}

/// The `{ data: <subscription> }` result envelope.
pub open spec fn subscription_data_wrapped(v: Value, a: SubscriptionV) -> bool {
    &&& v matches Value::Obj(es) && es@.len() == 1
    &&& match get_of(v, "data"@) {
        Some(d) => subscription_encoded(d, a),
        None => false,
    }
}

/// The `{ data: [<subscription>...] }` result envelope.
pub open spec fn subscription_list_wrapped(v: Value, l: Seq<SubscriptionV>) -> bool {
    &&& v matches Value::Obj(es) && es@.len() == 1
    &&& match get_of(v, "data"@) {
        Some(Value::Arr(vs)) => vs@.len() == l.len() && (forall|j: int|
            0 <= j < l.len() ==> subscription_encoded(#[trigger] vs@[j], l[j])),
        _ => false,
    }
}

fn wrap_data(v: Value) -> (r: Value)
    ensures
        r matches Value::Obj(es) && es@.len() == 1,
        get_of(r, "data"@) == Some(v),
{
    let mut es: Vec<(String, Value)> = Vec::new();
    es.push(("data".to_owned(), v));
    Value::Obj(es)
}

// endregion

// region: handlers

/// The create input under the `data` member of the parameters.
pub open spec fn data_fc_of(params: Value) -> Result<SubscriptionForCreate, Error> {
    match get_of(params, "data"@) {
        Some(d) => subscription_fc_of(d),
        None => Err(Error::InvalidParams),
    }
}

/// The update input under the `data` member of the parameters.
pub open spec fn data_fu_of(params: Value) -> Result<SubscriptionForUpdate, Error> {
    match get_of(params, "data"@) {
        Some(d) => subscription_fu_of(d),
        None => Err(Error::InvalidParams),
    }
}

/// What the create handler did: parsed input, fresh row, entity result.
pub open spec fn create_subscription_post(
    params: Value,
    pre: ModelManager,
    post: ModelManager,
    user: i64,
    r: Result<Value, Error>,
) -> bool {
    match data_fc_of(params) {
        Err(e) => r == Err::<Value, Error>(Error::InvalidParams) && post == pre,
        Ok(fc) => {
            &&& (pre.subscription.next_id == i64::MAX ==> r == Err::<Value, Error>(Error::Store)
                && post == pre)
            &&& (pre.subscription.next_id < i64::MAX ==> {
                &&& post.subscription.next_id == pre.subscription.next_id + 1
                &&& exists|ts: i64|
                    post.subscription@ == pre.subscription@.push(
                        #[trigger] subscription_create_row(fc, pre.subscription.next_id, user, ts),
                    )
                &&& match r {
                    Ok(v) => subscription_data_wrapped(v, subscription_of_row(post.subscription@.last())),
                    Err(e) => false,
                }
            })
        },
    }
}

#[verifier::rlimit(100)]
pub fn create_subscription(ctx: &Ctx, mm: &mut ModelManager, params: &Value) -> (r: Result<
    Value,
    Error,
>)
    requires
        old(mm).wf(),
        subscription_rows_ok(old(mm).subscription@),
    ensures
        final(mm).wf(),
        subscription_rows_ok(final(mm).subscription@),
        same_tables_except(*old(mm), *final(mm), EntityKind::Subscription),
        create_subscription_post(*params, *old(mm), *final(mm), ctx.user_id, r),
{
    let data = match get_exec(params, "data") {
        Some(d) => d,
        None => {
            return Err(Error::InvalidParams);
        },
    };
    let fc = match parse_subscription_fc(data) {
        Ok(fc) => fc,
        Err(e) => {
            return Err(Error::InvalidParams);
        },
    };
    let ghost gfc = fc;
    let id = match SubscriptionBmc::create(ctx, mm, fc) {
        Ok(id) => id,
        Err(e) => {
            return Err(e);
        },
    };
    proof {
        let ts = choose|ts: i64|
            mm.subscription@ =~= old(mm).subscription@.push(
                #[trigger] subscription_create_row(gfc, id, ctx.user_id, ts),
            );
        assert(mm.subscription@ =~= old(mm).subscription@.push(
            subscription_create_row(gfc, old(mm).subscription.next_id, ctx.user_id, ts),
        ));
        assert(mm.subscription@.last().id == id);
        assert(table_has_id(mm.subscription@, id));
        lemma_find_index_unique(mm.subscription@, id, mm.subscription@.len() - 1);
    }
    let a = match SubscriptionBmc::get(ctx, mm, id) {
        Ok(a) => a,
        Err(e) => vstd::pervasive::unreached(),
    };
    let v = subscription_to_value(&a);
    let r = wrap_data(v);
    let res: Result<Value, Error> = Ok(r);
    proof {
        assert(row_with_id(mm.subscription@, id) == mm.subscription@.last());
        assert(get_of(*params, "data"@) == Some(*data));
        assert(data_fc_of(*params) == Ok::<SubscriptionForCreate, Error>(gfc));
        assert(subscription_data_wrapped(r, subscription_of_row(mm.subscription@.last())));
        assert(id == old(mm).subscription.next_id);
        assert(create_subscription_post(*params, *old(mm), *mm, ctx.user_id, res));
    }
    res
}

/// What the get handler returned for each parameter shape.
pub open spec fn get_subscription_post(params: Value, mm: ModelManager, r: Result<Value, Error>) -> bool {
    match req_i64(params, "id"@) {
        Err(e) => r == Err::<Value, Error>(Error::InvalidParams),
        Ok(id) => {
            &&& table_has_id(mm.subscription@, id) ==> match r {
                Ok(v) => subscription_data_wrapped(v, subscription_of_row(row_with_id(mm.subscription@, id))),
                Err(e) => false,
            }
            &&& !table_has_id(mm.subscription@, id) ==> r == Err::<Value, Error>(
                Error::EntityNotFound { entity: EntityKind::Subscription, id },
            )
        },
    }
}

pub fn get_subscription(ctx: &Ctx, mm: &ModelManager, params: &Value) -> (r: Result<Value, Error>)
    requires
        mm.wf(),
        subscription_rows_ok(mm.subscription@),
    ensures
        get_subscription_post(*params, *mm, r),
{
    let id = match req_i64_exec(params, "id") {
        Ok(x) => x,
        Err(e) => {
            return Err(Error::InvalidParams);
        },
    };
    let a = match SubscriptionBmc::get(ctx, mm, id) {
        Ok(a) => a,
        Err(e) => {
            return Err(e);
        },
    };
    let v = subscription_to_value(&a);
    Ok(wrap_data(v))
}

/// What the list handler returned: the filtered window, encoded.
pub open spec fn list_subscriptions_post(params: Value, mm: ModelManager, r: Result<
    Value,
    Error,
>) -> bool {
    let ok = subscription_filters_member_ok(params) && opt_list_options_ok(params);
    &&& !ok ==> r == Err::<Value, Error>(Error::InvalidParams)
    &&& ok ==> exists|filters: Option<Vec<SubscriptionFilter>>, opts: Option<ListOptions>|
        #![trigger subscription_filters_member_parsed(params, filters), opt_list_options_parsed(params, opts)]
        {
            &&& subscription_filters_member_parsed(params, filters)
            &&& opt_list_options_parsed(params, opts)
            &&& match r {
                Ok(v) => subscription_list_wrapped(
                    v,
                    apply_list_options(filtered_subscriptions(mm.subscription@, filters), opts),
                ),
                Err(e) => false,
            }
        }
}

#[verifier::loop_isolation(false)]
pub fn list_subscriptions(ctx: &Ctx, mm: &ModelManager, params: &Value) -> (r: Result<Value, Error>)
    requires
        mm.wf(),
        subscription_rows_ok(mm.subscription@),
    ensures
        list_subscriptions_post(*params, *mm, r),
{
    let filters = match parse_subscription_filters(params) {
        Ok(f) => f,
        Err(e) => {
            return Err(Error::InvalidParams);
        },
    };
    let opts = match opt_list_options_exec(params) {
        Ok(o) => o,
        Err(e) => {
            return Err(Error::InvalidParams);
        },
    };
    let ghost gf = filters;
    let ghost go = opts;
    let rows = match SubscriptionBmc::list(ctx, mm, filters, opts) {
        Ok(v) => v,
        Err(e) => vstd::pervasive::unreached(),
    };
    let ghost l = apply_list_options(filtered_subscriptions(mm.subscription@, gf), go);
    let n = rows.len();
    let mut vs: Vec<Value> = Vec::new();
    let mut i: usize = 0;
    while i < n
        invariant
            i <= n,
            vs@.len() == i as int,
            forall|j: int| 0 <= j < i ==> subscription_encoded(#[trigger] vs@[j], l[j]),
        decreases n - i,
    {
        proof {
            assert(rows.deep_view()[i as int] == rows@[i as int]@);
        }
        vs.push(subscription_to_value(&rows[i]));
        i = i + 1;
    }
    let v = wrap_data(Value::Arr(vs));
    proof {
        assert(subscription_list_wrapped(v, l));
        assert(subscription_filters_member_parsed(*params, gf));
    }
    Ok(v)
}

/// What the update handler did: parsed input, rewritten row, entity result.
pub open spec fn update_subscription_post(
    params: Value,
    pre: ModelManager,
    post: ModelManager,
    user: i64,
    r: Result<Value, Error>,
) -> bool {
    match (req_i64(params, "id"@), data_fu_of(params)) {
        (Ok(id), Ok(fu)) => {
            &&& !table_has_id(pre.subscription@, id) ==> r == Err::<Value, Error>(
                Error::EntityNotFound { entity: EntityKind::Subscription, id },
            ) && post == pre
            &&& table_has_id(pre.subscription@, id) ==> {
                &&& exists|ts: i64|
                    post.subscription@ == pre.subscription@.update(
                        find_index(pre.subscription@, id),
                        RowV {
                            id,
                            fields: #[trigger] apply_fields(
                                row_with_id(pre.subscription@, id).fields,
                                subscription_fields_of_update(fu) + stamp_fields_update(user, ts),
                            ),
                        },
                    )
                &&& match r {
                    Ok(v) => subscription_data_wrapped(
                        v,
                        subscription_of_row(post.subscription@[find_index(pre.subscription@, id)]),
                    ),
                    Err(e) => false,
                }
            }
        },
        _ => r == Err::<Value, Error>(Error::InvalidParams) && post == pre,
    }
}

#[verifier::rlimit(100)]
pub fn update_subscription(ctx: &Ctx, mm: &mut ModelManager, params: &Value) -> (r: Result<
    Value,
    Error,
>)
    requires
        old(mm).wf(),
        subscription_rows_ok(old(mm).subscription@),
    ensures
        final(mm).wf(),
        subscription_rows_ok(final(mm).subscription@),
        same_tables_except(*old(mm), *final(mm), EntityKind::Subscription),
        update_subscription_post(*params, *old(mm), *final(mm), ctx.user_id, r),
{
    let id = match req_i64_exec(params, "id") {
        Ok(x) => x,
        Err(e) => {
            return Err(Error::InvalidParams);
        },
    };
    let data = match get_exec(params, "data") {
        Some(d) => d,
        None => {
            return Err(Error::InvalidParams);
        },
    };
    let fu = match parse_subscription_fu(data) {
        Ok(fu) => fu,
        Err(e) => {
            return Err(Error::InvalidParams);
        },
    };
    let ghost gfu = fu;
    match SubscriptionBmc::update(ctx, mm, id, fu) {
        Ok(u) => (),
        Err(e) => {
            return Err(e);
        },
    }
    proof {
        lemma_find_index(old(mm).subscription@, id);
        let fi = find_index(old(mm).subscription@, id);
        let ts = choose|ts: i64|
            mm.subscription@ =~= old(mm).subscription@.update(
                fi,
                RowV {
                    id,
                    fields: #[trigger] apply_fields(
                        row_with_id(old(mm).subscription@, id).fields,
                        subscription_fields_of_update(gfu) + stamp_fields_update(ctx.user_id, ts),
                    ),
                },
            );
        assert(mm.subscription@[fi].id == id);
        lemma_find_index_unique(mm.subscription@, id, fi);
        assert(table_has_id(mm.subscription@, id));
    }
    let a = match SubscriptionBmc::get(ctx, mm, id) {
        Ok(a) => a,
        Err(e) => vstd::pervasive::unreached(),
    };
    let v = subscription_to_value(&a);
    let r = wrap_data(v);
    let res: Result<Value, Error> = Ok(r);
    proof {
        let fi = find_index(old(mm).subscription@, id);
        assert(row_with_id(mm.subscription@, id) == mm.subscription@[fi]);
        assert(get_of(*params, "data"@) == Some(*data));
        assert(data_fu_of(*params) == Ok::<SubscriptionForUpdate, Error>(gfu));
        assert(req_i64(*params, "id"@) == Ok::<i64, Error>(id));
        assert(subscription_data_wrapped(r, subscription_of_row(mm.subscription@[fi])));
        assert(update_subscription_post(*params, *old(mm), *mm, ctx.user_id, res));
    }
    res
}

/// What the delete handler did: removed row, entity result as it stood.
pub open spec fn delete_subscription_post(
    params: Value,
    pre: ModelManager,
    post: ModelManager,
    r: Result<Value, Error>,
) -> bool {
    match req_i64(params, "id"@) {
        Err(e) => r == Err::<Value, Error>(Error::InvalidParams) && post == pre,
        Ok(id) => {
            &&& !table_has_id(pre.subscription@, id) ==> r == Err::<Value, Error>(
                Error::EntityNotFound { entity: EntityKind::Subscription, id },
            ) && post == pre
            &&& table_has_id(pre.subscription@, id) ==> {
                &&& post.subscription@ =~= pre.subscription@.remove(find_index(pre.subscription@, id))
                &&& !table_has_id(post.subscription@, id)
                &&& match r {
                    Ok(v) => subscription_data_wrapped(
                        v,
                        subscription_of_row(row_with_id(pre.subscription@, id)),
                    ),
                    Err(e) => false,
                }
            }
        },
    }
}

pub fn delete_subscription(ctx: &Ctx, mm: &mut ModelManager, params: &Value) -> (r: Result<
    Value,
    Error,
>)
    requires
        old(mm).wf(),
        subscription_rows_ok(old(mm).subscription@),
    ensures
        final(mm).wf(),
        subscription_rows_ok(final(mm).subscription@),
        same_tables_except(*old(mm), *final(mm), EntityKind::Subscription),
        delete_subscription_post(*params, *old(mm), *final(mm), r),
{
    let id = match req_i64_exec(params, "id") {
        Ok(x) => x,
        Err(e) => {
            return Err(Error::InvalidParams);
        },
    };
    let a = match SubscriptionBmc::get(ctx, mm, id) {
        Ok(a) => a,
        Err(e) => {
            return Err(e);
        },
    };
    match SubscriptionBmc::delete(ctx, mm, id) {
        Ok(u) => (),
        Err(e) => vstd::pervasive::unreached(),
    }
    let v = subscription_to_value(&a);
    Ok(wrap_data(v))
}

// endregion

// region: the router

/// The five subscription method names, in registration order.
pub open spec fn subscription_methods() -> Seq<Seq<char>> {
    seq![
        "create_subscription"@,
        "get_subscription"@,
        "list_subscriptions"@,
        "update_subscription"@,
        "delete_subscription"@,
    ]
}

/// The router entry for this entity: its five method names.
pub fn rpc_router() -> (r: RpcRouter)
    ensures
        r@ =~= subscription_methods(),
{
    let mut methods: Vec<String> = Vec::new();
    methods.push("create_subscription".to_owned());
    methods.push("get_subscription".to_owned());
    methods.push("list_subscriptions".to_owned());
    methods.push("update_subscription".to_owned());
    methods.push("delete_subscription".to_owned());
    let r = RpcRouter { methods };
    proof {
        assert(r@ =~= subscription_methods());
    }
    r
}

/// What a dispatched subscription method guarantees, by name.
pub open spec fn subscription_rpc_post(
    method: Seq<char>,
    params: Value,
    pre: ModelManager,
    post: ModelManager,
    user: i64,
    r: Result<Value, Error>,
) -> bool {
    &&& method == "create_subscription"@ ==> create_subscription_post(params, pre, post, user, r)
    &&& method == "get_subscription"@ ==> post == pre && get_subscription_post(params, pre, r)
    &&& method == "list_subscriptions"@ ==> post == pre && list_subscriptions_post(params, pre, r)
    &&& method == "update_subscription"@ ==> update_subscription_post(params, pre, post, user, r)
    &&& method == "delete_subscription"@ ==> delete_subscription_post(params, pre, post, r)
}

// endregion

} // verus!
