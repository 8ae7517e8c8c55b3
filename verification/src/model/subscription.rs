use vstd::prelude::*;

use crate::ctx::Ctx;
use crate::error::{EntityKind, Error};
use crate::model::base::{
    apply_fields, insert, delete_row, get_row, lemma_apply_fields_preserves_shape,
    lemma_ups_fit_concat, lemma_ups_fit_empty, lemma_ups_fit_single, now_utc_ts,
    prep_fields_for_create, prep_fields_for_update, shape_ok, stamp_fields_create,
    stamp_fields_update, up_fits, update_row, ups_fit_shape, value_type_ok, FieldType,
};
use crate::model::field::{fields_view, int_of, Field, FieldV, FieldValue, FieldValueV};
use crate::model::filter::{
    apply_list_options, eval_int64_ops, int64_ops_match, paginate, ListOptions, OpValsInt64,
};
use crate::model::store::{
    find_index, lemma_find_index, row_with_id, table_has_id, ModelManager, Row, RowV,
    same_tables_except,
};

verus! {

// region: subscription types

/// A stored subscription row, as callers see it.
#[derive(Clone, Debug)]
pub struct Subscription {
    pub id: i64,
    pub subscriber: i64,
    pub author_id: i64,
    pub subscription_start_time: i64,
    pub subscription_end_time: i64,
    pub creator_id: i64,
    pub creation_time: i64,
    pub updater_id: i64,
    pub updated_time: i64,
}

/// The mathematical value of a `Subscription`.
pub struct SubscriptionV {
    pub id: i64,
    pub subscriber: i64,
    pub author_id: i64,
    pub subscription_start_time: i64,
    pub subscription_end_time: i64,
    pub creator_id: i64,
    pub creation_time: i64,
    pub updater_id: i64,
    pub updated_time: i64,
}

impl View for Subscription {
    type V = SubscriptionV;

    open spec fn view(&self) -> SubscriptionV {
        SubscriptionV {
            id: self.id,
            subscriber: self.subscriber,
            author_id: self.author_id,
            subscription_start_time: self.subscription_start_time,
            subscription_end_time: self.subscription_end_time,
            creator_id: self.creator_id,
            creation_time: self.creation_time,
            updater_id: self.updater_id,
            updated_time: self.updated_time,
        }
    }
}

impl DeepView for Subscription {
    type V = SubscriptionV;

    open spec fn deep_view(&self) -> SubscriptionV {
        self.view()
    }
}

/// What a caller provides to create a subscription; absent period bounds take
/// the store's default of 0.
#[derive(Clone, Debug, Default)]
pub struct SubscriptionForCreate {
    pub subscriber: i64,
    pub author_id: i64,
    pub subscription_start_time: Option<i64>,
    pub subscription_end_time: Option<i64>,
}

/// What a caller provides to update a subscription; only present fields
/// change.
#[derive(Clone, Debug, Default)]
pub struct SubscriptionForUpdate {
    pub subscriber: Option<i64>,
    pub author_id: Option<i64>,
    pub subscription_start_time: Option<i64>,
    pub subscription_end_time: Option<i64>,
}

/// One filter group over subscriptions: the conjunction of its present
/// members.
#[derive(Clone, Debug, Default)]
pub struct SubscriptionFilter {
    pub id: Option<OpValsInt64>,
    pub subscriber: Option<OpValsInt64>,
    pub author_id: Option<OpValsInt64>,
}

// endregion

// region: the subscription row shape

pub open spec fn subscription_shape() -> Seq<(Seq<char>, FieldType)> {
    seq![
        ("subscriber"@, FieldType::IntT),
        ("author_id"@, FieldType::IntT),
        ("subscription_start_time"@, FieldType::IntT),
        ("subscription_end_time"@, FieldType::IntT),
        ("creator_id"@, FieldType::IntT),
        ("creation_time"@, FieldType::IntT),
        ("updater_id"@, FieldType::IntT),
        ("updated_time"@, FieldType::IntT),
    ]
}

proof fn lemma_subscription_name_facts()
    ensures
        "subscriber"@.len() == 10,
        "author_id"@.len() == 9,
        "subscription_start_time"@.len() == 23,
        "subscription_end_time"@.len() == 21,
        "creator_id"@.len() == 10,
        "creation_time"@.len() == 13,
        "updater_id"@.len() == 10,
        "updated_time"@.len() == 12,
{
    reveal_strlit("subscriber");
    reveal_strlit("author_id");
    reveal_strlit("subscription_start_time");
    reveal_strlit("subscription_end_time");
    reveal_strlit("creator_id");
    reveal_strlit("creation_time");
    reveal_strlit("updater_id");
    reveal_strlit("updated_time");
}

/// Every row of the subscription table is subscription-shaped.
pub open spec fn subscription_rows_ok(t: Seq<RowV>) -> bool {
    forall|i: int| 0 <= i < t.len() ==> shape_ok(#[trigger] t[i].fields, subscription_shape())
}

/// The subscription a shaped row denotes.
pub open spec fn subscription_of_row(r: RowV) -> SubscriptionV {
    SubscriptionV {
        id: r.id,
        subscriber: int_of(r.fields[0].value),
        author_id: int_of(r.fields[1].value),
        subscription_start_time: int_of(r.fields[2].value),
        subscription_end_time: int_of(r.fields[3].value),
        creator_id: int_of(r.fields[4].value),
        creation_time: int_of(r.fields[5].value),
        updater_id: int_of(r.fields[6].value),
        updated_time: int_of(r.fields[7].value),
    }
}

fn subscription_from_row(row: &Row) -> (a: Subscription)
    requires
        shape_ok(row@.fields, subscription_shape()),
    ensures
        a@ == subscription_of_row(row@),
{
    proof {
        let fs = row@.fields;
        let sh = subscription_shape();
        assert(fs[0].name == sh[0].0);
        assert(value_type_ok(fs[0].value, sh[0].1));
        assert(fs[1].name == sh[1].0);
        assert(value_type_ok(fs[1].value, sh[1].1));
        assert(fs[2].name == sh[2].0);
        assert(value_type_ok(fs[2].value, sh[2].1));
        assert(fs[3].name == sh[3].0);
        assert(value_type_ok(fs[3].value, sh[3].1));
        assert(fs[4].name == sh[4].0);
        assert(value_type_ok(fs[4].value, sh[4].1));
        assert(fs[5].name == sh[5].0);
        assert(value_type_ok(fs[5].value, sh[5].1));
        assert(fs[6].name == sh[6].0);
        assert(value_type_ok(fs[6].value, sh[6].1));
        assert(fs[7].name == sh[7].0);
        assert(value_type_ok(fs[7].value, sh[7].1));
    }
    Subscription {
        id: row.id,
        subscriber: row.fields[0].value.as_int(),
        author_id: row.fields[1].value.as_int(),
        subscription_start_time: row.fields[2].value.as_int(),
        subscription_end_time: row.fields[3].value.as_int(),
        creator_id: row.fields[4].value.as_int(),
        creation_time: row.fields[5].value.as_int(),
        updater_id: row.fields[6].value.as_int(),
        updated_time: row.fields[7].value.as_int(),
    }
}

// endregion

// region: create and update field lists

/// The columns a create writes, in table order; absent optional inputs take
/// the store's defaults.
pub open spec fn subscription_fields_of_create(fc: SubscriptionForCreate) -> Seq<FieldV> {
    seq![
        FieldV { name: "subscriber"@, value: FieldValueV::Int(fc.subscriber) },
        FieldV { name: "author_id"@, value: FieldValueV::Int(fc.author_id) },
        FieldV { name: "subscription_start_time"@, value: FieldValueV::Int(
                match fc.subscription_start_time {
                    Some(t) => t,
                    None => 0,
                },
            ) },
        FieldV { name: "subscription_end_time"@, value: FieldValueV::Int(
                match fc.subscription_end_time {
                    Some(t) => t,
                    None => 0,
                },
            ) },
    ]
}

/// The row a create inserts, stamps included.
pub open spec fn subscription_create_row(fc: SubscriptionForCreate, id: i64, user: i64, ts: i64) -> RowV {
    RowV { id, fields: subscription_fields_of_create(fc) + stamp_fields_create(user, ts) }
}

fn subscription_create_fields(fc: SubscriptionForCreate) -> (r: Vec<Field>)
    ensures
        fields_view(r@) =~= subscription_fields_of_create(fc),
{
    let mut v: Vec<Field> = Vec::new();
    v.push(Field::new("subscriber", FieldValue::Int(fc.subscriber)));
    v.push(Field::new("author_id", FieldValue::Int(fc.author_id)));
    v.push(Field::new("subscription_start_time", FieldValue::Int(
            match fc.subscription_start_time {
                Some(t) => t,
                None => 0,
            },
        )));
    v.push(Field::new("subscription_end_time", FieldValue::Int(
            match fc.subscription_end_time {
                Some(t) => t,
                None => 0,
            },
        )));
    v
}

/// The columns an update writes: each present input field, in declaration
/// order.
pub open spec fn subscription_fields_of_update(fu: SubscriptionForUpdate) -> Seq<FieldV> {
    (match fu.subscriber {
        Some(x) => seq![FieldV { name: "subscriber"@, value: FieldValueV::Int(x) }],
        None => Seq::<FieldV>::empty(),
    }) + (match fu.author_id {
        Some(x) => seq![FieldV { name: "author_id"@, value: FieldValueV::Int(x) }],
        None => Seq::<FieldV>::empty(),
    }) + (match fu.subscription_start_time {
        Some(x) => seq![FieldV { name: "subscription_start_time"@, value: FieldValueV::Int(x) }],
        None => Seq::<FieldV>::empty(),
    }) + (match fu.subscription_end_time {
        Some(x) => seq![FieldV { name: "subscription_end_time"@, value: FieldValueV::Int(x) }],
        None => Seq::<FieldV>::empty(),
    })
}

fn subscription_update_fields(fu: SubscriptionForUpdate) -> (r: Vec<Field>)
    ensures
        fields_view(r@) =~= subscription_fields_of_update(fu),
{
    let mut v: Vec<Field> = Vec::new();
    match fu.subscriber {
        Some(x) => v.push(Field::new("subscriber", FieldValue::Int(x))),
        None => (),
    }
    match fu.author_id {
        Some(x) => v.push(Field::new("author_id", FieldValue::Int(x))),
        None => (),
    }
    match fu.subscription_start_time {
        Some(x) => v.push(Field::new("subscription_start_time", FieldValue::Int(x))),
        None => (),
    }
    match fu.subscription_end_time {
        Some(x) => v.push(Field::new("subscription_end_time", FieldValue::Int(x))),
        None => (),
    }
    v
}

/// The fields an update writes, stamps included, are admissible for the
/// subscription columns that carry their names.
proof fn lemma_subscription_update_fits(fu: SubscriptionForUpdate, user: i64, ts: i64)
    ensures
        ups_fit_shape(
            subscription_fields_of_update(fu) + stamp_fields_update(user, ts),
            subscription_shape(),
        ),
{
    lemma_subscription_name_facts();
    let sh = subscription_shape();
    let p1 = match fu.subscriber {
        Some(x) => seq![FieldV { name: "subscriber"@, value: FieldValueV::Int(x) }],
        None => Seq::<FieldV>::empty(),
    };
    let p2 = match fu.author_id {
        Some(x) => seq![FieldV { name: "author_id"@, value: FieldValueV::Int(x) }],
        None => Seq::<FieldV>::empty(),
    };
    let p3 = match fu.subscription_start_time {
        Some(x) => seq![FieldV { name: "subscription_start_time"@, value: FieldValueV::Int(x) }],
        None => Seq::<FieldV>::empty(),
    };
    let p4 = match fu.subscription_end_time {
        Some(x) => seq![FieldV { name: "subscription_end_time"@, value: FieldValueV::Int(x) }],
        None => Seq::<FieldV>::empty(),
    };
    match fu.subscriber {
        Some(x) => {
            assert(up_fits(p1[0], sh)) by {
                reveal_with_fuel(up_fits, 16);
            }
            lemma_ups_fit_single(p1[0], sh);
            assert(p1 =~= seq![p1[0]]);
        },
        None => lemma_ups_fit_empty(sh),
    }
    match fu.author_id {
        Some(x) => {
            assert(up_fits(p2[0], sh)) by {
                reveal_with_fuel(up_fits, 16);
            }
            lemma_ups_fit_single(p2[0], sh);
            assert(p2 =~= seq![p2[0]]);
        },
        None => lemma_ups_fit_empty(sh),
    }
    match fu.subscription_start_time {
        Some(x) => {
            assert(up_fits(p3[0], sh)) by {
                reveal_with_fuel(up_fits, 16);
            }
            lemma_ups_fit_single(p3[0], sh);
            assert(p3 =~= seq![p3[0]]);
        },
        None => lemma_ups_fit_empty(sh),
    }
    match fu.subscription_end_time {
        Some(x) => {
            assert(up_fits(p4[0], sh)) by {
                reveal_with_fuel(up_fits, 16);
            }
            lemma_ups_fit_single(p4[0], sh);
            assert(p4 =~= seq![p4[0]]);
        },
        None => lemma_ups_fit_empty(sh),
    }
    let stamps = stamp_fields_update(user, ts);
    assert(up_fits(stamps[0], sh)) by {
        reveal_with_fuel(up_fits, 16);
    }
    assert(up_fits(stamps[1], sh)) by {
        reveal_with_fuel(up_fits, 16);
    }
    assert forall|i: int| 0 <= i < stamps.len() implies up_fits(#[trigger] stamps[i], sh) by {
        if i == 0 {
            assert(up_fits(stamps[0], sh));
        } else {
            assert(up_fits(stamps[1], sh));
        }
    }
    lemma_ups_fit_concat(p1, p2, sh);
    lemma_ups_fit_concat(p1 + p2, p3, sh);
    lemma_ups_fit_concat(p1 + p2 + p3, p4, sh);
    lemma_ups_fit_concat(p1 + p2 + p3 + p4, stamps, sh);
    assert(subscription_fields_of_update(fu) + stamps =~= p1 + p2 + p3 + p4 + stamps);
}

// endregion

// region: filters

/// Whether a subscription matches one filter group: every present member holds.
pub open spec fn subscription_matches(a: SubscriptionV, f: SubscriptionFilter) -> bool {
    &&& match f.id {
        Some(ops) => int64_ops_match(a.id, ops),
        None => true,
    }
    &&& match f.subscriber {
        Some(ops) => int64_ops_match(a.subscriber, ops),
        None => true,
    }
    &&& match f.author_id {
        Some(ops) => int64_ops_match(a.author_id, ops),
        None => true,
    }
}

/// Whether a subscription matches some group of the disjunction.
pub open spec fn subscription_matches_any(a: SubscriptionV, fs: Seq<SubscriptionFilter>) -> bool {
    exists|i: int| 0 <= i < fs.len() && subscription_matches(a, #[trigger] fs[i])
}

/// No filters at all, or an empty group list, admits every row.
pub open spec fn subscription_filters_match(a: SubscriptionV, filters: Option<Vec<SubscriptionFilter>>) -> bool {
    match filters {
        Some(fs) => fs@.len() == 0 || subscription_matches_any(a, fs@),
        None => true,
    }
}

fn subscription_matches_exec(a: &Subscription, f: &SubscriptionFilter) -> (r: bool)
    ensures
        r == subscription_matches(a@, *f),
{
    let mut ok = true;
    match &f.id {
        Some(ops) => ok = ok && eval_int64_ops(a.id, ops),
        None => (),
    }
    match &f.subscriber {
        Some(ops) => ok = ok && eval_int64_ops(a.subscriber, ops),
        None => (),
    }
    match &f.author_id {
        Some(ops) => ok = ok && eval_int64_ops(a.author_id, ops),
        None => (),
    }
    ok
}

#[verifier::loop_isolation(false)]
fn subscription_filters_match_exec(a: &Subscription, filters: &Option<Vec<SubscriptionFilter>>) -> (r: bool)
    ensures
        r == subscription_filters_match(a@, *filters),
{
    match filters {
        None => true,
        Some(fs) => {
            let n = fs.len();
            if n == 0 {
                return true;
            }
            let mut i: usize = 0;
            while i < n
                invariant
                    i <= n,
                    forall|p: int| 0 <= p < i ==> !subscription_matches(a@, #[trigger] fs@[p]),
                decreases n - i,
            {
                if subscription_matches_exec(a, &fs[i]) {
                    return true;
                }
                i = i + 1;
            }
            false
        },
    }
}

/// The subscriptions of the table's rows, kept in store order, that match the
/// filters.
pub open spec fn filtered_subscriptions(t: Seq<RowV>, filters: Option<Vec<SubscriptionFilter>>) -> Seq<
    SubscriptionV,
>
    decreases t.len(),
{
    if t.len() == 0 {
        Seq::<SubscriptionV>::empty()
    } else {
        let rest = filtered_subscriptions(t.drop_last(), filters);
        if subscription_filters_match(subscription_of_row(t.last()), filters) {
            rest.push(subscription_of_row(t.last()))
        } else {
            rest
        }
    }
}

// endregion

// region: the subscription model controller

/// The subscription table's create/get/first/list/update/delete, on the shared
/// store.
pub struct SubscriptionBmc;

impl SubscriptionBmc {
    /// Inserts a new row: the caller's columns plus audit stamps, under a
    /// fresh id, which it returns. Fails only when the id space is exhausted.
    pub fn create(ctx: &Ctx, mm: &mut ModelManager, data: SubscriptionForCreate) -> (r: Result<
        i64,
        Error,
    >)
        requires
            old(mm).wf(),
            subscription_rows_ok(old(mm).subscription@),
        ensures
            final(mm).wf(),
            subscription_rows_ok(final(mm).subscription@),
            same_tables_except(*old(mm), *final(mm), EntityKind::Subscription),
            r is Ok <==> old(mm).subscription.next_id < i64::MAX,
            r matches Ok(id) ==> {
                &&& id == old(mm).subscription.next_id
                &&& final(mm).subscription.next_id == old(mm).subscription.next_id + 1
                &&& exists|ts: i64|
                    final(mm).subscription@ =~= old(mm).subscription@.push(
                        #[trigger] subscription_create_row(data, id, ctx.user_id, ts),
                    )
            },
            r is Err ==> *final(mm) == *old(mm) && r == Err::<i64, Error>(Error::Store),
    {
        let now = now_utc_ts();
        let mut fields = subscription_create_fields(data);
        prep_fields_for_create(&mut fields, ctx.user_id(), now, false, true);
        let ghost fsv = fields_view(fields@);
        let r = insert(&mut mm.subscription, fields);
        proof {
            assert(fsv =~= subscription_fields_of_create(data) + stamp_fields_create(
                ctx.user_id,
                now,
            ));
            if r is Ok {
                let id = old(mm).subscription.next_id;
                assert(subscription_create_row(data, id, ctx.user_id, now) == RowV {
                    id,
                    fields: fsv,
                });
                assert(final(mm).subscription@ =~= old(mm).subscription@.push(
                    subscription_create_row(data, id, ctx.user_id, now),
                ));
                assert(shape_ok(fsv, subscription_shape()));
                assert forall|i: int| 0 <= i < final(mm).subscription@.len() implies shape_ok(
                    #[trigger] final(mm).subscription@[i].fields,
                    subscription_shape(),
                ) by {
                    if i < old(mm).subscription@.len() {
                        assert(shape_ok(old(mm).subscription@[i].fields, subscription_shape()));
                    }
                }
            }
        }
        r
    }

    /// Fetches the row with the id; fails with `EntityNotFound` when the
    /// table has none.
    pub fn get(ctx: &Ctx, mm: &ModelManager, id: i64) -> (r: Result<Subscription, Error>)
        requires
            mm.wf(),
            subscription_rows_ok(mm.subscription@),
        ensures
            r is Ok <==> table_has_id(mm.subscription@, id),
            r matches Ok(a) ==> a@ == subscription_of_row(row_with_id(mm.subscription@, id)),
            r is Err ==> r == Err::<Subscription, Error>(
                Error::EntityNotFound { entity: EntityKind::Subscription, id },
            ),
    {
        match get_row(&mm.subscription, id) {
            Some(row) => {
                proof {
                    lemma_find_index(mm.subscription@, id);
                    assert(shape_ok(
                        mm.subscription@[find_index(mm.subscription@, id)].fields,
                        subscription_shape(),
                    ));
                }
                Ok(subscription_from_row(row))
            },
            None => Err(Error::EntityNotFound { entity: EntityKind::Subscription, id }),
        }
    }

    /// Lists the rows that match the filters (all of them when there are
    /// none), in store order, windowed by the list options.
    #[verifier::loop_isolation(false)]
    pub fn list(
        ctx: &Ctx,
        mm: &ModelManager,
        filters: Option<Vec<SubscriptionFilter>>,
        list_options: Option<ListOptions>,
    ) -> (r: Result<Vec<Subscription>, Error>)
        requires
            mm.wf(),
            subscription_rows_ok(mm.subscription@),
        ensures
            r matches Ok(v) && v.deep_view() == apply_list_options(
                filtered_subscriptions(mm.subscription@, filters),
                list_options,
            ),
    {
        let t = &mm.subscription;
        let n = t.rows.len();
        let mut acc: Vec<Subscription> = Vec::new();
        let mut i: usize = 0;
        while i < n
            invariant
                i <= n,
                acc.deep_view() =~= filtered_subscriptions(t@.subrange(0, i as int), filters),
            decreases n - i,
        {
            proof {
                assert(shape_ok(t@[i as int].fields, subscription_shape()));
                assert(t@.subrange(0, i as int + 1).drop_last() =~= t@.subrange(0, i as int));
                assert(t@.subrange(0, i as int + 1).last() == t@[i as int]);
            }
            let a = subscription_from_row(&t.rows[i]);
            if subscription_filters_match_exec(&a, &filters) {
                acc.push(a);
            }
            i = i + 1;
        }
        proof {
            assert(t@.subrange(0, n as int) =~= t@);
        }
        let res = paginate(acc, &list_options);
        proof {
            assert(res.deep_view() =~= apply_list_options(
                filtered_subscriptions(mm.subscription@, filters),
                list_options,
            ));
        }
        Ok(res)
    }

    /// The first row of `list`, or nothing when the list is empty.
    pub fn first(
        ctx: &Ctx,
        mm: &ModelManager,
        filters: Option<Vec<SubscriptionFilter>>,
        list_options: Option<ListOptions>,
    ) -> (r: Result<Option<Subscription>, Error>)
        requires
            mm.wf(),
            subscription_rows_ok(mm.subscription@),
        ensures
            ({
                let l = apply_list_options(filtered_subscriptions(mm.subscription@, filters), list_options);
                match r {
                    Ok(Some(a)) => l.len() > 0 && a@ == l[0],
                    Ok(None) => l.len() == 0,
                    Err(e) => false,
                }
            }),
    {
        let mut v = Self::list(ctx, mm, filters, list_options)?;
        let ghost l = v.deep_view();
        if v.len() > 0 {
            let a = v.remove(0);
            proof {
                assert(a.deep_view() == l[0]);
            }
            Ok(Some(a))
        } else {
            proof {
                assert(l.len() == 0);
            }
            Ok(None)
        }
    }

    /// Rewrites the present fields of the row with the id and restamps the
    /// updater columns; fails with `EntityNotFound` when the id is absent.
    pub fn update(ctx: &Ctx, mm: &mut ModelManager, id: i64, data: SubscriptionForUpdate) -> (r:
        Result<(), Error>)
        requires
            old(mm).wf(),
            subscription_rows_ok(old(mm).subscription@),
        ensures
            final(mm).wf(),
            subscription_rows_ok(final(mm).subscription@),
            same_tables_except(*old(mm), *final(mm), EntityKind::Subscription),
            final(mm).subscription.next_id == old(mm).subscription.next_id,
            r is Ok <==> table_has_id(old(mm).subscription@, id),
            r matches Ok(u) ==> exists|ts: i64|
                final(mm).subscription@ =~= old(mm).subscription@.update(
                    find_index(old(mm).subscription@, id),
                    RowV {
                        id,
                        fields: #[trigger] apply_fields(
                            row_with_id(old(mm).subscription@, id).fields,
                            subscription_fields_of_update(data) + stamp_fields_update(
                                ctx.user_id,
                                ts,
                            ),
                        ),
                    },
                ),
            r is Err ==> *final(mm) == *old(mm) && r == Err::<(), Error>(
                Error::EntityNotFound { entity: EntityKind::Subscription, id },
            ),
    {
        let now = now_utc_ts();
        let mut fields = subscription_update_fields(data);
        prep_fields_for_update(&mut fields, ctx.user_id(), now, true);
        let ghost fsv = fields_view(fields@);
        let r = update_row(&mut mm.subscription, id, fields, EntityKind::Subscription);
        proof {
            assert(fsv =~= subscription_fields_of_update(data) + stamp_fields_update(
                ctx.user_id,
                now,
            ));
            if r is Ok {
                lemma_find_index(old(mm).subscription@, id);
                let fi = find_index(old(mm).subscription@, id);
                assert(final(mm).subscription@ =~= old(mm).subscription@.update(
                    fi,
                    RowV {
                        id,
                        fields: apply_fields(
                            row_with_id(old(mm).subscription@, id).fields,
                            subscription_fields_of_update(data) + stamp_fields_update(
                                ctx.user_id,
                                now,
                            ),
                        ),
                    },
                ));
                // shape preservation
                assert(shape_ok(old(mm).subscription@[fi].fields, subscription_shape()));
                lemma_subscription_update_fits(data, ctx.user_id, now);
                assert(ups_fit_shape(fsv, subscription_shape()));
                lemma_apply_fields_preserves_shape(
                    old(mm).subscription@[fi].fields,
                    fsv,
                    subscription_shape(),
                );
                assert forall|i: int| 0 <= i < final(mm).subscription@.len() implies shape_ok(
                    #[trigger] final(mm).subscription@[i].fields,
                    subscription_shape(),
                ) by {
                    if i != fi {
                        assert(shape_ok(old(mm).subscription@[i].fields, subscription_shape()));
                    }
                }
            }
        }
        r
    }

    /// Removes the row with the id; fails with `EntityNotFound` when the
    /// id is absent.
    pub fn delete(ctx: &Ctx, mm: &mut ModelManager, id: i64) -> (r: Result<(), Error>)
        requires
            old(mm).wf(),
            subscription_rows_ok(old(mm).subscription@),
        ensures
            final(mm).wf(),
            subscription_rows_ok(final(mm).subscription@),
            same_tables_except(*old(mm), *final(mm), EntityKind::Subscription),
            final(mm).subscription.next_id == old(mm).subscription.next_id,
            r is Ok <==> table_has_id(old(mm).subscription@, id),
            r matches Ok(u) ==> final(mm).subscription@ =~= old(mm).subscription@.remove(
                find_index(old(mm).subscription@, id),
            ) && !table_has_id(final(mm).subscription@, id),
            r is Err ==> *final(mm) == *old(mm) && r == Err::<(), Error>(
                Error::EntityNotFound { entity: EntityKind::Subscription, id },
            ),
    {
        let r = delete_row(&mut mm.subscription, id, EntityKind::Subscription);
        proof {
            if r is Ok {
                lemma_find_index(old(mm).subscription@, id);
                let fi = find_index(old(mm).subscription@, id);
                assert forall|i: int| 0 <= i < final(mm).subscription@.len() implies shape_ok(
                    #[trigger] final(mm).subscription@[i].fields,
                    subscription_shape(),
                ) by {
                    if i < fi {
                        assert(final(mm).subscription@[i] == old(mm).subscription@[i]);
                        assert(shape_ok(old(mm).subscription@[i].fields, subscription_shape()));
                    } else {
                        assert(final(mm).subscription@[i] == old(mm).subscription@[i + 1]);
                        assert(shape_ok(old(mm).subscription@[i + 1].fields, subscription_shape()));
                    }
                }
            }
        }
        r
    }
}

// endregion

// region: laws

/// Law: reading back a created row yields the created input's fields; the
/// id and the audit stamps are the server-assigned values.
pub proof fn lemma_subscription_create_then_get(fc: SubscriptionForCreate, id: i64, user: i64, ts: i64)
    ensures
        ({
            let a = subscription_of_row(subscription_create_row(fc, id, user, ts));
            &&& a.id == id
            &&& a.subscriber == fc.subscriber
            &&& a.author_id == fc.author_id
            &&& (fc.subscription_start_time matches Some(t) ==> a.subscription_start_time == t)
            &&& (fc.subscription_start_time is None ==> a.subscription_start_time == 0)
            &&& (fc.subscription_end_time matches Some(t) ==> a.subscription_end_time == t)
            &&& (fc.subscription_end_time is None ==> a.subscription_end_time == 0)
            &&& a.creator_id == user
            &&& a.creation_time == ts
            &&& a.updater_id == user
            &&& a.updated_time == ts
        }),
{
}

// endregion

} // verus!
