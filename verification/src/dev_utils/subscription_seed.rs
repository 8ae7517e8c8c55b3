use vstd::prelude::*;

use crate::ctx::Ctx;
use crate::error::{EntityKind, Error};
use crate::model::base::{now_utc_ts, stamp_fields_create};
use crate::model::store::{find_index, same_tables_except, table_has_id, ModelManager, RowV};
use crate::model::subscription::{
    subscription_create_row, subscription_fields_of_create, subscription_rows_ok,
    SubscriptionBmc, SubscriptionForCreate,
};
use crate::model::field::{FieldV, FieldValueV};

verus! {

/// The entity columns of a seeded row, at the view level: a one-year period
/// from the given start, saturating at the far end of the clock.
pub open spec fn subscription_seed_fields(
    subscriber: i64,
    author_id: i64,
    start: i64,
) -> Seq<FieldV> {
    seq![
        FieldV { name: "subscriber"@, value: FieldValueV::Int(subscriber) },
        FieldV { name: "author_id"@, value: FieldValueV::Int(author_id) },
        FieldV { name: "subscription_start_time"@, value: FieldValueV::Int(start) },
        FieldV { name: "subscription_end_time"@, value: FieldValueV::Int(
            if start <= i64::MAX - 31536000 {
                (start + 31536000) as i64
            } else {
                i64::MAX
            },
        ) },
    ]
}

/// The seeded row at `k`: the fixture columns for some clock reading, and the
/// caller's audit stamps at another.
pub open spec fn seeded_subscription_ok(
    t: Seq<RowV>,
    k: int,
    id: i64,
    subscriber: i64,
    author_id: i64,
    user: i64,
) -> bool {
    &&& 0 <= k < t.len()
    &&& exists|t1: i64, t2: i64|
        #![trigger subscription_seed_fields(subscriber, author_id, t1), stamp_fields_create(user, t2)]
        t[k] == RowV {
            id,
            fields: subscription_seed_fields(subscriber, author_id, t1) + stamp_fields_create(user, t2),
        }
}

/// Creates one fixture subscription and returns its id.
pub fn seed_subscription(
    ctx: &Ctx,
    mm: &mut ModelManager,
    subscriber_id: i64,
    author_id: i64,
) -> (r: Result<i64, Error>)
    requires
        old(mm).wf(),
        subscription_rows_ok(old(mm).subscription@),
    ensures
        final(mm).wf(),
        subscription_rows_ok(final(mm).subscription@),
        same_tables_except(*old(mm), *final(mm), EntityKind::Subscription),
        r is Ok <==> old(mm).subscription.next_id < i64::MAX,
        r matches Ok(id) ==> {
            &&& id == old(mm).subscription.next_id
            &&& final(mm).subscription.next_id == old(mm).subscription.next_id + 1
            &&& final(mm).subscription@.len() == old(mm).subscription@.len() + 1
            &&& final(mm).subscription@.subrange(0, old(mm).subscription@.len() as int) =~= old(
                mm,
            ).subscription@
            &&& seeded_subscription_ok(
                final(mm).subscription@,
                old(mm).subscription@.len() as int,
                id,
                subscriber_id,
                author_id,
                ctx.user_id,
            )
        },
        r is Err ==> *final(mm) == *old(mm) && r == Err::<i64, Error>(Error::Store),
{
    // a one-year subscription period from now, saturating at the far end
    let start = now_utc_ts();
    let end = if start <= i64::MAX - 31536000 {
        start + 31536000
    } else {
        i64::MAX
    };
    let fc = SubscriptionForCreate {
        subscriber: subscriber_id,
        author_id,
        subscription_start_time: Some(start),
        subscription_end_time: Some(end),
    };
    let ghost fcv = fc;
    let r = SubscriptionBmc::create(ctx, mm, fc);
    proof {
        if r is Ok {
            let id = r->Ok_0;
            let ts = choose|ts: i64|
                final(mm).subscription@ =~= old(mm).subscription@.push(
                    #[trigger] subscription_create_row(fcv, id, ctx.user_id, ts),
                );
            assert(final(mm).subscription@.last() == subscription_create_row(fcv, id, ctx.user_id, ts));
            assert(subscription_fields_of_create(fcv) =~= subscription_seed_fields(
                subscriber_id,
                author_id,
                start,
            ));
            assert(final(mm).subscription@.last() == RowV {
                id,
                fields: subscription_seed_fields(subscriber_id, author_id, start) + stamp_fields_create(
                    ctx.user_id,
                    ts,
                ),
            });
        }
    }
    r
}

/// Creates one fixture subscription per datum, in order, and returns their
/// ids. Succeeds exactly when the id space has room for every datum; on a
/// failure the rows created for the earlier data remain.
#[verifier::loop_isolation(false)]
pub fn seed_subscriptions(
    ctx: &Ctx,
    mm: &mut ModelManager,
    data: &[(i64, i64)],
) -> (r: Result<Vec<i64>, Error>)
    requires
        old(mm).wf(),
        subscription_rows_ok(old(mm).subscription@),
    ensures
        final(mm).wf(),
        subscription_rows_ok(final(mm).subscription@),
        same_tables_except(*old(mm), *final(mm), EntityKind::Subscription),
        r is Ok <==> (data@.len() == 0 || old(mm).subscription.next_id + data@.len() <= i64::MAX),
        r matches Ok(ids) ==> {
            &&& ids@.len() == data@.len()
            &&& final(mm).subscription.next_id == old(mm).subscription.next_id + data@.len()
            &&& final(mm).subscription@.len() == old(mm).subscription@.len() + data@.len()
            &&& final(mm).subscription@.subrange(0, old(mm).subscription@.len() as int) =~= old(
                mm,
            ).subscription@
            &&& forall|j: int|
                0 <= j < data@.len() ==> #[trigger] ids@[j] == old(mm).subscription.next_id + j
            &&& forall|j: int|
                0 <= j < data@.len() ==> seeded_subscription_ok(
                    final(mm).subscription@,
                    old(mm).subscription@.len() + j,
                    #[trigger] ids@[j],
                    data@[j].0,
                    data@[j].1,
                    ctx.user_id,
                )
        },
        r is Err ==> ({
            let k = i64::MAX - old(mm).subscription.next_id;
            &&& 0 <= k < data@.len()
            &&& r == Err::<Vec<i64>, Error>(Error::Store)
            &&& final(mm).subscription.next_id == i64::MAX
            &&& final(mm).subscription@.len() == old(mm).subscription@.len() + k
            &&& final(mm).subscription@.subrange(0, old(mm).subscription@.len() as int) =~= old(
                mm,
            ).subscription@
            &&& forall|j: int|
                0 <= j < k ==> seeded_subscription_ok(
                    final(mm).subscription@,
                    old(mm).subscription@.len() + j,
                    (old(mm).subscription.next_id + j) as i64,
                    data@[j].0,
                    data@[j].1,
                    ctx.user_id,
                )
        }),
{
    let ghost base = old(mm).subscription@.len() as int;
    let mut ids: Vec<i64> = Vec::new();
    let n = data.len();
    let mut i: usize = 0;
    while i < n
        invariant
            i <= n,
            mm.wf(),
            subscription_rows_ok(mm.subscription@),
            same_tables_except(*old(mm), *mm, EntityKind::Subscription),
            ids@.len() == i as int,
            mm.subscription.next_id == old(mm).subscription.next_id + i,
            mm.subscription@.len() == base + i,
            mm.subscription@.subrange(0, base) =~= old(mm).subscription@,
            forall|j: int| 0 <= j < i ==> #[trigger] ids@[j] == old(mm).subscription.next_id + j,
            forall|j: int|
                0 <= j < i ==> seeded_subscription_ok(
                    mm.subscription@,
                    base + j,
                    #[trigger] ids@[j],
                    data@[j].0,
                    data@[j].1,
                    ctx.user_id,
                ),
        decreases n - i,
    {
        let d = &data[i];
        let ghost prev = mm.subscription@;
        let id = match seed_subscription(ctx, mm, d.0, d.1) {
            Ok(id) => id,
            Err(e) => {
                proof {
                    assert forall|j: int| 0 <= j < i implies seeded_subscription_ok(
                        mm.subscription@,
                        base + j,
                        (old(mm).subscription.next_id + j) as i64,
                        data@[j].0,
                    data@[j].1,
                        ctx.user_id,
                    ) by {
                        assert(seeded_subscription_ok(
                            mm.subscription@,
                            base + j,
                            ids@[j],
                            data@[j].0,
                    data@[j].1,
                            ctx.user_id,
                        ));
                    }
                }
                return Err(e);
            },
        };
        ids.push(id);
        proof {
            assert(mm.subscription@.subrange(0, base) =~= prev.subrange(0, base));
            assert forall|j: int| 0 <= j < i + 1 implies seeded_subscription_ok(
                mm.subscription@,
                base + j,
                #[trigger] ids@[j],
                data@[j].0,
                    data@[j].1,
                ctx.user_id,
            ) by {
                if j < i {
                    assert(mm.subscription@[base + j] == prev[base + j]);
                    assert(seeded_subscription_ok(
                        prev,
                        base + j,
                        ids@[j],
                        data@[j].0,
                    data@[j].1,
                        ctx.user_id,
                    ));
                }
            }
        }
        i = i + 1;
    }
    Ok(ids)
}

/// Deletes every subscription row and returns how many there were; the
/// table is empty afterwards.
pub fn clean_subscriptions(ctx: &Ctx, mm: &mut ModelManager) -> (r: Result<usize, Error>)
    requires
        old(mm).wf(),
        subscription_rows_ok(old(mm).subscription@),
    ensures
        final(mm).wf(),
        subscription_rows_ok(final(mm).subscription@),
        same_tables_except(*old(mm), *final(mm), EntityKind::Subscription),
        final(mm).subscription.next_id == old(mm).subscription.next_id,
        r is Ok,
        r matches Ok(n) ==> n == old(mm).subscription@.len() && final(mm).subscription@ =~= Seq::<
            RowV,
        >::empty(),
{
    let count = mm.subscription.rows.len();
    mm.subscription.rows = Vec::new();
    proof {
        assert(mm.subscription@ =~= Seq::<RowV>::empty());
    }
    Ok(count)
}

/// Deletes the subscription with the id: exactly that row leaves; an absent
/// id fails with `EntityNotFound` and leaves the store unchanged.
pub fn clean_subscription(ctx: &Ctx, mm: &mut ModelManager, subscription_id: i64) -> (r: Result<(), Error>)
    requires
        old(mm).wf(),
        subscription_rows_ok(old(mm).subscription@),
    ensures
        final(mm).wf(),
        subscription_rows_ok(final(mm).subscription@),
        same_tables_except(*old(mm), *final(mm), EntityKind::Subscription),
        final(mm).subscription.next_id == old(mm).subscription.next_id,
        r is Ok <==> table_has_id(old(mm).subscription@, subscription_id),
        r matches Ok(u) ==> final(mm).subscription@ =~= old(mm).subscription@.remove(
            find_index(old(mm).subscription@, subscription_id),
        ) && !table_has_id(final(mm).subscription@, subscription_id),
        r is Err ==> *final(mm) == *old(mm) && r == Err::<(), Error>(
            Error::EntityNotFound { entity: EntityKind::Subscription, id: subscription_id },
        ),
{
    SubscriptionBmc::delete(ctx, mm, subscription_id)
}

} // verus!
