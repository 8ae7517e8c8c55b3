use vstd::prelude::*;

use crate::ctx::Ctx;
use crate::error::{EntityKind, Error};
use crate::model::base::{remove_at, shape_ok, stamp_fields_create, value_type_ok};
use crate::model::category::{
    category_create_row, category_fields_of_create, category_of_row, category_rows_ok,
    category_shape, CategoryBmc, CategoryForCreate,
};
use crate::model::field::{FieldV, FieldValueV};
use crate::model::filter::{str_contains, text_contains};
use crate::model::store::{same_tables_except, ModelManager, RowV};

verus! {

/// The entity columns of a seeded row, at the view level.
pub open spec fn category_seed_fields(
    name: Seq<char>,
    description: Option<Seq<char>>,
    parent_id: Option<i64>,
    is_featured: bool,
) -> Seq<FieldV> {
    seq![
        FieldV { name: "name"@, value: FieldValueV::Text(name) },
        FieldV { name: "description"@, value: match description {
            Some(u) => FieldValueV::Text(u),
            None => FieldValueV::Null,
        } },
        FieldV { name: "parent_id"@, value: match parent_id {
            Some(x) => FieldValueV::Int(x),
            None => FieldValueV::Null,
        } },
        FieldV { name: "is_featured"@, value: FieldValueV::Bool(is_featured) },
    ]
}

/// The seeded row at `k`: the fixture columns and the caller's audit stamps,
/// at some clock reading.
pub open spec fn seeded_category_ok(
    t: Seq<RowV>,
    k: int,
    id: i64,
    name: Seq<char>,
    description: Option<Seq<char>>,
    parent_id: Option<i64>,
    is_featured: bool,
    user: i64,
) -> bool {
    &&& 0 <= k < t.len()
    &&& exists|ts: i64|
        t[k] == RowV {
            id,
            fields: category_seed_fields(name, description, parent_id, is_featured) + #[trigger] stamp_fields_create(user, ts),
        }
}

/// Creates one fixture category and returns its id.
pub fn seed_category(
    ctx: &Ctx,
    mm: &mut ModelManager,
    name: &str,
    description: Option<&str>,
    parent_id: Option<i64>,
    is_featured: bool,
) -> (r: Result<i64, Error>)
    requires
        old(mm).wf(),
        category_rows_ok(old(mm).category@),
    ensures
        final(mm).wf(),
        category_rows_ok(final(mm).category@),
        same_tables_except(*old(mm), *final(mm), EntityKind::Category),
        r is Ok <==> old(mm).category.next_id < i64::MAX,
        r matches Ok(id) ==> {
            &&& id == old(mm).category.next_id
            &&& final(mm).category.next_id == old(mm).category.next_id + 1
            &&& final(mm).category@.len() == old(mm).category@.len() + 1
            &&& final(mm).category@.subrange(0, old(mm).category@.len() as int) =~= old(
                mm,
            ).category@
            &&& seeded_category_ok(
                final(mm).category@,
                old(mm).category@.len() as int,
                id,
                name@,
                (match description {
                    Some(d) => Some(d@),
                    None => None::<Seq<char>>,
                }),
                parent_id,
                is_featured,
                ctx.user_id,
            )
        },
        r is Err ==> *final(mm) == *old(mm) && r == Err::<i64, Error>(Error::Store),
{
    let fc = CategoryForCreate {
        name: name.to_owned(),
        description: match description {
            Some(d) => Some(d.to_owned()),
            None => None,
        },
        parent_id,
        is_featured,
    };
    let ghost fcv = fc;
    let r = CategoryBmc::create(ctx, mm, fc);
    proof {
        if r is Ok {
            let id = r->Ok_0;
            let ts = choose|ts: i64|
                final(mm).category@ =~= old(mm).category@.push(
                    #[trigger] category_create_row(fcv, id, ctx.user_id, ts),
                );
            assert(final(mm).category@.last() == category_create_row(fcv, id, ctx.user_id, ts));
            assert(category_fields_of_create(fcv) =~= category_seed_fields(
                name@,
                (match description {
                    Some(d) => Some(d@),
                    None => None::<Seq<char>>,
                }),
                parent_id,
                is_featured,
            ));
            assert(final(mm).category@.last() == RowV {
                id,
                fields: category_seed_fields(name@, (match description {
                    Some(d) => Some(d@),
                    None => None::<Seq<char>>,
                }), parent_id, is_featured) + stamp_fields_create(
                    ctx.user_id,
                    ts,
                ),
            });
        }
    }
    r
}

/// Creates one fixture category per datum, in order, and returns their
/// ids. Succeeds exactly when the id space has room for every datum; on a
/// failure the rows created for the earlier data remain.
#[verifier::loop_isolation(false)]
pub fn seed_categorys(
    ctx: &Ctx,
    mm: &mut ModelManager,
    data: &[(&str, Option<&str>, Option<i64>, bool)],
) -> (r: Result<Vec<i64>, Error>)
    requires
        old(mm).wf(),
        category_rows_ok(old(mm).category@),
    ensures
        final(mm).wf(),
        category_rows_ok(final(mm).category@),
        same_tables_except(*old(mm), *final(mm), EntityKind::Category),
        r is Ok <==> (data@.len() == 0 || old(mm).category.next_id + data@.len() <= i64::MAX),
        r matches Ok(ids) ==> {
            &&& ids@.len() == data@.len()
            &&& final(mm).category.next_id == old(mm).category.next_id + data@.len()
            &&& final(mm).category@.len() == old(mm).category@.len() + data@.len()
            &&& final(mm).category@.subrange(0, old(mm).category@.len() as int) =~= old(
                mm,
            ).category@
            &&& forall|j: int|
                0 <= j < data@.len() ==> #[trigger] ids@[j] == old(mm).category.next_id + j
            &&& forall|j: int|
                0 <= j < data@.len() ==> seeded_category_ok(
                    final(mm).category@,
                    old(mm).category@.len() + j,
                    #[trigger] ids@[j],
                    data@[j].0@,
                    (match data@[j].1 {
                        Some(d) => Some(d@),
                        None => None::<Seq<char>>,
                    }),
                    data@[j].2,
                    data@[j].3,
                    ctx.user_id,
                )
        },
        r is Err ==> ({
            let k = i64::MAX - old(mm).category.next_id;
            &&& 0 <= k < data@.len()
            &&& r == Err::<Vec<i64>, Error>(Error::Store)
            &&& final(mm).category.next_id == i64::MAX
            &&& final(mm).category@.len() == old(mm).category@.len() + k
            &&& final(mm).category@.subrange(0, old(mm).category@.len() as int) =~= old(
                mm,
            ).category@
            &&& forall|j: int|
                0 <= j < k ==> seeded_category_ok(
                    final(mm).category@,
                    old(mm).category@.len() + j,
                    (old(mm).category.next_id + j) as i64,
                    data@[j].0@,
                    (match data@[j].1 {
                        Some(d) => Some(d@),
                        None => None::<Seq<char>>,
                    }),
                    data@[j].2,
                    data@[j].3,
                    ctx.user_id,
                )
        }),
{
    let ghost base = old(mm).category@.len() as int;
    let mut ids: Vec<i64> = Vec::new();
    let n = data.len();
    let mut i: usize = 0;
    while i < n
        invariant
            i <= n,
            mm.wf(),
            category_rows_ok(mm.category@),
            same_tables_except(*old(mm), *mm, EntityKind::Category),
            ids@.len() == i as int,
            mm.category.next_id == old(mm).category.next_id + i,
            mm.category@.len() == base + i,
            mm.category@.subrange(0, base) =~= old(mm).category@,
            forall|j: int| 0 <= j < i ==> #[trigger] ids@[j] == old(mm).category.next_id + j,
            forall|j: int|
                0 <= j < i ==> seeded_category_ok(
                    mm.category@,
                    base + j,
                    #[trigger] ids@[j],
                    data@[j].0@,
                    (match data@[j].1 {
                        Some(d) => Some(d@),
                        None => None::<Seq<char>>,
                    }),
                    data@[j].2,
                    data@[j].3,
                    ctx.user_id,
                ),
        decreases n - i,
    {
        let d = &data[i];
        let ghost prev = mm.category@;
        let id = match seed_category(ctx, mm, d.0, d.1, d.2, d.3) {
            Ok(id) => id,
            Err(e) => {
                proof {
                    assert forall|j: int| 0 <= j < i implies seeded_category_ok(
                        mm.category@,
                        base + j,
                        (old(mm).category.next_id + j) as i64,
                        data@[j].0@,
                    (match data@[j].1 {
                        Some(d) => Some(d@),
                        None => None::<Seq<char>>,
                    }),
                    data@[j].2,
                    data@[j].3,
                        ctx.user_id,
                    ) by {
                        assert(seeded_category_ok(
                            mm.category@,
                            base + j,
                            ids@[j],
                            data@[j].0@,
                    (match data@[j].1 {
                        Some(d) => Some(d@),
                        None => None::<Seq<char>>,
                    }),
                    data@[j].2,
                    data@[j].3,
                            ctx.user_id,
                        ));
                    }
                }
                return Err(e);
            },
        };
        ids.push(id);
        proof {
            assert(mm.category@.subrange(0, base) =~= prev.subrange(0, base));
            assert forall|j: int| 0 <= j < i + 1 implies seeded_category_ok(
                mm.category@,
                base + j,
                #[trigger] ids@[j],
                data@[j].0@,
                    (match data@[j].1 {
                        Some(d) => Some(d@),
                        None => None::<Seq<char>>,
                    }),
                    data@[j].2,
                    data@[j].3,
                ctx.user_id,
            ) by {
                if j < i {
                    assert(mm.category@[base + j] == prev[base + j]);
                    assert(seeded_category_ok(
                        prev,
                        base + j,
                        ids@[j],
                        data@[j].0@,
                    (match data@[j].1 {
                        Some(d) => Some(d@),
                        None => None::<Seq<char>>,
                    }),
                    data@[j].2,
                    data@[j].3,
                        ctx.user_id,
                    ));
                }
            }
        }
        i = i + 1;
    }
    Ok(ids)
}

/// How many rows of the table hold a name containing the needle.
pub open spec fn category_name_contains_count(t: Seq<RowV>, sub: Seq<char>) -> int
    decreases t.len(),
{
    if t.len() == 0 {
        0
    } else {
        category_name_contains_count(t.drop_last(), sub) + (if text_contains(
            category_of_row(t.last()).name,
            sub,
        ) {
            1int
        } else {
            0int
        })
    }
}

/// The rows whose name does not contain the needle, in table order.
pub open spec fn category_rows_without_name(t: Seq<RowV>, sub: Seq<char>) -> Seq<RowV>
    decreases t.len(),
{
    if t.len() == 0 {
        Seq::<RowV>::empty()
    } else {
        let rest = category_rows_without_name(t.drop_last(), sub);
        if text_contains(category_of_row(t.last()).name, sub) {
            rest
        } else {
            rest.push(t.last())
        }
    }
}

/// A table splits into the rows kept and the rows counted as matching.
proof fn lemma_category_keep_count(t: Seq<RowV>, sub: Seq<char>)
    ensures
        category_rows_without_name(t, sub).len() + category_name_contains_count(t, sub)
            == t.len(),
        0 <= category_name_contains_count(t, sub),
    decreases t.len(),
{
    if t.len() > 0 {
        lemma_category_keep_count(t.drop_last(), sub);
    }
}

/// Deletes every category whose name contains the needle: exactly the
/// matching rows leave, the others keep their order, and the count of the
/// matching rows comes back.
#[verifier::loop_isolation(false)]
pub fn clean_categories(ctx: &Ctx, mm: &mut ModelManager, contains_name: &str) -> (r: Result<
    usize,
    Error,
>)
    requires
        old(mm).wf(),
        category_rows_ok(old(mm).category@),
    ensures
        final(mm).wf(),
        category_rows_ok(final(mm).category@),
        same_tables_except(*old(mm), *final(mm), EntityKind::Category),
        final(mm).category.next_id == old(mm).category.next_id,
        r is Ok,
        r matches Ok(n) ==> {
            &&& n == category_name_contains_count(old(mm).category@, contains_name@)
            &&& final(mm).category@ =~= category_rows_without_name(old(mm).category@, contains_name@)
        },
{
    let ghost t0 = old(mm).category@;
    let total = mm.category.rows.len();
    let mut i: usize = 0;
    let ghost p: int = 0;
    while i < mm.category.rows.len()
        invariant
            mm.wf(),
            category_rows_ok(mm.category@),
            same_tables_except(*old(mm), *mm, EntityKind::Category),
            mm.category.next_id == old(mm).category.next_id,
            0 <= p <= t0.len(),
            i as int == category_rows_without_name(t0.subrange(0, p), contains_name@).len(),
            mm.category@ =~= category_rows_without_name(t0.subrange(0, p), contains_name@)
                + t0.subrange(p, t0.len() as int),
        decreases t0.len() - p,
    {
        proof {
            assert(t0.subrange(0, p + 1).drop_last() =~= t0.subrange(0, p));
            assert(t0.subrange(0, p + 1).last() == t0[p]);
            assert(mm.category@[i as int] == t0[p]);
            assert(shape_ok(mm.category@[i as int].fields, category_shape()));
            assert(mm.category@[i as int].fields[0].name == category_shape()[0].0);
            assert(value_type_ok(
                mm.category@[i as int].fields[0].value,
                category_shape()[0].1,
            ));
        }
        let text = mm.category.rows[i].fields[0].value.as_text();
        if str_contains(text.as_str(), contains_name) {
            let ghost pre = mm.category@;
            remove_at(&mut mm.category, i);
            proof {
                assert(mm.category@ =~= category_rows_without_name(
                    t0.subrange(0, p + 1),
                    contains_name@,
                ) + t0.subrange(p + 1, t0.len() as int));
                assert forall|q: int| 0 <= q < mm.category@.len() implies shape_ok(
                    #[trigger] mm.category@[q].fields,
                    category_shape(),
                ) by {
                    if q < i {
                        assert(mm.category@[q] == pre[q]);
                        assert(shape_ok(pre[q].fields, category_shape()));
                    } else {
                        assert(mm.category@[q] == pre[q + 1]);
                        assert(shape_ok(pre[q + 1].fields, category_shape()));
                    }
                }
                p = p + 1;
            }
        } else {
            i = i + 1;
            proof {
                assert(mm.category@ =~= category_rows_without_name(
                    t0.subrange(0, p + 1),
                    contains_name@,
                ) + t0.subrange(p + 1, t0.len() as int));
                p = p + 1;
            }
        }
    }
    let remaining = mm.category.rows.len();
    proof {
        assert(t0.subrange(p, t0.len() as int).len() == t0.len() - p);
        assert(p == t0.len());
        assert(t0.subrange(0, t0.len() as int) =~= t0);
        assert(mm.category@ =~= category_rows_without_name(t0, contains_name@));
        lemma_category_keep_count(t0, contains_name@);
    }
    Ok(total - remaining)
}

} // verus!
