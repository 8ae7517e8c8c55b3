use vstd::prelude::*;

use crate::ctx::Ctx;
use crate::error::{EntityKind, Error};
use crate::model::author::{
    author_create_row, author_fields_of_create, author_of_row, author_rows_ok, author_shape,
    author_type_text, AuthorBmc, AuthorForCreate, AuthorType,
};
use crate::model::base::{remove_at, shape_ok, stamp_fields_create, value_type_ok};
use crate::model::field::{opt_text_view, FieldV, FieldValueV};
use crate::model::filter::{str_contains, text_contains};
use crate::model::store::{same_tables_except, ModelManager, RowV};

verus! {

/// The entity columns of a seeded row, at the view level.
pub open spec fn author_seed_fields(
    user_id: i64,
    pen_name: Seq<char>,
    author_type: AuthorType,
    bio: Option<Seq<char>>,
    website: Option<Seq<char>>,
    avatar_url: Option<Seq<char>>,
) -> Seq<FieldV> {
    seq![
        FieldV { name: "user_id"@, value: FieldValueV::Int(user_id) },
        FieldV { name: "author_type"@, value: FieldValueV::Text(author_type_text(author_type)) },
        FieldV { name: "pen_name"@, value: FieldValueV::Text(pen_name) },
        FieldV { name: "bio"@, value: match bio {
            Some(u) => FieldValueV::Text(u),
            None => FieldValueV::Null,
        } },
        FieldV { name: "website"@, value: match website {
            Some(u) => FieldValueV::Text(u),
            None => FieldValueV::Null,
        } },
        FieldV { name: "avatar_url"@, value: match avatar_url {
            Some(u) => FieldValueV::Text(u),
            None => FieldValueV::Null,
        } },
    ]
}

/// The seeded row at `k`: the fixture columns and the caller's audit stamps,
/// at some clock reading.
pub open spec fn seeded_author_ok(
    t: Seq<RowV>,
    k: int,
    id: i64,
    user_id: i64,
    pen_name: Seq<char>,
    author_type: AuthorType,
    bio: Option<Seq<char>>,
    website: Option<Seq<char>>,
    avatar_url: Option<Seq<char>>,
    user: i64,
) -> bool {
    &&& 0 <= k < t.len()
    &&& exists|ts: i64|
        t[k] == RowV {
            id,
            fields: author_seed_fields(user_id, pen_name, author_type, bio, website, avatar_url) + #[trigger] stamp_fields_create(user, ts),
        }
}

/// Creates one fixture author and returns its id.
pub fn seed_author(
    ctx: &Ctx,
    mm: &mut ModelManager,
    user_id: i64,
    pen_name: &str,
    author_type: AuthorType,
    bio: Option<String>,
    website: Option<String>,
    avatar_url: Option<String>,
) -> (r: Result<i64, Error>)
    requires
        old(mm).wf(),
        author_rows_ok(old(mm).author@),
    ensures
        final(mm).wf(),
        author_rows_ok(final(mm).author@),
        same_tables_except(*old(mm), *final(mm), EntityKind::Author),
        r is Ok <==> old(mm).author.next_id < i64::MAX,
        r matches Ok(id) ==> {
            &&& id == old(mm).author.next_id
            &&& final(mm).author.next_id == old(mm).author.next_id + 1
            &&& final(mm).author@.len() == old(mm).author@.len() + 1
            &&& final(mm).author@.subrange(0, old(mm).author@.len() as int) =~= old(
                mm,
            ).author@
            &&& seeded_author_ok(
                final(mm).author@,
                old(mm).author@.len() as int,
                id,
                user_id,
                pen_name@,
                author_type,
                opt_text_view(bio),
                opt_text_view(website),
                opt_text_view(avatar_url),
                ctx.user_id,
            )
        },
        r is Err ==> *final(mm) == *old(mm) && r == Err::<i64, Error>(Error::Store),
{
    let fc = AuthorForCreate {
        user_id,
        author_type,
        pen_name: pen_name.to_owned(),
        bio,
        website,
        avatar_url,
    };
    let ghost fcv = fc;
    let r = AuthorBmc::create(ctx, mm, fc);
    proof {
        if r is Ok {
            let id = r->Ok_0;
            let ts = choose|ts: i64|
                final(mm).author@ =~= old(mm).author@.push(
                    #[trigger] author_create_row(fcv, id, ctx.user_id, ts),
                );
            assert(final(mm).author@.last() == author_create_row(fcv, id, ctx.user_id, ts));
            assert(author_fields_of_create(fcv) =~= author_seed_fields(
                user_id,
                pen_name@,
                author_type,
                opt_text_view(bio),
                opt_text_view(website),
                opt_text_view(avatar_url),
            ));
            assert(final(mm).author@.last() == RowV {
                id,
                fields: author_seed_fields(user_id, pen_name@, author_type, opt_text_view(bio), opt_text_view(website), opt_text_view(avatar_url)) + stamp_fields_create(
                    ctx.user_id,
                    ts,
                ),
            });
        }
    }
    r
}

/// Creates one fixture author per datum, in order, and returns their
/// ids. Succeeds exactly when the id space has room for every datum; on a
/// failure the rows created for the earlier data remain.
#[verifier::loop_isolation(false)]
pub fn seed_authors(
    ctx: &Ctx,
    mm: &mut ModelManager,
    data: &[(i64, &str, AuthorType, Option<String>, Option<String>, Option<String>)],
) -> (r: Result<Vec<i64>, Error>)
    requires
        old(mm).wf(),
        author_rows_ok(old(mm).author@),
    ensures
        final(mm).wf(),
        author_rows_ok(final(mm).author@),
        same_tables_except(*old(mm), *final(mm), EntityKind::Author),
        r is Ok <==> (data@.len() == 0 || old(mm).author.next_id + data@.len() <= i64::MAX),
        r matches Ok(ids) ==> {
            &&& ids@.len() == data@.len()
            &&& final(mm).author.next_id == old(mm).author.next_id + data@.len()
            &&& final(mm).author@.len() == old(mm).author@.len() + data@.len()
            &&& final(mm).author@.subrange(0, old(mm).author@.len() as int) =~= old(
                mm,
            ).author@
            &&& forall|j: int|
                0 <= j < data@.len() ==> #[trigger] ids@[j] == old(mm).author.next_id + j
            &&& forall|j: int|
                0 <= j < data@.len() ==> seeded_author_ok(
                    final(mm).author@,
                    old(mm).author@.len() + j,
                    #[trigger] ids@[j],
                    data@[j].0,
                    data@[j].1@,
                    data@[j].2,
                    opt_text_view(data@[j].3),
                    opt_text_view(data@[j].4),
                    opt_text_view(data@[j].5),
                    ctx.user_id,
                )
        },
        r is Err ==> ({
            let k = i64::MAX - old(mm).author.next_id;
            &&& 0 <= k < data@.len()
            &&& r == Err::<Vec<i64>, Error>(Error::Store)
            &&& final(mm).author.next_id == i64::MAX
            &&& final(mm).author@.len() == old(mm).author@.len() + k
            &&& final(mm).author@.subrange(0, old(mm).author@.len() as int) =~= old(
                mm,
            ).author@
            &&& forall|j: int|
                0 <= j < k ==> seeded_author_ok(
                    final(mm).author@,
                    old(mm).author@.len() + j,
                    (old(mm).author.next_id + j) as i64,
                    data@[j].0,
                    data@[j].1@,
                    data@[j].2,
                    opt_text_view(data@[j].3),
                    opt_text_view(data@[j].4),
                    opt_text_view(data@[j].5),
                    ctx.user_id,
                )
        }),
{
    let ghost base = old(mm).author@.len() as int;
    let mut ids: Vec<i64> = Vec::new();
    let n = data.len();
    let mut i: usize = 0;
    while i < n
        invariant
            i <= n,
            mm.wf(),
            author_rows_ok(mm.author@),
            same_tables_except(*old(mm), *mm, EntityKind::Author),
            ids@.len() == i as int,
            mm.author.next_id == old(mm).author.next_id + i,
            mm.author@.len() == base + i,
            mm.author@.subrange(0, base) =~= old(mm).author@,
            forall|j: int| 0 <= j < i ==> #[trigger] ids@[j] == old(mm).author.next_id + j,
            forall|j: int|
                0 <= j < i ==> seeded_author_ok(
                    mm.author@,
                    base + j,
                    #[trigger] ids@[j],
                    data@[j].0,
                    data@[j].1@,
                    data@[j].2,
                    opt_text_view(data@[j].3),
                    opt_text_view(data@[j].4),
                    opt_text_view(data@[j].5),
                    ctx.user_id,
                ),
        decreases n - i,
    {
        let d = &data[i];
        let bio = match &d.3 {
            Some(u) => Some(u.clone()),
            None => None,
        };
        let website = match &d.4 {
            Some(u) => Some(u.clone()),
            None => None,
        };
        let avatar_url = match &d.5 {
            Some(u) => Some(u.clone()),
            None => None,
        };
        let ghost prev = mm.author@;
        let id = match seed_author(ctx, mm, d.0, d.1, d.2, bio, website, avatar_url) {
            Ok(id) => id,
            Err(e) => {
                proof {
                    assert forall|j: int| 0 <= j < i implies seeded_author_ok(
                        mm.author@,
                        base + j,
                        (old(mm).author.next_id + j) as i64,
                        data@[j].0,
                    data@[j].1@,
                    data@[j].2,
                    opt_text_view(data@[j].3),
                    opt_text_view(data@[j].4),
                    opt_text_view(data@[j].5),
                        ctx.user_id,
                    ) by {
                        assert(seeded_author_ok(
                            mm.author@,
                            base + j,
                            ids@[j],
                            data@[j].0,
                    data@[j].1@,
                    data@[j].2,
                    opt_text_view(data@[j].3),
                    opt_text_view(data@[j].4),
                    opt_text_view(data@[j].5),
                            ctx.user_id,
                        ));
                    }
                }
                return Err(e);
            },
        };
        ids.push(id);
        proof {
            assert(mm.author@.subrange(0, base) =~= prev.subrange(0, base));
            assert forall|j: int| 0 <= j < i + 1 implies seeded_author_ok(
                mm.author@,
                base + j,
                #[trigger] ids@[j],
                data@[j].0,
                    data@[j].1@,
                    data@[j].2,
                    opt_text_view(data@[j].3),
                    opt_text_view(data@[j].4),
                    opt_text_view(data@[j].5),
                ctx.user_id,
            ) by {
                if j < i {
                    assert(mm.author@[base + j] == prev[base + j]);
                    assert(seeded_author_ok(
                        prev,
                        base + j,
                        ids@[j],
                        data@[j].0,
                    data@[j].1@,
                    data@[j].2,
                    opt_text_view(data@[j].3),
                    opt_text_view(data@[j].4),
                    opt_text_view(data@[j].5),
                        ctx.user_id,
                    ));
                }
            }
        }
        i = i + 1;
    }
    Ok(ids)
}

/// How many rows of the table hold a pen_name containing the needle.
pub open spec fn author_pen_name_contains_count(t: Seq<RowV>, sub: Seq<char>) -> int
    decreases t.len(),
{
    if t.len() == 0 {
        0
    } else {
        author_pen_name_contains_count(t.drop_last(), sub) + (if text_contains(
            author_of_row(t.last()).pen_name,
            sub,
        ) {
            1int
        } else {
            0int
        })
    }
}

/// The rows whose pen_name does not contain the needle, in table order.
pub open spec fn author_rows_without_pen_name(t: Seq<RowV>, sub: Seq<char>) -> Seq<RowV>
    decreases t.len(),
{
    if t.len() == 0 {
        Seq::<RowV>::empty()
    } else {
        let rest = author_rows_without_pen_name(t.drop_last(), sub);
        if text_contains(author_of_row(t.last()).pen_name, sub) {
            rest
        } else {
            rest.push(t.last())
        }
    }
}

/// A table splits into the rows kept and the rows counted as matching.
proof fn lemma_author_keep_count(t: Seq<RowV>, sub: Seq<char>)
    ensures
        author_rows_without_pen_name(t, sub).len() + author_pen_name_contains_count(t, sub)
            == t.len(),
        0 <= author_pen_name_contains_count(t, sub),
    decreases t.len(),
{
    if t.len() > 0 {
        lemma_author_keep_count(t.drop_last(), sub);
    }
}

/// Deletes every author whose pen_name contains the needle: exactly the
/// matching rows leave, the others keep their order, and the count of the
/// matching rows comes back.
#[verifier::loop_isolation(false)]
pub fn clean_authors(ctx: &Ctx, mm: &mut ModelManager, contains_pen_name: &str) -> (r: Result<
    usize,
    Error,
>)
    requires
        old(mm).wf(),
        author_rows_ok(old(mm).author@),
    ensures
        final(mm).wf(),
        author_rows_ok(final(mm).author@),
        same_tables_except(*old(mm), *final(mm), EntityKind::Author),
        final(mm).author.next_id == old(mm).author.next_id,
        r is Ok,
        r matches Ok(n) ==> {
            &&& n == author_pen_name_contains_count(old(mm).author@, contains_pen_name@)
            &&& final(mm).author@ =~= author_rows_without_pen_name(old(mm).author@, contains_pen_name@)
        },
{
    let ghost t0 = old(mm).author@;
    let total = mm.author.rows.len();
    let mut i: usize = 0;
    let ghost p: int = 0;
    while i < mm.author.rows.len()
        invariant
            mm.wf(),
            author_rows_ok(mm.author@),
            same_tables_except(*old(mm), *mm, EntityKind::Author),
            mm.author.next_id == old(mm).author.next_id,
            0 <= p <= t0.len(),
            i as int == author_rows_without_pen_name(t0.subrange(0, p), contains_pen_name@).len(),
            mm.author@ =~= author_rows_without_pen_name(t0.subrange(0, p), contains_pen_name@)
                + t0.subrange(p, t0.len() as int),
        decreases t0.len() - p,
    {
        proof {
            assert(t0.subrange(0, p + 1).drop_last() =~= t0.subrange(0, p));
            assert(t0.subrange(0, p + 1).last() == t0[p]);
            assert(mm.author@[i as int] == t0[p]);
            assert(shape_ok(mm.author@[i as int].fields, author_shape()));
            assert(mm.author@[i as int].fields[2].name == author_shape()[2].0);
            assert(value_type_ok(
                mm.author@[i as int].fields[2].value,
                author_shape()[2].1,
            ));
        }
        let text = mm.author.rows[i].fields[2].value.as_text();
        if str_contains(text.as_str(), contains_pen_name) {
            let ghost pre = mm.author@;
            remove_at(&mut mm.author, i);
            proof {
                assert(mm.author@ =~= author_rows_without_pen_name(
                    t0.subrange(0, p + 1),
                    contains_pen_name@,
                ) + t0.subrange(p + 1, t0.len() as int));
                assert forall|q: int| 0 <= q < mm.author@.len() implies shape_ok(
                    #[trigger] mm.author@[q].fields,
                    author_shape(),
                ) by {
                    if q < i {
                        assert(mm.author@[q] == pre[q]);
                        assert(shape_ok(pre[q].fields, author_shape()));
                    } else {
                        assert(mm.author@[q] == pre[q + 1]);
                        assert(shape_ok(pre[q + 1].fields, author_shape()));
                    }
                }
                p = p + 1;
            }
        } else {
            i = i + 1;
            proof {
                assert(mm.author@ =~= author_rows_without_pen_name(
                    t0.subrange(0, p + 1),
                    contains_pen_name@,
                ) + t0.subrange(p + 1, t0.len() as int));
                p = p + 1;
            }
        }
    }
    let remaining = mm.author.rows.len();
    proof {
        assert(t0.subrange(p, t0.len() as int).len() == t0.len() - p);
        assert(p == t0.len());
        assert(t0.subrange(0, t0.len() as int) =~= t0);
        assert(mm.author@ =~= author_rows_without_pen_name(t0, contains_pen_name@));
        lemma_author_keep_count(t0, contains_pen_name@);
    }
    Ok(total - remaining)
}

} // verus!
