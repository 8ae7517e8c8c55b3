use vstd::prelude::*;

use crate::ctx::Ctx;
use crate::error::{EntityKind, Error};
use crate::model::base::{remove_at, shape_ok, stamp_fields_create, value_type_ok};
use crate::model::comment::{
    comment_create_row, comment_fields_of_create, comment_of_row, comment_rows_ok,
    comment_shape, CommentBmc, CommentForCreate,
};
use crate::model::field::{FieldV, FieldValueV};
use crate::model::filter::{str_contains, text_contains};
use crate::model::store::{same_tables_except, ModelManager, RowV};

verus! {

/// The entity columns of a seeded row, at the view level.
pub open spec fn comment_seed_fields(
    article_id: i64,
    user_id: i64,
    content: Seq<char>,
    replay_to: Option<i64>,
) -> Seq<FieldV> {
    seq![
        FieldV { name: "article_id"@, value: FieldValueV::Int(article_id) },
        FieldV { name: "user_id"@, value: FieldValueV::Int(user_id) },
        FieldV { name: "content"@, value: FieldValueV::Text(content) },
        FieldV { name: "replay_to"@, value: match replay_to {
            Some(x) => FieldValueV::Int(x),
            None => FieldValueV::Null,
        } },
    ]
}

/// The seeded row at `k`: the fixture columns and the caller's audit stamps,
/// at some clock reading.
pub open spec fn seeded_comment_ok(
    t: Seq<RowV>,
    k: int,
    id: i64,
    article_id: i64,
    user_id: i64,
    content: Seq<char>,
    replay_to: Option<i64>,
    user: i64,
) -> bool {
    &&& 0 <= k < t.len()
    &&& exists|ts: i64|
        t[k] == RowV {
            id,
            fields: comment_seed_fields(article_id, user_id, content, replay_to) + #[trigger] stamp_fields_create(user, ts),
        }
}

/// Creates one fixture comment and returns its id.
pub fn seed_comment(
    ctx: &Ctx,
    mm: &mut ModelManager,
    article_id: i64,
    user_id: i64,
    content: &str,
    replay_to: Option<i64>,
) -> (r: Result<i64, Error>)
    requires
        old(mm).wf(),
        comment_rows_ok(old(mm).comment@),
    ensures
        final(mm).wf(),
        comment_rows_ok(final(mm).comment@),
        same_tables_except(*old(mm), *final(mm), EntityKind::Comment),
        r is Ok <==> old(mm).comment.next_id < i64::MAX,
        r matches Ok(id) ==> {
            &&& id == old(mm).comment.next_id
            &&& final(mm).comment.next_id == old(mm).comment.next_id + 1
            &&& final(mm).comment@.len() == old(mm).comment@.len() + 1
            &&& final(mm).comment@.subrange(0, old(mm).comment@.len() as int) =~= old(
                mm,
            ).comment@
            &&& seeded_comment_ok(
                final(mm).comment@,
                old(mm).comment@.len() as int,
                id,
                article_id,
                user_id,
                content@,
                replay_to,
                ctx.user_id,
            )
        },
        r is Err ==> *final(mm) == *old(mm) && r == Err::<i64, Error>(Error::Store),
{
    let fc = CommentForCreate {
        article_id,
        user_id,
        content: content.to_owned(),
        replay_to,
    };
    let ghost fcv = fc;
    let r = CommentBmc::create(ctx, mm, fc);
    proof {
        if r is Ok {
            let id = r->Ok_0;
            let ts = choose|ts: i64|
                final(mm).comment@ =~= old(mm).comment@.push(
                    #[trigger] comment_create_row(fcv, id, ctx.user_id, ts),
                );
            assert(final(mm).comment@.last() == comment_create_row(fcv, id, ctx.user_id, ts));
            assert(comment_fields_of_create(fcv) =~= comment_seed_fields(
                article_id,
                user_id,
                content@,
                replay_to,
            ));
            assert(final(mm).comment@.last() == RowV {
                id,
                fields: comment_seed_fields(article_id, user_id, content@, replay_to) + stamp_fields_create(
                    ctx.user_id,
                    ts,
                ),
            });
        }
    }
    r
}

/// Creates one fixture comment per datum, in order, and returns their
/// ids. Succeeds exactly when the id space has room for every datum; on a
/// failure the rows created for the earlier data remain.
#[verifier::loop_isolation(false)]
pub fn seed_comments(
    ctx: &Ctx,
    mm: &mut ModelManager,
    data: &[(i64, i64, &str, Option<i64>)],
) -> (r: Result<Vec<i64>, Error>)
    requires
        old(mm).wf(),
        comment_rows_ok(old(mm).comment@),
    ensures
        final(mm).wf(),
        comment_rows_ok(final(mm).comment@),
        same_tables_except(*old(mm), *final(mm), EntityKind::Comment),
        r is Ok <==> (data@.len() == 0 || old(mm).comment.next_id + data@.len() <= i64::MAX),
        r matches Ok(ids) ==> {
            &&& ids@.len() == data@.len()
            &&& final(mm).comment.next_id == old(mm).comment.next_id + data@.len()
            &&& final(mm).comment@.len() == old(mm).comment@.len() + data@.len()
            &&& final(mm).comment@.subrange(0, old(mm).comment@.len() as int) =~= old(
                mm,
            ).comment@
            &&& forall|j: int|
                0 <= j < data@.len() ==> #[trigger] ids@[j] == old(mm).comment.next_id + j
            &&& forall|j: int|
                0 <= j < data@.len() ==> seeded_comment_ok(
                    final(mm).comment@,
                    old(mm).comment@.len() + j,
                    #[trigger] ids@[j],
                    data@[j].0,
                    data@[j].1,
                    data@[j].2@,
                    data@[j].3,
                    ctx.user_id,
                )
        },
        r is Err ==> ({
            let k = i64::MAX - old(mm).comment.next_id;
            &&& 0 <= k < data@.len()
            &&& r == Err::<Vec<i64>, Error>(Error::Store)
            &&& final(mm).comment.next_id == i64::MAX
            &&& final(mm).comment@.len() == old(mm).comment@.len() + k
            &&& final(mm).comment@.subrange(0, old(mm).comment@.len() as int) =~= old(
                mm,
            ).comment@
            &&& forall|j: int|
                0 <= j < k ==> seeded_comment_ok(
                    final(mm).comment@,
                    old(mm).comment@.len() + j,
                    (old(mm).comment.next_id + j) as i64,
                    data@[j].0,
                    data@[j].1,
                    data@[j].2@,
                    data@[j].3,
                    ctx.user_id,
                )
        }),
{
    let ghost base = old(mm).comment@.len() as int;
    let mut ids: Vec<i64> = Vec::new();
    let n = data.len();
    let mut i: usize = 0;
    while i < n
        invariant
            i <= n,
            mm.wf(),
            comment_rows_ok(mm.comment@),
            same_tables_except(*old(mm), *mm, EntityKind::Comment),
            ids@.len() == i as int,
            mm.comment.next_id == old(mm).comment.next_id + i,
            mm.comment@.len() == base + i,
            mm.comment@.subrange(0, base) =~= old(mm).comment@,
            forall|j: int| 0 <= j < i ==> #[trigger] ids@[j] == old(mm).comment.next_id + j,
            forall|j: int|
                0 <= j < i ==> seeded_comment_ok(
                    mm.comment@,
                    base + j,
                    #[trigger] ids@[j],
                    data@[j].0,
                    data@[j].1,
                    data@[j].2@,
                    data@[j].3,
                    ctx.user_id,
                ),
        decreases n - i,
    {
        let d = &data[i];
        let ghost prev = mm.comment@;
        let id = match seed_comment(ctx, mm, d.0, d.1, d.2, d.3) {
            Ok(id) => id,
            Err(e) => {
                proof {
                    assert forall|j: int| 0 <= j < i implies seeded_comment_ok(
                        mm.comment@,
                        base + j,
                        (old(mm).comment.next_id + j) as i64,
                        data@[j].0,
                    data@[j].1,
                    data@[j].2@,
                    data@[j].3,
                        ctx.user_id,
                    ) by {
                        assert(seeded_comment_ok(
                            mm.comment@,
                            base + j,
                            ids@[j],
                            data@[j].0,
                    data@[j].1,
                    data@[j].2@,
                    data@[j].3,
                            ctx.user_id,
                        ));
                    }
                }
                return Err(e);
            },
        };
        ids.push(id);
        proof {
            assert(mm.comment@.subrange(0, base) =~= prev.subrange(0, base));
            assert forall|j: int| 0 <= j < i + 1 implies seeded_comment_ok(
                mm.comment@,
                base + j,
                #[trigger] ids@[j],
                data@[j].0,
                    data@[j].1,
                    data@[j].2@,
                    data@[j].3,
                ctx.user_id,
            ) by {
                if j < i {
                    assert(mm.comment@[base + j] == prev[base + j]);
                    assert(seeded_comment_ok(
                        prev,
                        base + j,
                        ids@[j],
                        data@[j].0,
                    data@[j].1,
                    data@[j].2@,
                    data@[j].3,
                        ctx.user_id,
                    ));
                }
            }
        }
        i = i + 1;
    }
    Ok(ids)
}

/// How many rows of the table hold a content containing the needle.
pub open spec fn comment_content_contains_count(t: Seq<RowV>, sub: Seq<char>) -> int
    decreases t.len(),
{
    if t.len() == 0 {
        0
    } else {
        comment_content_contains_count(t.drop_last(), sub) + (if text_contains(
            comment_of_row(t.last()).content,
            sub,
        ) {
            1int
        } else {
            0int
        })
    }
}

/// The rows whose content does not contain the needle, in table order.
pub open spec fn comment_rows_without_content(t: Seq<RowV>, sub: Seq<char>) -> Seq<RowV>
    decreases t.len(),
{
    if t.len() == 0 {
        Seq::<RowV>::empty()
    } else {
        let rest = comment_rows_without_content(t.drop_last(), sub);
        if text_contains(comment_of_row(t.last()).content, sub) {
            rest
        } else {
            rest.push(t.last())
        }
    }
}

/// A table splits into the rows kept and the rows counted as matching.
proof fn lemma_comment_keep_count(t: Seq<RowV>, sub: Seq<char>)
    ensures
        comment_rows_without_content(t, sub).len() + comment_content_contains_count(t, sub)
            == t.len(),
        0 <= comment_content_contains_count(t, sub),
    decreases t.len(),
{
    if t.len() > 0 {
        lemma_comment_keep_count(t.drop_last(), sub);
    }
}

/// Deletes every comment whose content contains the needle: exactly the
/// matching rows leave, the others keep their order, and the count of the
/// matching rows comes back.
#[verifier::loop_isolation(false)]
pub fn clean_comments(ctx: &Ctx, mm: &mut ModelManager, contains_content: &str) -> (r: Result<
    usize,
    Error,
>)
    requires
        old(mm).wf(),
        comment_rows_ok(old(mm).comment@),
    ensures
        final(mm).wf(),
        comment_rows_ok(final(mm).comment@),
        same_tables_except(*old(mm), *final(mm), EntityKind::Comment),
        final(mm).comment.next_id == old(mm).comment.next_id,
        r is Ok,
        r matches Ok(n) ==> {
            &&& n == comment_content_contains_count(old(mm).comment@, contains_content@)
            &&& final(mm).comment@ =~= comment_rows_without_content(old(mm).comment@, contains_content@)
        },
{
    let ghost t0 = old(mm).comment@;
    let total = mm.comment.rows.len();
    let mut i: usize = 0;
    let ghost p: int = 0;
    while i < mm.comment.rows.len()
        invariant
            mm.wf(),
            comment_rows_ok(mm.comment@),
            same_tables_except(*old(mm), *mm, EntityKind::Comment),
            mm.comment.next_id == old(mm).comment.next_id,
            0 <= p <= t0.len(),
            i as int == comment_rows_without_content(t0.subrange(0, p), contains_content@).len(),
            mm.comment@ =~= comment_rows_without_content(t0.subrange(0, p), contains_content@)
                + t0.subrange(p, t0.len() as int),
        decreases t0.len() - p,
    {
        proof {
            assert(t0.subrange(0, p + 1).drop_last() =~= t0.subrange(0, p));
            assert(t0.subrange(0, p + 1).last() == t0[p]);
            assert(mm.comment@[i as int] == t0[p]);
            assert(shape_ok(mm.comment@[i as int].fields, comment_shape()));
            assert(mm.comment@[i as int].fields[2].name == comment_shape()[2].0);
            assert(value_type_ok(
                mm.comment@[i as int].fields[2].value,
                comment_shape()[2].1,
            ));
        }
        let text = mm.comment.rows[i].fields[2].value.as_text();
        if str_contains(text.as_str(), contains_content) {
            let ghost pre = mm.comment@;
            remove_at(&mut mm.comment, i);
            proof {
                assert(mm.comment@ =~= comment_rows_without_content(
                    t0.subrange(0, p + 1),
                    contains_content@,
                ) + t0.subrange(p + 1, t0.len() as int));
                assert forall|q: int| 0 <= q < mm.comment@.len() implies shape_ok(
                    #[trigger] mm.comment@[q].fields,
                    comment_shape(),
                ) by {
                    if q < i {
                        assert(mm.comment@[q] == pre[q]);
                        assert(shape_ok(pre[q].fields, comment_shape()));
                    } else {
                        assert(mm.comment@[q] == pre[q + 1]);
                        assert(shape_ok(pre[q + 1].fields, comment_shape()));
                    }
                }
                p = p + 1;
            }
        } else {
            i = i + 1;
            proof {
                assert(mm.comment@ =~= comment_rows_without_content(
                    t0.subrange(0, p + 1),
                    contains_content@,
                ) + t0.subrange(p + 1, t0.len() as int));
                p = p + 1;
            }
        }
    }
    let remaining = mm.comment.rows.len();
    proof {
        assert(t0.subrange(p, t0.len() as int).len() == t0.len() - p);
        assert(p == t0.len());
        assert(t0.subrange(0, t0.len() as int) =~= t0);
        assert(mm.comment@ =~= comment_rows_without_content(t0, contains_content@));
        lemma_comment_keep_count(t0, contains_content@);
    }
    Ok(total - remaining)
}

} // verus!
