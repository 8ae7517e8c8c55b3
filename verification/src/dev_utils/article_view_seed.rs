use vstd::prelude::*;

use crate::ctx::Ctx;
use crate::error::{EntityKind, Error};
use crate::model::article_view::{
    article_view_create_row, article_view_fields_of_create, article_view_rows_ok,
    ArticleViewBmc, ArticleViewForCreate,
};
use crate::model::base::stamp_fields_create;
use crate::model::field::{FieldV, FieldValueV};
use crate::model::store::{find_index, same_tables_except, table_has_id, ModelManager, RowV};

verus! {

/// The entity columns of a seeded row, at the view level.
pub open spec fn article_view_seed_fields(
    article_id: i64,
    viewer_id: i64,
    view_count: i32,
    likes: bool,
    dislikes: bool,
    share: bool,
) -> Seq<FieldV> {
    seq![
        FieldV { name: "article_id"@, value: FieldValueV::Int(article_id) },
        FieldV { name: "viewer_id"@, value: FieldValueV::Int(viewer_id) },
        FieldV { name: "view_count"@, value: FieldValueV::Int(view_count as i64) },
        FieldV { name: "likes"@, value: FieldValueV::Bool(likes) },
        FieldV { name: "dislikes"@, value: FieldValueV::Bool(dislikes) },
        FieldV { name: "share"@, value: FieldValueV::Bool(share) },
    ]
}

/// The seeded row at `k`: the fixture columns and the caller's audit stamps,
/// at some clock reading.
pub open spec fn seeded_article_view_ok(
    t: Seq<RowV>,
    k: int,
    id: i64,
    article_id: i64,
    viewer_id: i64,
    view_count: i32,
    likes: bool,
    dislikes: bool,
    share: bool,
    user: i64,
) -> bool {
    &&& 0 <= k < t.len()
    &&& exists|ts: i64|
        t[k] == RowV {
            id,
            fields: article_view_seed_fields(article_id, viewer_id, view_count, likes, dislikes, share) + #[trigger] stamp_fields_create(user, ts),
        }
}

/// Creates one fixture article view and returns its id.
pub fn seed_article_view(
    ctx: &Ctx,
    mm: &mut ModelManager,
    article_id: i64,
    viewer_id: i64,
    view_count: i32,
    likes: bool,
    dislikes: bool,
    share: bool,
) -> (r: Result<i64, Error>)
    requires
        old(mm).wf(),
        article_view_rows_ok(old(mm).article_view@),
    ensures
        final(mm).wf(),
        article_view_rows_ok(final(mm).article_view@),
        same_tables_except(*old(mm), *final(mm), EntityKind::ArticleView),
        r is Ok <==> old(mm).article_view.next_id < i64::MAX,
        r matches Ok(id) ==> {
            &&& id == old(mm).article_view.next_id
            &&& final(mm).article_view.next_id == old(mm).article_view.next_id + 1
            &&& final(mm).article_view@.len() == old(mm).article_view@.len() + 1
            &&& final(mm).article_view@.subrange(0, old(mm).article_view@.len() as int) =~= old(
                mm,
            ).article_view@
            &&& seeded_article_view_ok(
                final(mm).article_view@,
                old(mm).article_view@.len() as int,
                id,
                article_id,
                viewer_id,
                view_count,
                likes,
                dislikes,
                share,
                ctx.user_id,
            )
        },
        r is Err ==> *final(mm) == *old(mm) && r == Err::<i64, Error>(Error::Store),
{
    let fc = ArticleViewForCreate {
        article_id,
        viewer_id,
        view_count: Some(view_count),
        likes: Some(likes),
        dislikes: Some(dislikes),
        share: Some(share),
    };
    let ghost fcv = fc;
    let r = ArticleViewBmc::create(ctx, mm, fc);
    proof {
        if r is Ok {
            let id = r->Ok_0;
            let ts = choose|ts: i64|
                final(mm).article_view@ =~= old(mm).article_view@.push(
                    #[trigger] article_view_create_row(fcv, id, ctx.user_id, ts),
                );
            assert(final(mm).article_view@.last() == article_view_create_row(fcv, id, ctx.user_id, ts));
            assert(article_view_fields_of_create(fcv) =~= article_view_seed_fields(
                article_id,
                viewer_id,
                view_count,
                likes,
                dislikes,
                share,
            ));
            assert(final(mm).article_view@.last() == RowV {
                id,
                fields: article_view_seed_fields(article_id, viewer_id, view_count, likes, dislikes, share) + stamp_fields_create(
                    ctx.user_id,
                    ts,
                ),
            });
        }
    }
    r
}

/// Creates one fixture article view per datum, in order, and returns their
/// ids. Succeeds exactly when the id space has room for every datum; on a
/// failure the rows created for the earlier data remain.
#[verifier::loop_isolation(false)]
pub fn seed_article_views(
    ctx: &Ctx,
    mm: &mut ModelManager,
    data: &[(i64, i64, i32, bool, bool, bool)],
) -> (r: Result<Vec<i64>, Error>)
    requires
        old(mm).wf(),
        article_view_rows_ok(old(mm).article_view@),
    ensures
        final(mm).wf(),
        article_view_rows_ok(final(mm).article_view@),
        same_tables_except(*old(mm), *final(mm), EntityKind::ArticleView),
        r is Ok <==> (data@.len() == 0 || old(mm).article_view.next_id + data@.len() <= i64::MAX),
        r matches Ok(ids) ==> {
            &&& ids@.len() == data@.len()
            &&& final(mm).article_view.next_id == old(mm).article_view.next_id + data@.len()
            &&& final(mm).article_view@.len() == old(mm).article_view@.len() + data@.len()
            &&& final(mm).article_view@.subrange(0, old(mm).article_view@.len() as int) =~= old(
                mm,
            ).article_view@
            &&& forall|j: int|
                0 <= j < data@.len() ==> #[trigger] ids@[j] == old(mm).article_view.next_id + j
            &&& forall|j: int|
                0 <= j < data@.len() ==> seeded_article_view_ok(
                    final(mm).article_view@,
                    old(mm).article_view@.len() + j,
                    #[trigger] ids@[j],
                    data@[j].0,
                    data@[j].1,
                    data@[j].2,
                    data@[j].3,
                    data@[j].4,
                    data@[j].5,
                    ctx.user_id,
                )
        },
        r is Err ==> ({
            let k = i64::MAX - old(mm).article_view.next_id;
            &&& 0 <= k < data@.len()
            &&& r == Err::<Vec<i64>, Error>(Error::Store)
            &&& final(mm).article_view.next_id == i64::MAX
            &&& final(mm).article_view@.len() == old(mm).article_view@.len() + k
            &&& final(mm).article_view@.subrange(0, old(mm).article_view@.len() as int) =~= old(
                mm,
            ).article_view@
            &&& forall|j: int|
                0 <= j < k ==> seeded_article_view_ok(
                    final(mm).article_view@,
                    old(mm).article_view@.len() + j,
                    (old(mm).article_view.next_id + j) as i64,
                    data@[j].0,
                    data@[j].1,
                    data@[j].2,
                    data@[j].3,
                    data@[j].4,
                    data@[j].5,
                    ctx.user_id,
                )
        }),
{
    let ghost base = old(mm).article_view@.len() as int;
    let mut ids: Vec<i64> = Vec::new();
    let n = data.len();
    let mut i: usize = 0;
    while i < n
        invariant
            i <= n,
            mm.wf(),
            article_view_rows_ok(mm.article_view@),
            same_tables_except(*old(mm), *mm, EntityKind::ArticleView),
            ids@.len() == i as int,
            mm.article_view.next_id == old(mm).article_view.next_id + i,
            mm.article_view@.len() == base + i,
            mm.article_view@.subrange(0, base) =~= old(mm).article_view@,
            forall|j: int| 0 <= j < i ==> #[trigger] ids@[j] == old(mm).article_view.next_id + j,
            forall|j: int|
                0 <= j < i ==> seeded_article_view_ok(
                    mm.article_view@,
                    base + j,
                    #[trigger] ids@[j],
                    data@[j].0,
                    data@[j].1,
                    data@[j].2,
                    data@[j].3,
                    data@[j].4,
                    data@[j].5,
                    ctx.user_id,
                ),
        decreases n - i,
    {
        let d = &data[i];
        let ghost prev = mm.article_view@;
        let id = match seed_article_view(ctx, mm, d.0, d.1, d.2, d.3, d.4, d.5) {
            Ok(id) => id,
            Err(e) => {
                proof {
                    assert forall|j: int| 0 <= j < i implies seeded_article_view_ok(
                        mm.article_view@,
                        base + j,
                        (old(mm).article_view.next_id + j) as i64,
                        data@[j].0,
                    data@[j].1,
                    data@[j].2,
                    data@[j].3,
                    data@[j].4,
                    data@[j].5,
                        ctx.user_id,
                    ) by {
                        assert(seeded_article_view_ok(
                            mm.article_view@,
                            base + j,
                            ids@[j],
                            data@[j].0,
                    data@[j].1,
                    data@[j].2,
                    data@[j].3,
                    data@[j].4,
                    data@[j].5,
                            ctx.user_id,
                        ));
                    }
                }
                return Err(e);
            },
        };
        ids.push(id);
        proof {
            assert(mm.article_view@.subrange(0, base) =~= prev.subrange(0, base));
            assert forall|j: int| 0 <= j < i + 1 implies seeded_article_view_ok(
                mm.article_view@,
                base + j,
                #[trigger] ids@[j],
                data@[j].0,
                    data@[j].1,
                    data@[j].2,
                    data@[j].3,
                    data@[j].4,
                    data@[j].5,
                ctx.user_id,
            ) by {
                if j < i {
                    assert(mm.article_view@[base + j] == prev[base + j]);
                    assert(seeded_article_view_ok(
                        prev,
                        base + j,
                        ids@[j],
                        data@[j].0,
                    data@[j].1,
                    data@[j].2,
                    data@[j].3,
                    data@[j].4,
                    data@[j].5,
                        ctx.user_id,
                    ));
                }
            }
        }
        i = i + 1;
    }
    Ok(ids)
}

/// Deletes every article view row and returns how many there were; the
/// table is empty afterwards.
pub fn clean_article_views(ctx: &Ctx, mm: &mut ModelManager) -> (r: Result<usize, Error>)
    requires
        old(mm).wf(),
        article_view_rows_ok(old(mm).article_view@),
    ensures
        final(mm).wf(),
        article_view_rows_ok(final(mm).article_view@),
        same_tables_except(*old(mm), *final(mm), EntityKind::ArticleView),
        final(mm).article_view.next_id == old(mm).article_view.next_id,
        r is Ok,
        r matches Ok(n) ==> n == old(mm).article_view@.len() && final(mm).article_view@ =~= Seq::<
            RowV,
        >::empty(),
{
    let count = mm.article_view.rows.len();
    mm.article_view.rows = Vec::new();
    proof {
        assert(mm.article_view@ =~= Seq::<RowV>::empty());
    }
    Ok(count)
}

/// Deletes the article view with the id: exactly that row leaves; an absent
/// id fails with `EntityNotFound` and leaves the store unchanged.
pub fn clean_article_view(ctx: &Ctx, mm: &mut ModelManager, article_view_id: i64) -> (r: Result<(), Error>)
    requires
        old(mm).wf(),
        article_view_rows_ok(old(mm).article_view@),
    ensures
        final(mm).wf(),
        article_view_rows_ok(final(mm).article_view@),
        same_tables_except(*old(mm), *final(mm), EntityKind::ArticleView),
        final(mm).article_view.next_id == old(mm).article_view.next_id,
        r is Ok <==> table_has_id(old(mm).article_view@, article_view_id),
        r matches Ok(u) ==> final(mm).article_view@ =~= old(mm).article_view@.remove(
            find_index(old(mm).article_view@, article_view_id),
        ) && !table_has_id(final(mm).article_view@, article_view_id),
        r is Err ==> *final(mm) == *old(mm) && r == Err::<(), Error>(
            Error::EntityNotFound { entity: EntityKind::ArticleView, id: article_view_id },
        ),
{
    ArticleViewBmc::delete(ctx, mm, article_view_id)
}

} // verus!
