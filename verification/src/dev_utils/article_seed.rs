use vstd::prelude::*;

use crate::ctx::Ctx;
use crate::error::{EntityKind, Error};
use crate::model::article::{
    approval_state_text, article_create_row, article_fields_of_create, article_of_row,
    article_rows_ok, article_shape, ApprovalState, ArticleBmc, ArticleForCreate,
};
use crate::model::base::{remove_at, shape_ok, stamp_fields_create, value_type_ok};
use crate::model::field::{opt_text_view, FieldV, FieldValueV};
use crate::model::filter::{str_contains, text_contains};
use crate::model::store::{same_tables_except, ModelManager, RowV};

verus! {

/// The entity columns of a seeded row, at the view level.
pub open spec fn article_seed_fields(
    title: Seq<char>,
    content: Seq<char>,
    category_id: Option<i32>,
    author_id: i64,
    approval_state: ApprovalState,
    image_url: Option<Seq<char>>,
) -> Seq<FieldV> {
    seq![
        FieldV { name: "title"@, value: FieldValueV::Text(title) },
        FieldV { name: "content"@, value: FieldValueV::Text(content) },
        FieldV { name: "category_id"@, value: FieldValueV::Int(
            match category_id {
                Some(c) => c as i64,
                None => 0,
            },
        ) },
        FieldV { name: "author_id"@, value: FieldValueV::Int(author_id) },
        FieldV { name: "approval_state"@, value: FieldValueV::Text(approval_state_text(approval_state)) },
        FieldV { name: "approver_id"@, value: FieldValueV::Null },
        FieldV { name: "approval_time"@, value: FieldValueV::Null },
        FieldV { name: "views"@, value: FieldValueV::Int(0) },
        FieldV { name: "image_url"@, value: match image_url {
            Some(u) => FieldValueV::Text(u),
            None => FieldValueV::Null,
        } },
        FieldV { name: "likes"@, value: FieldValueV::Int(0) },
    ]
}

/// The seeded row at `k`: the fixture columns and the caller's audit stamps,
/// at some clock reading.
pub open spec fn seeded_article_ok(
    t: Seq<RowV>,
    k: int,
    id: i64,
    title: Seq<char>,
    content: Seq<char>,
    category_id: Option<i32>,
    author_id: i64,
    approval_state: ApprovalState,
    image_url: Option<Seq<char>>,
    user: i64,
) -> bool {
    &&& 0 <= k < t.len()
    &&& exists|ts: i64|
        t[k] == RowV {
            id,
            fields: article_seed_fields(title, content, category_id, author_id, approval_state, image_url) + #[trigger] stamp_fields_create(user, ts),
        }
}

/// Creates one fixture article and returns its id.
pub fn seed_article(
    ctx: &Ctx,
    mm: &mut ModelManager,
    title: &str,
    content: &str,
    category_id: Option<i32>,
    author_id: i64,
    approval_state: ApprovalState,
    image_url: Option<String>,
) -> (r: Result<i64, Error>)
    requires
        old(mm).wf(),
        article_rows_ok(old(mm).article@),
    ensures
        final(mm).wf(),
        article_rows_ok(final(mm).article@),
        same_tables_except(*old(mm), *final(mm), EntityKind::Article),
        r is Ok <==> old(mm).article.next_id < i64::MAX,
        r matches Ok(id) ==> {
            &&& id == old(mm).article.next_id
            &&& final(mm).article.next_id == old(mm).article.next_id + 1
            &&& final(mm).article@.len() == old(mm).article@.len() + 1
            &&& final(mm).article@.subrange(0, old(mm).article@.len() as int) =~= old(
                mm,
            ).article@
            &&& seeded_article_ok(
                final(mm).article@,
                old(mm).article@.len() as int,
                id,
                title@,
                content@,
                category_id,
                author_id,
                approval_state,
                opt_text_view(image_url),
                ctx.user_id,
            )
        },
        r is Err ==> *final(mm) == *old(mm) && r == Err::<i64, Error>(Error::Store),
{
    let fc = ArticleForCreate {
        title: title.to_owned(),
        content: content.to_owned(),
        category_id,
        author_id,
        approval_state,
        image_url,
    };
    let ghost fcv = fc;
    let r = ArticleBmc::create(ctx, mm, fc);
    proof {
        if r is Ok {
            let id = r->Ok_0;
            let ts = choose|ts: i64|
                final(mm).article@ =~= old(mm).article@.push(
                    #[trigger] article_create_row(fcv, id, ctx.user_id, ts),
                );
            assert(final(mm).article@.last() == article_create_row(fcv, id, ctx.user_id, ts));
            assert(article_fields_of_create(fcv) =~= article_seed_fields(
                title@,
                content@,
                category_id,
                author_id,
                approval_state,
                opt_text_view(image_url),
            ));
            assert(final(mm).article@.last() == RowV {
                id,
                fields: article_seed_fields(title@, content@, category_id, author_id, approval_state, opt_text_view(image_url)) + stamp_fields_create(
                    ctx.user_id,
                    ts,
                ),
            });
        }
    }
    r
}

/// Creates one fixture article per datum, in order, and returns their
/// ids. Succeeds exactly when the id space has room for every datum; on a
/// failure the rows created for the earlier data remain.
#[verifier::loop_isolation(false)]
pub fn seed_articles(
    ctx: &Ctx,
    mm: &mut ModelManager,
    data: &[(&str, &str, Option<i32>, i64, ApprovalState, Option<String>)],
) -> (r: Result<Vec<i64>, Error>)
    requires
        old(mm).wf(),
        article_rows_ok(old(mm).article@),
    ensures
        final(mm).wf(),
        article_rows_ok(final(mm).article@),
        same_tables_except(*old(mm), *final(mm), EntityKind::Article),
        r is Ok <==> (data@.len() == 0 || old(mm).article.next_id + data@.len() <= i64::MAX),
        r matches Ok(ids) ==> {
            &&& ids@.len() == data@.len()
            &&& final(mm).article.next_id == old(mm).article.next_id + data@.len()
            &&& final(mm).article@.len() == old(mm).article@.len() + data@.len()
            &&& final(mm).article@.subrange(0, old(mm).article@.len() as int) =~= old(
                mm,
            ).article@
            &&& forall|j: int|
                0 <= j < data@.len() ==> #[trigger] ids@[j] == old(mm).article.next_id + j
            &&& forall|j: int|
                0 <= j < data@.len() ==> seeded_article_ok(
                    final(mm).article@,
                    old(mm).article@.len() + j,
                    #[trigger] ids@[j],
                    data@[j].0@,
                    data@[j].1@,
                    data@[j].2,
                    data@[j].3,
                    data@[j].4,
                    opt_text_view(data@[j].5),
                    ctx.user_id,
                )
        },
        r is Err ==> ({
            let k = i64::MAX - old(mm).article.next_id;
            &&& 0 <= k < data@.len()
            &&& r == Err::<Vec<i64>, Error>(Error::Store)
            &&& final(mm).article.next_id == i64::MAX
            &&& final(mm).article@.len() == old(mm).article@.len() + k
            &&& final(mm).article@.subrange(0, old(mm).article@.len() as int) =~= old(
                mm,
            ).article@
            &&& forall|j: int|
                0 <= j < k ==> seeded_article_ok(
                    final(mm).article@,
                    old(mm).article@.len() + j,
                    (old(mm).article.next_id + j) as i64,
                    data@[j].0@,
                    data@[j].1@,
                    data@[j].2,
                    data@[j].3,
                    data@[j].4,
                    opt_text_view(data@[j].5),
                    ctx.user_id,
                )
        }),
{
    let ghost base = old(mm).article@.len() as int;
    let mut ids: Vec<i64> = Vec::new();
    let n = data.len();
    let mut i: usize = 0;
    while i < n
        invariant
            i <= n,
            mm.wf(),
            article_rows_ok(mm.article@),
            same_tables_except(*old(mm), *mm, EntityKind::Article),
            ids@.len() == i as int,
            mm.article.next_id == old(mm).article.next_id + i,
            mm.article@.len() == base + i,
            mm.article@.subrange(0, base) =~= old(mm).article@,
            forall|j: int| 0 <= j < i ==> #[trigger] ids@[j] == old(mm).article.next_id + j,
            forall|j: int|
                0 <= j < i ==> seeded_article_ok(
                    mm.article@,
                    base + j,
                    #[trigger] ids@[j],
                    data@[j].0@,
                    data@[j].1@,
                    data@[j].2,
                    data@[j].3,
                    data@[j].4,
                    opt_text_view(data@[j].5),
                    ctx.user_id,
                ),
        decreases n - i,
    {
        let d = &data[i];
        let img = match &d.5 {
            Some(u) => Some(u.clone()),
            None => None,
        };
        let ghost prev = mm.article@;
        let id = match seed_article(ctx, mm, d.0, d.1, d.2, d.3, d.4, img) {
            Ok(id) => id,
            Err(e) => {
                proof {
                    assert forall|j: int| 0 <= j < i implies seeded_article_ok(
                        mm.article@,
                        base + j,
                        (old(mm).article.next_id + j) as i64,
                        data@[j].0@,
                    data@[j].1@,
                    data@[j].2,
                    data@[j].3,
                    data@[j].4,
                    opt_text_view(data@[j].5),
                        ctx.user_id,
                    ) by {
                        assert(seeded_article_ok(
                            mm.article@,
                            base + j,
                            ids@[j],
                            data@[j].0@,
                    data@[j].1@,
                    data@[j].2,
                    data@[j].3,
                    data@[j].4,
                    opt_text_view(data@[j].5),
                            ctx.user_id,
                        ));
                    }
                }
                return Err(e);
            },
        };
        ids.push(id);
        proof {
            assert(mm.article@.subrange(0, base) =~= prev.subrange(0, base));
            assert forall|j: int| 0 <= j < i + 1 implies seeded_article_ok(
                mm.article@,
                base + j,
                #[trigger] ids@[j],
                data@[j].0@,
                    data@[j].1@,
                    data@[j].2,
                    data@[j].3,
                    data@[j].4,
                    opt_text_view(data@[j].5),
                ctx.user_id,
            ) by {
                if j < i {
                    assert(mm.article@[base + j] == prev[base + j]);
                    assert(seeded_article_ok(
                        prev,
                        base + j,
                        ids@[j],
                        data@[j].0@,
                    data@[j].1@,
                    data@[j].2,
                    data@[j].3,
                    data@[j].4,
                    opt_text_view(data@[j].5),
                        ctx.user_id,
                    ));
                }
            }
        }
        i = i + 1;
    }
    Ok(ids)
}

/// How many rows of the table hold a title containing the needle.
pub open spec fn article_title_contains_count(t: Seq<RowV>, sub: Seq<char>) -> int
    decreases t.len(),
{
    if t.len() == 0 {
        0
    } else {
        article_title_contains_count(t.drop_last(), sub) + (if text_contains(
            article_of_row(t.last()).title,
            sub,
        ) {
            1int
        } else {
            0int
        })
    }
}

/// The rows whose title does not contain the needle, in table order.
pub open spec fn article_rows_without_title(t: Seq<RowV>, sub: Seq<char>) -> Seq<RowV>
    decreases t.len(),
{
    if t.len() == 0 {
        Seq::<RowV>::empty()
    } else {
        let rest = article_rows_without_title(t.drop_last(), sub);
        if text_contains(article_of_row(t.last()).title, sub) {
            rest
        } else {
            rest.push(t.last())
        }
    }
}

/// A table splits into the rows kept and the rows counted as matching.
proof fn lemma_article_keep_count(t: Seq<RowV>, sub: Seq<char>)
    ensures
        article_rows_without_title(t, sub).len() + article_title_contains_count(t, sub)
            == t.len(),
        0 <= article_title_contains_count(t, sub),
    decreases t.len(),
{
    if t.len() > 0 {
        lemma_article_keep_count(t.drop_last(), sub);
    }
}

/// Deletes every article whose title contains the needle: exactly the
/// matching rows leave, the others keep their order, and the count of the
/// matching rows comes back.
#[verifier::loop_isolation(false)]
pub fn clean_articles(ctx: &Ctx, mm: &mut ModelManager, contains_title: &str) -> (r: Result<
    usize,
    Error,
>)
    requires
        old(mm).wf(),
        article_rows_ok(old(mm).article@),
    ensures
        final(mm).wf(),
        article_rows_ok(final(mm).article@),
        same_tables_except(*old(mm), *final(mm), EntityKind::Article),
        final(mm).article.next_id == old(mm).article.next_id,
        r is Ok,
        r matches Ok(n) ==> {
            &&& n == article_title_contains_count(old(mm).article@, contains_title@)
            &&& final(mm).article@ =~= article_rows_without_title(old(mm).article@, contains_title@)
        },
{
    let ghost t0 = old(mm).article@;
    let total = mm.article.rows.len();
    let mut i: usize = 0;
    let ghost p: int = 0;
    while i < mm.article.rows.len()
        invariant
            mm.wf(),
            article_rows_ok(mm.article@),
            same_tables_except(*old(mm), *mm, EntityKind::Article),
            mm.article.next_id == old(mm).article.next_id,
            0 <= p <= t0.len(),
            i as int == article_rows_without_title(t0.subrange(0, p), contains_title@).len(),
            mm.article@ =~= article_rows_without_title(t0.subrange(0, p), contains_title@)
                + t0.subrange(p, t0.len() as int),
        decreases t0.len() - p,
    {
        proof {
            assert(t0.subrange(0, p + 1).drop_last() =~= t0.subrange(0, p));
            assert(t0.subrange(0, p + 1).last() == t0[p]);
            assert(mm.article@[i as int] == t0[p]);
            assert(shape_ok(mm.article@[i as int].fields, article_shape()));
            assert(mm.article@[i as int].fields[0].name == article_shape()[0].0);
            assert(value_type_ok(
                mm.article@[i as int].fields[0].value,
                article_shape()[0].1,
            ));
        }
        let text = mm.article.rows[i].fields[0].value.as_text();
        if str_contains(text.as_str(), contains_title) {
            let ghost pre = mm.article@;
            remove_at(&mut mm.article, i);
            proof {
                assert(mm.article@ =~= article_rows_without_title(
                    t0.subrange(0, p + 1),
                    contains_title@,
                ) + t0.subrange(p + 1, t0.len() as int));
                assert forall|q: int| 0 <= q < mm.article@.len() implies shape_ok(
                    #[trigger] mm.article@[q].fields,
                    article_shape(),
                ) by {
                    if q < i {
                        assert(mm.article@[q] == pre[q]);
                        assert(shape_ok(pre[q].fields, article_shape()));
                    } else {
                        assert(mm.article@[q] == pre[q + 1]);
                        assert(shape_ok(pre[q + 1].fields, article_shape()));
                    }
                }
                p = p + 1;
            }
        } else {
            i = i + 1;
            proof {
                assert(mm.article@ =~= article_rows_without_title(
                    t0.subrange(0, p + 1),
                    contains_title@,
                ) + t0.subrange(p + 1, t0.len() as int));
                p = p + 1;
            }
        }
    }
    let remaining = mm.article.rows.len();
    proof {
        assert(t0.subrange(p, t0.len() as int).len() == t0.len() - p);
        assert(p == t0.len());
        assert(t0.subrange(0, t0.len() as int) =~= t0);
        assert(mm.article@ =~= article_rows_without_title(t0, contains_title@));
        lemma_article_keep_count(t0, contains_title@);
    }
    Ok(total - remaining)
}

} // verus!
