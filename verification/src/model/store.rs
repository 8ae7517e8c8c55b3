use vstd::prelude::*;

use crate::error::EntityKind;
use crate::model::field::{fields_view, Field, FieldV};

verus! {

/// One stored row: a surrogate id and the named column values.
#[derive(Debug)]
pub struct Row {
    pub id: i64,
    pub fields: Vec<Field>,
}

/// The mathematical value of a `Row`.
pub struct RowV {
    pub id: i64,
    pub fields: Seq<FieldV>,
}

impl View for Row {
    type V = RowV;

    open spec fn view(&self) -> RowV {
        RowV { id: self.id, fields: fields_view(self.fields@) }
    }
}

/// One table: the rows in store order, and the id the next insert receives.
#[derive(Debug)]
pub struct Table {
    pub next_id: i64,
    pub rows: Vec<Row>,
}

impl View for Table {
    type V = Seq<RowV>;

    open spec fn view(&self) -> Seq<RowV> {
        self.rows@.map(|i: int, r: Row| r@)
    }
}

impl Table {
    /// Ids are assigned from 1 upward, stay below `next_id`, and are unique.
    pub open spec fn wf(&self) -> bool {
        &&& 1 <= self.next_id
        &&& forall|i: int| 0 <= i < self@.len() ==> 1 <= #[trigger] self@[i].id < self.next_id
        &&& forall|i: int, j: int|
            0 <= i < j < self@.len() ==> #[trigger] self@[i].id != #[trigger] self@[j].id
    }

    pub fn new() -> (t: Table)
        ensures
            t.wf(),
            t@ =~= Seq::<RowV>::empty(),
            t.next_id == 1,
    {
        Table { next_id: 1, rows: Vec::new() }
    }
}

/// Whether some row of `t` carries the id.
pub open spec fn table_has_id(t: Seq<RowV>, id: i64) -> bool {
    exists|i: int| 0 <= i < t.len() && #[trigger] t[i].id == id
}

/// The index of the first row with the id, or -1 when there is none.
pub open spec fn find_index(t: Seq<RowV>, id: i64) -> int
    decreases t.len(),
{
    if t.len() == 0 {
        -1
    } else if t[0].id == id {
        0
    } else {
        let r = find_index(t.subrange(1, t.len() as int), id);
        if r < 0 {
            -1
        } else {
            r + 1
        }
    }
}

/// The first row with the id (meaningful only when the table has it).
pub open spec fn row_with_id(t: Seq<RowV>, id: i64) -> RowV {
    t[find_index(t, id)]
}

/// `find_index` finds an index exactly when the table has the id, and what it
/// finds carries the id.
pub proof fn lemma_find_index(t: Seq<RowV>, id: i64)
    ensures
        table_has_id(t, id) <==> 0 <= find_index(t, id) < t.len(),
        table_has_id(t, id) ==> t[find_index(t, id)].id == id,
        !table_has_id(t, id) ==> find_index(t, id) == -1,
    decreases t.len(),
{
    if t.len() > 0 && t[0].id != id {
        let sub = t.subrange(1, t.len() as int);
        lemma_find_index(sub, id);
        assert forall|i: int| 0 <= i < t.len() && #[trigger] t[i].id == id implies
            table_has_id(sub, id) by {
            assert(sub[i - 1].id == id);
        }
    }
}

/// When ids are unique, any position that carries the id is the one that
/// `find_index` returns.
pub proof fn lemma_find_index_unique(t: Seq<RowV>, id: i64, i: int)
    requires
        forall|p: int, q: int| 0 <= p < q < t.len() ==> #[trigger] t[p].id != #[trigger] t[q].id,
        0 <= i < t.len(),
        t[i].id == id,
    ensures
        find_index(t, id) == i,
    decreases t.len(),
{
    lemma_find_index(t, id);
    if t[0].id == id {
        assert(i == 0);
    } else {
        let sub = t.subrange(1, t.len() as int);
        assert(sub[i - 1].id == id);
        lemma_find_index_unique(sub, id, i - 1);
    }
}

/// The tables of the store, one per entity.
#[derive(Debug)]
pub struct ModelManager {
    pub article: Table,
    pub article_view: Table,
    pub author: Table,
    pub category: Table,
    pub comment: Table,
    pub conv_user: Table,
    pub subscription: Table,
}

impl ModelManager {
    pub open spec fn wf(&self) -> bool {
        &&& self.article.wf()
        &&& self.article_view.wf()
        &&& self.author.wf()
        &&& self.category.wf()
        &&& self.comment.wf()
        &&& self.conv_user.wf()
        &&& self.subscription.wf()
    }

    /// A fresh store with every table empty and every id counter at 1.
    pub fn new() -> (mm: ModelManager)
        ensures
            mm.wf(),
            mm.article@ =~= Seq::<RowV>::empty(),
            mm.article_view@ =~= Seq::<RowV>::empty(),
            mm.author@ =~= Seq::<RowV>::empty(),
            mm.category@ =~= Seq::<RowV>::empty(),
            mm.comment@ =~= Seq::<RowV>::empty(),
            mm.conv_user@ =~= Seq::<RowV>::empty(),
            mm.subscription@ =~= Seq::<RowV>::empty(),
            mm.article.next_id == 1,
            mm.article_view.next_id == 1,
            mm.author.next_id == 1,
            mm.category.next_id == 1,
            mm.comment.next_id == 1,
            mm.conv_user.next_id == 1,
            mm.subscription.next_id == 1,
    {
        ModelManager {
            article: Table::new(),
            article_view: Table::new(),
            author: Table::new(),
            category: Table::new(),
            comment: Table::new(),
            conv_user: Table::new(),
            subscription: Table::new(),
        }
    }
}

/// Every table other than the one named is the same in `a` and `b`.
pub open spec fn same_tables_except(a: ModelManager, b: ModelManager, k: EntityKind) -> bool {
    &&& k != EntityKind::Article ==> b.article == a.article
    &&& k != EntityKind::ArticleView ==> b.article_view == a.article_view
    &&& k != EntityKind::Author ==> b.author == a.author
    &&& k != EntityKind::Category ==> b.category == a.category
    &&& k != EntityKind::Comment ==> b.comment == a.comment
    &&& k != EntityKind::ConvUser ==> b.conv_user == a.conv_user
    &&& k != EntityKind::Subscription ==> b.subscription == a.subscription
}

/// Law: removing the row that carries an id leaves a table in which no row
/// carries it, so a subsequent lookup of that id fails.
pub proof fn lemma_removed_id_is_gone(t: Seq<RowV>, id: i64)
    requires
        forall|p: int, q: int| 0 <= p < q < t.len() ==> #[trigger] t[p].id != #[trigger] t[q].id,
        table_has_id(t, id),
    ensures
        !table_has_id(t.remove(find_index(t, id)), id),
{
    lemma_find_index(t, id);
    let fi = find_index(t, id);
    let u = t.remove(fi);
    assert forall|p: int| 0 <= p < u.len() implies #[trigger] u[p].id != id by {
        if p < fi {
            assert(u[p] == t[p]);
            assert(t[p].id != t[fi].id);
        } else {
            assert(u[p] == t[p + 1]);
            assert(t[p + 1].id != t[fi].id);
        }
    }
}

} // verus!
