use vstd::prelude::*;

use crate::ctx::Ctx;
use crate::error::{EntityKind, Error};
use crate::model::base::{
    apply_fields, insert, delete_row, get_row, lemma_apply_fields_preserves_shape,
    lemma_ups_fit_concat, lemma_ups_fit_empty, lemma_ups_fit_single, now_utc_ts,
    prep_fields_for_create, prep_fields_for_update, shape_ok, stamp_fields_create,
    stamp_fields_update, up_fits, update_row, ups_fit_shape, value_type_ok, FieldType,
};
use crate::model::field::{
    bool_of, fields_view, int_of, opt_int_of, opt_text_of, opt_text_view, text_of, Field,
    FieldV, FieldValue, FieldValueV,
};
use crate::model::filter::{
    apply_list_options, eval_string_ops, paginate, string_ops_match, ListOptions, OpValsString,
};
use crate::model::store::{
    find_index, lemma_find_index, row_with_id, table_has_id, ModelManager, Row, RowV,
    same_tables_except,
};

verus! {

// region: category types

/// A stored category row, as callers see it.
#[derive(Clone, Debug)]
pub struct Category {
    pub id: i64,
    pub name: String,
    pub description: Option<String>,
    pub parent_id: Option<i64>,
    pub is_featured: bool,
    pub creator_id: i64,
    pub creation_time: i64,
    pub updater_id: i64,
    pub updated_time: i64,
}

/// The mathematical value of a `Category`.
pub struct CategoryV {
    pub id: i64,
    pub name: Seq<char>,
    pub description: Option<Seq<char>>,
    pub parent_id: Option<i64>,
    pub is_featured: bool,
    pub creator_id: i64,
    pub creation_time: i64,
    pub updater_id: i64,
    pub updated_time: i64,
}

impl View for Category {
    type V = CategoryV;

    open spec fn view(&self) -> CategoryV {
        CategoryV {
            id: self.id,
            name: self.name@,
            description: opt_text_view(self.description),
            parent_id: self.parent_id,
            is_featured: self.is_featured,
            creator_id: self.creator_id,
            creation_time: self.creation_time,
            updater_id: self.updater_id,
            updated_time: self.updated_time,
        }
    }
}

impl DeepView for Category {
    type V = CategoryV;

    open spec fn deep_view(&self) -> CategoryV {
        self.view()
    }
}

/// What a caller provides to create a category.
#[derive(Clone, Debug, Default)]
pub struct CategoryForCreate {
    pub name: String,
    pub description: Option<String>,
    pub parent_id: Option<i64>,
    pub is_featured: bool,
}

/// What a caller provides to update a category; only present fields change
/// (the name and the featured flag are always present).
#[derive(Clone, Debug, Default)]
pub struct CategoryForUpdate {
    pub name: String,
    pub description: Option<String>,
    pub parent_id: Option<i64>,
    pub is_featured: bool,
}

/// One filter group over categories: the conjunction of its present members.
#[derive(Clone, Debug, Default)]
pub struct CategoryFilter {
    pub name: Option<OpValsString>,
    pub is_featured: Option<bool>,
}

// endregion

// region: the category row shape

pub open spec fn category_shape() -> Seq<(Seq<char>, FieldType)> {
    seq![
        ("name"@, FieldType::TextT),
        ("description"@, FieldType::NullableTextT),
        ("parent_id"@, FieldType::NullableIntT),
        ("is_featured"@, FieldType::BoolT),
        ("creator_id"@, FieldType::IntT),
        ("creation_time"@, FieldType::IntT),
        ("updater_id"@, FieldType::IntT),
        ("updated_time"@, FieldType::IntT),
    ]
}

proof fn lemma_category_name_facts()
    ensures
        "name"@.len() == 4,
        "description"@.len() == 11,
        "parent_id"@.len() == 9,
        "is_featured"@.len() == 11,
        "creator_id"@.len() == 10,
        "creation_time"@.len() == 13,
        "updater_id"@.len() == 10,
        "updated_time"@.len() == 12,
        "description"@[0] == 'd',
        "is_featured"@[0] == 'i',
{
    reveal_strlit("name");
    reveal_strlit("description");
    reveal_strlit("parent_id");
    reveal_strlit("is_featured");
    reveal_strlit("creator_id");
    reveal_strlit("creation_time");
    reveal_strlit("updater_id");
    reveal_strlit("updated_time");
}

/// Every row of the category table is category-shaped.
pub open spec fn category_rows_ok(t: Seq<RowV>) -> bool {
    forall|i: int| 0 <= i < t.len() ==> shape_ok(#[trigger] t[i].fields, category_shape())
}

/// The category a shaped row denotes.
pub open spec fn category_of_row(r: RowV) -> CategoryV {
    CategoryV {
        id: r.id,
        name: text_of(r.fields[0].value),
        description: opt_text_of(r.fields[1].value),
        parent_id: opt_int_of(r.fields[2].value),
        is_featured: bool_of(r.fields[3].value),
        creator_id: int_of(r.fields[4].value),
        creation_time: int_of(r.fields[5].value),
        updater_id: int_of(r.fields[6].value),
        updated_time: int_of(r.fields[7].value),
    }
}

fn category_from_row(row: &Row) -> (a: Category)
    requires
        shape_ok(row@.fields, category_shape()),
    ensures
        a@ == category_of_row(row@),
{
    proof {
        let fs = row@.fields;
        let sh = category_shape();
        assert(fs[0].name == sh[0].0);
        assert(value_type_ok(fs[0].value, sh[0].1));
        assert(fs[1].name == sh[1].0);
        assert(value_type_ok(fs[1].value, sh[1].1));
        assert(fs[2].name == sh[2].0);
        assert(value_type_ok(fs[2].value, sh[2].1));
        assert(fs[3].name == sh[3].0);
        assert(value_type_ok(fs[3].value, sh[3].1));
        assert(fs[4].name == sh[4].0);
        assert(value_type_ok(fs[4].value, sh[4].1));
        assert(fs[5].name == sh[5].0);
        assert(value_type_ok(fs[5].value, sh[5].1));
        assert(fs[6].name == sh[6].0);
        assert(value_type_ok(fs[6].value, sh[6].1));
        assert(fs[7].name == sh[7].0);
        assert(value_type_ok(fs[7].value, sh[7].1));
    }
    Category {
        id: row.id,
        name: row.fields[0].value.as_text(),
        description: row.fields[1].value.as_opt_text(),
        parent_id: row.fields[2].value.as_opt_int(),
        is_featured: row.fields[3].value.as_bool(),
        creator_id: row.fields[4].value.as_int(),
        creation_time: row.fields[5].value.as_int(),
        updater_id: row.fields[6].value.as_int(),
        updated_time: row.fields[7].value.as_int(),
    }
}

// endregion

// region: create and update field lists

/// The columns a create writes, in table order; absent optional inputs take
/// the store's defaults.
pub open spec fn category_fields_of_create(fc: CategoryForCreate) -> Seq<FieldV> {
    seq![
        FieldV { name: "name"@, value: FieldValueV::Text(fc.name@) },
        FieldV { name: "description"@, value: match fc.description {
                Some(u) => FieldValueV::Text(u@),
                None => FieldValueV::Null,
            } },
        FieldV { name: "parent_id"@, value: match fc.parent_id {
                Some(p) => FieldValueV::Int(p),
                None => FieldValueV::Null,
            } },
        FieldV { name: "is_featured"@, value: FieldValueV::Bool(fc.is_featured) },
    ]
}

/// The row a create inserts, stamps included.
pub open spec fn category_create_row(fc: CategoryForCreate, id: i64, user: i64, ts: i64) -> RowV {
    RowV { id, fields: category_fields_of_create(fc) + stamp_fields_create(user, ts) }
}

fn category_create_fields(fc: CategoryForCreate) -> (r: Vec<Field>)
    ensures
        fields_view(r@) =~= category_fields_of_create(fc),
{
    let mut v: Vec<Field> = Vec::new();
    v.push(Field::new("name", FieldValue::Text(fc.name)));
    v.push(Field::new("description", match fc.description {
            Some(u) => FieldValue::Text(u),
            None => FieldValue::Null,
        }));
    v.push(Field::new("parent_id", match fc.parent_id {
            Some(p) => FieldValue::Int(p),
            None => FieldValue::Null,
        }));
    v.push(Field::new("is_featured", FieldValue::Bool(fc.is_featured)));
    v
}

/// The columns an update writes: each present input field, in declaration
/// order.
pub open spec fn category_fields_of_update(fu: CategoryForUpdate) -> Seq<FieldV> {
    seq![
        FieldV { name: "name"@, value: FieldValueV::Text(fu.name@) },
    ] + (match fu.description {
        Some(u) => seq![FieldV { name: "description"@, value: FieldValueV::Text(u@) }],
        None => Seq::<FieldV>::empty(),
    }) + (match fu.parent_id {
        Some(p) => seq![FieldV { name: "parent_id"@, value: FieldValueV::Int(p) }],
        None => Seq::<FieldV>::empty(),
    }) + seq![
        FieldV { name: "is_featured"@, value: FieldValueV::Bool(fu.is_featured) },
    ]
}

fn category_update_fields(fu: CategoryForUpdate) -> (r: Vec<Field>)
    ensures
        fields_view(r@) =~= category_fields_of_update(fu),
{
    let mut v: Vec<Field> = Vec::new();
    v.push(Field::new("name", FieldValue::Text(fu.name)));
    match fu.description {
        Some(u) => v.push(Field::new("description", FieldValue::Text(u))),
        None => (),
    }
    match fu.parent_id {
        Some(p) => v.push(Field::new("parent_id", FieldValue::Int(p))),
        None => (),
    }
    v.push(Field::new("is_featured", FieldValue::Bool(fu.is_featured)));
    v
}

/// The fields an update writes, stamps included, are admissible for the
/// category columns that carry their names.
proof fn lemma_category_update_fits(fu: CategoryForUpdate, user: i64, ts: i64)
    ensures
        ups_fit_shape(
            category_fields_of_update(fu) + stamp_fields_update(user, ts),
            category_shape(),
        ),
{
    lemma_category_name_facts();
    let sh = category_shape();
    let p1 = seq![
        FieldV { name: "name"@, value: FieldValueV::Text(fu.name@) },
    ];
    let p2 = match fu.description {
        Some(u) => seq![FieldV { name: "description"@, value: FieldValueV::Text(u@) }],
        None => Seq::<FieldV>::empty(),
    };
    let p3 = match fu.parent_id {
        Some(p) => seq![FieldV { name: "parent_id"@, value: FieldValueV::Int(p) }],
        None => Seq::<FieldV>::empty(),
    };
    let p4 = seq![
        FieldV { name: "is_featured"@, value: FieldValueV::Bool(fu.is_featured) },
    ];
    assert(up_fits(p1[0], sh)) by {
        reveal_with_fuel(up_fits, 16);
    }
    lemma_ups_fit_single(p1[0], sh);
    assert(p1 =~= seq![p1[0]]);
    match fu.description {
        Some(u) => {
            assert(up_fits(p2[0], sh)) by {
                reveal_with_fuel(up_fits, 16);
            }
            lemma_ups_fit_single(p2[0], sh);
            assert(p2 =~= seq![p2[0]]);
        },
        None => lemma_ups_fit_empty(sh),
    }
    match fu.parent_id {
        Some(p) => {
            assert(up_fits(p3[0], sh)) by {
                reveal_with_fuel(up_fits, 16);
            }
            lemma_ups_fit_single(p3[0], sh);
            assert(p3 =~= seq![p3[0]]);
        },
        None => lemma_ups_fit_empty(sh),
    }
    assert(up_fits(p4[0], sh)) by {
        reveal_with_fuel(up_fits, 16);
    }
    lemma_ups_fit_single(p4[0], sh);
    assert(p4 =~= seq![p4[0]]);
    let stamps = stamp_fields_update(user, ts);
    assert(up_fits(stamps[0], sh)) by {
        reveal_with_fuel(up_fits, 16);
    }
    assert(up_fits(stamps[1], sh)) by {
        reveal_with_fuel(up_fits, 16);
    }
    assert forall|i: int| 0 <= i < stamps.len() implies up_fits(#[trigger] stamps[i], sh) by {
        if i == 0 {
            assert(up_fits(stamps[0], sh));
        } else {
            assert(up_fits(stamps[1], sh));
        }
    }
    lemma_ups_fit_concat(p1, p2, sh);
    lemma_ups_fit_concat(p1 + p2, p3, sh);
    lemma_ups_fit_concat(p1 + p2 + p3, p4, sh);
    lemma_ups_fit_concat(p1 + p2 + p3 + p4, stamps, sh);
    assert(category_fields_of_update(fu) + stamps =~= p1 + p2 + p3 + p4 + stamps);
}

// endregion

// region: filters

/// Whether a category matches one filter group: every present member holds.
pub open spec fn category_matches(a: CategoryV, f: CategoryFilter) -> bool {
    &&& match f.name {
        Some(ops) => string_ops_match(a.name, ops),
        None => true,
    }
    &&& match f.is_featured {
        Some(ops) => a.is_featured == ops,
        None => true,
    }
}

/// Whether a category matches some group of the disjunction.
pub open spec fn category_matches_any(a: CategoryV, fs: Seq<CategoryFilter>) -> bool {
    exists|i: int| 0 <= i < fs.len() && category_matches(a, #[trigger] fs[i])
}

/// No filters at all, or an empty group list, admits every row.
pub open spec fn category_filters_match(a: CategoryV, filters: Option<Vec<CategoryFilter>>) -> bool {
    match filters {
        Some(fs) => fs@.len() == 0 || category_matches_any(a, fs@),
        None => true,
    }
}

fn category_matches_exec(a: &Category, f: &CategoryFilter) -> (r: bool)
    ensures
        r == category_matches(a@, *f),
{
    let mut ok = true;
    match &f.name {
        Some(ops) => ok = ok && eval_string_ops(&a.name, ops),
        None => (),
    }
    match &f.is_featured {
        Some(ops) => ok = ok && a.is_featured == *ops,
        None => (),
    }
    ok
}

#[verifier::loop_isolation(false)]
fn category_filters_match_exec(a: &Category, filters: &Option<Vec<CategoryFilter>>) -> (r: bool)
    ensures
        r == category_filters_match(a@, *filters),
{
    match filters {
        None => true,
        Some(fs) => {
            let n = fs.len();
            if n == 0 {
                return true;
            }
            let mut i: usize = 0;
            while i < n
                invariant
                    i <= n,
                    forall|p: int| 0 <= p < i ==> !category_matches(a@, #[trigger] fs@[p]),
                decreases n - i,
            {
                if category_matches_exec(a, &fs[i]) {
                    return true;
                }
                i = i + 1;
            }
            false
        },
    }
}

/// The categorys of the table's rows, kept in store order, that match the
/// filters.
pub open spec fn filtered_categorys(t: Seq<RowV>, filters: Option<Vec<CategoryFilter>>) -> Seq<
    CategoryV,
>
    decreases t.len(),
{
    if t.len() == 0 {
        Seq::<CategoryV>::empty()
    } else {
        let rest = filtered_categorys(t.drop_last(), filters);
        if category_filters_match(category_of_row(t.last()), filters) {
            rest.push(category_of_row(t.last()))
        } else {
            rest
        }
    }
}

// endregion

// region: the category model controller

/// The category table's create/get/first/list/update/delete, on the shared
/// store.
pub struct CategoryBmc;

impl CategoryBmc {
    /// Inserts a new row: the caller's columns plus audit stamps, under a
    /// fresh id, which it returns. Fails only when the id space is exhausted.
    pub fn create(ctx: &Ctx, mm: &mut ModelManager, data: CategoryForCreate) -> (r: Result<
        i64,
        Error,
    >)
        requires
            old(mm).wf(),
            category_rows_ok(old(mm).category@),
        ensures
            final(mm).wf(),
            category_rows_ok(final(mm).category@),
            same_tables_except(*old(mm), *final(mm), EntityKind::Category),
            r is Ok <==> old(mm).category.next_id < i64::MAX,
            r matches Ok(id) ==> {
                &&& id == old(mm).category.next_id
                &&& final(mm).category.next_id == old(mm).category.next_id + 1
                &&& exists|ts: i64|
                    final(mm).category@ =~= old(mm).category@.push(
                        #[trigger] category_create_row(data, id, ctx.user_id, ts),
                    )
            },
            r is Err ==> *final(mm) == *old(mm) && r == Err::<i64, Error>(Error::Store),
    {
        let now = now_utc_ts();
        let mut fields = category_create_fields(data);
        prep_fields_for_create(&mut fields, ctx.user_id(), now, false, true);
        let ghost fsv = fields_view(fields@);
        let r = insert(&mut mm.category, fields);
        proof {
            assert(fsv =~= category_fields_of_create(data) + stamp_fields_create(
                ctx.user_id,
                now,
            ));
            if r is Ok {
                let id = old(mm).category.next_id;
                assert(category_create_row(data, id, ctx.user_id, now) == RowV {
                    id,
                    fields: fsv,
                });
                assert(final(mm).category@ =~= old(mm).category@.push(
                    category_create_row(data, id, ctx.user_id, now),
                ));
                assert(shape_ok(fsv, category_shape()));
                assert forall|i: int| 0 <= i < final(mm).category@.len() implies shape_ok(
                    #[trigger] final(mm).category@[i].fields,
                    category_shape(),
                ) by {
                    if i < old(mm).category@.len() {
                        assert(shape_ok(old(mm).category@[i].fields, category_shape()));
                    }
                }
            }
        }
        r
    }

    /// Fetches the row with the id; fails with `EntityNotFound` when the
    /// table has none.
    pub fn get(ctx: &Ctx, mm: &ModelManager, id: i64) -> (r: Result<Category, Error>)
        requires
            mm.wf(),
            category_rows_ok(mm.category@),
        ensures
            r is Ok <==> table_has_id(mm.category@, id),
            r matches Ok(a) ==> a@ == category_of_row(row_with_id(mm.category@, id)),
            r is Err ==> r == Err::<Category, Error>(
                Error::EntityNotFound { entity: EntityKind::Category, id },
            ),
    {
        match get_row(&mm.category, id) {
            Some(row) => {
                proof {
                    lemma_find_index(mm.category@, id);
                    assert(shape_ok(
                        mm.category@[find_index(mm.category@, id)].fields,
                        category_shape(),
                    ));
                }
                Ok(category_from_row(row))
            },
            None => Err(Error::EntityNotFound { entity: EntityKind::Category, id }),
        }
    }

    /// Lists the rows that match the filters (all of them when there are
    /// none), in store order, windowed by the list options.
    #[verifier::loop_isolation(false)]
    pub fn list(
        ctx: &Ctx,
        mm: &ModelManager,
        filters: Option<Vec<CategoryFilter>>,
        list_options: Option<ListOptions>,
    ) -> (r: Result<Vec<Category>, Error>)
        requires
            mm.wf(),
            category_rows_ok(mm.category@),
        ensures
            r matches Ok(v) && v.deep_view() == apply_list_options(
                filtered_categorys(mm.category@, filters),
                list_options,
            ),
    {
        let t = &mm.category;
        let n = t.rows.len();
        let mut acc: Vec<Category> = Vec::new();
        let mut i: usize = 0;
        while i < n
            invariant
                i <= n,
                acc.deep_view() =~= filtered_categorys(t@.subrange(0, i as int), filters),
            decreases n - i,
        {
            proof {
                assert(shape_ok(t@[i as int].fields, category_shape()));
                assert(t@.subrange(0, i as int + 1).drop_last() =~= t@.subrange(0, i as int));
                assert(t@.subrange(0, i as int + 1).last() == t@[i as int]);
            }
            let a = category_from_row(&t.rows[i]);
            if category_filters_match_exec(&a, &filters) {
                acc.push(a);
            }
            i = i + 1;
        }
        proof {
            assert(t@.subrange(0, n as int) =~= t@);
        }
        let res = paginate(acc, &list_options);
        proof {
            assert(res.deep_view() =~= apply_list_options(
                filtered_categorys(mm.category@, filters),
                list_options,
            ));
        }
        Ok(res)
    }

    /// The first row of `list`, or nothing when the list is empty.
    pub fn first(
        ctx: &Ctx,
        mm: &ModelManager,
        filters: Option<Vec<CategoryFilter>>,
        list_options: Option<ListOptions>,
    ) -> (r: Result<Option<Category>, Error>)
        requires
            mm.wf(),
            category_rows_ok(mm.category@),
        ensures
            ({
                let l = apply_list_options(filtered_categorys(mm.category@, filters), list_options);
                match r {
                    Ok(Some(a)) => l.len() > 0 && a@ == l[0],
                    Ok(None) => l.len() == 0,
                    Err(e) => false,
                }
            }),
    {
        let mut v = Self::list(ctx, mm, filters, list_options)?;
        let ghost l = v.deep_view();
        if v.len() > 0 {
            let a = v.remove(0);
            proof {
                assert(a.deep_view() == l[0]);
            }
            Ok(Some(a))
        } else {
            proof {
                assert(l.len() == 0);
            }
            Ok(None)
        }
    }

    /// Rewrites the present fields of the row with the id and restamps the
    /// updater columns; fails with `EntityNotFound` when the id is absent.
    pub fn update(ctx: &Ctx, mm: &mut ModelManager, id: i64, data: CategoryForUpdate) -> (r:
        Result<(), Error>)
        requires
            old(mm).wf(),
            category_rows_ok(old(mm).category@),
        ensures
            final(mm).wf(),
            category_rows_ok(final(mm).category@),
            same_tables_except(*old(mm), *final(mm), EntityKind::Category),
            final(mm).category.next_id == old(mm).category.next_id,
            r is Ok <==> table_has_id(old(mm).category@, id),
            r matches Ok(u) ==> exists|ts: i64|
                final(mm).category@ =~= old(mm).category@.update(
                    find_index(old(mm).category@, id),
                    RowV {
                        id,
                        fields: #[trigger] apply_fields(
                            row_with_id(old(mm).category@, id).fields,
                            category_fields_of_update(data) + stamp_fields_update(
                                ctx.user_id,
                                ts,
                            ),
                        ),
                    },
                ),
            r is Err ==> *final(mm) == *old(mm) && r == Err::<(), Error>(
                Error::EntityNotFound { entity: EntityKind::Category, id },
            ),
    {
        let now = now_utc_ts();
        let mut fields = category_update_fields(data);
        prep_fields_for_update(&mut fields, ctx.user_id(), now, true);
        let ghost fsv = fields_view(fields@);
        let r = update_row(&mut mm.category, id, fields, EntityKind::Category);
        proof {
            assert(fsv =~= category_fields_of_update(data) + stamp_fields_update(
                ctx.user_id,
                now,
            ));
            if r is Ok {
                lemma_find_index(old(mm).category@, id);
                let fi = find_index(old(mm).category@, id);
                assert(final(mm).category@ =~= old(mm).category@.update(
                    fi,
                    RowV {
                        id,
                        fields: apply_fields(
                            row_with_id(old(mm).category@, id).fields,
                            category_fields_of_update(data) + stamp_fields_update(
                                ctx.user_id,
                                now,
                            ),
                        ),
                    },
                ));
                // shape preservation
                assert(shape_ok(old(mm).category@[fi].fields, category_shape()));
                lemma_category_update_fits(data, ctx.user_id, now);
                assert(ups_fit_shape(fsv, category_shape()));
                lemma_apply_fields_preserves_shape(
                    old(mm).category@[fi].fields,
                    fsv,
                    category_shape(),
                );
                assert forall|i: int| 0 <= i < final(mm).category@.len() implies shape_ok(
                    #[trigger] final(mm).category@[i].fields,
                    category_shape(),
                ) by {
                    if i != fi {
                        assert(shape_ok(old(mm).category@[i].fields, category_shape()));
                    }
                }
            }
        }
        r
    }

    /// Removes the row with the id; fails with `EntityNotFound` when the
    /// id is absent.
    pub fn delete(ctx: &Ctx, mm: &mut ModelManager, id: i64) -> (r: Result<(), Error>)
        requires
            old(mm).wf(),
            category_rows_ok(old(mm).category@),
        ensures
            final(mm).wf(),
            category_rows_ok(final(mm).category@),
            same_tables_except(*old(mm), *final(mm), EntityKind::Category),
            final(mm).category.next_id == old(mm).category.next_id,
            r is Ok <==> table_has_id(old(mm).category@, id),
            r matches Ok(u) ==> final(mm).category@ =~= old(mm).category@.remove(
                find_index(old(mm).category@, id),
            ) && !table_has_id(final(mm).category@, id),
            r is Err ==> *final(mm) == *old(mm) && r == Err::<(), Error>(
                Error::EntityNotFound { entity: EntityKind::Category, id },
            ),
    {
        let r = delete_row(&mut mm.category, id, EntityKind::Category);
        proof {
            if r is Ok {
                lemma_find_index(old(mm).category@, id);
                let fi = find_index(old(mm).category@, id);
                assert forall|i: int| 0 <= i < final(mm).category@.len() implies shape_ok(
                    #[trigger] final(mm).category@[i].fields,
                    category_shape(),
                ) by {
                    if i < fi {
                        assert(final(mm).category@[i] == old(mm).category@[i]);
                        assert(shape_ok(old(mm).category@[i].fields, category_shape()));
                    } else {
                        assert(final(mm).category@[i] == old(mm).category@[i + 1]);
                        assert(shape_ok(old(mm).category@[i + 1].fields, category_shape()));
                    }
                }
            }
        }
        r
    }
}

// endregion

// region: laws

/// Law: reading back a created row yields the created input's fields; the
/// id and the audit stamps are the server-assigned values.
pub proof fn lemma_category_create_then_get(fc: CategoryForCreate, id: i64, user: i64, ts: i64)
    ensures
        ({
            let a = category_of_row(category_create_row(fc, id, user, ts));
            &&& a.id == id
            &&& a.name == fc.name@
            &&& a.description == opt_text_view(fc.description)
            &&& a.parent_id == fc.parent_id
            &&& a.is_featured == fc.is_featured
            &&& a.creator_id == user
            &&& a.creation_time == ts
            &&& a.updater_id == user
            &&& a.updated_time == ts
        }),
{
}

// endregion

} // verus!
