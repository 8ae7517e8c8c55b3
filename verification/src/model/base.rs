use vstd::prelude::*;

use crate::error::{EntityKind, Error};
use crate::model::field::{fields_view, Field, FieldV, FieldValue, FieldValueV};
use crate::model::store::{
    find_index, lemma_find_index, lemma_find_index_unique, row_with_id, table_has_id, Row, RowV,
    Table,
};

verus! {

/// Relies on `time::OffsetDateTime::now_utc` and `unix_timestamp`: the current
/// moment as whole seconds since the Unix epoch. Nothing is assumed of the
/// value, since it depends on the clock.
#[verifier::external_body]
pub(crate) fn now_utc_ts() -> i64 {
    time::OffsetDateTime::now_utc().unix_timestamp()
}

// region: field lookup and update application

/// Whether some field of `fs` carries the name.
pub open spec fn has_name(fs: Seq<FieldV>, n: Seq<char>) -> bool {
    exists|i: int| 0 <= i < fs.len() && #[trigger] fs[i].name == n
}

/// The index of the first field with the name, or -1 when there is none.
pub open spec fn name_index(fs: Seq<FieldV>, n: Seq<char>) -> int
    decreases fs.len(),
{
    if fs.len() == 0 {
        -1
    } else if fs[0].name == n {
        0
    } else {
        let r = name_index(fs.subrange(1, fs.len() as int), n);
        if r < 0 {
            -1
        } else {
            r + 1
        }
    }
}

/// The value of the first field with the name (meaningful only when present).
pub open spec fn field_of(fs: Seq<FieldV>, n: Seq<char>) -> FieldValueV {
    fs[name_index(fs, n)].value
}

pub proof fn lemma_name_index(fs: Seq<FieldV>, n: Seq<char>)
    ensures
        has_name(fs, n) <==> 0 <= name_index(fs, n) < fs.len(),
        has_name(fs, n) ==> fs[name_index(fs, n)].name == n,
        !has_name(fs, n) ==> name_index(fs, n) == -1,
        forall|j: int| 0 <= j < name_index(fs, n) ==> #[trigger] fs[j].name != n,
    decreases fs.len(),
{
    if fs.len() > 0 && fs[0].name != n {
        let sub = fs.subrange(1, fs.len() as int);
        lemma_name_index(sub, n);
        assert forall|i: int| 0 <= i < fs.len() && #[trigger] fs[i].name == n implies
            has_name(sub, n) by {
            assert(sub[i - 1].name == n);
        }
        assert forall|j: int| 0 <= j < name_index(fs, n) implies #[trigger] fs[j].name != n by {
            if j > 0 {
                assert(sub[j - 1].name != n);
            }
        }
    }
}

/// Setting a field at its own name keeps the position of every name: the
/// sequences of names agree, so every `name_index` agrees.
pub proof fn lemma_name_index_same_names(fs: Seq<FieldV>, gs: Seq<FieldV>, n: Seq<char>)
    requires
        fs.len() == gs.len(),
        forall|i: int| 0 <= i < fs.len() ==> #[trigger] fs[i].name == #[trigger] gs[i].name,
    ensures
        name_index(fs, n) == name_index(gs, n),
    decreases fs.len(),
{
    if fs.len() > 0 {
        let fsub = fs.subrange(1, fs.len() as int);
        let gsub = gs.subrange(1, gs.len() as int);
        lemma_name_index_same_names(fsub, gsub, n);
    }
}

/// One update applied to a field list: the first field with the update's name
/// takes the update's value; a name that is not present changes nothing.
pub open spec fn apply_one(fs: Seq<FieldV>, up: FieldV) -> Seq<FieldV> {
    if has_name(fs, up.name) {
        fs.update(name_index(fs, up.name), up)
    } else {
        fs
    }
}

/// A list of updates applied left to right.
pub open spec fn apply_fields(fs: Seq<FieldV>, ups: Seq<FieldV>) -> Seq<FieldV>
    decreases ups.len(),
{
    if ups.len() == 0 {
        fs
    } else {
        apply_fields(apply_one(fs, ups[0]), ups.subrange(1, ups.len() as int))
    }
}

pub proof fn lemma_apply_fields_snoc(fs: Seq<FieldV>, ups: Seq<FieldV>, u: FieldV)
    ensures
        apply_fields(fs, ups.push(u)) == apply_one(apply_fields(fs, ups), u),
    decreases ups.len(),
{
    if ups.len() == 0 {
        assert(ups.push(u)[0] == u);
        assert(ups.push(u).subrange(1, 1) =~= Seq::<FieldV>::empty());
        assert(apply_fields(apply_one(fs, u), ups.push(u).subrange(1, 1)) == apply_one(fs, u));
    } else {
        assert(ups.push(u)[0] == ups[0]);
        assert(ups.push(u).subrange(1, ups.len() as int + 1) =~= ups.subrange(
            1,
            ups.len() as int,
        ).push(u));
        lemma_apply_fields_snoc(apply_one(fs, ups[0]), ups.subrange(1, ups.len() as int), u);
    }
}

/// `apply_one` keeps the length and every name in place.
pub proof fn lemma_apply_one_names(fs: Seq<FieldV>, up: FieldV)
    ensures
        apply_one(fs, up).len() == fs.len(),
        forall|i: int| 0 <= i < fs.len() ==> #[trigger] apply_one(fs, up)[i].name == fs[i].name,
{
    if has_name(fs, up.name) {
        lemma_name_index(fs, up.name);
    }
}

/// Law: an update leaves every field whose name it does not mention unchanged,
/// both in presence and in value.
pub proof fn lemma_update_leaves_absent_fields(fs: Seq<FieldV>, ups: Seq<FieldV>, n: Seq<char>)
    requires
        forall|i: int| 0 <= i < ups.len() ==> #[trigger] ups[i].name != n,
    ensures
        has_name(apply_fields(fs, ups), n) == has_name(fs, n),
        has_name(fs, n) ==> field_of(apply_fields(fs, ups), n) == field_of(fs, n),
    decreases ups.len(),
{
    if ups.len() > 0 {
        let up = ups[0];
        let fs1 = apply_one(fs, up);
        lemma_apply_one_names(fs, up);
        lemma_name_index_same_names(fs, fs1, n);
        lemma_name_index(fs, n);
        lemma_name_index(fs1, n);
        assert forall|i: int| 0 <= i < fs1.len() && #[trigger] fs1[i].name == n implies
            has_name(fs, n) by {
            assert(fs[i].name == n);
        }
        assert forall|i: int| 0 <= i < fs.len() && #[trigger] fs[i].name == n implies
            has_name(fs1, n) by {
            assert(fs1[i].name == n);
        }
        if has_name(fs, n) {
            // The position updated by `apply_one` carries `up.name`, not `n`.
            if has_name(fs, up.name) {
                lemma_name_index(fs, up.name);
                assert(fs[name_index(fs, up.name)].name == up.name);
                assert(name_index(fs, n) != name_index(fs, up.name));
            }
            assert(field_of(fs1, n) == field_of(fs, n));
        }
        lemma_update_leaves_absent_fields(fs1, ups.subrange(1, ups.len() as int), n);
    }
}

// endregion

// region: row shapes

/// The scalar shape a column admits.
pub enum FieldType {
    IntT,
    TextT,
    BoolT,
    NullableIntT,
    NullableTextT,
}

pub open spec fn value_type_ok(v: FieldValueV, t: FieldType) -> bool {
    match t {
        FieldType::IntT => v is Int,
        FieldType::TextT => v is Text,
        FieldType::BoolT => v is Bool,
        FieldType::NullableIntT => v is Int || v is Null,
        FieldType::NullableTextT => v is Text || v is Null,
    }
}

/// The field list has exactly the named columns, in order, each of its type.
pub open spec fn shape_ok(fs: Seq<FieldV>, shape: Seq<(Seq<char>, FieldType)>) -> bool {
    &&& fs.len() == shape.len()
    &&& forall|i: int|
        0 <= i < fs.len() ==> #[trigger] fs[i].name == shape[i].0 && value_type_ok(
            fs[i].value,
            shape[i].1,
        )
}

/// The update value is admissible for every column of the shape that carries
/// its name.
pub open spec fn up_fits(up: FieldV, shape: Seq<(Seq<char>, FieldType)>) -> bool
    decreases shape.len(),
{
    if shape.len() == 0 {
        true
    } else {
        &&& (up.name == shape[0].0 ==> value_type_ok(up.value, shape[0].1))
        &&& up_fits(up, shape.subrange(1, shape.len() as int))
    }
}

pub proof fn lemma_up_fits(up: FieldV, shape: Seq<(Seq<char>, FieldType)>, k: int)
    requires
        up_fits(up, shape),
        0 <= k < shape.len(),
        up.name == shape[k].0,
    ensures
        value_type_ok(up.value, shape[k].1),
    decreases shape.len(),
{
    if k > 0 {
        let sub = shape.subrange(1, shape.len() as int);
        assert(sub[k - 1] == shape[k]);
        lemma_up_fits(up, sub, k - 1);
    }
}

/// Every update value is admissible for the columns carrying its name.
pub open spec fn ups_fit_shape(ups: Seq<FieldV>, shape: Seq<(Seq<char>, FieldType)>) -> bool {
    forall|i: int| 0 <= i < ups.len() ==> up_fits(#[trigger] ups[i], shape)
}

pub proof fn lemma_ups_fit_empty(shape: Seq<(Seq<char>, FieldType)>)
    ensures
        ups_fit_shape(Seq::<FieldV>::empty(), shape),
{
}

pub proof fn lemma_ups_fit_single(u: FieldV, shape: Seq<(Seq<char>, FieldType)>)
    requires
        up_fits(u, shape),
    ensures
        ups_fit_shape(seq![u], shape),
{
    assert forall|i: int| 0 <= i < 1 implies up_fits(#[trigger] seq![u][i], shape) by {
        assert(seq![u][i] == u);
    }
}

pub proof fn lemma_ups_fit_concat(
    a: Seq<FieldV>,
    b: Seq<FieldV>,
    shape: Seq<(Seq<char>, FieldType)>,
)
    requires
        ups_fit_shape(a, shape),
        ups_fit_shape(b, shape),
    ensures
        ups_fit_shape(a + b, shape),
{
    assert forall|i: int| 0 <= i < (a + b).len() implies up_fits(#[trigger] (a + b)[i], shape) by {
        if i < a.len() {
            assert((a + b)[i] == a[i]);
        } else {
            assert((a + b)[i] == b[i - a.len()]);
        }
    }
}

pub proof fn lemma_apply_one_preserves_shape(
    fs: Seq<FieldV>,
    up: FieldV,
    shape: Seq<(Seq<char>, FieldType)>,
)
    requires
        shape_ok(fs, shape),
        up_fits(up, shape),
    ensures
        shape_ok(apply_one(fs, up), shape),
{
    if has_name(fs, up.name) {
        lemma_name_index(fs, up.name);
        let ni = name_index(fs, up.name);
        assert(fs[ni].name == shape[ni].0);
        lemma_up_fits(up, shape, ni);
    }
}

pub proof fn lemma_apply_fields_preserves_shape(
    fs: Seq<FieldV>,
    ups: Seq<FieldV>,
    shape: Seq<(Seq<char>, FieldType)>,
)
    requires
        shape_ok(fs, shape),
        ups_fit_shape(ups, shape),
    ensures
        shape_ok(apply_fields(fs, ups), shape),
    decreases ups.len(),
{
    if ups.len() > 0 {
        assert(up_fits(ups[0], shape));
        lemma_apply_one_preserves_shape(fs, ups[0], shape);
        assert forall|i: int| 0 <= i < ups.subrange(1, ups.len() as int).len() implies up_fits(
            #[trigger] ups.subrange(1, ups.len() as int)[i],
            shape,
        ) by {
            assert(ups[i + 1] == ups.subrange(1, ups.len() as int)[i]);
        }
        lemma_apply_fields_preserves_shape(
            apply_one(fs, ups[0]),
            ups.subrange(1, ups.len() as int),
            shape,
        );
    }
}

// endregion

// region: audit stamping

pub open spec fn owner_field(user_id: i64) -> FieldV {
    FieldV { name: "owner_id"@, value: FieldValueV::Int(user_id) }
}

/// The four audit columns a create appends: creator and updater are the same
/// caller, creation and update time the same moment.
pub open spec fn stamp_fields_create(user_id: i64, ts: i64) -> Seq<FieldV> {
    seq![
        FieldV { name: "creator_id"@, value: FieldValueV::Int(user_id) },
        FieldV { name: "creation_time"@, value: FieldValueV::Int(ts) },
        FieldV { name: "updater_id"@, value: FieldValueV::Int(user_id) },
        FieldV { name: "updated_time"@, value: FieldValueV::Int(ts) },
    ]
}

/// The two audit columns an update rewrites.
pub open spec fn stamp_fields_update(user_id: i64, ts: i64) -> Seq<FieldV> {
    seq![
        FieldV { name: "updater_id"@, value: FieldValueV::Int(user_id) },
        FieldV { name: "updated_time"@, value: FieldValueV::Int(ts) },
    ]
}

/// Appends creator/creation/updater/update stamps for a fresh row.
pub fn add_timestamps_for_create(fields: &mut Vec<Field>, creator_id: i64, now: i64)
    ensures
        fields_view(final(fields)@) =~= fields_view(old(fields)@) + stamp_fields_create(
            creator_id,
            now,
        ),
{
    fields.push(Field::new("creator_id", FieldValue::Int(creator_id)));
    fields.push(Field::new("creation_time", FieldValue::Int(now)));
    fields.push(Field::new("updater_id", FieldValue::Int(creator_id)));
    fields.push(Field::new("updated_time", FieldValue::Int(now)));
}

/// Appends updater/update stamps for an update.
pub fn add_timestamps_for_update(fields: &mut Vec<Field>, updater_id: i64, now: i64)
    ensures
        fields_view(final(fields)@) =~= fields_view(old(fields)@) + stamp_fields_update(
            updater_id,
            now,
        ),
{
    fields.push(Field::new("updater_id", FieldValue::Int(updater_id)));
    fields.push(Field::new("updated_time", FieldValue::Int(now)));
}

/// Prepares the field list of a create: the optional owner column, then the
/// audit stamps, appended to the caller's own columns.
pub fn prep_fields_for_create(
    fields: &mut Vec<Field>,
    user_id: i64,
    now: i64,
    with_owner_id: bool,
    with_timestamps: bool,
)
    ensures
        fields_view(final(fields)@) =~= fields_view(old(fields)@) + (if with_owner_id {
            seq![owner_field(user_id)]
        } else {
            Seq::<FieldV>::empty()
        }) + (if with_timestamps {
            stamp_fields_create(user_id, now)
        } else {
            Seq::<FieldV>::empty()
        }),
{
    if with_owner_id {
        fields.push(Field::new("owner_id", FieldValue::Int(user_id)));
    }
    if with_timestamps {
        add_timestamps_for_create(fields, user_id, now);
    }
}

/// Prepares the field list of an update: the audit stamps appended to the
/// caller's own columns.
pub fn prep_fields_for_update(
    fields: &mut Vec<Field>,
    user_id: i64,
    now: i64,
    with_timestamps: bool,
)
    ensures
        fields_view(final(fields)@) =~= fields_view(old(fields)@) + (if with_timestamps {
            stamp_fields_update(user_id, now)
        } else {
            Seq::<FieldV>::empty()
        }),
{
    if with_timestamps {
        add_timestamps_for_update(fields, user_id, now);
    }
}

// endregion

// region: the generic store operations

/// Inserts a fresh row with the prepared fields; the row takes the table's
/// next id. Fails only when the id space is exhausted.
#[verifier::loop_isolation(false)]
pub fn insert(table: &mut Table, fields: Vec<Field>) -> (r: Result<i64, Error>)
    requires
        old(table).wf(),
    ensures
        final(table).wf(),
        r is Ok <==> old(table).next_id < i64::MAX,
        r matches Ok(id) ==> {
            &&& id == old(table).next_id
            &&& final(table).next_id == old(table).next_id + 1
            &&& final(table)@ =~= old(table)@.push(
                RowV { id: old(table).next_id, fields: fields_view(fields@) },
            )
        },
        r is Err ==> *final(table) == *old(table) && r == Err::<i64, Error>(Error::Store),
{
    if table.next_id == i64::MAX {
        return Err(Error::Store);
    }
    let id = table.next_id;
    table.next_id = table.next_id + 1;
    let row = Row { id, fields };
    table.rows.push(row);
    proof {
        assert(table@ =~= old(table)@.push(RowV { id, fields: fields_view(fields@) }));
        assert forall|i: int| 0 <= i < table@.len() implies 1 <= #[trigger] table@[i].id
            < table.next_id by {
            if i < old(table)@.len() {
                assert(old(table)@[i].id == table@[i].id);
            }
        }
    }
    Ok(id)
}

/// Fetches the row with the id, or nothing when the table has none.
#[verifier::loop_isolation(false)]
pub fn get_row<'a>(table: &'a Table, id: i64) -> (r: Option<&'a Row>)
    requires
        table.wf(),
    ensures
        r is Some <==> table_has_id(table@, id),
        r matches Some(row) ==> row@ == row_with_id(table@, id),
{
    let n = table.rows.len();
    let mut j: usize = 0;
    while j < n
        invariant
            j <= n,
            forall|p: int| 0 <= p < j ==> #[trigger] table@[p].id != id,
        decreases n - j,
    {
        if table.rows[j].id == id {
            proof {
                assert(table@[j as int].id == id);
                lemma_find_index_unique(table@, id, j as int);
            }
            return Some(&table.rows[j]);
        }
        j = j + 1;
    }
    proof {
        lemma_find_index(table@, id);
    }
    None
}

/// Applies one update field to the row's field list.
#[verifier::loop_isolation(false)]
fn apply_one_exec(fields: &mut Vec<Field>, up: Field)
    ensures
        fields_view(final(fields)@) =~= apply_one(fields_view(old(fields)@), up@),
{
    let ghost fsv = fields_view(fields@);
    let n = fields.len();
    let mut j: usize = 0;
    while j < n
        invariant
            j <= n,
            n == fields.len(),
            *fields == *old(fields),
            forall|p: int| 0 <= p < j ==> #[trigger] fsv[p].name != up@.name,
        decreases n - j,
    {
        if fields[j].name == up.name {
            proof {
                lemma_name_index(fsv, up@.name);
                assert(fsv[j as int].name == up@.name);
                assert forall|p: int| 0 <= p < name_index(fsv, up@.name) implies
                    #[trigger] fsv[p].name != up@.name by {}
                assert(name_index(fsv, up@.name) == j as int);
            }
            fields.set(j, up);
            proof {
                assert(fields_view(fields@) =~= apply_one(fsv, up@));
            }
            return ;
        }
        j = j + 1;
    }
    proof {
        if has_name(fsv, up@.name) {
            lemma_name_index(fsv, up@.name);
            let i = name_index(fsv, up@.name);
            assert(fsv[i].name == up@.name);
            assert(false);
        }
    }
}

/// Updates the row with the id by the prepared fields, left to right; fails
/// with `EntityNotFound` when the id is absent.
#[verifier::loop_isolation(false)]
pub fn update_row(table: &mut Table, id: i64, fields: Vec<Field>, kind: EntityKind) -> (r: Result<
    (),
    Error,
>)
    requires
        old(table).wf(),
    ensures
        final(table).wf(),
        final(table).next_id == old(table).next_id,
        r is Ok <==> table_has_id(old(table)@, id),
        r matches Ok(u) ==> final(table)@ =~= old(table)@.update(
            find_index(old(table)@, id),
            RowV {
                id,
                fields: apply_fields(
                    row_with_id(old(table)@, id).fields,
                    fields_view(fields@),
                ),
            },
        ),
        r is Err ==> *final(table) == *old(table) && r == Err::<(), Error>(
            Error::EntityNotFound { entity: kind, id },
        ),
{
    let n = table.rows.len();
    let mut j: usize = 0;
    while j < n
        invariant
            j <= n,
            n == table.rows.len(),
            *table == *old(table),
            forall|p: int| 0 <= p < j ==> #[trigger] table@[p].id != id,
        decreases n - j,
    {
        if table.rows[j].id == id {
            proof {
                assert(table@[j as int].id == id);
                lemma_find_index_unique(table@, id, j as int);
            }
            let ghost orig = table@;
            let mut row = table.rows.remove(j);
            let ghost base_fields = row@.fields;
            // hand the update fields over one by one, left to right
            let mut ups = fields;
            let ghost all_ups = fields_view(ups@);
            let ghost k: int = 0;
            while ups.len() > 0
                invariant
                    0 <= k <= all_ups.len(),
                    fields_view(ups@) =~= all_ups.subrange(k, all_ups.len() as int),
                    fields_view(row.fields@) =~= apply_fields(
                        base_fields,
                        all_ups.subrange(0, k),
                    ),
                    row.id == id,
                decreases ups.len(),
            {
                let ghost prev = ups@;
                let up = ups.remove(0);
                proof {
                    assert(fields_view(prev)[0] == up@);
                    assert(fields_view(prev) =~= all_ups.subrange(k, all_ups.len() as int));
                    assert(all_ups[k] == up@);
                    assert(fields_view(ups@) =~= fields_view(prev).subrange(
                        1,
                        fields_view(prev).len() as int,
                    ));
                    assert(fields_view(ups@) =~= all_ups.subrange(k + 1, all_ups.len() as int));
                    assert(all_ups.subrange(0, k + 1) =~= all_ups.subrange(0, k).push(up@));
                    lemma_apply_fields_snoc(base_fields, all_ups.subrange(0, k), up@);
                }
                apply_one_exec(&mut row.fields, up);
                proof {
                    k = k + 1;
                }
            }
            let ghost new_row_v = row@;
            table.rows.insert(j, row);
            proof {
                assert(all_ups.subrange(0, all_ups.len() as int) =~= all_ups);
                assert(new_row_v == RowV { id, fields: apply_fields(base_fields, all_ups) });
                assert(table@ =~= orig.update(
                    j as int,
                    RowV { id, fields: apply_fields(base_fields, all_ups) },
                ));
                assert forall|p: int| 0 <= p < table@.len() implies 1 <= #[trigger] table@[p].id
                    < table.next_id by {
                    if p != j {
                        assert(table@[p] == orig[p]);
                    }
                }
                assert forall|p: int, q: int| 0 <= p < q < table@.len() implies
                    #[trigger] table@[p].id != #[trigger] table@[q].id by {
                    assert(orig[p].id != orig[q].id);
                    assert(table@[p].id == orig[p].id);
                    assert(table@[q].id == orig[q].id);
                }
            }
            return Ok(());
        }
        j = j + 1;
    }
    proof {
        lemma_find_index(table@, id);
    }
    Err(Error::EntityNotFound { entity: kind, id })
}

/// Removes the row with the id; fails with `EntityNotFound` when absent.
#[verifier::loop_isolation(false)]
pub fn delete_row(table: &mut Table, id: i64, kind: EntityKind) -> (r: Result<(), Error>)
    requires
        old(table).wf(),
    ensures
        final(table).wf(),
        final(table).next_id == old(table).next_id,
        r is Ok <==> table_has_id(old(table)@, id),
        r matches Ok(u) ==> final(table)@ =~= old(table)@.remove(find_index(old(table)@, id)),
        r matches Ok(u) ==> !table_has_id(final(table)@, id),
        r is Err ==> *final(table) == *old(table) && r == Err::<(), Error>(
            Error::EntityNotFound { entity: kind, id },
        ),
{
    let n = table.rows.len();
    let mut j: usize = 0;
    while j < n
        invariant
            j <= n,
            n == table.rows.len(),
            *table == *old(table),
            forall|p: int| 0 <= p < j ==> #[trigger] table@[p].id != id,
        decreases n - j,
    {
        if table.rows[j].id == id {
            proof {
                assert(table@[j as int].id == id);
                lemma_find_index_unique(table@, id, j as int);
            }
            let ghost orig = table@;
            table.rows.remove(j);
            proof {
                assert(table@ =~= orig.remove(j as int));
                assert forall|p: int| 0 <= p < table@.len() implies #[trigger] table@[p].id
                    != id by {
                    if p < j {
                        assert(orig[p].id != id);
                    } else {
                        assert(table@[p] == orig[p + 1]);
                        assert(orig[j as int].id == id);
                        assert(orig[p + 1].id != orig[j as int].id);
                    }
                }
            }
            return Ok(());
        }
        j = j + 1;
    }
    proof {
        lemma_find_index(table@, id);
    }
    Err(Error::EntityNotFound { entity: kind, id })
}

/// Removes the row at a position, keeping the others in order.
pub fn remove_at(table: &mut Table, j: usize)
    requires
        old(table).wf(),
        j < old(table)@.len(),
    ensures
        final(table).wf(),
        final(table).next_id == old(table).next_id,
        final(table)@ =~= old(table)@.remove(j as int),
{
    let _ = table.rows.remove(j);
    proof {
        assert(table@ =~= old(table)@.remove(j as int));
        assert forall|p: int| 0 <= p < table@.len() implies 1 <= #[trigger] table@[p].id
            < table.next_id by {
            if p < j {
                assert(table@[p] == old(table)@[p]);
            } else {
                assert(table@[p] == old(table)@[p + 1]);
            }
        }
        assert forall|p: int, q: int| 0 <= p < q < table@.len() implies
            #[trigger] table@[p].id != #[trigger] table@[q].id by {
            let p0: int = if p < j { p } else { p + 1 };
            let q0: int = if q < j { q } else { q + 1 };
            assert(table@[p] == old(table)@[p0]);
            assert(table@[q] == old(table)@[q0]);
            assert(old(table)@[p0].id != old(table)@[q0].id);
        }
    }
}

// endregion

} // verus!
