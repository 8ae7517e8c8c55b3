use vstd::prelude::*;

use crate::ctx::Ctx;
use crate::error::{EntityKind, Error};
use crate::model::base::{
    apply_fields, insert, delete_row, get_row, lemma_apply_fields_preserves_shape,
    lemma_ups_fit_concat, lemma_ups_fit_empty, lemma_ups_fit_single, now_utc_ts,
    prep_fields_for_create, prep_fields_for_update, shape_ok, stamp_fields_create,
    stamp_fields_update, up_fits, update_row, ups_fit_shape, value_type_ok, FieldType,
};
use crate::model::field::{
    fields_view, int_of, opt_text_of, opt_text_view, text_of, Field, FieldV, FieldValue,
    FieldValueV,
};
use crate::model::filter::{
    apply_list_options, eval_int64_ops, eval_string_ops, int64_ops_match, paginate,
    string_ops_match, ListOptions, OpValsInt64, OpValsString,
};
use crate::model::store::{
    find_index, lemma_find_index, row_with_id, table_has_id, ModelManager, Row, RowV,
    same_tables_except,
};

verus! {

// region: author types

/// What kind of author a row describes, stored as its name.
#[derive(Clone, Copy, Debug, PartialEq, Eq, Structural, Default)]
pub enum AuthorType {
    Editor,
    Journalist,
    Columnist,
    CopyWriter,
    ContentWriter,
    #[default]
    GhostWriter,
}

pub open spec fn author_type_text(s: AuthorType) -> Seq<char> {
    match s {
        AuthorType::Editor => "Editor"@,
        AuthorType::Journalist => "Journalist"@,
        AuthorType::Columnist => "Columnist"@,
        AuthorType::CopyWriter => "CopyWriter"@,
        AuthorType::ContentWriter => "ContentWriter"@,
        AuthorType::GhostWriter => "GhostWriter"@,
    }
}

/// The value a stored name denotes; an unknown name reads as `GhostWriter`.
pub open spec fn author_type_of_text(t: Seq<char>) -> AuthorType {
    if t == "Editor"@ {
        AuthorType::Editor
    } else if t == "Journalist"@ {
        AuthorType::Journalist
    } else if t == "Columnist"@ {
        AuthorType::Columnist
    } else if t == "CopyWriter"@ {
        AuthorType::CopyWriter
    } else if t == "ContentWriter"@ {
        AuthorType::ContentWriter
    } else {
        AuthorType::GhostWriter
    }
}

pub fn author_type_name(s: &AuthorType) -> (r: String)
    ensures
        r@ == author_type_text(*s),
{
    match s {
        AuthorType::Editor => "Editor".to_owned(),
        AuthorType::Journalist => "Journalist".to_owned(),
        AuthorType::Columnist => "Columnist".to_owned(),
        AuthorType::CopyWriter => "CopyWriter".to_owned(),
        AuthorType::ContentWriter => "ContentWriter".to_owned(),
        AuthorType::GhostWriter => "GhostWriter".to_owned(),
    }
}

pub fn author_type_parse(t: &String) -> (r: AuthorType)
    ensures
        r == author_type_of_text(t@),
{
    if t.eq(&"Editor".to_owned()) {
        AuthorType::Editor
    } else if t.eq(&"Journalist".to_owned()) {
        AuthorType::Journalist
    } else if t.eq(&"Columnist".to_owned()) {
        AuthorType::Columnist
    } else if t.eq(&"CopyWriter".to_owned()) {
        AuthorType::CopyWriter
    } else if t.eq(&"ContentWriter".to_owned()) {
        AuthorType::ContentWriter
    } else {
        AuthorType::GhostWriter
    }
}

/// The value a name denotes, or nothing for an unknown name.
pub open spec fn author_type_try_of_text(t: Seq<char>) -> Option<AuthorType> {
    if t == "Editor"@ {
        Some(AuthorType::Editor)
    } else if t == "Journalist"@ {
        Some(AuthorType::Journalist)
    } else if t == "Columnist"@ {
        Some(AuthorType::Columnist)
    } else if t == "CopyWriter"@ {
        Some(AuthorType::CopyWriter)
    } else if t == "ContentWriter"@ {
        Some(AuthorType::ContentWriter)
    } else if t == "GhostWriter"@ {
        Some(AuthorType::GhostWriter)
    } else {
        None
    }
}

pub fn author_type_try_parse(t: &String) -> (r: Option<AuthorType>)
    ensures
        r == author_type_try_of_text(t@),
{
    if t.eq(&"Editor".to_owned()) {
        Some(AuthorType::Editor)
    } else if t.eq(&"Journalist".to_owned()) {
        Some(AuthorType::Journalist)
    } else if t.eq(&"Columnist".to_owned()) {
        Some(AuthorType::Columnist)
    } else if t.eq(&"CopyWriter".to_owned()) {
        Some(AuthorType::CopyWriter)
    } else if t.eq(&"ContentWriter".to_owned()) {
        Some(AuthorType::ContentWriter)
    } else if t.eq(&"GhostWriter".to_owned()) {
        Some(AuthorType::GhostWriter)
    } else {
        None
    }
}

/// Reading a stored name back yields the value it was stored from.
pub proof fn lemma_author_type_roundtrip(s: AuthorType)
    ensures
        author_type_of_text(author_type_text(s)) == s,
{
    reveal_strlit("Editor");
    reveal_strlit("Journalist");
    reveal_strlit("Columnist");
    reveal_strlit("CopyWriter");
    reveal_strlit("ContentWriter");
    reveal_strlit("GhostWriter");
    assert("Editor"@.len() == 6);
    assert("Journalist"@.len() == 10);
    assert("Columnist"@.len() == 9);
    assert("CopyWriter"@.len() == 10);
    assert("ContentWriter"@.len() == 13);
    assert("GhostWriter"@.len() == 11);
    assert("Journalist"@[0] == 'J');
    assert("CopyWriter"@[0] == 'C');
}

/// A stored author row, as callers see it.
#[derive(Clone, Debug)]
pub struct Author {
    pub id: i64,
    pub user_id: i64,
    pub author_type: AuthorType,
    pub pen_name: String,
    pub bio: Option<String>,
    pub website: Option<String>,
    pub avatar_url: Option<String>,
    pub creator_id: i64,
    pub creation_time: i64,
    pub updater_id: i64,
    pub updated_time: i64,
}

/// The mathematical value of a `Author`.
pub struct AuthorV {
    pub id: i64,
    pub user_id: i64,
    pub author_type: AuthorType,
    pub pen_name: Seq<char>,
    pub bio: Option<Seq<char>>,
    pub website: Option<Seq<char>>,
    pub avatar_url: Option<Seq<char>>,
    pub creator_id: i64,
    pub creation_time: i64,
    pub updater_id: i64,
    pub updated_time: i64,
}

impl View for Author {
    type V = AuthorV;

    open spec fn view(&self) -> AuthorV {
        AuthorV {
            id: self.id,
            user_id: self.user_id,
            author_type: self.author_type,
            pen_name: self.pen_name@,
            bio: opt_text_view(self.bio),
            website: opt_text_view(self.website),
            avatar_url: opt_text_view(self.avatar_url),
            creator_id: self.creator_id,
            creation_time: self.creation_time,
            updater_id: self.updater_id,
            updated_time: self.updated_time,
        }
    }
}

impl DeepView for Author {
    type V = AuthorV;

    open spec fn deep_view(&self) -> AuthorV {
        self.view()
    }
}

/// What a caller provides to create an author.
#[derive(Clone, Debug, Default)]
pub struct AuthorForCreate {
    pub user_id: i64,
    pub author_type: AuthorType,
    pub pen_name: String,
    pub bio: Option<String>,
    pub website: Option<String>,
    pub avatar_url: Option<String>,
}

/// What a caller provides to update an author; only present fields change
/// (the user id, author type and pen name are always present).
#[derive(Clone, Debug, Default)]
pub struct AuthorForUpdate {
    pub user_id: i64,
    pub author_type: AuthorType,
    pub pen_name: String,
    pub bio: Option<String>,
    pub website: Option<String>,
    pub avatar_url: Option<String>,
}

/// One filter group over authors: the conjunction of its present members.
#[derive(Clone, Debug, Default)]
pub struct AuthorFilter {
    pub user_id: Option<OpValsInt64>,
    pub author_type: Option<OpValsString>,
    pub pen_name: Option<OpValsString>,
}

// endregion

// region: the author row shape

pub open spec fn author_shape() -> Seq<(Seq<char>, FieldType)> {
    seq![
        ("user_id"@, FieldType::IntT),
        ("author_type"@, FieldType::TextT),
        ("pen_name"@, FieldType::TextT),
        ("bio"@, FieldType::NullableTextT),
        ("website"@, FieldType::NullableTextT),
        ("avatar_url"@, FieldType::NullableTextT),
        ("creator_id"@, FieldType::IntT),
        ("creation_time"@, FieldType::IntT),
        ("updater_id"@, FieldType::IntT),
        ("updated_time"@, FieldType::IntT),
    ]
}

proof fn lemma_author_name_facts()
    ensures
        "user_id"@.len() == 7,
        "author_type"@.len() == 11,
        "pen_name"@.len() == 8,
        "bio"@.len() == 3,
        "website"@.len() == 7,
        "avatar_url"@.len() == 10,
        "creator_id"@.len() == 10,
        "creation_time"@.len() == 13,
        "updater_id"@.len() == 10,
        "updated_time"@.len() == 12,
        "user_id"@[0] == 'u',
        "website"@[0] == 'w',
        "avatar_url"@[0] == 'a',
        "creator_id"@[0] == 'c',
        "updater_id"@[0] == 'u',
{
    reveal_strlit("user_id");
    reveal_strlit("author_type");
    reveal_strlit("pen_name");
    reveal_strlit("bio");
    reveal_strlit("website");
    reveal_strlit("avatar_url");
    reveal_strlit("creator_id");
    reveal_strlit("creation_time");
    reveal_strlit("updater_id");
    reveal_strlit("updated_time");
}

/// Every row of the author table is author-shaped.
pub open spec fn author_rows_ok(t: Seq<RowV>) -> bool {
    forall|i: int| 0 <= i < t.len() ==> shape_ok(#[trigger] t[i].fields, author_shape())
}

/// The author a shaped row denotes.
pub open spec fn author_of_row(r: RowV) -> AuthorV {
    AuthorV {
        id: r.id,
        user_id: int_of(r.fields[0].value),
        author_type: author_type_of_text(text_of(r.fields[1].value)),
        pen_name: text_of(r.fields[2].value),
        bio: opt_text_of(r.fields[3].value),
        website: opt_text_of(r.fields[4].value),
        avatar_url: opt_text_of(r.fields[5].value),
        creator_id: int_of(r.fields[6].value),
        creation_time: int_of(r.fields[7].value),
        updater_id: int_of(r.fields[8].value),
        updated_time: int_of(r.fields[9].value),
    }
}

fn author_from_row(row: &Row) -> (a: Author)
    requires
        shape_ok(row@.fields, author_shape()),
    ensures
        a@ == author_of_row(row@),
{
    proof {
        let fs = row@.fields;
        let sh = author_shape();
        assert(fs[0].name == sh[0].0);
        assert(value_type_ok(fs[0].value, sh[0].1));
        assert(fs[1].name == sh[1].0);
        assert(value_type_ok(fs[1].value, sh[1].1));
        assert(fs[2].name == sh[2].0);
        assert(value_type_ok(fs[2].value, sh[2].1));
        assert(fs[3].name == sh[3].0);
        assert(value_type_ok(fs[3].value, sh[3].1));
        assert(fs[4].name == sh[4].0);
        assert(value_type_ok(fs[4].value, sh[4].1));
        assert(fs[5].name == sh[5].0);
        assert(value_type_ok(fs[5].value, sh[5].1));
        assert(fs[6].name == sh[6].0);
        assert(value_type_ok(fs[6].value, sh[6].1));
        assert(fs[7].name == sh[7].0);
        assert(value_type_ok(fs[7].value, sh[7].1));
        assert(fs[8].name == sh[8].0);
        assert(value_type_ok(fs[8].value, sh[8].1));
        assert(fs[9].name == sh[9].0);
        assert(value_type_ok(fs[9].value, sh[9].1));
    }
    Author {
        id: row.id,
        user_id: row.fields[0].value.as_int(),
        author_type: author_type_parse(&row.fields[1].value.as_text()),
        pen_name: row.fields[2].value.as_text(),
        bio: row.fields[3].value.as_opt_text(),
        website: row.fields[4].value.as_opt_text(),
        avatar_url: row.fields[5].value.as_opt_text(),
        creator_id: row.fields[6].value.as_int(),
        creation_time: row.fields[7].value.as_int(),
        updater_id: row.fields[8].value.as_int(),
        updated_time: row.fields[9].value.as_int(),
    }
}

// endregion

// region: create and update field lists

/// The columns a create writes, in table order; absent optional inputs take
/// the store's defaults.
pub open spec fn author_fields_of_create(fc: AuthorForCreate) -> Seq<FieldV> {
    seq![
        FieldV { name: "user_id"@, value: FieldValueV::Int(fc.user_id) },
        FieldV { name: "author_type"@, value: FieldValueV::Text(author_type_text(fc.author_type)) },
        FieldV { name: "pen_name"@, value: FieldValueV::Text(fc.pen_name@) },
        FieldV { name: "bio"@, value: match fc.bio {
                Some(u) => FieldValueV::Text(u@),
                None => FieldValueV::Null,
            } },
        FieldV { name: "website"@, value: match fc.website {
                Some(u) => FieldValueV::Text(u@),
                None => FieldValueV::Null,
            } },
        FieldV { name: "avatar_url"@, value: match fc.avatar_url {
                Some(u) => FieldValueV::Text(u@),
                None => FieldValueV::Null,
            } },
    ]
}

/// The row a create inserts, stamps included.
pub open spec fn author_create_row(fc: AuthorForCreate, id: i64, user: i64, ts: i64) -> RowV {
    RowV { id, fields: author_fields_of_create(fc) + stamp_fields_create(user, ts) }
}

fn author_create_fields(fc: AuthorForCreate) -> (r: Vec<Field>)
    ensures
        fields_view(r@) =~= author_fields_of_create(fc),
{
    let mut v: Vec<Field> = Vec::new();
    v.push(Field::new("user_id", FieldValue::Int(fc.user_id)));
    v.push(Field::new("author_type", FieldValue::Text(author_type_name(&fc.author_type))));
    v.push(Field::new("pen_name", FieldValue::Text(fc.pen_name)));
    v.push(Field::new("bio", match fc.bio {
            Some(u) => FieldValue::Text(u),
            None => FieldValue::Null,
        }));
    v.push(Field::new("website", match fc.website {
            Some(u) => FieldValue::Text(u),
            None => FieldValue::Null,
        }));
    v.push(Field::new("avatar_url", match fc.avatar_url {
            Some(u) => FieldValue::Text(u),
            None => FieldValue::Null,
        }));
    v
}

/// The columns an update writes: each present input field, in declaration
/// order.
pub open spec fn author_fields_of_update(fu: AuthorForUpdate) -> Seq<FieldV> {
    seq![
        FieldV { name: "user_id"@, value: FieldValueV::Int(fu.user_id) },
    ] + seq![
        FieldV { name: "author_type"@, value: FieldValueV::Text(author_type_text(fu.author_type)) },
    ] + seq![
        FieldV { name: "pen_name"@, value: FieldValueV::Text(fu.pen_name@) },
    ] + (match fu.bio {
        Some(u) => seq![FieldV { name: "bio"@, value: FieldValueV::Text(u@) }],
        None => Seq::<FieldV>::empty(),
    }) + (match fu.website {
        Some(u) => seq![FieldV { name: "website"@, value: FieldValueV::Text(u@) }],
        None => Seq::<FieldV>::empty(),
    }) + (match fu.avatar_url {
        Some(u) => seq![FieldV { name: "avatar_url"@, value: FieldValueV::Text(u@) }],
        None => Seq::<FieldV>::empty(),
    })
}

fn author_update_fields(fu: AuthorForUpdate) -> (r: Vec<Field>)
    ensures
        fields_view(r@) =~= author_fields_of_update(fu),
{
    let mut v: Vec<Field> = Vec::new();
    v.push(Field::new("user_id", FieldValue::Int(fu.user_id)));
    v.push(Field::new("author_type", FieldValue::Text(author_type_name(&fu.author_type))));
    v.push(Field::new("pen_name", FieldValue::Text(fu.pen_name)));
    match fu.bio {
        Some(u) => v.push(Field::new("bio", FieldValue::Text(u))),
        None => (),
    }
    match fu.website {
        Some(u) => v.push(Field::new("website", FieldValue::Text(u))),
        None => (),
    }
    match fu.avatar_url {
        Some(u) => v.push(Field::new("avatar_url", FieldValue::Text(u))),
        None => (),
    }
    v
}

/// The fields an update writes, stamps included, are admissible for the
/// author columns that carry their names.
proof fn lemma_author_update_fits(fu: AuthorForUpdate, user: i64, ts: i64)
    ensures
        ups_fit_shape(
            author_fields_of_update(fu) + stamp_fields_update(user, ts),
            author_shape(),
        ),
{
    lemma_author_name_facts();
    let sh = author_shape();
    let p1 = seq![
        FieldV { name: "user_id"@, value: FieldValueV::Int(fu.user_id) },
    ];
    let p2 = seq![
        FieldV { name: "author_type"@, value: FieldValueV::Text(author_type_text(fu.author_type)) },
    ];
    let p3 = seq![
        FieldV { name: "pen_name"@, value: FieldValueV::Text(fu.pen_name@) },
    ];
    let p4 = match fu.bio {
        Some(u) => seq![FieldV { name: "bio"@, value: FieldValueV::Text(u@) }],
        None => Seq::<FieldV>::empty(),
    };
    let p5 = match fu.website {
        Some(u) => seq![FieldV { name: "website"@, value: FieldValueV::Text(u@) }],
        None => Seq::<FieldV>::empty(),
    };
    let p6 = match fu.avatar_url {
        Some(u) => seq![FieldV { name: "avatar_url"@, value: FieldValueV::Text(u@) }],
        None => Seq::<FieldV>::empty(),
    };
    assert(up_fits(p1[0], sh)) by {
        reveal_with_fuel(up_fits, 16);
    }
    lemma_ups_fit_single(p1[0], sh);
    assert(p1 =~= seq![p1[0]]);
    assert(up_fits(p2[0], sh)) by {
        reveal_with_fuel(up_fits, 16);
    }
    lemma_ups_fit_single(p2[0], sh);
    assert(p2 =~= seq![p2[0]]);
    assert(up_fits(p3[0], sh)) by {
        reveal_with_fuel(up_fits, 16);
    }
    lemma_ups_fit_single(p3[0], sh);
    assert(p3 =~= seq![p3[0]]);
    match fu.bio {
        Some(u) => {
            assert(up_fits(p4[0], sh)) by {
                reveal_with_fuel(up_fits, 16);
            }
            lemma_ups_fit_single(p4[0], sh);
            assert(p4 =~= seq![p4[0]]);
        },
        None => lemma_ups_fit_empty(sh),
    }
    match fu.website {
        Some(u) => {
            assert(up_fits(p5[0], sh)) by {
                reveal_with_fuel(up_fits, 16);
            }
            lemma_ups_fit_single(p5[0], sh);
            assert(p5 =~= seq![p5[0]]);
        },
        None => lemma_ups_fit_empty(sh),
    }
    match fu.avatar_url {
        Some(u) => {
            assert(up_fits(p6[0], sh)) by {
                reveal_with_fuel(up_fits, 16);
            }
            lemma_ups_fit_single(p6[0], sh);
            assert(p6 =~= seq![p6[0]]);
        },
        None => lemma_ups_fit_empty(sh),
    }
    let stamps = stamp_fields_update(user, ts);
    assert(up_fits(stamps[0], sh)) by {
        reveal_with_fuel(up_fits, 16);
    }
    assert(up_fits(stamps[1], sh)) by {
        reveal_with_fuel(up_fits, 16);
    }
    assert forall|i: int| 0 <= i < stamps.len() implies up_fits(#[trigger] stamps[i], sh) by {
        if i == 0 {
            assert(up_fits(stamps[0], sh));
        } else {
            assert(up_fits(stamps[1], sh));
        }
    }
    lemma_ups_fit_concat(p1, p2, sh);
    lemma_ups_fit_concat(p1 + p2, p3, sh);
    lemma_ups_fit_concat(p1 + p2 + p3, p4, sh);
    lemma_ups_fit_concat(p1 + p2 + p3 + p4, p5, sh);
    lemma_ups_fit_concat(p1 + p2 + p3 + p4 + p5, p6, sh);
    lemma_ups_fit_concat(p1 + p2 + p3 + p4 + p5 + p6, stamps, sh);
    assert(author_fields_of_update(fu) + stamps =~= p1 + p2 + p3 + p4 + p5 + p6 + stamps);
}

// endregion

// region: filters

/// Whether a author matches one filter group: every present member holds.
pub open spec fn author_matches(a: AuthorV, f: AuthorFilter) -> bool {
    &&& match f.user_id {
        Some(ops) => int64_ops_match(a.user_id, ops),
        None => true,
    }
    &&& match f.author_type {
        Some(ops) => string_ops_match(author_type_text(a.author_type), ops),
        None => true,
    }
    &&& match f.pen_name {
        Some(ops) => string_ops_match(a.pen_name, ops),
        None => true,
    }
}

/// Whether a author matches some group of the disjunction.
pub open spec fn author_matches_any(a: AuthorV, fs: Seq<AuthorFilter>) -> bool {
    exists|i: int| 0 <= i < fs.len() && author_matches(a, #[trigger] fs[i])
}

/// No filters at all, or an empty group list, admits every row.
pub open spec fn author_filters_match(a: AuthorV, filters: Option<Vec<AuthorFilter>>) -> bool {
    match filters {
        Some(fs) => fs@.len() == 0 || author_matches_any(a, fs@),
        None => true,
    }
}

fn author_matches_exec(a: &Author, f: &AuthorFilter) -> (r: bool)
    ensures
        r == author_matches(a@, *f),
{
    let mut ok = true;
    match &f.user_id {
        Some(ops) => ok = ok && eval_int64_ops(a.user_id, ops),
        None => (),
    }
    match &f.author_type {
        Some(ops) => ok = ok && eval_string_ops(&author_type_name(&a.author_type), ops),
        None => (),
    }
    match &f.pen_name {
        Some(ops) => ok = ok && eval_string_ops(&a.pen_name, ops),
        None => (),
    }
    ok
}

#[verifier::loop_isolation(false)]
fn author_filters_match_exec(a: &Author, filters: &Option<Vec<AuthorFilter>>) -> (r: bool)
    ensures
        r == author_filters_match(a@, *filters),
{
    match filters {
        None => true,
        Some(fs) => {
            let n = fs.len();
            if n == 0 {
                return true;
            }
            let mut i: usize = 0;
            while i < n
                invariant
                    i <= n,
                    forall|p: int| 0 <= p < i ==> !author_matches(a@, #[trigger] fs@[p]),
                decreases n - i,
            {
                if author_matches_exec(a, &fs[i]) {
                    return true;
                }
                i = i + 1;
            }
            false
        },
    }
}

/// The authors of the table's rows, kept in store order, that match the
/// filters.
pub open spec fn filtered_authors(t: Seq<RowV>, filters: Option<Vec<AuthorFilter>>) -> Seq<
    AuthorV,
>
    decreases t.len(),
{
    if t.len() == 0 {
        Seq::<AuthorV>::empty()
    } else {
        let rest = filtered_authors(t.drop_last(), filters);
        if author_filters_match(author_of_row(t.last()), filters) {
            rest.push(author_of_row(t.last()))
        } else {
            rest
        }
    }
}

// endregion

// region: the author model controller

/// The author table's create/get/first/list/update/delete, on the shared
/// store.
pub struct AuthorBmc;

impl AuthorBmc {
    /// Inserts a new row: the caller's columns plus audit stamps, under a
    /// fresh id, which it returns. Fails only when the id space is exhausted.
    pub fn create(ctx: &Ctx, mm: &mut ModelManager, data: AuthorForCreate) -> (r: Result<
        i64,
        Error,
    >)
        requires
            old(mm).wf(),
            author_rows_ok(old(mm).author@),
        ensures
            final(mm).wf(),
            author_rows_ok(final(mm).author@),
            same_tables_except(*old(mm), *final(mm), EntityKind::Author),
            r is Ok <==> old(mm).author.next_id < i64::MAX,
            r matches Ok(id) ==> {
                &&& id == old(mm).author.next_id
                &&& final(mm).author.next_id == old(mm).author.next_id + 1
                &&& exists|ts: i64|
                    final(mm).author@ =~= old(mm).author@.push(
                        #[trigger] author_create_row(data, id, ctx.user_id, ts),
                    )
            },
            r is Err ==> *final(mm) == *old(mm) && r == Err::<i64, Error>(Error::Store),
    {
        let now = now_utc_ts();
        let mut fields = author_create_fields(data);
        prep_fields_for_create(&mut fields, ctx.user_id(), now, false, true);
        let ghost fsv = fields_view(fields@);
        let r = insert(&mut mm.author, fields);
        proof {
            assert(fsv =~= author_fields_of_create(data) + stamp_fields_create(
                ctx.user_id,
                now,
            ));
            if r is Ok {
                let id = old(mm).author.next_id;
                assert(author_create_row(data, id, ctx.user_id, now) == RowV {
                    id,
                    fields: fsv,
                });
                assert(final(mm).author@ =~= old(mm).author@.push(
                    author_create_row(data, id, ctx.user_id, now),
                ));
                assert(shape_ok(fsv, author_shape()));
                assert forall|i: int| 0 <= i < final(mm).author@.len() implies shape_ok(
                    #[trigger] final(mm).author@[i].fields,
                    author_shape(),
                ) by {
                    if i < old(mm).author@.len() {
                        assert(shape_ok(old(mm).author@[i].fields, author_shape()));
                    }
                }
            }
        }
        r
    }

    /// Fetches the row with the id; fails with `EntityNotFound` when the
    /// table has none.
    pub fn get(ctx: &Ctx, mm: &ModelManager, id: i64) -> (r: Result<Author, Error>)
        requires
            mm.wf(),
            author_rows_ok(mm.author@),
        ensures
            r is Ok <==> table_has_id(mm.author@, id),
            r matches Ok(a) ==> a@ == author_of_row(row_with_id(mm.author@, id)),
            r is Err ==> r == Err::<Author, Error>(
                Error::EntityNotFound { entity: EntityKind::Author, id },
            ),
    {
        match get_row(&mm.author, id) {
            Some(row) => {
                proof {
                    lemma_find_index(mm.author@, id);
                    assert(shape_ok(
                        mm.author@[find_index(mm.author@, id)].fields,
                        author_shape(),
                    ));
                }
                Ok(author_from_row(row))
            },
            None => Err(Error::EntityNotFound { entity: EntityKind::Author, id }),
        }
    }

    /// Lists the rows that match the filters (all of them when there are
    /// none), in store order, windowed by the list options.
    #[verifier::loop_isolation(false)]
    pub fn list(
        ctx: &Ctx,
        mm: &ModelManager,
        filters: Option<Vec<AuthorFilter>>,
        list_options: Option<ListOptions>,
    ) -> (r: Result<Vec<Author>, Error>)
        requires
            mm.wf(),
            author_rows_ok(mm.author@),
        ensures
            r matches Ok(v) && v.deep_view() == apply_list_options(
                filtered_authors(mm.author@, filters),
                list_options,
            ),
    {
        let t = &mm.author;
        let n = t.rows.len();
        let mut acc: Vec<Author> = Vec::new();
        let mut i: usize = 0;
        while i < n
            invariant
                i <= n,
                acc.deep_view() =~= filtered_authors(t@.subrange(0, i as int), filters),
            decreases n - i,
        {
            proof {
                assert(shape_ok(t@[i as int].fields, author_shape()));
                assert(t@.subrange(0, i as int + 1).drop_last() =~= t@.subrange(0, i as int));
                assert(t@.subrange(0, i as int + 1).last() == t@[i as int]);
            }
            let a = author_from_row(&t.rows[i]);
            if author_filters_match_exec(&a, &filters) {
                acc.push(a);
            }
            i = i + 1;
        }
        proof {
            assert(t@.subrange(0, n as int) =~= t@);
        }
        let res = paginate(acc, &list_options);
        proof {
            assert(res.deep_view() =~= apply_list_options(
                filtered_authors(mm.author@, filters),
                list_options,
            ));
        }
        Ok(res)
    }

    /// The first row of `list`, or nothing when the list is empty.
    pub fn first(
        ctx: &Ctx,
        mm: &ModelManager,
        filters: Option<Vec<AuthorFilter>>,
        list_options: Option<ListOptions>,
    ) -> (r: Result<Option<Author>, Error>)
        requires
            mm.wf(),
            author_rows_ok(mm.author@),
        ensures
            ({
                let l = apply_list_options(filtered_authors(mm.author@, filters), list_options);
                match r {
                    Ok(Some(a)) => l.len() > 0 && a@ == l[0],
                    Ok(None) => l.len() == 0,
                    Err(e) => false,
                }
            }),
    {
        let mut v = Self::list(ctx, mm, filters, list_options)?;
        let ghost l = v.deep_view();
        if v.len() > 0 {
            let a = v.remove(0);
            proof {
                assert(a.deep_view() == l[0]);
            }
            Ok(Some(a))
        } else {
            proof {
                assert(l.len() == 0);
            }
            Ok(None)
        }
    }

    /// Rewrites the present fields of the row with the id and restamps the
    /// updater columns; fails with `EntityNotFound` when the id is absent.
    pub fn update(ctx: &Ctx, mm: &mut ModelManager, id: i64, data: AuthorForUpdate) -> (r:
        Result<(), Error>)
        requires
            old(mm).wf(),
            author_rows_ok(old(mm).author@),
        ensures
            final(mm).wf(),
            author_rows_ok(final(mm).author@),
            same_tables_except(*old(mm), *final(mm), EntityKind::Author),
            final(mm).author.next_id == old(mm).author.next_id,
            r is Ok <==> table_has_id(old(mm).author@, id),
            r matches Ok(u) ==> exists|ts: i64|
                final(mm).author@ =~= old(mm).author@.update(
                    find_index(old(mm).author@, id),
                    RowV {
                        id,
                        fields: #[trigger] apply_fields(
                            row_with_id(old(mm).author@, id).fields,
                            author_fields_of_update(data) + stamp_fields_update(
                                ctx.user_id,
                                ts,
                            ),
                        ),
                    },
                ),
            r is Err ==> *final(mm) == *old(mm) && r == Err::<(), Error>(
                Error::EntityNotFound { entity: EntityKind::Author, id },
            ),
    {
        let now = now_utc_ts();
        let mut fields = author_update_fields(data);
        prep_fields_for_update(&mut fields, ctx.user_id(), now, true);
        let ghost fsv = fields_view(fields@);
        let r = update_row(&mut mm.author, id, fields, EntityKind::Author);
        proof {
            assert(fsv =~= author_fields_of_update(data) + stamp_fields_update(
                ctx.user_id,
                now,
            ));
            if r is Ok {
                lemma_find_index(old(mm).author@, id);
                let fi = find_index(old(mm).author@, id);
                assert(final(mm).author@ =~= old(mm).author@.update(
                    fi,
                    RowV {
                        id,
                        fields: apply_fields(
                            row_with_id(old(mm).author@, id).fields,
                            author_fields_of_update(data) + stamp_fields_update(
                                ctx.user_id,
                                now,
                            ),
                        ),
                    },
                ));
                // shape preservation
                assert(shape_ok(old(mm).author@[fi].fields, author_shape()));
                lemma_author_update_fits(data, ctx.user_id, now);
                assert(ups_fit_shape(fsv, author_shape()));
                lemma_apply_fields_preserves_shape(
                    old(mm).author@[fi].fields,
                    fsv,
                    author_shape(),
                );
                assert forall|i: int| 0 <= i < final(mm).author@.len() implies shape_ok(
                    #[trigger] final(mm).author@[i].fields,
                    author_shape(),
                ) by {
                    if i != fi {
                        assert(shape_ok(old(mm).author@[i].fields, author_shape()));
                    }
                }
            }
        }
        r
    }

    /// Removes the row with the id; fails with `EntityNotFound` when the
    /// id is absent.
    pub fn delete(ctx: &Ctx, mm: &mut ModelManager, id: i64) -> (r: Result<(), Error>)
        requires
            old(mm).wf(),
            author_rows_ok(old(mm).author@),
        ensures
            final(mm).wf(),
            author_rows_ok(final(mm).author@),
            same_tables_except(*old(mm), *final(mm), EntityKind::Author),
            final(mm).author.next_id == old(mm).author.next_id,
            r is Ok <==> table_has_id(old(mm).author@, id),
            r matches Ok(u) ==> final(mm).author@ =~= old(mm).author@.remove(
                find_index(old(mm).author@, id),
            ) && !table_has_id(final(mm).author@, id),
            r is Err ==> *final(mm) == *old(mm) && r == Err::<(), Error>(
                Error::EntityNotFound { entity: EntityKind::Author, id },
            ),
    {
        let r = delete_row(&mut mm.author, id, EntityKind::Author);
        proof {
            if r is Ok {
                lemma_find_index(old(mm).author@, id);
                let fi = find_index(old(mm).author@, id);
                assert forall|i: int| 0 <= i < final(mm).author@.len() implies shape_ok(
                    #[trigger] final(mm).author@[i].fields,
                    author_shape(),
                ) by {
                    if i < fi {
                        assert(final(mm).author@[i] == old(mm).author@[i]);
                        assert(shape_ok(old(mm).author@[i].fields, author_shape()));
                    } else {
                        assert(final(mm).author@[i] == old(mm).author@[i + 1]);
                        assert(shape_ok(old(mm).author@[i + 1].fields, author_shape()));
                    }
                }
            }
        }
        r
    }
}

// endregion

// region: laws

/// Law: reading back a created row yields the created input's fields; the
/// id and the audit stamps are the server-assigned values.
pub proof fn lemma_author_create_then_get(fc: AuthorForCreate, id: i64, user: i64, ts: i64)
    ensures
        ({
            let a = author_of_row(author_create_row(fc, id, user, ts));
            &&& a.id == id
            &&& a.user_id == fc.user_id
            &&& a.author_type == fc.author_type
            &&& a.pen_name == fc.pen_name@
            &&& a.bio == opt_text_view(fc.bio)
            &&& a.website == opt_text_view(fc.website)
            &&& a.avatar_url == opt_text_view(fc.avatar_url)
            &&& a.creator_id == user
            &&& a.creation_time == ts
            &&& a.updater_id == user
            &&& a.updated_time == ts
        }),
{
    lemma_author_type_roundtrip(fc.author_type);
}

// endregion

} // verus!
