use vstd::prelude::*;

use crate::ctx::Ctx;
use crate::error::{EntityKind, Error};
use crate::model::base::{
    apply_fields, insert, delete_row, get_row, lemma_apply_fields_preserves_shape,
    lemma_ups_fit_concat, lemma_ups_fit_empty, lemma_ups_fit_single, now_utc_ts,
    prep_fields_for_create, prep_fields_for_update, shape_ok, stamp_fields_create,
    stamp_fields_update, up_fits, update_row, ups_fit_shape, value_type_ok, FieldType,
};
use crate::model::field::{
    fields_view, int_of, opt_int_of, opt_text_of, opt_text_view, text_of, Field, FieldV,
    FieldValue, FieldValueV,
};
use crate::model::filter::{
    apply_list_options, eval_int32_ops, eval_int64_ops, eval_opt_int64_ops, eval_string_ops,
    int32_ops_match, int64_ops_match, opt_int64_ops_match, paginate, string_op_matches,
    string_ops_match, text_contains, ListOptions, OpValString, OpValsInt32, OpValsInt64,
    OpValsString,
};
use crate::model::store::{
    find_index, lemma_find_index, row_with_id, table_has_id, ModelManager, Row, RowV,
    same_tables_except,
};

verus! {

// region: article types

/// The approval workflow state of an article, stored as its name.
#[derive(Clone, Copy, Debug, PartialEq, Eq, Structural, Default)]
pub enum ApprovalState {
    #[default]
    Draft,
    RequestApproval,
    ApprovalPending,
    Approved,
    NeedCorrection,
    Reject,
}

pub open spec fn approval_state_text(s: ApprovalState) -> Seq<char> {
    match s {
        ApprovalState::Draft => "Draft"@,
        ApprovalState::RequestApproval => "RequestApproval"@,
        ApprovalState::ApprovalPending => "ApprovalPending"@,
        ApprovalState::Approved => "Approved"@,
        ApprovalState::NeedCorrection => "NeedCorrection"@,
        ApprovalState::Reject => "Reject"@,
    }
}

/// The state a stored name denotes; an unknown name reads as `Draft`.
pub open spec fn approval_state_of_text(t: Seq<char>) -> ApprovalState {
    if t == "RequestApproval"@ {
        ApprovalState::RequestApproval
    } else if t == "ApprovalPending"@ {
        ApprovalState::ApprovalPending
    } else if t == "Approved"@ {
        ApprovalState::Approved
    } else if t == "NeedCorrection"@ {
        ApprovalState::NeedCorrection
    } else if t == "Reject"@ {
        ApprovalState::Reject
    } else {
        ApprovalState::Draft
    }
}

pub fn approval_state_name(s: &ApprovalState) -> (r: String)
    ensures
        r@ == approval_state_text(*s),
{
    match s {
        ApprovalState::Draft => "Draft".to_owned(),
        ApprovalState::RequestApproval => "RequestApproval".to_owned(),
        ApprovalState::ApprovalPending => "ApprovalPending".to_owned(),
        ApprovalState::Approved => "Approved".to_owned(),
        ApprovalState::NeedCorrection => "NeedCorrection".to_owned(),
        ApprovalState::Reject => "Reject".to_owned(),
    }
}

pub fn approval_state_parse(t: &String) -> (r: ApprovalState)
    ensures
        r == approval_state_of_text(t@),
{
    if t.eq(&"RequestApproval".to_owned()) {
        ApprovalState::RequestApproval
    } else if t.eq(&"ApprovalPending".to_owned()) {
        ApprovalState::ApprovalPending
    } else if t.eq(&"Approved".to_owned()) {
        ApprovalState::Approved
    } else if t.eq(&"NeedCorrection".to_owned()) {
        ApprovalState::NeedCorrection
    } else if t.eq(&"Reject".to_owned()) {
        ApprovalState::Reject
    } else {
        ApprovalState::Draft
    }
}

/// The state a name denotes, or nothing for an unknown name.
pub open spec fn approval_state_try_of_text(t: Seq<char>) -> Option<ApprovalState> {
    if t == "Draft"@ {
        Some(ApprovalState::Draft)
    } else if t == "RequestApproval"@ {
        Some(ApprovalState::RequestApproval)
    } else if t == "ApprovalPending"@ {
        Some(ApprovalState::ApprovalPending)
    } else if t == "Approved"@ {
        Some(ApprovalState::Approved)
    } else if t == "NeedCorrection"@ {
        Some(ApprovalState::NeedCorrection)
    } else if t == "Reject"@ {
        Some(ApprovalState::Reject)
    } else {
        None
    }
}

pub fn approval_state_try_parse(t: &String) -> (r: Option<ApprovalState>)
    ensures
        r == approval_state_try_of_text(t@),
{
    if t.eq(&"Draft".to_owned()) {
        Some(ApprovalState::Draft)
    } else if t.eq(&"RequestApproval".to_owned()) {
        Some(ApprovalState::RequestApproval)
    } else if t.eq(&"ApprovalPending".to_owned()) {
        Some(ApprovalState::ApprovalPending)
    } else if t.eq(&"Approved".to_owned()) {
        Some(ApprovalState::Approved)
    } else if t.eq(&"NeedCorrection".to_owned()) {
        Some(ApprovalState::NeedCorrection)
    } else if t.eq(&"Reject".to_owned()) {
        Some(ApprovalState::Reject)
    } else {
        None
    }
}

/// Reading a stored state name back yields the state it was stored from.
pub proof fn lemma_approval_state_roundtrip(s: ApprovalState)
    ensures
        approval_state_of_text(approval_state_text(s)) == s,
{
    reveal_strlit("Draft");
    reveal_strlit("RequestApproval");
    reveal_strlit("ApprovalPending");
    reveal_strlit("Approved");
    reveal_strlit("NeedCorrection");
    reveal_strlit("Reject");
    assert("Draft"@.len() == 5);
    assert("RequestApproval"@.len() == 15);
    assert("ApprovalPending"@.len() == 15);
    assert("Approved"@.len() == 8);
    assert("NeedCorrection"@.len() == 14);
    assert("Reject"@.len() == 6);
    assert("RequestApproval"@[0] == 'R');
    assert("ApprovalPending"@[0] == 'A');
}

/// A stored article row, as callers see it.
#[derive(Clone, Debug)]
pub struct Article {
    pub id: i64,
    pub title: String,
    pub content: String,
    pub category_id: i32,
    pub author_id: i64,
    pub approval_state: ApprovalState,
    pub approver_id: Option<i64>,
    pub approval_time: Option<i64>,
    pub views: i32,
    pub image_url: Option<String>,
    pub likes: i32,
    pub creator_id: i64,
    pub creation_time: i64,
    pub updater_id: i64,
    pub updated_time: i64,
}

/// The mathematical value of an `Article`.
pub struct ArticleV {
    pub id: i64,
    pub title: Seq<char>,
    pub content: Seq<char>,
    pub category_id: i32,
    pub author_id: i64,
    pub approval_state: ApprovalState,
    pub approver_id: Option<i64>,
    pub approval_time: Option<i64>,
    pub views: i32,
    pub image_url: Option<Seq<char>>,
    pub likes: i32,
    pub creator_id: i64,
    pub creation_time: i64,
    pub updater_id: i64,
    pub updated_time: i64,
}

impl View for Article {
    type V = ArticleV;

    open spec fn view(&self) -> ArticleV {
        ArticleV {
            id: self.id,
            title: self.title@,
            content: self.content@,
            category_id: self.category_id,
            author_id: self.author_id,
            approval_state: self.approval_state,
            approver_id: self.approver_id,
            approval_time: self.approval_time,
            views: self.views,
            image_url: opt_text_view(self.image_url),
            likes: self.likes,
            creator_id: self.creator_id,
            creation_time: self.creation_time,
            updater_id: self.updater_id,
            updated_time: self.updated_time,
        }
    }
}

impl DeepView for Article {
    type V = ArticleV;

    open spec fn deep_view(&self) -> ArticleV {
        self.view()
    }
}

/// What a caller provides to create an article; absent optional columns take
/// the store's defaults.
#[derive(Clone, Debug, Default)]
pub struct ArticleForCreate {
    pub title: String,
    pub content: String,
    pub category_id: Option<i32>,
    pub author_id: i64,
    pub approval_state: ApprovalState,
    pub image_url: Option<String>,
}

/// What a caller provides to update an article; only present fields change
/// (the approval state is always present).
#[derive(Clone, Debug, Default)]
pub struct ArticleForUpdate {
    pub title: Option<String>,
    pub content: Option<String>,
    pub category_id: Option<i32>,
    pub views: Option<i32>,
    pub approval_state: ApprovalState,
    pub image_url: Option<String>,
    pub likes: Option<i32>,
}

/// One filter group over articles: the conjunction of its present members.
#[derive(Clone, Debug, Default)]
pub struct ArticleFilter {
    pub id: Option<OpValsInt64>,
    pub title: Option<OpValsString>,
    pub content: Option<OpValsString>,
    pub category_id: Option<OpValsInt32>,
    pub author_id: Option<OpValsInt64>,
    pub approval_state: Option<OpValsString>,
    pub approver_id: Option<OpValsInt64>,
    pub approval_time: Option<OpValsInt64>,
}

// endregion

// region: the article row shape

pub open spec fn article_shape() -> Seq<(Seq<char>, FieldType)> {
    seq![
        ("title"@, FieldType::TextT),
        ("content"@, FieldType::TextT),
        ("category_id"@, FieldType::IntT),
        ("author_id"@, FieldType::IntT),
        ("approval_state"@, FieldType::TextT),
        ("approver_id"@, FieldType::NullableIntT),
        ("approval_time"@, FieldType::NullableIntT),
        ("views"@, FieldType::IntT),
        ("image_url"@, FieldType::NullableTextT),
        ("likes"@, FieldType::IntT),
        ("creator_id"@, FieldType::IntT),
        ("creation_time"@, FieldType::IntT),
        ("updater_id"@, FieldType::IntT),
        ("updated_time"@, FieldType::IntT),
    ]
}

proof fn lemma_article_name_facts()
    ensures
        "title"@.len() == 5,
        "content"@.len() == 7,
        "category_id"@.len() == 11,
        "author_id"@.len() == 9,
        "approval_state"@.len() == 14,
        "approver_id"@.len() == 11,
        "approval_time"@.len() == 13,
        "views"@.len() == 5,
        "image_url"@.len() == 9,
        "likes"@.len() == 5,
        "creator_id"@.len() == 10,
        "creation_time"@.len() == 13,
        "updater_id"@.len() == 10,
        "updated_time"@.len() == 12,
        "title"@[0] == 't',
        "views"@[0] == 'v',
        "likes"@[0] == 'l',
        "image_url"@[0] == 'i',
        "author_id"@[0] == 'a',
{
    reveal_strlit("title");
    reveal_strlit("content");
    reveal_strlit("category_id");
    reveal_strlit("author_id");
    reveal_strlit("approval_state");
    reveal_strlit("approver_id");
    reveal_strlit("approval_time");
    reveal_strlit("views");
    reveal_strlit("image_url");
    reveal_strlit("likes");
    reveal_strlit("creator_id");
    reveal_strlit("creation_time");
    reveal_strlit("updater_id");
    reveal_strlit("updated_time");
}

/// The fields an update writes, stamps included, are admissible for the
/// article columns that carry their names.
proof fn lemma_article_update_fits(fu: ArticleForUpdate, user: i64, ts: i64)
    ensures
        ups_fit_shape(
            article_fields_of_update(fu) + stamp_fields_update(user, ts),
            article_shape(),
        ),
{
    lemma_article_name_facts();
    let sh = article_shape();
    let p1 = match fu.title {
        Some(t) => seq![FieldV { name: "title"@, value: FieldValueV::Text(t@) }],
        None => Seq::<FieldV>::empty(),
    };
    let p2 = match fu.content {
        Some(c) => seq![FieldV { name: "content"@, value: FieldValueV::Text(c@) }],
        None => Seq::<FieldV>::empty(),
    };
    let p3 = match fu.category_id {
        Some(c) => seq![FieldV { name: "category_id"@, value: FieldValueV::Int(c as i64) }],
        None => Seq::<FieldV>::empty(),
    };
    let p4 = match fu.views {
        Some(x) => seq![FieldV { name: "views"@, value: FieldValueV::Int(x as i64) }],
        None => Seq::<FieldV>::empty(),
    };
    let p5 = seq![
        FieldV {
            name: "approval_state"@,
            value: FieldValueV::Text(approval_state_text(fu.approval_state)),
        },
    ];
    let p6 = match fu.image_url {
        Some(u) => seq![FieldV { name: "image_url"@, value: FieldValueV::Text(u@) }],
        None => Seq::<FieldV>::empty(),
    };
    let p7 = match fu.likes {
        Some(x) => seq![FieldV { name: "likes"@, value: FieldValueV::Int(x as i64) }],
        None => Seq::<FieldV>::empty(),
    };
    match fu.title {
        Some(t) => {
            assert(up_fits(p1[0], sh)) by {
                reveal_with_fuel(up_fits, 16);
            }
            lemma_ups_fit_single(p1[0], sh);
            assert(p1 =~= seq![p1[0]]);
        },
        None => lemma_ups_fit_empty(sh),
    }
    match fu.content {
        Some(c) => {
            assert(up_fits(p2[0], sh)) by {
                reveal_with_fuel(up_fits, 16);
            }
            lemma_ups_fit_single(p2[0], sh);
            assert(p2 =~= seq![p2[0]]);
        },
        None => lemma_ups_fit_empty(sh),
    }
    match fu.category_id {
        Some(c) => {
            assert(up_fits(p3[0], sh)) by {
                reveal_with_fuel(up_fits, 16);
            }
            lemma_ups_fit_single(p3[0], sh);
            assert(p3 =~= seq![p3[0]]);
        },
        None => lemma_ups_fit_empty(sh),
    }
    match fu.views {
        Some(x) => {
            assert(up_fits(p4[0], sh)) by {
                reveal_with_fuel(up_fits, 16);
            }
            lemma_ups_fit_single(p4[0], sh);
            assert(p4 =~= seq![p4[0]]);
        },
        None => lemma_ups_fit_empty(sh),
    }
    assert(up_fits(p5[0], sh)) by {
        reveal_with_fuel(up_fits, 16);
    }
    lemma_ups_fit_single(p5[0], sh);
    assert(p5 =~= seq![p5[0]]);
    match fu.image_url {
        Some(u) => {
            assert(up_fits(p6[0], sh)) by {
                reveal_with_fuel(up_fits, 16);
            }
            lemma_ups_fit_single(p6[0], sh);
            assert(p6 =~= seq![p6[0]]);
        },
        None => lemma_ups_fit_empty(sh),
    }
    match fu.likes {
        Some(x) => {
            assert(up_fits(p7[0], sh)) by {
                reveal_with_fuel(up_fits, 16);
            }
            lemma_ups_fit_single(p7[0], sh);
            assert(p7 =~= seq![p7[0]]);
        },
        None => lemma_ups_fit_empty(sh),
    }
    let stamps = stamp_fields_update(user, ts);
    assert(up_fits(stamps[0], sh)) by {
        reveal_with_fuel(up_fits, 16);
    }
    assert(up_fits(stamps[1], sh)) by {
        reveal_with_fuel(up_fits, 16);
    }
    assert forall|i: int| 0 <= i < stamps.len() implies up_fits(#[trigger] stamps[i], sh) by {
        if i == 0 {
            assert(up_fits(stamps[0], sh));
        } else {
            assert(up_fits(stamps[1], sh));
        }
    }
    lemma_ups_fit_concat(p1, p2, sh);
    lemma_ups_fit_concat(p1 + p2, p3, sh);
    lemma_ups_fit_concat(p1 + p2 + p3, p4, sh);
    lemma_ups_fit_concat(p1 + p2 + p3 + p4, p5, sh);
    lemma_ups_fit_concat(p1 + p2 + p3 + p4 + p5, p6, sh);
    lemma_ups_fit_concat(p1 + p2 + p3 + p4 + p5 + p6, p7, sh);
    lemma_ups_fit_concat(p1 + p2 + p3 + p4 + p5 + p6 + p7, stamps, sh);
    assert(article_fields_of_update(fu) + stamps =~= p1 + p2 + p3 + p4 + p5 + p6 + p7 + stamps);
}

/// Every row of the article table is article-shaped.
pub open spec fn article_rows_ok(t: Seq<RowV>) -> bool {
    forall|i: int| 0 <= i < t.len() ==> shape_ok(#[trigger] t[i].fields, article_shape())
}

/// The article a shaped row denotes.
pub open spec fn article_of_row(r: RowV) -> ArticleV {
    ArticleV {
        id: r.id,
        title: text_of(r.fields[0].value),
        content: text_of(r.fields[1].value),
        category_id: int_of(r.fields[2].value) as i32,
        author_id: int_of(r.fields[3].value),
        approval_state: approval_state_of_text(text_of(r.fields[4].value)),
        approver_id: opt_int_of(r.fields[5].value),
        approval_time: opt_int_of(r.fields[6].value),
        views: int_of(r.fields[7].value) as i32,
        image_url: opt_text_of(r.fields[8].value),
        likes: int_of(r.fields[9].value) as i32,
        creator_id: int_of(r.fields[10].value),
        creation_time: int_of(r.fields[11].value),
        updater_id: int_of(r.fields[12].value),
        updated_time: int_of(r.fields[13].value),
    }
}

fn article_from_row(row: &Row) -> (a: Article)
    requires
        shape_ok(row@.fields, article_shape()),
    ensures
        a@ == article_of_row(row@),
{
    proof {
        let fs = row@.fields;
        let sh = article_shape();
        assert(fs[0].name == sh[0].0);
        assert(value_type_ok(fs[0].value, sh[0].1));
        assert(fs[1].name == sh[1].0);
        assert(value_type_ok(fs[1].value, sh[1].1));
        assert(fs[2].name == sh[2].0);
        assert(value_type_ok(fs[2].value, sh[2].1));
        assert(fs[3].name == sh[3].0);
        assert(value_type_ok(fs[3].value, sh[3].1));
        assert(fs[4].name == sh[4].0);
        assert(value_type_ok(fs[4].value, sh[4].1));
        assert(fs[5].name == sh[5].0);
        assert(value_type_ok(fs[5].value, sh[5].1));
        assert(fs[6].name == sh[6].0);
        assert(value_type_ok(fs[6].value, sh[6].1));
        assert(fs[7].name == sh[7].0);
        assert(value_type_ok(fs[7].value, sh[7].1));
        assert(fs[8].name == sh[8].0);
        assert(value_type_ok(fs[8].value, sh[8].1));
        assert(fs[9].name == sh[9].0);
        assert(value_type_ok(fs[9].value, sh[9].1));
        assert(fs[10].name == sh[10].0);
        assert(value_type_ok(fs[10].value, sh[10].1));
        assert(fs[11].name == sh[11].0);
        assert(value_type_ok(fs[11].value, sh[11].1));
        assert(fs[12].name == sh[12].0);
        assert(value_type_ok(fs[12].value, sh[12].1));
        assert(fs[13].name == sh[13].0);
        assert(value_type_ok(fs[13].value, sh[13].1));
    }
    Article {
        id: row.id,
        title: row.fields[0].value.as_text(),
        content: row.fields[1].value.as_text(),
        category_id: #[verifier::truncate] (row.fields[2].value.as_int() as i32),
        author_id: row.fields[3].value.as_int(),
        approval_state: approval_state_parse(&row.fields[4].value.as_text()),
        approver_id: row.fields[5].value.as_opt_int(),
        approval_time: row.fields[6].value.as_opt_int(),
        views: #[verifier::truncate] (row.fields[7].value.as_int() as i32),
        image_url: row.fields[8].value.as_opt_text(),
        likes: #[verifier::truncate] (row.fields[9].value.as_int() as i32),
        creator_id: row.fields[10].value.as_int(),
        creation_time: row.fields[11].value.as_int(),
        updater_id: row.fields[12].value.as_int(),
        updated_time: row.fields[13].value.as_int(),
    }
}

// endregion

// region: create and update field lists

/// The columns a create writes, in table order; absent optional inputs take
/// the store's defaults (0 for the category, counters at 0, nulls elsewhere).
pub open spec fn article_fields_of_create(fc: ArticleForCreate) -> Seq<FieldV> {
    seq![
        FieldV { name: "title"@, value: FieldValueV::Text(fc.title@) },
        FieldV { name: "content"@, value: FieldValueV::Text(fc.content@) },
        FieldV {
            name: "category_id"@,
            value: FieldValueV::Int(
                match fc.category_id {
                    Some(c) => c as i64,
                    None => 0,
                },
            ),
        },
        FieldV { name: "author_id"@, value: FieldValueV::Int(fc.author_id) },
        FieldV {
            name: "approval_state"@,
            value: FieldValueV::Text(approval_state_text(fc.approval_state)),
        },
        FieldV { name: "approver_id"@, value: FieldValueV::Null },
        FieldV { name: "approval_time"@, value: FieldValueV::Null },
        FieldV { name: "views"@, value: FieldValueV::Int(0) },
        FieldV {
            name: "image_url"@,
            value: match fc.image_url {
                Some(u) => FieldValueV::Text(u@),
                None => FieldValueV::Null,
            },
        },
        FieldV { name: "likes"@, value: FieldValueV::Int(0) },
    ]
}

/// The row a create inserts, stamps included.
pub open spec fn article_create_row(fc: ArticleForCreate, id: i64, user: i64, ts: i64) -> RowV {
    RowV { id, fields: article_fields_of_create(fc) + stamp_fields_create(user, ts) }
}

fn article_create_fields(fc: ArticleForCreate) -> (r: Vec<Field>)
    ensures
        fields_view(r@) =~= article_fields_of_create(fc),
{
    let mut v: Vec<Field> = Vec::new();
    v.push(Field::new("title", FieldValue::Text(fc.title)));
    v.push(Field::new("content", FieldValue::Text(fc.content)));
    v.push(
        Field::new(
            "category_id",
            FieldValue::Int(
                match fc.category_id {
                    Some(c) => c as i64,
                    None => 0,
                },
            ),
        ),
    );
    v.push(Field::new("author_id", FieldValue::Int(fc.author_id)));
    v.push(
        Field::new("approval_state", FieldValue::Text(approval_state_name(&fc.approval_state))),
    );
    v.push(Field::new("approver_id", FieldValue::Null));
    v.push(Field::new("approval_time", FieldValue::Null));
    v.push(Field::new("views", FieldValue::Int(0)));
    v.push(
        Field::new(
            "image_url",
            match fc.image_url {
                Some(u) => FieldValue::Text(u),
                None => FieldValue::Null,
            },
        ),
    );
    v.push(Field::new("likes", FieldValue::Int(0)));
    v
}

/// The columns an update writes: each present input field, in declaration
/// order; the approval state is always written.
pub open spec fn article_fields_of_update(fu: ArticleForUpdate) -> Seq<FieldV> {
    (match fu.title {
        Some(t) => seq![FieldV { name: "title"@, value: FieldValueV::Text(t@) }],
        None => Seq::<FieldV>::empty(),
    }) + (match fu.content {
        Some(c) => seq![FieldV { name: "content"@, value: FieldValueV::Text(c@) }],
        None => Seq::<FieldV>::empty(),
    }) + (match fu.category_id {
        Some(c) => seq![FieldV { name: "category_id"@, value: FieldValueV::Int(c as i64) }],
        None => Seq::<FieldV>::empty(),
    }) + (match fu.views {
        Some(x) => seq![FieldV { name: "views"@, value: FieldValueV::Int(x as i64) }],
        None => Seq::<FieldV>::empty(),
    }) + seq![
        FieldV {
            name: "approval_state"@,
            value: FieldValueV::Text(approval_state_text(fu.approval_state)),
        },
    ] + (match fu.image_url {
        Some(u) => seq![FieldV { name: "image_url"@, value: FieldValueV::Text(u@) }],
        None => Seq::<FieldV>::empty(),
    }) + (match fu.likes {
        Some(x) => seq![FieldV { name: "likes"@, value: FieldValueV::Int(x as i64) }],
        None => Seq::<FieldV>::empty(),
    })
}

#[verifier::rlimit(30)]
fn article_update_fields(fu: ArticleForUpdate) -> (r: Vec<Field>)
    ensures
        fields_view(r@) =~= article_fields_of_update(fu),
{
    let mut v: Vec<Field> = Vec::new();
    match fu.title {
        Some(t) => v.push(Field::new("title", FieldValue::Text(t))),
        None => (),
    }
    match fu.content {
        Some(c) => v.push(Field::new("content", FieldValue::Text(c))),
        None => (),
    }
    match fu.category_id {
        Some(c) => v.push(Field::new("category_id", FieldValue::Int(c as i64))),
        None => (),
    }
    match fu.views {
        Some(x) => v.push(Field::new("views", FieldValue::Int(x as i64))),
        None => (),
    }
    v.push(
        Field::new("approval_state", FieldValue::Text(approval_state_name(&fu.approval_state))),
    );
    match fu.image_url {
        Some(u) => v.push(Field::new("image_url", FieldValue::Text(u))),
        None => (),
    }
    match fu.likes {
        Some(x) => v.push(Field::new("likes", FieldValue::Int(x as i64))),
        None => (),
    }
    v
}

// endregion

// region: filters

/// Whether an article matches one filter group: every present member holds.
pub open spec fn article_matches(a: ArticleV, f: ArticleFilter) -> bool {
    &&& match f.id {
        Some(ops) => int64_ops_match(a.id, ops),
        None => true,
    }
    &&& match f.title {
        Some(ops) => string_ops_match(a.title, ops),
        None => true,
    }
    &&& match f.content {
        Some(ops) => string_ops_match(a.content, ops),
        None => true,
    }
    &&& match f.category_id {
        Some(ops) => int32_ops_match(a.category_id, ops),
        None => true,
    }
    &&& match f.author_id {
        Some(ops) => int64_ops_match(a.author_id, ops),
        None => true,
    }
    &&& match f.approval_state {
        Some(ops) => string_ops_match(approval_state_text(a.approval_state), ops),
        None => true,
    }
    &&& match f.approver_id {
        Some(ops) => opt_int64_ops_match(a.approver_id, ops),
        None => true,
    }
    &&& match f.approval_time {
        Some(ops) => opt_int64_ops_match(a.approval_time, ops),
        None => true,
    }
}

/// Whether an article matches some group of the disjunction.
pub open spec fn article_matches_any(a: ArticleV, fs: Seq<ArticleFilter>) -> bool {
    exists|i: int| 0 <= i < fs.len() && article_matches(a, #[trigger] fs[i])
}

/// No filters at all, or an empty group list, admits every article.
pub open spec fn article_filters_match(a: ArticleV, filters: Option<Vec<ArticleFilter>>) -> bool {
    match filters {
        Some(fs) => fs@.len() == 0 || article_matches_any(a, fs@),
        None => true,
    }
}

fn article_matches_exec(a: &Article, f: &ArticleFilter) -> (r: bool)
    ensures
        r == article_matches(a@, *f),
{
    let mut ok = true;
    match &f.id {
        Some(ops) => ok = ok && eval_int64_ops(a.id, ops),
        None => (),
    }
    match &f.title {
        Some(ops) => ok = ok && eval_string_ops(&a.title, ops),
        None => (),
    }
    match &f.content {
        Some(ops) => ok = ok && eval_string_ops(&a.content, ops),
        None => (),
    }
    match &f.category_id {
        Some(ops) => ok = ok && eval_int32_ops(a.category_id, ops),
        None => (),
    }
    match &f.author_id {
        Some(ops) => ok = ok && eval_int64_ops(a.author_id, ops),
        None => (),
    }
    match &f.approval_state {
        Some(ops) => ok = ok && eval_string_ops(&approval_state_name(&a.approval_state), ops),
        None => (),
    }
    match &f.approver_id {
        Some(ops) => ok = ok && eval_opt_int64_ops(&a.approver_id, ops),
        None => (),
    }
    match &f.approval_time {
        Some(ops) => ok = ok && eval_opt_int64_ops(&a.approval_time, ops),
        None => (),
    }
    ok
}

#[verifier::loop_isolation(false)]
fn article_filters_match_exec(a: &Article, filters: &Option<Vec<ArticleFilter>>) -> (r: bool)
    ensures
        r == article_filters_match(a@, *filters),
{
    match filters {
        None => true,
        Some(fs) => {
            let n = fs.len();
            if n == 0 {
                return true;
            }
            let mut i: usize = 0;
            while i < n
                invariant
                    i <= n,
                    forall|p: int| 0 <= p < i ==> !article_matches(a@, #[trigger] fs@[p]),
                decreases n - i,
            {
                if article_matches_exec(a, &fs[i]) {
                    return true;
                }
                i = i + 1;
            }
            false
        },
    }
}

/// The articles of the table's rows, kept in store order, that match the
/// filters.
pub open spec fn filtered_articles(t: Seq<RowV>, filters: Option<Vec<ArticleFilter>>) -> Seq<
    ArticleV,
>
    decreases t.len(),
{
    if t.len() == 0 {
        Seq::<ArticleV>::empty()
    } else {
        let rest = filtered_articles(t.drop_last(), filters);
        if article_filters_match(article_of_row(t.last()), filters) {
            rest.push(article_of_row(t.last()))
        } else {
            rest
        }
    }
}

// endregion

// region: the article model controller

/// The article table's create/get/first/list/update/delete, on the shared
/// store.
pub struct ArticleBmc;

impl ArticleBmc {
    /// Inserts a new article row: the caller's columns plus audit stamps, under
    /// a fresh id, which it returns. Fails only when the id space is exhausted.
    pub fn create(ctx: &Ctx, mm: &mut ModelManager, article_c: ArticleForCreate) -> (r: Result<
        i64,
        Error,
    >)
        requires
            old(mm).wf(),
            article_rows_ok(old(mm).article@),
        ensures
            final(mm).wf(),
            article_rows_ok(final(mm).article@),
            same_tables_except(*old(mm), *final(mm), EntityKind::Article),
            r is Ok <==> old(mm).article.next_id < i64::MAX,
            r matches Ok(id) ==> {
                &&& id == old(mm).article.next_id
                &&& final(mm).article.next_id == old(mm).article.next_id + 1
                &&& exists|ts: i64|
                    final(mm).article@ =~= old(mm).article@.push(
                        #[trigger] article_create_row(article_c, id, ctx.user_id, ts),
                    )
            },
            r is Err ==> *final(mm) == *old(mm) && r == Err::<i64, Error>(Error::Store),
    {
        let now = now_utc_ts();
        let mut fields = article_create_fields(article_c);
        prep_fields_for_create(&mut fields, ctx.user_id(), now, false, true);
        let ghost fsv = fields_view(fields@);
        let r = insert(&mut mm.article, fields);
        proof {
            assert(fsv =~= article_fields_of_create(article_c) + stamp_fields_create(
                ctx.user_id,
                now,
            ));
            if r is Ok {
                let id = old(mm).article.next_id;
                assert(article_create_row(article_c, id, ctx.user_id, now) == RowV {
                    id,
                    fields: fsv,
                });
                assert(final(mm).article@ =~= old(mm).article@.push(
                    article_create_row(article_c, id, ctx.user_id, now),
                ));
                assert(shape_ok(fsv, article_shape()));
                assert forall|i: int| 0 <= i < final(mm).article@.len() implies shape_ok(
                    #[trigger] final(mm).article@[i].fields,
                    article_shape(),
                ) by {
                    if i < old(mm).article@.len() {
                        assert(shape_ok(old(mm).article@[i].fields, article_shape()));
                    }
                }
            }
        }
        r
    }

    /// Fetches the article with the id; fails with `EntityNotFound` when the
    /// table has none.
    pub fn get(ctx: &Ctx, mm: &ModelManager, id: i64) -> (r: Result<Article, Error>)
        requires
            mm.wf(),
            article_rows_ok(mm.article@),
        ensures
            r is Ok <==> table_has_id(mm.article@, id),
            r matches Ok(a) ==> a@ == article_of_row(row_with_id(mm.article@, id)),
            r is Err ==> r == Err::<Article, Error>(
                Error::EntityNotFound { entity: EntityKind::Article, id },
            ),
    {
        match get_row(&mm.article, id) {
            Some(row) => {
                proof {
                    lemma_find_index(mm.article@, id);
                    assert(shape_ok(
                        mm.article@[find_index(mm.article@, id)].fields,
                        article_shape(),
                    ));
                }
                Ok(article_from_row(row))
            },
            None => Err(Error::EntityNotFound { entity: EntityKind::Article, id }),
        }
    }

    /// Lists the articles that match the filters (all of them when there are
    /// none), in store order, windowed by the list options.
    #[verifier::loop_isolation(false)]
    pub fn list(
        ctx: &Ctx,
        mm: &ModelManager,
        filters: Option<Vec<ArticleFilter>>,
        list_options: Option<ListOptions>,
    ) -> (r: Result<Vec<Article>, Error>)
        requires
            mm.wf(),
            article_rows_ok(mm.article@),
        ensures
            r matches Ok(v) && v.deep_view() == apply_list_options(
                filtered_articles(mm.article@, filters),
                list_options,
            ),
    {
        let t = &mm.article;
        let n = t.rows.len();
        let mut acc: Vec<Article> = Vec::new();
        let mut i: usize = 0;
        while i < n
            invariant
                i <= n,
                acc.deep_view() =~= filtered_articles(t@.subrange(0, i as int), filters),
            decreases n - i,
        {
            proof {
                assert(shape_ok(t@[i as int].fields, article_shape()));
                assert(t@.subrange(0, i as int + 1).drop_last() =~= t@.subrange(0, i as int));
                assert(t@.subrange(0, i as int + 1).last() == t@[i as int]);
            }
            let a = article_from_row(&t.rows[i]);
            if article_filters_match_exec(&a, &filters) {
                acc.push(a);
            }
            i = i + 1;
        }
        proof {
            assert(t@.subrange(0, n as int) =~= t@);
        }
        let res = paginate(acc, &list_options);
        proof {
            assert(res.deep_view() =~= apply_list_options(
                filtered_articles(mm.article@, filters),
                list_options,
            ));
        }
        Ok(res)
    }

    /// The first article of `list`, or nothing when the list is empty.
    pub fn first(
        ctx: &Ctx,
        mm: &ModelManager,
        filters: Option<Vec<ArticleFilter>>,
        list_options: Option<ListOptions>,
    ) -> (r: Result<Option<Article>, Error>)
        requires
            mm.wf(),
            article_rows_ok(mm.article@),
        ensures
            ({
                let l = apply_list_options(filtered_articles(mm.article@, filters), list_options);
                match r {
                    Ok(Some(a)) => l.len() > 0 && a@ == l[0],
                    Ok(None) => l.len() == 0,
                    Err(e) => false,
                }
            }),
    {
        let mut v = Self::list(ctx, mm, filters, list_options)?;
        let ghost l = v.deep_view();
        if v.len() > 0 {
            let a = v.remove(0);
            proof {
                assert(a.deep_view() == l[0]);
            }
            Ok(Some(a))
        } else {
            proof {
                assert(l.len() == 0);
            }
            Ok(None)
        }
    }

    /// Rewrites the present fields of the row with the id and restamps the
    /// updater columns; fails with `EntityNotFound` when the id is absent.
    pub fn update(ctx: &Ctx, mm: &mut ModelManager, id: i64, article_u: ArticleForUpdate) -> (r:
        Result<(), Error>)
        requires
            old(mm).wf(),
            article_rows_ok(old(mm).article@),
        ensures
            final(mm).wf(),
            article_rows_ok(final(mm).article@),
            same_tables_except(*old(mm), *final(mm), EntityKind::Article),
            final(mm).article.next_id == old(mm).article.next_id,
            r is Ok <==> table_has_id(old(mm).article@, id),
            r matches Ok(u) ==> exists|ts: i64|
                final(mm).article@ =~= old(mm).article@.update(
                    find_index(old(mm).article@, id),
                    RowV {
                        id,
                        fields: #[trigger] apply_fields(
                            row_with_id(old(mm).article@, id).fields,
                            article_fields_of_update(article_u) + stamp_fields_update(
                                ctx.user_id,
                                ts,
                            ),
                        ),
                    },
                ),
            r is Err ==> *final(mm) == *old(mm) && r == Err::<(), Error>(
                Error::EntityNotFound { entity: EntityKind::Article, id },
            ),
    {
        let now = now_utc_ts();
        let mut fields = article_update_fields(article_u);
        prep_fields_for_update(&mut fields, ctx.user_id(), now, true);
        let ghost fsv = fields_view(fields@);
        let r = update_row(&mut mm.article, id, fields, EntityKind::Article);
        proof {
            assert(fsv =~= article_fields_of_update(article_u) + stamp_fields_update(
                ctx.user_id,
                now,
            ));
            if r is Ok {
                lemma_find_index(old(mm).article@, id);
                let fi = find_index(old(mm).article@, id);
                assert(final(mm).article@ =~= old(mm).article@.update(
                    fi,
                    RowV {
                        id,
                        fields: apply_fields(
                            row_with_id(old(mm).article@, id).fields,
                            article_fields_of_update(article_u) + stamp_fields_update(
                                ctx.user_id,
                                now,
                            ),
                        ),
                    },
                ));
                // shape preservation
                assert(shape_ok(old(mm).article@[fi].fields, article_shape()));
                lemma_article_update_fits(article_u, ctx.user_id, now);
                assert(ups_fit_shape(fsv, article_shape()));
                lemma_apply_fields_preserves_shape(
                    old(mm).article@[fi].fields,
                    fsv,
                    article_shape(),
                );
                assert forall|i: int| 0 <= i < final(mm).article@.len() implies shape_ok(
                    #[trigger] final(mm).article@[i].fields,
                    article_shape(),
                ) by {
                    if i != fi {
                        assert(shape_ok(old(mm).article@[i].fields, article_shape()));
                    }
                }
            }
        }
        r
    }

    /// Removes the article with the id; fails with `EntityNotFound` when the
    /// id is absent.
    pub fn delete(ctx: &Ctx, mm: &mut ModelManager, id: i64) -> (r: Result<(), Error>)
        requires
            old(mm).wf(),
            article_rows_ok(old(mm).article@),
        ensures
            final(mm).wf(),
            article_rows_ok(final(mm).article@),
            same_tables_except(*old(mm), *final(mm), EntityKind::Article),
            final(mm).article.next_id == old(mm).article.next_id,
            r is Ok <==> table_has_id(old(mm).article@, id),
            r matches Ok(u) ==> final(mm).article@ =~= old(mm).article@.remove(
                find_index(old(mm).article@, id),
            ) && !table_has_id(final(mm).article@, id),
            r is Err ==> *final(mm) == *old(mm) && r == Err::<(), Error>(
                Error::EntityNotFound { entity: EntityKind::Article, id },
            ),
    {
        let r = delete_row(&mut mm.article, id, EntityKind::Article);
        proof {
            if r is Ok {
                lemma_find_index(old(mm).article@, id);
                let fi = find_index(old(mm).article@, id);
                assert forall|i: int| 0 <= i < final(mm).article@.len() implies shape_ok(
                    #[trigger] final(mm).article@[i].fields,
                    article_shape(),
                ) by {
                    if i < fi {
                        assert(final(mm).article@[i] == old(mm).article@[i]);
                        assert(shape_ok(old(mm).article@[i].fields, article_shape()));
                    } else {
                        assert(final(mm).article@[i] == old(mm).article@[i + 1]);
                        assert(shape_ok(old(mm).article@[i + 1].fields, article_shape()));
                    }
                }
            }
        }
        r
    }
}

// endregion

// region: laws

/// Law: reading back a created article yields the created input's fields; the
/// id and the audit stamps are the server-assigned values.
pub proof fn lemma_article_create_then_get(fc: ArticleForCreate, id: i64, user: i64, ts: i64)
    ensures
        ({
            let a = article_of_row(article_create_row(fc, id, user, ts));
            &&& a.id == id
            &&& a.title == fc.title@
            &&& a.content == fc.content@
            &&& (fc.category_id matches Some(c) ==> a.category_id == c)
            &&& (fc.category_id is None ==> a.category_id == 0)
            &&& a.author_id == fc.author_id
            &&& a.approval_state == fc.approval_state
            &&& a.image_url == opt_text_view(fc.image_url)
            &&& a.approver_id is None
            &&& a.approval_time is None
            &&& a.views == 0
            &&& a.likes == 0
            &&& a.creator_id == user
            &&& a.creation_time == ts
            &&& a.updater_id == user
            &&& a.updated_time == ts
        }),
{
    lemma_approval_state_roundtrip(fc.approval_state);
}

/// Law: an article is in the filtered list exactly when it is some row's
/// article and matches the filters.
pub proof fn lemma_filtered_articles_iff(
    t: Seq<RowV>,
    filters: Option<Vec<ArticleFilter>>,
    a: ArticleV,
)
    ensures
        filtered_articles(t, filters).contains(a) <==> (exists|i: int|
            0 <= i < t.len() && article_of_row(#[trigger] t[i]) == a) && article_filters_match(
            a,
            filters,
        ),
    decreases t.len(),
{
    if t.len() > 0 {
        lemma_filtered_articles_iff(t.drop_last(), filters, a);
        let rest = filtered_articles(t.drop_last(), filters);
        if article_filters_match(article_of_row(t.last()), filters) {
            assert(filtered_articles(t, filters) == rest.push(article_of_row(t.last())));
        }
        assert forall|i: int| 0 <= i < t.len() - 1 && article_of_row(#[trigger] t[i]) == a
            implies exists|j: int|
            0 <= j < t.drop_last().len() && article_of_row(#[trigger] t.drop_last()[j]) == a by {
            assert(t.drop_last()[i] == t[i]);
        }
        assert forall|i: int|
            0 <= i < t.drop_last().len() && article_of_row(#[trigger] t.drop_last()[i]) == a
            implies exists|j: int| 0 <= j < t.len() && article_of_row(#[trigger] t[j]) == a by {
            assert(t[i] == t.drop_last()[i]);
        }
        if filtered_articles(t, filters).contains(a) {
            let k = choose|k: int|
                0 <= k < filtered_articles(t, filters).len() && filtered_articles(t, filters)[k]
                    == a;
            if article_filters_match(article_of_row(t.last()), filters) {
                if k < rest.len() {
                    assert(rest.contains(a));
                } else {
                    assert(a == article_of_row(t.last()));
                    assert(article_of_row(t[t.len() - 1]) == a);
                }
            } else {
                assert(rest[k] == a);
                assert(rest.contains(a));
            }
        }
        if (exists|i: int| 0 <= i < t.len() && article_of_row(#[trigger] t[i]) == a)
            && article_filters_match(a, filters) {
            let i = choose|i: int| 0 <= i < t.len() && article_of_row(#[trigger] t[i]) == a;
            if i < t.len() - 1 {
                assert(rest.contains(a));
                let k = choose|k: int| 0 <= k < rest.len() && rest[k] == a;
                if article_filters_match(article_of_row(t.last()), filters) {
                    assert(filtered_articles(t, filters)[k] == a);
                } else {
                    assert(filtered_articles(t, filters)[k] == a);
                }
                assert(filtered_articles(t, filters).contains(a));
            } else {
                assert(article_of_row(t.last()) == a);
                let fa = filtered_articles(t, filters);
                assert(fa[fa.len() - 1] == a);
                assert(fa.contains(a));
            }
        }
    }
}

/// Law: under a single title-contains filter group, the filtered list holds
/// exactly the rows whose title contains the needle.
pub proof fn lemma_article_list_title_contains(
    t: Seq<RowV>,
    fs: Vec<ArticleFilter>,
    sub: Seq<char>,
    a: ArticleV,
)
    requires
        fs@.len() == 1,
        fs@[0].id is None,
        fs@[0].title matches Some(ops) && ops.0@.len() == 1 && (ops.0@[0] matches
            OpValString::Contains(s) && s@ == sub),
        fs@[0].content is None,
        fs@[0].category_id is None,
        fs@[0].author_id is None,
        fs@[0].approval_state is None,
        fs@[0].approver_id is None,
        fs@[0].approval_time is None,
    ensures
        filtered_articles(t, Some(fs)).contains(a) <==> (exists|i: int|
            0 <= i < t.len() && article_of_row(#[trigger] t[i]) == a) && text_contains(
            a.title,
            sub,
        ),
{
    lemma_filtered_articles_iff(t, Some(fs), a);
    let ops = fs@[0].title->Some_0;
    assert(article_filters_match(a, Some(fs)) == article_matches_any(a, fs@));
    assert(article_matches(a, fs@[0]) == string_ops_match(a.title, ops));
    assert(string_op_matches(a.title, ops.0@[0]) == text_contains(a.title, sub));
    if article_matches(a, fs@[0]) {
        assert(article_matches_any(a, fs@));
    }
    if article_matches_any(a, fs@) {
        let i = choose|i: int| 0 <= i < fs@.len() && article_matches(a, #[trigger] fs@[i]);
        assert(i == 0);
    }
    if string_ops_match(a.title, ops) {
        assert(string_op_matches(a.title, ops.0@[0]));
    }
    if text_contains(a.title, sub) {
        assert forall|i: int| 0 <= i < ops.0@.len() implies string_op_matches(
            a.title,
            #[trigger] ops.0@[i],
        ) by {
            assert(i == 0);
        }
    }
}

// endregion

} // verus!
