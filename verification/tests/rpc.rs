use cms_core::ctx::Ctx;
use cms_core::dev_utils::init_test;
use cms_core::error::{EntityKind, Error};
use cms_core::rpcs::value::Value;
use cms_core::rpcs::{all_rpc_router, article_rpc, dispatch};

fn s(text: &str) -> String {
    text.to_string()
}

fn obj(entries: Vec<(&str, Value)>) -> Value {
    Value::Obj(entries.into_iter().map(|(k, v)| (s(k), v)).collect())
}

fn member<'a>(v: &'a Value, key: &str) -> &'a Value {
    match v {
        Value::Obj(es) => {
            for (k, x) in es.iter().rev() {
                if k == key {
                    return x;
                }
            }
            panic!("missing member {key}");
        }
        _ => panic!("not an object"),
    }
}

fn as_int(v: &Value) -> i64 {
    match v {
        Value::Int(x) => *x,
        _ => panic!("not a number"),
    }
}

fn as_text(v: &Value) -> &str {
    match v {
        Value::Str(x) => x,
        _ => panic!("not a string"),
    }
}

#[test]
fn rpc_article_lifecycle() {
    let mut mm = init_test();
    let ctx = Ctx::root_ctx();

    // create_article with the documented params shape
    let params = obj(vec![(
        "data",
        obj(vec![
            ("title", Value::Str(s("test_create_ok article 01"))),
            (
                "content",
                Value::Str(s("Lorem ipsum dolor sit amet, consectetur adipiscing elit.")),
            ),
            ("category_id", Value::Int(1001)),
            ("author_id", Value::Int(1000)),
            ("approval_state", Value::Str(s("Draft"))),
            ("image_url", Value::Str(s("https://example.com/image.jpg"))),
        ]),
    )]);
    let created = dispatch(&ctx, &mut mm, "create_article", &params).unwrap();
    let id = as_int(member(member(&created, "data"), "id"));

    // get_article returns the row
    let got = dispatch(&ctx, &mut mm, "get_article", &obj(vec![("id", Value::Int(id))])).unwrap();
    let data = member(&got, "data");
    assert_eq!(as_text(member(data, "title")), "test_create_ok article 01");
    assert_eq!(as_int(member(data, "author_id")), 1000);
    assert_eq!(as_int(member(data, "category_id")), 1001);
    assert_eq!(as_text(member(data, "approval_state")), "Draft");

    // update_article rewrites the present fields
    let up = obj(vec![
        ("id", Value::Int(id)),
        (
            "data",
            obj(vec![
                ("title", Value::Str(s("updated title"))),
                ("approval_state", Value::Str(s("Approved"))),
            ]),
        ),
    ]);
    let updated = dispatch(&ctx, &mut mm, "update_article", &up).unwrap();
    let data = member(&updated, "data");
    assert_eq!(as_text(member(data, "title")), "updated title");
    assert_eq!(as_text(member(data, "approval_state")), "Approved");
    assert_eq!(
        as_text(member(data, "content")),
        "Lorem ipsum dolor sit amet, consectetur adipiscing elit."
    );

    // delete_article removes the row; a second get fails
    dispatch(&ctx, &mut mm, "delete_article", &obj(vec![("id", Value::Int(id))])).unwrap();
    let res = dispatch(&ctx, &mut mm, "get_article", &obj(vec![("id", Value::Int(id))]));
    assert_eq!(
        res.unwrap_err(),
        Error::EntityNotFound { entity: EntityKind::Article, id }
    );
}

#[test]
fn rpc_unknown_method() {
    let mut mm = init_test();
    let ctx = Ctx::root_ctx();
    let res = dispatch(&ctx, &mut mm, "no_such_method", &obj(vec![]));
    assert_eq!(res.unwrap_err(), Error::MethodNotFound);
}

#[test]
fn rpc_invalid_params() {
    let mut mm = init_test();
    let ctx = Ctx::root_ctx();

    // a create without its data member
    let res = dispatch(&ctx, &mut mm, "create_article", &obj(vec![]));
    assert_eq!(res.unwrap_err(), Error::InvalidParams);

    // a title of the wrong shape
    let params = obj(vec![(
        "data",
        obj(vec![
            ("title", Value::Int(42)),
            ("content", Value::Str(s("c"))),
            ("author_id", Value::Int(1)),
            ("approval_state", Value::Str(s("Draft"))),
        ]),
    )]);
    let res = dispatch(&ctx, &mut mm, "create_article", &params);
    assert_eq!(res.unwrap_err(), Error::InvalidParams);

    // an unknown approval state
    let params = obj(vec![(
        "data",
        obj(vec![
            ("title", Value::Str(s("t"))),
            ("content", Value::Str(s("c"))),
            ("author_id", Value::Int(1)),
            ("approval_state", Value::Str(s("NotAState"))),
        ]),
    )]);
    let res = dispatch(&ctx, &mut mm, "create_article", &params);
    assert_eq!(res.unwrap_err(), Error::InvalidParams);

    // a get without an id
    let res = dispatch(&ctx, &mut mm, "get_article", &obj(vec![]));
    assert_eq!(res.unwrap_err(), Error::InvalidParams);
}

#[test]
fn rpc_list_with_contains_filter() {
    let mut mm = init_test();
    let ctx = Ctx::root_ctx();

    for title in ["needle one", "other", "needle two"] {
        let params = obj(vec![(
            "data",
            obj(vec![
                ("title", Value::Str(s(title))),
                ("content", Value::Str(s("c"))),
                ("author_id", Value::Int(1)),
                ("approval_state", Value::Str(s("Draft"))),
            ]),
        )]);
        dispatch(&ctx, &mut mm, "create_article", &params).unwrap();
    }

    let params = obj(vec![(
        "filters",
        Value::Arr(vec![obj(vec![(
            "title",
            obj(vec![("$contains", Value::Str(s("needle")))]),
        )])]),
    )]);
    let listed = dispatch(&ctx, &mut mm, "list_articles", &params).unwrap();
    match member(&listed, "data") {
        Value::Arr(vs) => {
            assert_eq!(vs.len(), 2);
            assert_eq!(as_text(member(&vs[0], "title")), "needle one");
            assert_eq!(as_text(member(&vs[1], "title")), "needle two");
        }
        _ => panic!("data should be an array"),
    }

    // a window over the unfiltered list
    let params = obj(vec![(
        "list_options",
        obj(vec![("limit", Value::Int(1)), ("offset", Value::Int(1))]),
    )]);
    let listed = dispatch(&ctx, &mut mm, "list_articles", &params).unwrap();
    match member(&listed, "data") {
        Value::Arr(vs) => {
            assert_eq!(vs.len(), 1);
            assert_eq!(as_text(member(&vs[0], "title")), "other");
        }
        _ => panic!("data should be an array"),
    }
}

#[test]
fn rpc_other_entities_round_trip() {
    let mut mm = init_test();
    let ctx = Ctx::root_ctx();

    // author
    let params = obj(vec![(
        "data",
        obj(vec![
            ("user_id", Value::Int(7)),
            ("author_type", Value::Str(s("Editor"))),
            ("pen_name", Value::Str(s("quill"))),
        ]),
    )]);
    let created = dispatch(&ctx, &mut mm, "create_author", &params).unwrap();
    let id = as_int(member(member(&created, "data"), "id"));
    let got = dispatch(&ctx, &mut mm, "get_author", &obj(vec![("id", Value::Int(id))])).unwrap();
    assert_eq!(as_text(member(member(&got, "data"), "pen_name")), "quill");
    assert_eq!(as_text(member(member(&got, "data"), "author_type")), "Editor");

    // category
    let params = obj(vec![(
        "data",
        obj(vec![
            ("name", Value::Str(s("news"))),
            ("is_featured", Value::Bool(true)),
        ]),
    )]);
    let created = dispatch(&ctx, &mut mm, "create_category", &params).unwrap();
    let id = as_int(member(member(&created, "data"), "id"));
    let got = dispatch(&ctx, &mut mm, "get_category", &obj(vec![("id", Value::Int(id))])).unwrap();
    assert_eq!(as_text(member(member(&got, "data"), "name")), "news");

    // comment
    let params = obj(vec![(
        "data",
        obj(vec![
            ("article_id", Value::Int(1)),
            ("user_id", Value::Int(9)),
            ("content", Value::Str(s("nice"))),
        ]),
    )]);
    let created = dispatch(&ctx, &mut mm, "create_comment", &params).unwrap();
    let id = as_int(member(member(&created, "data"), "id"));
    let got = dispatch(&ctx, &mut mm, "get_comment", &obj(vec![("id", Value::Int(id))])).unwrap();
    assert_eq!(as_text(member(member(&got, "data"), "content")), "nice");

    // subscription
    let params = obj(vec![(
        "data",
        obj(vec![
            ("subscriber", Value::Int(5)),
            ("author_id", Value::Int(6)),
        ]),
    )]);
    let created = dispatch(&ctx, &mut mm, "create_subscription", &params).unwrap();
    let id = as_int(member(member(&created, "data"), "id"));
    let got =
        dispatch(&ctx, &mut mm, "get_subscription", &obj(vec![("id", Value::Int(id))])).unwrap();
    assert_eq!(as_int(member(member(&got, "data"), "subscriber")), 5);

    // article view
    let params = obj(vec![(
        "data",
        obj(vec![
            ("article_id", Value::Int(1)),
            ("viewer_id", Value::Int(2)),
            ("view_count", Value::Int(3)),
        ]),
    )]);
    let created = dispatch(&ctx, &mut mm, "create_article_view", &params).unwrap();
    let id = as_int(member(member(&created, "data"), "id"));
    let got =
        dispatch(&ctx, &mut mm, "get_article_view", &obj(vec![("id", Value::Int(id))])).unwrap();
    assert_eq!(as_int(member(member(&got, "data"), "view_count")), 3);
}

#[test]
fn routers_register_all_methods() {
    let all = all_rpc_router();
    assert_eq!(all.methods.len(), 30);
    assert!(all.methods.iter().any(|m| m == "create_article"));
    assert!(all.methods.iter().any(|m| m == "list_categorys"));
    assert!(all.methods.iter().any(|m| m == "update_author"));
    assert!(all.methods.iter().any(|m| m == "delete_subscription"));

    let article = article_rpc::rpc_router();
    assert_eq!(
        article.methods,
        vec![
            "create_article",
            "get_article",
            "list_articles",
            "update_article",
            "delete_article",
        ]
    );
}
