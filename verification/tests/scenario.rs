use cms_core::ctx::Ctx;
use cms_core::dev_utils::article_seed::seed_articles;
use cms_core::dev_utils::init_test;
use cms_core::error::{EntityKind, Error};
use cms_core::model::article::{
    ApprovalState, ArticleBmc, ArticleFilter, ArticleForCreate, ArticleForUpdate,
};
use cms_core::model::category::{CategoryBmc, CategoryForCreate};
use cms_core::model::comment::{CommentBmc, CommentFilter, CommentForCreate};
use cms_core::model::filter::{
    ListOptions, OpValInt64, OpValString, OpValsInt64, OpValsString,
};

/// The full article lifecycle: create, read the same fields back, delete,
/// and see the id gone.
#[test]
fn article_lifecycle_scenario() {
    let mut mm = init_test();
    let ctx = Ctx::root_ctx();

    let article_c = ArticleForCreate {
        title: "T".to_string(),
        content: "C".to_string(),
        category_id: Some(1),
        author_id: 1,
        approval_state: ApprovalState::Draft,
        image_url: None,
    };
    let id = ArticleBmc::create(&ctx, &mut mm, article_c).unwrap();

    let article = ArticleBmc::get(&ctx, &mm, id).unwrap();
    assert_eq!(article.id, id);
    assert_eq!(article.title, "T");
    assert_eq!(article.content, "C");
    assert_eq!(article.category_id, 1);
    assert_eq!(article.author_id, 1);
    assert_eq!(article.approval_state, ApprovalState::Draft);
    assert_eq!(article.image_url, None);
    assert_eq!(article.creator_id, 0);
    assert_eq!(article.updater_id, 0);
    assert_eq!(article.creation_time, article.updated_time);

    ArticleBmc::delete(&ctx, &mut mm, id).unwrap();
    let res = ArticleBmc::get(&ctx, &mm, id);
    assert_eq!(
        res.unwrap_err(),
        Error::EntityNotFound { entity: EntityKind::Article, id }
    );
}

/// A partial update rewrites only the present fields.
#[test]
fn partial_update_leaves_other_fields() {
    let mut mm = init_test();
    let ctx = Ctx::root_ctx();

    let id = ArticleBmc::create(
        &ctx,
        &mut mm,
        ArticleForCreate {
            title: "before".to_string(),
            content: "kept content".to_string(),
            category_id: Some(7),
            author_id: 42,
            approval_state: ApprovalState::Approved,
            image_url: Some("https://example.com/kept.jpg".to_string()),
        },
    )
    .unwrap();

    ArticleBmc::update(
        &ctx,
        &mut mm,
        id,
        ArticleForUpdate {
            title: Some("after".to_string()),
            approval_state: ApprovalState::Approved,
            ..Default::default()
        },
    )
    .unwrap();

    let article = ArticleBmc::get(&ctx, &mm, id).unwrap();
    assert_eq!(article.title, "after");
    assert_eq!(article.content, "kept content");
    assert_eq!(article.category_id, 7);
    assert_eq!(article.author_id, 42);
    assert_eq!(article.approval_state, ApprovalState::Approved);
    assert_eq!(article.image_url, Some("https://example.com/kept.jpg".to_string()));
}

/// A contains filter returns exactly the matching rows, and no others.
#[test]
fn contains_filter_exact_rows() {
    let mut mm = init_test();
    let ctx = Ctx::root_ctx();

    let data: &[(&str, &str, Option<i32>, i64, ApprovalState, Option<String>)] = &[
        ("alpha needle one", "c", None, 1, ApprovalState::Draft, None),
        ("beta other", "c", None, 1, ApprovalState::Draft, None),
        ("gamma needle two", "c", None, 1, ApprovalState::Draft, None),
    ];
    seed_articles(&ctx, &mut mm, data).unwrap();

    let filter = ArticleFilter {
        title: Some(OpValsString(vec![OpValString::Contains("needle".to_string())])),
        ..Default::default()
    };
    let articles = ArticleBmc::list(&ctx, &mm, Some(vec![filter]), None).unwrap();
    let titles: Vec<&String> = articles.iter().map(|a| &a.title).collect();
    assert_eq!(titles, vec!["alpha needle one", "gamma needle two"]);
}

/// Limit and offset window the filtered result.
#[test]
fn list_options_window() {
    let mut mm = init_test();
    let ctx = Ctx::root_ctx();

    for name in ["c1", "c2", "c3", "c4", "c5"] {
        CategoryBmc::create(
            &ctx,
            &mut mm,
            CategoryForCreate {
                name: name.to_string(),
                description: None,
                parent_id: None,
                is_featured: false,
            },
        )
        .unwrap();
    }

    let opts = ListOptions { limit: Some(2), offset: Some(1) };
    let page = CategoryBmc::list(&ctx, &mm, None, Some(opts)).unwrap();
    let names: Vec<&String> = page.iter().map(|c| &c.name).collect();
    assert_eq!(names, vec!["c2", "c3"]);
}

/// Comparison and disjunction operators over comment rows.
#[test]
fn comparison_and_disjunction_filters() {
    let mut mm = init_test();
    let ctx = Ctx::root_ctx();

    for (user_id, content) in [(10, "aa"), (20, "bb"), (30, "cc")] {
        CommentBmc::create(
            &ctx,
            &mut mm,
            CommentForCreate {
                article_id: 1,
                user_id,
                content: content.to_string(),
                replay_to: None,
            },
        )
        .unwrap();
    }

    // one group: user_id >= 20 and content != "cc"
    let group = CommentFilter {
        user_id: Some(OpValsInt64(vec![OpValInt64::Gte(20)])),
        content: Some(OpValsString(vec![OpValString::Not("cc".to_string())])),
        ..Default::default()
    };
    let hits = CommentBmc::list(&ctx, &mm, Some(vec![group]), None).unwrap();
    assert_eq!(hits.len(), 1);
    assert_eq!(hits[0].content, "bb");

    // two groups: user_id == 10 or user_id == 30
    let g1 = CommentFilter {
        user_id: Some(OpValsInt64(vec![OpValInt64::Eq(10)])),
        ..Default::default()
    };
    let g2 = CommentFilter {
        user_id: Some(OpValsInt64(vec![OpValInt64::Eq(30)])),
        ..Default::default()
    };
    let hits = CommentBmc::list(&ctx, &mm, Some(vec![g1, g2]), None).unwrap();
    let users: Vec<i64> = hits.iter().map(|c| c.user_id).collect();
    assert_eq!(users, vec![10, 30]);
}

/// Ids are assigned in order, from 1 upward, per table.
#[test]
fn ids_are_sequential_per_table() {
    let mut mm = init_test();
    let ctx = Ctx::root_ctx();

    let c1 = CategoryBmc::create(
        &ctx,
        &mut mm,
        CategoryForCreate {
            name: "first".to_string(),
            description: None,
            parent_id: None,
            is_featured: false,
        },
    )
    .unwrap();
    let c2 = CategoryBmc::create(
        &ctx,
        &mut mm,
        CategoryForCreate {
            name: "second".to_string(),
            description: None,
            parent_id: None,
            is_featured: true,
        },
    )
    .unwrap();
    assert_eq!(c1, 1);
    assert_eq!(c2, 2);

    // another table starts over at 1
    let a1 = ArticleBmc::create(
        &ctx,
        &mut mm,
        ArticleForCreate {
            title: "t".to_string(),
            content: "c".to_string(),
            category_id: Some(1),
            author_id: 1,
            approval_state: ApprovalState::Draft,
            image_url: None,
        },
    )
    .unwrap();
    assert_eq!(a1, 1);
}

/// Update and delete of an absent id fail with EntityNotFound.
#[test]
fn absent_id_fails_with_entity_not_found() {
    let mut mm = init_test();
    let ctx = Ctx::root_ctx();

    let res = ArticleBmc::update(
        &ctx,
        &mut mm,
        99,
        ArticleForUpdate { ..Default::default() },
    );
    assert_eq!(
        res.unwrap_err(),
        Error::EntityNotFound { entity: EntityKind::Article, id: 99 }
    );

    let res = ArticleBmc::delete(&ctx, &mut mm, 99);
    assert_eq!(
        res.unwrap_err(),
        Error::EntityNotFound { entity: EntityKind::Article, id: 99 }
    );
}

/// The audit stamps carry the caller's user id.
#[test]
fn audit_stamps_carry_caller_id() {
    let mut mm = init_test();
    let creator = Ctx::new(77);
    let updater = Ctx::new(88);

    let id = CategoryBmc::create(
        &creator,
        &mut mm,
        CategoryForCreate {
            name: "stamped".to_string(),
            description: None,
            parent_id: None,
            is_featured: false,
        },
    )
    .unwrap();

    let category = CategoryBmc::get(&creator, &mm, id).unwrap();
    assert_eq!(category.creator_id, 77);
    assert_eq!(category.updater_id, 77);

    CategoryBmc::update(
        &updater,
        &mut mm,
        id,
        cms_core::model::category::CategoryForUpdate {
            name: "stamped".to_string(),
            description: None,
            parent_id: None,
            is_featured: true,
        },
    )
    .unwrap();
    let category = CategoryBmc::get(&creator, &mm, id).unwrap();
    assert_eq!(category.creator_id, 77);
    assert_eq!(category.updater_id, 88);
}

/// `first` returns nothing when no row matches.
#[test]
fn first_returns_none_when_nothing_matches() {
    let mut mm = init_test();
    let ctx = Ctx::root_ctx();

    seed_articles(
        &ctx,
        &mut mm,
        &[("solo", "c", None, 1, ApprovalState::Draft, None)],
    )
    .unwrap();

    let filter = ArticleFilter {
        title: Some(OpValsString(vec![OpValString::Contains("absent".to_string())])),
        ..Default::default()
    };
    let first = ArticleBmc::first(&ctx, &mm, Some(vec![filter]), None).unwrap();
    assert!(first.is_none());
}

/// Degenerate windows: a negative limit yields nothing, an offset past the
/// end yields nothing, and a missing bound yields everything.
#[test]
fn list_options_degenerate_windows() {
    let mut mm = init_test();
    let ctx = Ctx::root_ctx();

    for name in ["w1", "w2"] {
        CategoryBmc::create(
            &ctx,
            &mut mm,
            CategoryForCreate {
                name: name.to_string(),
                description: None,
                parent_id: None,
                is_featured: false,
            },
        )
        .unwrap();
    }

    let page = CategoryBmc::list(
        &ctx,
        &mm,
        None,
        Some(ListOptions { limit: Some(-1), offset: None }),
    )
    .unwrap();
    assert_eq!(page.len(), 0);

    let page = CategoryBmc::list(
        &ctx,
        &mm,
        None,
        Some(ListOptions { limit: None, offset: Some(10) }),
    )
    .unwrap();
    assert_eq!(page.len(), 0);

    let page = CategoryBmc::list(
        &ctx,
        &mm,
        None,
        Some(ListOptions { limit: None, offset: None }),
    )
    .unwrap();
    assert_eq!(page.len(), 2);
}
