use cms_core::ctx::Ctx;
use cms_core::dev_utils::article_seed::{clean_articles, seed_article};
use cms_core::dev_utils::init_test;
use cms_core::error::Error;
use cms_core::model::article::{
    ApprovalState, ArticleBmc, ArticleFilter, ArticleForCreate, ArticleForUpdate,
};
use cms_core::model::filter::{OpValString, OpValsString};

#[test]
fn article_test_create_ok() {
    // -- Setup & Fixtures
    let mut mm = init_test();
    let ctx = Ctx::root_ctx();
    let fx_title = "test_create_ok article 01";
    let fx_content = "Lorem ipsum dolor sit amet, consectetur adipiscing elit.";
    let fx_author_id = 1000;
    let fx_category_id = Some(1001);
    let fx_approval_state = ApprovalState::Draft;
    let fx_image_url = Some("https://example.com/image.jpg".to_string());

    // -- Exec
    let fx_article_c = ArticleForCreate {
        title: fx_title.to_string(),
        content: fx_content.to_string(),
        category_id: fx_category_id,
        author_id: fx_author_id,
        approval_state: fx_approval_state.clone(),
        image_url: fx_image_url.clone(),
    };
    let article_id = ArticleBmc::create(&ctx, &mut mm, fx_article_c).unwrap();

    // -- Check
    let article = ArticleBmc::get(&ctx, &mm, article_id).unwrap();
    assert_eq!(article.title, fx_title);
    assert_eq!(article.content, fx_content);
    assert_eq!(article.category_id, fx_category_id.unwrap());
    assert_eq!(article.author_id, fx_author_id);
    assert_eq!(article.approval_state, fx_approval_state);
    assert_eq!(article.image_url, fx_image_url);

    // -- Clean
    let count = clean_articles(&ctx, &mut mm, "test_create_ok").unwrap();
    assert_eq!(count, 1, "Should have cleaned only 1 article");
}

#[test]
fn article_test_update_ok() {
    // -- Setup & Fixtures
    let mut mm = init_test();
    let ctx = Ctx::root_ctx();

    let fx_title = "test_update_ok article 01";
    let fx_content = "Lorem ipsum dolor sit amet, consectetur adipiscing elit.";
    let fx_author_id = 1000;
    let fx_approval_state = ApprovalState::Draft;
    let fx_image_url = Some("https://example.com/image.jpg".to_string());

    let fx_article_id = seed_article(
        &ctx,
        &mut mm,
        fx_title,
        fx_content,
        None,
        fx_author_id,
        fx_approval_state,
        fx_image_url,
    )
    .unwrap();

    let fx_title_updated = "test_update_ok article 01 - updated";
    let fx_content_updated = "Updated content.";
    let fx_image_url_updated = Some("https://example.com/updated_image.jpg".to_string());

    // -- Exec
    let fx_article_u = ArticleForUpdate {
        title: Some(fx_title_updated.to_string()),
        content: Some(fx_content_updated.to_string()),
        image_url: Some(fx_image_url_updated.clone().unwrap().to_string()),
        ..Default::default()
    };
    ArticleBmc::update(&ctx, &mut mm, fx_article_id, fx_article_u).unwrap();

    // -- Check
    let article = ArticleBmc::get(&ctx, &mm, fx_article_id).unwrap();
    assert_eq!(article.title, fx_title_updated);
    assert_eq!(article.content, fx_content_updated);
    assert_eq!(article.image_url, fx_image_url_updated);

    // -- Clean
    let count = clean_articles(&ctx, &mut mm, "test_update_ok").unwrap();
    assert_eq!(count, 1, "Should have cleaned only 1 article");
}

#[test]
fn test_delete_ok() {
    // -- Setup & Fixtures
    let mut mm = init_test();
    let ctx = Ctx::root_ctx();

    let fx_title = "test_delete_ok article 01";
    let fx_content = "Lorem ipsum dolor sit amet, consectetur adipiscing elit.";
    let fx_category_id = Some(1001);
    let fx_author_id = 1002;
    let fx_approval_state = ApprovalState::Draft;
    let fx_image_url = Some("https://example.com/image.jpg".to_string());

    let fx_article_id = seed_article(
        &ctx,
        &mut mm,
        fx_title,
        fx_content,
        fx_category_id,
        fx_author_id,
        fx_approval_state,
        fx_image_url,
    )
    .unwrap();

    // -- Exec
    // Check it's there
    ArticleBmc::get(&ctx, &mm, fx_article_id).unwrap();
    // Delete
    ArticleBmc::delete(&ctx, &mut mm, fx_article_id).unwrap();

    // -- Check
    let res = ArticleBmc::get(&ctx, &mm, fx_article_id);
    assert!(
        matches!(&res, Err(Error::EntityNotFound { .. })),
        "Should return EntityNotFound"
    );
}

#[test]
fn test_first_ok() {
    // -- Setup & Fixtures
    let mut mm = init_test();
    let ctx = Ctx::root_ctx();

    let fx_titles = &["test_first_ok article 01", "test_first_ok article 02"];
    let fx_content = "Lorem ipsum dolor sit amet, consectetur adipiscing elit.";
    let fx_category_id = Some(123);
    let fx_author_id = 456;
    let fx_approval_state = ApprovalState::Draft;
    let fx_image_url = Some("https://example.com/image.jpg".to_string());

    for title in fx_titles {
        seed_article(
            &ctx,
            &mut mm,
            title,
            fx_content,
            fx_category_id,
            fx_author_id,
            fx_approval_state,
            fx_image_url.clone(),
        )
        .unwrap();
    }

    // -- Exec
    let article_filter = ArticleFilter {
        title: Some(OpValsString(vec![OpValString::StartsWith(
            "test_first_ok article".to_string(),
        )])),
        ..Default::default()
    };
    let article = ArticleBmc::first(&ctx, &mm, Some(vec![article_filter]), None).unwrap();

    // -- Check
    let article = article.expect("No Article Returned (should have returned one");
    assert_eq!(article.title, fx_titles[0]);

    // -- Clean
    let count = clean_articles(&ctx, &mut mm, "test_first_ok article").unwrap();
    assert_eq!(count, 2, "Should have cleaned 2 articles");
}

#[test]
fn test_list_ok() {
    // -- Setup & Fixtures
    let mut mm = init_test();
    let ctx = Ctx::root_ctx();

    let fx_titles = &[
        "test_list_ok article 01",
        "test_list_ok article 02",
        "test_list_ok article 03",
    ];
    let fx_content = "Lorem ipsum dolor sit amet, consectetur adipiscing elit.";
    let fx_category_id = Some(123);
    let fx_author_id = 456;
    let fx_approval_state = ApprovalState::Draft;
    let fx_image_url = Some("https://example.com/image.jpg".to_string());

    for title in fx_titles {
        seed_article(
            &ctx,
            &mut mm,
            title,
            fx_content,
            fx_category_id,
            fx_author_id,
            fx_approval_state,
            fx_image_url.clone(),
        )
        .unwrap();
    }

    // -- Exec
    let article_filter = ArticleFilter {
        title: Some(OpValsString(vec![OpValString::Contains(
            "test_list_ok article".to_string(),
        )])),
        ..Default::default()
    };
    let articles = ArticleBmc::list(&ctx, &mm, Some(vec![article_filter]), None).unwrap();

    // -- Check
    assert_eq!(articles.len(), 3);
    let titles = articles.iter().map(|a| &a.title).collect::<Vec<_>>();
    assert_eq!(titles, fx_titles);

    // -- Clean
    let count = clean_articles(&ctx, &mut mm, "test_list_ok article").unwrap();
    assert_eq!(count, 3, "Should have cleaned 3 articles");
}
