use cms_core::ctx::Ctx;
use cms_core::dev_utils::article_view_seed::clean_article_views;
use cms_core::dev_utils::init_test;
use cms_core::model::article_view::{ArticleViewBmc, ArticleViewForCreate, ArticleViewForUpdate};

#[test]
fn test_create_article_view_ok() {
    // -- Setup & Fixtures
    let mut mm = init_test();
    let ctx = Ctx::root_ctx();

    let article_id = 1;
    let viewer_id = 123;
    let view_count = 10;
    let likes = true;
    let dislikes = false;
    let share = true;

    // -- Exec
    let article_view_c = ArticleViewForCreate {
        article_id,
        viewer_id,
        view_count: Some(view_count),
        likes: Some(likes),
        dislikes: Some(dislikes),
        share: Some(share),
    };
    let article_view_id = ArticleViewBmc::create(&ctx, &mut mm, article_view_c).unwrap();

    // -- Check
    let article_view = ArticleViewBmc::get(&ctx, &mm, article_view_id).unwrap();
    assert_eq!(article_view.article_id, article_id);
    assert_eq!(article_view.viewer_id, viewer_id);
    assert_eq!(article_view.view_count, view_count);
    assert_eq!(article_view.likes, likes);
    assert_eq!(article_view.dislikes, dislikes);
    assert_eq!(article_view.share, share);

    // -- Clean
    let count = clean_article_views(&ctx, &mut mm).unwrap();
    assert_eq!(count, 1, "Should have cleaned only 1 article view");
}

#[test]
fn test_update_article_view_ok() {
    // -- Setup & Fixtures
    let mut mm = init_test();
    let ctx = Ctx::root_ctx();

    let article_id = 1;
    let viewer_id = 123;
    let view_count = 10;
    let likes = true;
    let dislikes = false;
    let share = true;

    // Create an initial article view
    let article_view_c = ArticleViewForCreate {
        article_id,
        viewer_id,
        view_count: Some(view_count),
        likes: Some(likes),
        dislikes: Some(dislikes),
        share: Some(share),
    };
    let article_view_id = ArticleViewBmc::create(&ctx, &mut mm, article_view_c).unwrap();

    // Updated data
    let updated_view_count = 20;
    let updated_likes = false;
    let updated_dislikes = true;
    let updated_share = false;

    // -- Exec
    let article_view_u = ArticleViewForUpdate {
        view_count: Some(updated_view_count),
        likes: Some(updated_likes),
        dislikes: Some(updated_dislikes),
        share: Some(updated_share),
    };
    ArticleViewBmc::update(&ctx, &mut mm, article_view_id, article_view_u).unwrap();

    // -- Check
    let article_view = ArticleViewBmc::get(&ctx, &mm, article_view_id).unwrap();
    assert_eq!(article_view.view_count, updated_view_count);
    assert_eq!(article_view.likes, updated_likes);
    assert_eq!(article_view.dislikes, updated_dislikes);
    assert_eq!(article_view.share, updated_share);
}

#[test]
fn test_article_view_update_ok() {
    // -- Setup & Fixtures
    let mut mm = init_test();
    let ctx = Ctx::root_ctx();

    // Create an initial article view
    let article_id = 1;
    let viewer_id = 123;
    let view_count = 10;
    let likes = true;
    let dislikes = false;
    let share = true;

    let article_view_c = ArticleViewForCreate {
        article_id,
        viewer_id,
        view_count: Some(view_count),
        likes: Some(likes),
        dislikes: Some(dislikes),
        share: Some(share),
    };
    let article_view_id = ArticleViewBmc::create(&ctx, &mut mm, article_view_c).unwrap();

    // -- Exec: Update the article view
    let updated_view_count = 15;
    let updated_likes = false;

    let article_view_u = ArticleViewForUpdate {
        view_count: Some(updated_view_count),
        likes: Some(updated_likes),
        ..Default::default()
    };

    ArticleViewBmc::update(&ctx, &mut mm, article_view_id, article_view_u).unwrap();

    // -- Check: Retrieve the updated article view
    let updated_article_view = ArticleViewBmc::get(&ctx, &mm, article_view_id).unwrap();
    assert_eq!(updated_article_view.view_count, updated_view_count);
    assert_eq!(updated_article_view.likes, updated_likes);

    // -- Clean
    let count = clean_article_views(&ctx, &mut mm).unwrap();
    assert_eq!(count, 1, "Should have cleaned only 1 article view");
}
