use cms_core::ctx::Ctx;
use cms_core::dev_utils::comment_seed::{clean_comments, seed_comment};
use cms_core::dev_utils::init_test;
use cms_core::model::comment::{CommentBmc, CommentForCreate, CommentForUpdate};

#[test]
fn comment_test_create_ok() {
    // -- Setup & Fixtures
    let mut mm = init_test();
    let ctx = Ctx::root_ctx();
    let fx_article_id = 1;
    let fx_user_id = 1000;
    let fx_content = "Lorem ipsum dolor sit amet, consectetur adipiscing elit.";
    let fx_replay_to = None;

    // -- Exec
    let fx_comment_c = CommentForCreate {
        article_id: fx_article_id,
        user_id: fx_user_id,
        content: fx_content.to_string(),
        replay_to: fx_replay_to,
    };
    let comment_id = CommentBmc::create(&ctx, &mut mm, fx_comment_c).unwrap();

    // -- Check
    let comment = CommentBmc::get(&ctx, &mm, comment_id).unwrap();
    assert_eq!(comment.article_id, fx_article_id);
    assert_eq!(comment.user_id, fx_user_id);
    assert_eq!(comment.content, fx_content);
    assert_eq!(comment.replay_to, fx_replay_to);

    // -- Clean
    let count = clean_comments(&ctx, &mut mm, "Lorem ipsum").unwrap();
    assert_eq!(count, 1, "Should have cleaned only 1 comment");
}

#[test]
fn comment_test_update_ok() {
    // -- Setup & Fixtures
    let mut mm = init_test();
    let ctx = Ctx::root_ctx();
    let fx_article_id = 1;
    let fx_user_id = 1000;
    let fx_content = "Lorem ipsum dolor sit amet, consectetur adipiscing elit.";
    let fx_replay_to = None;

    let fx_comment_id = seed_comment(
        &ctx,
        &mut mm,
        fx_article_id,
        fx_user_id,
        fx_content,
        fx_replay_to,
    )
    .unwrap();

    let fx_content_updated = "Updated content.";

    // -- Exec
    let fx_comment_u = CommentForUpdate {
        content: Some(fx_content_updated.to_string()),
    };
    CommentBmc::update(&ctx, &mut mm, fx_comment_id, fx_comment_u).unwrap();

    // -- Check
    let comment = CommentBmc::get(&ctx, &mm, fx_comment_id).unwrap();
    assert_eq!(comment.content, fx_content_updated);

    // -- Clean
    let count = clean_comments(&ctx, &mut mm, "Updated content").unwrap();
    assert_eq!(count, 1, "Should have cleaned only 1 comment");
}
