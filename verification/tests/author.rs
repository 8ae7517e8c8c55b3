use cms_core::ctx::Ctx;
use cms_core::dev_utils::author_seed::{clean_authors, seed_author};
use cms_core::dev_utils::init_test;
use cms_core::model::author::{AuthorBmc, AuthorForCreate, AuthorForUpdate, AuthorType};

#[test]
fn author_test_create_ok() {
    // -- Setup & Fixtures
    let mut mm = init_test();
    let ctx = Ctx::root_ctx();
    let fx_pen_name = "test_create_ok author 01";
    let fx_user_id = 1003;
    let fx_author_type = AuthorType::Editor;
    let fx_bio = Some("Test bio".to_string());
    let fx_website = Some("https://example.com".to_string());
    let fx_avatar_url = Some("https://example.com/avatar.jpg".to_string());

    // -- Exec
    let fx_author_c = AuthorForCreate {
        user_id: fx_user_id,
        author_type: fx_author_type.clone(),
        pen_name: fx_pen_name.to_string(),
        bio: fx_bio.clone(),
        website: fx_website.clone(),
        avatar_url: fx_avatar_url.clone(),
    };
    let author_id = AuthorBmc::create(&ctx, &mut mm, fx_author_c).unwrap();

    // -- Check
    let author = AuthorBmc::get(&ctx, &mm, author_id).unwrap();
    assert_eq!(author.pen_name, fx_pen_name);
    assert_eq!(author.user_id, fx_user_id);
    assert_eq!(author.author_type, fx_author_type);
    assert_eq!(author.bio, fx_bio);
    assert_eq!(author.website, fx_website);
    assert_eq!(author.avatar_url, fx_avatar_url);

    // -- Clean
    let count = clean_authors(&ctx, &mut mm, "test_create_ok").unwrap();
    assert_eq!(count, 1, "Should have cleaned only 1 author");
}

#[test]
fn author_test_update_ok() {
    // -- Setup & Fixtures
    let mut mm = init_test();
    let ctx = Ctx::root_ctx();

    let fx_user_id = 1004;
    let fx_pen_name = "test_update_ok author 01";
    let fx_author_type = AuthorType::Editor;
    let fx_bio = Some("Original Bio".to_string());
    let fx_website = Some("https://example.com".to_string());
    let fx_avatar_url = Some("https://example.com/avatar.jpg".to_string());

    let fx_author_id = seed_author(
        &ctx,
        &mut mm,
        fx_user_id,
        fx_pen_name,
        fx_author_type,
        fx_bio.clone(),
        fx_website.clone(),
        fx_avatar_url.clone(),
    )
    .unwrap();

    let fx_pen_name_updated = "test_update_ok author 01 - updated";
    let fx_bio_updated = Some("Updated Bio".to_string());
    let fx_website_updated = Some("https://updated-example.com".to_string());
    let fx_avatar_url_updated = Some("https://updated-example.com/avatar.jpg".to_string());

    // -- Exec
    let fx_author_u = AuthorForUpdate {
        pen_name: fx_pen_name_updated.to_string(),
        bio: fx_bio_updated.clone(),
        website: fx_website_updated.clone(),
        avatar_url: fx_avatar_url_updated.clone(),
        ..Default::default()
    };
    AuthorBmc::update(&ctx, &mut mm, fx_author_id, fx_author_u).unwrap();

    // -- Check
    let author = AuthorBmc::get(&ctx, &mm, fx_author_id).unwrap();
    assert_eq!(author.pen_name, fx_pen_name_updated);
    assert_eq!(author.bio, fx_bio_updated);
    assert_eq!(author.website, fx_website_updated);
    assert_eq!(author.avatar_url, fx_avatar_url_updated);

    // -- Clean
    let count = clean_authors(&ctx, &mut mm, "test_update_ok author").unwrap();
    assert_eq!(count, 1, "Should have cleaned only 1 author");
}
