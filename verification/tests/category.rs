use cms_core::ctx::Ctx;
use cms_core::dev_utils::category_seed::{clean_categories, seed_category};
use cms_core::dev_utils::init_test;
use cms_core::model::category::{CategoryBmc, CategoryForCreate, CategoryForUpdate};

#[test]
fn test_create_category_ok() {
    let mut mm = init_test();
    let ctx = Ctx::root_ctx();
    let name = "Test Category";
    let description = "This is a test category".to_string();
    let parent_id = None;
    let is_featured = false;

    let category_c = CategoryForCreate {
        name: name.to_string(),
        description: Some(description.clone()),
        parent_id,
        is_featured,
    };

    let category_id = CategoryBmc::create(&ctx, &mut mm, category_c).unwrap();
    let category = CategoryBmc::get(&ctx, &mm, category_id).unwrap();

    assert_eq!(category.name, name);
    assert_eq!(category.description, Some(description));
    assert_eq!(category.parent_id, parent_id);
    assert_eq!(category.is_featured, is_featured);

    clean_categories(&ctx, &mut mm, "Test Category").unwrap();
}

#[test]
fn test_update_category_ok() {
    let mut mm = init_test();
    let ctx = Ctx::root_ctx();
    let name = "Test Category";
    let description = Some("This is a test category");
    let parent_id = None;
    let is_featured = false;

    let category_id =
        seed_category(&ctx, &mut mm, name, description, parent_id, is_featured).unwrap();

    let name_updated = "Updated Test Category";
    let description_updated = Some("This is an updated test category".to_string());
    let is_featured_updated = true;

    let category_u = CategoryForUpdate {
        name: name_updated.to_string(),
        description: description_updated.clone(),
        parent_id,
        is_featured: is_featured_updated,
    };

    CategoryBmc::update(&ctx, &mut mm, category_id, category_u).unwrap();

    let category = CategoryBmc::get(&ctx, &mm, category_id).unwrap();

    assert_eq!(category.name, name_updated);
    assert_eq!(category.description, description_updated);
    assert_eq!(category.parent_id, parent_id);
    assert_eq!(category.is_featured, is_featured_updated);

    clean_categories(&ctx, &mut mm, "Updated Test Category").unwrap();
}
