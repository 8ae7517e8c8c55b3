use cms_core::ctx::Ctx;
use cms_core::dev_utils::init_test;
use cms_core::dev_utils::subscription_seed::clean_subscription;
use cms_core::model::subscription::{SubscriptionBmc, SubscriptionForCreate, SubscriptionForUpdate};

#[test]
fn subscription_test_create_ok() {
    // -- Setup & Fixtures
    let mut mm = init_test();
    let ctx = Ctx::root_ctx();

    let subscriber_id = 1000;
    let author_id = 1000;

    // -- Exec
    let subscription_id = SubscriptionBmc::create(
        &ctx,
        &mut mm,
        SubscriptionForCreate {
            subscriber: subscriber_id,
            author_id,
            subscription_start_time: None,
            subscription_end_time: None,
        },
    )
    .unwrap();

    // -- Check
    let subscription = SubscriptionBmc::get(&ctx, &mm, subscription_id).unwrap();
    assert_eq!(subscription.subscriber, subscriber_id);
    assert_eq!(subscription.author_id, author_id);

    // -- Clean
    let count = clean_subscription(&ctx, &mut mm, subscription_id).unwrap();
    assert_eq!(count, (), "Should have cleaned only 1 subscription");
}

#[test]
fn subscription_test_update_ok() {
    // -- Setup & Fixtures
    let mut mm = init_test();
    let ctx = Ctx::root_ctx();

    let subscriber_id = 1000;
    let author_id = 1000;

    let subscription_id = SubscriptionBmc::create(
        &ctx,
        &mut mm,
        SubscriptionForCreate {
            subscriber: subscriber_id,
            author_id,
            subscription_start_time: None,
            subscription_end_time: None,
        },
    )
    .unwrap();

    let updated_author_id = 1002;

    // -- Exec
    let subscription_u = SubscriptionForUpdate {
        author_id: Some(updated_author_id),
        ..Default::default()
    };
    SubscriptionBmc::update(&ctx, &mut mm, subscription_id, subscription_u).unwrap();

    // -- Check
    let subscription = SubscriptionBmc::get(&ctx, &mm, subscription_id).unwrap();
    assert_eq!(subscription.author_id, updated_author_id);

    // -- Clean
    let count = clean_subscription(&ctx, &mut mm, subscription_id).unwrap();
    assert_eq!(count, (), "Should have cleaned only 1 subscription");
}
