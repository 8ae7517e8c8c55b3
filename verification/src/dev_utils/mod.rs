//! Fixture helpers: seed and clean rows per entity, and a fresh store for a
//! test run.

pub mod article_seed;
pub mod article_view_seed;
pub mod author_seed;
pub mod category_seed;
pub mod comment_seed;
pub mod subscription_seed;

use vstd::prelude::*;

use crate::model::store::ModelManager;
use crate::model::store_ok;

verus! {

/// A fresh, empty store for one test run, with every id counter at 1.
pub fn init_test() -> (mm: ModelManager)
    ensures
        store_ok(mm),
        mm.article@.len() == 0,
        mm.article_view@.len() == 0,
        mm.author@.len() == 0,
        mm.category@.len() == 0,
        mm.comment@.len() == 0,
        mm.conv_user@.len() == 0,
        mm.subscription@.len() == 0,
        mm.article.next_id == 1,
        mm.article_view.next_id == 1,
        mm.author.next_id == 1,
        mm.category.next_id == 1,
        mm.comment.next_id == 1,
        mm.conv_user.next_id == 1,
        mm.subscription.next_id == 1,
    {
    ModelManager::new()
}

} // verus!
