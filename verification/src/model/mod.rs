//! The model layer: the record store, the generic base operations, and the
//! typed entity modules built on them.

pub mod article;
pub mod article_view;
pub mod author;
pub mod base;
pub mod category;
pub mod comment;
pub mod conv_user;
pub mod field;
pub mod filter;
pub mod store;
pub mod subscription;

use vstd::prelude::*;

use crate::model::article::article_rows_ok;
use crate::model::article_view::article_view_rows_ok;
use crate::model::author::author_rows_ok;
use crate::model::category::category_rows_ok;
use crate::model::comment::comment_rows_ok;
use crate::model::store::ModelManager;
use crate::model::subscription::subscription_rows_ok;

verus! {

/// Every table is well formed and every row of each entity table has that
/// entity\'s shape.
pub open spec fn store_ok(mm: ModelManager) -> bool {
    &&& mm.wf()
    &&& article_rows_ok(mm.article@)
    &&& article_view_rows_ok(mm.article_view@)
    &&& author_rows_ok(mm.author@)
    &&& category_rows_ok(mm.category@)
    &&& comment_rows_ok(mm.comment@)
    &&& subscription_rows_ok(mm.subscription@)
}

} // verus!
