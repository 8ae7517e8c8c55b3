//! The RPC layer: the JSON-like value type, per-entity method routers and
//! handlers, and the dispatcher that maps a method name and parameters onto
//! the model controllers.

pub mod article_rpc;
pub mod article_view_rpc;
pub mod author_rpc;
pub mod category_rpc;
pub mod comment_rpc;
pub mod subscription_rpc;
pub mod value;

use vstd::prelude::*;

use crate::ctx::Ctx;
use crate::error::Error;
use crate::model::filter::str_eq;
use crate::model::store::ModelManager;
use crate::model::store_ok;
use crate::rpcs::value::Value;

verus! {

/// The method names a dispatcher serves, in registration order.
pub struct RpcRouter {
    pub methods: Vec<String>,
}

impl View for RpcRouter {
    type V = Seq<Seq<char>>;

    open spec fn view(&self) -> Seq<Seq<char>> {
        self.methods.deep_view()
    }
}

impl RpcRouter {
    pub fn new() -> (r: RpcRouter)
        ensures
            r@ =~= Seq::<Seq<char>>::empty(),
    {
        RpcRouter { methods: Vec::new() }
    }

    /// This router's methods followed by the other's.
    pub fn extend(self, other: RpcRouter) -> (r: RpcRouter)
        ensures
            r@ =~= self@ + other@,
    {
        let mut methods = self.methods;
        let mut tail = other.methods;
        let ghost a = methods.deep_view();
        let ghost b = tail.deep_view();
        methods.append(&mut tail);
        proof {
            assert(methods.deep_view() =~= a + b);
        }
        RpcRouter { methods }
    }
}

/// Every method name the dispatcher serves, in registration order.
pub open spec fn all_methods() -> Seq<Seq<char>> {
    article_rpc::article_methods() + article_view_rpc::article_view_methods()
        + author_rpc::author_methods() + category_rpc::category_methods()
        + comment_rpc::comment_methods() + subscription_rpc::subscription_methods()
}

/// Whether a method name is registered.
pub open spec fn known_method(m: Seq<char>) -> bool {
    all_methods().contains(m)
}

/// The combined router over every entity.
pub fn all_rpc_router() -> (r: RpcRouter)
    ensures
        r@ =~= all_methods(),
{
    let r = RpcRouter::new().extend(article_rpc::rpc_router()).extend(
        article_view_rpc::rpc_router(),
    ).extend(author_rpc::rpc_router()).extend(category_rpc::rpc_router()).extend(
        comment_rpc::rpc_router(),
    ).extend(subscription_rpc::rpc_router());
    proof {
        assert(r@ =~= all_methods());
    }
    r
}

proof fn lemma_method_name_facts()
    ensures
        "create_article"@.len() == 14,
        "create_article"@[0] == 'c',
        "create_article"@[4] == 't',
        "create_article"@[5] == 'e',
        "create_article"@[7] == 'a',
        "get_article"@.len() == 11,
        "get_article"@[0] == 'g',
        "get_article"@[4] == 'a',
        "get_article"@[5] == 'r',
        "get_article"@[7] == 'i',
        "list_articles"@.len() == 13,
        "list_articles"@[0] == 'l',
        "list_articles"@[4] == '_',
        "list_articles"@[5] == 'a',
        "list_articles"@[7] == 't',
        "update_article"@.len() == 14,
        "update_article"@[0] == 'u',
        "update_article"@[4] == 't',
        "update_article"@[5] == 'e',
        "update_article"@[7] == 'a',
        "delete_article"@.len() == 14,
        "delete_article"@[0] == 'd',
        "delete_article"@[4] == 't',
        "delete_article"@[5] == 'e',
        "delete_article"@[7] == 'a',
        "create_article_view"@.len() == 19,
        "create_article_view"@[0] == 'c',
        "create_article_view"@[4] == 't',
        "create_article_view"@[5] == 'e',
        "create_article_view"@[7] == 'a',
        "get_article_view"@.len() == 16,
        "get_article_view"@[0] == 'g',
        "get_article_view"@[4] == 'a',
        "get_article_view"@[5] == 'r',
        "get_article_view"@[7] == 'i',
        "list_article_views"@.len() == 18,
        "list_article_views"@[0] == 'l',
        "list_article_views"@[4] == '_',
        "list_article_views"@[5] == 'a',
        "list_article_views"@[7] == 't',
        "update_article_view"@.len() == 19,
        "update_article_view"@[0] == 'u',
        "update_article_view"@[4] == 't',
        "update_article_view"@[5] == 'e',
        "update_article_view"@[7] == 'a',
        "delete_article_view"@.len() == 19,
        "delete_article_view"@[0] == 'd',
        "delete_article_view"@[4] == 't',
        "delete_article_view"@[5] == 'e',
        "delete_article_view"@[7] == 'a',
        "create_author"@.len() == 13,
        "create_author"@[0] == 'c',
        "create_author"@[4] == 't',
        "create_author"@[5] == 'e',
        "create_author"@[7] == 'a',
        "get_author"@.len() == 10,
        "get_author"@[0] == 'g',
        "get_author"@[4] == 'a',
        "get_author"@[5] == 'u',
        "get_author"@[7] == 'h',
        "list_authors"@.len() == 12,
        "list_authors"@[0] == 'l',
        "list_authors"@[4] == '_',
        "list_authors"@[5] == 'a',
        "list_authors"@[7] == 't',
        "update_author"@.len() == 13,
        "update_author"@[0] == 'u',
        "update_author"@[4] == 't',
        "update_author"@[5] == 'e',
        "update_author"@[7] == 'a',
        "delete_author"@.len() == 13,
        "delete_author"@[0] == 'd',
        "delete_author"@[4] == 't',
        "delete_author"@[5] == 'e',
        "delete_author"@[7] == 'a',
        "create_category"@.len() == 15,
        "create_category"@[0] == 'c',
        "create_category"@[4] == 't',
        "create_category"@[5] == 'e',
        "create_category"@[7] == 'c',
        "get_category"@.len() == 12,
        "get_category"@[0] == 'g',
        "get_category"@[4] == 'c',
        "get_category"@[5] == 'a',
        "get_category"@[7] == 'e',
        "list_categorys"@.len() == 14,
        "list_categorys"@[0] == 'l',
        "list_categorys"@[4] == '_',
        "list_categorys"@[5] == 'c',
        "list_categorys"@[7] == 't',
        "update_category"@.len() == 15,
        "update_category"@[0] == 'u',
        "update_category"@[4] == 't',
        "update_category"@[5] == 'e',
        "update_category"@[7] == 'c',
        "delete_category"@.len() == 15,
        "delete_category"@[0] == 'd',
        "delete_category"@[4] == 't',
        "delete_category"@[5] == 'e',
        "delete_category"@[7] == 'c',
        "create_comment"@.len() == 14,
        "create_comment"@[0] == 'c',
        "create_comment"@[4] == 't',
        "create_comment"@[5] == 'e',
        "create_comment"@[7] == 'c',
        "get_comment"@.len() == 11,
        "get_comment"@[0] == 'g',
        "get_comment"@[4] == 'c',
        "get_comment"@[5] == 'o',
        "get_comment"@[7] == 'm',
        "list_comments"@.len() == 13,
        "list_comments"@[0] == 'l',
        "list_comments"@[4] == '_',
        "list_comments"@[5] == 'c',
        "list_comments"@[7] == 'm',
        "update_comment"@.len() == 14,
        "update_comment"@[0] == 'u',
        "update_comment"@[4] == 't',
        "update_comment"@[5] == 'e',
        "update_comment"@[7] == 'c',
        "delete_comment"@.len() == 14,
        "delete_comment"@[0] == 'd',
        "delete_comment"@[4] == 't',
        "delete_comment"@[5] == 'e',
        "delete_comment"@[7] == 'c',
        "create_subscription"@.len() == 19,
        "create_subscription"@[0] == 'c',
        "create_subscription"@[4] == 't',
        "create_subscription"@[5] == 'e',
        "create_subscription"@[7] == 's',
        "get_subscription"@.len() == 16,
        "get_subscription"@[0] == 'g',
        "get_subscription"@[4] == 's',
        "get_subscription"@[5] == 'u',
        "get_subscription"@[7] == 's',
        "list_subscriptions"@.len() == 18,
        "list_subscriptions"@[0] == 'l',
        "list_subscriptions"@[4] == '_',
        "list_subscriptions"@[5] == 's',
        "list_subscriptions"@[7] == 'b',
        "update_subscription"@.len() == 19,
        "update_subscription"@[0] == 'u',
        "update_subscription"@[4] == 't',
        "update_subscription"@[5] == 'e',
        "update_subscription"@[7] == 's',
        "delete_subscription"@.len() == 19,
        "delete_subscription"@[0] == 'd',
        "delete_subscription"@[4] == 't',
        "delete_subscription"@[5] == 'e',
        "delete_subscription"@[7] == 's',
{
    reveal_strlit("create_article");
    reveal_strlit("get_article");
    reveal_strlit("list_articles");
    reveal_strlit("update_article");
    reveal_strlit("delete_article");
    reveal_strlit("create_article_view");
    reveal_strlit("get_article_view");
    reveal_strlit("list_article_views");
    reveal_strlit("update_article_view");
    reveal_strlit("delete_article_view");
    reveal_strlit("create_author");
    reveal_strlit("get_author");
    reveal_strlit("list_authors");
    reveal_strlit("update_author");
    reveal_strlit("delete_author");
    reveal_strlit("create_category");
    reveal_strlit("get_category");
    reveal_strlit("list_categorys");
    reveal_strlit("update_category");
    reveal_strlit("delete_category");
    reveal_strlit("create_comment");
    reveal_strlit("get_comment");
    reveal_strlit("list_comments");
    reveal_strlit("update_comment");
    reveal_strlit("delete_comment");
    reveal_strlit("create_subscription");
    reveal_strlit("get_subscription");
    reveal_strlit("list_subscriptions");
    reveal_strlit("update_subscription");
    reveal_strlit("delete_subscription");
}

/// Looks the method up and runs its handler on the parameters; an unknown
/// method fails with `MethodNotFound` and leaves the store unchanged.
pub fn dispatch(ctx: &Ctx, mm: &mut ModelManager, method: &str, params: &Value) -> (r: Result<
    Value,
    Error,
>)
    requires
        store_ok(*old(mm)),
    ensures
        store_ok(*final(mm)),
        article_rpc::article_rpc_post(method@, *params, *old(mm), *final(mm), ctx.user_id, r),
        article_view_rpc::article_view_rpc_post(method@, *params, *old(mm), *final(mm), ctx.user_id, r),
        author_rpc::author_rpc_post(method@, *params, *old(mm), *final(mm), ctx.user_id, r),
        category_rpc::category_rpc_post(method@, *params, *old(mm), *final(mm), ctx.user_id, r),
        comment_rpc::comment_rpc_post(method@, *params, *old(mm), *final(mm), ctx.user_id, r),
        subscription_rpc::subscription_rpc_post(method@, *params, *old(mm), *final(mm), ctx.user_id, r),
        !known_method(method@) ==> r == Err::<Value, Error>(Error::MethodNotFound) && *final(mm)
            == *old(mm),
{
    proof {
        lemma_method_name_facts();
    }
    if str_eq(method, "create_article") {
        proof {
            assert(all_methods()[0] == "create_article"@);
        }
        article_rpc::create_article(ctx, mm, params)
    } else if str_eq(method, "get_article") {
        proof {
            assert(all_methods()[1] == "get_article"@);
        }
        article_rpc::get_article(ctx, mm, params)
    } else if str_eq(method, "list_articles") {
        proof {
            assert(all_methods()[2] == "list_articles"@);
        }
        article_rpc::list_articles(ctx, mm, params)
    } else if str_eq(method, "update_article") {
        proof {
            assert(all_methods()[3] == "update_article"@);
        }
        article_rpc::update_article(ctx, mm, params)
    } else if str_eq(method, "delete_article") {
        proof {
            assert(all_methods()[4] == "delete_article"@);
        }
        article_rpc::delete_article(ctx, mm, params)
    } else if str_eq(method, "create_article_view") {
        proof {
            assert(all_methods()[5] == "create_article_view"@);
        }
        article_view_rpc::create_article_view(ctx, mm, params)
    } else if str_eq(method, "get_article_view") {
        proof {
            assert(all_methods()[6] == "get_article_view"@);
        }
        article_view_rpc::get_article_view(ctx, mm, params)
    } else if str_eq(method, "list_article_views") {
        proof {
            assert(all_methods()[7] == "list_article_views"@);
        }
        article_view_rpc::list_article_views(ctx, mm, params)
    } else if str_eq(method, "update_article_view") {
        proof {
            assert(all_methods()[8] == "update_article_view"@);
        }
        article_view_rpc::update_article_view(ctx, mm, params)
    } else if str_eq(method, "delete_article_view") {
        proof {
            assert(all_methods()[9] == "delete_article_view"@);
        }
        article_view_rpc::delete_article_view(ctx, mm, params)
    } else if str_eq(method, "create_author") {
        proof {
            assert(all_methods()[10] == "create_author"@);
        }
        author_rpc::create_author(ctx, mm, params)
    } else if str_eq(method, "get_author") {
        proof {
            assert(all_methods()[11] == "get_author"@);
        }
        author_rpc::get_author(ctx, mm, params)
    } else if str_eq(method, "list_authors") {
        proof {
            assert(all_methods()[12] == "list_authors"@);
        }
        author_rpc::list_authors(ctx, mm, params)
    } else if str_eq(method, "update_author") {
        proof {
            assert(all_methods()[13] == "update_author"@);
        }
        author_rpc::update_author(ctx, mm, params)
    } else if str_eq(method, "delete_author") {
        proof {
            assert(all_methods()[14] == "delete_author"@);
        }
        author_rpc::delete_author(ctx, mm, params)
    } else if str_eq(method, "create_category") {
        proof {
            assert(all_methods()[15] == "create_category"@);
        }
        category_rpc::create_category(ctx, mm, params)
    } else if str_eq(method, "get_category") {
        proof {
            assert(all_methods()[16] == "get_category"@);
        }
        category_rpc::get_category(ctx, mm, params)
    } else if str_eq(method, "list_categorys") {
        proof {
            assert(all_methods()[17] == "list_categorys"@);
        }
        category_rpc::list_categorys(ctx, mm, params)
    } else if str_eq(method, "update_category") {
        proof {
            assert(all_methods()[18] == "update_category"@);
        }
        category_rpc::update_category(ctx, mm, params)
    } else if str_eq(method, "delete_category") {
        proof {
            assert(all_methods()[19] == "delete_category"@);
        }
        category_rpc::delete_category(ctx, mm, params)
    } else if str_eq(method, "create_comment") {
        proof {
            assert(all_methods()[20] == "create_comment"@);
        }
        comment_rpc::create_comment(ctx, mm, params)
    } else if str_eq(method, "get_comment") {
        proof {
            assert(all_methods()[21] == "get_comment"@);
        }
        comment_rpc::get_comment(ctx, mm, params)
    } else if str_eq(method, "list_comments") {
        proof {
            assert(all_methods()[22] == "list_comments"@);
        }
        comment_rpc::list_comments(ctx, mm, params)
    } else if str_eq(method, "update_comment") {
        proof {
            assert(all_methods()[23] == "update_comment"@);
        }
        comment_rpc::update_comment(ctx, mm, params)
    } else if str_eq(method, "delete_comment") {
        proof {
            assert(all_methods()[24] == "delete_comment"@);
        }
        comment_rpc::delete_comment(ctx, mm, params)
    } else if str_eq(method, "create_subscription") {
        proof {
            assert(all_methods()[25] == "create_subscription"@);
        }
        subscription_rpc::create_subscription(ctx, mm, params)
    } else if str_eq(method, "get_subscription") {
        proof {
            assert(all_methods()[26] == "get_subscription"@);
        }
        subscription_rpc::get_subscription(ctx, mm, params)
    } else if str_eq(method, "list_subscriptions") {
        proof {
            assert(all_methods()[27] == "list_subscriptions"@);
        }
        subscription_rpc::list_subscriptions(ctx, mm, params)
    } else if str_eq(method, "update_subscription") {
        proof {
            assert(all_methods()[28] == "update_subscription"@);
        }
        subscription_rpc::update_subscription(ctx, mm, params)
    } else if str_eq(method, "delete_subscription") {
        proof {
            assert(all_methods()[29] == "delete_subscription"@);
        }
        subscription_rpc::delete_subscription(ctx, mm, params)
    } else {
        proof {
            assert forall|i: int| 0 <= i < all_methods().len() implies all_methods()[i]
                != method@ by {
                if i == 0 {
                    assert(all_methods()[0] == "create_article"@);
                } else if i == 1 {
                    assert(all_methods()[1] == "get_article"@);
                } else if i == 2 {
                    assert(all_methods()[2] == "list_articles"@);
                } else if i == 3 {
                    assert(all_methods()[3] == "update_article"@);
                } else if i == 4 {
                    assert(all_methods()[4] == "delete_article"@);
                } else if i == 5 {
                    assert(all_methods()[5] == "create_article_view"@);
                } else if i == 6 {
                    assert(all_methods()[6] == "get_article_view"@);
                } else if i == 7 {
                    assert(all_methods()[7] == "list_article_views"@);
                } else if i == 8 {
                    assert(all_methods()[8] == "update_article_view"@);
                } else if i == 9 {
                    assert(all_methods()[9] == "delete_article_view"@);
                } else if i == 10 {
                    assert(all_methods()[10] == "create_author"@);
                } else if i == 11 {
                    assert(all_methods()[11] == "get_author"@);
                } else if i == 12 {
                    assert(all_methods()[12] == "list_authors"@);
                } else if i == 13 {
                    assert(all_methods()[13] == "update_author"@);
                } else if i == 14 {
                    assert(all_methods()[14] == "delete_author"@);
                } else if i == 15 {
                    assert(all_methods()[15] == "create_category"@);
                } else if i == 16 {
                    assert(all_methods()[16] == "get_category"@);
                } else if i == 17 {
                    assert(all_methods()[17] == "list_categorys"@);
                } else if i == 18 {
                    assert(all_methods()[18] == "update_category"@);
                } else if i == 19 {
                    assert(all_methods()[19] == "delete_category"@);
                } else if i == 20 {
                    assert(all_methods()[20] == "create_comment"@);
                } else if i == 21 {
                    assert(all_methods()[21] == "get_comment"@);
                } else if i == 22 {
                    assert(all_methods()[22] == "list_comments"@);
                } else if i == 23 {
                    assert(all_methods()[23] == "update_comment"@);
                } else if i == 24 {
                    assert(all_methods()[24] == "delete_comment"@);
                } else if i == 25 {
                    assert(all_methods()[25] == "create_subscription"@);
                } else if i == 26 {
                    assert(all_methods()[26] == "get_subscription"@);
                } else if i == 27 {
                    assert(all_methods()[27] == "list_subscriptions"@);
                } else if i == 28 {
                    assert(all_methods()[28] == "update_subscription"@);
                } else if i == 29 {
                    assert(all_methods()[29] == "delete_subscription"@);
                }
            }
        }
        Err(Error::MethodNotFound)
    }
}

} // verus!
