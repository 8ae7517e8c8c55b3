use vstd::prelude::*;

verus! {

/// Which entity an error speaks of.
#[derive(Clone, Copy, Debug, PartialEq, Eq, Structural)]
pub enum EntityKind {
    Article,
    ArticleView,
    Author,
    Category,
    Comment,
    ConvUser,
    Subscription,
}

/// The error kinds that the model and RPC layers surface.
///
/// `EntityNotFound` comes from get/update/delete on an absent id;
/// `UniqueViolation` from a unique-constraint hit in the backing store;
/// `InvalidParams` from RPC parameters that do not deserialize into the
/// expected shape; `MethodNotFound` from an unregistered RPC method name;
/// `Store` from any other store failure (such as an exhausted id space);
/// `StoreConnection` and `Transaction` from the connection and transaction
/// machinery at the store edge.
#[derive(Clone, Copy, Debug, PartialEq, Eq, Structural)]
pub enum Error {
    EntityNotFound { entity: EntityKind, id: i64 },
    UniqueViolation { entity: EntityKind },
    InvalidParams,
    MethodNotFound,
    Store,
    StoreConnection,
    Transaction,
}

} // verus!
