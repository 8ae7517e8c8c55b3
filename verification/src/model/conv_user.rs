use vstd::prelude::*;

verus! {

/// A stored conversation-membership row, as callers see it.
#[derive(Clone, Debug)]
pub struct ConvUser {
    pub id: i64,
    pub conv_id: i64,
    pub user_id: i64,
    pub creator_id: i64,
    pub creation_time: i64,
    pub updater_id: i64,
    pub updated_time: i64,
}

/// What a caller provides to create a conversation membership.
#[derive(Clone, Debug)]
pub struct ConvUserForCreate {
    pub conv_id: i64,
    pub user_id: i64,
}

/// The conversation-membership table's controller. Its operations are managed
/// by the conversation's own container entity and are not exposed here.
pub struct ConvUserBmc;

} // verus!
