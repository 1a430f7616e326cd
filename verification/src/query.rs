//! The filter of a workshop query for the items that relate to one user.

use vstd::prelude::*;

verus! {

/// The lists of a user's items that a query can ask for.
#[derive(Clone, Copy, Debug, PartialEq, Eq, Structural)]
pub enum UserList {
    /// Items the user has published.
    Published,
    /// Items the user has voted on.
    VotedOn,
    /// Items the user has voted up.
    VotedUp,
    /// Items the user has voted down.
    VotedDown,
    /// No longer offered by the workshop service.
    WillVoteLater,
    /// Items the user has marked as favorites.
    Favorited,
    /// Items the user has subscribed to.
    Subscribed,
    /// Items the user has spent time with in the game.
    UsedOrPlayed,
    /// Items whose updates the user follows.
    Followed,
}

/// The kinds of content that a query can ask for.
#[derive(Clone, Copy, Debug, PartialEq, Eq, Structural)]
pub enum UGCType {
    Items,
    ItemsMtx,
    ItemsReadyToUse,
    Collections,
    Artwork,
    Videos,
    Screenshots,
    AllGuides,
    WebGuides,
    IntegratedGuides,
    UsableInGame,
    ControllerBindings,
    GameManagedItems,
    All,
}

/// The orders in which a query can return a user's items.
#[derive(Clone, Copy, Debug, PartialEq, Eq, Structural)]
pub enum UserListOrder {
    CreationOrderAsc,
    CreationOrderDesc,
    TitleAsc,
    LastUpdatedDesc,
    SubscriptionDateDesc,
    VoteScoreDesc,
    ForModeration,
}

/// The applications whose items a query asks for.
#[derive(Clone, Copy, Debug, PartialEq, Eq, Structural)]
pub enum AppIDs {
    /// Items made with this application.
    CreatorAppId(u32),
    /// Items made for this application.
    ConsumerAppId(u32),
    /// Items made with one application for another.
    Both { creator: u32, consumer: u32 },
}

/// The filter of a query, built up call by call.
#[derive(Clone, Copy, Debug, PartialEq, Eq, Structural)]
pub struct UgcQueryBuilder {
    /// The account whose items are asked for.
    pub account_id: u32,
    /// Which of the account's lists is asked for.
    pub user_list: UserList,
    /// The kind of content.
    pub ugc_type: UGCType,
    /// The order of the result.
    pub user_list_order: UserListOrder,
    /// The applications whose items are asked for.
    pub app_ids: AppIDs,
    /// The page of the result; the first page is 1.
    pub page_number: u32,
}

impl UgcQueryBuilder {
    /// The filter for the items that the account `account_id` has published
    /// for the application `app_id`: all kinds of content, the last updated
    /// first, the first page.
    pub open spec fn new_spec(account_id: u32, app_id: u32) -> Self {
        UgcQueryBuilder {
            account_id,
            user_list: UserList::Published,
            ugc_type: UGCType::All,
            user_list_order: UserListOrder::LastUpdatedDesc,
            app_ids: AppIDs::ConsumerAppId(app_id),
            page_number: 1,
        }
    }

    /// The filter for the items that the account `account_id` has published
    /// for the application `app_id`: all kinds of content, the last updated
    /// first, the first page.
    pub fn new(account_id: u32, app_id: u32) -> (builder: Self)
        ensures
            builder == Self::new_spec(account_id, app_id),
    {
        UgcQueryBuilder {
            account_id,
            user_list: UserList::Published,
            ugc_type: UGCType::All,
            user_list_order: UserListOrder::LastUpdatedDesc,
            app_ids: AppIDs::ConsumerAppId(app_id),
            page_number: 1,
        }
    }

    /// The same filter for another account.
    pub fn account_id(self, account_id: u32) -> (builder: Self)
        ensures
            builder == (UgcQueryBuilder { account_id, ..self }),
    {
        let mut builder = self;
        builder.account_id = account_id;
        builder
    }

    /// The same filter for another of the account's lists.
    pub fn user_list(self, user_list: UserList) -> (builder: Self)
        ensures
            builder == (UgcQueryBuilder { user_list, ..self }),
    {
        let mut builder = self;
        builder.user_list = user_list;
        builder
    }

    /// The same filter for another kind of content.
    pub fn ugc_type(self, ugc_type: UGCType) -> (builder: Self)
        ensures
            builder == (UgcQueryBuilder { ugc_type, ..self }),
    {
        let mut builder = self;
        builder.ugc_type = ugc_type;
        builder
    }

    /// The same filter with another order of the result.
    pub fn user_list_order(self, user_list_order: UserListOrder) -> (builder: Self)
        ensures
            builder == (UgcQueryBuilder { user_list_order, ..self }),
    {
        let mut builder = self;
        builder.user_list_order = user_list_order;
        builder
    }

    /// The same filter for other applications.
    pub fn app_ids(self, app_ids: AppIDs) -> (builder: Self)
        ensures
            builder == (UgcQueryBuilder { app_ids, ..self }),
    {
        let mut builder = self;
        builder.app_ids = app_ids;
        builder
    }

    /// The same filter for another page of the result.
    pub fn page_number(self, page_number: u32) -> (builder: Self)
        ensures
            builder == (UgcQueryBuilder { page_number, ..self }),
    {
        let mut builder = self;
        builder.page_number = page_number;
        builder
    }
}

} // verus!
