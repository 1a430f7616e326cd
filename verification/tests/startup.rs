use skeleton_sprint_launcher::button::{Button, ButtonBuilder, Rgb};
use skeleton_sprint_launcher::error::{AppError, AssetError, WorkshopQueryError};
use skeleton_sprint_launcher::query::{AppIDs, UGCType, UgcQueryBuilder, UserList, UserListOrder};
use skeleton_sprint_launcher::startup::{
    prepare_sync_dir, subscribed_items_query, SyncDirAction, SyncDirEvent,
};
use skeleton_sprint_launcher::window::{
    text_buffer_len, texture_from_image, WINDOW_HEIGHT, WINDOW_WIDTH,
};

#[test]
fn query_builder_defaults() {
    let builder = UgcQueryBuilder::new(77, 480);
    assert_eq!(
        builder,
        UgcQueryBuilder {
            account_id: 77,
            user_list: UserList::Published,
            ugc_type: UGCType::All,
            user_list_order: UserListOrder::LastUpdatedDesc,
            app_ids: AppIDs::ConsumerAppId(480),
            page_number: 1,
        }
    );
}

#[test]
fn query_builder_setters_change_one_field_each() {
    let base = UgcQueryBuilder::new(77, 480);
    assert_eq!(base.account_id(5), UgcQueryBuilder { account_id: 5, ..base });
    assert_eq!(
        base.user_list(UserList::Favorited),
        UgcQueryBuilder { user_list: UserList::Favorited, ..base }
    );
    assert_eq!(
        base.ugc_type(UGCType::Screenshots),
        UgcQueryBuilder { ugc_type: UGCType::Screenshots, ..base }
    );
    assert_eq!(
        base.user_list_order(UserListOrder::TitleAsc),
        UgcQueryBuilder { user_list_order: UserListOrder::TitleAsc, ..base }
    );
    assert_eq!(
        base.app_ids(AppIDs::Both { creator: 1, consumer: 2 }),
        UgcQueryBuilder { app_ids: AppIDs::Both { creator: 1, consumer: 2 }, ..base }
    );
    assert_eq!(base.page_number(3), UgcQueryBuilder { page_number: 3, ..base });
}

#[test]
fn the_sync_asks_for_subscribed_items() {
    assert_eq!(
        subscribed_items_query(77, 480),
        UgcQueryBuilder {
            account_id: 77,
            user_list: UserList::Subscribed,
            ugc_type: UGCType::All,
            user_list_order: UserListOrder::LastUpdatedDesc,
            app_ids: AppIDs::ConsumerAppId(480),
            page_number: 1,
        }
    );
}

#[test]
fn sync_dir_that_exists_is_only_checked() {
    assert_eq!(prepare_sync_dir(SyncDirEvent::Started), SyncDirAction::ProbeExists);
    assert_eq!(prepare_sync_dir(SyncDirEvent::Exists(true)), SyncDirAction::ProbeIsDir);
    assert_eq!(prepare_sync_dir(SyncDirEvent::IsDir(true)), SyncDirAction::Proceed);
}

#[test]
fn sync_dir_that_is_missing_is_created() {
    assert_eq!(prepare_sync_dir(SyncDirEvent::Exists(false)), SyncDirAction::Create);
    assert_eq!(prepare_sync_dir(SyncDirEvent::Created), SyncDirAction::ProbeIsDir);
}

#[test]
fn sync_dir_errors() {
    assert_eq!(
        prepare_sync_dir(SyncDirEvent::CreateFailed("read-only file system".to_string())),
        SyncDirAction::Fail(AppError::Io("read-only file system".to_string()))
    );
    assert_eq!(
        prepare_sync_dir(SyncDirEvent::IsDir(false)),
        SyncDirAction::Fail(AppError::InvalidSyncDir)
    );
}

#[test]
fn messages_of_startup_errors() {
    assert_eq!(AppError::Io("denied".to_string()).message(), "denied");
    assert_eq!(AppError::Steam("no connection".to_string()).message(), "no connection");
    assert_eq!(
        AppError::SteamWorkshopQuery(WorkshopQueryError::CreateQueryError).message(),
        "Could not create workshop query"
    );
    assert_eq!(AppError::InvalidSyncDir.message(), "The sync dir is invalid");
    assert_eq!(WorkshopQueryError::CreateQueryError.message(), "Could not create workshop query");
    assert_eq!(AssetError::Image("bad header".to_string()).message(), "bad header");
    assert_eq!(AssetError::BadIcon("odd size".to_string()).message(), "odd size");
}

#[test]
fn query_error_becomes_a_startup_error() {
    assert_eq!(
        AppError::from(WorkshopQueryError::CreateQueryError),
        AppError::SteamWorkshopQuery(WorkshopQueryError::CreateQueryError)
    );
}

#[test]
fn button_is_built_released_and_red() {
    let button = ButtonBuilder::new().text("Play").build();
    assert_eq!(
        button,
        Button {
            text: "Play".to_string(),
            keydown: false,
            new_key_up: false,
            color: Rgb { r: 255, g: 0, b: 0 },
            normal_color: Rgb { r: 255, g: 0, b: 0 },
            clicked_color: Rgb { r: 128, g: 0, b: 0 },
        }
    );
    assert_eq!(ButtonBuilder::new().build().text, "");
}

#[test]
fn button_darkens_while_held_down() {
    let mut button = ButtonBuilder::new().text("Play").build();
    button.update();
    assert_eq!(button.color, Rgb { r: 255, g: 0, b: 0 });
    button.on_keydown();
    assert!(button.keydown);
    assert_eq!(button.color, Rgb { r: 255, g: 0, b: 0 });
    button.update();
    assert_eq!(button.color, Rgb { r: 128, g: 0, b: 0 });
    button.update();
    assert_eq!(button.color, Rgb { r: 128, g: 0, b: 0 });
    button.on_keyup();
    assert!(!button.keydown);
    assert!(button.new_key_up);
    assert_eq!(button.color, Rgb { r: 128, g: 0, b: 0 });
    button.update();
    assert_eq!(button.color, Rgb { r: 255, g: 0, b: 0 });
    assert_eq!(button.text, "Play");
}

#[test]
fn window_facts() {
    assert_eq!(WINDOW_WIDTH, 800);
    assert_eq!(WINDOW_HEIGHT, 600);
    assert_eq!(text_buffer_len(), 480000);
    let image = vec![1u8, 2, 3];
    assert!(std::ptr::eq(texture_from_image(&image), &image));
}
