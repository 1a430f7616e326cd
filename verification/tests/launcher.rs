use skeleton_sprint_launcher::config::{Config, LaunchConfig};
use skeleton_sprint_launcher::launcher::{
    gui, launch_game, launch_levelbuilder, open_program, Frame,
};
use skeleton_sprint_launcher::sync_state::{SteamWorkshopSyncError, SteamWorkshopSyncState};

fn config() -> Config {
    Config {
        workshop_sync_path: "workshop".to_string(),
        levelbuilder: LaunchConfig { path: "bin/builder".to_string() },
        game: LaunchConfig { path: "bin/the game".to_string() },
    }
}

#[test]
fn config_getters_return_the_fields() {
    let config = config();
    assert_eq!(config.get_workshop_sync_path(), "workshop");
    assert_eq!(config.get_game_path(), "bin/the game");
    assert_eq!(config.get_levelbuilder_path(), "bin/builder");
}

#[test]
fn open_program_quotes_the_path() {
    assert_eq!(open_program("bin/the game"), "\"bin/the game\"");
    assert_eq!(open_program(""), "\"\"");
}

#[test]
fn launch_game_is_gated_by_the_sync() {
    let config = config();
    assert_eq!(launch_game(&SteamWorkshopSyncState::Starting, &config), None);
    assert_eq!(launch_game(&SteamWorkshopSyncState::InProgress(1, 2), &config), None);
    assert_eq!(
        launch_game(&SteamWorkshopSyncState::Done, &config),
        Some("\"bin/the game\"".to_string())
    );
    assert_eq!(
        launch_game(&SteamWorkshopSyncState::Failed(SteamWorkshopSyncError::Recieve), &config),
        Some("\"bin/the game\"".to_string())
    );
}

#[test]
fn launch_levelbuilder_is_never_gated() {
    assert_eq!(launch_levelbuilder(&config()), "\"bin/builder\"");
}

#[test]
fn gui_while_syncing_starts_only_the_levelbuilder() {
    let frame = gui(&SteamWorkshopSyncState::InProgress(1, 3), &config(), 2, 1);
    assert_eq!(
        frame,
        Frame {
            commands: vec!["\"bin/builder\"".to_string()],
            sync_label: "Syncing(1/3)\u{2026}".to_string(),
        }
    );
}

#[test]
fn gui_after_the_sync_starts_what_was_clicked() {
    let frame = gui(&SteamWorkshopSyncState::Done, &config(), 2, 1);
    assert_eq!(
        frame,
        Frame {
            commands: vec![
                "\"bin/the game\"".to_string(),
                "\"bin/the game\"".to_string(),
                "\"bin/builder\"".to_string(),
            ],
            sync_label: "Sync Complete".to_string(),
        }
    );
}

#[test]
fn gui_without_clicks_starts_nothing() {
    let state = SteamWorkshopSyncState::Failed(SteamWorkshopSyncError::MissingItemInfo);
    let frame = gui(&state, &config(), 0, 0);
    assert_eq!(frame, Frame { commands: Vec::new(), sync_label: "Sync Failed!".to_string() });
    let frame = gui(&SteamWorkshopSyncState::Starting, &config(), 3, 0);
    assert_eq!(frame, Frame { commands: Vec::new(), sync_label: "Syncing\u{2026}".to_string() });
}
