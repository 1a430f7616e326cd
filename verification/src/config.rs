//! The launcher's settings: where the workshop items are mirrored, and which
//! programs the two buttons start.

use vstd::prelude::*;

verus! {

/// The settings of one launch target.
#[derive(Debug, PartialEq, Eq)]
pub struct LaunchConfig {
    /// The path of the executable.
    pub path: String,
}

/// The launcher's settings.
#[derive(Debug, PartialEq, Eq)]
pub struct Config {
    /// The directory into which the workshop items are copied.
    pub workshop_sync_path: String,
    /// The level builder.
    pub levelbuilder: LaunchConfig,
    /// The game.
    pub game: LaunchConfig,
}

impl Config {
    /// The directory into which the workshop items are copied.
    pub fn get_workshop_sync_path(&self) -> (path: &String)
        ensures
            *path == self.workshop_sync_path,
    {
        &self.workshop_sync_path
    }

    /// The path of the game's executable.
    pub fn get_game_path(&self) -> (path: &String)
        ensures
            *path == self.game.path,
    {
        &self.game.path
    }

    /// The path of the level builder's executable.
    pub fn get_levelbuilder_path(&self) -> (path: &String)
        ensures
            *path == self.levelbuilder.path,
    {
        &self.levelbuilder.path
    }
}

} // verus!
