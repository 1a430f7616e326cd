//! What the launcher's window decides in one frame: which programs the
//! clicks start, and what the status label says.

use crate::config::Config;
use crate::sync_state::SteamWorkshopSyncState;
use vstd::prelude::*;
use vstd::string::*;

verus! {

/// The command line that starts the program at `path`: the path between
/// double quotes.
pub open spec fn quoted(path: Seq<char>) -> Seq<char> {
    seq!['"'] + path + seq!['"']
}

/// The command line that starts the program at `path`. The caller hands it
/// to the system's shell and does not wait for the program.
pub fn open_program(path: &str) -> (command: String)
    ensures
        command@ == quoted(path@),
{
    proof {
        reveal_strlit("\"");
    }
    let mut command: String = String::from_str("\"");
    command.append(path);
    command.append("\"");
    assert(command@ =~= quoted(path@));
    command
}

/// What a click on "Launch Game" starts: nothing while the sync is running,
/// the game otherwise.
pub fn launch_game(state: &SteamWorkshopSyncState, config: &Config) -> (command: Option<String>)
    ensures
        command is None <==> state@.syncing(),
        command matches Some(c) ==> c@ == quoted(config.game.path@),
{
    if state.is_syncing() {
        None
    } else {
        Some(open_program(config.get_game_path().as_str()))
    }
}

/// What a click on "Launch Levelbuilder" starts: the level builder, whatever
/// the sync is doing.
pub fn launch_levelbuilder(config: &Config) -> (command: String)
    ensures
        command@ == quoted(config.levelbuilder.path@),
{
    open_program(config.get_levelbuilder_path().as_str())
}

/// What one frame of the window comes to.
#[derive(Debug, PartialEq, Eq)]
pub struct Frame {
    /// The command lines to run, in this order.
    pub commands: Vec<String>,
    /// The text of the status label.
    pub sync_label: String,
}

/// The command lines of a frame: one start of the game for each click on its
/// button unless the sync is running, then one start of the level builder for
/// each click on its button.
pub open spec fn frame_commands(
    syncing: bool,
    game_path: Seq<char>,
    levelbuilder_path: Seq<char>,
    game_clicks: nat,
    levelbuilder_clicks: nat,
) -> Seq<Seq<char>> {
    let game_starts = if syncing {
        0
    } else {
        game_clicks
    };
    Seq::new(game_starts, |i: int| quoted(game_path)) + Seq::new(
        levelbuilder_clicks,
        |i: int| quoted(levelbuilder_path),
    )
}

/// The texts of a sequence of strings.
pub open spec fn texts(strings: Seq<String>) -> Seq<Seq<char>> {
    strings.map_values(|s: String| s@)
}

/// One frame of the window: given the state of the sync, the settings, and
/// how often each button was clicked since the last frame, the programs to
/// start and the text of the status label.
pub fn gui(
    state: &SteamWorkshopSyncState,
    config: &Config,
    game_clicks: u16,
    levelbuilder_clicks: u16,
) -> (frame: Frame)
    ensures
        texts(frame.commands@) == frame_commands(
            state@.syncing(),
            config.game.path@,
            config.levelbuilder.path@,
            game_clicks as nat,
            levelbuilder_clicks as nat,
        ),
        frame.sync_label@ == state@.label(),
{
    let mut commands: Vec<String> = Vec::new();
    let ghost game = quoted(config.game.path@);
    let ghost levelbuilder = quoted(config.levelbuilder.path@);
    let mut clicks: u16 = 0;
    while clicks < game_clicks
        invariant
            clicks <= game_clicks,
            game == quoted(config.game.path@),
            texts(commands@) == Seq::new(
                if state@.syncing() {
                    0
                } else {
                    clicks as nat
                },
                |i: int| game,
            ),
        decreases game_clicks - clicks,
    {
        let ghost before = commands@;
        match launch_game(state, config) {
            Some(command) => {
                commands.push(command);
                assert(texts(commands@) =~= texts(before).push(game));
            },
            None => {},
        }
        clicks += 1;
    }
    let ghost game_part = texts(commands@);
    let mut clicks: u16 = 0;
    while clicks < levelbuilder_clicks
        invariant
            clicks <= levelbuilder_clicks,
            levelbuilder == quoted(config.levelbuilder.path@),
            texts(commands@) == game_part + Seq::new(clicks as nat, |i: int| levelbuilder),
        decreases levelbuilder_clicks - clicks,
    {
        let ghost before = commands@;
        let command: String = launch_levelbuilder(config);
        commands.push(command);
        assert(texts(commands@) =~= texts(before).push(levelbuilder));
        clicks += 1;
    }
    Frame { commands, sync_label: state.label() }
}

} // verus!
