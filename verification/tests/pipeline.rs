use skeleton_sprint_launcher::install_info::ItemInstallInfo;
use skeleton_sprint_launcher::pipeline::{
    destination_path, SyncAction, SyncEvent, SyncPipeline, WorkshopItem,
};
use skeleton_sprint_launcher::sync_state::{SteamWorkshopSyncError, SteamWorkshopSyncState};

fn item(id: u64, title: &str) -> WorkshopItem {
    WorkshopItem { id, title: title.to_string() }
}

fn info(path: &str) -> ItemInstallInfo {
    ItemInstallInfo { path: path.to_string(), size: 10, timestamp: 20 }
}

/// Runs a sync as a caller would, against a workshop that knows the
/// `installed` items and a disk that refuses the copies to `refused`.
/// Returns the states that the tracker passed through and the copies made.
fn run_sync(
    answer: SyncEvent,
    installed: &[(u64, &str)],
    refused: &[&str],
) -> (Vec<SteamWorkshopSyncState>, Vec<(String, String)>, SyncPipeline) {
    let mut progress = SteamWorkshopSyncState::Starting;
    let mut seen = vec![progress.snapshot()];
    let mut copies = Vec::new();
    let mut run = SyncPipeline::new("sync".to_string());
    let mut answer = Some(answer);
    let mut action = run.pending();
    loop {
        let event = match action {
            SyncAction::AwaitQuery => answer.take().expect("the query is awaited once"),
            SyncAction::LookUp { id } => SyncEvent::InstallInfo(
                installed.iter().find(|(known, _)| *known == id).map(|(_, path)| info(path)),
            ),
            SyncAction::Copy { from, to } => {
                if refused.contains(&to.as_str()) {
                    SyncEvent::CopyFailed("permission denied".to_string())
                } else {
                    copies.push((from, to));
                    SyncEvent::Copied
                }
            }
            SyncAction::Stop => break,
        };
        action = run.step(&mut progress, event);
        if seen.last() != Some(&progress) {
            seen.push(progress.snapshot());
        }
    }
    (seen, copies, run)
}

#[test]
fn three_items_are_synced_in_order() {
    let answer = SyncEvent::QueryAnswered(vec![item(1, "Castle"), item(2, "Crypt"), item(3, "Cave")]);
    let installed = [(1, "/w/1"), (2, "/w/2"), (3, "/w/3")];
    let (seen, copies, run) = run_sync(answer, &installed, &[]);
    assert_eq!(
        seen,
        vec![
            SteamWorkshopSyncState::Starting,
            SteamWorkshopSyncState::InProgress(0, 3),
            SteamWorkshopSyncState::InProgress(1, 3),
            SteamWorkshopSyncState::InProgress(2, 3),
            SteamWorkshopSyncState::Done,
        ]
    );
    assert_eq!(
        copies,
        vec![
            ("/w/1".to_string(), "sync/Castle.txt".to_string()),
            ("/w/2".to_string(), "sync/Crypt.txt".to_string()),
            ("/w/3".to_string(), "sync/Cave.txt".to_string()),
        ]
    );
    assert!(run.is_finished());
}

#[test]
fn missing_install_info_fails_the_sync() {
    let answer = SyncEvent::QueryAnswered(vec![item(1, "Castle"), item(2, "Crypt")]);
    let installed = [(1, "/w/1")];
    let (seen, copies, run) = run_sync(answer, &installed, &[]);
    assert_eq!(
        seen,
        vec![
            SteamWorkshopSyncState::Starting,
            SteamWorkshopSyncState::InProgress(0, 2),
            SteamWorkshopSyncState::InProgress(1, 2),
            SteamWorkshopSyncState::Failed(SteamWorkshopSyncError::MissingItemInfo),
        ]
    );
    assert_eq!(copies, vec![("/w/1".to_string(), "sync/Castle.txt".to_string())]);
    assert!(!seen.last().unwrap().is_syncing());
    assert!(run.is_finished());
}

#[test]
fn closed_query_channel_fails_the_sync_at_once() {
    let (seen, copies, run) = run_sync(SyncEvent::QueryClosed, &[], &[]);
    assert_eq!(
        seen,
        vec![
            SteamWorkshopSyncState::Starting,
            SteamWorkshopSyncState::Failed(SteamWorkshopSyncError::Recieve),
        ]
    );
    assert!(copies.is_empty());
    assert!(run.is_finished());
}

#[test]
fn query_error_fails_the_sync_at_once() {
    let answer = SyncEvent::QueryFailed("method busy".to_string());
    let (seen, copies, _) = run_sync(answer, &[], &[]);
    assert_eq!(
        seen,
        vec![
            SteamWorkshopSyncState::Starting,
            SteamWorkshopSyncState::Failed(SteamWorkshopSyncError::Steam(
                "method busy".to_string()
            )),
        ]
    );
    assert!(copies.is_empty());
}

#[test]
fn failed_copy_fails_the_sync_and_keeps_earlier_copies() {
    let answer = SyncEvent::QueryAnswered(vec![item(1, "Castle"), item(2, "Crypt"), item(3, "Cave")]);
    let installed = [(1, "/w/1"), (2, "/w/2"), (3, "/w/3")];
    let (seen, copies, run) = run_sync(answer, &installed, &["sync/Crypt.txt"]);
    assert_eq!(
        seen.last(),
        Some(&SteamWorkshopSyncState::Failed(SteamWorkshopSyncError::Io(
            "permission denied".to_string()
        )))
    );
    assert_eq!(seen.len(), 4);
    assert_eq!(copies, vec![("/w/1".to_string(), "sync/Castle.txt".to_string())]);
    assert!(run.is_finished());
}

#[test]
fn empty_answer_is_done_at_once() {
    let (seen, copies, run) = run_sync(SyncEvent::QueryAnswered(Vec::new()), &[], &[]);
    assert_eq!(seen, vec![SteamWorkshopSyncState::Starting, SteamWorkshopSyncState::Done]);
    assert!(copies.is_empty());
    assert!(run.is_finished());
}

#[test]
fn new_pipeline_awaits_the_query() {
    let run = SyncPipeline::new("sync".to_string());
    assert_eq!(run.pending(), SyncAction::AwaitQuery);
    assert!(!run.is_finished());
}

#[test]
fn unexpected_events_change_nothing() {
    let mut progress = SteamWorkshopSyncState::Starting;
    let mut run = SyncPipeline::new("sync".to_string());
    assert_eq!(run.step(&mut progress, SyncEvent::Copied), SyncAction::AwaitQuery);
    assert_eq!(
        run.step(&mut progress, SyncEvent::InstallInfo(Some(info("/w/9")))),
        SyncAction::AwaitQuery
    );
    assert_eq!(progress, SteamWorkshopSyncState::Starting);

    let answer = SyncEvent::QueryAnswered(vec![item(4, "Keep")]);
    assert_eq!(run.step(&mut progress, answer), SyncAction::LookUp { id: 4 });
    assert_eq!(run.step(&mut progress, SyncEvent::Copied), SyncAction::LookUp { id: 4 });
    assert_eq!(run.step(&mut progress, SyncEvent::QueryClosed), SyncAction::LookUp { id: 4 });
    assert_eq!(progress, SteamWorkshopSyncState::InProgress(0, 1));

    let copy = SyncAction::Copy { from: "/w/4".to_string(), to: "sync/Keep.txt".to_string() };
    assert_eq!(run.step(&mut progress, SyncEvent::InstallInfo(Some(info("/w/4")))), copy);
    assert_eq!(run.step(&mut progress, SyncEvent::InstallInfo(None)), copy);
    assert_eq!(run.pending(), copy);
    assert_eq!(progress, SteamWorkshopSyncState::InProgress(0, 1));

    assert_eq!(run.step(&mut progress, SyncEvent::Copied), SyncAction::Stop);
    assert_eq!(progress, SteamWorkshopSyncState::Done);
    assert_eq!(run.step(&mut progress, SyncEvent::CopyFailed("late".to_string())), SyncAction::Stop);
    assert_eq!(run.step(&mut progress, SyncEvent::QueryAnswered(vec![item(5, "Moat")])), SyncAction::Stop);
    assert_eq!(progress, SteamWorkshopSyncState::Done);
}

#[test]
fn destination_path_is_title_with_txt_in_the_sync_dir() {
    assert_eq!(destination_path("sync", "Castle"), "sync/Castle.txt");
    assert_eq!(destination_path("/home/me/levels", "My Level"), "/home/me/levels/My Level.txt");
    assert_eq!(destination_path("sync", "notes.md"), "sync/notes.md.txt");
    assert_eq!(destination_path("sync", ""), "sync/.txt");
}
