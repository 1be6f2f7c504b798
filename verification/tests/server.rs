use media_recommendation_engine::server::{
    deletion_plan, deletion_scripts, listen_address, should_restart, DeleteKind, Lifecycle,
};
use media_recommendation_engine::settings::{
    watch_event, watch_file_read, watch_round, watch_start, WatchAction, WatchEvent, WatchFlags,
};

#[test]
fn deletion_plan_runs_each_script_once() {
    let plan = deletion_plan(&vec![DeleteKind::Users, DeleteKind::Sessions, DeleteKind::Users]);
    assert!(!plan.delete_database_files);
    assert_eq!(plan.kinds, vec![DeleteKind::Users, DeleteKind::Sessions]);
    assert_eq!(deletion_scripts(&plan), vec!["users.sql", "sessions.sql"]);
}

#[test]
fn deleting_everything_removes_the_database_files() {
    let plan = deletion_plan(&vec![DeleteKind::All, DeleteKind::Indexing, DeleteKind::StorageLocations]);
    assert!(plan.delete_database_files);
    assert_eq!(plan.kinds, vec![DeleteKind::Indexing, DeleteKind::StorageLocations]);
    assert_eq!(deletion_scripts(&plan), vec!["indexing.sql", "storage_locations.sql"]);
    let nothing = deletion_plan(&vec![]);
    assert!(!nothing.delete_database_files);
    assert!(nothing.kinds.is_empty());
}

#[test]
fn server_listens_on_all_interfaces() {
    assert_eq!(listen_address(3000), "0.0.0.0:3000");
    assert_eq!(listen_address(0), "0.0.0.0:0");
}

#[test]
fn stopping_and_restarting() {
    let mut l = Lifecycle::Running;
    assert!(!l.cancelled());
    l.restart();
    assert_eq!(l, Lifecycle::Restarting);
    assert!(l.cancelled());
    let mut l = Lifecycle::Running;
    l.shutdown();
    assert_eq!(l, Lifecycle::ShuttingDown);
    assert!(should_restart(Some(true)));
    assert!(!should_restart(Some(false)));
    assert!(!should_restart(None));
}

#[test]
fn config_watcher_rounds() {
    let f = watch_start();
    let (f, action) = watch_round(f);
    assert_eq!(action, WatchAction::ReadFile);
    let f = watch_file_read(f);
    assert!(f.file_is_update_origin);
    let f = watch_event(f, WatchEvent::FileModified).unwrap();
    let (f, action) = watch_round(f);
    assert_eq!(action, WatchAction::ReadFile);
    assert_eq!(f, WatchFlags { update_file: false, file_is_update_origin: false });
    let f = watch_event(f, WatchEvent::SettingsChanged).unwrap();
    let (_, action) = watch_round(f);
    assert_eq!(action, WatchAction::WriteFile);
    assert_eq!(watch_event(f, WatchEvent::Shutdown), None);
}
