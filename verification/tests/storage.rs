use jwst_sync::storage::{
    log_level_named, parse_log_level, sqlite_url, JwstError, JwstStorage, LogLevel, SyncState,
};

#[test]
fn level_names_are_case_insensitive_and_default_to_debug() {
    assert_eq!(parse_log_level("trace"), LogLevel::Trace);
    assert_eq!(parse_log_level("TRACE"), LogLevel::Trace);
    assert_eq!(parse_log_level("Debug"), LogLevel::Debug);
    assert_eq!(parse_log_level("iNfO"), LogLevel::Info);
    assert_eq!(parse_log_level("WARN"), LogLevel::Warn);
    assert_eq!(parse_log_level("error"), LogLevel::Error);
    assert_eq!(parse_log_level("verbose"), LogLevel::Debug);
    assert_eq!(parse_log_level(""), LogLevel::Debug);
    assert_eq!(log_level_named("WARN"), LogLevel::Debug);
    assert_eq!(log_level_named("warn"), LogLevel::Warn);
}

#[test]
fn database_url() {
    assert_eq!(sqlite_url("/data/jwst.db"), "sqlite:/data/jwst.db?mode=rwc");
    assert_eq!(sqlite_url(""), "sqlite:?mode=rwc");
}

#[test]
fn new_handle_is_offline_and_unopened() {
    let s = JwstStorage::new("db");
    assert_eq!(s.log_level(), LogLevel::Debug);
    assert_eq!(s.database_url(), "sqlite:db?mode=rwc");
    assert_eq!(s.error(), None);
    assert!(s.is_offline());
    assert_eq!(s.get_sync_state(), "offline");
    let s = JwstStorage::new_with_logger_level("db2", "Info");
    assert_eq!(s.log_level(), LogLevel::Info);
    assert_eq!(s.database_url(), "sqlite:db2?mode=rwc");
}

#[test]
fn failed_open_is_recorded_and_blocks_workspaces() {
    let mut s = JwstStorage::new("db");
    s.record_open(Err("unable to open database file".to_string()));
    assert_eq!(s.error(), Some("unable to open database file".to_string()));
    match s.sync("ws1", "ws://remote") {
        Err(JwstError::WorkspaceNotInitialized(id)) => assert_eq!(id, "ws1"),
        Ok(_) => panic!("an unopened storage reaches no workspace"),
    }
    let failed = s.sync("ws1", "");
    assert_eq!(s.connect::<bool>(failed), None);
    assert_eq!(s.error(), Some("workspace ws1 not initialized".to_string()));
}

#[test]
fn opened_storage_plans_remote_sync_only_with_an_address() {
    let mut s = JwstStorage::new("db");
    s.record_open(Ok(()));
    assert!(matches!(s.sync("ws1", "ws://remote"), Ok(true)));
    assert!(matches!(s.sync("ws1", ""), Ok(false)));
    assert_eq!(s.connect::<u32>(Ok(7)), Some(7));
    assert_eq!(s.error(), None);
}

#[test]
fn state_questions_and_names() {
    let mut s = JwstStorage::new("db");
    let cases = vec![
        (SyncState::Offline, "offline"),
        (SyncState::Syncing, "syncing"),
        (SyncState::Initialized, "initialized"),
        (SyncState::Finished, "finished"),
        (SyncState::Error("boom".to_string()), "Error"),
    ];
    for (state, name) in cases {
        s.set_sync_state(state);
        assert_eq!(s.get_sync_state(), name);
        let answers = [s.is_offline(), s.is_syncing(), s.is_initialized(), s.is_finished(), s.is_error()];
        assert_eq!(answers.iter().filter(|b| **b).count(), 1);
        assert_eq!(s.is_offline(), name == "offline");
        assert_eq!(s.is_syncing(), name == "syncing");
        assert_eq!(s.is_initialized(), name == "initialized");
        assert_eq!(s.is_finished(), name == "finished");
        assert_eq!(s.is_error(), name == "Error");
    }
}

#[test]
fn error_message_of_unopened_storage() {
    let e = JwstError::WorkspaceNotInitialized("abc".to_string());
    assert_eq!(e.to_message(), "workspace abc not initialized");
}
