//! A storage handle as the embedding application sees it: how it is opened, what went
//! wrong last, and where the synchronisation of its workspace stands.

use vstd::prelude::*;
use vstd::string::StringExecFns;
use crate::client::needs_remote_sync;
use crate::message::same_text;

verus! {

/// Where the synchronisation of a workspace with its remote peer stands.
pub enum SyncState {
    Offline,
    Syncing,
    Initialized,
    Finished,
    Error(String),
}

/// The level of the platform logger.
#[derive(Clone, Copy, PartialEq, Eq, Structural, Debug)]
pub enum LogLevel {
    Trace,
    Debug,
    Info,
    Warn,
    Error,
}

/// An error of the storage layer.
pub enum JwstError {
    /// The storage was not opened, so the named workspace cannot be reached.
    WorkspaceNotInitialized(String),
}

/// The text that `str::to_lowercase` makes of `s` (Unicode lower-case mapping).
pub uninterp spec fn lowercase(s: Seq<char>) -> Seq<char>;

/// Whether every character of `s` is ASCII.
pub open spec fn ascii_text(s: Seq<char>) -> bool {
    forall|i: int| 0 <= i < s.len() ==> (#[trigger] s[i] as u32) < 128
}

/// The lower case of an ASCII character: `A` to `Z` become `a` to `z`.
pub open spec fn ascii_lower_char(c: char) -> char {
    if 'A' <= c && c <= 'Z' {
        ((c as u32) + 32) as char
    } else {
        c
    }
}

/// The lower case of an ASCII text.
pub open spec fn ascii_lower(s: Seq<char>) -> Seq<char> {
    s.map_values(|c: char| ascii_lower_char(c))
}

/// Calls `str::to_lowercase`. Its result is named `lowercase` of the input: the Unicode
/// case tables are not written out here. On ASCII text it maps `A` to `Z` to `a` to `z`
/// and keeps every other character.
#[verifier::external_body]
fn to_lowercase(s: &str) -> (lower: String)
    ensures
        lower@ == lowercase(s@),
        ascii_text(s@) ==> lower@ == ascii_lower(s@),
{
    s.to_lowercase()
}

/// The logger level that a lower-case level name selects; unknown names select `Debug`.
pub open spec fn level_named(name: Seq<char>) -> LogLevel {
    if name == "trace"@ {
        LogLevel::Trace
    } else if name == "debug"@ {
        LogLevel::Debug
    } else if name == "info"@ {
        LogLevel::Info
    } else if name == "warn"@ {
        LogLevel::Warn
    } else if name == "error"@ {
        LogLevel::Error
    } else {
        LogLevel::Debug
    }
}

/// The logger level that a lower-case level name selects.
pub fn log_level_named(name: &str) -> (level: LogLevel)
    ensures
        level == level_named(name@),
{
    proof {
        reveal_strlit("trace");
        reveal_strlit("debug");
        reveal_strlit("info");
        reveal_strlit("warn");
        reveal_strlit("error");
    }
    if same_text(name, "trace") {
        LogLevel::Trace
    } else if same_text(name, "debug") {
        LogLevel::Debug
    } else if same_text(name, "info") {
        LogLevel::Info
    } else if same_text(name, "warn") {
        LogLevel::Warn
    } else if same_text(name, "error") {
        LogLevel::Error
    } else {
        LogLevel::Debug
    }
}

/// The logger level that a level name selects, whatever its letter case.
pub fn parse_log_level(level: &str) -> (parsed: LogLevel)
    ensures
        parsed == level_named(lowercase(level@)),
        ascii_text(level@) ==> parsed == level_named(ascii_lower(level@)),
{
    let lower = to_lowercase(level);
    log_level_named(lower.as_str())
}

/// The address of the SQLite database at `path`, opened for reading and writing and
/// created when missing.
pub open spec fn sqlite_url_of(path: Seq<char>) -> Seq<char> {
    "sqlite:"@ + path + "?mode=rwc"@
}

/// The address of the SQLite database at `path`.
pub fn sqlite_url(path: &str) -> (url: String)
    ensures
        url@ == sqlite_url_of(path@),
{
    let mut url = String::from_str("sqlite:");
    url.append(path);
    url.append("?mode=rwc");
    url
}

/// The name under which a sync state is reported.
pub open spec fn state_name(state: SyncState) -> Seq<char> {
    match state {
        SyncState::Offline => "offline"@,
        SyncState::Syncing => "syncing"@,
        SyncState::Initialized => "initialized"@,
        SyncState::Finished => "finished"@,
        SyncState::Error(_) => "Error"@,
    }
}

/// The message recorded for an error of the storage layer.
pub open spec fn error_message(e: JwstError) -> Seq<char> {
    match e {
        JwstError::WorkspaceNotInitialized(id) => "workspace "@ + id@ + " not initialized"@,
    }
}

impl JwstError {
    /// The message recorded for this error.
    pub fn to_message(&self) -> (text: String)
        ensures
            text@ == error_message(*self),
    {
        match self {
            JwstError::WorkspaceNotInitialized(id) => {
                let mut text = String::from_str("workspace ");
                text.append(id.as_str());
                text.append(" not initialized");
                text
            },
        }
    }
}

/// A storage handle: how it is to be opened, whether it opened, the last error, and the
/// sync state of its workspace.
pub struct JwstStorage {
    log_level: LogLevel,
    database_url: String,
    opened: bool,
    error: Option<String>,
    sync_state: SyncState,
}

impl JwstStorage {
    /// The logger level that the handle was made with.
    pub closed spec fn spec_log_level(&self) -> LogLevel {
        self.log_level
    }

    /// The database address that the handle was made with.
    pub closed spec fn spec_database_url(&self) -> Seq<char> {
        self.database_url@
    }

    /// Whether the storage opened.
    pub closed spec fn spec_opened(&self) -> bool {
        self.opened
    }

    /// The last error, as a message.
    pub closed spec fn spec_error(&self) -> Option<Seq<char>> {
        match self.error {
            Some(e) => Some(e@),
            None => None,
        }
    }

    /// The sync state.
    pub closed spec fn spec_sync_state(&self) -> SyncState {
        self.sync_state
    }

    /// A handle on the database at `path`, with the logger at `debug`, not opened yet.
    pub fn new(path: &str) -> (s: JwstStorage)
        ensures
            s.spec_log_level() == LogLevel::Debug,
            s.spec_database_url() == sqlite_url_of(path@),
            !s.spec_opened(),
            s.spec_error() is None,
            s.spec_sync_state() is Offline,
    {
        proof {
            reveal_strlit("debug");
            reveal_strlit("trace");
            assert(ascii_text("debug"@));
            assert(ascii_lower("debug"@) =~= "debug"@);
            assert("debug"@ != "trace"@) by {
                assert("debug"@[0] != "trace"@[0]);
            }
        }
        Self::new_with_logger_level(path, "debug")
    }

    /// A handle on the database at `path`, with the logger at the level named `level`
    /// (any letter case; an unknown name selects `debug`), not opened yet.
    pub fn new_with_logger_level(path: &str, level: &str) -> (s: JwstStorage)
        ensures
            s.spec_log_level() == level_named(lowercase(level@)),
            ascii_text(level@) ==> s.spec_log_level() == level_named(ascii_lower(level@)),
            s.spec_database_url() == sqlite_url_of(path@),
            !s.spec_opened(),
            s.spec_error() is None,
            s.spec_sync_state() is Offline,
    {
        JwstStorage {
            log_level: parse_log_level(level),
            database_url: sqlite_url(path),
            opened: false,
            error: None,
            sync_state: SyncState::Offline,
        }
    }

    /// The logger level to install.
    pub fn log_level(&self) -> (level: LogLevel)
        ensures
            level == self.spec_log_level(),
    {
        self.log_level
    }

    /// The database address to open.
    pub fn database_url(&self) -> (url: &str)
        ensures
            url@ == self.spec_database_url(),
    {
        self.database_url.as_str()
    }

    /// Records how opening the database went: on failure, its message becomes the error.
    pub fn record_open(&mut self, opened: Result<(), String>)
        ensures
            final(self).spec_opened() == opened is Ok,
            final(self).spec_error() == match opened {
                Ok(_) => old(self).spec_error(),
                Err(m) => Some(m@),
            },
            final(self).spec_log_level() == old(self).spec_log_level(),
            final(self).spec_database_url() == old(self).spec_database_url(),
            final(self).spec_sync_state() == old(self).spec_sync_state(),
    {
        match opened {
            Ok(()) => {
                self.opened = true;
            },
            Err(m) => {
                self.opened = false;
                self.error = Some(m);
            },
        }
    }

    /// The last error.
    pub fn error(&self) -> (e: Option<String>)
        ensures
            match e {
                Some(m) => self.spec_error() == Some(m@),
                None => self.spec_error() is None,
            },
    {
        match &self.error {
            Some(m) => Some(m.clone()),
            None => None,
        }
    }

    /// Records the sync state that the sync thread reached.
    pub fn set_sync_state(&mut self, state: SyncState)
        ensures
            final(self).spec_sync_state() == state,
            final(self).spec_error() == old(self).spec_error(),
            final(self).spec_opened() == old(self).spec_opened(),
            final(self).spec_log_level() == old(self).spec_log_level(),
            final(self).spec_database_url() == old(self).spec_database_url(),
    {
        self.sync_state = state;
    }

    /// Whether the workspace is not synced with a remote peer.
    pub fn is_offline(&self) -> (b: bool)
        ensures
            b == self.spec_sync_state() is Offline,
    {
        match self.sync_state {
            SyncState::Offline => true,
            _ => false,
        }
    }

    /// Whether the first sync with the remote peer is done.
    pub fn is_initialized(&self) -> (b: bool)
        ensures
            b == self.spec_sync_state() is Initialized,
    {
        match self.sync_state {
            SyncState::Initialized => true,
            _ => false,
        }
    }

    /// Whether the workspace is being synced.
    pub fn is_syncing(&self) -> (b: bool)
        ensures
            b == self.spec_sync_state() is Syncing,
    {
        match self.sync_state {
            SyncState::Syncing => true,
            _ => false,
        }
    }

    /// Whether the synchronisation is over.
    pub fn is_finished(&self) -> (b: bool)
        ensures
            b == self.spec_sync_state() is Finished,
    {
        match self.sync_state {
            SyncState::Finished => true,
            _ => false,
        }
    }

    /// Whether the synchronisation failed.
    pub fn is_error(&self) -> (b: bool)
        ensures
            b == self.spec_sync_state() is Error,
    {
        match self.sync_state {
            SyncState::Error(_) => true,
            _ => false,
        }
    }

    /// The name of the sync state.
    pub fn get_sync_state(&self) -> (name: String)
        ensures
            name@ == state_name(self.spec_sync_state()),
    {
        proof {
            reveal_strlit("offline");
            reveal_strlit("syncing");
            reveal_strlit("initialized");
            reveal_strlit("finished");
            reveal_strlit("Error");
        }
        match self.sync_state {
            SyncState::Offline => String::from_str("offline"),
            SyncState::Syncing => String::from_str("syncing"),
            SyncState::Initialized => String::from_str("initialized"),
            SyncState::Finished => String::from_str("finished"),
            SyncState::Error(_) => String::from_str("Error"),
        }
    }

    /// Decides how the workspace `workspace_id` is reached: an error when the storage did
    /// not open; otherwise whether it is also synced with the remote peer at `remote`.
    pub fn sync(&self, workspace_id: &str, remote: &str) -> (plan: Result<bool, JwstError>)
        ensures
            match plan {
                Ok(with_remote) => self.spec_opened() && with_remote == (remote@.len() > 0),
                Err(JwstError::WorkspaceNotInitialized(id)) => !self.spec_opened() && id@
                    == workspace_id@,
            },
    {
        if self.opened {
            Ok(needs_remote_sync(remote))
        } else {
            Err(JwstError::WorkspaceNotInitialized(String::from_str(workspace_id)))
        }
    }

    /// Hands on the workspace that a sync attempt reached, or records why it failed.
    pub fn connect<W>(&mut self, synced: Result<W, JwstError>) -> (workspace: Option<W>)
        ensures
            match synced {
                Ok(w) => workspace == Some(w) && final(self).spec_error() == old(self).spec_error(),
                Err(e) => workspace is None && final(self).spec_error() == Some(error_message(e)),
            },
            final(self).spec_opened() == old(self).spec_opened(),
            final(self).spec_sync_state() == old(self).spec_sync_state(),
            final(self).spec_log_level() == old(self).spec_log_level(),
            final(self).spec_database_url() == old(self).spec_database_url(),
    {
        match synced {
            Ok(w) => Some(w),
            Err(e) => {
                self.error = Some(e.to_message());
                None
            },
        }
    }
}

/// Exactly one of the state questions holds of any sync state, and the reported name
/// tells which.
pub proof fn law_one_state_at_a_time(s: SyncState)
    ensures
        (s is Offline) as int + (s is Syncing) as int + (s is Initialized) as int + (
        s is Finished) as int + (s is Error) as int == 1,
        state_name(s) == "offline"@ <==> s is Offline,
        state_name(s) == "syncing"@ <==> s is Syncing,
        state_name(s) == "initialized"@ <==> s is Initialized,
        state_name(s) == "finished"@ <==> s is Finished,
        state_name(s) == "Error"@ <==> s is Error,
{
    reveal_strlit("offline");
    reveal_strlit("syncing");
    reveal_strlit("initialized");
    reveal_strlit("finished");
    reveal_strlit("Error");
    let names = seq!["offline"@, "syncing"@, "initialized"@, "finished"@, "Error"@];
    assert(names[0][0] == 'o' && names[1][0] == 's' && names[2][0] == 'i' && names[3][0] == 'f'
        && names[4][0] == 'E');
}

} // verus!
