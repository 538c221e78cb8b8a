//! The command-line tool: its subcommands, the service files its `setup`
//! command writes, the store address `serve` uses, and the checks made before
//! the terminal interface starts.
use vstd::prelude::*;
use crate::config::{path_join, join_path, Config, DatabaseMode};
use crate::text::{chars_eq, extend_chars, extend_str, from_chars, to_chars};

verus! {

/// Scheduled tasks.
pub enum CronTask {
    /// Sync every subscription.
    Sync,
    /// Translate the articles waiting for it.
    Translate,
    /// Summarise the articles waiting for it.
    Summarize,
}

/// Background job commands.
pub enum JobAction {
    /// List the jobs, of one status if given.
    List { status: Option<String> },
    /// Retry a job.
    Retry { id: String },
    /// Remove the finished jobs.
    Clear,
}

/// Translation API commands.
pub enum ApiAction {
    /// List the configurations.
    List,
    /// Add a configuration.
    Add { name: String, api_type: String, url: String, key: String },
    /// Delete a configuration.
    Delete { id: i64 },
}

/// Article commands.
pub enum ArticleAction {
    /// List articles, of one subscription, unread or starred only if asked.
    List { feed: Option<String>, unread: bool, starred: bool },
    /// Show an article as plain text.
    Read { id: i64 },
    /// Start a translation.
    Translate { id: i64 },
    /// Start a summary.
    Summarize { id: i64 },
    /// Toggle the star.
    Star { id: i64 },
    /// Mark as read.
    MarkRead { id: i64 },
}

/// Subscription commands.
pub enum SubAction {
    /// List the subscriptions.
    List,
    /// Add a subscription.
    Add { url: String, category: Option<String>, translate: bool, summary: bool },
    /// Edit a subscription.
    Edit { id: i64, title: Option<String>, category: Option<String> },
    /// Delete a subscription.
    Delete { id: i64 },
    /// Sync one subscription, or all of them.
    Sync { id: Option<i64> },
    /// Show the subscriptions no longer fetched.
    Inactive,
}

// ---------------------------------------------------------------------------
// Service set-up
// ---------------------------------------------------------------------------

/// The scheduler that runs the timed jobs.
pub enum Scheduler {
    /// systemd timers.
    Systemd,
    /// OpenRC with the periodic cron directories (Alpine).
    Alpine,
    /// No service manager found: the server runs the timed jobs itself on a
    /// built-in timer.
    Fallback,
    /// A name that was given and is not known.
    Unknown(String),
}

/// The scheduler found on a machine: systemd when its run directory exists,
/// else OpenRC (Alpine) when `/etc/init.d` does, else the built-in timer.
pub open spec fn detected_scheduler(systemd_present: bool, init_d_present: bool) -> Scheduler {
    if systemd_present {
        Scheduler::Systemd
    } else if init_d_present {
        Scheduler::Alpine
    } else {
        Scheduler::Fallback
    }
}

/// The scheduler of a machine, from what was probed.
pub fn detect_scheduler(systemd_present: bool, init_d_present: bool) -> (r: Scheduler)
    ensures
        r == detected_scheduler(systemd_present, init_d_present),
{
    if systemd_present {
        Scheduler::Systemd
    } else if init_d_present {
        Scheduler::Alpine
    } else {
        Scheduler::Fallback
    }
}

/// The scheduler named on the command line (`systemd` or `alpine`; any
/// other name is unknown), or, when none is named, the one detected.
pub fn scheduler_choice(named: Option<String>, systemd_present: bool, init_d_present: bool) -> (s: Scheduler)
    ensures
        (match named {
            None => s == detected_scheduler(systemd_present, init_d_present),
            Some(x) => if x@ == "systemd"@ {
                s is Systemd
            } else if x@ == "alpine"@ {
                s is Alpine
            } else {
                s matches Scheduler::Unknown(u) && u@ == x@
            },
        }),
{
    match named {
        None => detect_scheduler(systemd_present, init_d_present),
        Some(n) => {
            let c = to_chars(n.as_str());
            if chars_eq(&c, &to_chars("systemd")) {
                Scheduler::Systemd
            } else if chars_eq(&c, &to_chars("alpine")) {
                Scheduler::Alpine
            } else {
                Scheduler::Unknown(n)
            }
        },
    }
}

/// Whether `serve` runs the timed jobs on its own timer: only when the
/// scheduler is the built-in one and the timed jobs were not switched off.
pub fn runs_builtin_timer(no_cron: bool, s: &Scheduler) -> (b: bool)
    ensures
        b == (!no_cron && s is Fallback),
{
    !no_cron && match s {
        Scheduler::Fallback => true,
        _ => false,
    }
}

/// A file the set-up writes.
pub struct SetupFile {
    pub path: String,
    pub content: String,
    /// Whether it is made executable.
    pub executable: bool,
}

/// The systemd unit of the server.
pub open spec fn systemd_service_spec() -> Seq<char> {
    "[Unit]\nDescription=TranRSS - AI-powered RSS reader\nAfter=network.target\n\n[Service]\nType=simple\nExecStart=/usr/local/bin/tranrss serve\nRestart=on-failure\nRestartSec=5\n\n[Install]\nWantedBy=multi-user.target\n"@
}

/// The systemd timer of the periodic sync.
pub open spec fn systemd_timer_spec() -> Seq<char> {
    "[Unit]\nDescription=TranRSS Feed Sync Timer\n\n[Timer]\nOnBootSec=1min\nOnUnitActiveSec=30min\nPersistent=true\n\n[Install]\nWantedBy=timers.target\n"@
}

/// The systemd unit of the periodic sync.
pub open spec fn systemd_sync_spec() -> Seq<char> {
    "[Unit]\nDescription=TranRSS Feed Sync\n\n[Service]\nType=oneshot\nExecStart=/usr/local/bin/tranrss cron sync\n"@
}

/// The OpenRC script of the server.
pub open spec fn openrc_script_spec() -> Seq<char> {
    "#!/sbin/openrc-run\n\ncommand=\"/usr/local/bin/tranrss\"\ncommand_args=\"serve\"\ncommand_background=true\npidfile=\"/run/tranrss.pid\"\n\ndepend() {\n    need net\n}\n"@
}

/// The periodic script of the sync under OpenRC.
pub open spec fn openrc_sync_spec() -> Seq<char> {
    "#!/bin/sh\n/usr/local/bin/tranrss cron sync\n"@
}

fn setup_file(path: &str, content: &str, executable: bool) -> (f: SetupFile)
    ensures
        f.path@ == path@,
        f.content@ == content@,
        f.executable == executable,
{
    SetupFile {
        path: from_chars(&to_chars(path)),
        content: from_chars(&to_chars(content)),
        executable,
    }
}

/// The files the set-up writes: for systemd the server's unit and the sync's
/// timer and unit under `/etc/systemd/system`; for OpenRC the server's script
/// under `/etc/init.d` and the sync's script under `/etc/periodic/15min`,
/// both executable; none for the built-in timer, which needs no files, or
/// an unknown manager.
pub fn setup_files(s: &Scheduler) -> (r: Vec<SetupFile>)
    ensures
        s is Systemd ==> r.len() == 3 && r@[0].path@ == "/etc/systemd/system/tranrss.service"@
            && r@[0].content@ == systemd_service_spec() && !r@[0].executable && r@[1].path@
            == "/etc/systemd/system/tranrss-sync.timer"@ && r@[1].content@ == systemd_timer_spec()
            && !r@[1].executable && r@[2].path@ == "/etc/systemd/system/tranrss-sync.service"@
            && r@[2].content@ == systemd_sync_spec() && !r@[2].executable,
        s is Alpine ==> r.len() == 2 && r@[0].path@ == "/etc/init.d/tranrss"@ && r@[0].content@
            == openrc_script_spec() && r@[0].executable && r@[1].path@
            == "/etc/periodic/15min/tranrss-sync"@ && r@[1].content@ == openrc_sync_spec()
            && r@[1].executable,
        s is Fallback || s is Unknown ==> r.len() == 0,
{
    let mut v: Vec<SetupFile> = Vec::new();
    match s {
        Scheduler::Systemd => {
            v.push(
                setup_file(
                    "/etc/systemd/system/tranrss.service",
                    "[Unit]\nDescription=TranRSS - AI-powered RSS reader\nAfter=network.target\n\n[Service]\nType=simple\nExecStart=/usr/local/bin/tranrss serve\nRestart=on-failure\nRestartSec=5\n\n[Install]\nWantedBy=multi-user.target\n",
                    false,
                ),
            );
            v.push(
                setup_file(
                    "/etc/systemd/system/tranrss-sync.timer",
                    "[Unit]\nDescription=TranRSS Feed Sync Timer\n\n[Timer]\nOnBootSec=1min\nOnUnitActiveSec=30min\nPersistent=true\n\n[Install]\nWantedBy=timers.target\n",
                    false,
                ),
            );
            v.push(
                setup_file(
                    "/etc/systemd/system/tranrss-sync.service",
                    "[Unit]\nDescription=TranRSS Feed Sync\n\n[Service]\nType=oneshot\nExecStart=/usr/local/bin/tranrss cron sync\n",
                    false,
                ),
            );
        },
        Scheduler::Alpine => {
            v.push(
                setup_file(
                    "/etc/init.d/tranrss",
                    "#!/sbin/openrc-run\n\ncommand=\"/usr/local/bin/tranrss\"\ncommand_args=\"serve\"\ncommand_background=true\npidfile=\"/run/tranrss.pid\"\n\ndepend() {\n    need net\n}\n",
                    true,
                ),
            );
            v.push(
                setup_file(
                    "/etc/periodic/15min/tranrss-sync",
                    "#!/bin/sh\n/usr/local/bin/tranrss cron sync\n",
                    true,
                ),
            );
        },
        Scheduler::Fallback => {},
        Scheduler::Unknown(_) => {},
    }
    v
}

// ---------------------------------------------------------------------------
// Serving and the terminal interface
// ---------------------------------------------------------------------------

/// The store address of the server a mode starts.
pub open spec fn serve_database_url_spec(m: DatabaseMode, env_url: Option<Seq<char>>) -> Seq<char> {
    match m {
        DatabaseMode::Remote { .. } => match env_url {
            Some(u) => u,
            None => "sqlite:/app/data/data.database"@,
        },
        DatabaseMode::Local { db_path } => "sqlite:"@ + db_path@,
        DatabaseMode::Fresh { data_dir } => "sqlite:"@ + path_join(data_dir@, "data.database"@),
    }
}

/// The store address `serve` uses: for a remote mode `DATABASE_URL` or the
/// container's default, for a local mode its file, for a fresh mode the
/// `data.database` file of its directory.
pub fn serve_database_url(config: &Config, env_url: Option<String>) -> (r: String)
    ensures
        r@ == serve_database_url_spec(
            config.database,
            match env_url {
                Some(u) => Some(u@),
                None => None,
            },
        ),
{
    match &config.database {
        DatabaseMode::Remote { .. } => match env_url {
            Some(u) => u,
            None => String::from_str("sqlite:/app/data/data.database"),
        },
        DatabaseMode::Local { db_path } => {
            let mut v = to_chars("sqlite:");
            extend_str(&mut v, db_path.as_str());
            from_chars(&v)
        },
        DatabaseMode::Fresh { data_dir } => {
            let mut v = to_chars("sqlite:");
            let p = join_path(&to_chars(data_dir.as_str()), "data.database");
            extend_chars(&mut v, &p);
            from_chars(&v)
        },
    }
}

/// Why the terminal interface cannot start.
pub enum TuiSetupError {
    /// The remote mode lacks its server or key.
    RemoteUnset,
    /// The local mode lacks its database file.
    DbPathUnset,
    /// The local mode's database file does not exist.
    DbMissing(String),
    /// The fresh mode lacks its directory.
    DataDirUnset,
}

/// The checks made before the terminal interface starts: the mode's settings
/// are filled in and a local database exists.
pub fn tui_readiness(config: &Config, db_file_exists: bool) -> (r: Result<(), TuiSetupError>)
    ensures
        match config.database {
            DatabaseMode::Remote { server, api_key } => if server@.len() == 0 || api_key@.len() == 0 {
                r matches Err(TuiSetupError::RemoteUnset)
            } else {
                r is Ok
            },
            DatabaseMode::Local { db_path } => if db_path@.len() == 0 {
                r matches Err(TuiSetupError::DbPathUnset)
            } else if !db_file_exists {
                r matches Err(TuiSetupError::DbMissing(p)) && p@ == db_path@
            } else {
                r is Ok
            },
            DatabaseMode::Fresh { data_dir } => if data_dir@.len() == 0 {
                r matches Err(TuiSetupError::DataDirUnset)
            } else {
                r is Ok
            },
        },
{
    match &config.database {
        DatabaseMode::Remote { server, api_key } => {
            if to_chars(server.as_str()).len() == 0 || to_chars(api_key.as_str()).len() == 0 {
                Err(TuiSetupError::RemoteUnset)
            } else {
                Ok(())
            }
        },
        DatabaseMode::Local { db_path } => {
            if to_chars(db_path.as_str()).len() == 0 {
                Err(TuiSetupError::DbPathUnset)
            } else if !db_file_exists {
                Err(TuiSetupError::DbMissing(db_path.clone()))
            } else {
                Ok(())
            }
        },
        DatabaseMode::Fresh { data_dir } => {
            if to_chars(data_dir.as_str()).len() == 0 {
                Err(TuiSetupError::DataDirUnset)
            } else {
                Ok(())
            }
        },
    }
}

} // verus!
