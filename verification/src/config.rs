use vstd::prelude::*;

verus! {

/// The archiver repository: where archives are stored and how they are
/// encrypted.
#[derive(Debug, Clone)]
pub struct Repository {
    pub path: String,
    pub encryption: String,
}

/// One backup source. Only `enabled` jobs contribute a source path and
/// exclusion flags to a backup cycle; disabled jobs are carried but inert.
#[derive(Debug, Clone)]
pub struct BackupJob {
    pub name: String,
    pub source: String,
    pub destination: String,
    pub enabled: bool,
    pub exclude: Vec<String>,
}

/// The default value for a backup job's `enabled` field.
pub fn default_true() -> (r: bool)
    ensures
        r == true,
{
    true
}

/// Boolean flags forwarded to the archiver's `create` invocation.
#[derive(Debug, Clone)]
pub struct Options {
    pub one_file_system: bool,
    pub exclude_caches: bool,
    pub show_progress: bool,
    pub show_stats: bool,
}

/// Retention policy: the six knobs passed verbatim to `prune`.
#[derive(Debug, Clone)]
pub struct Retention {
    pub within: String,
    pub hourly: u32,
    pub daily: u32,
    pub weekly: u32,
    pub monthly: u32,
    pub yearly: u32,
}

/// Failure-notification target. When `enabled` is false, no outbound mail
/// attempt is ever made.
#[derive(Debug, Clone)]
pub struct Notifications {
    pub enabled: bool,
    pub email: String,
}

/// Paths of the append-only log file and the advisory lock marker.
#[derive(Debug, Clone)]
pub struct Logging {
    pub log_file: String,
    pub lock_file: String,
}

/// Maintenance schedule: `check_day` is 0 (never) or an ISO weekday 1..=7;
/// `auto_compact` gates the compact stage.
#[derive(Debug, Clone)]
pub struct Maintenance {
    pub check_day: u32,
    pub auto_compact: bool,
}

/// Where the repository passphrase is read from.
#[derive(Debug, Clone)]
pub struct Security {
    pub passphrase_file: String,
}

/// Immutable snapshot of the whole configuration, loaded once per invocation.
#[derive(Debug, Clone)]
pub struct Config {
    pub repository: Repository,
    pub jobs: Vec<BackupJob>,
    pub exclusions: Vec<String>,
    pub compression: String,
    pub options: Options,
    pub retention: Retention,
    pub notifications: Notifications,
    pub logging: Logging,
    pub maintenance: Maintenance,
    pub security: Security,
}

impl Config {
    /// A configuration is well formed when its check day is 0 (disabled) or
    /// an ISO weekday 1..=7.
    pub open spec fn valid(&self) -> bool {
        self.maintenance.check_day <= 7
    }

    /// The built-in example configuration: two enabled jobs backing up system
    /// configuration and home directories into a local repository.
    pub fn example() -> (c: Config)
        ensures
            c.valid(),
            c.repository.path@ == "/tmp/borg"@,
            c.repository.encryption@ == "repokey-blake2"@,
            c.jobs@.len() == 2,
            c.jobs@[0].name@ == "system-config"@,
            c.jobs@[0].source@ == "/etc"@,
            c.jobs@[0].destination@ == "etc"@,
            c.jobs@[0].enabled,
            c.jobs@[0].exclude@.len() == 0,
            c.jobs@[1].name@ == "user-homes"@,
            c.jobs@[1].source@ == "/home"@,
            c.jobs@[1].destination@ == "home"@,
            c.jobs@[1].enabled,
            c.jobs@[1].exclude@.len() == 1,
            c.jobs@[1].exclude@[0]@ == "*/.cache/*"@,
            c.exclusions@.len() == 0,
            c.compression@ == "lz4"@,
            c.options.one_file_system,
            c.options.exclude_caches,
            !c.options.show_progress,
            c.options.show_stats,
            c.retention.within@ == "24H"@,
            c.retention.hourly == 24,
            c.retention.daily == 7,
            c.retention.weekly == 4,
            c.retention.monthly == 6,
            c.retention.yearly == 1,
            !c.notifications.enabled,
            c.notifications.email@ == "root@localhost"@,
            c.logging.log_file@ == "/var/log/borg-backup.log"@,
            c.logging.lock_file@ == "/tmp/borg-backup.lock"@,
            c.maintenance.check_day == 7,
            c.maintenance.auto_compact,
            c.security.passphrase_file@ == "/root/.borg-passphrase"@,
    {
        let system_config = BackupJob {
            name: String::from_str("system-config"),
            source: String::from_str("/etc"),
            destination: String::from_str("etc"),
            enabled: true,
            exclude: Vec::new(),
        };
        let mut user_excludes: Vec<String> = Vec::new();
        user_excludes.push(String::from_str("*/.cache/*"));
        let user_homes = BackupJob {
            name: String::from_str("user-homes"),
            source: String::from_str("/home"),
            destination: String::from_str("home"),
            enabled: true,
            exclude: user_excludes,
        };
        let mut jobs: Vec<BackupJob> = Vec::new();
        jobs.push(system_config);
        jobs.push(user_homes);
        Config {
            repository: Repository {
                path: String::from_str("/tmp/borg"),
                encryption: String::from_str("repokey-blake2"),
            },
            jobs,
            exclusions: Vec::new(),
            compression: String::from_str("lz4"),
            options: Options {
                one_file_system: true,
                exclude_caches: true,
                show_progress: false,
                show_stats: true,
            },
            retention: Retention {
                within: String::from_str("24H"),
                hourly: 24,
                daily: 7,
                weekly: 4,
                monthly: 6,
                yearly: 1,
            },
            notifications: Notifications {
                enabled: false,
                email: String::from_str("root@localhost"),
            },
            logging: Logging {
                log_file: String::from_str("/var/log/borg-backup.log"),
                lock_file: String::from_str("/tmp/borg-backup.lock"),
            },
            maintenance: Maintenance {
                check_day: 7,
                auto_compact: true,
            },
            security: Security {
                passphrase_file: String::from_str("/root/.borg-passphrase"),
            },
        }
    }
}

} // verus!
