use borg_timemachine::args::check_args;
use borg_timemachine::args::compact_args;
use borg_timemachine::args::create_args;
use borg_timemachine::args::info_args;
use borg_timemachine::args::init_args;
use borg_timemachine::args::list_args;
use borg_timemachine::args::mount_args;
use borg_timemachine::args::prune_args;
use borg_timemachine::config::BackupJob;
use borg_timemachine::config::Config;
use borg_timemachine::config::Logging;
use borg_timemachine::config::Maintenance;
use borg_timemachine::config::Notifications;
use borg_timemachine::config::Options;
use borg_timemachine::config::Repository;
use borg_timemachine::config::Retention;
use borg_timemachine::config::Security;

fn base_config() -> Config {
    Config {
        repository: Repository {
            path: "/backups/repo".to_string(),
            encryption: "repokey".to_string(),
        },
        jobs: Vec::new(),
        exclusions: Vec::new(),
        compression: "lz4".to_string(),
        options: Options {
            one_file_system: false,
            exclude_caches: false,
            show_progress: false,
            show_stats: false,
        },
        retention: Retention {
            within: "24H".to_string(),
            hourly: 24,
            daily: 7,
            weekly: 4,
            monthly: 6,
            yearly: 1,
        },
        notifications: Notifications {
            enabled: false,
            email: "ops@example.com".to_string(),
        },
        logging: Logging {
            log_file: "/var/log/backup.log".to_string(),
            lock_file: "/tmp/backup.lock".to_string(),
        },
        maintenance: Maintenance {
            check_day: 0,
            auto_compact: false,
        },
        security: Security {
            passphrase_file: "/root/.pass".to_string(),
        },
    }
}

#[test]
fn create_args_scenario_one_job() {
    // One enabled job {source: "/etc", exclude: ["*.tmp"]}, no global
    // exclusions, compression "lz4": the arguments end with
    // --compression=lz4 <repo>::<archive> /etc --exclude *.tmp
    let mut c = base_config();
    c.jobs.push(BackupJob {
        name: "etc".to_string(),
        source: "/etc".to_string(),
        destination: "etc".to_string(),
        enabled: true,
        exclude: vec!["*.tmp".to_string()],
    });
    let args = create_args(&c, "host-2024-03-01-120000");
    assert_eq!(
        args,
        vec![
            "create".to_string(),
            "--compression=lz4".to_string(),
            "/backups/repo::host-2024-03-01-120000".to_string(),
            "/etc".to_string(),
            "--exclude".to_string(),
            "*.tmp".to_string(),
        ]
    );
}

#[test]
fn create_args_disabled_jobs_contribute_nothing() {
    let mut c = base_config();
    c.jobs.push(BackupJob {
        name: "off-first".to_string(),
        source: "/srv".to_string(),
        destination: "srv".to_string(),
        enabled: false,
        exclude: vec!["*.bak".to_string()],
    });
    c.jobs.push(BackupJob {
        name: "on".to_string(),
        source: "/etc".to_string(),
        destination: "etc".to_string(),
        enabled: true,
        exclude: Vec::new(),
    });
    c.jobs.push(BackupJob {
        name: "off-last".to_string(),
        source: "/opt".to_string(),
        destination: "opt".to_string(),
        enabled: false,
        exclude: vec!["*.log".to_string()],
    });
    let args = create_args(&c, "a");
    assert!(!args.contains(&"/srv".to_string()));
    assert!(!args.contains(&"/opt".to_string()));
    assert!(!args.contains(&"*.bak".to_string()));
    assert!(!args.contains(&"*.log".to_string()));
    assert_eq!(
        args,
        vec![
            "create".to_string(),
            "--compression=lz4".to_string(),
            "/backups/repo::a".to_string(),
            "/etc".to_string(),
        ]
    );
}

#[test]
fn create_args_flags_and_global_exclusions() {
    let mut c = base_config();
    c.options.show_stats = true;
    c.options.show_progress = true;
    c.options.one_file_system = true;
    c.options.exclude_caches = true;
    c.exclusions.push("*.cache".to_string());
    c.exclusions.push("*.swp".to_string());
    let args = create_args(&c, "x");
    assert_eq!(
        args,
        vec![
            "create".to_string(),
            "--stats".to_string(),
            "--progress".to_string(),
            "--one-file-system".to_string(),
            "--exclude-caches".to_string(),
            "--compression=lz4".to_string(),
            "--exclude".to_string(),
            "*.cache".to_string(),
            "--exclude".to_string(),
            "*.swp".to_string(),
            "/backups/repo::x".to_string(),
        ]
    );
}

#[test]
fn create_args_job_exclusions_adjacent_to_source() {
    let mut c = base_config();
    c.jobs.push(BackupJob {
        name: "a".to_string(),
        source: "/a".to_string(),
        destination: "a".to_string(),
        enabled: true,
        exclude: vec!["a1".to_string(), "a2".to_string()],
    });
    c.jobs.push(BackupJob {
        name: "b".to_string(),
        source: "/b".to_string(),
        destination: "b".to_string(),
        enabled: true,
        exclude: vec!["b1".to_string()],
    });
    let args = create_args(&c, "n");
    let tail: Vec<String> = args[3..].to_vec();
    assert_eq!(
        tail,
        vec![
            "/a".to_string(),
            "--exclude".to_string(),
            "a1".to_string(),
            "--exclude".to_string(),
            "a2".to_string(),
            "/b".to_string(),
            "--exclude".to_string(),
            "b1".to_string(),
        ]
    );
}

#[test]
fn prune_args_exact() {
    let c = base_config();
    let args = prune_args(&c, "myhost");
    assert_eq!(
        args,
        vec![
            "prune".to_string(),
            "--list".to_string(),
            "--prefix=myhost-".to_string(),
            "--keep-within=24H".to_string(),
            "--keep-hourly=24".to_string(),
            "--keep-daily=7".to_string(),
            "--keep-weekly=4".to_string(),
            "--keep-monthly=6".to_string(),
            "--keep-yearly=1".to_string(),
            "/backups/repo".to_string(),
        ]
    );
}

#[test]
fn one_shot_args_exact() {
    let c = base_config();
    assert_eq!(
        compact_args(&c),
        vec!["compact".to_string(), "/backups/repo".to_string()]
    );
    assert_eq!(
        check_args(&c),
        vec!["check".to_string(), "/backups/repo".to_string()]
    );
    assert_eq!(
        info_args(&c),
        vec!["info".to_string(), "/backups/repo".to_string()]
    );
    assert_eq!(
        list_args(&c),
        vec!["list".to_string(), "/backups/repo".to_string()]
    );
    assert_eq!(
        init_args(&c),
        vec![
            "init".to_string(),
            "--encryption=repokey".to_string(),
            "/backups/repo".to_string(),
        ]
    );
    assert_eq!(
        mount_args(&c, "/mnt/borg"),
        vec![
            "mount".to_string(),
            "/backups/repo".to_string(),
            "/mnt/borg".to_string(),
        ]
    );
}
