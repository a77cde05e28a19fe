use borg_timemachine::config::Config;
use borg_timemachine::default_true;

#[test]
fn test_load_default_config() {
    let config = Config::example();
    assert_eq!(config.repository.path, "/tmp/borg");
    assert_eq!(config.compression, "lz4");
    assert!(!config.jobs.is_empty());
    assert!(config.maintenance.check_day <= 7);
}

#[test]
fn test_config_jobs() {
    let config = Config::example();
    assert!(config.jobs.iter().any(|j| j.name == "system-config"));
    assert!(config.jobs.iter().any(|j| j.name == "user-homes"));
}

#[test]
fn test_retention_policy() {
    let config = Config::example();
    assert_eq!(config.retention.within, "24H");
    assert_eq!(config.retention.hourly, 24);
    assert_eq!(config.retention.daily, 7);
}

#[test]
fn test_backup_job_enabled_default() {
    let config = Config::example();
    for job in &config.jobs {
        assert!(job.enabled);
    }
}

#[test]
fn test_default_true_is_true() {
    assert!(default_true());
}
