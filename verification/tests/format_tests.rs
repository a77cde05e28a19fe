use borg_timemachine::clock::archive_name;
use borg_timemachine::clock::format_log_line;
use borg_timemachine::clock::format_timestamp;
use borg_timemachine::clock::format_year;
use borg_timemachine::clock::now_parts;
use borg_timemachine::clock::TimeParts;
use borg_timemachine::cycle::CycleError;
use borg_timemachine::cycle::LogEvent;
use borg_timemachine::cycle::Stage;
use borg_timemachine::messages::error_text;
use borg_timemachine::messages::event_text;
use borg_timemachine::messages::notification_body;
use borg_timemachine::messages::notification_subject;
use borg_timemachine::messages::stage_name;
use borg_timemachine::numfmt::format_u32;
use borg_timemachine::numfmt::format_u32_padded;

fn sample_time() -> TimeParts {
    TimeParts {
        year: 2024,
        month: 3,
        day: 9,
        hour: 7,
        minute: 5,
        second: 42,
        weekday: 6,
    }
}

#[test]
fn decimal_formatting() {
    assert_eq!(format_u32(0), "0");
    assert_eq!(format_u32(7), "7");
    assert_eq!(format_u32(24), "24");
    assert_eq!(format_u32(4294967295), "4294967295");
    assert_eq!(format_u32_padded(7, 2), "07");
    assert_eq!(format_u32_padded(42, 2), "42");
    assert_eq!(format_u32_padded(0, 4), "0000");
    assert_eq!(format_u32_padded(12345, 4), "12345");
    assert_eq!(format_year(2024), "2024");
    assert_eq!(format_year(33), "0033");
    assert_eq!(format_year(-5), "-0005");
}

#[test]
fn timestamp_formatting() {
    let t = sample_time();
    assert_eq!(format_timestamp(&t), "2024-03-09 07:05:42");
    assert_eq!(archive_name("myhost", &t), "myhost-2024-03-09-070542");
    assert_eq!(
        format_log_line(&t, "Backup cycle complete"),
        "[2024-03-09 07:05:42] Backup cycle complete\n"
    );
}

#[test]
fn archive_names_sort_by_creation_time() {
    let earlier = sample_time();
    let mut later = sample_time();
    later.second = 43;
    assert!(archive_name("h", &earlier) < archive_name("h", &later));
    let mut next_month = sample_time();
    next_month.month = 10;
    assert!(archive_name("h", &earlier) < archive_name("h", &next_month));
}

#[test]
fn clock_reading_is_well_formed() {
    let t = now_parts();
    assert!((1..=12).contains(&t.month));
    assert!((1..=31).contains(&t.day));
    assert!(t.hour <= 23 && t.minute <= 59 && t.second <= 59);
    assert!((1..=7).contains(&t.weekday));
}

#[test]
fn error_texts() {
    assert_eq!(
        error_text(&CycleError::LockHeld, "/tmp/b.lock", ""),
        "Lock file exists at /tmp/b.lock. Another backup may be running."
    );
    assert_eq!(
        error_text(&CycleError::LockCreateFailed, "", "denied"),
        "Failed to create lock file: denied"
    );
    assert_eq!(
        error_text(&CycleError::LogOpenFailed, "", "denied"),
        "Failed to open log file: denied"
    );
    assert_eq!(
        error_text(&CycleError::SpawnError(Stage::Create), "", "not found"),
        "Failed to run borg create: not found"
    );
    assert_eq!(
        error_text(&CycleError::StageExitError(Stage::Prune, 2), "", ""),
        "borg prune failed with exit code 2"
    );
    assert_eq!(
        error_text(&CycleError::StageExitError(Stage::Check, 3), "", ""),
        "Repository integrity check failed with exit code 3"
    );
}

#[test]
fn event_texts() {
    assert_eq!(
        event_text(&LogEvent::StartingBackup, "host-2024-01-01-000000", ""),
        "Starting backup: host-2024-01-01-000000"
    );
    assert_eq!(
        event_text(&LogEvent::BackupSuccess, "", ""),
        "Backup created successfully"
    );
    assert_eq!(
        event_text(&LogEvent::BackupWarning, "", ""),
        "Backup created with warnings (some files may have been skipped)"
    );
    assert_eq!(event_text(&LogEvent::PruneStart, "", ""), "Pruning old backups...");
    assert_eq!(event_text(&LogEvent::PruneDone, "", ""), "Prune completed");
    assert_eq!(
        event_text(&LogEvent::CompactStart, "", ""),
        "Compacting repository..."
    );
    assert_eq!(event_text(&LogEvent::CompactDone, "", ""), "Compact completed");
    assert_eq!(
        event_text(&LogEvent::CheckStart, "", ""),
        "Running weekly integrity check..."
    );
    assert_eq!(event_text(&LogEvent::CheckDone, "", ""), "Integrity check passed");
    assert_eq!(
        event_text(&LogEvent::StageWarning(Stage::Prune), "", ""),
        "Prune completed with warnings"
    );
    assert_eq!(
        event_text(&LogEvent::StageWarning(Stage::Compact), "", ""),
        "Compact completed with warnings"
    );
    assert_eq!(
        event_text(&LogEvent::StageWarning(Stage::Check), "", ""),
        "Integrity check passed with warnings"
    );
    assert_eq!(
        event_text(&LogEvent::CycleComplete, "", ""),
        "Backup cycle complete"
    );
    assert_eq!(
        event_text(&LogEvent::ErrorLine(CycleError::LockHeld), "", "boom"),
        "ERROR: boom"
    );
}

#[test]
fn notification_texts() {
    assert_eq!(stage_name(Stage::Compact), "compact");
    assert_eq!(notification_subject("myhost"), "Backup Failure on myhost");
    assert_eq!(
        notification_body("borg create failed with exit code 2"),
        "Borg backup failed: borg create failed with exit code 2"
    );
}
